use storekeeper::resource::{CooldownResource, ExpeditionResource, StaminaResource};

fn now() -> i64 {
    chrono::Utc::now().timestamp()
}

#[test]
fn test_stamina_resource_new() {
    let now = now();
    let resource = StaminaResource::new(100, 160, now, 480);
    assert_eq!(resource.current, 100);
    assert_eq!(resource.max, 160);
    assert_eq!(resource.full_at, now);
    assert_eq!(resource.regen_rate_seconds, 480);
    assert_eq!(resource.regen_step_units, 1);
}

#[test]
fn test_stamina_is_full_when_current_equals_max() {
    assert!(StaminaResource::new(160, 160, now(), 480).is_full(), "Should be full when current equals max");
}

#[test]
fn test_stamina_is_full_when_current_exceeds_max() {
    assert!(StaminaResource::new(180, 160, now(), 480).is_full(), "Should be full when current exceeds max");
}

#[test]
fn test_stamina_is_not_full_when_current_less_than_max() {
    assert!(!StaminaResource::new(100, 160, now(), 480).is_full(), "Should not be full when current is less than max");
}

#[test]
fn test_stamina_is_not_full_at_zero() {
    assert!(!StaminaResource::new(0, 160, now(), 480).is_full(), "Should not be full at zero");
}

#[test]
fn test_cooldown_resource_new() {
    let now = now();
    let resource = CooldownResource::new(true, now);
    assert!(resource.is_ready);
    assert_eq!(resource.ready_at, now);
}

#[test]
fn test_cooldown_ready_factory() {
    let before = now();
    let resource = CooldownResource::ready();
    let after = now();
    assert!(resource.is_ready, "ready() should create a ready resource");
    assert!(resource.ready_at >= before && resource.ready_at <= after, "ready_at should be approximately now");
}

#[test]
fn test_cooldown_on_cooldown_factory() {
    let future_time = now() + 24 * 3600;
    let resource = CooldownResource::on_cooldown(future_time);
    assert!(!resource.is_ready, "on_cooldown() should create a not-ready resource");
    assert_eq!(resource.ready_at, future_time);
}

#[test]
fn test_expedition_resource_new() {
    let now = now();
    let resource = ExpeditionResource::new(3, 5, now);
    assert_eq!(resource.current_expeditions, 3);
    assert_eq!(resource.max_expeditions, 5);
    assert_eq!(resource.earliest_finish_at, now);
}

#[test]
fn test_all_slots_used_when_full() {
    assert!(ExpeditionResource::new(5, 5, now()).all_slots_used());
}

#[test]
fn test_all_slots_used_when_over_max() {
    assert!(ExpeditionResource::new(6, 5, now()).all_slots_used());
}

#[test]
fn test_all_slots_not_used_when_below_max() {
    assert!(!ExpeditionResource::new(3, 5, now()).all_slots_used());
}

#[test]
fn test_all_slots_not_used_at_zero() {
    assert!(!ExpeditionResource::new(0, 5, now()).all_slots_used());
}

#[test]
fn test_has_completed_when_finish_time_is_past() {
    let resource = ExpeditionResource::new(3, 5, now() - 3600);
    assert!(resource.has_completed());
}

#[test]
fn test_has_completed_when_finish_time_is_now() {
    let now = now();
    let resource = ExpeditionResource::new(3, 5, now);
    assert!(resource.has_completed());
    assert!(resource.has_completed_at(now));
}

#[test]
fn test_has_not_completed_when_finish_time_is_future() {
    let resource = ExpeditionResource::new(3, 5, now() + 3600);
    assert!(!resource.has_completed());
}

#[test]
fn has_completed_at_compares_with_the_given_instant() {
    let resource = ExpeditionResource::new(1, 4, 1000);
    assert!(!resource.has_completed_at(999));
    assert!(resource.has_completed_at(1000));
    assert!(resource.has_completed_at(1001));
}
