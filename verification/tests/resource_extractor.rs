use storekeeper::notification::{extract_resource_info, ResourceData, ResourceInfo};
use storekeeper::resource::{CooldownResource, ExpeditionResource, StaminaResource};

const MINUTE: i64 = 60;
const HOUR: i64 = 3600;

fn now() -> i64 {
    chrono::Utc::now().timestamp()
}

#[test]
fn extract_stamina_resource() {
    let now = now();
    let future = now + 2 * HOUR;
    let data = ResourceData::Stamina(StaminaResource::with_step_units(100, 160, future, 480, 1));
    let info = extract_resource_info("resin", Some(data), now).expect("should extract stamina resource");
    assert!(!info.is_complete);
    assert!((info.completion_at - future).abs() < 2);
}

#[test]
fn extract_stamina_resource_full() {
    let now = now();
    let data = ResourceData::Stamina(StaminaResource::with_step_units(160, 160, now - HOUR, 480, 1));
    let info = extract_resource_info("resin", Some(data), now).expect("should extract full stamina resource");
    assert!(info.is_complete);
}

#[test]
fn extract_cooldown_resource_ready() {
    let now = now();
    let data = ResourceData::Cooldown(CooldownResource::new(true, now - HOUR));
    let info = extract_resource_info("parametric_transformer", Some(data), now).expect("should extract cooldown resource");
    assert!(info.is_complete);
}

#[test]
fn extract_cooldown_resource_not_ready() {
    let now = now();
    let data = ResourceData::Cooldown(CooldownResource::new(false, now + 12 * HOUR));
    let info = extract_resource_info("parametric_transformer", Some(data), now).expect("should extract cooldown resource");
    assert!(!info.is_complete);
}

#[test]
fn extract_expedition_resource_completed() {
    let now = now();
    let data = ResourceData::Expedition(ExpeditionResource::new(3, 5, now - 30 * MINUTE));
    let info = extract_resource_info("expeditions", Some(data), now).expect("should extract expedition resource");
    assert!(info.is_complete);
}

#[test]
fn extract_expedition_resource_pending() {
    let now = now();
    let data = ResourceData::Expedition(ExpeditionResource::new(3, 5, now + 6 * HOUR));
    let info = extract_resource_info("expeditions", Some(data), now).expect("should extract expedition resource");
    assert!(!info.is_complete);
}

#[test]
fn extract_unknown_resource_returns_none() {
    assert!(extract_resource_info("unknown_resource", None, now()).is_none());
}

fn stamina_info(completion_at: i64, is_complete: bool, current: u64, max: u64, rate: u64) -> ResourceInfo {
    ResourceInfo {
        completion_at,
        is_complete,
        current: Some(current),
        max: Some(max),
        regen_rate_seconds: Some(rate),
        regen_step_units: Some(1),
    }
}

#[test]
fn estimated_current_matches_threshold_exactly() {
    let now = now();
    let info = stamina_info(now + 360 * MINUTE, false, 179, 240, 360);
    assert_eq!(info.estimated_current(now), Some(180));
}

#[test]
fn estimated_current_one_second_before_tick() {
    let now = now();
    let info = stamina_info(now + 360 * MINUTE + 1, false, 179, 240, 360);
    assert_eq!(info.estimated_current(now), Some(179));
}

#[test]
fn estimated_current_one_second_after_tick() {
    let now = now();
    let info = stamina_info(now + 360 * MINUTE - 1, false, 179, 240, 360);
    assert_eq!(info.estimated_current(now), Some(180));
}

#[test]
fn estimated_current_when_full() {
    let now = now();
    let info = stamina_info(now - 5 * MINUTE, true, 240, 240, 360);
    assert_eq!(info.estimated_current(now), Some(240));
}

#[test]
fn estimated_current_past_completion() {
    let now = now();
    let info = stamina_info(now - MINUTE, false, 239, 240, 360);
    assert_eq!(info.estimated_current(now), Some(240));
}

fn realm_info(now: i64, secs_to_full: i64) -> ResourceInfo {
    ResourceInfo {
        completion_at: now + secs_to_full,
        is_complete: false,
        current: Some(1980),
        max: Some(2400),
        regen_rate_seconds: Some(3600),
        regen_step_units: Some(30),
    }
}

#[test]
fn estimated_current_holds_flat_between_hourly_credits() {
    let now = now();
    assert_eq!(realm_info(now, 14 * 3600).estimated_current(now), Some(1980));
    assert_eq!(realm_info(now, 13 * 3600 + 1).estimated_current(now), Some(1980));
}

#[test]
fn estimated_current_never_reads_below_the_polled_value() {
    let now = now();
    let info = ResourceInfo {
        completion_at: now + 47 * 3600,
        is_complete: false,
        current: Some(1000),
        max: Some(2400),
        regen_rate_seconds: Some(3600),
        regen_step_units: Some(30),
    };
    assert_eq!(info.estimated_current(now), Some(1000));
}

#[test]
fn estimated_current_advances_one_step_per_hour() {
    let now = now();
    assert_eq!(realm_info(now, 13 * 3600).estimated_current(now), Some(2010));
}

#[test]
fn estimated_current_no_rate_falls_back() {
    let now = now();
    let info = ResourceInfo {
        completion_at: now + HOUR,
        is_complete: false,
        current: Some(100),
        max: Some(160),
        regen_rate_seconds: None,
        regen_step_units: None,
    };
    assert_eq!(info.estimated_current(now), Some(100));
}

#[test]
fn from_constructors_copy_the_timing() {
    let s = StaminaResource::with_step_units(10, 20, 500, 60, 2);
    let info = ResourceInfo::from_stamina(&s);
    assert_eq!(info.completion_at, 500);
    assert!(!info.is_complete);
    assert_eq!((info.current, info.max, info.regen_rate_seconds, info.regen_step_units), (Some(10), Some(20), Some(60), Some(2)));
    let c = ResourceInfo::from_cooldown(&CooldownResource::on_cooldown(900));
    assert_eq!((c.completion_at, c.is_complete, c.current), (900, false, None));
    let e = ResourceInfo::from_expedition(&ExpeditionResource::new(1, 4, 700), 700);
    assert!(e.is_complete);
}

#[test]
fn estimated_current_never_goes_down_as_time_passes() {
    let info = ResourceInfo {
        completion_at: 100_000,
        is_complete: false,
        current: Some(1000),
        max: Some(2400),
        regen_rate_seconds: Some(3600),
        regen_step_units: Some(30),
    };
    let mut last = 0;
    for now in (0..110_000).step_by(997) {
        let v = info.estimated_current(now).expect("stamina has an estimate");
        assert!(v >= last, "estimate fell from {last} to {v} at {now}");
        last = v;
    }
    assert_eq!(last, 2400);
}
