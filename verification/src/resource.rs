//! Resource records of stamina-like resources, cooldown items and
//! expeditions. Instants are whole seconds since the Unix epoch.

use vstd::prelude::*;
use crate::clock::{jiff_max_second, jiff_min_second, jiff_now_seconds};

verus! {

/// Shared resource data for stamina-like resources (Resin, Trailblaze Power,
/// Battery, Waveplates, Realm Currency).
#[derive(Debug, Clone, Copy, PartialEq, Eq, Structural)]
pub struct StaminaResource {
    /// Current amount of the resource.
    pub current: u32,
    /// Maximum capacity of the resource.
    pub max: u32,
    /// Instant when the resource will be fully recovered.
    pub full_at: i64,
    /// How many seconds one accrual step takes.
    pub regen_rate_seconds: u32,
    /// Units credited per accrual step.
    pub regen_step_units: u32,
}

impl StaminaResource {
    /// Creates a new stamina resource that accrues one unit per step.
    pub fn new(current: u32, max: u32, full_at: i64, regen_rate_seconds: u32) -> (r: Self)
        ensures
            r == (StaminaResource { current, max, full_at, regen_rate_seconds, regen_step_units: 1 }),
    {
        StaminaResource { current, max, full_at, regen_rate_seconds, regen_step_units: 1 }
    }

    /// Creates a new stamina resource that accrues `regen_step_units` per step.
    pub fn with_step_units(
        current: u32,
        max: u32,
        full_at: i64,
        regen_rate_seconds: u32,
        regen_step_units: u32,
    ) -> (r: Self)
        ensures
            r == (StaminaResource { current, max, full_at, regen_rate_seconds, regen_step_units }),
    {
        StaminaResource { current, max, full_at, regen_rate_seconds, regen_step_units }
    }

    /// Returns true if the resource is at (or over) maximum capacity.
    pub fn is_full(&self) -> (b: bool)
        ensures
            b == (self.current >= self.max),
    {
        self.current >= self.max
    }
}

/// Shared cooldown data for items like the Parametric Transformer.
#[derive(Debug, Clone, Copy, PartialEq, Eq, Structural)]
pub struct CooldownResource {
    /// Whether the item is ready to use.
    pub is_ready: bool,
    /// Instant when the item will be ready.
    pub ready_at: i64,
}

impl CooldownResource {
    /// Creates a new cooldown resource.
    pub fn new(is_ready: bool, ready_at: i64) -> (r: Self)
        ensures
            r == (CooldownResource { is_ready, ready_at }),
    {
        CooldownResource { is_ready, ready_at }
    }

    /// Creates a cooldown resource that is ready now.
    pub fn ready() -> (r: Self)
        ensures
            r.is_ready,
            jiff_min_second() <= r.ready_at <= jiff_max_second(),
    {
        CooldownResource { is_ready: true, ready_at: jiff_now_seconds() }
    }

    /// Creates a cooldown resource that is on cooldown until `ready_at`.
    pub fn on_cooldown(ready_at: i64) -> (r: Self)
        ensures
            r == (CooldownResource { is_ready: false, ready_at }),
    {
        CooldownResource { is_ready: false, ready_at }
    }
}

/// Expedition tracking data.
#[derive(Debug, Clone, Copy, PartialEq, Eq, Structural)]
pub struct ExpeditionResource {
    /// Number of currently active expeditions.
    pub current_expeditions: u32,
    /// Maximum number of expeditions allowed.
    pub max_expeditions: u32,
    /// Instant when the earliest expedition finishes.
    pub earliest_finish_at: i64,
}

/// An expedition has finished by `now`.
pub open spec fn finished_by(e: ExpeditionResource, now: int) -> bool {
    e.earliest_finish_at <= now
}

impl ExpeditionResource {
    /// Creates a new expedition resource.
    pub fn new(current_expeditions: u32, max_expeditions: u32, earliest_finish_at: i64) -> (r: Self)
        ensures
            r == (ExpeditionResource { current_expeditions, max_expeditions, earliest_finish_at }),
    {
        ExpeditionResource { current_expeditions, max_expeditions, earliest_finish_at }
    }

    /// Returns true if all expedition slots are in use.
    pub fn all_slots_used(&self) -> (b: bool)
        ensures
            b == (self.current_expeditions >= self.max_expeditions),
    {
        self.current_expeditions >= self.max_expeditions
    }

    /// Returns true if an expedition has finished by `now`.
    pub fn has_completed_at(&self, now: i64) -> (b: bool)
        ensures
            b == (self.earliest_finish_at <= now),
    {
        self.earliest_finish_at <= now
    }

    /// Returns true if an expedition has finished by the current instant.
    pub fn has_completed(&self) -> (b: bool)
        ensures
            exists|now: int| jiff_min_second() <= now <= jiff_max_second() && b == #[trigger] finished_by(*self, now),
    {
        let now = jiff_now_seconds();
        let b = self.has_completed_at(now);
        assert(b == finished_by(*self, now as int));
        b
    }
}

/// What a game's resource type shows: a display name and an icon.
pub trait DisplayableResource {
    /// The human-readable display name of the resource.
    fn display_name(&self) -> &'static str;

    /// The icon identifier of the resource.
    fn icon(&self) -> &'static str;
}

} // verus!
