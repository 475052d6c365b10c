//! The SPARK MAX motor controller: its motor types, and the pacing rule that
//! spaces updates of its output.
//!
//! Times are counted in nanoseconds from a fixed instant that the caller
//! chooses once for each controller.

use vstd::prelude::*;

use super::ffi;

verus! {

/// The kind of motor attached to a SPARK MAX controller.
#[derive(Clone, Copy, Debug, PartialEq, Eq, Structural)]
pub enum MotorType {
    Brushed,
    Brushless,
}

/// The C++ motor type that stands for a motor type.
pub open spec fn motor_type_to_ffi(t: MotorType) -> ffi::MotorType {
    match t {
        MotorType::Brushed => ffi::MotorType::kBrushed,
        MotorType::Brushless => ffi::MotorType::kBrushless,
    }
}

/// The motor type that a C++ motor type stands for.
pub open spec fn motor_type_from_ffi(t: ffi::MotorType) -> MotorType {
    match t {
        ffi::MotorType::kBrushed => MotorType::Brushed,
        ffi::MotorType::kBrushless => MotorType::Brushless,
    }
}

impl From<ffi::MotorType> for MotorType {
    fn from(value: ffi::MotorType) -> (res: Self) {
        match value {
            ffi::MotorType::kBrushed => MotorType::Brushed,
            ffi::MotorType::kBrushless => MotorType::Brushless,
        }
    }
}

impl vstd::std_specs::convert::FromSpecImpl<ffi::MotorType> for MotorType {
    open spec fn obeys_from_spec() -> bool {
        true
    }

    open spec fn from_spec(v: ffi::MotorType) -> Self {
        motor_type_from_ffi(v)
    }
}

impl From<MotorType> for ffi::MotorType {
    fn from(value: MotorType) -> (res: Self) {
        match value {
            MotorType::Brushed => ffi::MotorType::kBrushed,
            MotorType::Brushless => ffi::MotorType::kBrushless,
        }
    }
}

impl vstd::std_specs::convert::FromSpecImpl<MotorType> for ffi::MotorType {
    open spec fn obeys_from_spec() -> bool {
        true
    }

    open spec fn from_spec(v: MotorType) -> Self {
        motor_type_to_ffi(v)
    }
}

/// Converting a motor type to its C++ counterpart and back gives it again,
/// in both directions.
pub proof fn lemma_motor_type_round_trip(t: MotorType, f: ffi::MotorType)
    ensures
        motor_type_from_ffi(motor_type_to_ffi(t)) == t,
        motor_type_to_ffi(motor_type_from_ffi(f)) == f,
{
}

/// The least time, in nanoseconds, between the moments at which two
/// successive output updates are reported done: 10 ms.
pub const SET_PERIOD_NS: u64 = 10_000_000;

/// The time at which an output update that starts at `now` is reported
/// done, after the last one was reported done at `last`: not before one
/// period has passed since `last`, and never in the past.
pub open spec fn next_time_last_set(last: int, now: int) -> int {
    if last + SET_PERIOD_NS >= now {
        last + SET_PERIOD_NS
    } else {
        now
    }
}

/// The pacing state of one SPARK MAX controller: the time at which its last
/// output update was, or will be, reported done.
pub struct SetPacer {
    time_last_set: u64,
}

impl View for SetPacer {
    type V = int;

    closed spec fn view(&self) -> int {
        self.time_last_set as int
    }
}

impl SetPacer {
    /// A pacer for a controller created at `now`.
    pub fn new(now: u64) -> (res: SetPacer)
        ensures
            res@ == now,
    {
        SetPacer { time_last_set: now }
    }

    /// The time at which the last output update is reported done.
    pub fn time_last_set(&self) -> (t: u64)
        ensures
            t == self@,
    {
        self.time_last_set
    }

    /// Paces an output update whose command was sent at `now`. Returns the
    /// time until which the caller waits before the update counts as done:
    /// one period after the last update was done. The pacer then records, as
    /// the time of this update, that deadline, or `now` if the deadline has
    /// already passed.
    pub fn set(&mut self, now: u64) -> (deadline: u64)
        requires
            old(self)@ + SET_PERIOD_NS <= u64::MAX,
        ensures
            deadline == old(self)@ + SET_PERIOD_NS,
            final(self)@ == next_time_last_set(old(self)@, now as int),
    {
        let deadline = self.time_last_set + SET_PERIOD_NS;
        self.time_last_set = if deadline >= now {
            deadline
        } else {
            now
        };
        deadline
    }
}

/// The recorded time never moves backwards, is never before the start of
/// the update, and is never less than one period after the previous one.
pub proof fn lemma_time_last_set_monotone(last: int, now: int)
    ensures
        next_time_last_set(last, now) >= last + SET_PERIOD_NS,
        next_time_last_set(last, now) >= now,
        next_time_last_set(last, now) == last + SET_PERIOD_NS || next_time_last_set(last, now) == now,
{
}

/// Two successive updates, started at `now1` and then `now2`, wait for
/// deadlines at least one period apart, and the second waits at least one
/// period past the start of the first: a loop of updates runs at most once
/// per period.
pub proof fn lemma_successive_deadlines(last: int, now1: int, now2: int)
    ensures
        ({
            let deadline1 = last + SET_PERIOD_NS;
            let last1 = next_time_last_set(last, now1);
            let deadline2 = last1 + SET_PERIOD_NS;
            &&& deadline2 >= deadline1 + SET_PERIOD_NS
            &&& deadline2 >= now1 + SET_PERIOD_NS
        }),
{
}

} // verus!
