//! The two scheduling tiers and the tasks that run in them.

use vstd::prelude::*;

verus! {

/// A priority class of cooperative tasks. A task of the high tier runs as soon as it is
/// due, also while a task of the low tier is at work.
#[derive(Clone, Copy, Debug, PartialEq, Eq, Structural)]
pub enum Tier {
    High,
    Low,
}

/// The point at which a task hands control back to its tier.
#[derive(Clone, Copy, Debug, PartialEq, Eq, Structural)]
pub enum Suspension {
    /// A timer: the end of a pulse, or the next tick of the task's period.
    Timer,
    /// The next write to the cell that the task follows.
    Change,
    /// The next transfer on the remote link.
    Link,
}

/// A task of the control core.
#[derive(Clone, Copy, Debug, PartialEq, Eq, Structural)]
pub enum Task {
    TiltServo,
    PanServo,
    ArmLed,
    StatusLed,
    RpcServer,
}

impl Task {
    /// The task puts pulses on a servo line, whose timing must not wait for other work.
    pub open spec fn is_servo(self) -> bool {
        self == Task::TiltServo || self == Task::PanServo
    }

    /// The tier that the task runs in: the high one for the servo tasks alone.
    pub fn tier(self) -> (tier: Tier)
        ensures
            tier == Tier::High <==> self.is_servo(),
    {
        match self {
            Task::TiltServo | Task::PanServo => Tier::High,
            Task::ArmLed | Task::StatusLed | Task::RpcServer => Tier::Low,
        }
    }

    /// Where each turn of the task ends.
    pub fn suspends_at(self) -> (point: Suspension)
        ensures
            point == Suspension::Timer <==> self.is_servo() || self == Task::StatusLed,
            point == Suspension::Change <==> self == Task::ArmLed,
            point == Suspension::Link <==> self == Task::RpcServer,
    {
        match self {
            Task::TiltServo | Task::PanServo | Task::StatusLed => Suspension::Timer,
            Task::ArmLed => Suspension::Change,
            Task::RpcServer => Suspension::Link,
        }
    }
}

impl Tier {
    /// Tells whether a task of this tier interrupts a running task of `other`.
    pub fn preempts(self, other: Tier) -> (yes: bool)
        ensures
            yes <==> self == Tier::High && other == Tier::Low,
    {
        match (self, other) {
            (Tier::High, Tier::Low) => true,
            _ => false,
        }
    }
}

} // verus!
