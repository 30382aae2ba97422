//! Which actions the state of a machine allows. Nothing here talks to the
//! service: it classifies what was already fetched, and the service stays
//! the final judge.
use vstd::prelude::*;

use crate::model::{MachineData, MachineState};

verus! {

/// Whether a machine in `state` may be reserved.
pub open spec fn reservable(state: MachineState) -> bool {
    state is Available
}

/// Whether a machine in `state` may be stopped.
pub open spec fn stoppable(state: MachineState) -> bool {
    state is Occupied || state is Stoppable
}

/// The verdict on an action: allowed, or refused with a reason for a person.
#[derive(Debug, Clone, PartialEq, Eq)]
pub enum Legality {
    Legal,
    Illegal(String),
}

/// The reason given when a reservation is refused.
pub open spec fn reserve_refusal() -> Seq<char> {
    "machine is not currently available"@
}

/// The reason given when a stop is refused.
pub open spec fn stop_refusal() -> Seq<char> {
    "machine has no running session to stop"@
}

/// Whether a machine in `state` may be reserved: only when it is available.
pub fn can_reserve(state: &MachineState) -> (r: bool)
    ensures
        r == reservable(*state),
{
    match state {
        MachineState::Available => true,
        _ => false,
    }
}

/// Whether a machine in `state` may be stopped: only while it is occupied or
/// stoppable.
pub fn can_stop(state: &MachineState) -> (r: bool)
    ensures
        r == stoppable(*state),
{
    match state {
        MachineState::Occupied | MachineState::Stoppable => true,
        _ => false,
    }
}

/// The verdict on reserving `machine`.
pub fn check_reserve(machine: &MachineData) -> (r: Legality)
    ensures
        reservable(machine.state) ==> r == Legality::Legal,
        !reservable(machine.state) ==> (r matches Legality::Illegal(why) && why@
            == reserve_refusal()),
{
    if can_reserve(&machine.state) {
        Legality::Legal
    } else {
        Legality::Illegal(String::from_str("machine is not currently available"))
    }
}

/// The verdict on stopping `machine`: its state must allow a stop and a
/// session start must be on record.
pub fn check_stop(machine: &MachineData) -> (r: Legality)
    ensures
        stoppable(machine.state) && machine.last_session_start is Some ==> r == Legality::Legal,
        !(stoppable(machine.state) && machine.last_session_start is Some) ==> (
        r matches Legality::Illegal(why) && why@ == stop_refusal()),
{
    if can_stop(&machine.state) && machine.last_session_start.is_some() {
        Legality::Legal
    } else {
        Legality::Illegal(String::from_str("machine has no running session to stop"))
    }
}

} // verus!
