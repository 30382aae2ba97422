//! Choosing which machines of a listing to show, and how a history entry
//! is classified.
use vstd::prelude::*;

use crate::model::{History, MachineData, MachineState};
use crate::text::{decimal, decimal_text, same_text};

verus! {

/// Which machines of a listing to keep.
#[derive(Debug, Clone, Copy, PartialEq, Eq, Structural)]
pub enum MachineFilter {
    All,
    Available,
    Occupied,
    Stoppable,
}

impl MachineFilter {
    /// The filter that the listing switches ask for; the first switch that
    /// is set wins, in the order available, occupied, stoppable.
    pub fn from_flags(available: bool, occupied: bool, stoppable: bool) -> (r: MachineFilter)
        ensures
            available ==> r == MachineFilter::Available,
            !available && occupied ==> r == MachineFilter::Occupied,
            !available && !occupied && stoppable ==> r == MachineFilter::Stoppable,
            !available && !occupied && !stoppable ==> r == MachineFilter::All,
    {
        if available {
            MachineFilter::Available
        } else if occupied {
            MachineFilter::Occupied
        } else if stoppable {
            MachineFilter::Stoppable
        } else {
            MachineFilter::All
        }
    }

    /// Whether a machine in `state` passes this filter.
    pub open spec fn admits(self, state: MachineState) -> bool {
        match self {
            MachineFilter::All => true,
            MachineFilter::Available => state is Available,
            MachineFilter::Occupied => state is Occupied,
            MachineFilter::Stoppable => state is Stoppable,
        }
    }

    /// Whether a machine in `state` passes this filter.
    pub fn keeps(self, state: &MachineState) -> (r: bool)
        ensures
            r == self.admits(*state),
    {
        match (self, state) {
            (MachineFilter::All, _) => true,
            (MachineFilter::Available, MachineState::Available) => true,
            (MachineFilter::Occupied, MachineState::Occupied) => true,
            (MachineFilter::Stoppable, MachineState::Stoppable) => true,
            _ => false,
        }
    }
}

/// The machines of `machines` that `filter` keeps, in their order.
pub open spec fn selected(machines: Seq<MachineData>, filter: MachineFilter) -> Seq<MachineData> {
    machines.filter(|m: MachineData| filter.admits(m.state))
}

/// Keeps the machines that `filter` admits, in the order they came.
pub fn select_machines(machines: Vec<MachineData>, filter: MachineFilter) -> (r: Vec<MachineData>)
    ensures
        r@ == selected(machines@, filter),
{
    let ghost all = machines@;
    let ghost pred = |m: MachineData| filter.admits(m.state);
    let mut rest = machines;
    let mut out: Vec<MachineData> = Vec::new();
    assert(all.subrange(0, 0).filter(pred) =~= Seq::<MachineData>::empty()) by {
        reveal(Seq::filter);
    }
    assert(rest@ =~= all.subrange(0, 0 + rest@.len() as int));
    while rest.len() > 0
        invariant
            all.len() >= rest@.len(),
            rest@ =~= all.subrange(all.len() - rest@.len(), all.len() as int),
            out@ == all.subrange(0, all.len() - rest@.len()).filter(pred),
            pred == (|m: MachineData| filter.admits(m.state)),
        decreases rest@.len(),
    {
        let ghost taken = all.len() - rest@.len();
        let m = rest.remove(0);
        proof {
            assert(all.subrange(0, taken + 1).drop_last() =~= all.subrange(0, taken));
            assert(all.subrange(0, taken + 1).last() == m);
            reveal(Seq::filter);
        }
        if filter.keeps(&m.state) {
            out.push(m);
        }
    }
    assert(all.subrange(0, all.len() as int) =~= all);
    out
}

/// Whether machine `m` goes by the number `id`.
pub open spec fn has_id(m: MachineData, id: u32) -> bool {
    m.external_id@ == decimal(id as nat)
}

/// The position of the first machine of `machines` that goes by the number
/// `id`, if any does.
pub fn find_machine(machines: &Vec<MachineData>, id: u32) -> (r: Option<usize>)
    ensures
        r matches Some(i) ==> i < machines@.len() && has_id(machines@[i as int], id) && forall|
            k: int,
        | 0 <= k < i ==> !has_id(#[trigger] machines@[k], id),
        r is None ==> forall|k: int| 0 <= k < machines@.len() ==> !has_id(#[trigger] machines@[k], id),
{
    let wanted = decimal_text(id as u64);
    let mut i: usize = 0;
    while i < machines.len()
        invariant
            i <= machines@.len(),
            wanted@ == decimal(id as nat),
            forall|k: int| 0 <= k < i ==> !has_id(#[trigger] machines@[k], id),
        decreases machines@.len() - i,
    {
        if same_text(machines[i].external_id.as_str(), wanted.as_str()) {
            return Some(i);
        }
        i = i + 1;
    }
    None
}

/// What a history entry was for.
#[derive(Debug, Clone, Copy, PartialEq, Eq, Structural)]
pub enum HistoryKind {
    /// A washing-machine session.
    Washing,
    /// A session of another service.
    OtherService,
    /// A change of balance with no service, such as a top-up.
    NoService,
}

impl History {
    /// What this entry was for, by its service type.
    pub fn kind(&self) -> (r: HistoryKind)
        ensures
            self.service_type is None ==> r == HistoryKind::NoService,
            self.service_type matches Some(t) ==> r == (if t@ == "WASHING_MACHINE"@ {
                HistoryKind::Washing
            } else {
                HistoryKind::OtherService
            }),
    {
        match &self.service_type {
            None => HistoryKind::NoService,
            Some(t) => {
                if same_text(t.as_str(), "WASHING_MACHINE") {
                    HistoryKind::Washing
                } else {
                    HistoryKind::OtherService
                }
            },
        }
    }
}

} // verus!
