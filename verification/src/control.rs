//! The dynamic control plane: the set of agencies registered at
//! runtime and the handle registry of their persistent poll tasks.
//!
//! The registry is the state the control plane mutates under one
//! exclusive lock; the caller wraps it in that lock and spawns one task
//! per successful registration.

use vstd::prelude::*;
use vstd::string::StringExecFns;
use crate::agency::AgencyInfo;

verus! {

/// The reported outcome of a dynamic registration.
#[derive(PartialEq, Eq, Structural, Clone, Copy, Debug)]
pub enum AddOutcome {
    /// The agency was new: it was recorded and one task key was added
    /// to the handle registry.
    Added,
    /// An agency with the same id was already registered: nothing was
    /// recorded and no task starts.
    AlreadyExists,
}

/// The dynamically-registered agency set plus the keys of the handle
/// registry (one per running task). This set is distinct from the
/// static startup catalog: only agencies added at runtime appear here.
pub struct Registry {
    agencies: Vec<AgencyInfo>,
    workers: Vec<String>,
}

impl Registry {
    /// The registered agencies, in registration order.
    pub closed spec fn agencies_seq(self) -> Seq<AgencyInfo> {
        self.agencies@
    }

    /// The feed ids under which a task handle is recorded, in
    /// registration order.
    pub closed spec fn workers_seq(self) -> Seq<Seq<char>> {
        self.workers@.map_values(|s: String| s@)
    }

    /// Whether some registered agency has the given feed id.
    pub open spec fn contains_id(self, id: Seq<char>) -> bool {
        exists|i: int| 0 <= i < self.agencies_seq().len()
            && (#[trigger] self.agencies_seq()[i]).onetrip@ == id
    }

    /// How many agencies are registered.
    pub open spec fn size(self) -> nat {
        self.agencies_seq().len()
    }

    /// The registry's invariant: no two registered agencies share a
    /// feed id — identity is by id.
    pub open spec fn ids_unique(self) -> bool {
        forall|i: int, j: int| 0 <= i < j < self.agencies_seq().len()
            ==> (#[trigger] self.agencies_seq()[i]).onetrip@
                != (#[trigger] self.agencies_seq()[j]).onetrip@
    }

    /// An empty registry: no agencies, no task handles.
    pub fn new() -> (r: Self)
        ensures
            r.agencies_seq() == Seq::<AgencyInfo>::empty(),
            r.workers_seq() == Seq::<Seq<char>>::empty(),
            r.ids_unique(),
    {
        let r = Registry { agencies: Vec::new(), workers: Vec::new() };
        proof {
            assert(r.workers_seq() =~= Seq::<Seq<char>>::empty());
        }
        r
    }

    /// Whether an agency with this feed id is registered.
    pub fn contains(&self, id: &String) -> (r: bool)
        ensures
            r == self.contains_id(id@),
    {
        let mut i: usize = 0;
        while i < self.agencies.len()
            invariant
                i <= self.agencies@.len(),
                forall|j: int| 0 <= j < i ==> (#[trigger] self.agencies@[j]).onetrip@ != id@,
            decreases self.agencies@.len() - i,
        {
            if self.agencies[i].onetrip == *id {
                proof {
                    assert(self.agencies_seq()[i as int].onetrip@ == id@);
                }
                return true;
            }
            i += 1;
        }
        false
    }

    /// Registers an agency, idempotently by feed id. A duplicate id is
    /// a normal, reported outcome: the registry is unchanged and no
    /// task starts. A new id is recorded together with one new task
    /// key, so each registered agency has exactly one task.
    pub fn add_agency(&mut self, agency: AgencyInfo) -> (r: AddOutcome)
        ensures
            (r == AddOutcome::AlreadyExists) == old(self).contains_id(agency.onetrip@),
            r == AddOutcome::AlreadyExists ==> *final(self) == *old(self),
            r == AddOutcome::Added ==> final(self).agencies_seq()
                == old(self).agencies_seq().push(agency),
            r == AddOutcome::Added ==> final(self).workers_seq()
                == old(self).workers_seq().push(agency.onetrip@),
            old(self).ids_unique() ==> final(self).ids_unique(),
    {
        if self.contains(&agency.onetrip) {
            return AddOutcome::AlreadyExists;
        }
        let id: String = agency.onetrip.clone();
        self.workers.push(id);
        self.agencies.push(agency);
        proof {
            assert(self.workers_seq() =~= old(self).workers_seq().push(self.agencies@.last().onetrip@));
            if old(self).ids_unique() {
                let s = self.agencies_seq();
                assert forall|i: int, j: int| 0 <= i < j < s.len()
                    implies (#[trigger] s[i]).onetrip@ != (#[trigger] s[j]).onetrip@ by {
                    if j == s.len() - 1 {
                        // The new id was not registered before, so it
                        // differs from every earlier one.
                        assert(old(self).agencies_seq()[i] == s[i]);
                        assert(!old(self).contains_id(s[j].onetrip@));
                    } else {
                        assert(old(self).agencies_seq()[i] == s[i]);
                        assert(old(self).agencies_seq()[j] == s[j]);
                    }
                }
            }
        }
        AddOutcome::Added
    }

    /// The snapshot that the list operation serializes and returns.
    pub fn agencies_snapshot(&self) -> (r: &Vec<AgencyInfo>)
        ensures
            r@ == self.agencies_seq(),
    {
        &self.agencies
    }
}

/// The status string the control plane reports for a registration
/// outcome.
pub fn add_status(outcome: AddOutcome) -> (r: String)
    ensures
        outcome == AddOutcome::Added ==> r@ == "Agency added"@,
        outcome == AddOutcome::AlreadyExists ==> r@ == "Error: Agency Exists"@,
{
    match outcome {
        AddOutcome::Added => "Agency added".to_owned(),
        AddOutcome::AlreadyExists => "Error: Agency Exists".to_owned(),
    }
}

/// Registering the same feed id twice starts exactly one task: once a
/// registration with id `a.onetrip` has succeeded, the registry
/// contains that id, so by `add_agency`'s contract a second
/// registration of any agency with the same id reports
/// `AlreadyExists` and leaves the registry — and so the dynamic set's
/// size — unchanged.
pub proof fn lemma_duplicate_add_is_rejected(r0: Registry, r1: Registry, a: AgencyInfo, b: AgencyInfo)
    requires
        a.onetrip@ == b.onetrip@,
        r1.agencies_seq() == r0.agencies_seq().push(a),
    ensures
        r1.contains_id(b.onetrip@),
{
    assert(r1.agencies_seq()[r0.agencies_seq().len() as int].onetrip@ == b.onetrip@);
}

/// One non-blocking poll of a worker task's cancellation channel.
#[derive(PartialEq, Eq, Structural, Clone, Copy, Debug)]
pub enum SignalPoll {
    /// A cancellation signal was received.
    Received,
    /// The channel is closed: the sender side is gone.
    Closed,
    /// Nothing pending.
    Empty,
}

/// What a worker task does after polling its cancellation channel.
#[derive(PartialEq, Eq, Structural, Clone, Copy, Debug)]
pub enum WorkerStep {
    /// Stop the task before the next fetch cycle.
    Terminate,
    /// Run one more fetch cycle, then poll again.
    Continue,
}

/// The cooperative-cancellation decision a worker makes once per loop
/// iteration: any signal, or a closed channel, terminates the task;
/// only an empty poll continues it. No operation of the current system
/// sends the signal — removal is an extension point — but a worker
/// honours it all the same.
pub fn worker_step(sig: SignalPoll) -> (r: WorkerStep)
    ensures
        (r == WorkerStep::Terminate) == (sig != SignalPoll::Empty),
{
    match sig {
        SignalPoll::Received => WorkerStep::Terminate,
        SignalPoll::Closed => WorkerStep::Terminate,
        SignalPoll::Empty => WorkerStep::Continue,
    }
}

} // verus!
