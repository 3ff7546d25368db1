//! The leak detection protocol: what the engine owes at the destruction of a
//! handle, given what has crossed the boundary since its creation.
//!
//! The engine keeps the count of outstanding blocks; the bridge keeps none.
//! This module states the protocol over the exchanges of one handle, and
//! offers a tracker that follows a handle from outside, exchange by
//! exchange.

use crate::engine::{AllocCall, CreateCall, DeallocCall};
use crate::round_trip::lemma_round_trip_is_silent;
use vstd::multiset::*;
use vstd::prelude::*;

verus! {

/// What the engine does about blocks that are outstanding at destruction.
#[derive(Clone, Copy, Debug, PartialEq, Eq, Structural)]
pub enum LeakPolicy {
    /// Nothing: the strategy keeps no account, or releases as a group.
    Untracked,
    /// It reports the leak and completes the destruction.
    Warn,
    /// It aborts the process.
    Panic,
}

/// How the destruction of a handle ends.
#[derive(Clone, Copy, Debug, PartialEq, Eq, Structural)]
pub enum LeakSignal {
    /// The destruction completes, and nothing is reported.
    Silent,
    /// The destruction completes, and a leak is reported as a warning.
    Warning,
    /// The process is terminated abnormally, on purpose.
    Abort,
}

/// One call on a live handle together with what the engine answered.
#[derive(Clone, Copy, Debug, PartialEq, Eq, Structural)]
pub enum Exchange {
    /// An allocation call, and the address that came back for it.
    Alloc { call: AllocCall, reply: usize },
    /// A deallocation call. It has no answer.
    Dealloc { release: DeallocCall },
}

/// A block as the engine knows it: where it starts, and the size and
/// alignment it was asked for with.
pub struct Grant {
    pub memory: usize,
    pub size: i64,
    pub align: i64,
}

impl Exchange {
    /// The block that the engine handed out in this exchange, if it did.
    pub open spec fn granted(self) -> Option<Grant> {
        match self {
            Exchange::Alloc { call, reply } => if reply != 0 {
                Some(Grant { memory: reply, size: call.size, align: call.align })
            } else {
                None
            },
            Exchange::Dealloc { .. } => None,
        }
    }

    /// The block that the engine took back in this exchange, if it did. The
    /// block is named by the address and the layout of the call.
    pub open spec fn returned(self) -> Option<Grant> {
        match self {
            Exchange::Alloc { .. } => None,
            Exchange::Dealloc { release } => Some(
                Grant { memory: release.memory, size: release.size, align: release.align },
            ),
        }
    }

    /// By how much the exchange moves the engine's count of outstanding
    /// blocks: up by one for an allocation that succeeded, down by one for a
    /// deallocation.
    pub open spec fn delta(self) -> int {
        match self {
            Exchange::Alloc { reply, .. } => if reply != 0 {
                1
            } else {
                0
            },
            Exchange::Dealloc { .. } => -1,
        }
    }
}

/// The engine's count of outstanding blocks after the exchanges of `trace`,
/// counted from the creation of the handle.
pub open spec fn outstanding_after(trace: Seq<Exchange>) -> int
    decreases trace.len(),
{
    if trace.len() == 0 {
        0
    } else {
        outstanding_after(trace.drop_last()) + trace.last().delta()
    }
}

/// The blocks handed out over `trace`, each as often as it was handed out.
pub open spec fn handed_out(trace: Seq<Exchange>) -> Multiset<Grant>
    decreases trace.len(),
{
    if trace.len() == 0 {
        Multiset::empty()
    } else {
        match trace.last().granted() {
            Some(g) => handed_out(trace.drop_last()).insert(g),
            None => handed_out(trace.drop_last()),
        }
    }
}

/// The blocks taken back over `trace`, each as often as it was taken back.
pub open spec fn taken_back(trace: Seq<Exchange>) -> Multiset<Grant>
    decreases trace.len(),
{
    if trace.len() == 0 {
        Multiset::empty()
    } else {
        match trace.last().returned() {
            Some(g) => taken_back(trace.drop_last()).insert(g),
            None => taken_back(trace.drop_last()),
        }
    }
}

/// Every deallocation in `trace` gives back a block that an earlier
/// allocation handed out and that has not gone back since, under the layout
/// it was allocated with.
pub open spec fn honours_layouts(trace: Seq<Exchange>) -> bool {
    forall|k: int|
        0 <= k <= trace.len() ==> (#[trigger] taken_back(trace.take(k))).subset_of(
            handed_out(trace.take(k)),
        )
}

/// `trace` is a round trip: it honours the layouts, and every block that was
/// handed out has gone back by its end.
pub open spec fn round_trip(trace: Seq<Exchange>) -> bool {
    honours_layouts(trace) && taken_back(trace) =~= handed_out(trace)
}

/// How the destruction of a handle ends under `policy` with `outstanding`
/// blocks not given back.
pub open spec fn signal_spec(policy: LeakPolicy, outstanding: int) -> LeakSignal {
    if outstanding == 0 {
        LeakSignal::Silent
    } else {
        match policy {
            LeakPolicy::Untracked => LeakSignal::Silent,
            LeakPolicy::Warn => LeakSignal::Warning,
            LeakPolicy::Panic => LeakSignal::Abort,
        }
    }
}

/// The policy that a creation call sets up. The debug strategy reads it
/// from the byte at offset 0 of its record: 1 makes leaks fatal.
pub open spec fn policy_spec(call: CreateCall) -> LeakPolicy {
    match call {
        CreateCall::Smp => LeakPolicy::Untracked,
        CreateCall::ArenaSmp => LeakPolicy::Untracked,
        CreateCall::Debug { config } => if config@[0] == 1u8 {
            LeakPolicy::Panic
        } else {
            LeakPolicy::Warn
        },
    }
}

/// The policy that a creation call sets up: none for the strategies that do
/// not track, and for the debug strategy the one that its record asks for.
pub fn leak_policy(call: &CreateCall) -> (policy: LeakPolicy)
    ensures
        policy == policy_spec(*call),
{
    match call {
        CreateCall::Smp => LeakPolicy::Untracked,
        CreateCall::ArenaSmp => LeakPolicy::Untracked,
        CreateCall::Debug { config } => {
            let decoded = config.config();
            proof {
                let bytes = decoded.record_spec();
                assert(bytes[0] == if decoded.panic_on_leaks { 1u8 } else { 0u8 });
            }
            if decoded.panic_on_leaks {
                LeakPolicy::Panic
            } else {
                LeakPolicy::Warn
            }
        },
    }
}

/// Follows one handle from outside: it is shown every exchange on the
/// handle, keeps the count that the engine keeps, and says at the end what
/// the engine owes.
pub struct LeakTracker {
    policy: LeakPolicy,
    outstanding: usize,
    history: Ghost<Seq<Exchange>>,
}

impl LeakTracker {
    #[verifier::type_invariant]
    spec fn well_formed(self) -> bool {
        self.outstanding as int == outstanding_after(self.history@)
    }

    /// The policy that the handle was created with.
    pub closed spec fn spec_policy(&self) -> LeakPolicy {
        self.policy
    }

    /// The count of outstanding blocks.
    pub closed spec fn spec_outstanding(&self) -> usize {
        self.outstanding
    }

    /// The exchanges seen so far, oldest first.
    pub closed spec fn history(&self) -> Seq<Exchange> {
        self.history@
    }

    /// Whether the tracker can follow `exchange` from where it stands: a
    /// deallocation needs a block outstanding, and a successful allocation
    /// needs room in the count.
    pub open spec fn accepts(&self, exchange: Exchange) -> bool {
        match exchange {
            Exchange::Alloc { reply, .. } => reply != 0 ==> self.outstanding() < usize::MAX,
            Exchange::Dealloc { .. } => self.outstanding() > 0,
        }
    }

    /// Starts to follow a handle that has just been created under `policy`.
    pub fn new(policy: LeakPolicy) -> (tracker: Self)
        ensures
            tracker.policy() == policy,
            tracker.outstanding() == 0,
            tracker.history() == Seq::<Exchange>::empty(),
    {
        LeakTracker { policy, outstanding: 0, history: Ghost(Seq::empty()) }
    }

    /// The policy that the handle was created with.
    #[verifier::when_used_as_spec(spec_policy)]
    pub fn policy(&self) -> (policy: LeakPolicy)
        ensures
            policy == self.spec_policy(),
    {
        self.policy
    }

    /// The count of outstanding blocks: the engine's count after the
    /// exchanges seen so far.
    #[verifier::when_used_as_spec(spec_outstanding)]
    pub fn outstanding(&self) -> (n: usize)
        ensures
            n == self.spec_outstanding(),
            n as int == outstanding_after(self.history()),
    {
        proof {
            use_type_invariant(self);
        }
        self.outstanding
    }

    /// Takes note of one exchange on the handle, if the tracker can follow
    /// it, and says whether it could. Where it cannot, nothing changes.
    pub fn try_observe(&mut self, exchange: Exchange) -> (followed: bool)
        ensures
            followed == old(self).accepts(exchange),
            final(self).policy() == old(self).policy(),
            followed ==> {
                &&& final(self).history() == old(self).history().push(exchange)
                &&& final(self).outstanding() as int == old(self).outstanding()
                    + exchange.delta()
            },
            !followed ==> {
                &&& final(self).history() == old(self).history()
                &&& final(self).outstanding() == old(self).outstanding()
            },
    {
        let can_follow = match exchange {
            Exchange::Alloc { reply, .. } => reply == 0 || self.outstanding < usize::MAX,
            Exchange::Dealloc { .. } => self.outstanding > 0,
        };
        if can_follow {
            self.observe(exchange);
        }
        can_follow
    }

    /// Takes note of one exchange on the handle.
    pub fn observe(&mut self, exchange: Exchange)
        requires
            old(self).accepts(exchange),
        ensures
            final(self).policy() == old(self).policy(),
            final(self).history() == old(self).history().push(exchange),
            final(self).outstanding() as int == old(self).outstanding() + exchange.delta(),
    {
        proof {
            use_type_invariant(&*self);
            assert(self.history@.push(exchange).drop_last() =~= self.history@);
        }
        let outstanding: usize = match exchange {
            Exchange::Alloc { reply, .. } => if reply != 0 {
                self.outstanding + 1
            } else {
                self.outstanding
            },
            Exchange::Dealloc { .. } => self.outstanding - 1,
        };
        *self = LeakTracker {
            policy: self.policy,
            outstanding,
            history: Ghost(self.history@.push(exchange)),
        };
    }

    /// The handle is destroyed: how the engine ends the destruction, by the
    /// policy and by the count of blocks that have not gone back. After a
    /// round trip there is nothing to report.
    pub fn on_destroy(self) -> (signal: LeakSignal)
        ensures
            signal == signal_spec(self.policy(), outstanding_after(self.history())),
            signal == signal_spec(self.policy(), self.outstanding() as int),
            round_trip(self.history()) ==> signal == LeakSignal::Silent,
    {
        proof {
            use_type_invariant(&self);
            if round_trip(self.history@) {
                lemma_round_trip_is_silent(self.history@, self.policy);
            }
        }
        if self.outstanding == 0 {
            LeakSignal::Silent
        } else {
            match self.policy {
                LeakPolicy::Untracked => LeakSignal::Silent,
                LeakPolicy::Warn => LeakSignal::Warning,
                LeakPolicy::Panic => LeakSignal::Abort,
            }
        }
    }
}

} // verus!
