//! What the process-wide allocators share: the steps a request can come to,
//! and the rule of the slot that holds the one instance.
//!
//! A slot is a sequential value. Whoever shares one between threads keeps it
//! behind a guard that lets a single initialiser through; the rule of the
//! slot then says what that initialiser, and everyone after it, finds.

use crate::codec::NonNullAddr;
use crate::engine::CreateCall;
use vstd::prelude::*;

verus! {

/// What a request on a process-wide allocator comes to.
#[derive(Debug, PartialEq, Eq)]
pub enum GlobalStep<C> {
    /// The instance does not exist yet. It has to be created by this call
    /// and installed; then the request is put again.
    Initialize(CreateCall),
    /// The instance exists. The request goes to it: this is its call, or
    /// none where the request does not fit the engine.
    Forward(Option<C>),
}

/// The slot of a process-wide instance after one more attempt to install the
/// handle `handle`: an empty slot takes it, a full slot stays as it is.
pub open spec fn after_install(slot: Option<NonNullAddr>, handle: NonNullAddr) -> Option<
    NonNullAddr,
> {
    if slot is Some {
        slot
    } else {
        Some(handle)
    }
}

/// The slot after attempts to install each handle of `handles` in turn.
pub open spec fn after_installs(slot: Option<NonNullAddr>, handles: Seq<NonNullAddr>) -> Option<
    NonNullAddr,
>
    decreases handles.len(),
{
    if handles.len() == 0 {
        slot
    } else {
        after_install(after_installs(slot, handles.drop_last()), handles.last())
    }
}

/// Once a process-wide instance exists it is never replaced, whatever is
/// installed after it.
pub proof fn lemma_instance_is_never_replaced(slot: Option<NonNullAddr>, handles: Seq<NonNullAddr>)
    requires
        slot is Some,
    ensures
        after_installs(slot, handles) == slot,
    decreases handles.len(),
{
    if handles.len() > 0 {
        lemma_instance_is_never_replaced(slot, handles.drop_last());
    }
}

/// However many installations are attempted on an empty slot, the first one
/// wins: the instance is the first handle, and it is the only one.
pub proof fn lemma_first_install_wins(handles: Seq<NonNullAddr>)
    requires
        handles.len() > 0,
    ensures
        after_installs(None, handles) == Some(handles[0]),
    decreases handles.len(),
{
    let earlier = handles.drop_last();
    if handles.len() > 1 {
        lemma_first_install_wins(earlier);
    } else {
        assert(after_installs(None, earlier) == None::<NonNullAddr>);
    }
}

} // verus!
