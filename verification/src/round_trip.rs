//! What follows from the leak detection protocol: a handle whose blocks have
//! all gone back is destroyed in silence, whatever their number and whatever
//! the policy.

use crate::codec::representable;
use crate::engine::{AllocCall, DeallocCall};
use crate::ffi::FfiAllocator;
use crate::layout::Layout;
use crate::leak::{
    handed_out, outstanding_after, round_trip, signal_spec, taken_back, Exchange, Grant,
    LeakPolicy, LeakSignal,
};
use vstd::multiset::*;
use vstd::prelude::*;

verus! {

/// The count of outstanding blocks is the number of blocks handed out less
/// the number of blocks taken back.
pub proof fn lemma_outstanding_is_handed_out_less_taken_back(trace: Seq<Exchange>)
    ensures
        outstanding_after(trace) == handed_out(trace).len() - taken_back(trace).len(),
    decreases trace.len(),
{
    broadcast use group_multiset_axioms;

    if trace.len() > 0 {
        lemma_outstanding_is_handed_out_less_taken_back(trace.drop_last());
        let g = handed_out(trace.drop_last());
        let r = taken_back(trace.drop_last());
        match trace.last() {
            Exchange::Alloc { reply, .. } => {
                if reply != 0 {
                    lemma_insert_len(g, trace.last().granted().unwrap());
                }
            },
            Exchange::Dealloc { .. } => {
                lemma_insert_len(r, trace.last().returned().unwrap());
            },
        }
    }
}

/// A multiset is at least as large as any multiset it includes.
proof fn lemma_subset_len(a: Multiset<Grant>, b: Multiset<Grant>)
    requires
        a.subset_of(b),
    ensures
        a.len() <= b.len(),
{
    broadcast use group_multiset_axioms;

    assert(b =~= a.add(b.sub(a)));
}

/// Round trip: where every block that was handed out has gone back under
/// the layout it was allocated with, nothing is outstanding at the end, the
/// count never went below zero on the way, and the destruction is silent
/// under every policy.
pub proof fn lemma_round_trip_is_silent(trace: Seq<Exchange>, policy: LeakPolicy)
    requires
        round_trip(trace),
    ensures
        outstanding_after(trace) == 0,
        forall|k: int| 0 <= k <= trace.len() ==> outstanding_after(#[trigger] trace.take(k)) >= 0,
        signal_spec(policy, outstanding_after(trace)) == LeakSignal::Silent,
{
    lemma_outstanding_is_handed_out_less_taken_back(trace);
    assert forall|k: int| 0 <= k <= trace.len() implies outstanding_after(
        #[trigger] trace.take(k),
    ) >= 0 by {
        lemma_outstanding_is_handed_out_less_taken_back(trace.take(k));
        assert(taken_back(trace.take(k)).subset_of(handed_out(trace.take(k))));
        lemma_subset_len(taken_back(trace.take(k)), handed_out(trace.take(k)));
    }
}

/// The exchanges in which the allocator behind `allocator` hands out the
/// blocks of `blocks`, one after the other.
pub open spec fn alloc_run(allocator: usize, blocks: Seq<Grant>) -> Seq<Exchange> {
    Seq::new(
        blocks.len(),
        |i: int|
            Exchange::Alloc {
                call: AllocCall { allocator, size: blocks[i].size, align: blocks[i].align },
                reply: blocks[i].memory,
            },
    )
}

/// The exchanges in which the blocks of `blocks` go back to the allocator
/// behind `allocator`, one after the other, each under its own layout.
pub open spec fn dealloc_run(allocator: usize, blocks: Seq<Grant>) -> Seq<Exchange> {
    Seq::new(
        blocks.len(),
        |i: int|
            Exchange::Dealloc {
                release: DeallocCall {
                    allocator,
                    memory: blocks[i].memory,
                    size: blocks[i].size,
                    align: blocks[i].align,
                },
            },
    )
}

/// What is handed out and taken back over two traces in a row is what is
/// handed out and taken back over each, together.
proof fn lemma_concat(s: Seq<Exchange>, t: Seq<Exchange>)
    ensures
        handed_out(s + t) =~= handed_out(s).add(handed_out(t)),
        taken_back(s + t) =~= taken_back(s).add(taken_back(t)),
    decreases t.len(),
{
    broadcast use group_multiset_axioms;

    if t.len() == 0 {
        assert(s + t =~= s);
    } else {
        lemma_concat(s, t.drop_last());
        assert((s + t).drop_last() =~= s + t.drop_last());
        assert((s + t).last() == t.last());
    }
}

/// A run of successful allocations hands out its blocks and takes none back.
proof fn lemma_alloc_run(allocator: usize, blocks: Seq<Grant>)
    requires
        forall|i: int| 0 <= i < blocks.len() ==> blocks[i].memory != 0,
    ensures
        handed_out(alloc_run(allocator, blocks)) =~= blocks.to_multiset(),
        taken_back(alloc_run(allocator, blocks)) =~= Multiset::empty(),
    decreases blocks.len(),
{
    broadcast use group_multiset_axioms;

    let run = alloc_run(allocator, blocks);
    if blocks.len() == 0 {
        assert(blocks.to_multiset().len() == 0) by {
            blocks.to_multiset_ensures();
        }
    } else {
        lemma_alloc_run(allocator, blocks.drop_last());
        assert(run.drop_last() =~= alloc_run(allocator, blocks.drop_last()));
        assert(run.last().granted() == Some(blocks.last()));
        assert(blocks =~= blocks.drop_last().push(blocks.last()));
        blocks.drop_last().to_multiset_ensures();
    }
}

/// A run of deallocations takes its blocks back and hands none out.
proof fn lemma_dealloc_run(allocator: usize, blocks: Seq<Grant>)
    ensures
        handed_out(dealloc_run(allocator, blocks)) =~= Multiset::empty(),
        taken_back(dealloc_run(allocator, blocks)) =~= blocks.to_multiset(),
    decreases blocks.len(),
{
    broadcast use group_multiset_axioms;

    let run = dealloc_run(allocator, blocks);
    if blocks.len() == 0 {
        assert(blocks.to_multiset().len() == 0) by {
            blocks.to_multiset_ensures();
        }
    } else {
        lemma_dealloc_run(allocator, blocks.drop_last());
        assert(run.drop_last() =~= dealloc_run(allocator, blocks.drop_last()));
        assert(run.last().returned() == Some(blocks.last()));
        assert(blocks =~= blocks.drop_last().push(blocks.last()));
        blocks.drop_last().to_multiset_ensures();
    }
}

/// No false positive: however many blocks are allocated, once all of them
/// have been deallocated, in any order and each under its own layout, the
/// trace is a round trip, nothing is outstanding, and the destruction is
/// silent under every policy.
pub proof fn lemma_no_false_positive(
    allocator: usize,
    blocks: Seq<Grant>,
    order: Seq<Grant>,
    policy: LeakPolicy,
)
    requires
        forall|i: int| 0 <= i < blocks.len() ==> blocks[i].memory != 0,
        order.to_multiset() =~= blocks.to_multiset(),
    ensures
        outstanding_after(alloc_run(allocator, blocks)) == blocks.len(),
        round_trip(alloc_run(allocator, blocks) + dealloc_run(allocator, order)),
        outstanding_after(alloc_run(allocator, blocks) + dealloc_run(allocator, order)) == 0,
        signal_spec(
            policy,
            outstanding_after(alloc_run(allocator, blocks) + dealloc_run(allocator, order)),
        ) == LeakSignal::Silent,
{
    broadcast use group_multiset_axioms;

    let allocs = alloc_run(allocator, blocks);
    let deallocs = dealloc_run(allocator, order);
    let trace = allocs + deallocs;
    let n = blocks.len() as int;

    lemma_alloc_run(allocator, blocks);
    lemma_outstanding_is_handed_out_less_taken_back(allocs);
    blocks.to_multiset_ensures();

    lemma_dealloc_run(allocator, order);
    lemma_concat(allocs, deallocs);
    assert(taken_back(trace) =~= handed_out(trace));

    assert forall|k: int| 0 <= k <= trace.len() implies (#[trigger] taken_back(
        trace.take(k),
    )).subset_of(handed_out(trace.take(k))) by {
        if k <= n {
            let head = blocks.take(k);
            assert(trace.take(k) =~= alloc_run(allocator, head));
            lemma_alloc_run(allocator, head);
        } else {
            let done = order.take(k - n);
            let rest = order.skip(k - n);
            assert(trace.take(k) =~= allocs + dealloc_run(allocator, done));
            lemma_dealloc_run(allocator, done);
            lemma_concat(allocs, dealloc_run(allocator, done));
            assert(order =~= done + rest);
            vstd::seq_lib::lemma_multiset_commutative(done, rest);
        }
    }
    lemma_round_trip_is_silent(trace, policy);
}

/// The exchange in which `allocator` is asked for `layout` and the engine
/// answers `reply`.
pub open spec fn alloc_exchange(allocator: FfiAllocator, layout: Layout, reply: usize) -> Exchange
    recommends
        representable(layout, allocator.width()),
{
    Exchange::Alloc { call: allocator.alloc_spec(layout).unwrap(), reply }
}

/// The exchange in which the block at `ptr` goes back to `allocator` under
/// `layout`.
pub open spec fn dealloc_exchange(allocator: FfiAllocator, ptr: usize, layout: Layout) -> Exchange
    recommends
        representable(layout, allocator.width()),
{
    Exchange::Dealloc { release: allocator.dealloc_spec(ptr, layout).unwrap() }
}

/// A block goes back as what it was handed out as: the deallocation call
/// that the bridge makes for an address, under the layout that the address
/// was allocated with, names exactly the block that the engine handed out.
pub proof fn lemma_same_layout_names_the_block(allocator: FfiAllocator, layout: Layout, reply: usize)
    requires
        representable(layout, allocator.width()),
        reply != 0,
    ensures
        dealloc_exchange(allocator, reply, layout).returned() == alloc_exchange(
            allocator,
            layout,
            reply,
        ).granted(),
{
}

/// Allocating through the bridge and then deallocating every block through
/// the bridge, each under the layout it was asked for with, is a round trip
/// at the boundary: nothing is outstanding, and the destruction is silent
/// under every policy.
pub proof fn lemma_bridge_round_trip(
    allocator: FfiAllocator,
    layouts: Seq<Layout>,
    replies: Seq<usize>,
    policy: LeakPolicy,
)
    requires
        layouts.len() == replies.len(),
        forall|i: int|
            0 <= i < layouts.len() ==> representable(#[trigger] layouts[i], allocator.width()),
        forall|i: int| 0 <= i < replies.len() ==> #[trigger] replies[i] != 0,
    ensures
        ({
            let trace = Seq::new(
                layouts.len(),
                |i: int| alloc_exchange(allocator, layouts[i], replies[i]),
            ) + Seq::new(
                layouts.len(),
                |i: int| dealloc_exchange(allocator, replies[i], layouts[i]),
            );
            &&& round_trip(trace)
            &&& outstanding_after(trace) == 0
            &&& signal_spec(policy, outstanding_after(trace)) == LeakSignal::Silent
        }),
{
    let handle = allocator.allocator_ptr().addr();
    let blocks = Seq::new(
        layouts.len(),
        |i: int|
            Grant {
                memory: replies[i],
                size: layouts[i].size() as i64,
                align: layouts[i].align() as i64,
            },
    );
    let allocs = Seq::new(layouts.len(), |i: int| alloc_exchange(allocator, layouts[i], replies[i]));
    let deallocs = Seq::new(
        layouts.len(),
        |i: int| dealloc_exchange(allocator, replies[i], layouts[i]),
    );
    assert(allocs =~= alloc_run(handle, blocks));
    assert(deallocs =~= dealloc_run(handle, blocks));
    lemma_no_false_positive(handle, blocks, blocks, policy);
}

} // verus!
