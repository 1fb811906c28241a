//! What a buffer pool promises over several calls.

use crate::block::{overwritten, zeros, ALIGNMENT};
use crate::pool_state::{PoolState, ReferenceState};
use vstd::prelude::*;

verus! {

/// A call on a pool or on one of its references.
pub enum PoolStep {
    /// A successful acquisition; `data` is where the allocator placed the buffer,
    /// if it was asked for one.
    Get { data: usize },
    /// An acquisition for which the allocator had no memory.
    Refused,
    /// One more reference to a buffer.
    Clone { slot: int },
    /// One reference less.
    Unref { slot: int },
    /// A write into a buffer.
    Write { slot: int, at: int, patch: Seq<u8> },
    /// The end of the pool.
    Uninit,
}

impl PoolStep {
    /// The call is possible in this state.
    pub open spec fn enabled(self, pool: PoolState) -> bool {
        match self {
            PoolStep::Get { data } => {
                &&& pool.open
                &&& pool.idle.len() == 0 ==> pool.buffers.len() < usize::MAX && 0 < data && data
                    % ALIGNMENT == 0
            },
            PoolStep::Refused => pool.open && pool.idle.len() == 0,
            PoolStep::Clone { slot } => pool.held(slot),
            PoolStep::Unref { slot } => pool.held(slot),
            PoolStep::Write { slot, at, patch } => pool.held(slot) && pool.buffer(slot).refs == 1,
            PoolStep::Uninit => pool.open,
        }
    }

    /// The state after the call.
    pub open spec fn after(self, pool: PoolState) -> PoolState {
        match self {
            PoolStep::Get { data } => pool.acquired(data),
            PoolStep::Refused => pool.requested(false),
            PoolStep::Clone { slot } => pool.referenced(slot),
            PoolStep::Unref { slot } => pool.released(slot),
            PoolStep::Write { slot, at, patch } => pool.written(slot, at, patch),
            PoolStep::Uninit => pool.closed(),
        }
    }
}

/// `states` are the states of one pool, from its creation on, between the calls
/// `steps`.
pub open spec fn is_history(states: Seq<PoolState>, steps: Seq<PoolStep>) -> bool {
    &&& states.len() == steps.len() + 1
    &&& 0 < states[0].buffer_size
    &&& states[0] == PoolState::created(states[0].buffer_size)
    &&& forall|k: int|
        0 <= k < steps.len() ==> (#[trigger] steps[k]).enabled(states[k]) && states[k + 1]
            == steps[k].after(states[k])
}

/// Every call keeps the pool's invariant.
pub proof fn law_step_keeps_invariant(pool: PoolState, step: PoolStep)
    requires
        pool.inv(),
        step.enabled(pool),
    ensures
        step.after(pool).inv(),
        step.after(pool).buffer_size == pool.buffer_size,
{
    match step {
        PoolStep::Get { data } => {
            if pool.idle.len() > 0 {
                crate::pool_state::lemma_recycled_inv(pool);
            } else {
                crate::pool_state::lemma_requested_inv(pool, true);
                crate::pool_state::lemma_grown_inv(pool.requested(true), data);
            }
        },
        PoolStep::Refused => {
            crate::pool_state::lemma_requested_inv(pool, false);
        },
        PoolStep::Clone { slot } => {
            crate::pool_state::lemma_referenced_inv(pool, slot);
        },
        PoolStep::Unref { slot } => {
            crate::pool_state::lemma_released_inv(pool, slot);
        },
        PoolStep::Write { slot, at, patch } => {
            crate::pool_state::lemma_written_inv(pool, slot, at, patch);
        },
        PoolStep::Uninit => {
            crate::pool_state::lemma_closed_inv(pool);
        },
    }
}

/// At every moment of a pool's life the invariant holds: in particular every
/// buffer has the size that the pool was created with, and an address that is a
/// multiple of 32.
pub proof fn law_history_keeps_invariant(
    states: Seq<PoolState>,
    steps: Seq<PoolStep>,
    moment: int,
)
    requires
        is_history(states, steps),
        0 <= moment < states.len(),
    ensures
        states[moment].inv(),
        states[moment].buffer_size == states[0].buffer_size,
    decreases moment,
{
    if moment == 0 {
        crate::pool_state::lemma_created_inv(states[0].buffer_size);
    } else {
        law_history_keeps_invariant(states, steps, moment - 1);
        assert(steps[moment - 1].enabled(states[moment - 1]));
        law_step_keeps_invariant(states[moment - 1], steps[moment - 1]);
    }
}

/// Only the end of a pool closes it: every other call leaves an open pool open, and
/// none opens a closed one, or changes the size of the buffers.
pub proof fn law_only_uninit_closes(pool: PoolState, step: PoolStep)
    requires
        pool.inv(),
        step.enabled(pool),
    ensures
        step.after(pool).open <==> pool.open && !(step is Uninit),
        step.after(pool).buffer_size == pool.buffer_size,
{
}

/// A pool hands out buffers until its end, however many calls there were.
pub proof fn law_open_until_uninit(states: Seq<PoolState>, steps: Seq<PoolStep>, moment: int)
    requires
        is_history(states, steps),
        0 <= moment < states.len(),
    ensures
        states[moment].open <==> forall|k: int|
            0 <= k < moment ==> !(#[trigger] steps[k] is Uninit),
    decreases moment,
{
    if moment > 0 {
        law_open_until_uninit(states, steps, moment - 1);
        law_history_keeps_invariant(states, steps, moment - 1);
        assert(steps[moment - 1].enabled(states[moment - 1]));
        law_only_uninit_closes(states[moment - 1], steps[moment - 1]);
    }
}

/// As long as a pool is not closed, it loses no buffer: each stays at its address,
/// and, unless it is written into, holds what it held, however often it is given up
/// and acquired again.
pub proof fn law_open_pool_keeps_every_buffer(
    states: Seq<PoolState>,
    steps: Seq<PoolStep>,
    from: int,
    to: int,
    slot: int,
)
    requires
        is_history(states, steps),
        0 <= from <= to < states.len(),
        forall|k: int| 0 <= k < to ==> !(#[trigger] steps[k] is Uninit),
        0 <= slot < states[from].buffers.len(),
    ensures
        slot < states[to].buffers.len(),
        states[from].buffers[slot] is Some,
        states[to].buffers[slot] is Some,
        states[to].buffers[slot]->0.data == states[from].buffers[slot]->0.data,
        states[to].buffers[slot]->0.bytes.len() == states[from].buffer_size,
        (forall|k: int|
            from <= k < to ==> !(#[trigger] steps[k] matches PoolStep::Write { slot: at, .. } && at
                == slot)) ==> states[to].buffers[slot]->0.bytes
            == states[from].buffers[slot]->0.bytes,
    decreases to,
{
    law_open_until_uninit(states, steps, from);
    law_history_keeps_invariant(states, steps, from);
    assert(states[from].allocated(slot));
    if from < to {
        law_open_pool_keeps_every_buffer(states, steps, from, to - 1, slot);
        let before = states[to - 1];
        law_open_until_uninit(states, steps, to);
        law_history_keeps_invariant(states, steps, to - 1);
        law_history_keeps_invariant(states, steps, to);
        assert(steps[to - 1].enabled(before));
        if before.idle.len() > 0 {
            crate::pool_state::lemma_recycled_inv(before);
        }
        assert(states[to].allocated(slot));
    }
}

/// As long as a pool is not closed, a buffer whose last reference is given up is the
/// next one to be handed out: the same memory, holding what it held, and the allocator
/// is not asked; however many calls there were before, and however many buffers there
/// are.
pub proof fn law_given_up_buffer_is_handed_out_again(
    states: Seq<PoolState>,
    steps: Seq<PoolStep>,
    call: int,
    slot: int,
)
    requires
        is_history(states, steps),
        0 <= call,
        call + 1 < steps.len(),
        forall|k: int| 0 <= k < call ==> !(#[trigger] steps[k] is Uninit),
        steps[call] == (PoolStep::Unref { slot }),
        states[call].buffers[slot]->0.refs == 1,
        steps[call + 1] is Get || steps[call + 1] is Refused,
    ensures
        steps[call + 1] is Get,
        states[call + 1].buffers[slot] is Some,
        states[call + 1].buffers[slot]->0.refs == 0,
        states[call + 2].buffers[slot] is Some,
        states[call + 2].buffers[slot]->0.refs == 1,
        states[call + 2].buffers == states[call].buffers,
        states[call + 2].requests == states[call].requests,
{
    law_open_until_uninit(states, steps, call);
    law_history_keeps_invariant(states, steps, call);
    assert(steps[call].enabled(states[call]));
    assert(steps[call + 1].enabled(states[call + 1]));
    law_returned_buffer_is_recycled(states[call], slot);
}

/// The requests that the allocator granted are the buffers that the pool ever had.
pub proof fn law_every_granted_request_is_a_buffer(
    states: Seq<PoolState>,
    steps: Seq<PoolStep>,
    moment: int,
)
    requires
        is_history(states, steps),
        0 <= moment < states.len(),
    ensures
        states[moment].requests.granted == states[moment].buffers.len(),
    decreases moment,
{
    if moment > 0 {
        let before = states[moment - 1];
        law_every_granted_request_is_a_buffer(states, steps, moment - 1);
        law_history_keeps_invariant(states, steps, moment - 1);
        assert(steps[moment - 1].enabled(before));
        if before.idle.len() > 0 {
            crate::pool_state::lemma_recycled_inv(before);
        }
    }
}

/// A steady stream of acquisitions stops reaching the allocator: once the pool has
/// `peak` buffers, and as long as fewer than `peak` are held whenever one is asked
/// for, the allocator is not asked any more.
pub proof fn law_steady_stream_stops_asking(
    states: Seq<PoolState>,
    steps: Seq<PoolStep>,
    from: int,
    to: int,
    peak: nat,
)
    requires
        is_history(states, steps),
        0 <= from <= to < states.len(),
        states[from].buffers.len() >= peak,
        forall|k: int|
            from <= k < to && (#[trigger] steps[k] is Get || steps[k] is Refused)
                ==> states[k].held_slots().len() < peak,
    ensures
        states[to].requests == states[from].requests,
        states[to].buffers.len() == states[from].buffers.len(),
    decreases to,
{
    if from < to {
        let before = states[to - 1];
        law_steady_stream_stops_asking(states, steps, from, to - 1, peak);
        law_history_keeps_invariant(states, steps, to - 1);
        assert(steps[to - 1].enabled(before));
        assert(states[to] == steps[to - 1].after(before));
        if before.idle.len() > 0 {
            crate::pool_state::lemma_recycled_inv(before);
        } else if before.open {
            lemma_all_held(before);
        }
    }
}

/// A pool never allocates more buffers than were held at one time: as long as no
/// more than `peak` buffers are held, no more than `peak` requests to the allocator
/// succeed, however many acquisitions there are.
pub proof fn law_allocations_bounded_by_peak(
    states: Seq<PoolState>,
    steps: Seq<PoolStep>,
    moment: int,
    peak: nat,
)
    requires
        is_history(states, steps),
        0 <= moment < states.len(),
        forall|k: int| 0 <= k <= moment ==> (#[trigger] states[k]).held_slots().len() <= peak,
    ensures
        states[moment].requests.granted <= peak,
        states[moment].buffers.len() <= peak,
    decreases moment,
{
    law_every_granted_request_is_a_buffer(states, steps, moment);
    if moment > 0 {
        law_allocations_bounded_by_peak(states, steps, moment - 1, peak);
        let before = states[moment - 1];
        let after = states[moment];
        assert(steps[moment - 1].enabled(before));
        law_history_keeps_invariant(states, steps, moment);
        assert(after == steps[moment - 1].after(before));
        law_history_keeps_invariant(states, steps, moment - 1);
        if before.idle.len() > 0 {
            crate::pool_state::lemma_recycled_inv(before);
        }
        if after.buffers.len() > before.buffers.len() {
            lemma_all_held(after);
            assert(after.held_slots().len() <= peak);
        }
    }
}

/// In an open pool without idle buffers every buffer is held.
proof fn lemma_all_held(pool: PoolState)
    requires
        pool.inv(),
        pool.open,
        pool.idle.len() == 0,
    ensures
        pool.held_slots().len() == pool.buffers.len(),
{
    vstd::set_lib::lemma_int_range(0, pool.buffers.len() as int);
    assert forall|slot: int| 0 <= slot < pool.buffers.len() implies #[trigger] pool.held(slot) by {
        assert(pool.allocated(slot));
        if !pool.held(slot) {
            assert(pool.idle.contains(slot as usize));
        }
    }
    assert(pool.held_slots() =~= vstd::set_lib::set_int_range(0, pool.buffers.len() as int));
}

/// A buffer whose last reference is given up is the one that the next acquisition
/// hands out: the same memory, as it was left, and nothing is allocated.
pub proof fn law_returned_buffer_is_recycled(pool: PoolState, slot: int)
    requires
        pool.inv(),
        pool.open,
        pool.held(slot),
        pool.buffer(slot).refs == 1,
    ensures
        pool.released(slot).idle.len() > 0,
        pool.released(slot).next_idle() == slot,
        pool.released(slot).recycled() == pool,
{
    assert(pool.released(slot).recycled() =~= pool);
}

/// An acquisition takes a buffer that nobody held, gives it its first reference,
/// and leaves every other buffer alone: buffers that are held at the same time
/// are different buffers.
pub proof fn law_acquired_buffer_is_exclusive(pool: PoolState, data: usize)
    requires
        pool.inv(),
        pool.open,
    ensures
        !pool.held(pool.next_slot()),
        pool.acquired(data).held(pool.next_slot()),
        pool.acquired(data).buffer(pool.next_slot()).refs == 1,
        forall|other: int| #[trigger]
            pool.allocated(other) && other != pool.next_slot() ==> pool.acquired(data).allocated(
                other,
            ) && pool.acquired(data).buffer(other) == pool.buffer(other),
{
    if pool.idle.len() > 0 {
        crate::pool_state::lemma_recycled_inv(pool);
    }
}

/// The allocator places a buffer that this call needs where no other buffer of the
/// pool lies.
pub open spec fn placed_clear(pool: PoolState, step: PoolStep) -> bool {
    step matches PoolStep::Get { data } ==> pool.idle.len() == 0 ==> pool.has_room_at(data)
}

/// No call makes two buffers share memory, provided the allocator does not hand out
/// memory that is in use.
pub proof fn law_step_keeps_buffers_disjoint(pool: PoolState, step: PoolStep)
    requires
        pool.inv(),
        pool.disjoint(),
        step.enabled(pool),
        placed_clear(pool, step),
    ensures
        step.after(pool).disjoint(),
{
    let after = step.after(pool);
    if pool.idle.len() > 0 {
        crate::pool_state::lemma_recycled_inv(pool);
    }
    assert forall|one: int, other: int| #[trigger]
        after.allocated(one) && #[trigger] after.allocated(other) && one
            != other implies after.clear_of(one, after.buffer(other).data) by {
        assert(one < pool.buffers.len() ==> pool.allocated(one));
        assert(other < pool.buffers.len() ==> pool.allocated(other));
    }
}

/// Buffers that are held at the same time never share memory, at any moment of a
/// pool's life, provided the allocator does not hand out memory that is in use.
pub proof fn law_held_buffers_never_share_memory(
    states: Seq<PoolState>,
    steps: Seq<PoolStep>,
    moment: int,
    one: int,
    other: int,
)
    requires
        is_history(states, steps),
        0 <= moment < states.len(),
        forall|k: int| 0 <= k < moment ==> placed_clear(states[k], #[trigger] steps[k]),
        states[moment].held(one),
        states[moment].held(other),
        one != other,
    ensures
        states[moment].clear_of(one, states[moment].buffer(other).data),
{
    lemma_history_disjoint(states, steps, moment);
    assert(states[moment].allocated(one) && states[moment].allocated(other));
}

/// At every moment of a pool's life its buffers are disjoint.
proof fn lemma_history_disjoint(states: Seq<PoolState>, steps: Seq<PoolStep>, moment: int)
    requires
        is_history(states, steps),
        0 <= moment < states.len(),
        forall|k: int| 0 <= k < moment ==> placed_clear(states[k], #[trigger] steps[k]),
    ensures
        states[moment].disjoint(),
    decreases moment,
{
    if moment > 0 {
        lemma_history_disjoint(states, steps, moment - 1);
        law_history_keeps_invariant(states, steps, moment - 1);
        assert(steps[moment - 1].enabled(states[moment - 1]));
        law_step_keeps_buffers_disjoint(states[moment - 1], steps[moment - 1]);
    }
}

/// A buffer is zero-filled when it is allocated.
pub proof fn law_allocated_buffer_is_zero_filled(pool: PoolState, data: usize)
    requires
        pool.inv(),
        pool.open,
        pool.idle.len() == 0,
    ensures
        pool.grown(data).buffer(pool.buffers.len() as int).bytes == zeros(pool.buffer_size),
{
}

/// A buffer is not cleared when it is recycled: it holds what it held, at the
/// place where it was.
pub proof fn law_recycled_buffer_is_not_cleared(pool: PoolState)
    requires
        pool.inv(),
        pool.idle.len() > 0,
    ensures
        pool.recycled().buffer(pool.next_idle()).bytes == pool.buffer(pool.next_idle()).bytes,
        pool.recycled().buffer(pool.next_idle()).data == pool.buffer(pool.next_idle()).data,
        pool.recycled().buffers.len() == pool.buffers.len(),
{
    crate::pool_state::lemma_recycled_inv(pool);
}

/// A write through one reference reaches its own buffer and no other.
pub proof fn law_write_reaches_one_buffer(
    pool: PoolState,
    slot: int,
    other: int,
    at: int,
    patch: Seq<u8>,
)
    requires
        pool.inv(),
        pool.held(slot),
        pool.allocated(other),
    ensures
        pool.written(slot, at, patch).allocated(other),
        other != slot ==> pool.written(slot, at, patch).buffer(other) == pool.buffer(other),
        pool.written(slot, at, patch).buffer(slot).bytes == overwritten(
            pool.buffer(slot).bytes,
            at,
            patch,
        ),
{
}

/// Taking a reference and giving it up again changes nothing, and in between the
/// buffer is shared, hence not writable.
pub proof fn law_clone_then_unref_restores(pool: PoolState, slot: int)
    requires
        pool.inv(),
        pool.held(slot),
    ensures
        pool.referenced(slot).buffer(slot).refs == pool.buffer(slot).refs + 1,
        pool.referenced(slot).buffer(slot).refs > 1,
        pool.referenced(slot).released(slot) == pool,
{
    assert(pool.referenced(slot).released(slot) =~= pool);
}

/// References that are given up one after the other count down, and only the
/// last one returns the buffer.
pub proof fn law_only_last_unref_returns(pool: PoolState, slot: int)
    requires
        pool.inv(),
        pool.held(slot),
    ensures
        pool.buffer(slot).refs > 1 ==> pool.released(slot).held(slot) && pool.released(
            slot,
        ).buffer(slot).refs == pool.buffer(slot).refs - 1 && pool.released(slot).idle == pool.idle,
        pool.buffer(slot).refs == 1 ==> !pool.released(slot).held(slot),
{
}

/// A reference stays good through every call but the one that gives up the last
/// reference to its buffer.
pub proof fn law_reference_stays_good(
    pool: PoolState,
    reference: ReferenceState,
    step: PoolStep,
)
    requires
        pool.inv(),
        reference.belongs_to(pool),
        step.enabled(pool),
        pool.buffer(reference.slot).refs == 1 ==> step != (PoolStep::Unref {
            slot: reference.slot,
        }),
    ensures
        reference.belongs_to(step.after(pool)),
{
    if pool.idle.len() > 0 {
        crate::pool_state::lemma_recycled_inv(pool);
    }
}

/// A pool can be closed while buffers are held: they stay as they are.
pub proof fn law_close_keeps_held_buffers(pool: PoolState, slot: int)
    requires
        pool.inv(),
        pool.held(slot),
    ensures
        pool.closed().held(slot),
        pool.closed().buffer(slot) == pool.buffer(slot),
{
}

/// A closed pool has no idle buffers, and a buffer whose last reference is given
/// up after the pool was closed is freed, not kept.
pub proof fn law_unref_after_close_frees(pool: PoolState, slot: int)
    requires
        pool.inv(),
        !pool.open,
        pool.held(slot),
        pool.buffer(slot).refs == 1,
    ensures
        !pool.released(slot).allocated(slot),
        pool.released(slot).idle.len() == 0,
{
}

/// A closed pool is gone once nobody refers to any of its buffers, and not before.
pub proof fn law_closed_pool_goes_with_last_buffer(pool: PoolState)
    requires
        pool.inv(),
        !pool.open,
    ensures
        pool.gone() <==> forall|slot: int| !#[trigger] pool.held(slot),
{
    if forall|slot: int| !#[trigger] pool.held(slot) {
        assert forall|slot: int| !#[trigger] pool.allocated(slot) by {
            if pool.allocated(slot) {
                assert(!pool.held(slot));
                assert(pool.idle.contains(slot as usize));
            }
        }
    } else {
        let slot = choose|slot: int| pool.held(slot);
        assert(pool.allocated(slot));
    }
}

/// No call frees a buffer that was freed before, or brings it back.
pub proof fn law_freed_stays_freed(pool: PoolState, step: PoolStep, slot: int)
    requires
        pool.inv(),
        step.enabled(pool),
        0 <= slot < pool.buffers.len(),
        !pool.allocated(slot),
    ensures
        slot < step.after(pool).buffers.len(),
        !step.after(pool).allocated(slot),
{
    if pool.idle.len() > 0 {
        crate::pool_state::lemma_recycled_inv(pool);
    }
}

/// Call number `call` of a pool's life frees buffer `slot`.
pub open spec fn frees(states: Seq<PoolState>, call: int, slot: int) -> bool {
    states[call].allocated(slot) && !states[call + 1].allocated(slot)
}

/// In whatever order buffers are given up and the pool is closed, no buffer is freed
/// twice.
pub proof fn law_no_buffer_is_freed_twice(
    states: Seq<PoolState>,
    steps: Seq<PoolStep>,
    slot: int,
    first: int,
    second: int,
)
    requires
        is_history(states, steps),
        0 <= first < second < steps.len(),
        frees(states, first, slot),
    ensures
        !frees(states, second, slot),
{
    law_history_keeps_invariant(states, steps, first);
    assert(steps[first].enabled(states[first]));
    if states[first].idle.len() > 0 {
        crate::pool_state::lemma_recycled_inv(states[first]);
    }
    lemma_freed_for_good(states, steps, slot, first + 1, second);
}

/// In whatever order buffers are given up and the pool is closed, once nobody refers
/// to a buffer of the closed pool, each buffer that was ever handed out has been
/// freed, by exactly one call.
pub proof fn law_every_buffer_is_freed_once(
    states: Seq<PoolState>,
    steps: Seq<PoolStep>,
    slot: int,
) -> (call: int)
    requires
        is_history(states, steps),
        !states.last().open,
        forall|any: int| !#[trigger] states.last().held(any),
        0 <= slot < states.last().buffers.len(),
    ensures
        0 <= call < steps.len(),
        frees(states, call, slot),
        forall|other: int|
            0 <= other < steps.len() && other != call ==> !#[trigger] frees(states, other, slot),
{
    law_history_keeps_invariant(states, steps, steps.len() as int);
    law_closed_pool_goes_with_last_buffer(states.last());
    assert(!states.last().allocated(slot));
    let born = lemma_every_buffer_was_allocated(states, steps, slot, steps.len() as int);
    let call = lemma_freeing_call(states, steps, slot, born, steps.len() as int);
    assert forall|other: int| 0 <= other < steps.len() && other != call implies !#[trigger] frees(
        states,
        other,
        slot,
    ) by {
        if other > call {
            law_no_buffer_is_freed_twice(states, steps, slot, call, other);
        } else if frees(states, other, slot) {
            law_no_buffer_is_freed_twice(states, steps, slot, other, call);
        }
    }
    call
}

/// A buffer that is freed at moment `from` is so at every later one.
proof fn lemma_freed_for_good(
    states: Seq<PoolState>,
    steps: Seq<PoolStep>,
    slot: int,
    from: int,
    to: int,
)
    requires
        is_history(states, steps),
        0 <= from <= to < states.len(),
        0 <= slot < states[from].buffers.len(),
        !states[from].allocated(slot),
    ensures
        slot < states[to].buffers.len(),
        !states[to].allocated(slot),
    decreases to,
{
    if from < to {
        lemma_freed_for_good(states, steps, slot, from, to - 1);
        law_history_keeps_invariant(states, steps, to - 1);
        assert(steps[to - 1].enabled(states[to - 1]));
        law_freed_stays_freed(states[to - 1], steps[to - 1], slot);
    }
}

/// Every buffer of a pool was allocated at some moment.
proof fn lemma_every_buffer_was_allocated(
    states: Seq<PoolState>,
    steps: Seq<PoolStep>,
    slot: int,
    moment: int,
) -> (born: int)
    requires
        is_history(states, steps),
        0 <= moment < states.len(),
        0 <= slot < states[moment].buffers.len(),
    ensures
        0 <= born <= moment,
        states[born].allocated(slot),
    decreases moment,
{
    assert(moment > 0);
    let before = states[moment - 1];
    law_history_keeps_invariant(states, steps, moment - 1);
    assert(steps[moment - 1].enabled(before));
    if before.idle.len() > 0 {
        crate::pool_state::lemma_recycled_inv(before);
    }
    if states[moment].allocated(slot) {
        moment
    } else {
        assert(slot < before.buffers.len());
        lemma_every_buffer_was_allocated(states, steps, slot, moment - 1)
    }
}

/// Between a moment at which a buffer is allocated and one at which it is not, some
/// call frees it.
proof fn lemma_freeing_call(
    states: Seq<PoolState>,
    steps: Seq<PoolStep>,
    slot: int,
    from: int,
    to: int,
) -> (call: int)
    requires
        is_history(states, steps),
        0 <= from <= to < states.len(),
        states[from].allocated(slot),
        !states[to].allocated(slot),
    ensures
        from <= call < to,
        frees(states, call, slot),
    decreases to - from,
{
    if states[from + 1].allocated(slot) {
        lemma_freeing_call(states, steps, slot, from + 1, to)
    } else {
        from
    }
}

} // verus!
