//! The lifecycle of a virtual CPU: its states, the guarded transition between
//! them, and what holds of every sequence of guarded transitions.

use vstd::prelude::*;

use crate::error::{VCpuError, VCpuResult};

verus! {

/// The lifecycle state of a virtual CPU.
///
/// A virtual CPU moves from `Created` to `Free` when it is set up, from `Free`
/// to `Ready` when it is bound to a physical core, from `Ready` to `Running`
/// and back while it runs, and from `Ready` to `Free` when it is unbound.
/// `Invalid` is entered when an operation fails or is attempted from the wrong
/// state.
#[derive(Clone, Copy, Debug, PartialEq, Eq, Structural)]
pub enum VCpuState {
    /// An operation failed or was attempted from the wrong state.
    Invalid,
    /// The virtual CPU was created and is not set up yet.
    Created,
    /// The virtual CPU is set up and can be bound to a physical core.
    Free,
    /// The virtual CPU is bound to a physical core and can run.
    Ready,
    /// The virtual CPU is executing guest code.
    Running,
    /// The virtual CPU is waiting and cannot run.
    Blocked,
}

/// Whether the lifecycle knows a transition from `from` to `to`.
pub open spec fn is_lifecycle_step(from: VCpuState, to: VCpuState) -> bool {
    ||| (from == VCpuState::Created && to == VCpuState::Free)
    ||| (from == VCpuState::Free && to == VCpuState::Ready)
    ||| (from == VCpuState::Ready && to == VCpuState::Running)
    ||| (from == VCpuState::Running && to == VCpuState::Ready)
    ||| (from == VCpuState::Ready && to == VCpuState::Free)
}

/// The state in which a guarded transition from `from` to `to` leaves a
/// virtual CPU that was in the state `current`, where `body_ok` says whether
/// the guarded operation succeeded. The target is reached only from the
/// required state and only on success.
pub open spec fn state_after(current: VCpuState, from: VCpuState, to: VCpuState, body_ok: bool) -> VCpuState {
    if current == from && body_ok {
        to
    } else {
        VCpuState::Invalid
    }
}

/// The result of a guarded transition whose operation cannot fail, attempted
/// on a virtual CPU in the state `current`: the bad-state error unless the
/// virtual CPU is in the required state `from`.
pub open spec fn guard_result(current: VCpuState, from: VCpuState) -> VCpuResult<()> {
    if current == from {
        Ok(())
    } else {
        Err(VCpuError::BadState)
    }
}

/// One guarded transition in the history of a virtual CPU.
pub struct Attempt {
    /// The state that the transition requires.
    pub from: VCpuState,
    /// The state that the transition leads to.
    pub to: VCpuState,
    /// Whether the guarded operation succeeded.
    pub ok: bool,
}

/// The state of a virtual CPU that started in `start` and went through the
/// guarded transitions `attempts`, in this order.
pub open spec fn state_after_all(start: VCpuState, attempts: Seq<Attempt>) -> VCpuState
    decreases attempts.len(),
{
    if attempts.len() == 0 {
        start
    } else {
        let last = attempts.last();
        state_after(state_after_all(start, attempts.drop_last()), last.from, last.to, last.ok)
    }
}

/// No step of the lifecycle starts in `Invalid`, and none leads there.
pub proof fn lemma_lifecycle_avoids_invalid(from: VCpuState, to: VCpuState)
    requires
        is_lifecycle_step(from, to),
    ensures
        from != VCpuState::Invalid,
        to != VCpuState::Invalid,
{
}

/// A guarded transition that is attempted from another state than the one
/// the virtual CPU is in reports the bad-state error and leaves the virtual
/// CPU `Invalid`. Every later guarded transition then fails in the same way,
/// whatever state other than `Invalid` it requires and whether or not its
/// operation would succeed.
pub proof fn lemma_wrong_source_is_final(
    current: VCpuState,
    from: VCpuState,
    to: VCpuState,
    body_ok: bool,
    next_from: VCpuState,
    next_to: VCpuState,
    next_ok: bool,
)
    requires
        current != from,
        next_from != VCpuState::Invalid,
    ensures
        guard_result(current, from) == Err::<(), VCpuError>(VCpuError::BadState),
        state_after(current, from, to, body_ok) == VCpuState::Invalid,
        guard_result(state_after(current, from, to, body_ok), next_from) == Err::<(), VCpuError>(
            VCpuError::BadState,
        ),
        state_after(state_after(current, from, to, body_ok), next_from, next_to, next_ok)
            == VCpuState::Invalid,
{
}

/// A guarded transition leaves the virtual CPU in the target state exactly
/// when it started in the required state and its operation succeeded, and in
/// `Invalid` otherwise, provided that the target is not `Invalid` itself.
pub proof fn lemma_state_tells_success(current: VCpuState, from: VCpuState, to: VCpuState, body_ok: bool)
    requires
        to != VCpuState::Invalid,
    ensures
        state_after(current, from, to, body_ok) == to <==> (current == from && body_ok),
        state_after(current, from, to, body_ok) == VCpuState::Invalid <==> !(current == from && body_ok),
{
}

/// `Invalid` is permanent: guarded transitions, however many, do not lead out
/// of it, as long as none of them names `Invalid` as the state it requires.
pub proof fn lemma_invalid_is_permanent(attempts: Seq<Attempt>)
    requires
        forall|i: int| 0 <= i < attempts.len() ==> attempts[i].from != VCpuState::Invalid,
    ensures
        state_after_all(VCpuState::Invalid, attempts) == VCpuState::Invalid,
    decreases attempts.len(),
{
    if attempts.len() > 0 {
        let earlier = attempts.drop_last();
        assert forall|i: int| 0 <= i < earlier.len() implies earlier[i].from != VCpuState::Invalid by {
            assert(earlier[i] == attempts[i]);
        }
        lemma_invalid_is_permanent(earlier);
    }
}

/// The state of a virtual CPU tells its history: if the virtual CPU is not
/// `Invalid` after a sequence of guarded transitions, none of which requires
/// or leads to `Invalid`, then every one of them found the virtual CPU in the
/// state that it requires, succeeded, and left it in the state that it leads
/// to.
pub proof fn lemma_valid_state_tells_history(start: VCpuState, attempts: Seq<Attempt>, i: int)
    requires
        forall|j: int|
            0 <= j < attempts.len() ==> attempts[j].from != VCpuState::Invalid && attempts[j].to
                != VCpuState::Invalid,
        state_after_all(start, attempts) != VCpuState::Invalid,
        0 <= i < attempts.len(),
    ensures
        state_after_all(start, attempts.take(i)) == attempts[i].from,
        attempts[i].ok,
        state_after_all(start, attempts.take(i + 1)) == attempts[i].to,
    decreases attempts.len(),
{
    let earlier = attempts.drop_last();
    assert(earlier =~= attempts.take(attempts.len() - 1));
    assert(attempts =~= attempts.take(attempts.len() as int));
    if i < attempts.len() - 1 {
        assert forall|j: int| 0 <= j < earlier.len() implies earlier[j].from != VCpuState::Invalid
            && earlier[j].to != VCpuState::Invalid by {
            assert(earlier[j] == attempts[j]);
        }
        lemma_valid_state_tells_history(start, earlier, i);
        assert(earlier.take(i) =~= attempts.take(i));
        assert(earlier.take(i + 1) =~= attempts.take(i + 1));
        assert(earlier[i] == attempts[i]);
    }
}

} // verus!
