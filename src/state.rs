use vstd::prelude::*;

use crate::error::KillSwitchErr;

verus! {

/// One operation on a shared flag, made through any handle that shares it.
pub enum FlagOp {
    /// `is_alive`, or rendering the state as text.
    Read,
    /// `kill`.
    Kill,
    /// Cloning a handle, or deriving a watcher from a switch.
    Share,
}

/// The state of a flag after one operation: `true` while alive, `false`
/// once killed. Only a kill changes it, and only towards killed.
pub open spec fn step(alive: bool, op: FlagOp) -> bool {
    match op {
        FlagOp::Kill => false,
        _ => alive,
    }
}

/// The state of a flag that was `alive` after the operations `ops`, in order.
pub open spec fn run(alive: bool, ops: Seq<FlagOp>) -> bool
    decreases ops.len(),
{
    if ops.len() == 0 {
        alive
    } else {
        step(run(alive, ops.drop_last()), ops.last())
    }
}

/// The state of a freshly created flag.
pub open spec fn initial() -> bool {
    true
}

/// What a kill returns when it finds the flag in state `alive`.
pub open spec fn kill_result(alive: bool) -> Result<(), KillSwitchErr> {
    if alive {
        Ok(())
    } else {
        Err(KillSwitchErr::AlreadyKilled)
    }
}

/// The text that renders state `alive`.
pub open spec fn label(alive: bool) -> Seq<char> {
    if alive {
        "alive"@
    } else {
        "killed"@
    }
}

/// Decides what a kill returns, given whether that kill found the flag alive
/// (and so flipped it).
pub fn kill_outcome(was_alive: bool) -> (r: Result<(), KillSwitchErr>)
    ensures
        r == kill_result(was_alive),
{
    if was_alive {
        Ok(())
    } else {
        Err(KillSwitchErr::AlreadyKilled)
    }
}

/// Renders a state of the flag as text.
pub fn state_label(alive: bool) -> (r: String)
    ensures
        r@ == label(alive),
{
    if alive {
        String::from_str("alive")
    } else {
        String::from_str("killed")
    }
}

/// Running one more operation is one more step.
proof fn lemma_run_take_next(alive: bool, ops: Seq<FlagOp>, j: int)
    requires
        0 <= j < ops.len(),
    ensures
        run(alive, ops.take(j + 1)) == step(run(alive, ops.take(j)), ops[j]),
{
    assert(ops.take(j + 1).drop_last() =~= ops.take(j));
}

/// In the model, operations that include no kill leave the state as it was:
/// in particular `run` from `initial()` stays alive until a kill.
pub proof fn lemma_alive_until_killed(alive: bool, ops: Seq<FlagOp>)
    requires
        forall|k: int| 0 <= k < ops.len() ==> ops[k] != FlagOp::Kill,
    ensures
        run(alive, ops) == alive,
        run(initial(), ops),
    decreases ops.len(),
{
    if ops.len() > 0 {
        lemma_alive_until_killed(alive, ops.drop_last());
        lemma_alive_until_killed(initial(), ops.drop_last());
    }
}

/// In the model, once a state of `run` is killed every later state is
/// killed too: no state after a killed one is alive.
pub proof fn lemma_killed_stays_killed(alive: bool, ops: Seq<FlagOp>, i: int, j: int)
    requires
        0 <= i <= j <= ops.len(),
        !run(alive, ops.take(i)),
    ensures
        !run(alive, ops.take(j)),
    decreases j - i,
{
    if i < j {
        lemma_killed_stays_killed(alive, ops, i, j - 1);
        lemma_run_take_next(alive, ops, j - 1);
    }
}

/// In the model, every state of `run` after a `Kill` is killed, whatever
/// reads and shares (before or after the kill) stand around it.
pub proof fn lemma_kill_propagates(alive: bool, ops: Seq<FlagOp>, i: int, j: int)
    requires
        0 <= i < j <= ops.len(),
        ops[i] == FlagOp::Kill,
    ensures
        !run(alive, ops.take(j)),
{
    lemma_run_take_next(alive, ops, i);
    lemma_killed_stays_killed(alive, ops, i + 1, j);
}

/// In the model, of two kills in turn from `initial()` the first gets `Ok`
/// and the second `AlreadyKilled`; from any state, a kill that follows a
/// kill gets `AlreadyKilled`.
pub proof fn lemma_second_kill_fails(alive: bool)
    ensures
        kill_result(initial()) == Ok::<(), KillSwitchErr>(()),
        kill_result(step(initial(), FlagOp::Kill)) == Err::<(), KillSwitchErr>(KillSwitchErr::AlreadyKilled),
        kill_result(step(alive, FlagOp::Kill)) == Err::<(), KillSwitchErr>(KillSwitchErr::AlreadyKilled),
{
}

/// In the model, from `initial()` the first kill of a sequence, wherever it
/// comes, is the only one whose `kill_result` is `Ok`: every later one is
/// `AlreadyKilled`.
pub proof fn lemma_single_winner(ops: Seq<FlagOp>, i: int, j: int)
    requires
        0 <= i < j < ops.len(),
        ops[i] == FlagOp::Kill,
        ops[j] == FlagOp::Kill,
        forall|k: int| 0 <= k < i ==> ops[k] != FlagOp::Kill,
    ensures
        kill_result(run(initial(), ops.take(i))) == Ok::<(), KillSwitchErr>(()),
        kill_result(run(initial(), ops.take(j))) == Err::<(), KillSwitchErr>(KillSwitchErr::AlreadyKilled),
{
    lemma_alive_until_killed(initial(), ops.take(i));
    lemma_kill_propagates(initial(), ops, i, j);
}

/// A state renders as `"alive"` exactly when it is alive, and as `"killed"`
/// otherwise.
pub proof fn lemma_label_matches_state(alive: bool)
    ensures
        (label(alive) == "alive"@) <==> alive,
        !alive ==> label(alive) == "killed"@,
{
    reveal_strlit("alive");
    reveal_strlit("killed");
    assert("alive"@[0] != "killed"@[0]);
}

} // verus!
