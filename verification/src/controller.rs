//! The session state machine: states, operations, and the transition
//! relation that the registry's `start` and `stop` are proved to follow.

use vstd::prelude::*;

verus! {

/// Lifecycle status of the registry's session.
#[derive(Clone, Copy, Debug, PartialEq, Eq, Structural)]
pub enum Status {
    /// No mining session is active.
    Idle,
    /// A mining session is active.
    Running,
}

/// The two errors the controller itself can report.
#[derive(Clone, Copy, Debug, PartialEq, Eq, Structural)]
pub enum ControllerError {
    /// `start` was requested while the status was already `Running`.
    AlreadyMining,
    /// `stop` was requested while the status was `Idle`.
    NotMining,
}

/// One controller operation, as an abstract event.
#[derive(Clone, Copy, Debug, PartialEq, Eq, Structural)]
pub enum Op {
    Start,
    Stop,
}

/// The transition relation: a successful operation moves the status, a
/// rejected one leaves it unchanged.
pub open spec fn step(s: Status, op: Op) -> Status {
    match op {
        Op::Start => if s is Idle { Status::Running } else { s },
        Op::Stop => if s is Running { Status::Idle } else { s },
    }
}

/// Whether an operation succeeds from a given status: `start` only from
/// `Idle`, `stop` only from `Running`. Both self-transitions are rejected.
pub open spec fn step_succeeds(s: Status, op: Op) -> bool {
    match op {
        Op::Start => s is Idle,
        Op::Stop => s is Running,
    }
}

/// The status after a whole sequence of operations, starting from `Idle`.
pub open spec fn status_after(ops: Seq<Op>) -> Status
    decreases ops.len(),
{
    if ops.len() == 0 {
        Status::Idle
    } else {
        step(status_after(ops.drop_last()), ops.last())
    }
}

/// Whether the operation at position `i` of the sequence succeeds when the
/// whole sequence is run from `Idle`.
pub open spec fn succeeds_at(ops: Seq<Op>, i: int) -> bool {
    step_succeeds(status_after(ops.take(i)), ops[i])
}

/// Position `i` holds a successful `start` that no later successful `stop`
/// has answered yet.
pub open spec fn open_start_at(ops: Seq<Op>, i: int) -> bool {
    &&& 0 <= i < ops.len()
    &&& ops[i] is Start
    &&& succeeds_at(ops, i)
    &&& forall|j: int| i < j < ops.len() ==> !(ops[j] is Stop && succeeds_at(ops, j))
}

/// Appending one operation to a trace steps the status once: this is the
/// glue between the registry's contracts, which speak of one `step`, and the
/// laws below, which speak of whole traces.
pub proof fn lemma_status_after_push(ops: Seq<Op>, op: Op)
    ensures
        status_after(ops.push(op)) == step(status_after(ops), op),
{
    assert(ops.push(op).drop_last() =~= ops);
    assert(ops.push(op).last() == op);
}

/// A prefix of the operations is unchanged by dropping the last operation:
/// whether position `i` succeeds is decided by what ran before it.
proof fn lemma_succeeds_at_drop_last(ops: Seq<Op>, i: int)
    requires
        0 <= i < ops.len() - 1,
    ensures
        succeeds_at(ops, i) == succeeds_at(ops.drop_last(), i),
{
    assert(ops.take(i) =~= ops.drop_last().take(i));
    assert(ops.drop_last()[i] == ops[i]);
}

/// Law: after any sequence of operations run from `Idle`, the status is
/// `Running` if and only if some position holds a successful `start` that no
/// later successful `stop` has answered.
pub proof fn lemma_running_iff_open_start(ops: Seq<Op>)
    ensures
        status_after(ops) is Running <==> exists|i: int| open_start_at(ops, i),
    decreases ops.len(),
{
    if ops.len() == 0 {
        assert(forall|i: int| !open_start_at(ops, i));
    } else {
        let prefix = ops.drop_last();
        let op = ops.last();
        let n = ops.len() - 1;
        lemma_running_iff_open_start(prefix);
        assert(ops.take(n) =~= prefix);
        assert forall|i: int| 0 <= i < n implies succeeds_at(ops, i) == succeeds_at(
            prefix,
            i,
        ) by {
            lemma_succeeds_at_drop_last(ops, i);
        }
        match op {
            Op::Start => {
                if status_after(prefix) is Idle {
                    assert(succeeds_at(ops, n));
                    assert(open_start_at(ops, n));
                    assert(status_after(ops) is Running);
                } else {
                    assert(status_after(ops) is Running);
                    let i = choose|i: int| open_start_at(prefix, i);
                    assert(open_start_at(ops, i));
                }
            }
            Op::Stop => {
                if status_after(prefix) is Running {
                    assert(status_after(ops) is Idle);
                    assert(succeeds_at(ops, n));
                    assert forall|i: int| !open_start_at(ops, i) by {
                        if open_start_at(ops, i) {
                            assert(ops[i] is Start);
                            assert(i < n);
                            assert(!(ops[n] is Stop && succeeds_at(ops, n)));
                        }
                    }
                } else {
                    assert(status_after(ops) is Idle);
                    assert forall|i: int| !open_start_at(ops, i) by {
                        if open_start_at(ops, i) {
                            assert(i < n);
                            assert(open_start_at(prefix, i));
                            assert(status_after(prefix) is Running);
                        }
                    }
                }
            }
        }
    }
}

/// After `n` operations of an all-`start` sequence the status is `Idle` only
/// before the first of them, `Running` from then on.
proof fn lemma_all_starts_prefix_status(ops: Seq<Op>, n: int)
    requires
        forall|k: int| 0 <= k < ops.len() ==> ops[k] is Start,
        0 <= n <= ops.len(),
    ensures
        status_after(ops.take(n)) == (if n == 0 {
            Status::Idle
        } else {
            Status::Running
        }),
    decreases n,
{
    if n > 0 {
        lemma_all_starts_prefix_status(ops, n - 1);
        assert(ops.take(n).drop_last() =~= ops.take(n - 1));
        assert(ops.take(n).last() == ops[n - 1]);
    }
}

/// Law: when any number of `start` operations run serialized against an
/// initially `Idle` registry, exactly the first succeeds — every other one
/// observes `Running` and is rejected — and the final status is `Running`.
pub proof fn lemma_concurrent_starts_one_winner(ops: Seq<Op>)
    requires
        ops.len() >= 1,
        forall|k: int| 0 <= k < ops.len() ==> ops[k] is Start,
    ensures
        forall|i: int| 0 <= i < ops.len() ==> (succeeds_at(ops, i) <==> i == 0),
        status_after(ops) is Running,
{
    assert forall|i: int| 0 <= i < ops.len() implies (succeeds_at(ops, i) <==> i == 0) by {
        lemma_all_starts_prefix_status(ops, i);
    }
    lemma_all_starts_prefix_status(ops, ops.len() as int);
    assert(ops.take(ops.len() as int) =~= ops);
}

} // verus!
