//! Commands: the work that a model asks the program to do for it.

use std::collections::VecDeque;
use vstd::prelude::*;
use vstd::std_specs::iter::IteratorSpec;

verus! {

/// Effect command produced by a model's `init` and `update`: nothing, one
/// operation that yields a message, or several of them, to be run in order.
#[verifier::reject_recursive_types(Msg)]
pub enum Command<Msg, F: FnOnce() -> Msg> {
    Empty,
    One(F),
    Batch(Vec<F>),
}

impl<Msg, F: FnOnce() -> Msg> Command<Msg, F> {
    /// The operations of the command, in the order in which they run.
    pub open spec fn operations(self) -> Seq<F> {
        match self {
            Command::Empty => Seq::empty(),
            Command::One(op) => seq![op],
            Command::Batch(ops) => ops@,
        }
    }

    /// The command that does nothing.
    #[must_use]
    pub fn none() -> (c: Self)
        ensures
            c is Empty,
            c.operations() == Seq::<F>::empty(),
    {
        Self::Empty
    }

    /// The command that runs `f`.
    #[must_use]
    pub fn one(f: F) -> (c: Self)
        ensures
            c == Command::<Msg, F>::One(f),
            c.operations() == seq![f],
    {
        Self::One(f)
    }

    /// The command that runs `commands` one after the other.
    #[must_use]
    pub fn batch(commands: Vec<F>) -> (c: Self)
        ensures
            c == Command::<Msg, F>::Batch(commands),
            c.operations() == commands@,
    {
        Self::Batch(commands)
    }
}

/// `msgs` are what `ops` yield, one message for each operation, in order.
pub open spec fn yielded<Msg, F: FnOnce() -> Msg>(ops: Seq<F>, msgs: Seq<Msg>) -> bool {
    &&& msgs.len() == ops.len()
    &&& forall|i: int| 0 <= i < ops.len() ==> call_ensures(#[trigger] ops[i], (), msgs[i])
}

/// Runs the operations of `command` in order and appends the message that
/// each yields to `pending`, behind what is already waiting there.
pub fn enqueue_command<Msg, F: FnOnce() -> Msg>(
    command: Command<Msg, F>,
    pending: &mut VecDeque<Msg>,
)
    requires
        forall|i: int|
            0 <= i < command.operations().len() ==> call_requires(
                #[trigger] command.operations()[i],
                (),
            ),
    ensures
        final(pending)@.len() == old(pending)@.len() + command.operations().len(),
        final(pending)@.take(old(pending)@.len() as int) == old(pending)@,
        yielded(command.operations(), final(pending)@.skip(old(pending)@.len() as int)),
{
    let ghost before = pending@;
    let ghost given = command.operations();
    match command {
        Command::Empty => {
            assert(pending@.take(before.len() as int) =~= before);
        },
        Command::One(op) => {
            assert(given[0] == op);
            let msg = op();
            pending.push_back(msg);
            assert(pending@.take(before.len() as int) =~= before);
        },
        Command::Batch(commands) => {
            let ghost ops = commands@;
            assert forall|i: int| 0 <= i < ops.len() implies call_requires(
                #[trigger] ops[i],
                (),
            ) by {
                assert(given[i] == ops[i]);
            }
            for op in it: commands
                invariant
                    it.seq() == ops,
                    pending@.len() == before.len() + it.index(),
                    pending@.take(before.len() as int) == before,
                    yielded(ops.take(it.index() as int), pending@.skip(before.len() as int)),
                    forall|i: int| 0 <= i < ops.len() ==> call_requires(#[trigger] ops[i], ()),
            {
                let ghost earlier = pending@;
                let ghost done = it.index() as int;
                assert(op == ops[done]);
                let msg = op();
                pending.push_back(msg);
                proof {
                    assert(pending@.take(before.len() as int) =~= earlier.take(
                        before.len() as int,
                    ));
                    let msgs = pending@.skip(before.len() as int);
                    assert(msgs =~= earlier.skip(before.len() as int).push(msg));
                    assert forall|i: int| 0 <= i < done + 1 implies call_ensures(
                        #[trigger] ops.take(done + 1)[i],
                        (),
                        msgs[i],
                    ) by {
                        if i < done {
                            assert(ops.take(done + 1)[i] == ops.take(done)[i]);
                        }
                    }
                }
            }
            assert(ops.take(ops.len() as int) =~= ops);
        },
    }
}

} // verus!
