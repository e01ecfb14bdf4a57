use crate::envelope::{settle, settles, Envelope};
use crate::slot::{received, Slot};
use vstd::prelude::*;

verus! {

/// Holds at most one pending action that consumes an input of type `I` and
/// gives an output of type `O`, shared between threads.
///
/// Each action put in is either run once, by the one
/// [`CallbackCellArgs::take_call`] that claims it, or disposed of once without
/// running: by the `put` that displaces it, or when the cell is dropped. The
/// input given to `take_call` is either consumed by the action or handed back
/// untouched, never dropped.
#[verifier::reject_recursive_types(I)]
#[verifier::reject_recursive_types(O)]
pub struct CallbackCellArgs<I, O> {
    slot: Slot<Envelope<I, O>>,
}

impl<I, O> CallbackCellArgs<I, O> {
    /// A cell with no action.
    pub fn new() -> (c: CallbackCellArgs<I, O>) {
        CallbackCellArgs { slot: Slot::new() }
    }

    /// Makes `f` the pending action. An action that was pending is disposed
    /// of on this thread, without running.
    pub fn put<F: FnOnce(I) -> O + Send + 'static>(&self, f: F)
        requires
            forall|i: I| call_requires(f, (i,)),
    {
        // The displaced envelope, if any, is dropped here: disposed of unrun.
        let _ = self.slot.exchange(Some(Envelope::new(f)));
    }

    /// Takes the pending action, if any, and runs it on `input` on this
    /// thread: its output comes back as `Ok`. With no action pending, `input`
    /// comes back untouched as `Err`.
    pub fn take_call(&self, input: I) -> (r: Result<O, I>)
        ensures
            r is Err ==> r == Err::<O, I>(input),
    {
        let claimed = self.slot.exchange(None);
        settle(claimed, input)
    }

    /// Whether an action was pending at some moment during the call.
    ///
    /// Never authoritative: another thread may put or take the moment this
    /// returns.
    pub fn is_occupied(&self) -> bool {
        self.slot.is_occupied()
    }

    /// The text that diagnostics show for the cell: `CallbackCellArgs(NULL)` when no
    /// action was pending, `CallbackCellArgs(NOT NULL)` when one was. Never
    /// authoritative, as for [`CallbackCellArgs::is_occupied`].
    pub fn debug_text(&self) -> (r: String)
        ensures
            r@ == "CallbackCellArgs(NULL)"@ || r@ == "CallbackCellArgs(NOT NULL)"@,
    {
        Self::debug_text_for(self.is_occupied())
    }

    /// The diagnostic text for a cell seen with or without a pending action.
    pub fn debug_text_for(occupied: bool) -> (r: String)
        ensures
            r@ == (if occupied { "CallbackCellArgs(NOT NULL)"@ } else { "CallbackCellArgs(NULL)"@ }),
    {
        if occupied {
            "CallbackCellArgs(NOT NULL)".to_owned()
        } else {
            "CallbackCellArgs(NULL)".to_owned()
        }
    }
}

impl<I, O> Default for CallbackCellArgs<I, O> {
    fn default() -> (c: CallbackCellArgs<I, O>) {
        CallbackCellArgs::new()
    }
}

/// Round trip: `put(f)` and then `take_call(x)`, with no exchange between
/// them. The take receives the envelope that the put installed (`e`, built
/// from `f` by `Envelope::new`), runs it once on `x`, and returns an output
/// of `f` on `x`.
pub proof fn lemma_round_trip<I, O, F: FnOnce(I) -> O>(
    f: F,
    e: Envelope<I, O>,
    x: I,
    r: Result<O, I>,
)
    requires
        forall|i: I, o: O| e.yields(i, o) <==> call_ensures(f, (i,), o),
        settles(received(seq![Some(e), None], 1), x, r),
    ensures
        r is Ok,
        call_ensures(f, (x,), r->Ok_0),
{
}

/// Absence: the first exchange on a fresh cell receives nothing, so a
/// `take_call(x)` made first hands `x` back untouched and runs nothing.
pub proof fn lemma_take_on_fresh<I, O>(installs: Seq<Option<Envelope<I, O>>>, x: I, r: Result<O, I>)
    requires
        installs.len() > 0,
        installs[0] is None,
        settles(received(installs, 0), x, r),
    ensures
        r == Err::<O, I>(x),
{
}

/// Replacement: `put(f1)`, `put(f2)`, then `take_call(x)`. The second put
/// receives `e1`, the envelope of `f1`, and drops it unrun; the take
/// receives `e2`, the envelope of `f2`, and returns an output of `f2`.
pub proof fn lemma_replacement<I, O>(e1: Envelope<I, O>, e2: Envelope<I, O>, x: I, r: Result<O, I>)
    requires
        settles(received(seq![Some(e1), Some(e2), None], 2), x, r),
    ensures
        received(seq![Some(e1), Some(e2), None], 1) == Some(e1),
        r is Ok,
        e2.yields(x, r->Ok_0),
{
}

} // verus!
