use crate::envelope::{settle_thunk, settles, Envelope};
use crate::slot::{received, Slot};
use vstd::prelude::*;

verus! {

/// Holds at most one pending action that takes no input, shared between
/// threads: any thread may replace it, and any thread may take and run it.
///
/// Each action put in is either run once, by the one [`CallbackCell::take_call`]
/// that claims it, or disposed of once without running: by the `put` that
/// displaces it, or when the cell is dropped.
pub struct CallbackCell {
    slot: Slot<Envelope<(), ()>>,
}

impl CallbackCell {
    /// A cell with no action.
    pub fn new() -> (c: CallbackCell) {
        CallbackCell { slot: Slot::new() }
    }

    /// Makes `f` the pending action. An action that was pending is disposed
    /// of on this thread, without running.
    pub fn put<F: FnOnce() + Send + 'static>(&self, f: F)
        requires
            call_requires(f, ()),
    {
        // The displaced envelope, if any, is dropped here: disposed of unrun.
        let _ = self.slot.exchange(Some(Envelope::from_thunk(f)));
    }

    /// Takes the pending action, if any, and runs it on this thread.
    /// Returns whether there was one.
    pub fn take_call(&self) -> (ran: bool) {
        let claimed = self.slot.exchange(None);
        settle_thunk(claimed)
    }

    /// Whether an action was pending at some moment during the call.
    ///
    /// Never authoritative: another thread may put or take the moment this
    /// returns.
    pub fn is_occupied(&self) -> bool {
        self.slot.is_occupied()
    }

    /// The text that diagnostics show for the cell: `CallbackCell(NULL)` when no
    /// action was pending, `CallbackCell(NOT NULL)` when one was. Never
    /// authoritative, as for [`CallbackCell::is_occupied`].
    pub fn debug_text(&self) -> (r: String)
        ensures
            r@ == "CallbackCell(NULL)"@ || r@ == "CallbackCell(NOT NULL)"@,
    {
        Self::debug_text_for(self.is_occupied())
    }

    /// The diagnostic text for a cell seen with or without a pending action.
    pub fn debug_text_for(occupied: bool) -> (r: String)
        ensures
            r@ == (if occupied { "CallbackCell(NOT NULL)"@ } else { "CallbackCell(NULL)"@ }),
    {
        if occupied {
            "CallbackCell(NOT NULL)".to_owned()
        } else {
            "CallbackCell(NULL)".to_owned()
        }
    }
}

impl Default for CallbackCell {
    fn default() -> (c: CallbackCell) {
        CallbackCell::new()
    }
}

/// Round trip: `put(f)` and then `take_call()`, with no exchange between
/// them. The take receives the envelope that the put installed (`e`, built
/// from `f` by `Envelope::from_thunk`), runs `f`, and reports that it ran.
pub proof fn lemma_round_trip_thunk<F: FnOnce()>(f: F, e: Envelope<(), ()>, ran: bool)
    requires
        e.yields((), ()) <==> call_ensures(f, (), ()),
        ran == received(seq![Some(e), None], 1) is Some,
        settles(received(seq![Some(e), None], 1), (), if ran { Ok(()) } else { Err(()) }),
    ensures
        ran,
        call_ensures(f, (), ()),
{
}

} // verus!
