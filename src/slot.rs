use std::sync::{Mutex, MutexGuard};
use vstd::prelude::*;

verus! {

/// std's mutex, carried through opaque: what it holds is read and written
/// only inside [`Slot::exchange`] and [`Slot::is_occupied`].
#[verifier::external_type_specification]
#[verifier::external_body]
#[verifier::reject_recursive_types(T)]
pub struct ExMutex<T: ?Sized>(Mutex<T>);

/// The guard that std's mutex hands out; the lock is released when it drops.
#[verifier::external_type_specification]
#[verifier::external_body]
#[verifier::reject_recursive_types(T)]
pub struct ExMutexGuard<'a, T: ?Sized + 'a>(MutexGuard<'a, T>);

/// Relies on std's `Mutex::new`: builds an unlocked mutex around `t`.
pub assume_specification<T>[ Mutex::<T>::new ](t: T) -> Mutex<T>;

/// Relies on std's `DerefMut` for `MutexGuard`: a mutable reference to the
/// value that the locked mutex guards, valid while the guard lives.
pub assume_specification<'a, 'b, T: ?Sized>[ <MutexGuard<'a, T> as core::ops::DerefMut>::deref_mut ](
    guard: &'b mut MutexGuard<'a, T>,
) -> &'b mut T;

/// Relies on std's `Mutex::lock`: waits until this thread holds the lock.
/// A poisoned lock is taken over as it is, since no code that could panic
/// ever runs while a slot's lock is held.
#[verifier::external_body]
fn lock<T>(m: &Mutex<T>) -> MutexGuard<'_, T> {
    m.lock().unwrap_or_else(std::sync::PoisonError::into_inner)
}

/// A single place, shared between threads, that holds one value or nothing.
///
/// Every change of the contents goes through [`Slot::exchange`], which puts a
/// new value in and hands the previous one out in one indivisible step. A
/// value placed in the slot is therefore handed out to exactly one caller of
/// `exchange`, or dropped with the slot, never both and never neither.
///
/// The lock inside `exchange` is held for the swap alone: no code of the
/// caller's ever runs while it is held, so no caller waits on another's work.
#[verifier::reject_recursive_types(T)]
pub struct Slot<T> {
    cell: Mutex<Option<T>>,
}

impl<T> Slot<T> {
    /// An empty slot.
    pub fn new() -> (s: Slot<T>) {
        Slot { cell: Mutex::new(None) }
    }

    /// Puts `v` into the slot and returns what the slot held just before.
    ///
    /// Other threads may exchange at any time, so nothing ties the result to
    /// an earlier call of this thread's: it is what the exchange that came
    /// last before this one put in, or nothing when there was none.
    pub fn exchange(&self, v: Option<T>) -> (previous: Option<T>) {
        let mut v = v;
        {
            let mut guard = lock(&self.cell);
            core::mem::swap(&mut *guard, &mut v);
        }
        v
    }

    /// Whether the slot held a value at some moment during the call.
    ///
    /// A diagnostic only: another thread may change the contents the moment
    /// this returns, and the value itself is never exposed.
    pub fn is_occupied(&self) -> bool {
        let mut guard = lock(&self.cell);
        let contents: &mut Option<T> = &mut *guard;
        contents.is_some()
    }
}

/// What the exchange at position `k` (from 0) hands out, in a run where the
/// exchanges on one slot, ordered as its lock admitted them, put in `installs`
/// in turn. The slot starts empty, so the first one receives nothing; every
/// later one receives what the one just before it put in.
pub open spec fn received<T>(installs: Seq<Option<T>>, k: int) -> Option<T> {
    if k == 0 {
        None
    } else {
        installs[k - 1]
    }
}

/// How many of the first `n` exchanges of such a run receive a value.
pub open spec fn count_received<T>(installs: Seq<Option<T>>, n: nat) -> nat
    decreases n,
{
    if n == 0 {
        0
    } else {
        count_received(installs, (n - 1) as nat) + if received(installs, n - 1) is Some {
            1nat
        } else {
            0nat
        }
    }
}

/// How many of the first `n` exchanges of such a run put a value in.
pub open spec fn count_installed<T>(installs: Seq<Option<T>>, n: nat) -> nat
    decreases n,
{
    if n == 0 {
        0
    } else {
        count_installed(installs, (n - 1) as nat) + if installs[n - 1] is Some {
            1nat
        } else {
            0nat
        }
    }
}

/// Nothing is lost and nothing is handed out twice: when the last exchange of
/// a run empties the slot (a take, or the slot's drop), the exchanges of the
/// run receive exactly as many values as they put in, and the value put in
/// at position `j` is the one received at position `j + 1`.
pub proof fn lemma_each_value_received_once<T>(installs: Seq<Option<T>>)
    requires
        installs.len() > 0,
        installs.last() is None,
    ensures
        count_received(installs, installs.len()) == count_installed(installs, installs.len()),
        forall|j: int| 0 <= j < installs.len() - 1 ==> #[trigger] received(installs, j + 1) == installs[j],
{
    lemma_received_lags(installs, installs.len());
}

proof fn lemma_received_lags<T>(installs: Seq<Option<T>>, n: nat)
    requires
        0 < n <= installs.len(),
    ensures
        count_received(installs, n) + (if installs[n - 1] is Some { 1nat } else { 0nat })
            == count_installed(installs, n),
    decreases n,
{
    if n > 1 {
        lemma_received_lags(installs, (n - 1) as nat);
    }
    assert(count_installed(installs, n) == count_installed(installs, (n - 1) as nat) + if installs[n - 1] is Some { 1nat } else { 0nat });
    assert(count_received(installs, 0) == 0 && count_installed(installs, 0) == 0);
}

/// One value pending and several exchanges that put nothing in: exactly one
/// of them, the first, receives the value, and every other receives nothing.
pub proof fn lemma_single_claim<T>(v: T, takers: nat)
    requires
        takers > 1,
    ensures
        ({
            let installs = seq![Some(v)] + Seq::new(takers, |i: int| None::<T>);
            &&& received(installs, 1) == Some(v)
            &&& forall|k: int| 2 <= k <= takers ==> received(installs, k) is None
            &&& count_received(installs, takers + 1) == 1
        }),
{
    let installs = seq![Some(v)] + Seq::new(takers, |i: int| None::<T>);
    assert(installs[0] == Some(v));
    assert forall|k: int| 2 <= k <= takers implies received(installs, k) is None by {
        assert(installs[k - 1] == Seq::new(takers, |i: int| None::<T>)[k - 2]);
    }
    lemma_count_tail(installs, takers + 1);
}

proof fn lemma_count_tail<T>(installs: Seq<Option<T>>, n: nat)
    requires
        1 <= n <= installs.len(),
        installs[0] is Some,
        forall|k: int| 2 <= k < installs.len() + 1 ==> received(installs, k) is None,
    ensures
        count_received(installs, n) == if n >= 2 { 1nat } else { 0nat },
    decreases n,
{
    if n > 1 {
        lemma_count_tail(installs, (n - 1) as nat);
    }
    assert(count_received(installs, 0) == 0);
    assert(received(installs, n - 1) is Some <==> n == 2);
}

} // verus!
