use vstd::prelude::*;

verus! {

/// A one-shot action with its concrete type erased.
///
/// Each concrete action type implements this once, so that the code behind a
/// `Box<dyn Deferred<I, O>>` alone knows how to run the action it holds.
/// Dropping the box instead disposes of the action without running it.
trait Deferred<I, O>: Send {
    /// The action accepts `input`.
    spec fn ready(&self, input: I) -> bool;

    /// Running the action on `input` may give `output`.
    spec fn yields(&self, input: I, output: O) -> bool;

    fn fire(self: Box<Self>, input: I) -> (output: O)
        requires
            self.ready(input),
        ensures
            self.yields(input, output),
    ;
}

/// An action that takes one input and gives one output.
struct Call<F> {
    f: F,
}

impl<I, O, F: FnOnce(I) -> O + Send> Deferred<I, O> for Call<F> {
    spec fn ready(&self, input: I) -> bool {
        call_requires(self.f, (input,))
    }

    spec fn yields(&self, input: I, output: O) -> bool {
        call_ensures(self.f, (input,), output)
    }

    fn fire(self: Box<Self>, input: I) -> (output: O) {
        let Call { f } = *self;
        f(input)
    }
}

/// An action that takes nothing and gives nothing.
struct Thunk<F> {
    f: F,
}

impl<F: FnOnce() + Send> Deferred<(), ()> for Thunk<F> {
    spec fn ready(&self, input: ()) -> bool {
        call_requires(self.f, ())
    }

    spec fn yields(&self, input: (), output: ()) -> bool {
        call_ensures(self.f, (), output)
    }

    fn fire(self: Box<Self>, input: ()) -> (output: ()) {
        let Thunk { f } = *self;
        f()
    }
}

/// A pending action on the heap, ready to be run once or disposed of.
///
/// An envelope is consumed either by [`Envelope::run`], which runs the action,
/// or by being dropped, which disposes of the action without running it. Both
/// take the envelope by value, so neither can happen twice, and the action's
/// memory is freed on either path.
#[verifier::reject_recursive_types(I)]
#[verifier::reject_recursive_types(O)]
pub struct Envelope<I, O> {
    action: Box<dyn Deferred<I, O>>,
}

impl<I, O> Envelope<I, O> {
    /// The held action accepts every input.
    #[verifier::type_invariant]
    closed spec fn wf(&self) -> bool {
        forall|i: I| #[trigger] self.action.ready(i)
    }

    /// Running this envelope on `input` may give `output`.
    pub closed spec fn yields(&self, input: I, output: O) -> bool {
        self.action.yields(input, output)
    }

    /// Wraps `f`; running the envelope later gives what `f` gives.
    pub fn new<F: FnOnce(I) -> O + Send + 'static>(f: F) -> (e: Envelope<I, O>)
        requires
            forall|i: I| call_requires(f, (i,)),
        ensures
            forall|i: I, o: O| e.yields(i, o) <==> call_ensures(f, (i,), o),
    {
        Envelope { action: Box::new(Call { f }) }
    }

    /// Runs the action on `input` and frees the envelope.
    pub fn run(self, input: I) -> (output: O)
        ensures
            self.yields(input, output),
    {
        proof {
            use_type_invariant(&self);
        }
        self.action.fire(input)
    }
}

impl Envelope<(), ()> {
    /// Wraps an action that takes no input; running the envelope runs `f`.
    pub fn from_thunk<F: FnOnce() + Send + 'static>(f: F) -> (e: Envelope<(), ()>)
        requires
            call_requires(f, ()),
        ensures
            e.yields((), ()) <==> call_ensures(f, (), ()),
    {
        Envelope { action: Box::new(Thunk { f }) }
    }
}

/// What settling `claimed` with `input` gives: the input handed back when
/// nothing was claimed, and otherwise an output of the claimed action on it.
pub open spec fn settles<I, O>(claimed: Option<Envelope<I, O>>, input: I, r: Result<O, I>) -> bool {
    match claimed {
        None => r == Err::<O, I>(input),
        Some(e) => r is Ok && e.yields(input, r->Ok_0),
    }
}

/// Runs the claimed envelope, if there is one, on `input`.
///
/// With an envelope, its action consumes `input` and its output comes back
/// as `Ok`; without one, `input` comes back untouched as `Err`.
pub fn settle<I, O>(claimed: Option<Envelope<I, O>>, input: I) -> (r: Result<O, I>)
    ensures
        settles(claimed, input, r),
{
    match claimed {
        Some(e) => Ok(e.run(input)),
        None => Err(input),
    }
}

/// Runs the claimed envelope, if there is one; reports whether there was.
pub fn settle_thunk(claimed: Option<Envelope<(), ()>>) -> (ran: bool)
    ensures
        ran == claimed is Some,
        settles(claimed, (), if ran { Ok(()) } else { Err(()) }),
{
    match claimed {
        Some(e) => {
            e.run(());
            true
        },
        None => false,
    }
}

} // verus!
