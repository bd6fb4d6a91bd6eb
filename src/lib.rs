//! Error values that carry the trail of call sites they passed through.
//!
//! A [`Traced`] couples an error with a [`Trace`] of [`Frame`]s. Wrapping a
//! bare error starts a trace of one frame; wrapping a traced error appends the
//! frame to the trace it carries. Callers use one operation,
//! [`WrapTraced::wrap_traced`], for both.

mod seal;
mod trace;

use vstd::prelude::*;

pub use self::trace::{decimal, digit_char, frame_text, trace_header, trace_text, Frame, Trace};

verus! {

/// Capacity reserved for the frames of a newly started trace.
///
/// It only spares reallocations; no result depends on it.
pub const DEFAULT_FRAMES_CAPACITY: usize = 10;

/// An error together with the trace of the call sites it passed through.
#[derive(Clone, Debug)]
pub struct Traced<E> {
    /// Captured trace.
    trace: Trace,
    /// Wrapped error.
    err: E,
}

impl<E> Traced<E> {
    /// The wrapped error.
    pub closed spec fn error(&self) -> E {
        self.err
    }

    /// The frames of the carried trace, earliest first.
    pub closed spec fn frames(&self) -> Seq<Frame> {
        self.trace@
    }

    /// Borrows the carried trace.
    pub fn trace(&self) -> (r: &Trace)
        ensures
            r@ == self.frames(),
    {
        &self.trace
    }

    /// Gives back the wrapped error and drops the trace.
    pub fn into_inner(self) -> (r: E)
        ensures
            r == self.error(),
    {
        self.err
    }

    /// Parts this wrapper into the wrapped error and the trace.
    pub fn split(self) -> (r: (E, Trace))
        ensures
            r.0 == self.error(),
            r.1@ == self.frames(),
    {
        (self.err, self.trace)
    }

    /// Puts an error and a trace together, the trace taken as it is.
    pub fn compose(error: E, trace: Trace) -> (r: Traced<E>)
        ensures
            r.error() == error,
            r.frames() == trace@,
    {
        Traced { err: error, trace }
    }
}

/// Wrapping of an error into a [`Traced`] with one more frame.
///
/// It is implemented for every bare value, which starts a trace, and for
/// [`Traced`] itself, which grows the trace it carries; no other crate can
/// implement it.
pub trait WrapTraced<E>: Sized + seal::Sealed<E> {
    /// The error that the wrapper will hold.
    spec fn error_to_wrap(&self) -> E;

    /// The frames that the value carries already.
    spec fn frames_carried(&self) -> Seq<Frame>;

    /// Wraps this value into a [`Traced`], with `f` as the latest frame.
    fn wrap_traced(self, f: Frame) -> (r: Traced<E>)
        ensures
            r.error() == self.error_to_wrap(),
            r.frames() == self.frames_carried().push(f),
    ;

    /// Wraps this value as [`WrapTraced::wrap_traced`] does; a trace started
    /// here reserves room for `capacity` frames.
    fn wrap_traced_with_capacity(self, f: Frame, capacity: usize) -> (r: Traced<E>)
        ensures
            r.error() == self.error_to_wrap(),
            r.frames() == self.frames_carried().push(f),
    ;
}

impl<E> WrapTraced<E> for E {
    open spec fn error_to_wrap(&self) -> E {
        *self
    }

    open spec fn frames_carried(&self) -> Seq<Frame> {
        Seq::empty()
    }

    /// Starts a trace that holds `f` alone.
    fn wrap_traced(self, f: Frame) -> (r: Traced<E>) {
        self.wrap_traced_with_capacity(f, DEFAULT_FRAMES_CAPACITY)
    }

    /// Starts a trace that holds `f` alone, with room for `capacity` frames.
    fn wrap_traced_with_capacity(self, f: Frame, capacity: usize) -> (r: Traced<E>) {
        let mut trace = Trace::new(Vec::with_capacity(capacity));
        trace.push(f);
        Traced { err: self, trace }
    }
}

impl<E> WrapTraced<E> for Traced<E> {
    open spec fn error_to_wrap(&self) -> E {
        self.error()
    }

    open spec fn frames_carried(&self) -> Seq<Frame> {
        self.frames()
    }

    /// Appends `f` to the carried trace and keeps the error.
    fn wrap_traced(self, f: Frame) -> (r: Traced<E>) {
        let mut this = self;
        this.trace.push(f);
        this
    }

    /// Appends `f` to the carried trace; the trace exists already, so
    /// `capacity` is not used.
    fn wrap_traced_with_capacity(self, f: Frame, capacity: usize) -> (r: Traced<E>) {
        self.wrap_traced(f)
    }
}

impl<E> AsRef<E> for Traced<E> {
    /// Borrows the wrapped error.
    fn as_ref(&self) -> (r: &E)
        ensures
            *r == self.error(),
    {
        &self.err
    }
}

impl<E> AsMut<E> for Traced<E> {
    /// Borrows the wrapped error for changing in place; the trace stays.
    fn as_mut(&mut self) -> (r: &mut E)
        ensures
            *r == old(self).error(),
            final(self).error() == *final(r),
            final(self).frames() == old(self).frames(),
    {
        &mut self.err
    }
}

/// Converts the wrapped error with its [`From`] conversion and keeps the
/// trace as it is, adding no frame.
pub fn map_from<F, T: From<F>>(e: Traced<F>) -> (r: Traced<T>)
    ensures
        call_ensures(T::from, (e.error(),), r.error()),
        r.frames() == e.frames(),
{
    Traced { err: T::from(e.err), trace: e.trace }
}

/// Wrapping a bare value with one frame gives a trace that holds that frame
/// alone, around the value itself.
pub proof fn lemma_wrap_bare_starts_trace<E>(e: E, f: Frame)
    ensures
        <E as WrapTraced<E>>::error_to_wrap(&e) == e,
        <E as WrapTraced<E>>::frames_carried(&e).push(f) == seq![f],
{
    assert(Seq::<Frame>::empty().push(f) =~= seq![f]);
}

/// Whether `steps` is what wrapping `t` with each of `fs` in turn returns:
/// `steps[i]` comes of wrapping `steps[i - 1]` (for the first, `t`) with `fs[i]`.
pub open spec fn wrap_chain<E>(t: Traced<E>, fs: Seq<Frame>, steps: Seq<Traced<E>>) -> bool {
    &&& steps.len() == fs.len()
    &&& forall|i: int|
        0 <= i < fs.len() ==> call_ensures(
            <Traced<E> as WrapTraced<E>>::wrap_traced,
            (if i == 0 {
                t
            } else {
                steps[i - 1]
            }, fs[i]),
            #[trigger] steps[i],
        )
}

/// Wrapping a traced value again and again grows its trace by one frame per
/// wrap: after `n` wraps it holds its old frames followed by the `n` new
/// ones, in the order of the wraps, around the same error.
pub proof fn lemma_wraps_append<E>(t: Traced<E>, fs: Seq<Frame>, steps: Seq<Traced<E>>, n: int)
    requires
        wrap_chain(t, fs, steps),
        1 <= n <= fs.len(),
    ensures
        steps[n - 1].frames() == t.frames() + fs.subrange(0, n),
        steps[n - 1].frames().len() == t.frames().len() + n,
        steps[n - 1].error() == t.error(),
    decreases n,
{
    if n > 1 {
        lemma_wraps_append(t, fs, steps, n - 1);
        assert(call_ensures(
            <Traced<E> as WrapTraced<E>>::wrap_traced,
            (steps[n - 2], fs[n - 1]),
            steps[n - 1],
        ));
        assert((t.frames() + fs.subrange(0, n - 1)).push(fs[n - 1]) =~= t.frames()
            + fs.subrange(0, n));
    } else {
        assert(call_ensures(<Traced<E> as WrapTraced<E>>::wrap_traced, (t, fs[0]), steps[0]));
        assert(t.frames().push(fs[0]) =~= t.frames() + fs.subrange(0, 1));
    }
}

/// Wrapping gives the same result whether the value got its first frame from
/// a wrap just before, or came already traced with that frame: `once` is what
/// wrapping the bare `e` with `f1` returns, `known` any wrapper of `e` whose
/// trace holds `f1` alone.
pub proof fn lemma_shape_dispatch<E>(e: E, f1: Frame, f2: Frame, once: Traced<E>, known: Traced<E>)
    requires
        once.error() == <E as WrapTraced<E>>::error_to_wrap(&e),
        once.frames() == <E as WrapTraced<E>>::frames_carried(&e).push(f1),
        known.error() == e,
        known.frames() == seq![f1],
    ensures
        <Traced<E> as WrapTraced<E>>::error_to_wrap(&once) == <Traced<E> as WrapTraced<
            E,
        >>::error_to_wrap(&known),
        <Traced<E> as WrapTraced<E>>::frames_carried(&once).push(f2) == <Traced<
            E,
        > as WrapTraced<E>>::frames_carried(&known).push(f2),
        <Traced<E> as WrapTraced<E>>::frames_carried(&known).push(f2) == seq![f1, f2],
{
    lemma_wrap_bare_starts_trace(e, f1);
    assert(seq![f1].push(f2) =~= seq![f1, f2]);
}

/// Splitting a wrapper and composing its parts gives back the same error and
/// the same frames: `parts` is what [`Traced::split`] returns on `t`, `back`
/// what [`Traced::compose`] returns on `parts`.
pub proof fn lemma_split_compose<E>(t: Traced<E>, parts: (E, Trace), back: Traced<E>)
    requires
        parts.0 == t.error(),
        parts.1@ == t.frames(),
        back.error() == parts.0,
        back.frames() == parts.1@,
    ensures
        back.error() == t.error(),
        back.frames() == t.frames(),
{
}


impl<E> From<(E, Frame)> for Traced<E> {
    /// Wraps a bare error with its first frame.
    fn from(pair: (E, Frame)) -> (r: Traced<E>)
        ensures
            r.error() == pair.0,
            r.frames() == seq![pair.1],
    {
        let (err, f) = pair;
        <E as WrapTraced<E>>::wrap_traced(err, f)
    }
}

impl<E> From<(E, Trace)> for Traced<E> {
    /// Puts an error and a trace together, as [`Traced::compose`] does.
    fn from(pair: (E, Trace)) -> (r: Traced<E>)
        ensures
            r.error() == pair.0,
            r.frames() == pair.1@,
    {
        let (err, trace) = pair;
        Traced::compose(err, trace)
    }
}

impl<E> vstd::std_specs::convert::FromSpecImpl<(E, Frame)> for Traced<E> {
    open spec fn obeys_from_spec() -> bool {
        false
    }

    open spec fn from_spec(v: (E, Frame)) -> Traced<E> {
        vstd::pervasive::arbitrary()
    }
}

impl<E> vstd::std_specs::convert::FromSpecImpl<(E, Trace)> for Traced<E> {
    open spec fn obeys_from_spec() -> bool {
        false
    }

    open spec fn from_spec(v: (E, Trace)) -> Traced<E> {
        vstd::pervasive::arbitrary()
    }
}

} // verus!
