use vstd::prelude::*;

verus! {

/// Attaches `H`-typed handles to `V`-typed values.
///
/// Handles are guards whose lifetime tracks a value past the call that
/// produced it (a streamed body, say). The output type may differ from `V`
/// where attaching the handle changes the value's shape.
pub trait Instrument<H, V>: Clone {
    /// The instrumented value type.
    type Output;

    /// What attaching `handle` to `value` yields.
    spec fn attached(&self, handle: H, value: V, out: Self::Output) -> bool;

    /// Attaches `handle` to `value`.
    fn instrument(&self, handle: H, value: V) -> (r: Self::Output)
        ensures
            self.attached(handle, value, r),
    ;
}

/// An instrument that drops each handle at once and passes the value on.
#[derive(Clone, Copy, Debug)]
pub struct NoInstrument;

impl<H, V> Instrument<H, V> for NoInstrument {
    type Output = V;

    open spec fn attached(&self, handle: H, value: V, out: V) -> bool {
        out == value
    }

    fn instrument(&self, handle: H, value: V) -> (r: V) {
        value
    }
}

/// Attaches an instrument to the successful result of a future.
#[derive(Debug)]
pub struct InstrumentFuture<F, I, H> {
    /// The wrapped future; polling it is the caller's.
    pub future: F,
    handle: Option<H>,
    instrument: I,
}

impl<F, I, H> InstrumentFuture<F, I, H> {
    pub closed spec fn future_spec(&self) -> F {
        self.future
    }

    pub closed spec fn handle_spec(&self) -> Option<H> {
        self.handle
    }

    pub closed spec fn instrument_spec(&self) -> I {
        self.instrument
    }

    /// Wraps a future, instrumenting its value if successful.
    pub fn new(instrument: I, handle: H, future: F) -> (r: Self)
        ensures
            r.future_spec() == future,
            r.handle_spec() == Some(handle),
            r.instrument_spec() == instrument,
    {
        InstrumentFuture { future, instrument, handle: Some(handle) }
    }

    /// Whether the handle is still waiting for a value.
    pub fn is_armed(&self) -> (r: bool)
        ensures
            r == self.handle_spec() is Some,
    {
        self.handle.is_some()
    }

    /// Completes with the wrapped future's result: a value gets the handle
    /// attached, an error passes through and the handle stays.
    pub fn complete<T, E>(&mut self, result: Result<T, E>) -> (r: Result<I::Output, E>) where
        I: Instrument<H, T>,
        requires
            result is Ok ==> old(self).handle_spec() is Some,
        ensures
            final(self).future_spec() == old(self).future_spec(),
            final(self).instrument_spec() == old(self).instrument_spec(),
            result is Ok <==> r is Ok,
            result matches Err(e) ==> r == Err::<I::Output, E>(e) && final(self).handle_spec()
                == old(self).handle_spec(),
            result matches Ok(v) ==> {
                &&& final(self).handle_spec() is None
                &&& r matches Ok(out) && old(self).instrument_spec().attached(
                    old(self).handle_spec()->Some_0,
                    v,
                    out,
                )
            },
    {
        match result {
            Err(e) => Err(e),
            Ok(v) => {
                let h = self.handle.take().unwrap();
                Ok(self.instrument.instrument(h, v))
            },
        }
    }
}

} // verus!
