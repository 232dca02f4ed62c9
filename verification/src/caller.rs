use vstd::prelude::*;

verus! {

/// The invocation capability: calling a function-like value with an argument
/// tuple.
///
/// `Args` is the tuple of the callable's declared parameter types; invoking a
/// callable of N parameters means destructuring a value of the matching
/// N-tuple type into positional arguments. The capability is implemented for
/// plain functions and closures of 1 up to 26 parameters.
///
/// `P` and `E` tie an implementation to the provider and error type the
/// argument tuple is extracted with; they carry no state of their own.
///
/// The spec functions `req` and `ens` describe the callable itself: `req`
/// says when it may be invoked with a given argument tuple, and `ens` relates
/// an argument tuple to the outputs the invocation may produce. The
/// executable method `call` passes the callable's own result through
/// verbatim: whatever the callable's contract allows for `args` is exactly
/// what `call` may return.
pub trait Caller<Args, P, E>: Sized {
    /// What the callable returns.
    type Output;

    /// When the callable may be invoked with `args`.
    spec fn req(&self, args: Args) -> bool;

    /// Which outputs an invocation with `args` may produce.
    spec fn ens(&self, args: Args, output: Self::Output) -> bool;

    /// Invoke the callable with the given argument tuple.
    fn call(&self, args: Args) -> (output: Self::Output)
        requires
            self.req(args),
        ensures
            self.ens(args, output),
    ;
}

} // verus!
