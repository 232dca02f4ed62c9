//! A library for using a provider to extract values as arguments to a function.
//!
//! A provider is any value that can answer "give me a `T`" requests for one or
//! more types `T`, each request either succeeding with a value or failing with
//! a provider-defined error. A callable taking several arguments can then be
//! invoked with nothing but a provider: each argument is extracted from the
//! provider in declared parameter order, stopping at the first failure, and
//! the callable runs only once every argument has been produced.

use vstd::prelude::*;

mod caller;
mod extract;
mod provide;
mod tuple;

pub use caller::Caller;
pub use extract::Extract;
pub use provide::Provide;

verus! {

/// Use a provider to call a function.
///
/// The function's argument tuple is extracted from the provider first, field
/// by field in declared parameter order, stopping at the first failure; only
/// if every field succeeds is the function invoked with the assembled tuple.
///
/// The result is exactly one of two things: the provider's own error, when
/// extraction of any field fails — the function is then never invoked — or
/// `Ok(output)` where `output` is what the function itself returned. No error
/// of this library's own is ever introduced.
pub fn call<P, F, Args, E>(provider: &P, func: F) -> (r: Result<F::Output, E>) where
    P: Extract<Args, E>,
    F: Caller<Args, P, E>,

    requires
        <P as Extract<Args, E>>::extract_spec(provider) matches Ok(args) ==> func.req(args),
    ensures
        <P as Extract<Args, E>>::extract_spec(provider) matches Ok(args) ==> r matches Ok(out)
            && func.ens(args, out),
        <P as Extract<Args, E>>::extract_spec(provider) matches Err(e) ==> r == Err::<
            F::Output,
            E,
        >(e),
{
    match provider.extract() {
        Ok(args) => Ok(func.call(args)),
        Err(e) => Err(e),
    }
}

} // verus!
