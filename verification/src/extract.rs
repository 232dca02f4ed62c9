use vstd::prelude::*;

use crate::provide::Provide;

verus! {

/// The composed extraction interface that consumers of a provider rely on.
///
/// `Extract<T, E>` holds for every type a provider can produce, directly or
/// by composition: the atomic types it implements [`Provide`] for, optional
/// versions of them, and argument tuples built from them. Consumers state
/// their bounds with `Extract`; providers only ever implement `Provide`.
pub trait Extract<T, E>: Sized {
    /// What this provider yields when asked for a `T`.
    spec fn extract_spec(&self) -> Result<T, E>;

    /// Extract a value of type `T` from this provider.
    fn extract(&self) -> (r: Result<T, E>)
        ensures
            r == self.extract_spec(),
    ;
}

impl<P, T, E> Extract<T, E> for P where P: Provide<T, E> {
    open spec fn extract_spec(&self) -> Result<T, E> {
        <P as Provide<T, E>>::provide_spec(self)
    }

    fn extract(&self) -> (r: Result<T, E>) {
        <P as Provide<T, E>>::provide(self)
    }
}

} // verus!
