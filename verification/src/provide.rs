use vstd::prelude::*;

verus! {

/// The atomic extraction capability.
///
/// A provider implements `Provide<T, E>` for every type `T` it knows how to
/// supply; asking it for a `T` yields `Ok(value)` on success and `Err(e)` on
/// failure, where `E` is the provider-defined error type shared by every
/// field extracted for one invocation.
///
/// Each implementation describes its own behaviour with the spec function
/// `provide_spec`; the executable method `provide` is bound to return exactly
/// that result, so everything composed on top of a provider can be reasoned
/// about in terms of `provide_spec` alone.
pub trait Provide<T, E>: Sized {
    /// What this provider yields when asked for a `T`.
    spec fn provide_spec(&self) -> Result<T, E>;

    /// Extract a value of type `T` from this provider.
    fn provide(&self) -> (r: Result<T, E>)
        ensures
            r == self.provide_spec(),
    ;
}

/// The derived absorption combinator: a provider that can extract a `T` can
/// always extract an `Option<T>`, by mapping success to `Some(value)` and
/// absorbing any failure into `None`. Extracting an `Option<T>` never fails.
impl<P, T, E> Provide<Option<T>, E> for P where P: Provide<T, E> {
    open spec fn provide_spec(&self) -> Result<Option<T>, E> {
        match <P as Provide<T, E>>::provide_spec(self) {
            Ok(v) => Ok(Some(v)),
            Err(_) => Ok(None),
        }
    }

    fn provide(&self) -> (r: Result<Option<T>, E>) {
        match <P as Provide<T, E>>::provide(self) {
            Ok(v) => Ok(Some(v)),
            Err(_) => Ok(None),
        }
    }
}

/// Law: wrapping a provider's extraction for `T` with the optional
/// combinator never fails. When `T`-extraction succeeds with value `v`, the
/// optional extraction resolves to `Some(v)`; when `T`-extraction fails, it
/// resolves to `None`, the failure fully absorbed.
pub proof fn optional_absorbs_failure<P, T, E>(p: &P) where P: Provide<T, E>
    ensures
        <P as Provide<Option<T>, E>>::provide_spec(p) is Ok,
        <P as Provide<T, E>>::provide_spec(p) matches Ok(v) ==> <P as Provide<
            Option<T>,
            E,
        >>::provide_spec(p) == Ok::<Option<T>, E>(Some(v)),
        <P as Provide<T, E>>::provide_spec(p) is Err ==> <P as Provide<
            Option<T>,
            E,
        >>::provide_spec(p) == Ok::<Option<T>, E>(None::<T>),
{
}

} // verus!
