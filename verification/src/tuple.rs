use vstd::prelude::*;

use crate::caller::Caller;
use crate::provide::Provide;

verus! {

// Tuple composition, one pair of implementations per arity, 1 through 26.
//
// The `Provide` side lifts per-type extraction to heterogeneous tuples: each
// field is extracted in declared left-to-right order, and the first failure
// is returned at once, without attempting any later field; only when every
// field succeeds is the assembled tuple returned. That short-circuit order
// is stated exactly by each implementation's `provide_spec`.
//
// The `Caller` side adapts a plain multi-argument function or closure to a
// callable taking the matching tuple as one argument: the tuple is
// destructured into positional arguments and the callable's own contract is
// passed through verbatim.



impl<P, E, T1> Provide<(T1,), E> for P where P: Provide<T1, E> {
    open spec fn provide_spec(&self) -> Result<(T1,), E> {
        if <P as Provide<T1, E>>::provide_spec(self) is Err {
            Err(<P as Provide<T1, E>>::provide_spec(self)->Err_0)
        } else {
            Ok((<P as Provide<T1, E>>::provide_spec(self)->Ok_0,))
        }
    }

    fn provide(&self) -> (r: Result<(T1,), E>) {
        let x1 = match <P as Provide<T1, E>>::provide(self) {
            Ok(v) => v,
            Err(e) => {
                return Err(e);
            },
        };
        Ok((x1,))
    }
}

impl<Func, Out, P, E, T1> Caller<(T1,), P, E> for Func where
    Func: Fn(T1) -> Out,
    P: Provide<T1, E>,
 {
    type Output = Out;

    open spec fn req(&self, args: (T1,)) -> bool {
        call_requires(*self, args)
    }

    open spec fn ens(&self, args: (T1,), output: Out) -> bool {
        call_ensures(*self, args, output)
    }

    fn call(&self, args: (T1,)) -> (output: Out) {
        let (x1,) = args;
        (self)(x1)
    }
}

impl<P, E, T1, T2> Provide<(T1, T2), E> for P where P: Provide<T1, E> + Provide<T2, E> {
    open spec fn provide_spec(&self) -> Result<(T1, T2), E> {
        if <P as Provide<T1, E>>::provide_spec(self) is Err {
            Err(<P as Provide<T1, E>>::provide_spec(self)->Err_0)
        } else if <P as Provide<T2, E>>::provide_spec(self) is Err {
            Err(<P as Provide<T2, E>>::provide_spec(self)->Err_0)
        } else {
            Ok((<P as Provide<T1, E>>::provide_spec(self)->Ok_0, <P as Provide<T2, E>>::provide_spec(self)->Ok_0))
        }
    }

    fn provide(&self) -> (r: Result<(T1, T2), E>) {
        let x1 = match <P as Provide<T1, E>>::provide(self) {
            Ok(v) => v,
            Err(e) => {
                return Err(e);
            },
        };
        let x2 = match <P as Provide<T2, E>>::provide(self) {
            Ok(v) => v,
            Err(e) => {
                return Err(e);
            },
        };
        Ok((x1, x2))
    }
}

impl<Func, Out, P, E, T1, T2> Caller<(T1, T2), P, E> for Func where
    Func: Fn(T1, T2) -> Out,
    P: Provide<T1, E> + Provide<T2, E>,
 {
    type Output = Out;

    open spec fn req(&self, args: (T1, T2)) -> bool {
        call_requires(*self, args)
    }

    open spec fn ens(&self, args: (T1, T2), output: Out) -> bool {
        call_ensures(*self, args, output)
    }

    fn call(&self, args: (T1, T2)) -> (output: Out) {
        let (x1, x2) = args;
        (self)(x1, x2)
    }
}

impl<P, E, T1, T2, T3> Provide<(T1, T2, T3), E> for P where P: Provide<T1, E> + Provide<T2, E> + Provide<T3, E> {
    open spec fn provide_spec(&self) -> Result<(T1, T2, T3), E> {
        if <P as Provide<T1, E>>::provide_spec(self) is Err {
            Err(<P as Provide<T1, E>>::provide_spec(self)->Err_0)
        } else if <P as Provide<T2, E>>::provide_spec(self) is Err {
            Err(<P as Provide<T2, E>>::provide_spec(self)->Err_0)
        } else if <P as Provide<T3, E>>::provide_spec(self) is Err {
            Err(<P as Provide<T3, E>>::provide_spec(self)->Err_0)
        } else {
            Ok((<P as Provide<T1, E>>::provide_spec(self)->Ok_0, <P as Provide<T2, E>>::provide_spec(self)->Ok_0, <P as Provide<T3, E>>::provide_spec(self)->Ok_0))
        }
    }

    fn provide(&self) -> (r: Result<(T1, T2, T3), E>) {
        let x1 = match <P as Provide<T1, E>>::provide(self) {
            Ok(v) => v,
            Err(e) => {
                return Err(e);
            },
        };
        let x2 = match <P as Provide<T2, E>>::provide(self) {
            Ok(v) => v,
            Err(e) => {
                return Err(e);
            },
        };
        let x3 = match <P as Provide<T3, E>>::provide(self) {
            Ok(v) => v,
            Err(e) => {
                return Err(e);
            },
        };
        Ok((x1, x2, x3))
    }
}

impl<Func, Out, P, E, T1, T2, T3> Caller<(T1, T2, T3), P, E> for Func where
    Func: Fn(T1, T2, T3) -> Out,
    P: Provide<T1, E> + Provide<T2, E> + Provide<T3, E>,
 {
    type Output = Out;

    open spec fn req(&self, args: (T1, T2, T3)) -> bool {
        call_requires(*self, args)
    }

    open spec fn ens(&self, args: (T1, T2, T3), output: Out) -> bool {
        call_ensures(*self, args, output)
    }

    fn call(&self, args: (T1, T2, T3)) -> (output: Out) {
        let (x1, x2, x3) = args;
        (self)(x1, x2, x3)
    }
}

impl<P, E, T1, T2, T3, T4> Provide<(T1, T2, T3, T4), E> for P where P: Provide<T1, E> + Provide<T2, E> + Provide<T3, E> + Provide<T4, E> {
    open spec fn provide_spec(&self) -> Result<(T1, T2, T3, T4), E> {
        if <P as Provide<T1, E>>::provide_spec(self) is Err {
            Err(<P as Provide<T1, E>>::provide_spec(self)->Err_0)
        } else if <P as Provide<T2, E>>::provide_spec(self) is Err {
            Err(<P as Provide<T2, E>>::provide_spec(self)->Err_0)
        } else if <P as Provide<T3, E>>::provide_spec(self) is Err {
            Err(<P as Provide<T3, E>>::provide_spec(self)->Err_0)
        } else if <P as Provide<T4, E>>::provide_spec(self) is Err {
            Err(<P as Provide<T4, E>>::provide_spec(self)->Err_0)
        } else {
            Ok((<P as Provide<T1, E>>::provide_spec(self)->Ok_0, <P as Provide<T2, E>>::provide_spec(self)->Ok_0, <P as Provide<T3, E>>::provide_spec(self)->Ok_0, <P as Provide<T4, E>>::provide_spec(self)->Ok_0))
        }
    }

    fn provide(&self) -> (r: Result<(T1, T2, T3, T4), E>) {
        let x1 = match <P as Provide<T1, E>>::provide(self) {
            Ok(v) => v,
            Err(e) => {
                return Err(e);
            },
        };
        let x2 = match <P as Provide<T2, E>>::provide(self) {
            Ok(v) => v,
            Err(e) => {
                return Err(e);
            },
        };
        let x3 = match <P as Provide<T3, E>>::provide(self) {
            Ok(v) => v,
            Err(e) => {
                return Err(e);
            },
        };
        let x4 = match <P as Provide<T4, E>>::provide(self) {
            Ok(v) => v,
            Err(e) => {
                return Err(e);
            },
        };
        Ok((x1, x2, x3, x4))
    }
}

impl<Func, Out, P, E, T1, T2, T3, T4> Caller<(T1, T2, T3, T4), P, E> for Func where
    Func: Fn(T1, T2, T3, T4) -> Out,
    P: Provide<T1, E> + Provide<T2, E> + Provide<T3, E> + Provide<T4, E>,
 {
    type Output = Out;

    open spec fn req(&self, args: (T1, T2, T3, T4)) -> bool {
        call_requires(*self, args)
    }

    open spec fn ens(&self, args: (T1, T2, T3, T4), output: Out) -> bool {
        call_ensures(*self, args, output)
    }

    fn call(&self, args: (T1, T2, T3, T4)) -> (output: Out) {
        let (x1, x2, x3, x4) = args;
        (self)(x1, x2, x3, x4)
    }
}

impl<P, E, T1, T2, T3, T4, T5> Provide<(T1, T2, T3, T4, T5), E> for P where P: Provide<T1, E> + Provide<T2, E> + Provide<T3, E> + Provide<T4, E> + Provide<T5, E> {
    open spec fn provide_spec(&self) -> Result<(T1, T2, T3, T4, T5), E> {
        if <P as Provide<T1, E>>::provide_spec(self) is Err {
            Err(<P as Provide<T1, E>>::provide_spec(self)->Err_0)
        } else if <P as Provide<T2, E>>::provide_spec(self) is Err {
            Err(<P as Provide<T2, E>>::provide_spec(self)->Err_0)
        } else if <P as Provide<T3, E>>::provide_spec(self) is Err {
            Err(<P as Provide<T3, E>>::provide_spec(self)->Err_0)
        } else if <P as Provide<T4, E>>::provide_spec(self) is Err {
            Err(<P as Provide<T4, E>>::provide_spec(self)->Err_0)
        } else if <P as Provide<T5, E>>::provide_spec(self) is Err {
            Err(<P as Provide<T5, E>>::provide_spec(self)->Err_0)
        } else {
            Ok((<P as Provide<T1, E>>::provide_spec(self)->Ok_0, <P as Provide<T2, E>>::provide_spec(self)->Ok_0, <P as Provide<T3, E>>::provide_spec(self)->Ok_0, <P as Provide<T4, E>>::provide_spec(self)->Ok_0, <P as Provide<T5, E>>::provide_spec(self)->Ok_0))
        }
    }

    fn provide(&self) -> (r: Result<(T1, T2, T3, T4, T5), E>) {
        let x1 = match <P as Provide<T1, E>>::provide(self) {
            Ok(v) => v,
            Err(e) => {
                return Err(e);
            },
        };
        let x2 = match <P as Provide<T2, E>>::provide(self) {
            Ok(v) => v,
            Err(e) => {
                return Err(e);
            },
        };
        let x3 = match <P as Provide<T3, E>>::provide(self) {
            Ok(v) => v,
            Err(e) => {
                return Err(e);
            },
        };
        let x4 = match <P as Provide<T4, E>>::provide(self) {
            Ok(v) => v,
            Err(e) => {
                return Err(e);
            },
        };
        let x5 = match <P as Provide<T5, E>>::provide(self) {
            Ok(v) => v,
            Err(e) => {
                return Err(e);
            },
        };
        Ok((x1, x2, x3, x4, x5))
    }
}

impl<Func, Out, P, E, T1, T2, T3, T4, T5> Caller<(T1, T2, T3, T4, T5), P, E> for Func where
    Func: Fn(T1, T2, T3, T4, T5) -> Out,
    P: Provide<T1, E> + Provide<T2, E> + Provide<T3, E> + Provide<T4, E> + Provide<T5, E>,
 {
    type Output = Out;

    open spec fn req(&self, args: (T1, T2, T3, T4, T5)) -> bool {
        call_requires(*self, args)
    }

    open spec fn ens(&self, args: (T1, T2, T3, T4, T5), output: Out) -> bool {
        call_ensures(*self, args, output)
    }

    fn call(&self, args: (T1, T2, T3, T4, T5)) -> (output: Out) {
        let (x1, x2, x3, x4, x5) = args;
        (self)(x1, x2, x3, x4, x5)
    }
}

impl<P, E, T1, T2, T3, T4, T5, T6> Provide<(T1, T2, T3, T4, T5, T6), E> for P where P: Provide<T1, E> + Provide<T2, E> + Provide<T3, E> + Provide<T4, E> + Provide<T5, E> + Provide<T6, E> {
    open spec fn provide_spec(&self) -> Result<(T1, T2, T3, T4, T5, T6), E> {
        if <P as Provide<T1, E>>::provide_spec(self) is Err {
            Err(<P as Provide<T1, E>>::provide_spec(self)->Err_0)
        } else if <P as Provide<T2, E>>::provide_spec(self) is Err {
            Err(<P as Provide<T2, E>>::provide_spec(self)->Err_0)
        } else if <P as Provide<T3, E>>::provide_spec(self) is Err {
            Err(<P as Provide<T3, E>>::provide_spec(self)->Err_0)
        } else if <P as Provide<T4, E>>::provide_spec(self) is Err {
            Err(<P as Provide<T4, E>>::provide_spec(self)->Err_0)
        } else if <P as Provide<T5, E>>::provide_spec(self) is Err {
            Err(<P as Provide<T5, E>>::provide_spec(self)->Err_0)
        } else if <P as Provide<T6, E>>::provide_spec(self) is Err {
            Err(<P as Provide<T6, E>>::provide_spec(self)->Err_0)
        } else {
            Ok((<P as Provide<T1, E>>::provide_spec(self)->Ok_0, <P as Provide<T2, E>>::provide_spec(self)->Ok_0, <P as Provide<T3, E>>::provide_spec(self)->Ok_0, <P as Provide<T4, E>>::provide_spec(self)->Ok_0, <P as Provide<T5, E>>::provide_spec(self)->Ok_0, <P as Provide<T6, E>>::provide_spec(self)->Ok_0))
        }
    }

    fn provide(&self) -> (r: Result<(T1, T2, T3, T4, T5, T6), E>) {
        let x1 = match <P as Provide<T1, E>>::provide(self) {
            Ok(v) => v,
            Err(e) => {
                return Err(e);
            },
        };
        let x2 = match <P as Provide<T2, E>>::provide(self) {
            Ok(v) => v,
            Err(e) => {
                return Err(e);
            },
        };
        let x3 = match <P as Provide<T3, E>>::provide(self) {
            Ok(v) => v,
            Err(e) => {
                return Err(e);
            },
        };
        let x4 = match <P as Provide<T4, E>>::provide(self) {
            Ok(v) => v,
            Err(e) => {
                return Err(e);
            },
        };
        let x5 = match <P as Provide<T5, E>>::provide(self) {
            Ok(v) => v,
            Err(e) => {
                return Err(e);
            },
        };
        let x6 = match <P as Provide<T6, E>>::provide(self) {
            Ok(v) => v,
            Err(e) => {
                return Err(e);
            },
        };
        Ok((x1, x2, x3, x4, x5, x6))
    }
}

impl<Func, Out, P, E, T1, T2, T3, T4, T5, T6> Caller<(T1, T2, T3, T4, T5, T6), P, E> for Func where
    Func: Fn(T1, T2, T3, T4, T5, T6) -> Out,
    P: Provide<T1, E> + Provide<T2, E> + Provide<T3, E> + Provide<T4, E> + Provide<T5, E> + Provide<T6, E>,
 {
    type Output = Out;

    open spec fn req(&self, args: (T1, T2, T3, T4, T5, T6)) -> bool {
        call_requires(*self, args)
    }

    open spec fn ens(&self, args: (T1, T2, T3, T4, T5, T6), output: Out) -> bool {
        call_ensures(*self, args, output)
    }

    fn call(&self, args: (T1, T2, T3, T4, T5, T6)) -> (output: Out) {
        let (x1, x2, x3, x4, x5, x6) = args;
        (self)(x1, x2, x3, x4, x5, x6)
    }
}

impl<P, E, T1, T2, T3, T4, T5, T6, T7> Provide<(T1, T2, T3, T4, T5, T6, T7), E> for P where P: Provide<T1, E> + Provide<T2, E> + Provide<T3, E> + Provide<T4, E> + Provide<T5, E> + Provide<T6, E> + Provide<T7, E> {
    open spec fn provide_spec(&self) -> Result<(T1, T2, T3, T4, T5, T6, T7), E> {
        if <P as Provide<T1, E>>::provide_spec(self) is Err {
            Err(<P as Provide<T1, E>>::provide_spec(self)->Err_0)
        } else if <P as Provide<T2, E>>::provide_spec(self) is Err {
            Err(<P as Provide<T2, E>>::provide_spec(self)->Err_0)
        } else if <P as Provide<T3, E>>::provide_spec(self) is Err {
            Err(<P as Provide<T3, E>>::provide_spec(self)->Err_0)
        } else if <P as Provide<T4, E>>::provide_spec(self) is Err {
            Err(<P as Provide<T4, E>>::provide_spec(self)->Err_0)
        } else if <P as Provide<T5, E>>::provide_spec(self) is Err {
            Err(<P as Provide<T5, E>>::provide_spec(self)->Err_0)
        } else if <P as Provide<T6, E>>::provide_spec(self) is Err {
            Err(<P as Provide<T6, E>>::provide_spec(self)->Err_0)
        } else if <P as Provide<T7, E>>::provide_spec(self) is Err {
            Err(<P as Provide<T7, E>>::provide_spec(self)->Err_0)
        } else {
            Ok((<P as Provide<T1, E>>::provide_spec(self)->Ok_0, <P as Provide<T2, E>>::provide_spec(self)->Ok_0, <P as Provide<T3, E>>::provide_spec(self)->Ok_0, <P as Provide<T4, E>>::provide_spec(self)->Ok_0, <P as Provide<T5, E>>::provide_spec(self)->Ok_0, <P as Provide<T6, E>>::provide_spec(self)->Ok_0, <P as Provide<T7, E>>::provide_spec(self)->Ok_0))
        }
    }

    fn provide(&self) -> (r: Result<(T1, T2, T3, T4, T5, T6, T7), E>) {
        let x1 = match <P as Provide<T1, E>>::provide(self) {
            Ok(v) => v,
            Err(e) => {
                return Err(e);
            },
        };
        let x2 = match <P as Provide<T2, E>>::provide(self) {
            Ok(v) => v,
            Err(e) => {
                return Err(e);
            },
        };
        let x3 = match <P as Provide<T3, E>>::provide(self) {
            Ok(v) => v,
            Err(e) => {
                return Err(e);
            },
        };
        let x4 = match <P as Provide<T4, E>>::provide(self) {
            Ok(v) => v,
            Err(e) => {
                return Err(e);
            },
        };
        let x5 = match <P as Provide<T5, E>>::provide(self) {
            Ok(v) => v,
            Err(e) => {
                return Err(e);
            },
        };
        let x6 = match <P as Provide<T6, E>>::provide(self) {
            Ok(v) => v,
            Err(e) => {
                return Err(e);
            },
        };
        let x7 = match <P as Provide<T7, E>>::provide(self) {
            Ok(v) => v,
            Err(e) => {
                return Err(e);
            },
        };
        Ok((x1, x2, x3, x4, x5, x6, x7))
    }
}

impl<Func, Out, P, E, T1, T2, T3, T4, T5, T6, T7> Caller<(T1, T2, T3, T4, T5, T6, T7), P, E> for Func where
    Func: Fn(T1, T2, T3, T4, T5, T6, T7) -> Out,
    P: Provide<T1, E> + Provide<T2, E> + Provide<T3, E> + Provide<T4, E> + Provide<T5, E> + Provide<T6, E> + Provide<T7, E>,
 {
    type Output = Out;

    open spec fn req(&self, args: (T1, T2, T3, T4, T5, T6, T7)) -> bool {
        call_requires(*self, args)
    }

    open spec fn ens(&self, args: (T1, T2, T3, T4, T5, T6, T7), output: Out) -> bool {
        call_ensures(*self, args, output)
    }

    fn call(&self, args: (T1, T2, T3, T4, T5, T6, T7)) -> (output: Out) {
        let (x1, x2, x3, x4, x5, x6, x7) = args;
        (self)(x1, x2, x3, x4, x5, x6, x7)
    }
}

impl<P, E, T1, T2, T3, T4, T5, T6, T7, T8> Provide<(T1, T2, T3, T4, T5, T6, T7, T8), E> for P where P: Provide<T1, E> + Provide<T2, E> + Provide<T3, E> + Provide<T4, E> + Provide<T5, E> + Provide<T6, E> + Provide<T7, E> + Provide<T8, E> {
    open spec fn provide_spec(&self) -> Result<(T1, T2, T3, T4, T5, T6, T7, T8), E> {
        if <P as Provide<T1, E>>::provide_spec(self) is Err {
            Err(<P as Provide<T1, E>>::provide_spec(self)->Err_0)
        } else if <P as Provide<T2, E>>::provide_spec(self) is Err {
            Err(<P as Provide<T2, E>>::provide_spec(self)->Err_0)
        } else if <P as Provide<T3, E>>::provide_spec(self) is Err {
            Err(<P as Provide<T3, E>>::provide_spec(self)->Err_0)
        } else if <P as Provide<T4, E>>::provide_spec(self) is Err {
            Err(<P as Provide<T4, E>>::provide_spec(self)->Err_0)
        } else if <P as Provide<T5, E>>::provide_spec(self) is Err {
            Err(<P as Provide<T5, E>>::provide_spec(self)->Err_0)
        } else if <P as Provide<T6, E>>::provide_spec(self) is Err {
            Err(<P as Provide<T6, E>>::provide_spec(self)->Err_0)
        } else if <P as Provide<T7, E>>::provide_spec(self) is Err {
            Err(<P as Provide<T7, E>>::provide_spec(self)->Err_0)
        } else if <P as Provide<T8, E>>::provide_spec(self) is Err {
            Err(<P as Provide<T8, E>>::provide_spec(self)->Err_0)
        } else {
            Ok((<P as Provide<T1, E>>::provide_spec(self)->Ok_0, <P as Provide<T2, E>>::provide_spec(self)->Ok_0, <P as Provide<T3, E>>::provide_spec(self)->Ok_0, <P as Provide<T4, E>>::provide_spec(self)->Ok_0, <P as Provide<T5, E>>::provide_spec(self)->Ok_0, <P as Provide<T6, E>>::provide_spec(self)->Ok_0, <P as Provide<T7, E>>::provide_spec(self)->Ok_0, <P as Provide<T8, E>>::provide_spec(self)->Ok_0))
        }
    }

    fn provide(&self) -> (r: Result<(T1, T2, T3, T4, T5, T6, T7, T8), E>) {
        let x1 = match <P as Provide<T1, E>>::provide(self) {
            Ok(v) => v,
            Err(e) => {
                return Err(e);
            },
        };
        let x2 = match <P as Provide<T2, E>>::provide(self) {
            Ok(v) => v,
            Err(e) => {
                return Err(e);
            },
        };
        let x3 = match <P as Provide<T3, E>>::provide(self) {
            Ok(v) => v,
            Err(e) => {
                return Err(e);
            },
        };
        let x4 = match <P as Provide<T4, E>>::provide(self) {
            Ok(v) => v,
            Err(e) => {
                return Err(e);
            },
        };
        let x5 = match <P as Provide<T5, E>>::provide(self) {
            Ok(v) => v,
            Err(e) => {
                return Err(e);
            },
        };
        let x6 = match <P as Provide<T6, E>>::provide(self) {
            Ok(v) => v,
            Err(e) => {
                return Err(e);
            },
        };
        let x7 = match <P as Provide<T7, E>>::provide(self) {
            Ok(v) => v,
            Err(e) => {
                return Err(e);
            },
        };
        let x8 = match <P as Provide<T8, E>>::provide(self) {
            Ok(v) => v,
            Err(e) => {
                return Err(e);
            },
        };
        Ok((x1, x2, x3, x4, x5, x6, x7, x8))
    }
}

impl<Func, Out, P, E, T1, T2, T3, T4, T5, T6, T7, T8> Caller<(T1, T2, T3, T4, T5, T6, T7, T8), P, E> for Func where
    Func: Fn(T1, T2, T3, T4, T5, T6, T7, T8) -> Out,
    P: Provide<T1, E> + Provide<T2, E> + Provide<T3, E> + Provide<T4, E> + Provide<T5, E> + Provide<T6, E> + Provide<T7, E> + Provide<T8, E>,
 {
    type Output = Out;

    open spec fn req(&self, args: (T1, T2, T3, T4, T5, T6, T7, T8)) -> bool {
        call_requires(*self, args)
    }

    open spec fn ens(&self, args: (T1, T2, T3, T4, T5, T6, T7, T8), output: Out) -> bool {
        call_ensures(*self, args, output)
    }

    fn call(&self, args: (T1, T2, T3, T4, T5, T6, T7, T8)) -> (output: Out) {
        let (x1, x2, x3, x4, x5, x6, x7, x8) = args;
        (self)(x1, x2, x3, x4, x5, x6, x7, x8)
    }
}

impl<P, E, T1, T2, T3, T4, T5, T6, T7, T8, T9> Provide<(T1, T2, T3, T4, T5, T6, T7, T8, T9), E> for P where P: Provide<T1, E> + Provide<T2, E> + Provide<T3, E> + Provide<T4, E> + Provide<T5, E> + Provide<T6, E> + Provide<T7, E> + Provide<T8, E> + Provide<T9, E> {
    open spec fn provide_spec(&self) -> Result<(T1, T2, T3, T4, T5, T6, T7, T8, T9), E> {
        if <P as Provide<T1, E>>::provide_spec(self) is Err {
            Err(<P as Provide<T1, E>>::provide_spec(self)->Err_0)
        } else if <P as Provide<T2, E>>::provide_spec(self) is Err {
            Err(<P as Provide<T2, E>>::provide_spec(self)->Err_0)
        } else if <P as Provide<T3, E>>::provide_spec(self) is Err {
            Err(<P as Provide<T3, E>>::provide_spec(self)->Err_0)
        } else if <P as Provide<T4, E>>::provide_spec(self) is Err {
            Err(<P as Provide<T4, E>>::provide_spec(self)->Err_0)
        } else if <P as Provide<T5, E>>::provide_spec(self) is Err {
            Err(<P as Provide<T5, E>>::provide_spec(self)->Err_0)
        } else if <P as Provide<T6, E>>::provide_spec(self) is Err {
            Err(<P as Provide<T6, E>>::provide_spec(self)->Err_0)
        } else if <P as Provide<T7, E>>::provide_spec(self) is Err {
            Err(<P as Provide<T7, E>>::provide_spec(self)->Err_0)
        } else if <P as Provide<T8, E>>::provide_spec(self) is Err {
            Err(<P as Provide<T8, E>>::provide_spec(self)->Err_0)
        } else if <P as Provide<T9, E>>::provide_spec(self) is Err {
            Err(<P as Provide<T9, E>>::provide_spec(self)->Err_0)
        } else {
            Ok((<P as Provide<T1, E>>::provide_spec(self)->Ok_0, <P as Provide<T2, E>>::provide_spec(self)->Ok_0, <P as Provide<T3, E>>::provide_spec(self)->Ok_0, <P as Provide<T4, E>>::provide_spec(self)->Ok_0, <P as Provide<T5, E>>::provide_spec(self)->Ok_0, <P as Provide<T6, E>>::provide_spec(self)->Ok_0, <P as Provide<T7, E>>::provide_spec(self)->Ok_0, <P as Provide<T8, E>>::provide_spec(self)->Ok_0, <P as Provide<T9, E>>::provide_spec(self)->Ok_0))
        }
    }

    fn provide(&self) -> (r: Result<(T1, T2, T3, T4, T5, T6, T7, T8, T9), E>) {
        let x1 = match <P as Provide<T1, E>>::provide(self) {
            Ok(v) => v,
            Err(e) => {
                return Err(e);
            },
        };
        let x2 = match <P as Provide<T2, E>>::provide(self) {
            Ok(v) => v,
            Err(e) => {
                return Err(e);
            },
        };
        let x3 = match <P as Provide<T3, E>>::provide(self) {
            Ok(v) => v,
            Err(e) => {
                return Err(e);
            },
        };
        let x4 = match <P as Provide<T4, E>>::provide(self) {
            Ok(v) => v,
            Err(e) => {
                return Err(e);
            },
        };
        let x5 = match <P as Provide<T5, E>>::provide(self) {
            Ok(v) => v,
            Err(e) => {
                return Err(e);
            },
        };
        let x6 = match <P as Provide<T6, E>>::provide(self) {
            Ok(v) => v,
            Err(e) => {
                return Err(e);
            },
        };
        let x7 = match <P as Provide<T7, E>>::provide(self) {
            Ok(v) => v,
            Err(e) => {
                return Err(e);
            },
        };
        let x8 = match <P as Provide<T8, E>>::provide(self) {
            Ok(v) => v,
            Err(e) => {
                return Err(e);
            },
        };
        let x9 = match <P as Provide<T9, E>>::provide(self) {
            Ok(v) => v,
            Err(e) => {
                return Err(e);
            },
        };
        Ok((x1, x2, x3, x4, x5, x6, x7, x8, x9))
    }
}

impl<Func, Out, P, E, T1, T2, T3, T4, T5, T6, T7, T8, T9> Caller<(T1, T2, T3, T4, T5, T6, T7, T8, T9), P, E> for Func where
    Func: Fn(T1, T2, T3, T4, T5, T6, T7, T8, T9) -> Out,
    P: Provide<T1, E> + Provide<T2, E> + Provide<T3, E> + Provide<T4, E> + Provide<T5, E> + Provide<T6, E> + Provide<T7, E> + Provide<T8, E> + Provide<T9, E>,
 {
    type Output = Out;

    open spec fn req(&self, args: (T1, T2, T3, T4, T5, T6, T7, T8, T9)) -> bool {
        call_requires(*self, args)
    }

    open spec fn ens(&self, args: (T1, T2, T3, T4, T5, T6, T7, T8, T9), output: Out) -> bool {
        call_ensures(*self, args, output)
    }

    fn call(&self, args: (T1, T2, T3, T4, T5, T6, T7, T8, T9)) -> (output: Out) {
        let (x1, x2, x3, x4, x5, x6, x7, x8, x9) = args;
        (self)(x1, x2, x3, x4, x5, x6, x7, x8, x9)
    }
}

impl<P, E, T1, T2, T3, T4, T5, T6, T7, T8, T9, T10> Provide<(T1, T2, T3, T4, T5, T6, T7, T8, T9, T10), E> for P where P: Provide<T1, E> + Provide<T2, E> + Provide<T3, E> + Provide<T4, E> + Provide<T5, E> + Provide<T6, E> + Provide<T7, E> + Provide<T8, E> + Provide<T9, E> + Provide<T10, E> {
    open spec fn provide_spec(&self) -> Result<(T1, T2, T3, T4, T5, T6, T7, T8, T9, T10), E> {
        if <P as Provide<T1, E>>::provide_spec(self) is Err {
            Err(<P as Provide<T1, E>>::provide_spec(self)->Err_0)
        } else if <P as Provide<T2, E>>::provide_spec(self) is Err {
            Err(<P as Provide<T2, E>>::provide_spec(self)->Err_0)
        } else if <P as Provide<T3, E>>::provide_spec(self) is Err {
            Err(<P as Provide<T3, E>>::provide_spec(self)->Err_0)
        } else if <P as Provide<T4, E>>::provide_spec(self) is Err {
            Err(<P as Provide<T4, E>>::provide_spec(self)->Err_0)
        } else if <P as Provide<T5, E>>::provide_spec(self) is Err {
            Err(<P as Provide<T5, E>>::provide_spec(self)->Err_0)
        } else if <P as Provide<T6, E>>::provide_spec(self) is Err {
            Err(<P as Provide<T6, E>>::provide_spec(self)->Err_0)
        } else if <P as Provide<T7, E>>::provide_spec(self) is Err {
            Err(<P as Provide<T7, E>>::provide_spec(self)->Err_0)
        } else if <P as Provide<T8, E>>::provide_spec(self) is Err {
            Err(<P as Provide<T8, E>>::provide_spec(self)->Err_0)
        } else if <P as Provide<T9, E>>::provide_spec(self) is Err {
            Err(<P as Provide<T9, E>>::provide_spec(self)->Err_0)
        } else if <P as Provide<T10, E>>::provide_spec(self) is Err {
            Err(<P as Provide<T10, E>>::provide_spec(self)->Err_0)
        } else {
            Ok((<P as Provide<T1, E>>::provide_spec(self)->Ok_0, <P as Provide<T2, E>>::provide_spec(self)->Ok_0, <P as Provide<T3, E>>::provide_spec(self)->Ok_0, <P as Provide<T4, E>>::provide_spec(self)->Ok_0, <P as Provide<T5, E>>::provide_spec(self)->Ok_0, <P as Provide<T6, E>>::provide_spec(self)->Ok_0, <P as Provide<T7, E>>::provide_spec(self)->Ok_0, <P as Provide<T8, E>>::provide_spec(self)->Ok_0, <P as Provide<T9, E>>::provide_spec(self)->Ok_0, <P as Provide<T10, E>>::provide_spec(self)->Ok_0))
        }
    }

    fn provide(&self) -> (r: Result<(T1, T2, T3, T4, T5, T6, T7, T8, T9, T10), E>) {
        let x1 = match <P as Provide<T1, E>>::provide(self) {
            Ok(v) => v,
            Err(e) => {
                return Err(e);
            },
        };
        let x2 = match <P as Provide<T2, E>>::provide(self) {
            Ok(v) => v,
            Err(e) => {
                return Err(e);
            },
        };
        let x3 = match <P as Provide<T3, E>>::provide(self) {
            Ok(v) => v,
            Err(e) => {
                return Err(e);
            },
        };
        let x4 = match <P as Provide<T4, E>>::provide(self) {
            Ok(v) => v,
            Err(e) => {
                return Err(e);
            },
        };
        let x5 = match <P as Provide<T5, E>>::provide(self) {
            Ok(v) => v,
            Err(e) => {
                return Err(e);
            },
        };
        let x6 = match <P as Provide<T6, E>>::provide(self) {
            Ok(v) => v,
            Err(e) => {
                return Err(e);
            },
        };
        let x7 = match <P as Provide<T7, E>>::provide(self) {
            Ok(v) => v,
            Err(e) => {
                return Err(e);
            },
        };
        let x8 = match <P as Provide<T8, E>>::provide(self) {
            Ok(v) => v,
            Err(e) => {
                return Err(e);
            },
        };
        let x9 = match <P as Provide<T9, E>>::provide(self) {
            Ok(v) => v,
            Err(e) => {
                return Err(e);
            },
        };
        let x10 = match <P as Provide<T10, E>>::provide(self) {
            Ok(v) => v,
            Err(e) => {
                return Err(e);
            },
        };
        Ok((x1, x2, x3, x4, x5, x6, x7, x8, x9, x10))
    }
}

impl<Func, Out, P, E, T1, T2, T3, T4, T5, T6, T7, T8, T9, T10> Caller<(T1, T2, T3, T4, T5, T6, T7, T8, T9, T10), P, E> for Func where
    Func: Fn(T1, T2, T3, T4, T5, T6, T7, T8, T9, T10) -> Out,
    P: Provide<T1, E> + Provide<T2, E> + Provide<T3, E> + Provide<T4, E> + Provide<T5, E> + Provide<T6, E> + Provide<T7, E> + Provide<T8, E> + Provide<T9, E> + Provide<T10, E>,
 {
    type Output = Out;

    open spec fn req(&self, args: (T1, T2, T3, T4, T5, T6, T7, T8, T9, T10)) -> bool {
        call_requires(*self, args)
    }

    open spec fn ens(&self, args: (T1, T2, T3, T4, T5, T6, T7, T8, T9, T10), output: Out) -> bool {
        call_ensures(*self, args, output)
    }

    fn call(&self, args: (T1, T2, T3, T4, T5, T6, T7, T8, T9, T10)) -> (output: Out) {
        let (x1, x2, x3, x4, x5, x6, x7, x8, x9, x10) = args;
        (self)(x1, x2, x3, x4, x5, x6, x7, x8, x9, x10)
    }
}

impl<P, E, T1, T2, T3, T4, T5, T6, T7, T8, T9, T10, T11> Provide<(T1, T2, T3, T4, T5, T6, T7, T8, T9, T10, T11), E> for P where P: Provide<T1, E> + Provide<T2, E> + Provide<T3, E> + Provide<T4, E> + Provide<T5, E> + Provide<T6, E> + Provide<T7, E> + Provide<T8, E> + Provide<T9, E> + Provide<T10, E> + Provide<T11, E> {
    open spec fn provide_spec(&self) -> Result<(T1, T2, T3, T4, T5, T6, T7, T8, T9, T10, T11), E> {
        if <P as Provide<T1, E>>::provide_spec(self) is Err {
            Err(<P as Provide<T1, E>>::provide_spec(self)->Err_0)
        } else if <P as Provide<T2, E>>::provide_spec(self) is Err {
            Err(<P as Provide<T2, E>>::provide_spec(self)->Err_0)
        } else if <P as Provide<T3, E>>::provide_spec(self) is Err {
            Err(<P as Provide<T3, E>>::provide_spec(self)->Err_0)
        } else if <P as Provide<T4, E>>::provide_spec(self) is Err {
            Err(<P as Provide<T4, E>>::provide_spec(self)->Err_0)
        } else if <P as Provide<T5, E>>::provide_spec(self) is Err {
            Err(<P as Provide<T5, E>>::provide_spec(self)->Err_0)
        } else if <P as Provide<T6, E>>::provide_spec(self) is Err {
            Err(<P as Provide<T6, E>>::provide_spec(self)->Err_0)
        } else if <P as Provide<T7, E>>::provide_spec(self) is Err {
            Err(<P as Provide<T7, E>>::provide_spec(self)->Err_0)
        } else if <P as Provide<T8, E>>::provide_spec(self) is Err {
            Err(<P as Provide<T8, E>>::provide_spec(self)->Err_0)
        } else if <P as Provide<T9, E>>::provide_spec(self) is Err {
            Err(<P as Provide<T9, E>>::provide_spec(self)->Err_0)
        } else if <P as Provide<T10, E>>::provide_spec(self) is Err {
            Err(<P as Provide<T10, E>>::provide_spec(self)->Err_0)
        } else if <P as Provide<T11, E>>::provide_spec(self) is Err {
            Err(<P as Provide<T11, E>>::provide_spec(self)->Err_0)
        } else {
            Ok((<P as Provide<T1, E>>::provide_spec(self)->Ok_0, <P as Provide<T2, E>>::provide_spec(self)->Ok_0, <P as Provide<T3, E>>::provide_spec(self)->Ok_0, <P as Provide<T4, E>>::provide_spec(self)->Ok_0, <P as Provide<T5, E>>::provide_spec(self)->Ok_0, <P as Provide<T6, E>>::provide_spec(self)->Ok_0, <P as Provide<T7, E>>::provide_spec(self)->Ok_0, <P as Provide<T8, E>>::provide_spec(self)->Ok_0, <P as Provide<T9, E>>::provide_spec(self)->Ok_0, <P as Provide<T10, E>>::provide_spec(self)->Ok_0, <P as Provide<T11, E>>::provide_spec(self)->Ok_0))
        }
    }

    fn provide(&self) -> (r: Result<(T1, T2, T3, T4, T5, T6, T7, T8, T9, T10, T11), E>) {
        let x1 = match <P as Provide<T1, E>>::provide(self) {
            Ok(v) => v,
            Err(e) => {
                return Err(e);
            },
        };
        let x2 = match <P as Provide<T2, E>>::provide(self) {
            Ok(v) => v,
            Err(e) => {
                return Err(e);
            },
        };
        let x3 = match <P as Provide<T3, E>>::provide(self) {
            Ok(v) => v,
            Err(e) => {
                return Err(e);
            },
        };
        let x4 = match <P as Provide<T4, E>>::provide(self) {
            Ok(v) => v,
            Err(e) => {
                return Err(e);
            },
        };
        let x5 = match <P as Provide<T5, E>>::provide(self) {
            Ok(v) => v,
            Err(e) => {
                return Err(e);
            },
        };
        let x6 = match <P as Provide<T6, E>>::provide(self) {
            Ok(v) => v,
            Err(e) => {
                return Err(e);
            },
        };
        let x7 = match <P as Provide<T7, E>>::provide(self) {
            Ok(v) => v,
            Err(e) => {
                return Err(e);
            },
        };
        let x8 = match <P as Provide<T8, E>>::provide(self) {
            Ok(v) => v,
            Err(e) => {
                return Err(e);
            },
        };
        let x9 = match <P as Provide<T9, E>>::provide(self) {
            Ok(v) => v,
            Err(e) => {
                return Err(e);
            },
        };
        let x10 = match <P as Provide<T10, E>>::provide(self) {
            Ok(v) => v,
            Err(e) => {
                return Err(e);
            },
        };
        let x11 = match <P as Provide<T11, E>>::provide(self) {
            Ok(v) => v,
            Err(e) => {
                return Err(e);
            },
        };
        Ok((x1, x2, x3, x4, x5, x6, x7, x8, x9, x10, x11))
    }
}

impl<Func, Out, P, E, T1, T2, T3, T4, T5, T6, T7, T8, T9, T10, T11> Caller<(T1, T2, T3, T4, T5, T6, T7, T8, T9, T10, T11), P, E> for Func where
    Func: Fn(T1, T2, T3, T4, T5, T6, T7, T8, T9, T10, T11) -> Out,
    P: Provide<T1, E> + Provide<T2, E> + Provide<T3, E> + Provide<T4, E> + Provide<T5, E> + Provide<T6, E> + Provide<T7, E> + Provide<T8, E> + Provide<T9, E> + Provide<T10, E> + Provide<T11, E>,
 {
    type Output = Out;

    open spec fn req(&self, args: (T1, T2, T3, T4, T5, T6, T7, T8, T9, T10, T11)) -> bool {
        call_requires(*self, args)
    }

    open spec fn ens(&self, args: (T1, T2, T3, T4, T5, T6, T7, T8, T9, T10, T11), output: Out) -> bool {
        call_ensures(*self, args, output)
    }

    fn call(&self, args: (T1, T2, T3, T4, T5, T6, T7, T8, T9, T10, T11)) -> (output: Out) {
        let (x1, x2, x3, x4, x5, x6, x7, x8, x9, x10, x11) = args;
        (self)(x1, x2, x3, x4, x5, x6, x7, x8, x9, x10, x11)
    }
}

impl<P, E, T1, T2, T3, T4, T5, T6, T7, T8, T9, T10, T11, T12> Provide<(T1, T2, T3, T4, T5, T6, T7, T8, T9, T10, T11, T12), E> for P where P: Provide<T1, E> + Provide<T2, E> + Provide<T3, E> + Provide<T4, E> + Provide<T5, E> + Provide<T6, E> + Provide<T7, E> + Provide<T8, E> + Provide<T9, E> + Provide<T10, E> + Provide<T11, E> + Provide<T12, E> {
    open spec fn provide_spec(&self) -> Result<(T1, T2, T3, T4, T5, T6, T7, T8, T9, T10, T11, T12), E> {
        if <P as Provide<T1, E>>::provide_spec(self) is Err {
            Err(<P as Provide<T1, E>>::provide_spec(self)->Err_0)
        } else if <P as Provide<T2, E>>::provide_spec(self) is Err {
            Err(<P as Provide<T2, E>>::provide_spec(self)->Err_0)
        } else if <P as Provide<T3, E>>::provide_spec(self) is Err {
            Err(<P as Provide<T3, E>>::provide_spec(self)->Err_0)
        } else if <P as Provide<T4, E>>::provide_spec(self) is Err {
            Err(<P as Provide<T4, E>>::provide_spec(self)->Err_0)
        } else if <P as Provide<T5, E>>::provide_spec(self) is Err {
            Err(<P as Provide<T5, E>>::provide_spec(self)->Err_0)
        } else if <P as Provide<T6, E>>::provide_spec(self) is Err {
            Err(<P as Provide<T6, E>>::provide_spec(self)->Err_0)
        } else if <P as Provide<T7, E>>::provide_spec(self) is Err {
            Err(<P as Provide<T7, E>>::provide_spec(self)->Err_0)
        } else if <P as Provide<T8, E>>::provide_spec(self) is Err {
            Err(<P as Provide<T8, E>>::provide_spec(self)->Err_0)
        } else if <P as Provide<T9, E>>::provide_spec(self) is Err {
            Err(<P as Provide<T9, E>>::provide_spec(self)->Err_0)
        } else if <P as Provide<T10, E>>::provide_spec(self) is Err {
            Err(<P as Provide<T10, E>>::provide_spec(self)->Err_0)
        } else if <P as Provide<T11, E>>::provide_spec(self) is Err {
            Err(<P as Provide<T11, E>>::provide_spec(self)->Err_0)
        } else if <P as Provide<T12, E>>::provide_spec(self) is Err {
            Err(<P as Provide<T12, E>>::provide_spec(self)->Err_0)
        } else {
            Ok((<P as Provide<T1, E>>::provide_spec(self)->Ok_0, <P as Provide<T2, E>>::provide_spec(self)->Ok_0, <P as Provide<T3, E>>::provide_spec(self)->Ok_0, <P as Provide<T4, E>>::provide_spec(self)->Ok_0, <P as Provide<T5, E>>::provide_spec(self)->Ok_0, <P as Provide<T6, E>>::provide_spec(self)->Ok_0, <P as Provide<T7, E>>::provide_spec(self)->Ok_0, <P as Provide<T8, E>>::provide_spec(self)->Ok_0, <P as Provide<T9, E>>::provide_spec(self)->Ok_0, <P as Provide<T10, E>>::provide_spec(self)->Ok_0, <P as Provide<T11, E>>::provide_spec(self)->Ok_0, <P as Provide<T12, E>>::provide_spec(self)->Ok_0))
        }
    }

    fn provide(&self) -> (r: Result<(T1, T2, T3, T4, T5, T6, T7, T8, T9, T10, T11, T12), E>) {
        let x1 = match <P as Provide<T1, E>>::provide(self) {
            Ok(v) => v,
            Err(e) => {
                return Err(e);
            },
        };
        let x2 = match <P as Provide<T2, E>>::provide(self) {
            Ok(v) => v,
            Err(e) => {
                return Err(e);
            },
        };
        let x3 = match <P as Provide<T3, E>>::provide(self) {
            Ok(v) => v,
            Err(e) => {
                return Err(e);
            },
        };
        let x4 = match <P as Provide<T4, E>>::provide(self) {
            Ok(v) => v,
            Err(e) => {
                return Err(e);
            },
        };
        let x5 = match <P as Provide<T5, E>>::provide(self) {
            Ok(v) => v,
            Err(e) => {
                return Err(e);
            },
        };
        let x6 = match <P as Provide<T6, E>>::provide(self) {
            Ok(v) => v,
            Err(e) => {
                return Err(e);
            },
        };
        let x7 = match <P as Provide<T7, E>>::provide(self) {
            Ok(v) => v,
            Err(e) => {
                return Err(e);
            },
        };
        let x8 = match <P as Provide<T8, E>>::provide(self) {
            Ok(v) => v,
            Err(e) => {
                return Err(e);
            },
        };
        let x9 = match <P as Provide<T9, E>>::provide(self) {
            Ok(v) => v,
            Err(e) => {
                return Err(e);
            },
        };
        let x10 = match <P as Provide<T10, E>>::provide(self) {
            Ok(v) => v,
            Err(e) => {
                return Err(e);
            },
        };
        let x11 = match <P as Provide<T11, E>>::provide(self) {
            Ok(v) => v,
            Err(e) => {
                return Err(e);
            },
        };
        let x12 = match <P as Provide<T12, E>>::provide(self) {
            Ok(v) => v,
            Err(e) => {
                return Err(e);
            },
        };
        Ok((x1, x2, x3, x4, x5, x6, x7, x8, x9, x10, x11, x12))
    }
}

impl<Func, Out, P, E, T1, T2, T3, T4, T5, T6, T7, T8, T9, T10, T11, T12> Caller<(T1, T2, T3, T4, T5, T6, T7, T8, T9, T10, T11, T12), P, E> for Func where
    Func: Fn(T1, T2, T3, T4, T5, T6, T7, T8, T9, T10, T11, T12) -> Out,
    P: Provide<T1, E> + Provide<T2, E> + Provide<T3, E> + Provide<T4, E> + Provide<T5, E> + Provide<T6, E> + Provide<T7, E> + Provide<T8, E> + Provide<T9, E> + Provide<T10, E> + Provide<T11, E> + Provide<T12, E>,
 {
    type Output = Out;

    open spec fn req(&self, args: (T1, T2, T3, T4, T5, T6, T7, T8, T9, T10, T11, T12)) -> bool {
        call_requires(*self, args)
    }

    open spec fn ens(&self, args: (T1, T2, T3, T4, T5, T6, T7, T8, T9, T10, T11, T12), output: Out) -> bool {
        call_ensures(*self, args, output)
    }

    fn call(&self, args: (T1, T2, T3, T4, T5, T6, T7, T8, T9, T10, T11, T12)) -> (output: Out) {
        let (x1, x2, x3, x4, x5, x6, x7, x8, x9, x10, x11, x12) = args;
        (self)(x1, x2, x3, x4, x5, x6, x7, x8, x9, x10, x11, x12)
    }
}

impl<P, E, T1, T2, T3, T4, T5, T6, T7, T8, T9, T10, T11, T12, T13> Provide<(T1, T2, T3, T4, T5, T6, T7, T8, T9, T10, T11, T12, T13), E> for P where P: Provide<T1, E> + Provide<T2, E> + Provide<T3, E> + Provide<T4, E> + Provide<T5, E> + Provide<T6, E> + Provide<T7, E> + Provide<T8, E> + Provide<T9, E> + Provide<T10, E> + Provide<T11, E> + Provide<T12, E> + Provide<T13, E> {
    open spec fn provide_spec(&self) -> Result<(T1, T2, T3, T4, T5, T6, T7, T8, T9, T10, T11, T12, T13), E> {
        if <P as Provide<T1, E>>::provide_spec(self) is Err {
            Err(<P as Provide<T1, E>>::provide_spec(self)->Err_0)
        } else if <P as Provide<T2, E>>::provide_spec(self) is Err {
            Err(<P as Provide<T2, E>>::provide_spec(self)->Err_0)
        } else if <P as Provide<T3, E>>::provide_spec(self) is Err {
            Err(<P as Provide<T3, E>>::provide_spec(self)->Err_0)
        } else if <P as Provide<T4, E>>::provide_spec(self) is Err {
            Err(<P as Provide<T4, E>>::provide_spec(self)->Err_0)
        } else if <P as Provide<T5, E>>::provide_spec(self) is Err {
            Err(<P as Provide<T5, E>>::provide_spec(self)->Err_0)
        } else if <P as Provide<T6, E>>::provide_spec(self) is Err {
            Err(<P as Provide<T6, E>>::provide_spec(self)->Err_0)
        } else if <P as Provide<T7, E>>::provide_spec(self) is Err {
            Err(<P as Provide<T7, E>>::provide_spec(self)->Err_0)
        } else if <P as Provide<T8, E>>::provide_spec(self) is Err {
            Err(<P as Provide<T8, E>>::provide_spec(self)->Err_0)
        } else if <P as Provide<T9, E>>::provide_spec(self) is Err {
            Err(<P as Provide<T9, E>>::provide_spec(self)->Err_0)
        } else if <P as Provide<T10, E>>::provide_spec(self) is Err {
            Err(<P as Provide<T10, E>>::provide_spec(self)->Err_0)
        } else if <P as Provide<T11, E>>::provide_spec(self) is Err {
            Err(<P as Provide<T11, E>>::provide_spec(self)->Err_0)
        } else if <P as Provide<T12, E>>::provide_spec(self) is Err {
            Err(<P as Provide<T12, E>>::provide_spec(self)->Err_0)
        } else if <P as Provide<T13, E>>::provide_spec(self) is Err {
            Err(<P as Provide<T13, E>>::provide_spec(self)->Err_0)
        } else {
            Ok((<P as Provide<T1, E>>::provide_spec(self)->Ok_0, <P as Provide<T2, E>>::provide_spec(self)->Ok_0, <P as Provide<T3, E>>::provide_spec(self)->Ok_0, <P as Provide<T4, E>>::provide_spec(self)->Ok_0, <P as Provide<T5, E>>::provide_spec(self)->Ok_0, <P as Provide<T6, E>>::provide_spec(self)->Ok_0, <P as Provide<T7, E>>::provide_spec(self)->Ok_0, <P as Provide<T8, E>>::provide_spec(self)->Ok_0, <P as Provide<T9, E>>::provide_spec(self)->Ok_0, <P as Provide<T10, E>>::provide_spec(self)->Ok_0, <P as Provide<T11, E>>::provide_spec(self)->Ok_0, <P as Provide<T12, E>>::provide_spec(self)->Ok_0, <P as Provide<T13, E>>::provide_spec(self)->Ok_0))
        }
    }

    fn provide(&self) -> (r: Result<(T1, T2, T3, T4, T5, T6, T7, T8, T9, T10, T11, T12, T13), E>) {
        let x1 = match <P as Provide<T1, E>>::provide(self) {
            Ok(v) => v,
            Err(e) => {
                return Err(e);
            },
        };
        let x2 = match <P as Provide<T2, E>>::provide(self) {
            Ok(v) => v,
            Err(e) => {
                return Err(e);
            },
        };
        let x3 = match <P as Provide<T3, E>>::provide(self) {
            Ok(v) => v,
            Err(e) => {
                return Err(e);
            },
        };
        let x4 = match <P as Provide<T4, E>>::provide(self) {
            Ok(v) => v,
            Err(e) => {
                return Err(e);
            },
        };
        let x5 = match <P as Provide<T5, E>>::provide(self) {
            Ok(v) => v,
            Err(e) => {
                return Err(e);
            },
        };
        let x6 = match <P as Provide<T6, E>>::provide(self) {
            Ok(v) => v,
            Err(e) => {
                return Err(e);
            },
        };
        let x7 = match <P as Provide<T7, E>>::provide(self) {
            Ok(v) => v,
            Err(e) => {
                return Err(e);
            },
        };
        let x8 = match <P as Provide<T8, E>>::provide(self) {
            Ok(v) => v,
            Err(e) => {
                return Err(e);
            },
        };
        let x9 = match <P as Provide<T9, E>>::provide(self) {
            Ok(v) => v,
            Err(e) => {
                return Err(e);
            },
        };
        let x10 = match <P as Provide<T10, E>>::provide(self) {
            Ok(v) => v,
            Err(e) => {
                return Err(e);
            },
        };
        let x11 = match <P as Provide<T11, E>>::provide(self) {
            Ok(v) => v,
            Err(e) => {
                return Err(e);
            },
        };
        let x12 = match <P as Provide<T12, E>>::provide(self) {
            Ok(v) => v,
            Err(e) => {
                return Err(e);
            },
        };
        let x13 = match <P as Provide<T13, E>>::provide(self) {
            Ok(v) => v,
            Err(e) => {
                return Err(e);
            },
        };
        Ok((x1, x2, x3, x4, x5, x6, x7, x8, x9, x10, x11, x12, x13))
    }
}

impl<Func, Out, P, E, T1, T2, T3, T4, T5, T6, T7, T8, T9, T10, T11, T12, T13> Caller<(T1, T2, T3, T4, T5, T6, T7, T8, T9, T10, T11, T12, T13), P, E> for Func where
    Func: Fn(T1, T2, T3, T4, T5, T6, T7, T8, T9, T10, T11, T12, T13) -> Out,
    P: Provide<T1, E> + Provide<T2, E> + Provide<T3, E> + Provide<T4, E> + Provide<T5, E> + Provide<T6, E> + Provide<T7, E> + Provide<T8, E> + Provide<T9, E> + Provide<T10, E> + Provide<T11, E> + Provide<T12, E> + Provide<T13, E>,
 {
    type Output = Out;

    open spec fn req(&self, args: (T1, T2, T3, T4, T5, T6, T7, T8, T9, T10, T11, T12, T13)) -> bool {
        call_requires(*self, args)
    }

    open spec fn ens(&self, args: (T1, T2, T3, T4, T5, T6, T7, T8, T9, T10, T11, T12, T13), output: Out) -> bool {
        call_ensures(*self, args, output)
    }

    fn call(&self, args: (T1, T2, T3, T4, T5, T6, T7, T8, T9, T10, T11, T12, T13)) -> (output: Out) {
        let (x1, x2, x3, x4, x5, x6, x7, x8, x9, x10, x11, x12, x13) = args;
        (self)(x1, x2, x3, x4, x5, x6, x7, x8, x9, x10, x11, x12, x13)
    }
}

impl<P, E, T1, T2, T3, T4, T5, T6, T7, T8, T9, T10, T11, T12, T13, T14> Provide<(T1, T2, T3, T4, T5, T6, T7, T8, T9, T10, T11, T12, T13, T14), E> for P where P: Provide<T1, E> + Provide<T2, E> + Provide<T3, E> + Provide<T4, E> + Provide<T5, E> + Provide<T6, E> + Provide<T7, E> + Provide<T8, E> + Provide<T9, E> + Provide<T10, E> + Provide<T11, E> + Provide<T12, E> + Provide<T13, E> + Provide<T14, E> {
    open spec fn provide_spec(&self) -> Result<(T1, T2, T3, T4, T5, T6, T7, T8, T9, T10, T11, T12, T13, T14), E> {
        if <P as Provide<T1, E>>::provide_spec(self) is Err {
            Err(<P as Provide<T1, E>>::provide_spec(self)->Err_0)
        } else if <P as Provide<T2, E>>::provide_spec(self) is Err {
            Err(<P as Provide<T2, E>>::provide_spec(self)->Err_0)
        } else if <P as Provide<T3, E>>::provide_spec(self) is Err {
            Err(<P as Provide<T3, E>>::provide_spec(self)->Err_0)
        } else if <P as Provide<T4, E>>::provide_spec(self) is Err {
            Err(<P as Provide<T4, E>>::provide_spec(self)->Err_0)
        } else if <P as Provide<T5, E>>::provide_spec(self) is Err {
            Err(<P as Provide<T5, E>>::provide_spec(self)->Err_0)
        } else if <P as Provide<T6, E>>::provide_spec(self) is Err {
            Err(<P as Provide<T6, E>>::provide_spec(self)->Err_0)
        } else if <P as Provide<T7, E>>::provide_spec(self) is Err {
            Err(<P as Provide<T7, E>>::provide_spec(self)->Err_0)
        } else if <P as Provide<T8, E>>::provide_spec(self) is Err {
            Err(<P as Provide<T8, E>>::provide_spec(self)->Err_0)
        } else if <P as Provide<T9, E>>::provide_spec(self) is Err {
            Err(<P as Provide<T9, E>>::provide_spec(self)->Err_0)
        } else if <P as Provide<T10, E>>::provide_spec(self) is Err {
            Err(<P as Provide<T10, E>>::provide_spec(self)->Err_0)
        } else if <P as Provide<T11, E>>::provide_spec(self) is Err {
            Err(<P as Provide<T11, E>>::provide_spec(self)->Err_0)
        } else if <P as Provide<T12, E>>::provide_spec(self) is Err {
            Err(<P as Provide<T12, E>>::provide_spec(self)->Err_0)
        } else if <P as Provide<T13, E>>::provide_spec(self) is Err {
            Err(<P as Provide<T13, E>>::provide_spec(self)->Err_0)
        } else if <P as Provide<T14, E>>::provide_spec(self) is Err {
            Err(<P as Provide<T14, E>>::provide_spec(self)->Err_0)
        } else {
            Ok((<P as Provide<T1, E>>::provide_spec(self)->Ok_0, <P as Provide<T2, E>>::provide_spec(self)->Ok_0, <P as Provide<T3, E>>::provide_spec(self)->Ok_0, <P as Provide<T4, E>>::provide_spec(self)->Ok_0, <P as Provide<T5, E>>::provide_spec(self)->Ok_0, <P as Provide<T6, E>>::provide_spec(self)->Ok_0, <P as Provide<T7, E>>::provide_spec(self)->Ok_0, <P as Provide<T8, E>>::provide_spec(self)->Ok_0, <P as Provide<T9, E>>::provide_spec(self)->Ok_0, <P as Provide<T10, E>>::provide_spec(self)->Ok_0, <P as Provide<T11, E>>::provide_spec(self)->Ok_0, <P as Provide<T12, E>>::provide_spec(self)->Ok_0, <P as Provide<T13, E>>::provide_spec(self)->Ok_0, <P as Provide<T14, E>>::provide_spec(self)->Ok_0))
        }
    }

    fn provide(&self) -> (r: Result<(T1, T2, T3, T4, T5, T6, T7, T8, T9, T10, T11, T12, T13, T14), E>) {
        let x1 = match <P as Provide<T1, E>>::provide(self) {
            Ok(v) => v,
            Err(e) => {
                return Err(e);
            },
        };
        let x2 = match <P as Provide<T2, E>>::provide(self) {
            Ok(v) => v,
            Err(e) => {
                return Err(e);
            },
        };
        let x3 = match <P as Provide<T3, E>>::provide(self) {
            Ok(v) => v,
            Err(e) => {
                return Err(e);
            },
        };
        let x4 = match <P as Provide<T4, E>>::provide(self) {
            Ok(v) => v,
            Err(e) => {
                return Err(e);
            },
        };
        let x5 = match <P as Provide<T5, E>>::provide(self) {
            Ok(v) => v,
            Err(e) => {
                return Err(e);
            },
        };
        let x6 = match <P as Provide<T6, E>>::provide(self) {
            Ok(v) => v,
            Err(e) => {
                return Err(e);
            },
        };
        let x7 = match <P as Provide<T7, E>>::provide(self) {
            Ok(v) => v,
            Err(e) => {
                return Err(e);
            },
        };
        let x8 = match <P as Provide<T8, E>>::provide(self) {
            Ok(v) => v,
            Err(e) => {
                return Err(e);
            },
        };
        let x9 = match <P as Provide<T9, E>>::provide(self) {
            Ok(v) => v,
            Err(e) => {
                return Err(e);
            },
        };
        let x10 = match <P as Provide<T10, E>>::provide(self) {
            Ok(v) => v,
            Err(e) => {
                return Err(e);
            },
        };
        let x11 = match <P as Provide<T11, E>>::provide(self) {
            Ok(v) => v,
            Err(e) => {
                return Err(e);
            },
        };
        let x12 = match <P as Provide<T12, E>>::provide(self) {
            Ok(v) => v,
            Err(e) => {
                return Err(e);
            },
        };
        let x13 = match <P as Provide<T13, E>>::provide(self) {
            Ok(v) => v,
            Err(e) => {
                return Err(e);
            },
        };
        let x14 = match <P as Provide<T14, E>>::provide(self) {
            Ok(v) => v,
            Err(e) => {
                return Err(e);
            },
        };
        Ok((x1, x2, x3, x4, x5, x6, x7, x8, x9, x10, x11, x12, x13, x14))
    }
}

impl<Func, Out, P, E, T1, T2, T3, T4, T5, T6, T7, T8, T9, T10, T11, T12, T13, T14> Caller<(T1, T2, T3, T4, T5, T6, T7, T8, T9, T10, T11, T12, T13, T14), P, E> for Func where
    Func: Fn(T1, T2, T3, T4, T5, T6, T7, T8, T9, T10, T11, T12, T13, T14) -> Out,
    P: Provide<T1, E> + Provide<T2, E> + Provide<T3, E> + Provide<T4, E> + Provide<T5, E> + Provide<T6, E> + Provide<T7, E> + Provide<T8, E> + Provide<T9, E> + Provide<T10, E> + Provide<T11, E> + Provide<T12, E> + Provide<T13, E> + Provide<T14, E>,
 {
    type Output = Out;

    open spec fn req(&self, args: (T1, T2, T3, T4, T5, T6, T7, T8, T9, T10, T11, T12, T13, T14)) -> bool {
        call_requires(*self, args)
    }

    open spec fn ens(&self, args: (T1, T2, T3, T4, T5, T6, T7, T8, T9, T10, T11, T12, T13, T14), output: Out) -> bool {
        call_ensures(*self, args, output)
    }

    fn call(&self, args: (T1, T2, T3, T4, T5, T6, T7, T8, T9, T10, T11, T12, T13, T14)) -> (output: Out) {
        let (x1, x2, x3, x4, x5, x6, x7, x8, x9, x10, x11, x12, x13, x14) = args;
        (self)(x1, x2, x3, x4, x5, x6, x7, x8, x9, x10, x11, x12, x13, x14)
    }
}

impl<P, E, T1, T2, T3, T4, T5, T6, T7, T8, T9, T10, T11, T12, T13, T14, T15> Provide<(T1, T2, T3, T4, T5, T6, T7, T8, T9, T10, T11, T12, T13, T14, T15), E> for P where P: Provide<T1, E> + Provide<T2, E> + Provide<T3, E> + Provide<T4, E> + Provide<T5, E> + Provide<T6, E> + Provide<T7, E> + Provide<T8, E> + Provide<T9, E> + Provide<T10, E> + Provide<T11, E> + Provide<T12, E> + Provide<T13, E> + Provide<T14, E> + Provide<T15, E> {
    open spec fn provide_spec(&self) -> Result<(T1, T2, T3, T4, T5, T6, T7, T8, T9, T10, T11, T12, T13, T14, T15), E> {
        if <P as Provide<T1, E>>::provide_spec(self) is Err {
            Err(<P as Provide<T1, E>>::provide_spec(self)->Err_0)
        } else if <P as Provide<T2, E>>::provide_spec(self) is Err {
            Err(<P as Provide<T2, E>>::provide_spec(self)->Err_0)
        } else if <P as Provide<T3, E>>::provide_spec(self) is Err {
            Err(<P as Provide<T3, E>>::provide_spec(self)->Err_0)
        } else if <P as Provide<T4, E>>::provide_spec(self) is Err {
            Err(<P as Provide<T4, E>>::provide_spec(self)->Err_0)
        } else if <P as Provide<T5, E>>::provide_spec(self) is Err {
            Err(<P as Provide<T5, E>>::provide_spec(self)->Err_0)
        } else if <P as Provide<T6, E>>::provide_spec(self) is Err {
            Err(<P as Provide<T6, E>>::provide_spec(self)->Err_0)
        } else if <P as Provide<T7, E>>::provide_spec(self) is Err {
            Err(<P as Provide<T7, E>>::provide_spec(self)->Err_0)
        } else if <P as Provide<T8, E>>::provide_spec(self) is Err {
            Err(<P as Provide<T8, E>>::provide_spec(self)->Err_0)
        } else if <P as Provide<T9, E>>::provide_spec(self) is Err {
            Err(<P as Provide<T9, E>>::provide_spec(self)->Err_0)
        } else if <P as Provide<T10, E>>::provide_spec(self) is Err {
            Err(<P as Provide<T10, E>>::provide_spec(self)->Err_0)
        } else if <P as Provide<T11, E>>::provide_spec(self) is Err {
            Err(<P as Provide<T11, E>>::provide_spec(self)->Err_0)
        } else if <P as Provide<T12, E>>::provide_spec(self) is Err {
            Err(<P as Provide<T12, E>>::provide_spec(self)->Err_0)
        } else if <P as Provide<T13, E>>::provide_spec(self) is Err {
            Err(<P as Provide<T13, E>>::provide_spec(self)->Err_0)
        } else if <P as Provide<T14, E>>::provide_spec(self) is Err {
            Err(<P as Provide<T14, E>>::provide_spec(self)->Err_0)
        } else if <P as Provide<T15, E>>::provide_spec(self) is Err {
            Err(<P as Provide<T15, E>>::provide_spec(self)->Err_0)
        } else {
            Ok((<P as Provide<T1, E>>::provide_spec(self)->Ok_0, <P as Provide<T2, E>>::provide_spec(self)->Ok_0, <P as Provide<T3, E>>::provide_spec(self)->Ok_0, <P as Provide<T4, E>>::provide_spec(self)->Ok_0, <P as Provide<T5, E>>::provide_spec(self)->Ok_0, <P as Provide<T6, E>>::provide_spec(self)->Ok_0, <P as Provide<T7, E>>::provide_spec(self)->Ok_0, <P as Provide<T8, E>>::provide_spec(self)->Ok_0, <P as Provide<T9, E>>::provide_spec(self)->Ok_0, <P as Provide<T10, E>>::provide_spec(self)->Ok_0, <P as Provide<T11, E>>::provide_spec(self)->Ok_0, <P as Provide<T12, E>>::provide_spec(self)->Ok_0, <P as Provide<T13, E>>::provide_spec(self)->Ok_0, <P as Provide<T14, E>>::provide_spec(self)->Ok_0, <P as Provide<T15, E>>::provide_spec(self)->Ok_0))
        }
    }

    fn provide(&self) -> (r: Result<(T1, T2, T3, T4, T5, T6, T7, T8, T9, T10, T11, T12, T13, T14, T15), E>) {
        let x1 = match <P as Provide<T1, E>>::provide(self) {
            Ok(v) => v,
            Err(e) => {
                return Err(e);
            },
        };
        let x2 = match <P as Provide<T2, E>>::provide(self) {
            Ok(v) => v,
            Err(e) => {
                return Err(e);
            },
        };
        let x3 = match <P as Provide<T3, E>>::provide(self) {
            Ok(v) => v,
            Err(e) => {
                return Err(e);
            },
        };
        let x4 = match <P as Provide<T4, E>>::provide(self) {
            Ok(v) => v,
            Err(e) => {
                return Err(e);
            },
        };
        let x5 = match <P as Provide<T5, E>>::provide(self) {
            Ok(v) => v,
            Err(e) => {
                return Err(e);
            },
        };
        let x6 = match <P as Provide<T6, E>>::provide(self) {
            Ok(v) => v,
            Err(e) => {
                return Err(e);
            },
        };
        let x7 = match <P as Provide<T7, E>>::provide(self) {
            Ok(v) => v,
            Err(e) => {
                return Err(e);
            },
        };
        let x8 = match <P as Provide<T8, E>>::provide(self) {
            Ok(v) => v,
            Err(e) => {
                return Err(e);
            },
        };
        let x9 = match <P as Provide<T9, E>>::provide(self) {
            Ok(v) => v,
            Err(e) => {
                return Err(e);
            },
        };
        let x10 = match <P as Provide<T10, E>>::provide(self) {
            Ok(v) => v,
            Err(e) => {
                return Err(e);
            },
        };
        let x11 = match <P as Provide<T11, E>>::provide(self) {
            Ok(v) => v,
            Err(e) => {
                return Err(e);
            },
        };
        let x12 = match <P as Provide<T12, E>>::provide(self) {
            Ok(v) => v,
            Err(e) => {
                return Err(e);
            },
        };
        let x13 = match <P as Provide<T13, E>>::provide(self) {
            Ok(v) => v,
            Err(e) => {
                return Err(e);
            },
        };
        let x14 = match <P as Provide<T14, E>>::provide(self) {
            Ok(v) => v,
            Err(e) => {
                return Err(e);
            },
        };
        let x15 = match <P as Provide<T15, E>>::provide(self) {
            Ok(v) => v,
            Err(e) => {
                return Err(e);
            },
        };
        Ok((x1, x2, x3, x4, x5, x6, x7, x8, x9, x10, x11, x12, x13, x14, x15))
    }
}

impl<Func, Out, P, E, T1, T2, T3, T4, T5, T6, T7, T8, T9, T10, T11, T12, T13, T14, T15> Caller<(T1, T2, T3, T4, T5, T6, T7, T8, T9, T10, T11, T12, T13, T14, T15), P, E> for Func where
    Func: Fn(T1, T2, T3, T4, T5, T6, T7, T8, T9, T10, T11, T12, T13, T14, T15) -> Out,
    P: Provide<T1, E> + Provide<T2, E> + Provide<T3, E> + Provide<T4, E> + Provide<T5, E> + Provide<T6, E> + Provide<T7, E> + Provide<T8, E> + Provide<T9, E> + Provide<T10, E> + Provide<T11, E> + Provide<T12, E> + Provide<T13, E> + Provide<T14, E> + Provide<T15, E>,
 {
    type Output = Out;

    open spec fn req(&self, args: (T1, T2, T3, T4, T5, T6, T7, T8, T9, T10, T11, T12, T13, T14, T15)) -> bool {
        call_requires(*self, args)
    }

    open spec fn ens(&self, args: (T1, T2, T3, T4, T5, T6, T7, T8, T9, T10, T11, T12, T13, T14, T15), output: Out) -> bool {
        call_ensures(*self, args, output)
    }

    fn call(&self, args: (T1, T2, T3, T4, T5, T6, T7, T8, T9, T10, T11, T12, T13, T14, T15)) -> (output: Out) {
        let (x1, x2, x3, x4, x5, x6, x7, x8, x9, x10, x11, x12, x13, x14, x15) = args;
        (self)(x1, x2, x3, x4, x5, x6, x7, x8, x9, x10, x11, x12, x13, x14, x15)
    }
}

impl<P, E, T1, T2, T3, T4, T5, T6, T7, T8, T9, T10, T11, T12, T13, T14, T15, T16> Provide<(T1, T2, T3, T4, T5, T6, T7, T8, T9, T10, T11, T12, T13, T14, T15, T16), E> for P where P: Provide<T1, E> + Provide<T2, E> + Provide<T3, E> + Provide<T4, E> + Provide<T5, E> + Provide<T6, E> + Provide<T7, E> + Provide<T8, E> + Provide<T9, E> + Provide<T10, E> + Provide<T11, E> + Provide<T12, E> + Provide<T13, E> + Provide<T14, E> + Provide<T15, E> + Provide<T16, E> {
    open spec fn provide_spec(&self) -> Result<(T1, T2, T3, T4, T5, T6, T7, T8, T9, T10, T11, T12, T13, T14, T15, T16), E> {
        if <P as Provide<T1, E>>::provide_spec(self) is Err {
            Err(<P as Provide<T1, E>>::provide_spec(self)->Err_0)
        } else if <P as Provide<T2, E>>::provide_spec(self) is Err {
            Err(<P as Provide<T2, E>>::provide_spec(self)->Err_0)
        } else if <P as Provide<T3, E>>::provide_spec(self) is Err {
            Err(<P as Provide<T3, E>>::provide_spec(self)->Err_0)
        } else if <P as Provide<T4, E>>::provide_spec(self) is Err {
            Err(<P as Provide<T4, E>>::provide_spec(self)->Err_0)
        } else if <P as Provide<T5, E>>::provide_spec(self) is Err {
            Err(<P as Provide<T5, E>>::provide_spec(self)->Err_0)
        } else if <P as Provide<T6, E>>::provide_spec(self) is Err {
            Err(<P as Provide<T6, E>>::provide_spec(self)->Err_0)
        } else if <P as Provide<T7, E>>::provide_spec(self) is Err {
            Err(<P as Provide<T7, E>>::provide_spec(self)->Err_0)
        } else if <P as Provide<T8, E>>::provide_spec(self) is Err {
            Err(<P as Provide<T8, E>>::provide_spec(self)->Err_0)
        } else if <P as Provide<T9, E>>::provide_spec(self) is Err {
            Err(<P as Provide<T9, E>>::provide_spec(self)->Err_0)
        } else if <P as Provide<T10, E>>::provide_spec(self) is Err {
            Err(<P as Provide<T10, E>>::provide_spec(self)->Err_0)
        } else if <P as Provide<T11, E>>::provide_spec(self) is Err {
            Err(<P as Provide<T11, E>>::provide_spec(self)->Err_0)
        } else if <P as Provide<T12, E>>::provide_spec(self) is Err {
            Err(<P as Provide<T12, E>>::provide_spec(self)->Err_0)
        } else if <P as Provide<T13, E>>::provide_spec(self) is Err {
            Err(<P as Provide<T13, E>>::provide_spec(self)->Err_0)
        } else if <P as Provide<T14, E>>::provide_spec(self) is Err {
            Err(<P as Provide<T14, E>>::provide_spec(self)->Err_0)
        } else if <P as Provide<T15, E>>::provide_spec(self) is Err {
            Err(<P as Provide<T15, E>>::provide_spec(self)->Err_0)
        } else if <P as Provide<T16, E>>::provide_spec(self) is Err {
            Err(<P as Provide<T16, E>>::provide_spec(self)->Err_0)
        } else {
            Ok((<P as Provide<T1, E>>::provide_spec(self)->Ok_0, <P as Provide<T2, E>>::provide_spec(self)->Ok_0, <P as Provide<T3, E>>::provide_spec(self)->Ok_0, <P as Provide<T4, E>>::provide_spec(self)->Ok_0, <P as Provide<T5, E>>::provide_spec(self)->Ok_0, <P as Provide<T6, E>>::provide_spec(self)->Ok_0, <P as Provide<T7, E>>::provide_spec(self)->Ok_0, <P as Provide<T8, E>>::provide_spec(self)->Ok_0, <P as Provide<T9, E>>::provide_spec(self)->Ok_0, <P as Provide<T10, E>>::provide_spec(self)->Ok_0, <P as Provide<T11, E>>::provide_spec(self)->Ok_0, <P as Provide<T12, E>>::provide_spec(self)->Ok_0, <P as Provide<T13, E>>::provide_spec(self)->Ok_0, <P as Provide<T14, E>>::provide_spec(self)->Ok_0, <P as Provide<T15, E>>::provide_spec(self)->Ok_0, <P as Provide<T16, E>>::provide_spec(self)->Ok_0))
        }
    }

    fn provide(&self) -> (r: Result<(T1, T2, T3, T4, T5, T6, T7, T8, T9, T10, T11, T12, T13, T14, T15, T16), E>) {
        let x1 = match <P as Provide<T1, E>>::provide(self) {
            Ok(v) => v,
            Err(e) => {
                return Err(e);
            },
        };
        let x2 = match <P as Provide<T2, E>>::provide(self) {
            Ok(v) => v,
            Err(e) => {
                return Err(e);
            },
        };
        let x3 = match <P as Provide<T3, E>>::provide(self) {
            Ok(v) => v,
            Err(e) => {
                return Err(e);
            },
        };
        let x4 = match <P as Provide<T4, E>>::provide(self) {
            Ok(v) => v,
            Err(e) => {
                return Err(e);
            },
        };
        let x5 = match <P as Provide<T5, E>>::provide(self) {
            Ok(v) => v,
            Err(e) => {
                return Err(e);
            },
        };
        let x6 = match <P as Provide<T6, E>>::provide(self) {
            Ok(v) => v,
            Err(e) => {
                return Err(e);
            },
        };
        let x7 = match <P as Provide<T7, E>>::provide(self) {
            Ok(v) => v,
            Err(e) => {
                return Err(e);
            },
        };
        let x8 = match <P as Provide<T8, E>>::provide(self) {
            Ok(v) => v,
            Err(e) => {
                return Err(e);
            },
        };
        let x9 = match <P as Provide<T9, E>>::provide(self) {
            Ok(v) => v,
            Err(e) => {
                return Err(e);
            },
        };
        let x10 = match <P as Provide<T10, E>>::provide(self) {
            Ok(v) => v,
            Err(e) => {
                return Err(e);
            },
        };
        let x11 = match <P as Provide<T11, E>>::provide(self) {
            Ok(v) => v,
            Err(e) => {
                return Err(e);
            },
        };
        let x12 = match <P as Provide<T12, E>>::provide(self) {
            Ok(v) => v,
            Err(e) => {
                return Err(e);
            },
        };
        let x13 = match <P as Provide<T13, E>>::provide(self) {
            Ok(v) => v,
            Err(e) => {
                return Err(e);
            },
        };
        let x14 = match <P as Provide<T14, E>>::provide(self) {
            Ok(v) => v,
            Err(e) => {
                return Err(e);
            },
        };
        let x15 = match <P as Provide<T15, E>>::provide(self) {
            Ok(v) => v,
            Err(e) => {
                return Err(e);
            },
        };
        let x16 = match <P as Provide<T16, E>>::provide(self) {
            Ok(v) => v,
            Err(e) => {
                return Err(e);
            },
        };
        Ok((x1, x2, x3, x4, x5, x6, x7, x8, x9, x10, x11, x12, x13, x14, x15, x16))
    }
}

impl<Func, Out, P, E, T1, T2, T3, T4, T5, T6, T7, T8, T9, T10, T11, T12, T13, T14, T15, T16> Caller<(T1, T2, T3, T4, T5, T6, T7, T8, T9, T10, T11, T12, T13, T14, T15, T16), P, E> for Func where
    Func: Fn(T1, T2, T3, T4, T5, T6, T7, T8, T9, T10, T11, T12, T13, T14, T15, T16) -> Out,
    P: Provide<T1, E> + Provide<T2, E> + Provide<T3, E> + Provide<T4, E> + Provide<T5, E> + Provide<T6, E> + Provide<T7, E> + Provide<T8, E> + Provide<T9, E> + Provide<T10, E> + Provide<T11, E> + Provide<T12, E> + Provide<T13, E> + Provide<T14, E> + Provide<T15, E> + Provide<T16, E>,
 {
    type Output = Out;

    open spec fn req(&self, args: (T1, T2, T3, T4, T5, T6, T7, T8, T9, T10, T11, T12, T13, T14, T15, T16)) -> bool {
        call_requires(*self, args)
    }

    open spec fn ens(&self, args: (T1, T2, T3, T4, T5, T6, T7, T8, T9, T10, T11, T12, T13, T14, T15, T16), output: Out) -> bool {
        call_ensures(*self, args, output)
    }

    fn call(&self, args: (T1, T2, T3, T4, T5, T6, T7, T8, T9, T10, T11, T12, T13, T14, T15, T16)) -> (output: Out) {
        let (x1, x2, x3, x4, x5, x6, x7, x8, x9, x10, x11, x12, x13, x14, x15, x16) = args;
        (self)(x1, x2, x3, x4, x5, x6, x7, x8, x9, x10, x11, x12, x13, x14, x15, x16)
    }
}

impl<P, E, T1, T2, T3, T4, T5, T6, T7, T8, T9, T10, T11, T12, T13, T14, T15, T16, T17> Provide<(T1, T2, T3, T4, T5, T6, T7, T8, T9, T10, T11, T12, T13, T14, T15, T16, T17), E> for P where P: Provide<T1, E> + Provide<T2, E> + Provide<T3, E> + Provide<T4, E> + Provide<T5, E> + Provide<T6, E> + Provide<T7, E> + Provide<T8, E> + Provide<T9, E> + Provide<T10, E> + Provide<T11, E> + Provide<T12, E> + Provide<T13, E> + Provide<T14, E> + Provide<T15, E> + Provide<T16, E> + Provide<T17, E> {
    open spec fn provide_spec(&self) -> Result<(T1, T2, T3, T4, T5, T6, T7, T8, T9, T10, T11, T12, T13, T14, T15, T16, T17), E> {
        if <P as Provide<T1, E>>::provide_spec(self) is Err {
            Err(<P as Provide<T1, E>>::provide_spec(self)->Err_0)
        } else if <P as Provide<T2, E>>::provide_spec(self) is Err {
            Err(<P as Provide<T2, E>>::provide_spec(self)->Err_0)
        } else if <P as Provide<T3, E>>::provide_spec(self) is Err {
            Err(<P as Provide<T3, E>>::provide_spec(self)->Err_0)
        } else if <P as Provide<T4, E>>::provide_spec(self) is Err {
            Err(<P as Provide<T4, E>>::provide_spec(self)->Err_0)
        } else if <P as Provide<T5, E>>::provide_spec(self) is Err {
            Err(<P as Provide<T5, E>>::provide_spec(self)->Err_0)
        } else if <P as Provide<T6, E>>::provide_spec(self) is Err {
            Err(<P as Provide<T6, E>>::provide_spec(self)->Err_0)
        } else if <P as Provide<T7, E>>::provide_spec(self) is Err {
            Err(<P as Provide<T7, E>>::provide_spec(self)->Err_0)
        } else if <P as Provide<T8, E>>::provide_spec(self) is Err {
            Err(<P as Provide<T8, E>>::provide_spec(self)->Err_0)
        } else if <P as Provide<T9, E>>::provide_spec(self) is Err {
            Err(<P as Provide<T9, E>>::provide_spec(self)->Err_0)
        } else if <P as Provide<T10, E>>::provide_spec(self) is Err {
            Err(<P as Provide<T10, E>>::provide_spec(self)->Err_0)
        } else if <P as Provide<T11, E>>::provide_spec(self) is Err {
            Err(<P as Provide<T11, E>>::provide_spec(self)->Err_0)
        } else if <P as Provide<T12, E>>::provide_spec(self) is Err {
            Err(<P as Provide<T12, E>>::provide_spec(self)->Err_0)
        } else if <P as Provide<T13, E>>::provide_spec(self) is Err {
            Err(<P as Provide<T13, E>>::provide_spec(self)->Err_0)
        } else if <P as Provide<T14, E>>::provide_spec(self) is Err {
            Err(<P as Provide<T14, E>>::provide_spec(self)->Err_0)
        } else if <P as Provide<T15, E>>::provide_spec(self) is Err {
            Err(<P as Provide<T15, E>>::provide_spec(self)->Err_0)
        } else if <P as Provide<T16, E>>::provide_spec(self) is Err {
            Err(<P as Provide<T16, E>>::provide_spec(self)->Err_0)
        } else if <P as Provide<T17, E>>::provide_spec(self) is Err {
            Err(<P as Provide<T17, E>>::provide_spec(self)->Err_0)
        } else {
            Ok((<P as Provide<T1, E>>::provide_spec(self)->Ok_0, <P as Provide<T2, E>>::provide_spec(self)->Ok_0, <P as Provide<T3, E>>::provide_spec(self)->Ok_0, <P as Provide<T4, E>>::provide_spec(self)->Ok_0, <P as Provide<T5, E>>::provide_spec(self)->Ok_0, <P as Provide<T6, E>>::provide_spec(self)->Ok_0, <P as Provide<T7, E>>::provide_spec(self)->Ok_0, <P as Provide<T8, E>>::provide_spec(self)->Ok_0, <P as Provide<T9, E>>::provide_spec(self)->Ok_0, <P as Provide<T10, E>>::provide_spec(self)->Ok_0, <P as Provide<T11, E>>::provide_spec(self)->Ok_0, <P as Provide<T12, E>>::provide_spec(self)->Ok_0, <P as Provide<T13, E>>::provide_spec(self)->Ok_0, <P as Provide<T14, E>>::provide_spec(self)->Ok_0, <P as Provide<T15, E>>::provide_spec(self)->Ok_0, <P as Provide<T16, E>>::provide_spec(self)->Ok_0, <P as Provide<T17, E>>::provide_spec(self)->Ok_0))
        }
    }

    fn provide(&self) -> (r: Result<(T1, T2, T3, T4, T5, T6, T7, T8, T9, T10, T11, T12, T13, T14, T15, T16, T17), E>) {
        let x1 = match <P as Provide<T1, E>>::provide(self) {
            Ok(v) => v,
            Err(e) => {
                return Err(e);
            },
        };
        let x2 = match <P as Provide<T2, E>>::provide(self) {
            Ok(v) => v,
            Err(e) => {
                return Err(e);
            },
        };
        let x3 = match <P as Provide<T3, E>>::provide(self) {
            Ok(v) => v,
            Err(e) => {
                return Err(e);
            },
        };
        let x4 = match <P as Provide<T4, E>>::provide(self) {
            Ok(v) => v,
            Err(e) => {
                return Err(e);
            },
        };
        let x5 = match <P as Provide<T5, E>>::provide(self) {
            Ok(v) => v,
            Err(e) => {
                return Err(e);
            },
        };
        let x6 = match <P as Provide<T6, E>>::provide(self) {
            Ok(v) => v,
            Err(e) => {
                return Err(e);
            },
        };
        let x7 = match <P as Provide<T7, E>>::provide(self) {
            Ok(v) => v,
            Err(e) => {
                return Err(e);
            },
        };
        let x8 = match <P as Provide<T8, E>>::provide(self) {
            Ok(v) => v,
            Err(e) => {
                return Err(e);
            },
        };
        let x9 = match <P as Provide<T9, E>>::provide(self) {
            Ok(v) => v,
            Err(e) => {
                return Err(e);
            },
        };
        let x10 = match <P as Provide<T10, E>>::provide(self) {
            Ok(v) => v,
            Err(e) => {
                return Err(e);
            },
        };
        let x11 = match <P as Provide<T11, E>>::provide(self) {
            Ok(v) => v,
            Err(e) => {
                return Err(e);
            },
        };
        let x12 = match <P as Provide<T12, E>>::provide(self) {
            Ok(v) => v,
            Err(e) => {
                return Err(e);
            },
        };
        let x13 = match <P as Provide<T13, E>>::provide(self) {
            Ok(v) => v,
            Err(e) => {
                return Err(e);
            },
        };
        let x14 = match <P as Provide<T14, E>>::provide(self) {
            Ok(v) => v,
            Err(e) => {
                return Err(e);
            },
        };
        let x15 = match <P as Provide<T15, E>>::provide(self) {
            Ok(v) => v,
            Err(e) => {
                return Err(e);
            },
        };
        let x16 = match <P as Provide<T16, E>>::provide(self) {
            Ok(v) => v,
            Err(e) => {
                return Err(e);
            },
        };
        let x17 = match <P as Provide<T17, E>>::provide(self) {
            Ok(v) => v,
            Err(e) => {
                return Err(e);
            },
        };
        Ok((x1, x2, x3, x4, x5, x6, x7, x8, x9, x10, x11, x12, x13, x14, x15, x16, x17))
    }
}

impl<Func, Out, P, E, T1, T2, T3, T4, T5, T6, T7, T8, T9, T10, T11, T12, T13, T14, T15, T16, T17> Caller<(T1, T2, T3, T4, T5, T6, T7, T8, T9, T10, T11, T12, T13, T14, T15, T16, T17), P, E> for Func where
    Func: Fn(T1, T2, T3, T4, T5, T6, T7, T8, T9, T10, T11, T12, T13, T14, T15, T16, T17) -> Out,
    P: Provide<T1, E> + Provide<T2, E> + Provide<T3, E> + Provide<T4, E> + Provide<T5, E> + Provide<T6, E> + Provide<T7, E> + Provide<T8, E> + Provide<T9, E> + Provide<T10, E> + Provide<T11, E> + Provide<T12, E> + Provide<T13, E> + Provide<T14, E> + Provide<T15, E> + Provide<T16, E> + Provide<T17, E>,
 {
    type Output = Out;

    open spec fn req(&self, args: (T1, T2, T3, T4, T5, T6, T7, T8, T9, T10, T11, T12, T13, T14, T15, T16, T17)) -> bool {
        call_requires(*self, args)
    }

    open spec fn ens(&self, args: (T1, T2, T3, T4, T5, T6, T7, T8, T9, T10, T11, T12, T13, T14, T15, T16, T17), output: Out) -> bool {
        call_ensures(*self, args, output)
    }

    fn call(&self, args: (T1, T2, T3, T4, T5, T6, T7, T8, T9, T10, T11, T12, T13, T14, T15, T16, T17)) -> (output: Out) {
        let (x1, x2, x3, x4, x5, x6, x7, x8, x9, x10, x11, x12, x13, x14, x15, x16, x17) = args;
        (self)(x1, x2, x3, x4, x5, x6, x7, x8, x9, x10, x11, x12, x13, x14, x15, x16, x17)
    }
}

impl<P, E, T1, T2, T3, T4, T5, T6, T7, T8, T9, T10, T11, T12, T13, T14, T15, T16, T17, T18> Provide<(T1, T2, T3, T4, T5, T6, T7, T8, T9, T10, T11, T12, T13, T14, T15, T16, T17, T18), E> for P where P: Provide<T1, E> + Provide<T2, E> + Provide<T3, E> + Provide<T4, E> + Provide<T5, E> + Provide<T6, E> + Provide<T7, E> + Provide<T8, E> + Provide<T9, E> + Provide<T10, E> + Provide<T11, E> + Provide<T12, E> + Provide<T13, E> + Provide<T14, E> + Provide<T15, E> + Provide<T16, E> + Provide<T17, E> + Provide<T18, E> {
    open spec fn provide_spec(&self) -> Result<(T1, T2, T3, T4, T5, T6, T7, T8, T9, T10, T11, T12, T13, T14, T15, T16, T17, T18), E> {
        if <P as Provide<T1, E>>::provide_spec(self) is Err {
            Err(<P as Provide<T1, E>>::provide_spec(self)->Err_0)
        } else if <P as Provide<T2, E>>::provide_spec(self) is Err {
            Err(<P as Provide<T2, E>>::provide_spec(self)->Err_0)
        } else if <P as Provide<T3, E>>::provide_spec(self) is Err {
            Err(<P as Provide<T3, E>>::provide_spec(self)->Err_0)
        } else if <P as Provide<T4, E>>::provide_spec(self) is Err {
            Err(<P as Provide<T4, E>>::provide_spec(self)->Err_0)
        } else if <P as Provide<T5, E>>::provide_spec(self) is Err {
            Err(<P as Provide<T5, E>>::provide_spec(self)->Err_0)
        } else if <P as Provide<T6, E>>::provide_spec(self) is Err {
            Err(<P as Provide<T6, E>>::provide_spec(self)->Err_0)
        } else if <P as Provide<T7, E>>::provide_spec(self) is Err {
            Err(<P as Provide<T7, E>>::provide_spec(self)->Err_0)
        } else if <P as Provide<T8, E>>::provide_spec(self) is Err {
            Err(<P as Provide<T8, E>>::provide_spec(self)->Err_0)
        } else if <P as Provide<T9, E>>::provide_spec(self) is Err {
            Err(<P as Provide<T9, E>>::provide_spec(self)->Err_0)
        } else if <P as Provide<T10, E>>::provide_spec(self) is Err {
            Err(<P as Provide<T10, E>>::provide_spec(self)->Err_0)
        } else if <P as Provide<T11, E>>::provide_spec(self) is Err {
            Err(<P as Provide<T11, E>>::provide_spec(self)->Err_0)
        } else if <P as Provide<T12, E>>::provide_spec(self) is Err {
            Err(<P as Provide<T12, E>>::provide_spec(self)->Err_0)
        } else if <P as Provide<T13, E>>::provide_spec(self) is Err {
            Err(<P as Provide<T13, E>>::provide_spec(self)->Err_0)
        } else if <P as Provide<T14, E>>::provide_spec(self) is Err {
            Err(<P as Provide<T14, E>>::provide_spec(self)->Err_0)
        } else if <P as Provide<T15, E>>::provide_spec(self) is Err {
            Err(<P as Provide<T15, E>>::provide_spec(self)->Err_0)
        } else if <P as Provide<T16, E>>::provide_spec(self) is Err {
            Err(<P as Provide<T16, E>>::provide_spec(self)->Err_0)
        } else if <P as Provide<T17, E>>::provide_spec(self) is Err {
            Err(<P as Provide<T17, E>>::provide_spec(self)->Err_0)
        } else if <P as Provide<T18, E>>::provide_spec(self) is Err {
            Err(<P as Provide<T18, E>>::provide_spec(self)->Err_0)
        } else {
            Ok((<P as Provide<T1, E>>::provide_spec(self)->Ok_0, <P as Provide<T2, E>>::provide_spec(self)->Ok_0, <P as Provide<T3, E>>::provide_spec(self)->Ok_0, <P as Provide<T4, E>>::provide_spec(self)->Ok_0, <P as Provide<T5, E>>::provide_spec(self)->Ok_0, <P as Provide<T6, E>>::provide_spec(self)->Ok_0, <P as Provide<T7, E>>::provide_spec(self)->Ok_0, <P as Provide<T8, E>>::provide_spec(self)->Ok_0, <P as Provide<T9, E>>::provide_spec(self)->Ok_0, <P as Provide<T10, E>>::provide_spec(self)->Ok_0, <P as Provide<T11, E>>::provide_spec(self)->Ok_0, <P as Provide<T12, E>>::provide_spec(self)->Ok_0, <P as Provide<T13, E>>::provide_spec(self)->Ok_0, <P as Provide<T14, E>>::provide_spec(self)->Ok_0, <P as Provide<T15, E>>::provide_spec(self)->Ok_0, <P as Provide<T16, E>>::provide_spec(self)->Ok_0, <P as Provide<T17, E>>::provide_spec(self)->Ok_0, <P as Provide<T18, E>>::provide_spec(self)->Ok_0))
        }
    }

    fn provide(&self) -> (r: Result<(T1, T2, T3, T4, T5, T6, T7, T8, T9, T10, T11, T12, T13, T14, T15, T16, T17, T18), E>) {
        let x1 = match <P as Provide<T1, E>>::provide(self) {
            Ok(v) => v,
            Err(e) => {
                return Err(e);
            },
        };
        let x2 = match <P as Provide<T2, E>>::provide(self) {
            Ok(v) => v,
            Err(e) => {
                return Err(e);
            },
        };
        let x3 = match <P as Provide<T3, E>>::provide(self) {
            Ok(v) => v,
            Err(e) => {
                return Err(e);
            },
        };
        let x4 = match <P as Provide<T4, E>>::provide(self) {
            Ok(v) => v,
            Err(e) => {
                return Err(e);
            },
        };
        let x5 = match <P as Provide<T5, E>>::provide(self) {
            Ok(v) => v,
            Err(e) => {
                return Err(e);
            },
        };
        let x6 = match <P as Provide<T6, E>>::provide(self) {
            Ok(v) => v,
            Err(e) => {
                return Err(e);
            },
        };
        let x7 = match <P as Provide<T7, E>>::provide(self) {
            Ok(v) => v,
            Err(e) => {
                return Err(e);
            },
        };
        let x8 = match <P as Provide<T8, E>>::provide(self) {
            Ok(v) => v,
            Err(e) => {
                return Err(e);
            },
        };
        let x9 = match <P as Provide<T9, E>>::provide(self) {
            Ok(v) => v,
            Err(e) => {
                return Err(e);
            },
        };
        let x10 = match <P as Provide<T10, E>>::provide(self) {
            Ok(v) => v,
            Err(e) => {
                return Err(e);
            },
        };
        let x11 = match <P as Provide<T11, E>>::provide(self) {
            Ok(v) => v,
            Err(e) => {
                return Err(e);
            },
        };
        let x12 = match <P as Provide<T12, E>>::provide(self) {
            Ok(v) => v,
            Err(e) => {
                return Err(e);
            },
        };
        let x13 = match <P as Provide<T13, E>>::provide(self) {
            Ok(v) => v,
            Err(e) => {
                return Err(e);
            },
        };
        let x14 = match <P as Provide<T14, E>>::provide(self) {
            Ok(v) => v,
            Err(e) => {
                return Err(e);
            },
        };
        let x15 = match <P as Provide<T15, E>>::provide(self) {
            Ok(v) => v,
            Err(e) => {
                return Err(e);
            },
        };
        let x16 = match <P as Provide<T16, E>>::provide(self) {
            Ok(v) => v,
            Err(e) => {
                return Err(e);
            },
        };
        let x17 = match <P as Provide<T17, E>>::provide(self) {
            Ok(v) => v,
            Err(e) => {
                return Err(e);
            },
        };
        let x18 = match <P as Provide<T18, E>>::provide(self) {
            Ok(v) => v,
            Err(e) => {
                return Err(e);
            },
        };
        Ok((x1, x2, x3, x4, x5, x6, x7, x8, x9, x10, x11, x12, x13, x14, x15, x16, x17, x18))
    }
}

impl<Func, Out, P, E, T1, T2, T3, T4, T5, T6, T7, T8, T9, T10, T11, T12, T13, T14, T15, T16, T17, T18> Caller<(T1, T2, T3, T4, T5, T6, T7, T8, T9, T10, T11, T12, T13, T14, T15, T16, T17, T18), P, E> for Func where
    Func: Fn(T1, T2, T3, T4, T5, T6, T7, T8, T9, T10, T11, T12, T13, T14, T15, T16, T17, T18) -> Out,
    P: Provide<T1, E> + Provide<T2, E> + Provide<T3, E> + Provide<T4, E> + Provide<T5, E> + Provide<T6, E> + Provide<T7, E> + Provide<T8, E> + Provide<T9, E> + Provide<T10, E> + Provide<T11, E> + Provide<T12, E> + Provide<T13, E> + Provide<T14, E> + Provide<T15, E> + Provide<T16, E> + Provide<T17, E> + Provide<T18, E>,
 {
    type Output = Out;

    open spec fn req(&self, args: (T1, T2, T3, T4, T5, T6, T7, T8, T9, T10, T11, T12, T13, T14, T15, T16, T17, T18)) -> bool {
        call_requires(*self, args)
    }

    open spec fn ens(&self, args: (T1, T2, T3, T4, T5, T6, T7, T8, T9, T10, T11, T12, T13, T14, T15, T16, T17, T18), output: Out) -> bool {
        call_ensures(*self, args, output)
    }

    fn call(&self, args: (T1, T2, T3, T4, T5, T6, T7, T8, T9, T10, T11, T12, T13, T14, T15, T16, T17, T18)) -> (output: Out) {
        let (x1, x2, x3, x4, x5, x6, x7, x8, x9, x10, x11, x12, x13, x14, x15, x16, x17, x18) = args;
        (self)(x1, x2, x3, x4, x5, x6, x7, x8, x9, x10, x11, x12, x13, x14, x15, x16, x17, x18)
    }
}

impl<P, E, T1, T2, T3, T4, T5, T6, T7, T8, T9, T10, T11, T12, T13, T14, T15, T16, T17, T18, T19> Provide<(T1, T2, T3, T4, T5, T6, T7, T8, T9, T10, T11, T12, T13, T14, T15, T16, T17, T18, T19), E> for P where P: Provide<T1, E> + Provide<T2, E> + Provide<T3, E> + Provide<T4, E> + Provide<T5, E> + Provide<T6, E> + Provide<T7, E> + Provide<T8, E> + Provide<T9, E> + Provide<T10, E> + Provide<T11, E> + Provide<T12, E> + Provide<T13, E> + Provide<T14, E> + Provide<T15, E> + Provide<T16, E> + Provide<T17, E> + Provide<T18, E> + Provide<T19, E> {
    open spec fn provide_spec(&self) -> Result<(T1, T2, T3, T4, T5, T6, T7, T8, T9, T10, T11, T12, T13, T14, T15, T16, T17, T18, T19), E> {
        if <P as Provide<T1, E>>::provide_spec(self) is Err {
            Err(<P as Provide<T1, E>>::provide_spec(self)->Err_0)
        } else if <P as Provide<T2, E>>::provide_spec(self) is Err {
            Err(<P as Provide<T2, E>>::provide_spec(self)->Err_0)
        } else if <P as Provide<T3, E>>::provide_spec(self) is Err {
            Err(<P as Provide<T3, E>>::provide_spec(self)->Err_0)
        } else if <P as Provide<T4, E>>::provide_spec(self) is Err {
            Err(<P as Provide<T4, E>>::provide_spec(self)->Err_0)
        } else if <P as Provide<T5, E>>::provide_spec(self) is Err {
            Err(<P as Provide<T5, E>>::provide_spec(self)->Err_0)
        } else if <P as Provide<T6, E>>::provide_spec(self) is Err {
            Err(<P as Provide<T6, E>>::provide_spec(self)->Err_0)
        } else if <P as Provide<T7, E>>::provide_spec(self) is Err {
            Err(<P as Provide<T7, E>>::provide_spec(self)->Err_0)
        } else if <P as Provide<T8, E>>::provide_spec(self) is Err {
            Err(<P as Provide<T8, E>>::provide_spec(self)->Err_0)
        } else if <P as Provide<T9, E>>::provide_spec(self) is Err {
            Err(<P as Provide<T9, E>>::provide_spec(self)->Err_0)
        } else if <P as Provide<T10, E>>::provide_spec(self) is Err {
            Err(<P as Provide<T10, E>>::provide_spec(self)->Err_0)
        } else if <P as Provide<T11, E>>::provide_spec(self) is Err {
            Err(<P as Provide<T11, E>>::provide_spec(self)->Err_0)
        } else if <P as Provide<T12, E>>::provide_spec(self) is Err {
            Err(<P as Provide<T12, E>>::provide_spec(self)->Err_0)
        } else if <P as Provide<T13, E>>::provide_spec(self) is Err {
            Err(<P as Provide<T13, E>>::provide_spec(self)->Err_0)
        } else if <P as Provide<T14, E>>::provide_spec(self) is Err {
            Err(<P as Provide<T14, E>>::provide_spec(self)->Err_0)
        } else if <P as Provide<T15, E>>::provide_spec(self) is Err {
            Err(<P as Provide<T15, E>>::provide_spec(self)->Err_0)
        } else if <P as Provide<T16, E>>::provide_spec(self) is Err {
            Err(<P as Provide<T16, E>>::provide_spec(self)->Err_0)
        } else if <P as Provide<T17, E>>::provide_spec(self) is Err {
            Err(<P as Provide<T17, E>>::provide_spec(self)->Err_0)
        } else if <P as Provide<T18, E>>::provide_spec(self) is Err {
            Err(<P as Provide<T18, E>>::provide_spec(self)->Err_0)
        } else if <P as Provide<T19, E>>::provide_spec(self) is Err {
            Err(<P as Provide<T19, E>>::provide_spec(self)->Err_0)
        } else {
            Ok((<P as Provide<T1, E>>::provide_spec(self)->Ok_0, <P as Provide<T2, E>>::provide_spec(self)->Ok_0, <P as Provide<T3, E>>::provide_spec(self)->Ok_0, <P as Provide<T4, E>>::provide_spec(self)->Ok_0, <P as Provide<T5, E>>::provide_spec(self)->Ok_0, <P as Provide<T6, E>>::provide_spec(self)->Ok_0, <P as Provide<T7, E>>::provide_spec(self)->Ok_0, <P as Provide<T8, E>>::provide_spec(self)->Ok_0, <P as Provide<T9, E>>::provide_spec(self)->Ok_0, <P as Provide<T10, E>>::provide_spec(self)->Ok_0, <P as Provide<T11, E>>::provide_spec(self)->Ok_0, <P as Provide<T12, E>>::provide_spec(self)->Ok_0, <P as Provide<T13, E>>::provide_spec(self)->Ok_0, <P as Provide<T14, E>>::provide_spec(self)->Ok_0, <P as Provide<T15, E>>::provide_spec(self)->Ok_0, <P as Provide<T16, E>>::provide_spec(self)->Ok_0, <P as Provide<T17, E>>::provide_spec(self)->Ok_0, <P as Provide<T18, E>>::provide_spec(self)->Ok_0, <P as Provide<T19, E>>::provide_spec(self)->Ok_0))
        }
    }

    fn provide(&self) -> (r: Result<(T1, T2, T3, T4, T5, T6, T7, T8, T9, T10, T11, T12, T13, T14, T15, T16, T17, T18, T19), E>) {
        let x1 = match <P as Provide<T1, E>>::provide(self) {
            Ok(v) => v,
            Err(e) => {
                return Err(e);
            },
        };
        let x2 = match <P as Provide<T2, E>>::provide(self) {
            Ok(v) => v,
            Err(e) => {
                return Err(e);
            },
        };
        let x3 = match <P as Provide<T3, E>>::provide(self) {
            Ok(v) => v,
            Err(e) => {
                return Err(e);
            },
        };
        let x4 = match <P as Provide<T4, E>>::provide(self) {
            Ok(v) => v,
            Err(e) => {
                return Err(e);
            },
        };
        let x5 = match <P as Provide<T5, E>>::provide(self) {
            Ok(v) => v,
            Err(e) => {
                return Err(e);
            },
        };
        let x6 = match <P as Provide<T6, E>>::provide(self) {
            Ok(v) => v,
            Err(e) => {
                return Err(e);
            },
        };
        let x7 = match <P as Provide<T7, E>>::provide(self) {
            Ok(v) => v,
            Err(e) => {
                return Err(e);
            },
        };
        let x8 = match <P as Provide<T8, E>>::provide(self) {
            Ok(v) => v,
            Err(e) => {
                return Err(e);
            },
        };
        let x9 = match <P as Provide<T9, E>>::provide(self) {
            Ok(v) => v,
            Err(e) => {
                return Err(e);
            },
        };
        let x10 = match <P as Provide<T10, E>>::provide(self) {
            Ok(v) => v,
            Err(e) => {
                return Err(e);
            },
        };
        let x11 = match <P as Provide<T11, E>>::provide(self) {
            Ok(v) => v,
            Err(e) => {
                return Err(e);
            },
        };
        let x12 = match <P as Provide<T12, E>>::provide(self) {
            Ok(v) => v,
            Err(e) => {
                return Err(e);
            },
        };
        let x13 = match <P as Provide<T13, E>>::provide(self) {
            Ok(v) => v,
            Err(e) => {
                return Err(e);
            },
        };
        let x14 = match <P as Provide<T14, E>>::provide(self) {
            Ok(v) => v,
            Err(e) => {
                return Err(e);
            },
        };
        let x15 = match <P as Provide<T15, E>>::provide(self) {
            Ok(v) => v,
            Err(e) => {
                return Err(e);
            },
        };
        let x16 = match <P as Provide<T16, E>>::provide(self) {
            Ok(v) => v,
            Err(e) => {
                return Err(e);
            },
        };
        let x17 = match <P as Provide<T17, E>>::provide(self) {
            Ok(v) => v,
            Err(e) => {
                return Err(e);
            },
        };
        let x18 = match <P as Provide<T18, E>>::provide(self) {
            Ok(v) => v,
            Err(e) => {
                return Err(e);
            },
        };
        let x19 = match <P as Provide<T19, E>>::provide(self) {
            Ok(v) => v,
            Err(e) => {
                return Err(e);
            },
        };
        Ok((x1, x2, x3, x4, x5, x6, x7, x8, x9, x10, x11, x12, x13, x14, x15, x16, x17, x18, x19))
    }
}

impl<Func, Out, P, E, T1, T2, T3, T4, T5, T6, T7, T8, T9, T10, T11, T12, T13, T14, T15, T16, T17, T18, T19> Caller<(T1, T2, T3, T4, T5, T6, T7, T8, T9, T10, T11, T12, T13, T14, T15, T16, T17, T18, T19), P, E> for Func where
    Func: Fn(T1, T2, T3, T4, T5, T6, T7, T8, T9, T10, T11, T12, T13, T14, T15, T16, T17, T18, T19) -> Out,
    P: Provide<T1, E> + Provide<T2, E> + Provide<T3, E> + Provide<T4, E> + Provide<T5, E> + Provide<T6, E> + Provide<T7, E> + Provide<T8, E> + Provide<T9, E> + Provide<T10, E> + Provide<T11, E> + Provide<T12, E> + Provide<T13, E> + Provide<T14, E> + Provide<T15, E> + Provide<T16, E> + Provide<T17, E> + Provide<T18, E> + Provide<T19, E>,
 {
    type Output = Out;

    open spec fn req(&self, args: (T1, T2, T3, T4, T5, T6, T7, T8, T9, T10, T11, T12, T13, T14, T15, T16, T17, T18, T19)) -> bool {
        call_requires(*self, args)
    }

    open spec fn ens(&self, args: (T1, T2, T3, T4, T5, T6, T7, T8, T9, T10, T11, T12, T13, T14, T15, T16, T17, T18, T19), output: Out) -> bool {
        call_ensures(*self, args, output)
    }

    fn call(&self, args: (T1, T2, T3, T4, T5, T6, T7, T8, T9, T10, T11, T12, T13, T14, T15, T16, T17, T18, T19)) -> (output: Out) {
        let (x1, x2, x3, x4, x5, x6, x7, x8, x9, x10, x11, x12, x13, x14, x15, x16, x17, x18, x19) = args;
        (self)(x1, x2, x3, x4, x5, x6, x7, x8, x9, x10, x11, x12, x13, x14, x15, x16, x17, x18, x19)
    }
}

impl<P, E, T1, T2, T3, T4, T5, T6, T7, T8, T9, T10, T11, T12, T13, T14, T15, T16, T17, T18, T19, T20> Provide<(T1, T2, T3, T4, T5, T6, T7, T8, T9, T10, T11, T12, T13, T14, T15, T16, T17, T18, T19, T20), E> for P where P: Provide<T1, E> + Provide<T2, E> + Provide<T3, E> + Provide<T4, E> + Provide<T5, E> + Provide<T6, E> + Provide<T7, E> + Provide<T8, E> + Provide<T9, E> + Provide<T10, E> + Provide<T11, E> + Provide<T12, E> + Provide<T13, E> + Provide<T14, E> + Provide<T15, E> + Provide<T16, E> + Provide<T17, E> + Provide<T18, E> + Provide<T19, E> + Provide<T20, E> {
    open spec fn provide_spec(&self) -> Result<(T1, T2, T3, T4, T5, T6, T7, T8, T9, T10, T11, T12, T13, T14, T15, T16, T17, T18, T19, T20), E> {
        if <P as Provide<T1, E>>::provide_spec(self) is Err {
            Err(<P as Provide<T1, E>>::provide_spec(self)->Err_0)
        } else if <P as Provide<T2, E>>::provide_spec(self) is Err {
            Err(<P as Provide<T2, E>>::provide_spec(self)->Err_0)
        } else if <P as Provide<T3, E>>::provide_spec(self) is Err {
            Err(<P as Provide<T3, E>>::provide_spec(self)->Err_0)
        } else if <P as Provide<T4, E>>::provide_spec(self) is Err {
            Err(<P as Provide<T4, E>>::provide_spec(self)->Err_0)
        } else if <P as Provide<T5, E>>::provide_spec(self) is Err {
            Err(<P as Provide<T5, E>>::provide_spec(self)->Err_0)
        } else if <P as Provide<T6, E>>::provide_spec(self) is Err {
            Err(<P as Provide<T6, E>>::provide_spec(self)->Err_0)
        } else if <P as Provide<T7, E>>::provide_spec(self) is Err {
            Err(<P as Provide<T7, E>>::provide_spec(self)->Err_0)
        } else if <P as Provide<T8, E>>::provide_spec(self) is Err {
            Err(<P as Provide<T8, E>>::provide_spec(self)->Err_0)
        } else if <P as Provide<T9, E>>::provide_spec(self) is Err {
            Err(<P as Provide<T9, E>>::provide_spec(self)->Err_0)
        } else if <P as Provide<T10, E>>::provide_spec(self) is Err {
            Err(<P as Provide<T10, E>>::provide_spec(self)->Err_0)
        } else if <P as Provide<T11, E>>::provide_spec(self) is Err {
            Err(<P as Provide<T11, E>>::provide_spec(self)->Err_0)
        } else if <P as Provide<T12, E>>::provide_spec(self) is Err {
            Err(<P as Provide<T12, E>>::provide_spec(self)->Err_0)
        } else if <P as Provide<T13, E>>::provide_spec(self) is Err {
            Err(<P as Provide<T13, E>>::provide_spec(self)->Err_0)
        } else if <P as Provide<T14, E>>::provide_spec(self) is Err {
            Err(<P as Provide<T14, E>>::provide_spec(self)->Err_0)
        } else if <P as Provide<T15, E>>::provide_spec(self) is Err {
            Err(<P as Provide<T15, E>>::provide_spec(self)->Err_0)
        } else if <P as Provide<T16, E>>::provide_spec(self) is Err {
            Err(<P as Provide<T16, E>>::provide_spec(self)->Err_0)
        } else if <P as Provide<T17, E>>::provide_spec(self) is Err {
            Err(<P as Provide<T17, E>>::provide_spec(self)->Err_0)
        } else if <P as Provide<T18, E>>::provide_spec(self) is Err {
            Err(<P as Provide<T18, E>>::provide_spec(self)->Err_0)
        } else if <P as Provide<T19, E>>::provide_spec(self) is Err {
            Err(<P as Provide<T19, E>>::provide_spec(self)->Err_0)
        } else if <P as Provide<T20, E>>::provide_spec(self) is Err {
            Err(<P as Provide<T20, E>>::provide_spec(self)->Err_0)
        } else {
            Ok((<P as Provide<T1, E>>::provide_spec(self)->Ok_0, <P as Provide<T2, E>>::provide_spec(self)->Ok_0, <P as Provide<T3, E>>::provide_spec(self)->Ok_0, <P as Provide<T4, E>>::provide_spec(self)->Ok_0, <P as Provide<T5, E>>::provide_spec(self)->Ok_0, <P as Provide<T6, E>>::provide_spec(self)->Ok_0, <P as Provide<T7, E>>::provide_spec(self)->Ok_0, <P as Provide<T8, E>>::provide_spec(self)->Ok_0, <P as Provide<T9, E>>::provide_spec(self)->Ok_0, <P as Provide<T10, E>>::provide_spec(self)->Ok_0, <P as Provide<T11, E>>::provide_spec(self)->Ok_0, <P as Provide<T12, E>>::provide_spec(self)->Ok_0, <P as Provide<T13, E>>::provide_spec(self)->Ok_0, <P as Provide<T14, E>>::provide_spec(self)->Ok_0, <P as Provide<T15, E>>::provide_spec(self)->Ok_0, <P as Provide<T16, E>>::provide_spec(self)->Ok_0, <P as Provide<T17, E>>::provide_spec(self)->Ok_0, <P as Provide<T18, E>>::provide_spec(self)->Ok_0, <P as Provide<T19, E>>::provide_spec(self)->Ok_0, <P as Provide<T20, E>>::provide_spec(self)->Ok_0))
        }
    }

    fn provide(&self) -> (r: Result<(T1, T2, T3, T4, T5, T6, T7, T8, T9, T10, T11, T12, T13, T14, T15, T16, T17, T18, T19, T20), E>) {
        let x1 = match <P as Provide<T1, E>>::provide(self) {
            Ok(v) => v,
            Err(e) => {
                return Err(e);
            },
        };
        let x2 = match <P as Provide<T2, E>>::provide(self) {
            Ok(v) => v,
            Err(e) => {
                return Err(e);
            },
        };
        let x3 = match <P as Provide<T3, E>>::provide(self) {
            Ok(v) => v,
            Err(e) => {
                return Err(e);
            },
        };
        let x4 = match <P as Provide<T4, E>>::provide(self) {
            Ok(v) => v,
            Err(e) => {
                return Err(e);
            },
        };
        let x5 = match <P as Provide<T5, E>>::provide(self) {
            Ok(v) => v,
            Err(e) => {
                return Err(e);
            },
        };
        let x6 = match <P as Provide<T6, E>>::provide(self) {
            Ok(v) => v,
            Err(e) => {
                return Err(e);
            },
        };
        let x7 = match <P as Provide<T7, E>>::provide(self) {
            Ok(v) => v,
            Err(e) => {
                return Err(e);
            },
        };
        let x8 = match <P as Provide<T8, E>>::provide(self) {
            Ok(v) => v,
            Err(e) => {
                return Err(e);
            },
        };
        let x9 = match <P as Provide<T9, E>>::provide(self) {
            Ok(v) => v,
            Err(e) => {
                return Err(e);
            },
        };
        let x10 = match <P as Provide<T10, E>>::provide(self) {
            Ok(v) => v,
            Err(e) => {
                return Err(e);
            },
        };
        let x11 = match <P as Provide<T11, E>>::provide(self) {
            Ok(v) => v,
            Err(e) => {
                return Err(e);
            },
        };
        let x12 = match <P as Provide<T12, E>>::provide(self) {
            Ok(v) => v,
            Err(e) => {
                return Err(e);
            },
        };
        let x13 = match <P as Provide<T13, E>>::provide(self) {
            Ok(v) => v,
            Err(e) => {
                return Err(e);
            },
        };
        let x14 = match <P as Provide<T14, E>>::provide(self) {
            Ok(v) => v,
            Err(e) => {
                return Err(e);
            },
        };
        let x15 = match <P as Provide<T15, E>>::provide(self) {
            Ok(v) => v,
            Err(e) => {
                return Err(e);
            },
        };
        let x16 = match <P as Provide<T16, E>>::provide(self) {
            Ok(v) => v,
            Err(e) => {
                return Err(e);
            },
        };
        let x17 = match <P as Provide<T17, E>>::provide(self) {
            Ok(v) => v,
            Err(e) => {
                return Err(e);
            },
        };
        let x18 = match <P as Provide<T18, E>>::provide(self) {
            Ok(v) => v,
            Err(e) => {
                return Err(e);
            },
        };
        let x19 = match <P as Provide<T19, E>>::provide(self) {
            Ok(v) => v,
            Err(e) => {
                return Err(e);
            },
        };
        let x20 = match <P as Provide<T20, E>>::provide(self) {
            Ok(v) => v,
            Err(e) => {
                return Err(e);
            },
        };
        Ok((x1, x2, x3, x4, x5, x6, x7, x8, x9, x10, x11, x12, x13, x14, x15, x16, x17, x18, x19, x20))
    }
}

impl<Func, Out, P, E, T1, T2, T3, T4, T5, T6, T7, T8, T9, T10, T11, T12, T13, T14, T15, T16, T17, T18, T19, T20> Caller<(T1, T2, T3, T4, T5, T6, T7, T8, T9, T10, T11, T12, T13, T14, T15, T16, T17, T18, T19, T20), P, E> for Func where
    Func: Fn(T1, T2, T3, T4, T5, T6, T7, T8, T9, T10, T11, T12, T13, T14, T15, T16, T17, T18, T19, T20) -> Out,
    P: Provide<T1, E> + Provide<T2, E> + Provide<T3, E> + Provide<T4, E> + Provide<T5, E> + Provide<T6, E> + Provide<T7, E> + Provide<T8, E> + Provide<T9, E> + Provide<T10, E> + Provide<T11, E> + Provide<T12, E> + Provide<T13, E> + Provide<T14, E> + Provide<T15, E> + Provide<T16, E> + Provide<T17, E> + Provide<T18, E> + Provide<T19, E> + Provide<T20, E>,
 {
    type Output = Out;

    open spec fn req(&self, args: (T1, T2, T3, T4, T5, T6, T7, T8, T9, T10, T11, T12, T13, T14, T15, T16, T17, T18, T19, T20)) -> bool {
        call_requires(*self, args)
    }

    open spec fn ens(&self, args: (T1, T2, T3, T4, T5, T6, T7, T8, T9, T10, T11, T12, T13, T14, T15, T16, T17, T18, T19, T20), output: Out) -> bool {
        call_ensures(*self, args, output)
    }

    fn call(&self, args: (T1, T2, T3, T4, T5, T6, T7, T8, T9, T10, T11, T12, T13, T14, T15, T16, T17, T18, T19, T20)) -> (output: Out) {
        let (x1, x2, x3, x4, x5, x6, x7, x8, x9, x10, x11, x12, x13, x14, x15, x16, x17, x18, x19, x20) = args;
        (self)(x1, x2, x3, x4, x5, x6, x7, x8, x9, x10, x11, x12, x13, x14, x15, x16, x17, x18, x19, x20)
    }
}

impl<P, E, T1, T2, T3, T4, T5, T6, T7, T8, T9, T10, T11, T12, T13, T14, T15, T16, T17, T18, T19, T20, T21> Provide<(T1, T2, T3, T4, T5, T6, T7, T8, T9, T10, T11, T12, T13, T14, T15, T16, T17, T18, T19, T20, T21), E> for P where P: Provide<T1, E> + Provide<T2, E> + Provide<T3, E> + Provide<T4, E> + Provide<T5, E> + Provide<T6, E> + Provide<T7, E> + Provide<T8, E> + Provide<T9, E> + Provide<T10, E> + Provide<T11, E> + Provide<T12, E> + Provide<T13, E> + Provide<T14, E> + Provide<T15, E> + Provide<T16, E> + Provide<T17, E> + Provide<T18, E> + Provide<T19, E> + Provide<T20, E> + Provide<T21, E> {
    open spec fn provide_spec(&self) -> Result<(T1, T2, T3, T4, T5, T6, T7, T8, T9, T10, T11, T12, T13, T14, T15, T16, T17, T18, T19, T20, T21), E> {
        if <P as Provide<T1, E>>::provide_spec(self) is Err {
            Err(<P as Provide<T1, E>>::provide_spec(self)->Err_0)
        } else if <P as Provide<T2, E>>::provide_spec(self) is Err {
            Err(<P as Provide<T2, E>>::provide_spec(self)->Err_0)
        } else if <P as Provide<T3, E>>::provide_spec(self) is Err {
            Err(<P as Provide<T3, E>>::provide_spec(self)->Err_0)
        } else if <P as Provide<T4, E>>::provide_spec(self) is Err {
            Err(<P as Provide<T4, E>>::provide_spec(self)->Err_0)
        } else if <P as Provide<T5, E>>::provide_spec(self) is Err {
            Err(<P as Provide<T5, E>>::provide_spec(self)->Err_0)
        } else if <P as Provide<T6, E>>::provide_spec(self) is Err {
            Err(<P as Provide<T6, E>>::provide_spec(self)->Err_0)
        } else if <P as Provide<T7, E>>::provide_spec(self) is Err {
            Err(<P as Provide<T7, E>>::provide_spec(self)->Err_0)
        } else if <P as Provide<T8, E>>::provide_spec(self) is Err {
            Err(<P as Provide<T8, E>>::provide_spec(self)->Err_0)
        } else if <P as Provide<T9, E>>::provide_spec(self) is Err {
            Err(<P as Provide<T9, E>>::provide_spec(self)->Err_0)
        } else if <P as Provide<T10, E>>::provide_spec(self) is Err {
            Err(<P as Provide<T10, E>>::provide_spec(self)->Err_0)
        } else if <P as Provide<T11, E>>::provide_spec(self) is Err {
            Err(<P as Provide<T11, E>>::provide_spec(self)->Err_0)
        } else if <P as Provide<T12, E>>::provide_spec(self) is Err {
            Err(<P as Provide<T12, E>>::provide_spec(self)->Err_0)
        } else if <P as Provide<T13, E>>::provide_spec(self) is Err {
            Err(<P as Provide<T13, E>>::provide_spec(self)->Err_0)
        } else if <P as Provide<T14, E>>::provide_spec(self) is Err {
            Err(<P as Provide<T14, E>>::provide_spec(self)->Err_0)
        } else if <P as Provide<T15, E>>::provide_spec(self) is Err {
            Err(<P as Provide<T15, E>>::provide_spec(self)->Err_0)
        } else if <P as Provide<T16, E>>::provide_spec(self) is Err {
            Err(<P as Provide<T16, E>>::provide_spec(self)->Err_0)
        } else if <P as Provide<T17, E>>::provide_spec(self) is Err {
            Err(<P as Provide<T17, E>>::provide_spec(self)->Err_0)
        } else if <P as Provide<T18, E>>::provide_spec(self) is Err {
            Err(<P as Provide<T18, E>>::provide_spec(self)->Err_0)
        } else if <P as Provide<T19, E>>::provide_spec(self) is Err {
            Err(<P as Provide<T19, E>>::provide_spec(self)->Err_0)
        } else if <P as Provide<T20, E>>::provide_spec(self) is Err {
            Err(<P as Provide<T20, E>>::provide_spec(self)->Err_0)
        } else if <P as Provide<T21, E>>::provide_spec(self) is Err {
            Err(<P as Provide<T21, E>>::provide_spec(self)->Err_0)
        } else {
            Ok((<P as Provide<T1, E>>::provide_spec(self)->Ok_0, <P as Provide<T2, E>>::provide_spec(self)->Ok_0, <P as Provide<T3, E>>::provide_spec(self)->Ok_0, <P as Provide<T4, E>>::provide_spec(self)->Ok_0, <P as Provide<T5, E>>::provide_spec(self)->Ok_0, <P as Provide<T6, E>>::provide_spec(self)->Ok_0, <P as Provide<T7, E>>::provide_spec(self)->Ok_0, <P as Provide<T8, E>>::provide_spec(self)->Ok_0, <P as Provide<T9, E>>::provide_spec(self)->Ok_0, <P as Provide<T10, E>>::provide_spec(self)->Ok_0, <P as Provide<T11, E>>::provide_spec(self)->Ok_0, <P as Provide<T12, E>>::provide_spec(self)->Ok_0, <P as Provide<T13, E>>::provide_spec(self)->Ok_0, <P as Provide<T14, E>>::provide_spec(self)->Ok_0, <P as Provide<T15, E>>::provide_spec(self)->Ok_0, <P as Provide<T16, E>>::provide_spec(self)->Ok_0, <P as Provide<T17, E>>::provide_spec(self)->Ok_0, <P as Provide<T18, E>>::provide_spec(self)->Ok_0, <P as Provide<T19, E>>::provide_spec(self)->Ok_0, <P as Provide<T20, E>>::provide_spec(self)->Ok_0, <P as Provide<T21, E>>::provide_spec(self)->Ok_0))
        }
    }

    fn provide(&self) -> (r: Result<(T1, T2, T3, T4, T5, T6, T7, T8, T9, T10, T11, T12, T13, T14, T15, T16, T17, T18, T19, T20, T21), E>) {
        let x1 = match <P as Provide<T1, E>>::provide(self) {
            Ok(v) => v,
            Err(e) => {
                return Err(e);
            },
        };
        let x2 = match <P as Provide<T2, E>>::provide(self) {
            Ok(v) => v,
            Err(e) => {
                return Err(e);
            },
        };
        let x3 = match <P as Provide<T3, E>>::provide(self) {
            Ok(v) => v,
            Err(e) => {
                return Err(e);
            },
        };
        let x4 = match <P as Provide<T4, E>>::provide(self) {
            Ok(v) => v,
            Err(e) => {
                return Err(e);
            },
        };
        let x5 = match <P as Provide<T5, E>>::provide(self) {
            Ok(v) => v,
            Err(e) => {
                return Err(e);
            },
        };
        let x6 = match <P as Provide<T6, E>>::provide(self) {
            Ok(v) => v,
            Err(e) => {
                return Err(e);
            },
        };
        let x7 = match <P as Provide<T7, E>>::provide(self) {
            Ok(v) => v,
            Err(e) => {
                return Err(e);
            },
        };
        let x8 = match <P as Provide<T8, E>>::provide(self) {
            Ok(v) => v,
            Err(e) => {
                return Err(e);
            },
        };
        let x9 = match <P as Provide<T9, E>>::provide(self) {
            Ok(v) => v,
            Err(e) => {
                return Err(e);
            },
        };
        let x10 = match <P as Provide<T10, E>>::provide(self) {
            Ok(v) => v,
            Err(e) => {
                return Err(e);
            },
        };
        let x11 = match <P as Provide<T11, E>>::provide(self) {
            Ok(v) => v,
            Err(e) => {
                return Err(e);
            },
        };
        let x12 = match <P as Provide<T12, E>>::provide(self) {
            Ok(v) => v,
            Err(e) => {
                return Err(e);
            },
        };
        let x13 = match <P as Provide<T13, E>>::provide(self) {
            Ok(v) => v,
            Err(e) => {
                return Err(e);
            },
        };
        let x14 = match <P as Provide<T14, E>>::provide(self) {
            Ok(v) => v,
            Err(e) => {
                return Err(e);
            },
        };
        let x15 = match <P as Provide<T15, E>>::provide(self) {
            Ok(v) => v,
            Err(e) => {
                return Err(e);
            },
        };
        let x16 = match <P as Provide<T16, E>>::provide(self) {
            Ok(v) => v,
            Err(e) => {
                return Err(e);
            },
        };
        let x17 = match <P as Provide<T17, E>>::provide(self) {
            Ok(v) => v,
            Err(e) => {
                return Err(e);
            },
        };
        let x18 = match <P as Provide<T18, E>>::provide(self) {
            Ok(v) => v,
            Err(e) => {
                return Err(e);
            },
        };
        let x19 = match <P as Provide<T19, E>>::provide(self) {
            Ok(v) => v,
            Err(e) => {
                return Err(e);
            },
        };
        let x20 = match <P as Provide<T20, E>>::provide(self) {
            Ok(v) => v,
            Err(e) => {
                return Err(e);
            },
        };
        let x21 = match <P as Provide<T21, E>>::provide(self) {
            Ok(v) => v,
            Err(e) => {
                return Err(e);
            },
        };
        Ok((x1, x2, x3, x4, x5, x6, x7, x8, x9, x10, x11, x12, x13, x14, x15, x16, x17, x18, x19, x20, x21))
    }
}

impl<Func, Out, P, E, T1, T2, T3, T4, T5, T6, T7, T8, T9, T10, T11, T12, T13, T14, T15, T16, T17, T18, T19, T20, T21> Caller<(T1, T2, T3, T4, T5, T6, T7, T8, T9, T10, T11, T12, T13, T14, T15, T16, T17, T18, T19, T20, T21), P, E> for Func where
    Func: Fn(T1, T2, T3, T4, T5, T6, T7, T8, T9, T10, T11, T12, T13, T14, T15, T16, T17, T18, T19, T20, T21) -> Out,
    P: Provide<T1, E> + Provide<T2, E> + Provide<T3, E> + Provide<T4, E> + Provide<T5, E> + Provide<T6, E> + Provide<T7, E> + Provide<T8, E> + Provide<T9, E> + Provide<T10, E> + Provide<T11, E> + Provide<T12, E> + Provide<T13, E> + Provide<T14, E> + Provide<T15, E> + Provide<T16, E> + Provide<T17, E> + Provide<T18, E> + Provide<T19, E> + Provide<T20, E> + Provide<T21, E>,
 {
    type Output = Out;

    open spec fn req(&self, args: (T1, T2, T3, T4, T5, T6, T7, T8, T9, T10, T11, T12, T13, T14, T15, T16, T17, T18, T19, T20, T21)) -> bool {
        call_requires(*self, args)
    }

    open spec fn ens(&self, args: (T1, T2, T3, T4, T5, T6, T7, T8, T9, T10, T11, T12, T13, T14, T15, T16, T17, T18, T19, T20, T21), output: Out) -> bool {
        call_ensures(*self, args, output)
    }

    fn call(&self, args: (T1, T2, T3, T4, T5, T6, T7, T8, T9, T10, T11, T12, T13, T14, T15, T16, T17, T18, T19, T20, T21)) -> (output: Out) {
        let (x1, x2, x3, x4, x5, x6, x7, x8, x9, x10, x11, x12, x13, x14, x15, x16, x17, x18, x19, x20, x21) = args;
        (self)(x1, x2, x3, x4, x5, x6, x7, x8, x9, x10, x11, x12, x13, x14, x15, x16, x17, x18, x19, x20, x21)
    }
}

impl<P, E, T1, T2, T3, T4, T5, T6, T7, T8, T9, T10, T11, T12, T13, T14, T15, T16, T17, T18, T19, T20, T21, T22> Provide<(T1, T2, T3, T4, T5, T6, T7, T8, T9, T10, T11, T12, T13, T14, T15, T16, T17, T18, T19, T20, T21, T22), E> for P where P: Provide<T1, E> + Provide<T2, E> + Provide<T3, E> + Provide<T4, E> + Provide<T5, E> + Provide<T6, E> + Provide<T7, E> + Provide<T8, E> + Provide<T9, E> + Provide<T10, E> + Provide<T11, E> + Provide<T12, E> + Provide<T13, E> + Provide<T14, E> + Provide<T15, E> + Provide<T16, E> + Provide<T17, E> + Provide<T18, E> + Provide<T19, E> + Provide<T20, E> + Provide<T21, E> + Provide<T22, E> {
    open spec fn provide_spec(&self) -> Result<(T1, T2, T3, T4, T5, T6, T7, T8, T9, T10, T11, T12, T13, T14, T15, T16, T17, T18, T19, T20, T21, T22), E> {
        if <P as Provide<T1, E>>::provide_spec(self) is Err {
            Err(<P as Provide<T1, E>>::provide_spec(self)->Err_0)
        } else if <P as Provide<T2, E>>::provide_spec(self) is Err {
            Err(<P as Provide<T2, E>>::provide_spec(self)->Err_0)
        } else if <P as Provide<T3, E>>::provide_spec(self) is Err {
            Err(<P as Provide<T3, E>>::provide_spec(self)->Err_0)
        } else if <P as Provide<T4, E>>::provide_spec(self) is Err {
            Err(<P as Provide<T4, E>>::provide_spec(self)->Err_0)
        } else if <P as Provide<T5, E>>::provide_spec(self) is Err {
            Err(<P as Provide<T5, E>>::provide_spec(self)->Err_0)
        } else if <P as Provide<T6, E>>::provide_spec(self) is Err {
            Err(<P as Provide<T6, E>>::provide_spec(self)->Err_0)
        } else if <P as Provide<T7, E>>::provide_spec(self) is Err {
            Err(<P as Provide<T7, E>>::provide_spec(self)->Err_0)
        } else if <P as Provide<T8, E>>::provide_spec(self) is Err {
            Err(<P as Provide<T8, E>>::provide_spec(self)->Err_0)
        } else if <P as Provide<T9, E>>::provide_spec(self) is Err {
            Err(<P as Provide<T9, E>>::provide_spec(self)->Err_0)
        } else if <P as Provide<T10, E>>::provide_spec(self) is Err {
            Err(<P as Provide<T10, E>>::provide_spec(self)->Err_0)
        } else if <P as Provide<T11, E>>::provide_spec(self) is Err {
            Err(<P as Provide<T11, E>>::provide_spec(self)->Err_0)
        } else if <P as Provide<T12, E>>::provide_spec(self) is Err {
            Err(<P as Provide<T12, E>>::provide_spec(self)->Err_0)
        } else if <P as Provide<T13, E>>::provide_spec(self) is Err {
            Err(<P as Provide<T13, E>>::provide_spec(self)->Err_0)
        } else if <P as Provide<T14, E>>::provide_spec(self) is Err {
            Err(<P as Provide<T14, E>>::provide_spec(self)->Err_0)
        } else if <P as Provide<T15, E>>::provide_spec(self) is Err {
            Err(<P as Provide<T15, E>>::provide_spec(self)->Err_0)
        } else if <P as Provide<T16, E>>::provide_spec(self) is Err {
            Err(<P as Provide<T16, E>>::provide_spec(self)->Err_0)
        } else if <P as Provide<T17, E>>::provide_spec(self) is Err {
            Err(<P as Provide<T17, E>>::provide_spec(self)->Err_0)
        } else if <P as Provide<T18, E>>::provide_spec(self) is Err {
            Err(<P as Provide<T18, E>>::provide_spec(self)->Err_0)
        } else if <P as Provide<T19, E>>::provide_spec(self) is Err {
            Err(<P as Provide<T19, E>>::provide_spec(self)->Err_0)
        } else if <P as Provide<T20, E>>::provide_spec(self) is Err {
            Err(<P as Provide<T20, E>>::provide_spec(self)->Err_0)
        } else if <P as Provide<T21, E>>::provide_spec(self) is Err {
            Err(<P as Provide<T21, E>>::provide_spec(self)->Err_0)
        } else if <P as Provide<T22, E>>::provide_spec(self) is Err {
            Err(<P as Provide<T22, E>>::provide_spec(self)->Err_0)
        } else {
            Ok((<P as Provide<T1, E>>::provide_spec(self)->Ok_0, <P as Provide<T2, E>>::provide_spec(self)->Ok_0, <P as Provide<T3, E>>::provide_spec(self)->Ok_0, <P as Provide<T4, E>>::provide_spec(self)->Ok_0, <P as Provide<T5, E>>::provide_spec(self)->Ok_0, <P as Provide<T6, E>>::provide_spec(self)->Ok_0, <P as Provide<T7, E>>::provide_spec(self)->Ok_0, <P as Provide<T8, E>>::provide_spec(self)->Ok_0, <P as Provide<T9, E>>::provide_spec(self)->Ok_0, <P as Provide<T10, E>>::provide_spec(self)->Ok_0, <P as Provide<T11, E>>::provide_spec(self)->Ok_0, <P as Provide<T12, E>>::provide_spec(self)->Ok_0, <P as Provide<T13, E>>::provide_spec(self)->Ok_0, <P as Provide<T14, E>>::provide_spec(self)->Ok_0, <P as Provide<T15, E>>::provide_spec(self)->Ok_0, <P as Provide<T16, E>>::provide_spec(self)->Ok_0, <P as Provide<T17, E>>::provide_spec(self)->Ok_0, <P as Provide<T18, E>>::provide_spec(self)->Ok_0, <P as Provide<T19, E>>::provide_spec(self)->Ok_0, <P as Provide<T20, E>>::provide_spec(self)->Ok_0, <P as Provide<T21, E>>::provide_spec(self)->Ok_0, <P as Provide<T22, E>>::provide_spec(self)->Ok_0))
        }
    }

    fn provide(&self) -> (r: Result<(T1, T2, T3, T4, T5, T6, T7, T8, T9, T10, T11, T12, T13, T14, T15, T16, T17, T18, T19, T20, T21, T22), E>) {
        let x1 = match <P as Provide<T1, E>>::provide(self) {
            Ok(v) => v,
            Err(e) => {
                return Err(e);
            },
        };
        let x2 = match <P as Provide<T2, E>>::provide(self) {
            Ok(v) => v,
            Err(e) => {
                return Err(e);
            },
        };
        let x3 = match <P as Provide<T3, E>>::provide(self) {
            Ok(v) => v,
            Err(e) => {
                return Err(e);
            },
        };
        let x4 = match <P as Provide<T4, E>>::provide(self) {
            Ok(v) => v,
            Err(e) => {
                return Err(e);
            },
        };
        let x5 = match <P as Provide<T5, E>>::provide(self) {
            Ok(v) => v,
            Err(e) => {
                return Err(e);
            },
        };
        let x6 = match <P as Provide<T6, E>>::provide(self) {
            Ok(v) => v,
            Err(e) => {
                return Err(e);
            },
        };
        let x7 = match <P as Provide<T7, E>>::provide(self) {
            Ok(v) => v,
            Err(e) => {
                return Err(e);
            },
        };
        let x8 = match <P as Provide<T8, E>>::provide(self) {
            Ok(v) => v,
            Err(e) => {
                return Err(e);
            },
        };
        let x9 = match <P as Provide<T9, E>>::provide(self) {
            Ok(v) => v,
            Err(e) => {
                return Err(e);
            },
        };
        let x10 = match <P as Provide<T10, E>>::provide(self) {
            Ok(v) => v,
            Err(e) => {
                return Err(e);
            },
        };
        let x11 = match <P as Provide<T11, E>>::provide(self) {
            Ok(v) => v,
            Err(e) => {
                return Err(e);
            },
        };
        let x12 = match <P as Provide<T12, E>>::provide(self) {
            Ok(v) => v,
            Err(e) => {
                return Err(e);
            },
        };
        let x13 = match <P as Provide<T13, E>>::provide(self) {
            Ok(v) => v,
            Err(e) => {
                return Err(e);
            },
        };
        let x14 = match <P as Provide<T14, E>>::provide(self) {
            Ok(v) => v,
            Err(e) => {
                return Err(e);
            },
        };
        let x15 = match <P as Provide<T15, E>>::provide(self) {
            Ok(v) => v,
            Err(e) => {
                return Err(e);
            },
        };
        let x16 = match <P as Provide<T16, E>>::provide(self) {
            Ok(v) => v,
            Err(e) => {
                return Err(e);
            },
        };
        let x17 = match <P as Provide<T17, E>>::provide(self) {
            Ok(v) => v,
            Err(e) => {
                return Err(e);
            },
        };
        let x18 = match <P as Provide<T18, E>>::provide(self) {
            Ok(v) => v,
            Err(e) => {
                return Err(e);
            },
        };
        let x19 = match <P as Provide<T19, E>>::provide(self) {
            Ok(v) => v,
            Err(e) => {
                return Err(e);
            },
        };
        let x20 = match <P as Provide<T20, E>>::provide(self) {
            Ok(v) => v,
            Err(e) => {
                return Err(e);
            },
        };
        let x21 = match <P as Provide<T21, E>>::provide(self) {
            Ok(v) => v,
            Err(e) => {
                return Err(e);
            },
        };
        let x22 = match <P as Provide<T22, E>>::provide(self) {
            Ok(v) => v,
            Err(e) => {
                return Err(e);
            },
        };
        Ok((x1, x2, x3, x4, x5, x6, x7, x8, x9, x10, x11, x12, x13, x14, x15, x16, x17, x18, x19, x20, x21, x22))
    }
}

impl<Func, Out, P, E, T1, T2, T3, T4, T5, T6, T7, T8, T9, T10, T11, T12, T13, T14, T15, T16, T17, T18, T19, T20, T21, T22> Caller<(T1, T2, T3, T4, T5, T6, T7, T8, T9, T10, T11, T12, T13, T14, T15, T16, T17, T18, T19, T20, T21, T22), P, E> for Func where
    Func: Fn(T1, T2, T3, T4, T5, T6, T7, T8, T9, T10, T11, T12, T13, T14, T15, T16, T17, T18, T19, T20, T21, T22) -> Out,
    P: Provide<T1, E> + Provide<T2, E> + Provide<T3, E> + Provide<T4, E> + Provide<T5, E> + Provide<T6, E> + Provide<T7, E> + Provide<T8, E> + Provide<T9, E> + Provide<T10, E> + Provide<T11, E> + Provide<T12, E> + Provide<T13, E> + Provide<T14, E> + Provide<T15, E> + Provide<T16, E> + Provide<T17, E> + Provide<T18, E> + Provide<T19, E> + Provide<T20, E> + Provide<T21, E> + Provide<T22, E>,
 {
    type Output = Out;

    open spec fn req(&self, args: (T1, T2, T3, T4, T5, T6, T7, T8, T9, T10, T11, T12, T13, T14, T15, T16, T17, T18, T19, T20, T21, T22)) -> bool {
        call_requires(*self, args)
    }

    open spec fn ens(&self, args: (T1, T2, T3, T4, T5, T6, T7, T8, T9, T10, T11, T12, T13, T14, T15, T16, T17, T18, T19, T20, T21, T22), output: Out) -> bool {
        call_ensures(*self, args, output)
    }

    fn call(&self, args: (T1, T2, T3, T4, T5, T6, T7, T8, T9, T10, T11, T12, T13, T14, T15, T16, T17, T18, T19, T20, T21, T22)) -> (output: Out) {
        let (x1, x2, x3, x4, x5, x6, x7, x8, x9, x10, x11, x12, x13, x14, x15, x16, x17, x18, x19, x20, x21, x22) = args;
        (self)(x1, x2, x3, x4, x5, x6, x7, x8, x9, x10, x11, x12, x13, x14, x15, x16, x17, x18, x19, x20, x21, x22)
    }
}

impl<P, E, T1, T2, T3, T4, T5, T6, T7, T8, T9, T10, T11, T12, T13, T14, T15, T16, T17, T18, T19, T20, T21, T22, T23> Provide<(T1, T2, T3, T4, T5, T6, T7, T8, T9, T10, T11, T12, T13, T14, T15, T16, T17, T18, T19, T20, T21, T22, T23), E> for P where P: Provide<T1, E> + Provide<T2, E> + Provide<T3, E> + Provide<T4, E> + Provide<T5, E> + Provide<T6, E> + Provide<T7, E> + Provide<T8, E> + Provide<T9, E> + Provide<T10, E> + Provide<T11, E> + Provide<T12, E> + Provide<T13, E> + Provide<T14, E> + Provide<T15, E> + Provide<T16, E> + Provide<T17, E> + Provide<T18, E> + Provide<T19, E> + Provide<T20, E> + Provide<T21, E> + Provide<T22, E> + Provide<T23, E> {
    open spec fn provide_spec(&self) -> Result<(T1, T2, T3, T4, T5, T6, T7, T8, T9, T10, T11, T12, T13, T14, T15, T16, T17, T18, T19, T20, T21, T22, T23), E> {
        if <P as Provide<T1, E>>::provide_spec(self) is Err {
            Err(<P as Provide<T1, E>>::provide_spec(self)->Err_0)
        } else if <P as Provide<T2, E>>::provide_spec(self) is Err {
            Err(<P as Provide<T2, E>>::provide_spec(self)->Err_0)
        } else if <P as Provide<T3, E>>::provide_spec(self) is Err {
            Err(<P as Provide<T3, E>>::provide_spec(self)->Err_0)
        } else if <P as Provide<T4, E>>::provide_spec(self) is Err {
            Err(<P as Provide<T4, E>>::provide_spec(self)->Err_0)
        } else if <P as Provide<T5, E>>::provide_spec(self) is Err {
            Err(<P as Provide<T5, E>>::provide_spec(self)->Err_0)
        } else if <P as Provide<T6, E>>::provide_spec(self) is Err {
            Err(<P as Provide<T6, E>>::provide_spec(self)->Err_0)
        } else if <P as Provide<T7, E>>::provide_spec(self) is Err {
            Err(<P as Provide<T7, E>>::provide_spec(self)->Err_0)
        } else if <P as Provide<T8, E>>::provide_spec(self) is Err {
            Err(<P as Provide<T8, E>>::provide_spec(self)->Err_0)
        } else if <P as Provide<T9, E>>::provide_spec(self) is Err {
            Err(<P as Provide<T9, E>>::provide_spec(self)->Err_0)
        } else if <P as Provide<T10, E>>::provide_spec(self) is Err {
            Err(<P as Provide<T10, E>>::provide_spec(self)->Err_0)
        } else if <P as Provide<T11, E>>::provide_spec(self) is Err {
            Err(<P as Provide<T11, E>>::provide_spec(self)->Err_0)
        } else if <P as Provide<T12, E>>::provide_spec(self) is Err {
            Err(<P as Provide<T12, E>>::provide_spec(self)->Err_0)
        } else if <P as Provide<T13, E>>::provide_spec(self) is Err {
            Err(<P as Provide<T13, E>>::provide_spec(self)->Err_0)
        } else if <P as Provide<T14, E>>::provide_spec(self) is Err {
            Err(<P as Provide<T14, E>>::provide_spec(self)->Err_0)
        } else if <P as Provide<T15, E>>::provide_spec(self) is Err {
            Err(<P as Provide<T15, E>>::provide_spec(self)->Err_0)
        } else if <P as Provide<T16, E>>::provide_spec(self) is Err {
            Err(<P as Provide<T16, E>>::provide_spec(self)->Err_0)
        } else if <P as Provide<T17, E>>::provide_spec(self) is Err {
            Err(<P as Provide<T17, E>>::provide_spec(self)->Err_0)
        } else if <P as Provide<T18, E>>::provide_spec(self) is Err {
            Err(<P as Provide<T18, E>>::provide_spec(self)->Err_0)
        } else if <P as Provide<T19, E>>::provide_spec(self) is Err {
            Err(<P as Provide<T19, E>>::provide_spec(self)->Err_0)
        } else if <P as Provide<T20, E>>::provide_spec(self) is Err {
            Err(<P as Provide<T20, E>>::provide_spec(self)->Err_0)
        } else if <P as Provide<T21, E>>::provide_spec(self) is Err {
            Err(<P as Provide<T21, E>>::provide_spec(self)->Err_0)
        } else if <P as Provide<T22, E>>::provide_spec(self) is Err {
            Err(<P as Provide<T22, E>>::provide_spec(self)->Err_0)
        } else if <P as Provide<T23, E>>::provide_spec(self) is Err {
            Err(<P as Provide<T23, E>>::provide_spec(self)->Err_0)
        } else {
            Ok((<P as Provide<T1, E>>::provide_spec(self)->Ok_0, <P as Provide<T2, E>>::provide_spec(self)->Ok_0, <P as Provide<T3, E>>::provide_spec(self)->Ok_0, <P as Provide<T4, E>>::provide_spec(self)->Ok_0, <P as Provide<T5, E>>::provide_spec(self)->Ok_0, <P as Provide<T6, E>>::provide_spec(self)->Ok_0, <P as Provide<T7, E>>::provide_spec(self)->Ok_0, <P as Provide<T8, E>>::provide_spec(self)->Ok_0, <P as Provide<T9, E>>::provide_spec(self)->Ok_0, <P as Provide<T10, E>>::provide_spec(self)->Ok_0, <P as Provide<T11, E>>::provide_spec(self)->Ok_0, <P as Provide<T12, E>>::provide_spec(self)->Ok_0, <P as Provide<T13, E>>::provide_spec(self)->Ok_0, <P as Provide<T14, E>>::provide_spec(self)->Ok_0, <P as Provide<T15, E>>::provide_spec(self)->Ok_0, <P as Provide<T16, E>>::provide_spec(self)->Ok_0, <P as Provide<T17, E>>::provide_spec(self)->Ok_0, <P as Provide<T18, E>>::provide_spec(self)->Ok_0, <P as Provide<T19, E>>::provide_spec(self)->Ok_0, <P as Provide<T20, E>>::provide_spec(self)->Ok_0, <P as Provide<T21, E>>::provide_spec(self)->Ok_0, <P as Provide<T22, E>>::provide_spec(self)->Ok_0, <P as Provide<T23, E>>::provide_spec(self)->Ok_0))
        }
    }

    fn provide(&self) -> (r: Result<(T1, T2, T3, T4, T5, T6, T7, T8, T9, T10, T11, T12, T13, T14, T15, T16, T17, T18, T19, T20, T21, T22, T23), E>) {
        let x1 = match <P as Provide<T1, E>>::provide(self) {
            Ok(v) => v,
            Err(e) => {
                return Err(e);
            },
        };
        let x2 = match <P as Provide<T2, E>>::provide(self) {
            Ok(v) => v,
            Err(e) => {
                return Err(e);
            },
        };
        let x3 = match <P as Provide<T3, E>>::provide(self) {
            Ok(v) => v,
            Err(e) => {
                return Err(e);
            },
        };
        let x4 = match <P as Provide<T4, E>>::provide(self) {
            Ok(v) => v,
            Err(e) => {
                return Err(e);
            },
        };
        let x5 = match <P as Provide<T5, E>>::provide(self) {
            Ok(v) => v,
            Err(e) => {
                return Err(e);
            },
        };
        let x6 = match <P as Provide<T6, E>>::provide(self) {
            Ok(v) => v,
            Err(e) => {
                return Err(e);
            },
        };
        let x7 = match <P as Provide<T7, E>>::provide(self) {
            Ok(v) => v,
            Err(e) => {
                return Err(e);
            },
        };
        let x8 = match <P as Provide<T8, E>>::provide(self) {
            Ok(v) => v,
            Err(e) => {
                return Err(e);
            },
        };
        let x9 = match <P as Provide<T9, E>>::provide(self) {
            Ok(v) => v,
            Err(e) => {
                return Err(e);
            },
        };
        let x10 = match <P as Provide<T10, E>>::provide(self) {
            Ok(v) => v,
            Err(e) => {
                return Err(e);
            },
        };
        let x11 = match <P as Provide<T11, E>>::provide(self) {
            Ok(v) => v,
            Err(e) => {
                return Err(e);
            },
        };
        let x12 = match <P as Provide<T12, E>>::provide(self) {
            Ok(v) => v,
            Err(e) => {
                return Err(e);
            },
        };
        let x13 = match <P as Provide<T13, E>>::provide(self) {
            Ok(v) => v,
            Err(e) => {
                return Err(e);
            },
        };
        let x14 = match <P as Provide<T14, E>>::provide(self) {
            Ok(v) => v,
            Err(e) => {
                return Err(e);
            },
        };
        let x15 = match <P as Provide<T15, E>>::provide(self) {
            Ok(v) => v,
            Err(e) => {
                return Err(e);
            },
        };
        let x16 = match <P as Provide<T16, E>>::provide(self) {
            Ok(v) => v,
            Err(e) => {
                return Err(e);
            },
        };
        let x17 = match <P as Provide<T17, E>>::provide(self) {
            Ok(v) => v,
            Err(e) => {
                return Err(e);
            },
        };
        let x18 = match <P as Provide<T18, E>>::provide(self) {
            Ok(v) => v,
            Err(e) => {
                return Err(e);
            },
        };
        let x19 = match <P as Provide<T19, E>>::provide(self) {
            Ok(v) => v,
            Err(e) => {
                return Err(e);
            },
        };
        let x20 = match <P as Provide<T20, E>>::provide(self) {
            Ok(v) => v,
            Err(e) => {
                return Err(e);
            },
        };
        let x21 = match <P as Provide<T21, E>>::provide(self) {
            Ok(v) => v,
            Err(e) => {
                return Err(e);
            },
        };
        let x22 = match <P as Provide<T22, E>>::provide(self) {
            Ok(v) => v,
            Err(e) => {
                return Err(e);
            },
        };
        let x23 = match <P as Provide<T23, E>>::provide(self) {
            Ok(v) => v,
            Err(e) => {
                return Err(e);
            },
        };
        Ok((x1, x2, x3, x4, x5, x6, x7, x8, x9, x10, x11, x12, x13, x14, x15, x16, x17, x18, x19, x20, x21, x22, x23))
    }
}

impl<Func, Out, P, E, T1, T2, T3, T4, T5, T6, T7, T8, T9, T10, T11, T12, T13, T14, T15, T16, T17, T18, T19, T20, T21, T22, T23> Caller<(T1, T2, T3, T4, T5, T6, T7, T8, T9, T10, T11, T12, T13, T14, T15, T16, T17, T18, T19, T20, T21, T22, T23), P, E> for Func where
    Func: Fn(T1, T2, T3, T4, T5, T6, T7, T8, T9, T10, T11, T12, T13, T14, T15, T16, T17, T18, T19, T20, T21, T22, T23) -> Out,
    P: Provide<T1, E> + Provide<T2, E> + Provide<T3, E> + Provide<T4, E> + Provide<T5, E> + Provide<T6, E> + Provide<T7, E> + Provide<T8, E> + Provide<T9, E> + Provide<T10, E> + Provide<T11, E> + Provide<T12, E> + Provide<T13, E> + Provide<T14, E> + Provide<T15, E> + Provide<T16, E> + Provide<T17, E> + Provide<T18, E> + Provide<T19, E> + Provide<T20, E> + Provide<T21, E> + Provide<T22, E> + Provide<T23, E>,
 {
    type Output = Out;

    open spec fn req(&self, args: (T1, T2, T3, T4, T5, T6, T7, T8, T9, T10, T11, T12, T13, T14, T15, T16, T17, T18, T19, T20, T21, T22, T23)) -> bool {
        call_requires(*self, args)
    }

    open spec fn ens(&self, args: (T1, T2, T3, T4, T5, T6, T7, T8, T9, T10, T11, T12, T13, T14, T15, T16, T17, T18, T19, T20, T21, T22, T23), output: Out) -> bool {
        call_ensures(*self, args, output)
    }

    fn call(&self, args: (T1, T2, T3, T4, T5, T6, T7, T8, T9, T10, T11, T12, T13, T14, T15, T16, T17, T18, T19, T20, T21, T22, T23)) -> (output: Out) {
        let (x1, x2, x3, x4, x5, x6, x7, x8, x9, x10, x11, x12, x13, x14, x15, x16, x17, x18, x19, x20, x21, x22, x23) = args;
        (self)(x1, x2, x3, x4, x5, x6, x7, x8, x9, x10, x11, x12, x13, x14, x15, x16, x17, x18, x19, x20, x21, x22, x23)
    }
}

impl<P, E, T1, T2, T3, T4, T5, T6, T7, T8, T9, T10, T11, T12, T13, T14, T15, T16, T17, T18, T19, T20, T21, T22, T23, T24> Provide<(T1, T2, T3, T4, T5, T6, T7, T8, T9, T10, T11, T12, T13, T14, T15, T16, T17, T18, T19, T20, T21, T22, T23, T24), E> for P where P: Provide<T1, E> + Provide<T2, E> + Provide<T3, E> + Provide<T4, E> + Provide<T5, E> + Provide<T6, E> + Provide<T7, E> + Provide<T8, E> + Provide<T9, E> + Provide<T10, E> + Provide<T11, E> + Provide<T12, E> + Provide<T13, E> + Provide<T14, E> + Provide<T15, E> + Provide<T16, E> + Provide<T17, E> + Provide<T18, E> + Provide<T19, E> + Provide<T20, E> + Provide<T21, E> + Provide<T22, E> + Provide<T23, E> + Provide<T24, E> {
    open spec fn provide_spec(&self) -> Result<(T1, T2, T3, T4, T5, T6, T7, T8, T9, T10, T11, T12, T13, T14, T15, T16, T17, T18, T19, T20, T21, T22, T23, T24), E> {
        if <P as Provide<T1, E>>::provide_spec(self) is Err {
            Err(<P as Provide<T1, E>>::provide_spec(self)->Err_0)
        } else if <P as Provide<T2, E>>::provide_spec(self) is Err {
            Err(<P as Provide<T2, E>>::provide_spec(self)->Err_0)
        } else if <P as Provide<T3, E>>::provide_spec(self) is Err {
            Err(<P as Provide<T3, E>>::provide_spec(self)->Err_0)
        } else if <P as Provide<T4, E>>::provide_spec(self) is Err {
            Err(<P as Provide<T4, E>>::provide_spec(self)->Err_0)
        } else if <P as Provide<T5, E>>::provide_spec(self) is Err {
            Err(<P as Provide<T5, E>>::provide_spec(self)->Err_0)
        } else if <P as Provide<T6, E>>::provide_spec(self) is Err {
            Err(<P as Provide<T6, E>>::provide_spec(self)->Err_0)
        } else if <P as Provide<T7, E>>::provide_spec(self) is Err {
            Err(<P as Provide<T7, E>>::provide_spec(self)->Err_0)
        } else if <P as Provide<T8, E>>::provide_spec(self) is Err {
            Err(<P as Provide<T8, E>>::provide_spec(self)->Err_0)
        } else if <P as Provide<T9, E>>::provide_spec(self) is Err {
            Err(<P as Provide<T9, E>>::provide_spec(self)->Err_0)
        } else if <P as Provide<T10, E>>::provide_spec(self) is Err {
            Err(<P as Provide<T10, E>>::provide_spec(self)->Err_0)
        } else if <P as Provide<T11, E>>::provide_spec(self) is Err {
            Err(<P as Provide<T11, E>>::provide_spec(self)->Err_0)
        } else if <P as Provide<T12, E>>::provide_spec(self) is Err {
            Err(<P as Provide<T12, E>>::provide_spec(self)->Err_0)
        } else if <P as Provide<T13, E>>::provide_spec(self) is Err {
            Err(<P as Provide<T13, E>>::provide_spec(self)->Err_0)
        } else if <P as Provide<T14, E>>::provide_spec(self) is Err {
            Err(<P as Provide<T14, E>>::provide_spec(self)->Err_0)
        } else if <P as Provide<T15, E>>::provide_spec(self) is Err {
            Err(<P as Provide<T15, E>>::provide_spec(self)->Err_0)
        } else if <P as Provide<T16, E>>::provide_spec(self) is Err {
            Err(<P as Provide<T16, E>>::provide_spec(self)->Err_0)
        } else if <P as Provide<T17, E>>::provide_spec(self) is Err {
            Err(<P as Provide<T17, E>>::provide_spec(self)->Err_0)
        } else if <P as Provide<T18, E>>::provide_spec(self) is Err {
            Err(<P as Provide<T18, E>>::provide_spec(self)->Err_0)
        } else if <P as Provide<T19, E>>::provide_spec(self) is Err {
            Err(<P as Provide<T19, E>>::provide_spec(self)->Err_0)
        } else if <P as Provide<T20, E>>::provide_spec(self) is Err {
            Err(<P as Provide<T20, E>>::provide_spec(self)->Err_0)
        } else if <P as Provide<T21, E>>::provide_spec(self) is Err {
            Err(<P as Provide<T21, E>>::provide_spec(self)->Err_0)
        } else if <P as Provide<T22, E>>::provide_spec(self) is Err {
            Err(<P as Provide<T22, E>>::provide_spec(self)->Err_0)
        } else if <P as Provide<T23, E>>::provide_spec(self) is Err {
            Err(<P as Provide<T23, E>>::provide_spec(self)->Err_0)
        } else if <P as Provide<T24, E>>::provide_spec(self) is Err {
            Err(<P as Provide<T24, E>>::provide_spec(self)->Err_0)
        } else {
            Ok((<P as Provide<T1, E>>::provide_spec(self)->Ok_0, <P as Provide<T2, E>>::provide_spec(self)->Ok_0, <P as Provide<T3, E>>::provide_spec(self)->Ok_0, <P as Provide<T4, E>>::provide_spec(self)->Ok_0, <P as Provide<T5, E>>::provide_spec(self)->Ok_0, <P as Provide<T6, E>>::provide_spec(self)->Ok_0, <P as Provide<T7, E>>::provide_spec(self)->Ok_0, <P as Provide<T8, E>>::provide_spec(self)->Ok_0, <P as Provide<T9, E>>::provide_spec(self)->Ok_0, <P as Provide<T10, E>>::provide_spec(self)->Ok_0, <P as Provide<T11, E>>::provide_spec(self)->Ok_0, <P as Provide<T12, E>>::provide_spec(self)->Ok_0, <P as Provide<T13, E>>::provide_spec(self)->Ok_0, <P as Provide<T14, E>>::provide_spec(self)->Ok_0, <P as Provide<T15, E>>::provide_spec(self)->Ok_0, <P as Provide<T16, E>>::provide_spec(self)->Ok_0, <P as Provide<T17, E>>::provide_spec(self)->Ok_0, <P as Provide<T18, E>>::provide_spec(self)->Ok_0, <P as Provide<T19, E>>::provide_spec(self)->Ok_0, <P as Provide<T20, E>>::provide_spec(self)->Ok_0, <P as Provide<T21, E>>::provide_spec(self)->Ok_0, <P as Provide<T22, E>>::provide_spec(self)->Ok_0, <P as Provide<T23, E>>::provide_spec(self)->Ok_0, <P as Provide<T24, E>>::provide_spec(self)->Ok_0))
        }
    }

    fn provide(&self) -> (r: Result<(T1, T2, T3, T4, T5, T6, T7, T8, T9, T10, T11, T12, T13, T14, T15, T16, T17, T18, T19, T20, T21, T22, T23, T24), E>) {
        let x1 = match <P as Provide<T1, E>>::provide(self) {
            Ok(v) => v,
            Err(e) => {
                return Err(e);
            },
        };
        let x2 = match <P as Provide<T2, E>>::provide(self) {
            Ok(v) => v,
            Err(e) => {
                return Err(e);
            },
        };
        let x3 = match <P as Provide<T3, E>>::provide(self) {
            Ok(v) => v,
            Err(e) => {
                return Err(e);
            },
        };
        let x4 = match <P as Provide<T4, E>>::provide(self) {
            Ok(v) => v,
            Err(e) => {
                return Err(e);
            },
        };
        let x5 = match <P as Provide<T5, E>>::provide(self) {
            Ok(v) => v,
            Err(e) => {
                return Err(e);
            },
        };
        let x6 = match <P as Provide<T6, E>>::provide(self) {
            Ok(v) => v,
            Err(e) => {
                return Err(e);
            },
        };
        let x7 = match <P as Provide<T7, E>>::provide(self) {
            Ok(v) => v,
            Err(e) => {
                return Err(e);
            },
        };
        let x8 = match <P as Provide<T8, E>>::provide(self) {
            Ok(v) => v,
            Err(e) => {
                return Err(e);
            },
        };
        let x9 = match <P as Provide<T9, E>>::provide(self) {
            Ok(v) => v,
            Err(e) => {
                return Err(e);
            },
        };
        let x10 = match <P as Provide<T10, E>>::provide(self) {
            Ok(v) => v,
            Err(e) => {
                return Err(e);
            },
        };
        let x11 = match <P as Provide<T11, E>>::provide(self) {
            Ok(v) => v,
            Err(e) => {
                return Err(e);
            },
        };
        let x12 = match <P as Provide<T12, E>>::provide(self) {
            Ok(v) => v,
            Err(e) => {
                return Err(e);
            },
        };
        let x13 = match <P as Provide<T13, E>>::provide(self) {
            Ok(v) => v,
            Err(e) => {
                return Err(e);
            },
        };
        let x14 = match <P as Provide<T14, E>>::provide(self) {
            Ok(v) => v,
            Err(e) => {
                return Err(e);
            },
        };
        let x15 = match <P as Provide<T15, E>>::provide(self) {
            Ok(v) => v,
            Err(e) => {
                return Err(e);
            },
        };
        let x16 = match <P as Provide<T16, E>>::provide(self) {
            Ok(v) => v,
            Err(e) => {
                return Err(e);
            },
        };
        let x17 = match <P as Provide<T17, E>>::provide(self) {
            Ok(v) => v,
            Err(e) => {
                return Err(e);
            },
        };
        let x18 = match <P as Provide<T18, E>>::provide(self) {
            Ok(v) => v,
            Err(e) => {
                return Err(e);
            },
        };
        let x19 = match <P as Provide<T19, E>>::provide(self) {
            Ok(v) => v,
            Err(e) => {
                return Err(e);
            },
        };
        let x20 = match <P as Provide<T20, E>>::provide(self) {
            Ok(v) => v,
            Err(e) => {
                return Err(e);
            },
        };
        let x21 = match <P as Provide<T21, E>>::provide(self) {
            Ok(v) => v,
            Err(e) => {
                return Err(e);
            },
        };
        let x22 = match <P as Provide<T22, E>>::provide(self) {
            Ok(v) => v,
            Err(e) => {
                return Err(e);
            },
        };
        let x23 = match <P as Provide<T23, E>>::provide(self) {
            Ok(v) => v,
            Err(e) => {
                return Err(e);
            },
        };
        let x24 = match <P as Provide<T24, E>>::provide(self) {
            Ok(v) => v,
            Err(e) => {
                return Err(e);
            },
        };
        Ok((x1, x2, x3, x4, x5, x6, x7, x8, x9, x10, x11, x12, x13, x14, x15, x16, x17, x18, x19, x20, x21, x22, x23, x24))
    }
}

impl<Func, Out, P, E, T1, T2, T3, T4, T5, T6, T7, T8, T9, T10, T11, T12, T13, T14, T15, T16, T17, T18, T19, T20, T21, T22, T23, T24> Caller<(T1, T2, T3, T4, T5, T6, T7, T8, T9, T10, T11, T12, T13, T14, T15, T16, T17, T18, T19, T20, T21, T22, T23, T24), P, E> for Func where
    Func: Fn(T1, T2, T3, T4, T5, T6, T7, T8, T9, T10, T11, T12, T13, T14, T15, T16, T17, T18, T19, T20, T21, T22, T23, T24) -> Out,
    P: Provide<T1, E> + Provide<T2, E> + Provide<T3, E> + Provide<T4, E> + Provide<T5, E> + Provide<T6, E> + Provide<T7, E> + Provide<T8, E> + Provide<T9, E> + Provide<T10, E> + Provide<T11, E> + Provide<T12, E> + Provide<T13, E> + Provide<T14, E> + Provide<T15, E> + Provide<T16, E> + Provide<T17, E> + Provide<T18, E> + Provide<T19, E> + Provide<T20, E> + Provide<T21, E> + Provide<T22, E> + Provide<T23, E> + Provide<T24, E>,
 {
    type Output = Out;

    open spec fn req(&self, args: (T1, T2, T3, T4, T5, T6, T7, T8, T9, T10, T11, T12, T13, T14, T15, T16, T17, T18, T19, T20, T21, T22, T23, T24)) -> bool {
        call_requires(*self, args)
    }

    open spec fn ens(&self, args: (T1, T2, T3, T4, T5, T6, T7, T8, T9, T10, T11, T12, T13, T14, T15, T16, T17, T18, T19, T20, T21, T22, T23, T24), output: Out) -> bool {
        call_ensures(*self, args, output)
    }

    fn call(&self, args: (T1, T2, T3, T4, T5, T6, T7, T8, T9, T10, T11, T12, T13, T14, T15, T16, T17, T18, T19, T20, T21, T22, T23, T24)) -> (output: Out) {
        let (x1, x2, x3, x4, x5, x6, x7, x8, x9, x10, x11, x12, x13, x14, x15, x16, x17, x18, x19, x20, x21, x22, x23, x24) = args;
        (self)(x1, x2, x3, x4, x5, x6, x7, x8, x9, x10, x11, x12, x13, x14, x15, x16, x17, x18, x19, x20, x21, x22, x23, x24)
    }
}

impl<P, E, T1, T2, T3, T4, T5, T6, T7, T8, T9, T10, T11, T12, T13, T14, T15, T16, T17, T18, T19, T20, T21, T22, T23, T24, T25> Provide<(T1, T2, T3, T4, T5, T6, T7, T8, T9, T10, T11, T12, T13, T14, T15, T16, T17, T18, T19, T20, T21, T22, T23, T24, T25), E> for P where P: Provide<T1, E> + Provide<T2, E> + Provide<T3, E> + Provide<T4, E> + Provide<T5, E> + Provide<T6, E> + Provide<T7, E> + Provide<T8, E> + Provide<T9, E> + Provide<T10, E> + Provide<T11, E> + Provide<T12, E> + Provide<T13, E> + Provide<T14, E> + Provide<T15, E> + Provide<T16, E> + Provide<T17, E> + Provide<T18, E> + Provide<T19, E> + Provide<T20, E> + Provide<T21, E> + Provide<T22, E> + Provide<T23, E> + Provide<T24, E> + Provide<T25, E> {
    open spec fn provide_spec(&self) -> Result<(T1, T2, T3, T4, T5, T6, T7, T8, T9, T10, T11, T12, T13, T14, T15, T16, T17, T18, T19, T20, T21, T22, T23, T24, T25), E> {
        if <P as Provide<T1, E>>::provide_spec(self) is Err {
            Err(<P as Provide<T1, E>>::provide_spec(self)->Err_0)
        } else if <P as Provide<T2, E>>::provide_spec(self) is Err {
            Err(<P as Provide<T2, E>>::provide_spec(self)->Err_0)
        } else if <P as Provide<T3, E>>::provide_spec(self) is Err {
            Err(<P as Provide<T3, E>>::provide_spec(self)->Err_0)
        } else if <P as Provide<T4, E>>::provide_spec(self) is Err {
            Err(<P as Provide<T4, E>>::provide_spec(self)->Err_0)
        } else if <P as Provide<T5, E>>::provide_spec(self) is Err {
            Err(<P as Provide<T5, E>>::provide_spec(self)->Err_0)
        } else if <P as Provide<T6, E>>::provide_spec(self) is Err {
            Err(<P as Provide<T6, E>>::provide_spec(self)->Err_0)
        } else if <P as Provide<T7, E>>::provide_spec(self) is Err {
            Err(<P as Provide<T7, E>>::provide_spec(self)->Err_0)
        } else if <P as Provide<T8, E>>::provide_spec(self) is Err {
            Err(<P as Provide<T8, E>>::provide_spec(self)->Err_0)
        } else if <P as Provide<T9, E>>::provide_spec(self) is Err {
            Err(<P as Provide<T9, E>>::provide_spec(self)->Err_0)
        } else if <P as Provide<T10, E>>::provide_spec(self) is Err {
            Err(<P as Provide<T10, E>>::provide_spec(self)->Err_0)
        } else if <P as Provide<T11, E>>::provide_spec(self) is Err {
            Err(<P as Provide<T11, E>>::provide_spec(self)->Err_0)
        } else if <P as Provide<T12, E>>::provide_spec(self) is Err {
            Err(<P as Provide<T12, E>>::provide_spec(self)->Err_0)
        } else if <P as Provide<T13, E>>::provide_spec(self) is Err {
            Err(<P as Provide<T13, E>>::provide_spec(self)->Err_0)
        } else if <P as Provide<T14, E>>::provide_spec(self) is Err {
            Err(<P as Provide<T14, E>>::provide_spec(self)->Err_0)
        } else if <P as Provide<T15, E>>::provide_spec(self) is Err {
            Err(<P as Provide<T15, E>>::provide_spec(self)->Err_0)
        } else if <P as Provide<T16, E>>::provide_spec(self) is Err {
            Err(<P as Provide<T16, E>>::provide_spec(self)->Err_0)
        } else if <P as Provide<T17, E>>::provide_spec(self) is Err {
            Err(<P as Provide<T17, E>>::provide_spec(self)->Err_0)
        } else if <P as Provide<T18, E>>::provide_spec(self) is Err {
            Err(<P as Provide<T18, E>>::provide_spec(self)->Err_0)
        } else if <P as Provide<T19, E>>::provide_spec(self) is Err {
            Err(<P as Provide<T19, E>>::provide_spec(self)->Err_0)
        } else if <P as Provide<T20, E>>::provide_spec(self) is Err {
            Err(<P as Provide<T20, E>>::provide_spec(self)->Err_0)
        } else if <P as Provide<T21, E>>::provide_spec(self) is Err {
            Err(<P as Provide<T21, E>>::provide_spec(self)->Err_0)
        } else if <P as Provide<T22, E>>::provide_spec(self) is Err {
            Err(<P as Provide<T22, E>>::provide_spec(self)->Err_0)
        } else if <P as Provide<T23, E>>::provide_spec(self) is Err {
            Err(<P as Provide<T23, E>>::provide_spec(self)->Err_0)
        } else if <P as Provide<T24, E>>::provide_spec(self) is Err {
            Err(<P as Provide<T24, E>>::provide_spec(self)->Err_0)
        } else if <P as Provide<T25, E>>::provide_spec(self) is Err {
            Err(<P as Provide<T25, E>>::provide_spec(self)->Err_0)
        } else {
            Ok((<P as Provide<T1, E>>::provide_spec(self)->Ok_0, <P as Provide<T2, E>>::provide_spec(self)->Ok_0, <P as Provide<T3, E>>::provide_spec(self)->Ok_0, <P as Provide<T4, E>>::provide_spec(self)->Ok_0, <P as Provide<T5, E>>::provide_spec(self)->Ok_0, <P as Provide<T6, E>>::provide_spec(self)->Ok_0, <P as Provide<T7, E>>::provide_spec(self)->Ok_0, <P as Provide<T8, E>>::provide_spec(self)->Ok_0, <P as Provide<T9, E>>::provide_spec(self)->Ok_0, <P as Provide<T10, E>>::provide_spec(self)->Ok_0, <P as Provide<T11, E>>::provide_spec(self)->Ok_0, <P as Provide<T12, E>>::provide_spec(self)->Ok_0, <P as Provide<T13, E>>::provide_spec(self)->Ok_0, <P as Provide<T14, E>>::provide_spec(self)->Ok_0, <P as Provide<T15, E>>::provide_spec(self)->Ok_0, <P as Provide<T16, E>>::provide_spec(self)->Ok_0, <P as Provide<T17, E>>::provide_spec(self)->Ok_0, <P as Provide<T18, E>>::provide_spec(self)->Ok_0, <P as Provide<T19, E>>::provide_spec(self)->Ok_0, <P as Provide<T20, E>>::provide_spec(self)->Ok_0, <P as Provide<T21, E>>::provide_spec(self)->Ok_0, <P as Provide<T22, E>>::provide_spec(self)->Ok_0, <P as Provide<T23, E>>::provide_spec(self)->Ok_0, <P as Provide<T24, E>>::provide_spec(self)->Ok_0, <P as Provide<T25, E>>::provide_spec(self)->Ok_0))
        }
    }

    fn provide(&self) -> (r: Result<(T1, T2, T3, T4, T5, T6, T7, T8, T9, T10, T11, T12, T13, T14, T15, T16, T17, T18, T19, T20, T21, T22, T23, T24, T25), E>) {
        let x1 = match <P as Provide<T1, E>>::provide(self) {
            Ok(v) => v,
            Err(e) => {
                return Err(e);
            },
        };
        let x2 = match <P as Provide<T2, E>>::provide(self) {
            Ok(v) => v,
            Err(e) => {
                return Err(e);
            },
        };
        let x3 = match <P as Provide<T3, E>>::provide(self) {
            Ok(v) => v,
            Err(e) => {
                return Err(e);
            },
        };
        let x4 = match <P as Provide<T4, E>>::provide(self) {
            Ok(v) => v,
            Err(e) => {
                return Err(e);
            },
        };
        let x5 = match <P as Provide<T5, E>>::provide(self) {
            Ok(v) => v,
            Err(e) => {
                return Err(e);
            },
        };
        let x6 = match <P as Provide<T6, E>>::provide(self) {
            Ok(v) => v,
            Err(e) => {
                return Err(e);
            },
        };
        let x7 = match <P as Provide<T7, E>>::provide(self) {
            Ok(v) => v,
            Err(e) => {
                return Err(e);
            },
        };
        let x8 = match <P as Provide<T8, E>>::provide(self) {
            Ok(v) => v,
            Err(e) => {
                return Err(e);
            },
        };
        let x9 = match <P as Provide<T9, E>>::provide(self) {
            Ok(v) => v,
            Err(e) => {
                return Err(e);
            },
        };
        let x10 = match <P as Provide<T10, E>>::provide(self) {
            Ok(v) => v,
            Err(e) => {
                return Err(e);
            },
        };
        let x11 = match <P as Provide<T11, E>>::provide(self) {
            Ok(v) => v,
            Err(e) => {
                return Err(e);
            },
        };
        let x12 = match <P as Provide<T12, E>>::provide(self) {
            Ok(v) => v,
            Err(e) => {
                return Err(e);
            },
        };
        let x13 = match <P as Provide<T13, E>>::provide(self) {
            Ok(v) => v,
            Err(e) => {
                return Err(e);
            },
        };
        let x14 = match <P as Provide<T14, E>>::provide(self) {
            Ok(v) => v,
            Err(e) => {
                return Err(e);
            },
        };
        let x15 = match <P as Provide<T15, E>>::provide(self) {
            Ok(v) => v,
            Err(e) => {
                return Err(e);
            },
        };
        let x16 = match <P as Provide<T16, E>>::provide(self) {
            Ok(v) => v,
            Err(e) => {
                return Err(e);
            },
        };
        let x17 = match <P as Provide<T17, E>>::provide(self) {
            Ok(v) => v,
            Err(e) => {
                return Err(e);
            },
        };
        let x18 = match <P as Provide<T18, E>>::provide(self) {
            Ok(v) => v,
            Err(e) => {
                return Err(e);
            },
        };
        let x19 = match <P as Provide<T19, E>>::provide(self) {
            Ok(v) => v,
            Err(e) => {
                return Err(e);
            },
        };
        let x20 = match <P as Provide<T20, E>>::provide(self) {
            Ok(v) => v,
            Err(e) => {
                return Err(e);
            },
        };
        let x21 = match <P as Provide<T21, E>>::provide(self) {
            Ok(v) => v,
            Err(e) => {
                return Err(e);
            },
        };
        let x22 = match <P as Provide<T22, E>>::provide(self) {
            Ok(v) => v,
            Err(e) => {
                return Err(e);
            },
        };
        let x23 = match <P as Provide<T23, E>>::provide(self) {
            Ok(v) => v,
            Err(e) => {
                return Err(e);
            },
        };
        let x24 = match <P as Provide<T24, E>>::provide(self) {
            Ok(v) => v,
            Err(e) => {
                return Err(e);
            },
        };
        let x25 = match <P as Provide<T25, E>>::provide(self) {
            Ok(v) => v,
            Err(e) => {
                return Err(e);
            },
        };
        Ok((x1, x2, x3, x4, x5, x6, x7, x8, x9, x10, x11, x12, x13, x14, x15, x16, x17, x18, x19, x20, x21, x22, x23, x24, x25))
    }
}

impl<Func, Out, P, E, T1, T2, T3, T4, T5, T6, T7, T8, T9, T10, T11, T12, T13, T14, T15, T16, T17, T18, T19, T20, T21, T22, T23, T24, T25> Caller<(T1, T2, T3, T4, T5, T6, T7, T8, T9, T10, T11, T12, T13, T14, T15, T16, T17, T18, T19, T20, T21, T22, T23, T24, T25), P, E> for Func where
    Func: Fn(T1, T2, T3, T4, T5, T6, T7, T8, T9, T10, T11, T12, T13, T14, T15, T16, T17, T18, T19, T20, T21, T22, T23, T24, T25) -> Out,
    P: Provide<T1, E> + Provide<T2, E> + Provide<T3, E> + Provide<T4, E> + Provide<T5, E> + Provide<T6, E> + Provide<T7, E> + Provide<T8, E> + Provide<T9, E> + Provide<T10, E> + Provide<T11, E> + Provide<T12, E> + Provide<T13, E> + Provide<T14, E> + Provide<T15, E> + Provide<T16, E> + Provide<T17, E> + Provide<T18, E> + Provide<T19, E> + Provide<T20, E> + Provide<T21, E> + Provide<T22, E> + Provide<T23, E> + Provide<T24, E> + Provide<T25, E>,
 {
    type Output = Out;

    open spec fn req(&self, args: (T1, T2, T3, T4, T5, T6, T7, T8, T9, T10, T11, T12, T13, T14, T15, T16, T17, T18, T19, T20, T21, T22, T23, T24, T25)) -> bool {
        call_requires(*self, args)
    }

    open spec fn ens(&self, args: (T1, T2, T3, T4, T5, T6, T7, T8, T9, T10, T11, T12, T13, T14, T15, T16, T17, T18, T19, T20, T21, T22, T23, T24, T25), output: Out) -> bool {
        call_ensures(*self, args, output)
    }

    fn call(&self, args: (T1, T2, T3, T4, T5, T6, T7, T8, T9, T10, T11, T12, T13, T14, T15, T16, T17, T18, T19, T20, T21, T22, T23, T24, T25)) -> (output: Out) {
        let (x1, x2, x3, x4, x5, x6, x7, x8, x9, x10, x11, x12, x13, x14, x15, x16, x17, x18, x19, x20, x21, x22, x23, x24, x25) = args;
        (self)(x1, x2, x3, x4, x5, x6, x7, x8, x9, x10, x11, x12, x13, x14, x15, x16, x17, x18, x19, x20, x21, x22, x23, x24, x25)
    }
}

impl<P, E, T1, T2, T3, T4, T5, T6, T7, T8, T9, T10, T11, T12, T13, T14, T15, T16, T17, T18, T19, T20, T21, T22, T23, T24, T25, T26> Provide<(T1, T2, T3, T4, T5, T6, T7, T8, T9, T10, T11, T12, T13, T14, T15, T16, T17, T18, T19, T20, T21, T22, T23, T24, T25, T26), E> for P where P: Provide<T1, E> + Provide<T2, E> + Provide<T3, E> + Provide<T4, E> + Provide<T5, E> + Provide<T6, E> + Provide<T7, E> + Provide<T8, E> + Provide<T9, E> + Provide<T10, E> + Provide<T11, E> + Provide<T12, E> + Provide<T13, E> + Provide<T14, E> + Provide<T15, E> + Provide<T16, E> + Provide<T17, E> + Provide<T18, E> + Provide<T19, E> + Provide<T20, E> + Provide<T21, E> + Provide<T22, E> + Provide<T23, E> + Provide<T24, E> + Provide<T25, E> + Provide<T26, E> {
    open spec fn provide_spec(&self) -> Result<(T1, T2, T3, T4, T5, T6, T7, T8, T9, T10, T11, T12, T13, T14, T15, T16, T17, T18, T19, T20, T21, T22, T23, T24, T25, T26), E> {
        if <P as Provide<T1, E>>::provide_spec(self) is Err {
            Err(<P as Provide<T1, E>>::provide_spec(self)->Err_0)
        } else if <P as Provide<T2, E>>::provide_spec(self) is Err {
            Err(<P as Provide<T2, E>>::provide_spec(self)->Err_0)
        } else if <P as Provide<T3, E>>::provide_spec(self) is Err {
            Err(<P as Provide<T3, E>>::provide_spec(self)->Err_0)
        } else if <P as Provide<T4, E>>::provide_spec(self) is Err {
            Err(<P as Provide<T4, E>>::provide_spec(self)->Err_0)
        } else if <P as Provide<T5, E>>::provide_spec(self) is Err {
            Err(<P as Provide<T5, E>>::provide_spec(self)->Err_0)
        } else if <P as Provide<T6, E>>::provide_spec(self) is Err {
            Err(<P as Provide<T6, E>>::provide_spec(self)->Err_0)
        } else if <P as Provide<T7, E>>::provide_spec(self) is Err {
            Err(<P as Provide<T7, E>>::provide_spec(self)->Err_0)
        } else if <P as Provide<T8, E>>::provide_spec(self) is Err {
            Err(<P as Provide<T8, E>>::provide_spec(self)->Err_0)
        } else if <P as Provide<T9, E>>::provide_spec(self) is Err {
            Err(<P as Provide<T9, E>>::provide_spec(self)->Err_0)
        } else if <P as Provide<T10, E>>::provide_spec(self) is Err {
            Err(<P as Provide<T10, E>>::provide_spec(self)->Err_0)
        } else if <P as Provide<T11, E>>::provide_spec(self) is Err {
            Err(<P as Provide<T11, E>>::provide_spec(self)->Err_0)
        } else if <P as Provide<T12, E>>::provide_spec(self) is Err {
            Err(<P as Provide<T12, E>>::provide_spec(self)->Err_0)
        } else if <P as Provide<T13, E>>::provide_spec(self) is Err {
            Err(<P as Provide<T13, E>>::provide_spec(self)->Err_0)
        } else if <P as Provide<T14, E>>::provide_spec(self) is Err {
            Err(<P as Provide<T14, E>>::provide_spec(self)->Err_0)
        } else if <P as Provide<T15, E>>::provide_spec(self) is Err {
            Err(<P as Provide<T15, E>>::provide_spec(self)->Err_0)
        } else if <P as Provide<T16, E>>::provide_spec(self) is Err {
            Err(<P as Provide<T16, E>>::provide_spec(self)->Err_0)
        } else if <P as Provide<T17, E>>::provide_spec(self) is Err {
            Err(<P as Provide<T17, E>>::provide_spec(self)->Err_0)
        } else if <P as Provide<T18, E>>::provide_spec(self) is Err {
            Err(<P as Provide<T18, E>>::provide_spec(self)->Err_0)
        } else if <P as Provide<T19, E>>::provide_spec(self) is Err {
            Err(<P as Provide<T19, E>>::provide_spec(self)->Err_0)
        } else if <P as Provide<T20, E>>::provide_spec(self) is Err {
            Err(<P as Provide<T20, E>>::provide_spec(self)->Err_0)
        } else if <P as Provide<T21, E>>::provide_spec(self) is Err {
            Err(<P as Provide<T21, E>>::provide_spec(self)->Err_0)
        } else if <P as Provide<T22, E>>::provide_spec(self) is Err {
            Err(<P as Provide<T22, E>>::provide_spec(self)->Err_0)
        } else if <P as Provide<T23, E>>::provide_spec(self) is Err {
            Err(<P as Provide<T23, E>>::provide_spec(self)->Err_0)
        } else if <P as Provide<T24, E>>::provide_spec(self) is Err {
            Err(<P as Provide<T24, E>>::provide_spec(self)->Err_0)
        } else if <P as Provide<T25, E>>::provide_spec(self) is Err {
            Err(<P as Provide<T25, E>>::provide_spec(self)->Err_0)
        } else if <P as Provide<T26, E>>::provide_spec(self) is Err {
            Err(<P as Provide<T26, E>>::provide_spec(self)->Err_0)
        } else {
            Ok((<P as Provide<T1, E>>::provide_spec(self)->Ok_0, <P as Provide<T2, E>>::provide_spec(self)->Ok_0, <P as Provide<T3, E>>::provide_spec(self)->Ok_0, <P as Provide<T4, E>>::provide_spec(self)->Ok_0, <P as Provide<T5, E>>::provide_spec(self)->Ok_0, <P as Provide<T6, E>>::provide_spec(self)->Ok_0, <P as Provide<T7, E>>::provide_spec(self)->Ok_0, <P as Provide<T8, E>>::provide_spec(self)->Ok_0, <P as Provide<T9, E>>::provide_spec(self)->Ok_0, <P as Provide<T10, E>>::provide_spec(self)->Ok_0, <P as Provide<T11, E>>::provide_spec(self)->Ok_0, <P as Provide<T12, E>>::provide_spec(self)->Ok_0, <P as Provide<T13, E>>::provide_spec(self)->Ok_0, <P as Provide<T14, E>>::provide_spec(self)->Ok_0, <P as Provide<T15, E>>::provide_spec(self)->Ok_0, <P as Provide<T16, E>>::provide_spec(self)->Ok_0, <P as Provide<T17, E>>::provide_spec(self)->Ok_0, <P as Provide<T18, E>>::provide_spec(self)->Ok_0, <P as Provide<T19, E>>::provide_spec(self)->Ok_0, <P as Provide<T20, E>>::provide_spec(self)->Ok_0, <P as Provide<T21, E>>::provide_spec(self)->Ok_0, <P as Provide<T22, E>>::provide_spec(self)->Ok_0, <P as Provide<T23, E>>::provide_spec(self)->Ok_0, <P as Provide<T24, E>>::provide_spec(self)->Ok_0, <P as Provide<T25, E>>::provide_spec(self)->Ok_0, <P as Provide<T26, E>>::provide_spec(self)->Ok_0))
        }
    }

    fn provide(&self) -> (r: Result<(T1, T2, T3, T4, T5, T6, T7, T8, T9, T10, T11, T12, T13, T14, T15, T16, T17, T18, T19, T20, T21, T22, T23, T24, T25, T26), E>) {
        let x1 = match <P as Provide<T1, E>>::provide(self) {
            Ok(v) => v,
            Err(e) => {
                return Err(e);
            },
        };
        let x2 = match <P as Provide<T2, E>>::provide(self) {
            Ok(v) => v,
            Err(e) => {
                return Err(e);
            },
        };
        let x3 = match <P as Provide<T3, E>>::provide(self) {
            Ok(v) => v,
            Err(e) => {
                return Err(e);
            },
        };
        let x4 = match <P as Provide<T4, E>>::provide(self) {
            Ok(v) => v,
            Err(e) => {
                return Err(e);
            },
        };
        let x5 = match <P as Provide<T5, E>>::provide(self) {
            Ok(v) => v,
            Err(e) => {
                return Err(e);
            },
        };
        let x6 = match <P as Provide<T6, E>>::provide(self) {
            Ok(v) => v,
            Err(e) => {
                return Err(e);
            },
        };
        let x7 = match <P as Provide<T7, E>>::provide(self) {
            Ok(v) => v,
            Err(e) => {
                return Err(e);
            },
        };
        let x8 = match <P as Provide<T8, E>>::provide(self) {
            Ok(v) => v,
            Err(e) => {
                return Err(e);
            },
        };
        let x9 = match <P as Provide<T9, E>>::provide(self) {
            Ok(v) => v,
            Err(e) => {
                return Err(e);
            },
        };
        let x10 = match <P as Provide<T10, E>>::provide(self) {
            Ok(v) => v,
            Err(e) => {
                return Err(e);
            },
        };
        let x11 = match <P as Provide<T11, E>>::provide(self) {
            Ok(v) => v,
            Err(e) => {
                return Err(e);
            },
        };
        let x12 = match <P as Provide<T12, E>>::provide(self) {
            Ok(v) => v,
            Err(e) => {
                return Err(e);
            },
        };
        let x13 = match <P as Provide<T13, E>>::provide(self) {
            Ok(v) => v,
            Err(e) => {
                return Err(e);
            },
        };
        let x14 = match <P as Provide<T14, E>>::provide(self) {
            Ok(v) => v,
            Err(e) => {
                return Err(e);
            },
        };
        let x15 = match <P as Provide<T15, E>>::provide(self) {
            Ok(v) => v,
            Err(e) => {
                return Err(e);
            },
        };
        let x16 = match <P as Provide<T16, E>>::provide(self) {
            Ok(v) => v,
            Err(e) => {
                return Err(e);
            },
        };
        let x17 = match <P as Provide<T17, E>>::provide(self) {
            Ok(v) => v,
            Err(e) => {
                return Err(e);
            },
        };
        let x18 = match <P as Provide<T18, E>>::provide(self) {
            Ok(v) => v,
            Err(e) => {
                return Err(e);
            },
        };
        let x19 = match <P as Provide<T19, E>>::provide(self) {
            Ok(v) => v,
            Err(e) => {
                return Err(e);
            },
        };
        let x20 = match <P as Provide<T20, E>>::provide(self) {
            Ok(v) => v,
            Err(e) => {
                return Err(e);
            },
        };
        let x21 = match <P as Provide<T21, E>>::provide(self) {
            Ok(v) => v,
            Err(e) => {
                return Err(e);
            },
        };
        let x22 = match <P as Provide<T22, E>>::provide(self) {
            Ok(v) => v,
            Err(e) => {
                return Err(e);
            },
        };
        let x23 = match <P as Provide<T23, E>>::provide(self) {
            Ok(v) => v,
            Err(e) => {
                return Err(e);
            },
        };
        let x24 = match <P as Provide<T24, E>>::provide(self) {
            Ok(v) => v,
            Err(e) => {
                return Err(e);
            },
        };
        let x25 = match <P as Provide<T25, E>>::provide(self) {
            Ok(v) => v,
            Err(e) => {
                return Err(e);
            },
        };
        let x26 = match <P as Provide<T26, E>>::provide(self) {
            Ok(v) => v,
            Err(e) => {
                return Err(e);
            },
        };
        Ok((x1, x2, x3, x4, x5, x6, x7, x8, x9, x10, x11, x12, x13, x14, x15, x16, x17, x18, x19, x20, x21, x22, x23, x24, x25, x26))
    }
}

impl<Func, Out, P, E, T1, T2, T3, T4, T5, T6, T7, T8, T9, T10, T11, T12, T13, T14, T15, T16, T17, T18, T19, T20, T21, T22, T23, T24, T25, T26> Caller<(T1, T2, T3, T4, T5, T6, T7, T8, T9, T10, T11, T12, T13, T14, T15, T16, T17, T18, T19, T20, T21, T22, T23, T24, T25, T26), P, E> for Func where
    Func: Fn(T1, T2, T3, T4, T5, T6, T7, T8, T9, T10, T11, T12, T13, T14, T15, T16, T17, T18, T19, T20, T21, T22, T23, T24, T25, T26) -> Out,
    P: Provide<T1, E> + Provide<T2, E> + Provide<T3, E> + Provide<T4, E> + Provide<T5, E> + Provide<T6, E> + Provide<T7, E> + Provide<T8, E> + Provide<T9, E> + Provide<T10, E> + Provide<T11, E> + Provide<T12, E> + Provide<T13, E> + Provide<T14, E> + Provide<T15, E> + Provide<T16, E> + Provide<T17, E> + Provide<T18, E> + Provide<T19, E> + Provide<T20, E> + Provide<T21, E> + Provide<T22, E> + Provide<T23, E> + Provide<T24, E> + Provide<T25, E> + Provide<T26, E>,
 {
    type Output = Out;

    open spec fn req(&self, args: (T1, T2, T3, T4, T5, T6, T7, T8, T9, T10, T11, T12, T13, T14, T15, T16, T17, T18, T19, T20, T21, T22, T23, T24, T25, T26)) -> bool {
        call_requires(*self, args)
    }

    open spec fn ens(&self, args: (T1, T2, T3, T4, T5, T6, T7, T8, T9, T10, T11, T12, T13, T14, T15, T16, T17, T18, T19, T20, T21, T22, T23, T24, T25, T26), output: Out) -> bool {
        call_ensures(*self, args, output)
    }

    fn call(&self, args: (T1, T2, T3, T4, T5, T6, T7, T8, T9, T10, T11, T12, T13, T14, T15, T16, T17, T18, T19, T20, T21, T22, T23, T24, T25, T26)) -> (output: Out) {
        let (x1, x2, x3, x4, x5, x6, x7, x8, x9, x10, x11, x12, x13, x14, x15, x16, x17, x18, x19, x20, x21, x22, x23, x24, x25, x26) = args;
        (self)(x1, x2, x3, x4, x5, x6, x7, x8, x9, x10, x11, x12, x13, x14, x15, x16, x17, x18, x19, x20, x21, x22, x23, x24, x25, x26)
    }
}

/// Law: when every field succeeds, tuple extraction succeeds with each
/// field's value at the position of its declared parameter, left to right.
/// Stated for three fields; every other arity's `provide_spec` is built the
/// same way.
pub proof fn tuple_fields_in_declared_order<P, E, A, B, C>(p: &P) where
    P: Provide<A, E> + Provide<B, E> + Provide<C, E>,

    requires
        <P as Provide<A, E>>::provide_spec(p) is Ok,
        <P as Provide<B, E>>::provide_spec(p) is Ok,
        <P as Provide<C, E>>::provide_spec(p) is Ok,
    ensures
        <P as Provide<(A, B, C), E>>::provide_spec(p) == Ok::<(A, B, C), E>(
            (
                <P as Provide<A, E>>::provide_spec(p)->Ok_0,
                <P as Provide<B, E>>::provide_spec(p)->Ok_0,
                <P as Provide<C, E>>::provide_spec(p)->Ok_0,
            ),
        ),
{
}

/// Law: tuple extraction short-circuits at the first failing field. If field
/// k fails and every earlier field succeeds, the overall result is exactly
/// field k's error, whatever any later field would have yielded. Stated for
/// three fields, once for each failing position; every other arity's
/// `provide_spec` is built the same way.
pub proof fn tuple_short_circuits_on_first_failure<P, E, A, B, C>(p: &P) where
    P: Provide<A, E> + Provide<B, E> + Provide<C, E>,

    ensures
        <P as Provide<A, E>>::provide_spec(p) matches Err(e) ==> <P as Provide<
            (A, B, C),
            E,
        >>::provide_spec(p) == Err::<(A, B, C), E>(e),
        <P as Provide<A, E>>::provide_spec(p) is Ok ==> (<P as Provide<B, E>>::provide_spec(p)
            matches Err(e) ==> <P as Provide<(A, B, C), E>>::provide_spec(p) == Err::<
            (A, B, C),
            E,
        >(e)),
        <P as Provide<A, E>>::provide_spec(p) is Ok ==> (<P as Provide<B, E>>::provide_spec(p)
            is Ok ==> (<P as Provide<C, E>>::provide_spec(p) matches Err(e) ==> <P as Provide<
            (A, B, C),
            E,
        >>::provide_spec(p) == Err::<(A, B, C), E>(e))),
{
}

} // verus!
