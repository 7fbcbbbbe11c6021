//! Placeholders of `Option` and `Result`: the wrapper around the
//! placeholder of the type inside, which it keeps unchanged.

use vstd::prelude::*;

use crate::DefaultTest;

verus! {

impl<T: DefaultTest> DefaultTest for Option<T> {
    open spec fn is_default_test(v: Option<T>) -> bool {
        match v {
            Some(x) => T::is_default_test(x),
            None => false,
        }
    }

    fn default_test() -> (r: Option<T>)
        ensures
            r is Some,
            T::is_default_test(r->Some_0),
    {
        Some(T::default_test())
    }
}

impl<T: DefaultTest, E> DefaultTest for Result<T, E> {
    open spec fn is_default_test(v: Result<T, E>) -> bool {
        match v {
            Ok(x) => T::is_default_test(x),
            Err(_) => false,
        }
    }

    fn default_test() -> (r: Result<T, E>)
        ensures
            r is Ok,
            T::is_default_test(r->Ok_0),
    {
        Ok(T::default_test())
    }
}

} // verus!
