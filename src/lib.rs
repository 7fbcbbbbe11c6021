//! A `Default`-like trait for tests: each type gives one fixed, readable
//! placeholder value, which a test takes whole or overrides field by field
//! with struct-update syntax (`User { admin: true, ..User::default_test() }`).

use vstd::prelude::*;

pub mod laws;
pub mod scalars;
pub mod wrappers;

verus! {

/// A type with a mock value for use in unit tests.
///
/// `default_test` takes no input, cannot fail and has no side effect.
/// `is_default_test` says which value it returns: the built-in
/// implementations pin it to one literal. An implementation that does not
/// override it claims nothing about its value.
pub trait DefaultTest: Sized {
    /// Holds of the value that `default_test` returns.
    open spec fn is_default_test(v: Self) -> bool {
        true
    }

    /// Returns the placeholder value of the type.
    fn default_test() -> (r: Self)
        ensures
            Self::is_default_test(r),
    ;
}

} // verus!
