//! What holds of the placeholders across calls and across types.

use vstd::prelude::*;

use crate::DefaultTest;

verus! {

/// The placeholder of `T` is one value: any two values that `default_test`
/// may return are equal.
pub open spec fn default_test_is_unique<T: DefaultTest>() -> bool {
    forall|a: T, b: T| T::is_default_test(a) && T::is_default_test(b) ==> a == b
}

/// Every built-in scalar placeholder is deterministic: two calls of
/// `default_test` on the same type give equal values (for the string types,
/// equal text).
pub proof fn lemma_scalar_default_test_deterministic()
    ensures
        default_test_is_unique::<bool>(),
        default_test_is_unique::<char>(),
        default_test_is_unique::<usize>(),
        default_test_is_unique::<isize>(),
        default_test_is_unique::<u8>(),
        default_test_is_unique::<i8>(),
        default_test_is_unique::<u16>(),
        default_test_is_unique::<i16>(),
        default_test_is_unique::<u32>(),
        default_test_is_unique::<i32>(),
        default_test_is_unique::<u64>(),
        default_test_is_unique::<i64>(),
        default_test_is_unique::<u128>(),
        default_test_is_unique::<i128>(),
        forall|a: &str, b: &str|
            <&str>::is_default_test(a) && <&str>::is_default_test(b) ==> a@ == b@,
        forall|a: String, b: String|
            String::is_default_test(a) && String::is_default_test(b) ==> a@ == b@,
{
}

/// Taking the placeholder and overriding it is idempotent: where the
/// placeholder is one value, the same override applied to the results of two
/// calls gives the same record. Nothing in between (a counter, a global)
/// can tell the two apart.
pub proof fn lemma_override_idempotent<T: DefaultTest, U>(a: T, b: T, with: spec_fn(T) -> U)
    requires
        default_test_is_unique::<T>(),
        T::is_default_test(a),
        T::is_default_test(b),
    ensures
        with(a) == with(b),
{
}

/// Wrapping keeps the inner placeholder unchanged: the placeholder of
/// `Option<T>` is `Some` of that of `T`, and the placeholder of
/// `Result<T, E>` is `Ok` of it; and where `T` has one placeholder, so does
/// each wrapper.
pub proof fn lemma_wrapped_default_test_keeps_inner<T: DefaultTest, E>(x: T)
    ensures
        Option::<T>::is_default_test(Some(x)) == T::is_default_test(x),
        Result::<T, E>::is_default_test(Ok(x)) == T::is_default_test(x),
        !Option::<T>::is_default_test(None),
        forall|e: E| !Result::<T, E>::is_default_test(Err(e)),
        default_test_is_unique::<T>() ==> default_test_is_unique::<Option<T>>(),
        default_test_is_unique::<T>() ==> default_test_is_unique::<Result<T, E>>(),
{
}

} // verus!
