use default_test::DefaultTest;

#[derive(Debug, Eq, PartialEq)]
struct User {
    id: usize,
    name: String,
    email: String,
    admin: bool,
}

impl DefaultTest for User {
    fn default_test() -> Self {
        Self {
            id: 0,
            name: "name".into(),
            email: "email".into(),
            admin: false,
        }
    }
}

#[test]
fn bool_is_false() {
    assert_eq!(bool::default_test(), false);
}

#[test]
fn char_is_dash() {
    assert_eq!(char::default_test(), '-');
}

#[test]
fn str_is_string_literal() {
    let s: &str = DefaultTest::default_test();
    assert_eq!(s, "string");
}

#[test]
fn owned_string_is_string_literal() {
    let s: String = DefaultTest::default_test();
    assert_eq!(s, "string".to_string());
    assert_eq!(s.len(), 6);
}

#[test]
fn unsigned_integers_are_zero() {
    assert_eq!(u8::default_test(), 0);
    assert_eq!(u16::default_test(), 0);
    assert_eq!(u32::default_test(), 0);
    assert_eq!(u64::default_test(), 0);
    assert_eq!(u128::default_test(), 0);
    assert_eq!(usize::default_test(), 0);
}

#[test]
fn signed_integers_are_zero() {
    assert_eq!(i8::default_test(), 0);
    assert_eq!(i16::default_test(), 0);
    assert_eq!(i32::default_test(), 0);
    assert_eq!(i64::default_test(), 0);
    assert_eq!(i128::default_test(), 0);
    assert_eq!(isize::default_test(), 0);
}

#[test]
fn repeated_calls_agree() {
    assert_eq!(bool::default_test(), bool::default_test());
    assert_eq!(char::default_test(), char::default_test());
    assert_eq!(<&str>::default_test(), <&str>::default_test());
    assert_eq!(String::default_test(), String::default_test());
    assert_eq!(u8::default_test(), u8::default_test());
    assert_eq!(i16::default_test(), i16::default_test());
    assert_eq!(u32::default_test(), u32::default_test());
    assert_eq!(i64::default_test(), i64::default_test());
    assert_eq!(u128::default_test(), u128::default_test());
    assert_eq!(isize::default_test(), isize::default_test());
}

#[test]
fn user_override_keeps_other_fields() {
    let user = User {
        admin: true,
        ..User::default_test()
    };
    let expected = User {
        id: 0,
        name: "name".into(),
        email: "email".into(),
        admin: true,
    };
    assert_eq!(expected, user);
}

#[test]
fn user_override_twice_is_identical() {
    let first = User {
        admin: true,
        ..User::default_test()
    };
    let second = User {
        admin: true,
        ..User::default_test()
    };
    assert_eq!(first, second);
}

#[test]
fn user_fields_from_scalar_placeholders() {
    let user = User {
        id: usize::default_test(),
        name: String::default_test(),
        ..User::default_test()
    };
    assert_eq!(user.id, 0);
    assert_eq!(user.name, "string");
    assert_eq!(user.email, "email");
    assert!(!user.admin);
}

#[test]
fn option_wraps_inner_placeholder() {
    assert_eq!(Option::<u32>::default_test(), Some(0));
    assert_eq!(Option::<char>::default_test(), Some('-'));
    assert_eq!(Option::<String>::default_test(), Some("string".to_string()));
}

#[test]
fn result_wraps_inner_placeholder() {
    assert_eq!(Result::<bool, String>::default_test(), Ok(false));
    assert_eq!(Result::<i8, u8>::default_test(), Ok(0));
    let r: Result<&str, ()> = DefaultTest::default_test();
    assert_eq!(r, Ok("string"));
}

#[test]
fn nested_wrappers_keep_inner_placeholder() {
    let v: Option<Result<char, ()>> = DefaultTest::default_test();
    assert_eq!(v, Some(Ok('-')));
}
