//! Placeholders of the primitive and string types: `false`, `'-'`,
//! `"string"`, and `0` for every integer width.

use vstd::prelude::*;

use crate::DefaultTest;

verus! {

impl DefaultTest for bool {
    open spec fn is_default_test(v: bool) -> bool {
        v == false
    }

    fn default_test() -> (r: bool)
        ensures
            r == false,
    {
        false
    }
}

impl DefaultTest for char {
    open spec fn is_default_test(v: char) -> bool {
        v == '-'
    }

    fn default_test() -> (r: char)
        ensures
            r == '-',
    {
        '-'
    }
}

impl<'a> DefaultTest for &'a str {
    open spec fn is_default_test(v: &'a str) -> bool {
        v@ == "string"@
    }

    fn default_test() -> (r: &'a str)
        ensures
            r@ == "string"@,
    {
        "string"
    }
}

impl DefaultTest for String {
    open spec fn is_default_test(v: String) -> bool {
        v@ == "string"@
    }

    fn default_test() -> (r: String)
        ensures
            r@ == "string"@,
    {
        let s: &str = "string";
        s.to_owned()
    }
}

impl DefaultTest for usize {
    open spec fn is_default_test(v: usize) -> bool {
        v == 0
    }

    fn default_test() -> (r: usize)
        ensures
            r == 0,
    {
        0
    }
}

impl DefaultTest for isize {
    open spec fn is_default_test(v: isize) -> bool {
        v == 0
    }

    fn default_test() -> (r: isize)
        ensures
            r == 0,
    {
        0
    }
}

impl DefaultTest for u8 {
    open spec fn is_default_test(v: u8) -> bool {
        v == 0
    }

    fn default_test() -> (r: u8)
        ensures
            r == 0,
    {
        0
    }
}

impl DefaultTest for i8 {
    open spec fn is_default_test(v: i8) -> bool {
        v == 0
    }

    fn default_test() -> (r: i8)
        ensures
            r == 0,
    {
        0
    }
}

impl DefaultTest for u16 {
    open spec fn is_default_test(v: u16) -> bool {
        v == 0
    }

    fn default_test() -> (r: u16)
        ensures
            r == 0,
    {
        0
    }
}

impl DefaultTest for i16 {
    open spec fn is_default_test(v: i16) -> bool {
        v == 0
    }

    fn default_test() -> (r: i16)
        ensures
            r == 0,
    {
        0
    }
}

impl DefaultTest for u32 {
    open spec fn is_default_test(v: u32) -> bool {
        v == 0
    }

    fn default_test() -> (r: u32)
        ensures
            r == 0,
    {
        0
    }
}

impl DefaultTest for i32 {
    open spec fn is_default_test(v: i32) -> bool {
        v == 0
    }

    fn default_test() -> (r: i32)
        ensures
            r == 0,
    {
        0
    }
}

impl DefaultTest for u64 {
    open spec fn is_default_test(v: u64) -> bool {
        v == 0
    }

    fn default_test() -> (r: u64)
        ensures
            r == 0,
    {
        0
    }
}

impl DefaultTest for i64 {
    open spec fn is_default_test(v: i64) -> bool {
        v == 0
    }

    fn default_test() -> (r: i64)
        ensures
            r == 0,
    {
        0
    }
}

impl DefaultTest for u128 {
    open spec fn is_default_test(v: u128) -> bool {
        v == 0
    }

    fn default_test() -> (r: u128)
        ensures
            r == 0,
    {
        0
    }
}

impl DefaultTest for i128 {
    open spec fn is_default_test(v: i128) -> bool {
        v == 0
    }

    fn default_test() -> (r: i128)
        ensures
            r == 0,
    {
        0
    }
}

} // verus!
