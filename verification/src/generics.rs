//! Small generic utilities: choosing between values, duplicating a value,
//! ordering-based minimum, and conversions into a message-carrying wrapper.

use vstd::prelude::*;
use vstd::pervasive::cloned;
use vstd::std_specs::cmp::OrdSpec;
use vstd::std_specs::convert::FromSpec;
use vstd::string::StringExecFns;
use core::cmp::Ordering;
use crate::decimal::dec_digits;
use crate::decimal::u32_to_decimal;

verus! {

/// Choose the left value when the condition holds, the right one otherwise.
pub fn pick<T>(cond: bool, left: T, right: T) -> (chosen: T)
    ensures
        chosen == (if cond {
            left
        } else {
            right
        }),
{
    if cond {
        left
    } else {
        right
    }
}

/// Return two clones of a value.
pub fn duplicate<T: Clone>(a: T) -> (pair: (T, T))
    ensures
        cloned::<T>(a, pair.0),
        cloned::<T>(a, pair.1),
{
    (a.clone(), a.clone())
}

/// The smaller of two values, preferring the left one on a tie.
pub fn min<T: Ord>(l: T, r: T) -> (m: T)
    ensures
        m == l || m == r,
        T::obeys_cmp_spec() ==> m == (match l.cmp_spec(&r) {
            Ordering::Less | Ordering::Equal => l,
            Ordering::Greater => r,
        }),
{
    match l.cmp(&r) {
        Ordering::Less | Ordering::Equal => l,
        Ordering::Greater => r,
    }
}

/// Add forty-two million to anything that widens losslessly into an `i32`.
pub fn add_42_millions<T>(x: T) -> (r: i32) where i32: From<T>
    requires
        <i32 as FromSpec<T>>::obeys_from_spec(),
        <i32 as FromSpec<T>>::from_spec(x) + 42_000_000 <= i32::MAX,
    ensures
        r == <i32 as FromSpec<T>>::from_spec(x) + 42_000_000,
{
    let v: i32 = x.into();
    v + 42_000_000
}

/// The two neighbours of a number: its successor and its predecessor.
pub fn pair_of(x: u32) -> (pair: (u32, u32))
    requires
        1 <= x < u32::MAX,
    ensures
        pair.0 == x + 1,
        pair.1 == x - 1,
{
    (x + 1, x - 1)
}

/// A message recording which value a `Foo` was converted from.
pub struct Foo(pub String);

/// The wording of the message for a conversion from a number.
pub open spec fn foo_int_message(v: nat) -> Seq<char> {
    "Converted from integer: "@ + dec_digits(v)
}

/// The wording of the message for a conversion from a boolean.
pub open spec fn foo_bool_message(b: bool) -> Seq<char> {
    if b {
        "Converted from bool : true"@
    } else {
        "Converted from bool : false"@
    }
}

impl From<u32> for Foo {
    /// Record the decimal rendering of the number in the message.
    fn from(v: u32) -> (f: Foo)
        ensures
            f.0@ == foo_int_message(v as nat),
    {
        Foo(String::from_str("Converted from integer: ").concat(u32_to_decimal(v).as_str()))
    }
}

impl vstd::std_specs::convert::FromSpecImpl<u32> for Foo {
    open spec fn obeys_from_spec() -> bool {
        false
    }

    open spec fn from_spec(v: u32) -> Foo {
        arbitrary()
    }
}

impl From<bool> for Foo {
    /// Record the truth value, spelled out, in the message.
    fn from(value: bool) -> (f: Foo)
        ensures
            f.0@ == foo_bool_message(value),
    {
        if value {
            Foo(String::from_str("Converted from bool : true"))
        } else {
            Foo(String::from_str("Converted from bool : false"))
        }
    }
}

impl vstd::std_specs::convert::FromSpecImpl<bool> for Foo {
    open spec fn obeys_from_spec() -> bool {
        false
    }

    open spec fn from_spec(v: bool) -> Foo {
        arbitrary()
    }
}

} // verus!
