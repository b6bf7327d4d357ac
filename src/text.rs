//! Joining texts.

use vstd::prelude::*;
use vstd::string::StringExecFns;
use crate::numfmt::{decimal, push_decimal};

verus! {

/// `a` followed by `b`.
pub fn cat2(a: &str, b: &str) -> (r: String)
    ensures
        r@ == a@ + b@,
{
    let mut s = a.to_string();
    s.append(b);
    s
}

/// `a`, `b` and `c` in turn.
pub fn cat3(a: &str, b: &str, c: &str) -> (r: String)
    ensures
        r@ == a@ + b@ + c@,
{
    let mut s = a.to_string();
    s.append(b);
    s.append(c);
    s
}

/// `a`, `b`, `c` and `d` in turn.
pub fn cat4(a: &str, b: &str, c: &str, d: &str) -> (r: String)
    ensures
        r@ == a@ + b@ + c@ + d@,
{
    let mut s = a.to_string();
    s.append(b);
    s.append(c);
    s.append(d);
    s
}

/// `a`, the decimal text of `n`, then `b`.
pub fn around_number(a: &str, n: u64, b: &str) -> (r: String)
    ensures
        r@ == a@ + decimal(n as nat) + b@,
{
    let mut s = a.to_string();
    push_decimal(&mut s, n);
    s.append(b);
    s
}

} // verus!
