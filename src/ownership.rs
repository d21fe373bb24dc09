use vstd::prelude::*;
use vstd::string::StringExecFns;
use vstd::utf8::encode_utf8;

verus! {

/// `x` times itself.
pub fn square(x: i32) -> (r: i32)
    requires
        i32::MIN <= x * x <= i32::MAX,
    ensures
        r == x * x,
{
    x * x
}

/// The sum of `a` and `b`.
pub fn add(a: i32, b: i32) -> (r: i32)
    requires
        i32::MIN <= a + b <= i32::MAX,
    ensures
        r == a + b,
{
    a + b
}

/// Calls `f` on `x`.
pub fn apply_function<F>(f: F, x: i32) -> (r: i32) where F: Fn(i32) -> i32
    requires
        f.requires((x,)),
    ensures
        f.ensures((x,), r),
{
    f(x)
}

/// The length of `s` in bytes of UTF-8.
pub fn calculate_length(s: &String) -> (r: usize)
    ensures
        r == encode_utf8(s@).len() as usize,
{
    s.as_str().len()
}

/// Appends ", world!" to `s`.
pub fn modify_string(s: &mut String)
    ensures
        final(s)@ == old(s)@ + ", world!"@,
{
    s.append(", world!");
}

/// The function that multiplies its argument by `a`; it may be called
/// wherever the product fits in an `i32`.
pub fn multiply(a: i32) -> (f: impl Fn(i32) -> i32)
    ensures
        forall|b: i32| i32::MIN <= a * b <= i32::MAX ==> #[trigger] f.requires((b,)),
        forall|b: i32, r: i32| #[trigger] f.ensures((b,), r) ==> r == a * b,
{
    move |b: i32| -> (r: i32)
        requires
            i32::MIN <= a * b <= i32::MAX,
        ensures
            r == a * b,
        { a * b }
}

} // verus!
