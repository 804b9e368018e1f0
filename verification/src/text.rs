use vstd::prelude::*;
use vstd::string::*;

verus! {

/// Returns whether two strings hold the same characters.
pub fn str_eq(a: &str, b: &str) -> (equal: bool)
    ensures
        equal == (a@ == b@),
{
    let x = a.as_bytes();
    let y = b.as_bytes();
    proof {
        vstd::utf8::encode_utf8_decode_utf8(a@);
        vstd::utf8::encode_utf8_decode_utf8(b@);
    }
    if x.len() != y.len() {
        return false;
    }
    let mut i: usize = 0;
    while i < x.len()
        invariant
            x@ == a.spec_bytes(),
            y@ == b.spec_bytes(),
            x@.len() == y@.len(),
            i <= x@.len(),
            forall|j: int| 0 <= j < i ==> x@[j] == y@[j],
        decreases x@.len() - i,
    {
        if x[i] != y[i] {
            return false;
        }
        i = i + 1;
    }
    assert(x@ =~= y@);
    true
}

/// Returns whether `value` begins with the characters of `prefix`.
pub fn starts_with(value: &str, prefix: &str) -> (result: bool)
    ensures
        result == (prefix@.len() <= value@.len() && value@.subrange(0, prefix@.len() as int) == prefix@),
{
    let n = prefix.unicode_len();
    let m = value.unicode_len();
    if n > m {
        return false;
    }
    let mut i: usize = 0;
    while i < n
        invariant
            n == prefix@.len(),
            m == value@.len(),
            n <= m,
            i <= n,
            forall|j: int| 0 <= j < i ==> value@[j] == prefix@[j],
        decreases n - i,
    {
        if value.get_char(i) != prefix.get_char(i) {
            assert(value@.subrange(0, n as int)[i as int] != prefix@[i as int]);
            return false;
        }
        i = i + 1;
    }
    assert(value@.subrange(0, n as int) =~= prefix@);
    true
}

/// Returns an owned copy of `value`.
pub fn owned(value: &str) -> (copy: String)
    ensures
        copy@ == value@,
{
    value.to_owned()
}

} // verus!
