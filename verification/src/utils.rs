use vstd::prelude::*;
use vstd::string::StrSliceExecFns;

verus! {

/// Splits a string slice into its first character and the rest.
///
/// Returns `None` exactly when the input is empty.
pub fn split_first_char<'a>(text: &'a str) -> (r: Option<(char, &'a str)>)
    ensures
        match r {
            Some(pair) => text@.len() > 0 && pair.0 == text@[0] && pair.1@ == text@.skip(1),
            None => text@.len() == 0,
        },
{
    let n = text.unicode_len();
    if n == 0 {
        None
    } else {
        let head = text.get_char(0);
        let tail = text.substring_char(1, n);
        proof {
            assert(tail@ =~= text@.skip(1));
        }
        Some((head, tail))
    }
}

/// Compares two string slices character by character.
pub fn str_eq(a: &str, b: &str) -> (r: bool)
    ensures
        r == (a@ == b@),
{
    let a_len = a.unicode_len();
    let b_len = b.unicode_len();
    if a_len != b_len {
        return false;
    }
    let mut i: usize = 0;
    while i < a_len
        invariant
            i <= a_len,
            a_len == a@.len(),
            b_len == b@.len(),
            a_len == b_len,
            forall|j: int| 0 <= j < i ==> a@[j] == b@[j],
        decreases a_len - i,
    {
        if a.get_char(i) != b.get_char(i) {
            return false;
        }
        i += 1;
    }
    proof {
        assert(a@ =~= b@);
    }
    true
}

/// Relies on `String::push`: appends the given character to the end of the string.
#[verifier::external_body]
pub(crate) fn push_char(s: &mut String, c: char)
    ensures
        final(s)@ == old(s)@.push(c),
{
    s.push(c);
}

} // verus!
