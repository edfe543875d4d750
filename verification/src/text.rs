//! Verified string building. `std`'s `String` mutators carry no
//! specification in vstd, so the two primitive appends are taken on trust;
//! everything composed from them is verified.

use vstd::prelude::*;

verus! {

/// Relies on `String::push`: appends the given character to the end of this
/// string.
#[verifier::external_body]
pub(crate) fn string_push(s: &mut String, c: char)
    ensures
        final(s)@ == old(s)@.push(c),
{
    s.push(c);
}

/// Relies on `str::push_str` (`String::push_str`): appends a given string
/// slice onto the end of this string.
#[verifier::external_body]
pub(crate) fn string_push_str(s: &mut String, piece: &str)
    ensures
        final(s)@ == old(s)@ + piece@,
{
    s.push_str(piece);
}

/// Appends every character of `chars`, in order.
pub(crate) fn string_push_chars(s: &mut String, chars: &Vec<char>)
    ensures
        final(s)@ == old(s)@ + chars@,
{
    let mut i: usize = 0;
    while i < chars.len()
        invariant
            i <= chars@.len(),
            s@ == old(s)@ + chars@.subrange(0, i as int),
        decreases chars@.len() - i,
    {
        string_push(s, chars[i]);
        proof {
            assert(s@ =~= old(s)@ + chars@.subrange(0, i as int + 1));
        }
        i = i + 1;
    }
    proof {
        assert(old(s)@ + chars@.subrange(0, chars@.len() as int) =~= old(s)@ + chars@);
    }
}

} // verus!
