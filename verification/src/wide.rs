//! Nul-terminated UTF-16 strings, as the kernel's routine-lookup and property
//! functions take them.
use vstd::prelude::*;

verus! {

/// The UTF-16 code units of one character: the character itself below
/// `0x10000`, a surrogate pair above.
pub open spec fn utf16_units(c: char) -> Seq<u16> {
    let v = c as int;
    if v < 0x10000 {
        seq![v as u16]
    } else {
        seq![(0xD800 + (v - 0x10000) / 0x400) as u16, (0xDC00 + (v - 0x10000) % 0x400) as u16]
    }
}

/// The UTF-16 encoding of a character sequence.
pub open spec fn utf16_encode(s: Seq<char>) -> Seq<u16>
    decreases s.len(),
{
    if s.len() == 0 {
        Seq::empty()
    } else {
        utf16_encode(s.drop_last()) + utf16_units(s.last())
    }
}

/// A string can be made a nul-terminated wide string when no nul character
/// stands anywhere but at its very end.
pub open spec fn nul_only_at_end(s: Seq<char>) -> bool {
    forall|i: int| 0 <= i < s.len() - 1 ==> s[i] != '\0'
}

/// The string without a nul character at its end, if it has one there.
pub open spec fn without_trailing_nul(s: Seq<char>) -> Seq<char> {
    if s.len() > 0 && s.last() == '\0' {
        s.drop_last()
    } else {
        s
    }
}

/// Calls `widestring::U16CString::from_str`, which encodes the string as
/// UTF-16 and refuses it when a nul unit stands anywhere but last, and hands
/// the units back without the terminating nul (`into_vec`). The contract
/// claims that the call succeeds exactly when no nul character stands before
/// the last position, and that the units are the UTF-16 encoding of the
/// string without a trailing nul.
#[verifier::external_body]
fn u16_c_string_units(s: &str) -> (units: Option<Vec<u16>>)
    ensures
        units is Some <==> nul_only_at_end(s@),
        units matches Some(v) ==> v@ == utf16_encode(without_trailing_nul(s@)),
{
    match widestring::U16CString::from_str(s) {
        Ok(wide) => Some(wide.into_vec()),
        Err(_) => None,
    }
}

/// The UTF-16 units of `s` as a nul-terminated wide string (without the
/// terminator), or `None` when `s` holds a nul character before its end.
pub fn wide_string_units(s: &str) -> (units: Option<Vec<u16>>)
    ensures
        units is Some <==> nul_only_at_end(s@),
        units matches Some(v) ==> v@ == utf16_encode(without_trailing_nul(s@)),
{
    u16_c_string_units(s)
}

/// Characters below `0x10000` take one unit each.
pub proof fn lemma_utf16_encode_len_bmp(s: Seq<char>)
    requires
        forall|i: int| 0 <= i < s.len() ==> (s[i] as int) < 0x10000,
    ensures
        utf16_encode(s).len() == s.len(),
        forall|i: int| 0 <= i < s.len() ==> utf16_encode(s)[i] == s[i] as u16,
    decreases s.len(),
{
    if s.len() > 0 {
        lemma_utf16_encode_len_bmp(s.drop_last());
        let prefix = utf16_encode(s.drop_last());
        assert forall|i: int| 0 <= i < s.len() implies utf16_encode(s)[i] == s[i] as u16 by {
            if i < s.len() - 1 {
                assert(utf16_encode(s)[i] == prefix[i]);
                assert(s.drop_last()[i] == s[i]);
            }
        }
    }
}

} // verus!
