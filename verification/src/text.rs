use vstd::prelude::*;

verus! {

/// What `str::trim` returns: the character sequence with leading and trailing
/// whitespace removed. The exact whitespace table lives in std; contracts
/// only name the result, which depends on the characters alone.
pub uninterp spec fn trim_spec(s: Seq<char>) -> Seq<char>;

/// Relies on `<str as PartialEq>::eq`: two string slices are equal exactly
/// when their character sequences are.
#[verifier::external_body]
pub(crate) fn str_eq(a: &str, b: &str) -> (r: bool)
    ensures
        r == (a@ == b@),
{
    a == b
}

/// Relies on `String::from_utf8`: it succeeds exactly on valid UTF-8 input
/// and returns the decoded characters.
#[verifier::external_body]
pub(crate) fn utf8_string(bytes: &Vec<u8>) -> (r: Option<String>)
    ensures
        r is Some <==> vstd::utf8::valid_utf8(bytes@),
        r matches Some(s) ==> s@ == vstd::utf8::decode_utf8(bytes@),
{
    String::from_utf8(bytes.clone()).ok()
}

/// Relies on `str::trim`, whose result is `trim_spec` of the input.
#[verifier::external_body]
pub(crate) fn trim_string(s: &str) -> (r: String)
    ensures
        r@ == trim_spec(s@),
{
    s.trim().to_owned()
}

} // verus!
