use vstd::prelude::*;
use vstd::utf8::*;

use crate::error::Error;

verus! {

/// `b` without its trailing zero bytes.
pub open spec fn trim_nul(b: Seq<u8>) -> Seq<u8>
    decreases b.len(),
{
    if b.len() > 0 && b.last() == 0 {
        trim_nul(b.drop_last())
    } else {
        b
    }
}

/// Relies on `std::str::from_utf8`: it accepts exactly the valid UTF-8 byte
/// sequences, and the text it returns is what those bytes encode.
#[verifier::external_body]
fn utf8_str(b: &[u8]) -> (r: Option<&str>)
    ensures
        r is Some <==> valid_utf8(b@),
        r matches Some(s) ==> s@ == decode_utf8(b@),
{
    std::str::from_utf8(b).ok()
}

/// The text of a zero-padded name field as the kernel fills it: the bytes up
/// to the trailing zeros, decoded as UTF-8.
pub fn name_from_bytes(raw: &[u8]) -> (r: Result<String, Error>)
    ensures
        valid_utf8(trim_nul(raw@)) ==> (r matches Ok(s) && s@ == decode_utf8(trim_nul(raw@))),
        !valid_utf8(trim_nul(raw@)) ==> r == Err::<String, Error>(Error::StringConversionError),
{
    let mut n: usize = raw.len();
    assert(raw@.take(n as int) =~= raw@);
    while n > 0 && raw[n - 1] == 0
        invariant
            n <= raw@.len(),
            trim_nul(raw@) == trim_nul(raw@.take(n as int)),
        decreases n,
    {
        assert(raw@.take(n as int).drop_last() =~= raw@.take(n as int - 1));
        n = n - 1;
    }
    assert(n == raw@.len() ==> raw@.take(n as int) =~= raw@);
    assert(trim_nul(raw@.take(n as int)) == raw@.take(n as int));
    let mut kept: Vec<u8> = Vec::new();
    let mut i: usize = 0;
    while i < n
        invariant
            i <= n <= raw@.len(),
            kept@ =~= raw@.take(i as int),
        decreases n - i,
    {
        kept.push(raw[i]);
        i = i + 1;
    }
    match utf8_str(kept.as_slice()) {
        Some(s) => Ok(s.to_owned()),
        None => Err(Error::StringConversionError),
    }
}

} // verus!
