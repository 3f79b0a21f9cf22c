//! Symbol names as the backend takes them: UTF-8 text with no NUL byte,
//! handed over with one terminating NUL.
use vstd::prelude::*;

verus! {

/// The bytes of `s` as UTF-8.
pub open spec fn utf8_of(s: Seq<char>) -> Seq<u8> {
    vstd::utf8::encode_utf8(s)
}

/// A name the backend can take: its encoding holds no NUL byte.
pub open spec fn is_plain_name(s: Seq<char>) -> bool {
    !utf8_of(s).contains(0u8)
}

/// The NUL-terminated byte string handed to the backend for `s`.
pub open spec fn terminated(s: Seq<char>) -> Seq<u8> {
    utf8_of(s).push(0u8)
}

/// Whether `name` can be handed to the backend as a symbol or path.
pub fn is_valid_name(name: &str) -> (r: bool)
    ensures
        r == is_plain_name(name@),
{
    let bytes = name.as_bytes();
    let mut i: usize = 0;
    while i < bytes.len()
        invariant
            bytes@ == utf8_of(name@),
            i <= bytes@.len(),
            forall|j: int| 0 <= j < i ==> bytes@[j] != 0u8,
        decreases bytes@.len() - i,
    {
        if bytes[i] == 0u8 {
            assert(bytes@[i as int] == 0u8);
            return false;
        }
        i = i + 1;
    }
    assert(!utf8_of(name@).contains(0u8)) by {
        if utf8_of(name@).contains(0u8) {
            let k = choose|k: int| 0 <= k < bytes@.len() && bytes@[k] == 0u8;
            assert(bytes@[k] != 0u8);
        }
    }
    true
}

/// The terminated byte string for `name`: its UTF-8 bytes, then one NUL,
/// the only NUL in the result.
pub fn c_name_bytes(name: &str) -> (r: Vec<u8>)
    requires
        is_plain_name(name@),
    ensures
        r@ == terminated(name@),
        r@.len() > 0,
        r@.last() == 0u8,
        forall|j: int| 0 <= j < r@.len() - 1 ==> r@[j] != 0u8,
{
    let bytes = name.as_bytes();
    let mut out: Vec<u8> = Vec::new();
    let mut i: usize = 0;
    while i < bytes.len()
        invariant
            bytes@ == utf8_of(name@),
            i <= bytes@.len(),
            out@ == bytes@.subrange(0, i as int),
        decreases bytes@.len() - i,
    {
        out.push(bytes[i]);
        i = i + 1;
    }
    assert(out@ == bytes@);
    out.push(0u8);
    assert forall|j: int| 0 <= j < out@.len() - 1 implies out@[j] != 0u8 by {
        assert(out@[j] == bytes@[j]);
        if bytes@[j] == 0u8 {
            assert(utf8_of(name@).contains(0u8));
        }
    }
    out
}

} // verus!

verus! {

/// The terminated bytes for `name`, or nothing when `name` holds a NUL.
pub fn symbol_bytes(name: &str) -> (r: Option<Vec<u8>>)
    ensures
        r is None <==> !is_plain_name(name@),
        r matches Some(b) ==> b@ == terminated(name@),
{
    if is_valid_name(name) {
        Some(c_name_bytes(name))
    } else {
        None
    }
}

} // verus!
