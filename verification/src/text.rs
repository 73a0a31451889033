//! Text that a client hands over as bytes in memory: a start, which may be null, and a length
//! or a terminating zero.

use vstd::prelude::*;
use vstd::slice::slice_subrange;

#[allow(unused_imports)]
use vstd::utf8::{decode_utf8, valid_utf8};

verus! {

/// Reads the bytes as UTF-8 with `std::str::from_utf8`. The contract claims of it what its
/// documentation says: it succeeds exactly on valid UTF-8, and the characters are those that
/// the bytes encode.
#[verifier::external_body]
fn from_utf8(bytes: &[u8]) -> (text: Option<&str>)
    ensures
        match text {
            Some(text) => valid_utf8(bytes@) && text@ == decode_utf8(bytes@),
            None => !valid_utf8(bytes@),
        },
{
    std::str::from_utf8(bytes).ok()
}

/// Whether the start is null or that many bytes can be read from it.
pub open spec fn readable(start: Option<&[u8]>, length: usize) -> bool {
    start is Some ==> length <= start->0@.len()
}

/// Whether the start is null or a zero byte follows it.
pub open spec fn terminated(start: Option<&[u8]>) -> bool {
    start is Some ==> start->0@.contains(0u8)
}

/// The number of bytes before the terminating zero; nothing is before a null start.
pub open spec fn length_to_zero(start: Option<&[u8]>) -> int {
    match start {
        Some(bytes) => bytes@.index_of_first(0u8)->0,
        None => 0,
    }
}

/// The text in the given number of bytes, where the start is not null and the bytes are valid
/// UTF-8.
pub open spec fn text_at(start: Option<&[u8]>, length: int) -> Option<Seq<char>> {
    match start {
        Some(bytes) if valid_utf8(bytes@.take(length)) => Some(decode_utf8(bytes@.take(length))),
        _ => None,
    }
}

/// Returns the number of bytes before the terminating zero.
pub fn strlen(start: Option<&[u8]>) -> (length: usize)
    requires
        terminated(start),
    ensures
        length == length_to_zero(start),
        readable(start, length),
{
    match start {
        None => 0,
        Some(bytes) => {
            let mut i: usize = 0;
            while i < bytes.len() && bytes[i] != 0
                invariant
                    i <= bytes@.len(),
                    forall|j: int| 0 <= j < i ==> bytes@[j] != 0,
                decreases bytes@.len() - i,
            {
                i = i + 1;
            }
            proof {
                bytes@.index_of_first_ensures(0u8);
            }
            i
        },
    }
}

/// Returns the text in the given number of bytes.
pub fn ptr_to_cstr_n(start: Option<&[u8]>, length: usize) -> (text: Option<&str>)
    requires
        readable(start, length),
    ensures
        match text {
            Some(text) => text_at(start, length as int) == Some(text@),
            None => text_at(start, length as int) is None,
        },
{
    match start {
        None => None,
        Some(bytes) => {
            let prefix = slice_subrange(bytes, 0, length);
            assert(prefix@ =~= bytes@.take(length as int));
            from_utf8(prefix)
        },
    }
}

} // verus!
