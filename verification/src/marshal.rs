//! Argument marshalling shared by the bindings.
//!
//! Foreign entry points take null-terminated text and byte-valued booleans.
//! The functions here produce those encodings and reject text that cannot be
//! encoded because it already contains a null byte.

use vstd::prelude::*;
use vstd::slice::slice_to_vec;
use vstd::string::StringSliceAdditionalSpecFns;

verus! {

/// Holds whether a byte sequence contains a null byte.
pub open spec fn has_nul(bytes: Seq<u8>) -> bool {
    exists|i: int| 0 <= i < bytes.len() && bytes[i] == 0
}

/// A text argument that contains an embedded null byte and therefore has no
/// null-terminated encoding. `position` is the index of the first null byte.
#[derive(Debug, Clone, Copy, PartialEq, Eq, Structural)]
pub struct InvalidText {
    /// Byte index of the first embedded null.
    pub position: usize,
}

/// Returns the index of the first null byte, if any.
pub fn find_nul(bytes: &[u8]) -> (r: Option<usize>)
    ensures
        match r {
            Some(i) => i < bytes@.len() && bytes@[i as int] == 0 && forall|j: int|
                0 <= j < i ==> bytes@[j] != 0,
            None => !has_nul(bytes@),
        },
{
    let n = bytes.len();
    let mut i: usize = 0;
    while i < n
        invariant
            n == bytes@.len(),
            i <= n,
            forall|j: int| 0 <= j < i ==> bytes@[j] != 0,
        decreases n - i,
    {
        if bytes[i] == 0 {
            return Some(i);
        }
        i = i + 1;
    }
    None
}

/// Encodes `s` as null-terminated bytes: the text's own bytes followed by a
/// single terminating null. Text that already contains a null byte is
/// rejected, reporting the position of its first null.
pub fn to_c_bytes(s: &str) -> (r: Result<Vec<u8>, InvalidText>)
    ensures
        r is Err <==> has_nul(s.spec_bytes()),
        match r {
            Ok(v) => v@ == s.spec_bytes().push(0u8),
            Err(e) => e.position < s.spec_bytes().len() && s.spec_bytes()[e.position as int] == 0
                && forall|j: int| 0 <= j < e.position ==> s.spec_bytes()[j] != 0,
        },
{
    let bytes = s.as_bytes();
    match find_nul(bytes) {
        Some(i) => Err(InvalidText { position: i }),
        None => {
            let mut v = slice_to_vec(bytes);
            v.push(0);
            Ok(v)
        },
    }
}

/// Encodes a boolean as the byte the foreign libraries expect.
pub fn bool_to_byte(b: bool) -> (r: u8)
    ensures
        r == (if b { 1u8 } else { 0u8 }),
{
    if b { 1 } else { 0 }
}

/// Decodes a foreign byte-valued boolean: any non-zero byte is true.
pub fn byte_to_bool(v: u8) -> (r: bool)
    ensures
        r == (v != 0),
{
    v != 0
}

} // verus!
