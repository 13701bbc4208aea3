//! Chunk identifiers, the chunk walk step, and the length-prefixed strings
//! the container uses.

use vstd::prelude::*;

use crate::aiff::error::AiffError;
use crate::bytes::{read_u32_be, spec_u32_be};

verus! {

/// A four-byte chunk identifier: printable characters, with spaces only as
/// a suffix.
#[derive(Debug, Clone, Copy, PartialEq, Eq, Hash)]
pub struct ID([u8; 4]);

impl View for ID {
    type V = Seq<u8>;

    closed spec fn view(&self) -> Seq<u8> {
        self.0@
    }
}

/// Whether four bytes form a valid identifier: every byte a space or a
/// printable character, and no printable character after a space.
pub open spec fn spec_id_ok(s: Seq<u8>) -> bool {
    &&& (forall|i: int| 0 <= i < s.len() ==> (s[i] == 0x20 || (0x21 <= #[trigger] s[i] <= 0x7e)))
    &&& (forall|i: int, j: int|
        0 <= i < j < s.len() ==> !((#[trigger] s[i]) == 0x20 && 0x21 <= (#[trigger] s[j])
            <= 0x7e))
}

impl ID {
    /// The identifier's bytes.
    pub fn data(&self) -> (r: &[u8])
        ensures
            r@ == self@,
    {
        &self.0
    }

    /// Whether the identifier is these four bytes.
    pub fn is_id(&self, a: u8, b: u8, c: u8, d: u8) -> (r: bool)
        ensures
            r == (self@ == seq![a, b, c, d]),
    {
        let hit = self.0[0] == a && self.0[1] == b && self.0[2] == c && self.0[3] == d;
        proof {
            if hit {
                assert(self@ =~= seq![a, b, c, d]);
            } else if self@ == seq![a, b, c, d] {
                assert(self@[0] == a && self@[1] == b && self@[2] == c && self@[3] == d);
            }
        }
        hit
    }

    /// Validates four bytes as an identifier.
    pub fn try_from(value: &[u8]) -> (r: Result<ID, AiffError>)
        requires
            value@.len() == 4,
        ensures
            match r {
                Ok(id) => spec_id_ok(value@) && id@ == value@,
                Err(e) => !spec_id_ok(value@) && e == AiffError::InvalidFormat,
            },
    {
        let mut has_spaces = false;
        let mut i: usize = 0;
        while i < 4
            invariant
                i <= 4,
                value@.len() == 4,
                has_spaces == (exists|k: int| 0 <= k < i && value@[k] == 0x20),
                forall|k: int|
                    0 <= k < i ==> (value@[k] == 0x20 || (0x21 <= #[trigger] value@[k] <= 0x7e)),
                forall|k: int, j: int|
                    0 <= k < j < i ==> !((#[trigger] value@[k]) == 0x20 && 0x21 <= (
                    #[trigger] value@[j]) <= 0x7e),
            decreases 4 - i,
        {
            let b = value[i];
            if b == 0x20 {
                has_spaces = true;
            } else if 0x21 <= b && b <= 0x7e {
                if has_spaces {
                    return Err(AiffError::InvalidFormat);
                }
            } else {
                return Err(AiffError::InvalidFormat);
            }
            i = i + 1;
        }
        Ok(ID([value[0], value[1], value[2], value[3]]))
    }
}

/// What one step of the chunk walk over `d` yields: the chunk's identifier
/// bytes, its contents, and the rest of the buffer past it (skipping the
/// padding byte after an odd-sized chunk, where one remains).
pub open spec fn spec_read_chunk(d: Seq<u8>) -> Result<(Seq<u8>, Seq<u8>, Seq<u8>), AiffError> {
    if d.len() < 8 {
        Err(AiffError::InvalidFormat)
    } else {
        let size = spec_u32_be(d[4], d[5], d[6], d[7]) as int;
        if d.len() < 8 + size {
            Err(AiffError::InvalidFormat)
        } else if !spec_id_ok(d.subrange(0, 4)) {
            Err(AiffError::InvalidFormat)
        } else {
            let rest_start = if size % 2 == 1 && 8 + size < d.len() {
                9 + size
            } else {
                8 + size
            };
            Ok((d.subrange(0, 4), d.subrange(8, 8 + size), d.subrange(rest_start, d.len() as int)))
        }
    }
}

/// Reads one chunk from the start of `data`: its identifier, its contents,
/// and the rest of the buffer past it.
pub fn read_chunk<'a>(data: &'a [u8]) -> (r: Result<(ID, &'a [u8], &'a [u8]), AiffError>)
    ensures
        match r {
            Ok(ok) => spec_read_chunk(data@) == Ok::<_, AiffError>((ok.0@, ok.1@, ok.2@)),
            Err(e) => spec_read_chunk(data@) == Err::<(Seq<u8>, Seq<u8>, Seq<u8>), _>(e),
        },
{
    if data.len() < 8 {
        return Err(AiffError::InvalidFormat);
    }
    let size: u32 = read_u32_be(&data[4..data.len()]);
    if data.len() < 8 || (data.len() - 8) < size as usize {
        return Err(AiffError::InvalidFormat);
    }
    let id = match ID::try_from(&data[0..4]) {
        Ok(id) => id,
        Err(e) => {
            return Err(e);
        },
    };
    let chunk_end: usize = 8 + size as usize;
    let chunk_data: &'a [u8] = &data[8..chunk_end];
    let rest_start: usize = if size % 2 == 1 && chunk_end < data.len() {
        chunk_end + 1
    } else {
        chunk_end
    };
    let rest: &'a [u8] = &data[rest_start..data.len()];
    Ok((id, chunk_data, rest))
}

/// What the character content of bytes is under the lossy UTF-8 reading
/// that `String::from_utf8_lossy` performs.
pub uninterp spec fn spec_utf8_lossy(b: Seq<u8>) -> Seq<char>;

/// Relies on `String::from_utf8_lossy`: the result depends on the bytes
/// alone, and bytes that are all ASCII come through unchanged.
#[verifier::external_body]
fn utf8_lossy_string(b: &[u8]) -> (r: String)
    ensures
        r@ == spec_utf8_lossy(b@),
        (forall|i: int| 0 <= i < b@.len() ==> b@[i] < 0x80) ==> (r@.len() == b@.len() && forall|
            i: int,
        |
            0 <= i < b@.len() ==> (#[trigger] r@[i]) as u32 == b@[i] as u32),
{
    String::from_utf8_lossy(b).into_owned()
}

/// What reading a length-prefixed string from the start of `d` yields: the
/// character content and the bytes consumed, which the format pads to an
/// even count.
pub open spec fn spec_read_pstring(d: Seq<u8>) -> Result<(Seq<char>, int), AiffError> {
    if d.len() < 1 {
        Err(AiffError::InvalidFormat)
    } else {
        let n = d[0] as int;
        let consumed = if n % 2 == 0 {
            n + 2
        } else {
            n + 1
        };
        if d.len() < consumed {
            Err(AiffError::InvalidFormat)
        } else {
            Ok((spec_utf8_lossy(d.subrange(1, 1 + n)), consumed))
        }
    }
}

/// Reads a length-prefixed string from the start of `data`.
/// Returns the string and the number of bytes consumed, padding included.
pub fn read_pstring(data: &[u8]) -> (r: Result<(String, usize), AiffError>)
    ensures
        match r {
            Ok(ok) => spec_read_pstring(data@) == Ok::<_, AiffError>((ok.0@, ok.1 as int)),
            Err(e) => spec_read_pstring(data@) == Err::<(Seq<char>, int), _>(e),
        },
{
    if data.len() < 1 {
        return Err(AiffError::InvalidFormat);
    }
    let n: usize = data[0] as usize;
    let consumed: usize = if n % 2 == 0 {
        n + 2
    } else {
        n + 1
    };
    if data.len() < consumed {
        return Err(AiffError::InvalidFormat);
    }
    let s = utf8_lossy_string(&data[1..1 + n]);
    Ok((s, consumed))
}

} // verus!
