//! The fixed-width ASCII envelope that opens a product file:
//! `SDUSxx LLLL DDHHMM\r\r\nAAABBB\r\r\n`.
use vstd::prelude::*;
use vstd::utf8::{decode_utf8, valid_utf8};

use crate::bytes::{agrees, truncated};
use crate::error::Error;
use crate::text::utf8_text;

verus! {

/// The number of bytes of the envelope.
pub const TEXT_HEADER_LEN: usize = 30;

/// The text envelope of a product file.
#[derive(Clone, Debug, PartialEq, Eq)]
pub struct TextHeader {
    /// The two-digit category id after `SDUS`.
    pub xx: usize,
    /// The four-character location code.
    pub location: String,
    /// The six-character timestamp, `DDHHMM`.
    pub timestamp: String,
    /// The three-character category.
    pub aaa: String,
    /// The three-character subcategory.
    pub bbb: String,
}

/// The text envelope as characters.
pub struct TextHeaderView {
    pub xx: usize,
    pub location: Seq<char>,
    pub timestamp: Seq<char>,
    pub aaa: Seq<char>,
    pub bbb: Seq<char>,
}

impl View for TextHeader {
    type V = TextHeaderView;

    open spec fn view(&self) -> TextHeaderView {
        TextHeaderView {
            xx: self.xx,
            location: self.location@,
            timestamp: self.timestamp@,
            aaa: self.aaa@,
            bbb: self.bbb@,
        }
    }
}

pub open spec fn is_digit(b: u8) -> bool {
    0x30 <= b <= 0x39
}

/// `s[i..i + 3]` is the line break `CR CR LF`.
pub open spec fn is_line_break(s: Seq<u8>, i: int) -> bool {
    s[i] == 0x0D && s[i + 1] == 0x0D && s[i + 2] == 0x0A
}

/// The number of fields of the envelope, literals included.
pub const ENVELOPE_FIELDS: usize = 10;

/// Where field `k` of the envelope ends: `SDUS`, the two digits, a space,
/// the location, a space, the timestamp, a line break, the category, the
/// subcategory, a line break.
pub open spec fn field_end(k: int) -> nat {
    if k == 0 {
        4
    } else if k == 1 {
        6
    } else if k == 2 {
        7
    } else if k == 3 {
        11
    } else if k == 4 {
        12
    } else if k == 5 {
        18
    } else if k == 6 {
        21
    } else if k == 7 {
        24
    } else if k == 8 {
        27
    } else {
        30
    }
}

/// Field `k` of `s` holds its literal, or valid text; its bytes are there.
pub open spec fn field_is_valid(s: Seq<u8>, k: int) -> bool {
    if k == 0 {
        s[0] == 0x53 && s[1] == 0x44 && s[2] == 0x55 && s[3] == 0x53
    } else if k == 1 {
        is_digit(s[4]) && is_digit(s[5])
    } else if k == 2 {
        s[6] == 0x20
    } else if k == 3 {
        valid_utf8(s.subrange(7, 11))
    } else if k == 4 {
        s[11] == 0x20
    } else if k == 5 {
        valid_utf8(s.subrange(12, 18))
    } else if k == 6 {
        is_line_break(s, 18)
    } else if k == 7 {
        valid_utf8(s.subrange(21, 24))
    } else if k == 8 {
        valid_utf8(s.subrange(24, 27))
    } else {
        is_line_break(s, 27)
    }
}

/// The first failure among fields `k` onwards, read in order: a field whose
/// bytes are missing is `TruncatedInput`, one that does not hold is
/// `Format`.
pub open spec fn envelope_error(s: Seq<u8>, k: nat) -> Option<Error>
    decreases ENVELOPE_FIELDS - k,
{
    if k >= ENVELOPE_FIELDS {
        None
    } else if s.len() < field_end(k as int) {
        Some(truncated(field_end(k as int), s))
    } else if !field_is_valid(s, k as int) {
        Some(Error::Format)
    } else {
        envelope_error(s, k + 1)
    }
}

/// The envelope at the start of `s`, and the bytes it takes.
pub open spec fn parse_text_header(s: Seq<u8>) -> Result<(TextHeaderView, nat), Error> {
    match envelope_error(s, 0) {
        Some(e) => Err(e),
        None => Ok(
            (
                TextHeaderView {
                    xx: ((s[4] - 0x30) * 10 + (s[5] - 0x30)) as usize,
                    location: decode_utf8(s.subrange(7, 11)),
                    timestamp: decode_utf8(s.subrange(12, 18)),
                    aaa: decode_utf8(s.subrange(21, 24)),
                    bbb: decode_utf8(s.subrange(24, 27)),
                },
                TEXT_HEADER_LEN as nat,
            ),
        ),
    }
}

proof fn lemma_envelope_error_reads_thirty(s: Seq<u8>, t: Seq<u8>, k: nat)
    requires
        s.len() >= TEXT_HEADER_LEN,
        t.len() >= TEXT_HEADER_LEN,
        forall|i: int| 0 <= i < TEXT_HEADER_LEN ==> s[i] == t[i],
        s.subrange(7, 11) == t.subrange(7, 11),
        s.subrange(12, 18) == t.subrange(12, 18),
        s.subrange(21, 24) == t.subrange(21, 24),
        s.subrange(24, 27) == t.subrange(24, 27),
    ensures
        envelope_error(s, k) == envelope_error(t, k),
    decreases ENVELOPE_FIELDS - k,
{
    if k < ENVELOPE_FIELDS {
        lemma_envelope_error_reads_thirty(s, t, k + 1);
    }
}

/// The envelope is read from its first thirty bytes alone.
pub proof fn lemma_envelope_reads_thirty(s: Seq<u8>, t: Seq<u8>)
    requires
        s.len() >= TEXT_HEADER_LEN,
        t.len() >= TEXT_HEADER_LEN,
        s.take(TEXT_HEADER_LEN as int) == t.take(TEXT_HEADER_LEN as int),
    ensures
        parse_text_header(s) == parse_text_header(t),
{
    let n = TEXT_HEADER_LEN as int;
    assert forall|i: int| 0 <= i < n implies s[i] == t[i] by {
        assert(s[i] == s.take(n)[i]);
        assert(t[i] == t.take(n)[i]);
    }
    assert(s.subrange(7, 11) =~= t.subrange(7, 11));
    assert(s.subrange(12, 18) =~= t.subrange(12, 18));
    assert(s.subrange(21, 24) =~= t.subrange(21, 24));
    assert(s.subrange(24, 27) =~= t.subrange(24, 27));
    lemma_envelope_error_reads_thirty(s, t, 0);
}

fn digit(b: u8) -> (r: bool)
    ensures
        r == is_digit(b),
{
    0x30 <= b && b <= 0x39
}

fn line_break(s: &[u8], i: usize) -> (r: bool)
    requires
        i + 3 <= s@.len(),
    ensures
        r == is_line_break(s@, i as int),
{
    s[i] == 0x0D && s[i + 1] == 0x0D && s[i + 2] == 0x0A
}

/// Checks field `k` of the envelope, whose bytes are there.
fn field_valid(s: &[u8], k: usize) -> (r: bool)
    requires
        k < ENVELOPE_FIELDS,
        field_end(k as int) <= s@.len(),
    ensures
        r == field_is_valid(s@, k as int),
{
    if k == 0 {
        s[0] == 0x53 && s[1] == 0x44 && s[2] == 0x55 && s[3] == 0x53
    } else if k == 1 {
        digit(s[4]) && digit(s[5])
    } else if k == 2 {
        s[6] == 0x20
    } else if k == 3 {
        utf8_text(&s[7..11]).is_some()
    } else if k == 4 {
        s[11] == 0x20
    } else if k == 5 {
        utf8_text(&s[12..18]).is_some()
    } else if k == 6 {
        line_break(s, 18)
    } else if k == 7 {
        utf8_text(&s[21..24]).is_some()
    } else if k == 8 {
        utf8_text(&s[24..27]).is_some()
    } else {
        line_break(s, 27)
    }
}

/// Decodes the text envelope at the start of `input`, field by field: the
/// first field that is short or wrong decides the error.
pub fn text_header(input: &[u8]) -> (r: Result<(&[u8], TextHeader), Error>)
    ensures
        agrees(r, input@, parse_text_header(input@)),
{
    let mut k: usize = 0;
    while k < ENVELOPE_FIELDS
        invariant
            k <= ENVELOPE_FIELDS,
            envelope_error(input@, 0) == envelope_error(input@, k as nat),
            forall|j: int|
                0 <= j < k ==> field_end(j) <= input@.len() && #[trigger] field_is_valid(input@, j),
        decreases ENVELOPE_FIELDS - k,
    {
        let end: usize = if k == 0 {
            4
        } else if k == 1 {
            6
        } else if k == 2 {
            7
        } else if k == 3 {
            11
        } else if k == 4 {
            12
        } else if k == 5 {
            18
        } else if k == 6 {
            21
        } else if k == 7 {
            24
        } else if k == 8 {
            27
        } else {
            30
        };
        if input.len() < end {
            return Err(Error::TruncatedInput { needed: end, had: input.len() });
        }
        if !field_valid(input, k) {
            return Err(Error::Format);
        }
        k += 1;
    }
    proof {
        assert(field_is_valid(input@, 3) && field_is_valid(input@, 5));
        assert(field_is_valid(input@, 7) && field_is_valid(input@, 8));
        assert(field_is_valid(input@, 1) && field_is_valid(input@, 9));
    }
    let location = utf8_text(&input[7..11]);
    let timestamp = utf8_text(&input[12..18]);
    let aaa = utf8_text(&input[21..24]);
    let bbb = utf8_text(&input[24..27]);
    match (location, timestamp, aaa, bbb) {
        (Some(location), Some(timestamp), Some(aaa), Some(bbb)) => {
            let xx = ((input[4] - 0x30) as usize) * 10 + ((input[5] - 0x30) as usize);
            let (_, rest) = input.split_at(TEXT_HEADER_LEN);
            Ok((rest, TextHeader { xx, location, timestamp, aaa, bbb }))
        },
        _ => Err(Error::Format),
    }
}

} // verus!
