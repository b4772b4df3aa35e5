//! An alternative coordinate parser that decodes a bare five-character
//! token into two `(column, row)` index pairs, without trimming. The
//! character decoding is shared with `parser`.

use vstd::prelude::*;
use vstd::string::StrSliceExecFns;
use crate::parser::ParseError;
use crate::parser::char_index_spec;
use crate::parser::lower_char;

pub use crate::parser::char_to_index;

verus! {

/// What `parse_input` returns on a given character sequence: the token must
/// hold exactly five characters; each is lower-cased and the four around
/// the skipped separator decode to indices, giving
/// `((column, row), (column, row))` in input order.
pub open spec fn parse_spec(s: Seq<char>) -> Result<((u8, u8), (u8, u8)), ParseError> {
    if s.len() != 5 {
        Err(ParseError::BadLength)
    } else {
        let c0 = lower_char(s[0]);
        let c1 = lower_char(s[1]);
        let c3 = lower_char(s[3]);
        let c4 = lower_char(s[4]);
        if char_index_spec(c0) is Err || char_index_spec(c1) is Err || char_index_spec(c3) is Err
            || char_index_spec(c4) is Err {
            Err(ParseError::BadChar)
        } else {
            Ok(
                (
                    (char_index_spec(c0)->Ok_0, char_index_spec(c1)->Ok_0),
                    (char_index_spec(c3)->Ok_0, char_index_spec(c4)->Ok_0),
                ),
            )
        }
    }
}

fn lower(c: char) -> (r: char)
    ensures
        r == lower_char(c),
{
    if 'A' <= c && c <= 'Z' {
        ((c as u8) + 32) as char
    } else {
        c
    }
}

/// Parse a bare move token into two index pairs, exactly as `parse_spec`
/// describes.
pub fn parse_input(input: &str) -> (r: Result<((u8, u8), (u8, u8)), ParseError>)
    ensures
        r == parse_spec(input@),
{
    let n = input.unicode_len();
    if n != 5 {
        return Err(ParseError::BadLength);
    }
    let c0 = lower(input.get_char(0));
    let c1 = lower(input.get_char(1));
    let c3 = lower(input.get_char(3));
    let c4 = lower(input.get_char(4));
    let i0 = char_to_index(c0)?;
    let i1 = char_to_index(c1)?;
    let i3 = char_to_index(c3)?;
    let i4 = char_to_index(c4)?;
    Ok(((i0, i1), (i3, i4)))
}

} // verus!
