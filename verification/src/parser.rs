//! The coordinate parser: turns a textual move token such as `"a1 a3"` into
//! a pair of zero-based board positions. Pure functions of the input text.

use vstd::prelude::*;
use vstd::string::StrSliceExecFns;

verus! {

/// Why a move token was rejected.
#[derive(Debug, Clone, Copy, PartialEq, Eq, Structural)]
pub enum ParseError {
    /// The cleaned token does not hold exactly the five significant characters.
    BadLength,
    /// A character falls outside `'a'..='h'` and `'1'..='8'`.
    BadChar,
}

/// A board position: row and column, each in `[0, 7]`.
#[derive(Debug, Clone, Copy, PartialEq, Eq, Structural)]
pub struct Coords {
    pub row: u8,
    pub column: u8,
}

/// One proposed move: where a piece starts and where it should land.
#[derive(Debug, Clone, Copy, PartialEq, Eq, Structural)]
pub struct Move {
    pub initial_pos: Coords,
    pub target_pos: Coords,
}

/// All four coordinates of the move lie on the board.
pub open spec fn move_in_range(m: Move) -> bool {
    m.initial_pos.row < 8 && m.initial_pos.column < 8 && m.target_pos.row < 8
        && m.target_pos.column < 8
}

/// The whitespace that is stripped from the ends of a token: the Unicode
/// characters with the White_Space property.
pub open spec fn is_space_char(c: char) -> bool {
    c == ' ' || c == '\t' || c == '\n' || c == '\u{0B}' || c == '\u{0C}' || c == '\r'
        || c == '\u{85}' || c == '\u{A0}' || c == '\u{1680}' || ('\u{2000}' <= c
        && c <= '\u{200A}') || c == '\u{2028}' || c == '\u{2029}' || c == '\u{202F}'
        || c == '\u{205F}' || c == '\u{3000}'
}

/// ASCII lower-casing of a single character; anything outside `'A'..='Z'`
/// is left alone.
pub open spec fn lower_char(c: char) -> char {
    if 'A' <= c && c <= 'Z' {
        ((c as u8) + 32) as char
    } else {
        c
    }
}

/// How many whitespace characters the sequence starts with.
pub open spec fn leading_spaces(s: Seq<char>) -> nat
    decreases s.len(),
{
    if s.len() > 0 && is_space_char(s[0]) {
        1 + leading_spaces(s.drop_first())
    } else {
        0
    }
}

/// How many whitespace characters the sequence ends with.
pub open spec fn trailing_spaces(s: Seq<char>) -> nat
    decreases s.len(),
{
    if s.len() > 0 && is_space_char(s.last()) {
        1 + trailing_spaces(s.drop_last())
    } else {
        0
    }
}

/// The sequence with leading and trailing whitespace removed.
pub open spec fn trimmed(s: Seq<char>) -> Seq<char> {
    let f = s.skip(leading_spaces(s) as int);
    f.take(f.len() - trailing_spaces(f))
}

/// What a single (already lower-cased) character decodes to: a column letter
/// `'a'..='h'` or a row digit `'1'..='8'` becomes its zero-based index.
pub open spec fn char_index_spec(c: char) -> Result<u8, ParseError> {
    if 'a' <= c && c <= 'h' {
        Ok(((c as int - 'a' as int) as u8))
    } else if '1' <= c && c <= '8' {
        Ok(((c as int - '1' as int) as u8))
    } else {
        Err(ParseError::BadChar)
    }
}

/// What `parse_input` returns on a given character sequence: trim and
/// lower-case the token; it must then hold exactly five characters in the
/// pattern `<col><row> <col><row>` (the middle character is a separator and
/// is skipped, not validated). Column letters map to `Coords::column`, row
/// digits to `Coords::row`.
pub open spec fn parse_spec(s: Seq<char>) -> Result<Move, ParseError> {
    let t = trimmed(s);
    if t.len() != 5 {
        Err(ParseError::BadLength)
    } else {
        let c0 = lower_char(t[0]);
        let c1 = lower_char(t[1]);
        let c3 = lower_char(t[3]);
        let c4 = lower_char(t[4]);
        if char_index_spec(c0) is Err || char_index_spec(c1) is Err || char_index_spec(c3) is Err
            || char_index_spec(c4) is Err {
            Err(ParseError::BadChar)
        } else {
            Ok(Move {
                initial_pos: Coords {
                    row: char_index_spec(c1)->Ok_0,
                    column: char_index_spec(c0)->Ok_0,
                },
                target_pos: Coords {
                    row: char_index_spec(c4)->Ok_0,
                    column: char_index_spec(c3)->Ok_0,
                },
            })
        }
    }
}

/// Every coordinate a successful parse produces is on the board.
pub proof fn lemma_parse_in_range(s: Seq<char>)
    ensures
        parse_spec(s) matches Ok(m) ==> m.initial_pos.row < 8 && m.initial_pos.column < 8
            && m.target_pos.row < 8 && m.target_pos.column < 8,
{
}

/// A column letter, `'a'..='h'`.
pub open spec fn is_column_char(c: char) -> bool {
    'a' <= c && c <= 'h'
}

/// A row digit, `'1'..='8'`.
pub open spec fn is_row_char(c: char) -> bool {
    '1' <= c && c <= '8'
}

/// The one token in the canonical shape `<col><row> <col><row>` — lower-case
/// letters, a single space separator, nothing around it — that names `m`.
pub open spec fn token_of(m: Move) -> Seq<char> {
    seq![
        (('a' as u8) + m.initial_pos.column) as char,
        (('1' as u8) + m.initial_pos.row) as char,
        ' ',
        (('a' as u8) + m.target_pos.column) as char,
        (('1' as u8) + m.target_pos.row) as char,
    ]
}

/// A token in the canonical shape that `token_of` produces.
pub open spec fn is_canonical_token(s: Seq<char>) -> bool {
    s.len() == 5 && is_column_char(s[0]) && is_row_char(s[1]) && s[2] == ' ' && is_column_char(
        s[3],
    ) && is_row_char(s[4])
}

/// Half of the bijection between canonical tokens and on-board moves: every
/// move whose coordinates lie on the board is parsed back out of its
/// canonical token, so `parse_input` is onto the on-board moves.
pub proof fn lemma_parse_token_of(m: Move)
    requires
        move_in_range(m),
    ensures
        is_canonical_token(token_of(m)),
        parse_spec(token_of(m)) == Ok::<Move, ParseError>(m),
{
    let t = token_of(m);
    lemma_leading_spaces(t, 0);
    lemma_trailing_spaces(t, 5);
    assert(trimmed(t) =~= t);
}

/// The other half of the bijection: distinct canonical tokens parse to
/// distinct moves, because a canonical token is recovered exactly from the
/// move it parses to.
pub proof fn lemma_parse_canonical_injective(s: Seq<char>)
    requires
        is_canonical_token(s),
    ensures
        parse_spec(s) is Ok,
        token_of(parse_spec(s)->Ok_0) =~= s,
{
    lemma_leading_spaces(s, 0);
    lemma_trailing_spaces(s, 5);
    assert(trimmed(s) =~= s);
}

proof fn lemma_leading_spaces(s: Seq<char>, k: int)
    requires
        0 <= k <= s.len(),
        forall|i: int| 0 <= i < k ==> is_space_char(s[i]),
        k == s.len() || !is_space_char(s[k]),
    ensures
        leading_spaces(s) == k,
    decreases k,
{
    if k > 0 {
        lemma_leading_spaces(s.drop_first(), k - 1);
    }
}

proof fn lemma_trailing_spaces(s: Seq<char>, k: int)
    requires
        0 <= k <= s.len(),
        forall|i: int| k <= i < s.len() ==> is_space_char(s[i]),
        k == 0 || !is_space_char(s[k - 1]),
    ensures
        trailing_spaces(s) == s.len() - k,
    decreases s.len(),
{
    if k < s.len() {
        lemma_trailing_spaces(s.drop_last(), k);
    }
}

fn is_space(c: char) -> (r: bool)
    ensures
        r == is_space_char(c),
{
    c == ' ' || c == '\t' || c == '\n' || c == '\u{0B}' || c == '\u{0C}' || c == '\r'
        || c == '\u{85}' || c == '\u{A0}' || c == '\u{1680}' || ('\u{2000}' <= c
        && c <= '\u{200A}') || c == '\u{2028}' || c == '\u{2029}' || c == '\u{202F}'
        || c == '\u{205F}' || c == '\u{3000}'
}

fn lower(c: char) -> (r: char)
    ensures
        r == lower_char(c),
{
    if 'A' <= c && c <= 'Z' {
        ((c as u8) + 32) as char
    } else {
        c
    }
}

/// Decode one character of a move token: `'a'..='h'` to a column index,
/// `'1'..='8'` to a row index, both zero-based; anything else is rejected.
pub fn char_to_index(c: char) -> (r: Result<u8, ParseError>)
    ensures
        r == char_index_spec(c),
{
    if 'a' <= c && c <= 'h' {
        Ok((c as u8) - ('a' as u8))
    } else if '1' <= c && c <= '8' {
        Ok((c as u8) - ('1' as u8))
    } else {
        Err(ParseError::BadChar)
    }
}

/// Parse a move token into a `Move`, exactly as `parse_spec` describes:
/// trim, lower-case, demand five significant characters, and decode the
/// four coordinate characters around the skipped separator.
pub fn parse_input(input: String) -> (r: Result<Move, ParseError>)
    ensures
        r == parse_spec(input@),
{
    let s = input.as_str();
    let n = s.unicode_len();
    let mut start: usize = 0;
    while start < n && is_space(s.get_char(start))
        invariant
            start <= n,
            n == s@.len(),
            forall|i: int| 0 <= i < start ==> is_space_char(s@[i]),
        decreases n - start,
    {
        start += 1;
    }
    let mut end: usize = n;
    while end > start && is_space(s.get_char(end - 1))
        invariant
            start <= end <= n,
            n == s@.len(),
            forall|i: int| end <= i < n ==> is_space_char(s@[i]),
        decreases end,
    {
        end -= 1;
    }
    proof {
        lemma_leading_spaces(s@, start as int);
        let f = s@.skip(start as int);
        lemma_trailing_spaces(f, end - start);
        assert(trimmed(s@) =~= s@.subrange(start as int, end as int));
    }
    if end - start != 5 {
        return Err(ParseError::BadLength);
    }
    let c0 = lower(s.get_char(start));
    let c1 = lower(s.get_char(start + 1));
    let c3 = lower(s.get_char(start + 3));
    let c4 = lower(s.get_char(start + 4));
    let row_i = char_to_index(c1)?;
    let col_i = char_to_index(c0)?;
    let row_t = char_to_index(c4)?;
    let col_t = char_to_index(c3)?;
    Ok(Move {
        initial_pos: Coords { row: row_i, column: col_i },
        target_pos: Coords { row: row_t, column: col_t },
    })
}

} // verus!
