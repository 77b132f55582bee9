//! Algebraic notation: rendering positions and moves as text, and parsing
//! them back.

use vstd::prelude::*;
use vstd::string::{StrSliceExecFns, StringExecFns};
use crate::piece::{Move, Piece, Position};

verus! {

/// Relies on String::push: appends exactly the one given character.
#[verifier::external_body]
pub(crate) fn push_char(s: &mut String, c: char)
    ensures
        final(s)@ == old(s)@.push(c),
{
    s.push(c);
}

/// The file letter of column `c`: 'a' for 0 through 'h' for 7.
pub open spec fn file_char(c: int) -> char {
    if c == 0 {
        'a'
    } else if c == 1 {
        'b'
    } else if c == 2 {
        'c'
    } else if c == 3 {
        'd'
    } else if c == 4 {
        'e'
    } else if c == 5 {
        'f'
    } else if c == 6 {
        'g'
    } else {
        'h'
    }
}

/// The rank digit of row `r`: '8' for row 0 down to '1' for row 7.
pub open spec fn rank_char(r: int) -> char {
    if r == 0 {
        '8'
    } else if r == 1 {
        '7'
    } else if r == 2 {
        '6'
    } else if r == 3 {
        '5'
    } else if r == 4 {
        '4'
    } else if r == 5 {
        '3'
    } else if r == 6 {
        '2'
    } else {
        '1'
    }
}

/// The two-character algebraic notation of a position.
pub open spec fn pos_chars(p: Position) -> Seq<char> {
    seq![file_char(p.col as int), rank_char(p.row as int)]
}

/// The notation of a move: the two squares joined by one space.
pub open spec fn move_chars(mv: Move) -> Seq<char> {
    pos_chars(mv.from) + seq![' '] + pos_chars(mv.to)
}

/// The letter appended to a logged move for its promotion choice, empty
/// when there is none (or when the choice is no promotion piece).
pub open spec fn promo_chars(p: Option<Piece>) -> Seq<char> {
    match p {
        Some(Piece::Queen(_)) => seq!['Q'],
        Some(Piece::Rook(_)) => seq!['R'],
        Some(Piece::Bishop(_)) => seq!['B'],
        Some(Piece::Knight(_)) => seq!['N'],
        _ => Seq::empty(),
    }
}

/// The text a move is logged under: its notation, then its promotion
/// letter if any.
pub open spec fn move_log_chars(mv: Move) -> Seq<char> {
    move_chars(mv) + promo_chars(mv.promotion)
}

/// The file letter of a column, as executable code.
pub(crate) fn file_char_exec(c: usize) -> (r: char)
    requires
        c < 8,
    ensures
        r == file_char(c as int),
{
    match c {
        0 => 'a',
        1 => 'b',
        2 => 'c',
        3 => 'd',
        4 => 'e',
        5 => 'f',
        6 => 'g',
        _ => 'h',
    }
}

/// The rank digit of a row, as executable code.
pub(crate) fn rank_char_exec(r: usize) -> (res: char)
    requires
        r < 8,
    ensures
        res == rank_char(r as int),
{
    match r {
        0 => '8',
        1 => '7',
        2 => '6',
        3 => '5',
        4 => '4',
        5 => '3',
        6 => '2',
        _ => '1',
    }
}

/// The column a file letter denotes, or -1 when it is no file letter.
pub open spec fn file_of(c: char) -> int {
    if c == 'a' {
        0
    } else if c == 'b' {
        1
    } else if c == 'c' {
        2
    } else if c == 'd' {
        3
    } else if c == 'e' {
        4
    } else if c == 'f' {
        5
    } else if c == 'g' {
        6
    } else if c == 'h' {
        7
    } else {
        -1
    }
}

/// The row a rank digit denotes ('1' is row 7, '8' is row 0), or -1 when
/// it is no rank digit.
pub open spec fn row_of(c: char) -> int {
    if c == '1' {
        7
    } else if c == '2' {
        6
    } else if c == '3' {
        5
    } else if c == '4' {
        4
    } else if c == '5' {
        3
    } else if c == '6' {
        2
    } else if c == '7' {
        1
    } else if c == '8' {
        0
    } else {
        -1
    }
}

/// The position a two-character text denotes; nothing for any malformed
/// text. Never a position off the board.
pub open spec fn pos_of_chars(s: Seq<char>) -> Option<Position> {
    if s.len() == 2 && file_of(s[0]) >= 0 && row_of(s[1]) >= 0 {
        Some(Position { row: row_of(s[1]) as usize, col: file_of(s[0]) as usize })
    } else {
        None
    }
}

/// The whitespace that separates the two squares of a move text.
pub open spec fn is_space(c: char) -> bool {
    c == ' ' || c == '\t' || c == '\n' || c == '\r'
}

/// The first index at or after `i` holding a non-space character (or the
/// text's end).
pub open spec fn ws_end(s: Seq<char>, i: int) -> int
    decreases s.len() - i,
{
    if i < 0 || i >= s.len() {
        s.len() as int
    } else if is_space(s[i]) {
        ws_end(s, i + 1)
    } else {
        i
    }
}

/// The first index at or after `i` holding a space (or the text's end):
/// the end of the token starting at `i`.
pub open spec fn token_end(s: Seq<char>, i: int) -> int
    decreases s.len() - i,
{
    if i < 0 || i >= s.len() {
        s.len() as int
    } else if is_space(s[i]) {
        i
    } else {
        token_end(s, i + 1)
    }
}

/// The move a text denotes: its first two whitespace-separated tokens as
/// two squares, or a single four-character token as two concatenated
/// squares; anything after the second token is ignored. No promotion
/// choice is ever parsed.
pub open spec fn move_of_chars(s: Seq<char>) -> Option<Move> {
    let a0 = ws_end(s, 0);
    let a1 = token_end(s, a0);
    let b0 = ws_end(s, a1);
    let b1 = token_end(s, b0);
    if a1 - a0 == 4 && b1 - b0 == 0 {
        match (pos_of_chars(s.subrange(a0, a0 + 2)), pos_of_chars(s.subrange(a0 + 2, a1))) {
            (Some(f), Some(t)) => Some(Move { from: f, to: t, promotion: None }),
            _ => None,
        }
    } else {
        match (pos_of_chars(s.subrange(a0, a1)), pos_of_chars(s.subrange(b0, b1))) {
            (Some(f), Some(t)) => Some(Move { from: f, to: t, promotion: None }),
            _ => None,
        }
    }
}

/// Whether `c` is token-separating whitespace, as executable code.
fn is_space_exec(c: char) -> (r: bool)
    ensures
        r == is_space(c),
{
    c == ' ' || c == '\t' || c == '\n' || c == '\r'
}

/// The end of the whitespace run starting at `i`, as executable code.
fn ws_end_exec(s: &str, i: usize, n: usize) -> (r: usize)
    requires
        n == s@.len(),
        i <= n,
    ensures
        r == ws_end(s@, i as int),
        i <= r <= n,
    decreases n - i,
{
    if i >= n {
        return n;
    }
    if is_space_exec(s.get_char(i)) {
        ws_end_exec(s, i + 1, n)
    } else {
        i
    }
}

/// The end of the token starting at `i`, as executable code.
fn token_end_exec(s: &str, i: usize, n: usize) -> (r: usize)
    requires
        n == s@.len(),
        i <= n,
    ensures
        r == token_end(s@, i as int),
        i <= r <= n,
    decreases n - i,
{
    if i >= n {
        return n;
    }
    if is_space_exec(s.get_char(i)) {
        i
    } else {
        token_end_exec(s, i + 1, n)
    }
}

impl Position {
    /// The position a two-character algebraic text denotes; `None` for any
    /// malformed text, never a position off the board.
    pub fn from_notation(notation: &str) -> (r: Option<Self>)
        ensures
            r == pos_of_chars(notation@),
            r matches Some(p) ==> p.valid(),
    {
        if notation.unicode_len() != 2 {
            return None;
        }
        let c0 = notation.get_char(0);
        let c1 = notation.get_char(1);
        let col: usize = match c0 {
            'a' => 0,
            'b' => 1,
            'c' => 2,
            'd' => 3,
            'e' => 4,
            'f' => 5,
            'g' => 6,
            'h' => 7,
            _ => {
                return None;
            },
        };
        let row: usize = match c1 {
            '1' => 7,
            '2' => 6,
            '3' => 5,
            '4' => 4,
            '5' => 3,
            '6' => 2,
            '7' => 1,
            '8' => 0,
            _ => {
                return None;
            },
        };
        Some(Position { row, col })
    }

    /// The two-character algebraic notation of this position, "a1" through
    /// "h8".
    pub fn to_notation(&self) -> (s: String)
        requires
            self.valid(),
        ensures
            s@ == pos_chars(*self),
    {
        let mut s = String::new();
        push_char(&mut s, file_char_exec(self.col));
        push_char(&mut s, rank_char_exec(self.row));
        proof {
            assert(s@ =~= pos_chars(*self));
        }
        s
    }
}

impl Move {
    /// The notation of this move: its two squares joined by one space.
    pub fn to_notation(&self) -> (s: String)
        requires
            self.from.valid(),
            self.to.valid(),
        ensures
            s@ == move_chars(*self),
    {
        let mut s = self.from.to_notation();
        push_char(&mut s, ' ');
        let t = self.to.to_notation();
        s.append(t.as_str());
        proof {
            assert(s@ =~= move_chars(*self));
        }
        s
    }
}

impl Move {
    /// The move a text denotes: two squares joined by whitespace (extra
    /// trailing text is ignored) or concatenated as one four-character
    /// token. `None` for anything else; no promotion choice is parsed.
    pub fn from_notation(notation: &str) -> (r: Option<Self>)
        ensures
            r == move_of_chars(notation@),
    {
        let n = notation.unicode_len();
        let a0 = ws_end_exec(notation, 0, n);
        let a1 = token_end_exec(notation, a0, n);
        let b0 = ws_end_exec(notation, a1, n);
        let b1 = token_end_exec(notation, b0, n);
        if a1 - a0 == 4 && b1 - b0 == 0 {
            let first = notation.substring_char(a0, a0 + 2);
            let second = notation.substring_char(a0 + 2, a1);
            match (Position::from_notation(first), Position::from_notation(second)) {
                (Some(f), Some(t)) => Some(Move { from: f, to: t, promotion: None }),
                _ => None,
            }
        } else {
            let first = notation.substring_char(a0, a1);
            let second = notation.substring_char(b0, b1);
            match (Position::from_notation(first), Position::from_notation(second)) {
                (Some(f), Some(t)) => Some(Move { from: f, to: t, promotion: None }),
                _ => None,
            }
        }
    }
}

/// The text `mv` is logged under when applied: its notation, then its
/// promotion letter if it carries one.
pub(crate) fn log_text(mv: &Move) -> (s: String)
    requires
        mv.from.valid(),
        mv.to.valid(),
    ensures
        s@ == move_log_chars(*mv),
{
    let mut s = mv.to_notation();
    match mv.promotion {
        Some(Piece::Queen(_)) => push_char(&mut s, 'Q'),
        Some(Piece::Rook(_)) => push_char(&mut s, 'R'),
        Some(Piece::Bishop(_)) => push_char(&mut s, 'B'),
        Some(Piece::Knight(_)) => push_char(&mut s, 'N'),
        _ => {},
    }
    proof {
        assert(s@ =~= move_log_chars(*mv));
    }
    s
}

} // verus!
