//! Validation of position strings before they ever reach the engine.
//!
//! A position string is accepted when it has the standard shape: a piece
//! placement of exactly eight ranks each covering exactly eight files,
//! then a side-to-move field, a castling field, an en-passant field, and
//! optionally the two move counters, all separated by single spaces.
//! Every accepted string is parsed successfully by the engine; everything
//! else is rejected here, without an engine call.

use vstd::prelude::*;

verus! {

/// The index of the first space at or after `i`, or `s.len()` if there
/// is none.
pub open spec fn first_sp_from(s: Seq<char>, i: int) -> int
    decreases s.len() - i,
{
    if i < 0 || i >= s.len() {
        s.len() as int
    } else if s[i] == ' ' {
        i
    } else {
        first_sp_from(s, i + 1)
    }
}

/// A piece letter of a placement field.
pub open spec fn is_piece_char(c: char) -> bool {
    c == 'p' || c == 'n' || c == 'b' || c == 'r' || c == 'q' || c == 'k' || c == 'P' || c == 'N'
        || c == 'B' || c == 'R' || c == 'Q' || c == 'K'
}

/// The value of a placement digit.
pub open spec fn digit_val(c: char) -> int {
    c as int - '0' as int
}

/// The placement scan from position `i` to `end`, having covered `cur`
/// files of the current rank and finished `ranks` earlier ranks: every
/// rank covers exactly eight files and there are exactly eight ranks.
pub open spec fn placement_ok_from(s: Seq<char>, i: int, end: int, cur: int, ranks: int) -> bool
    decreases end - i,
{
    if i >= end {
        cur == 8 && ranks == 7
    } else if !(0 <= i < s.len()) {
        false
    } else if s[i] == '/' {
        cur == 8 && ranks < 7 && placement_ok_from(s, i + 1, end, 0, ranks + 1)
    } else if is_piece_char(s[i]) {
        cur < 8 && placement_ok_from(s, i + 1, end, cur + 1, ranks)
    } else if '1' <= s[i] && s[i] <= '8' {
        cur + digit_val(s[i]) <= 8 && placement_ok_from(s, i + 1, end, cur + digit_val(s[i]), ranks)
    } else {
        false
    }
}

/// A well-formed placement field on `s[start..end]`.
pub open spec fn placement_ok(s: Seq<char>, start: int, end: int) -> bool {
    placement_ok_from(s, start, end, 0, 0)
}

/// A side-to-move field: exactly `w` or `b`.
pub open spec fn side_ok(s: Seq<char>, start: int, end: int) -> bool {
    end - start == 1 && 0 <= start < s.len() && (s[start] == 'w' || s[start] == 'b')
}

/// Every character in `s[i..end]` is one of `K`, `Q`, `k`, `q`.
pub open spec fn castling_chars_ok(s: Seq<char>, i: int, end: int) -> bool
    decreases end - i,
{
    if i >= end {
        true
    } else if !(0 <= i < s.len()) {
        false
    } else {
        (s[i] == 'K' || s[i] == 'Q' || s[i] == 'k' || s[i] == 'q') && castling_chars_ok(
            s,
            i + 1,
            end,
        )
    }
}

/// A castling field: `-`, or a nonempty run of `K`, `Q`, `k`, `q`.
pub open spec fn castling_ok(s: Seq<char>, start: int, end: int) -> bool {
    0 <= start && end <= s.len() && ((end - start == 1 && s[start] == '-') || (end - start >= 1
        && castling_chars_ok(s, start, end)))
}

/// An en-passant field: `-`, or a file letter `a`..`h` followed by a
/// rank digit `1`..`8`.
pub open spec fn en_passant_ok(s: Seq<char>, start: int, end: int) -> bool {
    0 <= start && end <= s.len() && ((end - start == 1 && s[start] == '-') || (end - start == 2
        && 'a' <= s[start] && s[start] <= 'h' && '1' <= s[start + 1] && s[start + 1] <= '8'))
}

/// Every character in `s[i..end]` is a decimal digit.
pub open spec fn digits_ok(s: Seq<char>, i: int, end: int) -> bool
    decreases end - i,
{
    if i >= end {
        true
    } else if !(0 <= i < s.len()) {
        false
    } else {
        '0' <= s[i] && s[i] <= '9' && digits_ok(s, i + 1, end)
    }
}

/// A move counter field: a nonempty run of decimal digits.
pub open spec fn counter_ok(s: Seq<char>, start: int, end: int) -> bool {
    0 <= start && end <= s.len() && end - start >= 1 && digits_ok(s, start, end)
}

/// The move-counter tail after the en-passant field: absent, a halfmove
/// clock alone, or a halfmove clock and a fullmove number.
pub open spec fn counters_ok(s: Seq<char>, start: int) -> bool {
    {
        let e4 = first_sp_from(s, start);
        if e4 == s.len() {
            counter_ok(s, start, e4)
        } else {
            counter_ok(s, start, e4) && counter_ok(s, e4 + 1, s.len() as int) && first_sp_from(
                s,
                e4 + 1,
            ) == s.len()
        }
    }
}

/// A position string this bridge accepts. Its fields are delimited by
/// single spaces; the placement, side, castling and en-passant fields are
/// required, the counters optional.
pub open spec fn valid_fen(s: Seq<char>) -> bool {
    {
        let e0 = first_sp_from(s, 0);
        let e1 = first_sp_from(s, e0 + 1);
        let e2 = first_sp_from(s, e1 + 1);
        let e3 = first_sp_from(s, e2 + 1);
        &&& e0 < s.len()
        &&& e1 < s.len()
        &&& e2 < s.len()
        &&& placement_ok(s, 0, e0)
        &&& side_ok(s, e0 + 1, e1)
        &&& castling_ok(s, e1 + 1, e2)
        &&& en_passant_ok(s, e2 + 1, e3)
        &&& (e3 == s.len() || counters_ok(s, e3 + 1))
    }
}

/// The side-to-move letter of a position string: the character right
/// after the first space is `w`.
pub open spec fn fen_side_white(s: Seq<char>) -> bool {
    {
        let i = first_sp_from(s, 0);
        i + 1 < s.len() && s[i + 1] == 'w'
    }
}

/// Find the first space at or after `start`.
fn first_space(s: &str, n: usize, start: usize) -> (r: usize)
    requires
        n == s@.len(),
        start <= n,
    ensures
        r == first_sp_from(s@, start as int),
        start <= r <= n,
{
    let mut i: usize = start;
    while i < n
        invariant
            start <= i <= n,
            n == s@.len(),
            first_sp_from(s@, start as int) == first_sp_from(s@, i as int),
        decreases n - i,
    {
        if s.get_char(i) == ' ' {
            return i;
        }
        i = i + 1;
    }
    i
}

/// Check the placement field on `s[start..end]`.
fn check_placement(s: &str, n: usize, start: usize, end: usize) -> (r: bool)
    requires
        n == s@.len(),
        start <= end <= n,
    ensures
        r == placement_ok(s@, start as int, end as int),
{
    let mut i: usize = start;
    let mut cur: u32 = 0;
    let mut ranks: u32 = 0;
    while i < end
        invariant
            start <= i <= end <= n,
            n == s@.len(),
            cur <= 8,
            ranks <= 7,
            placement_ok(s@, start as int, end as int) == placement_ok_from(
                s@,
                i as int,
                end as int,
                cur as int,
                ranks as int,
            ),
        decreases end - i,
    {
        let c = s.get_char(i);
        if c == '/' {
            if !(cur == 8 && ranks < 7) {
                return false;
            }
            cur = 0;
            ranks = ranks + 1;
        } else if c == 'p' || c == 'n' || c == 'b' || c == 'r' || c == 'q' || c == 'k' || c == 'P'
            || c == 'N' || c == 'B' || c == 'R' || c == 'Q' || c == 'K' {
            if !(cur < 8) {
                return false;
            }
            cur = cur + 1;
        } else if '1' <= c && c <= '8' {
            let d: u32 = (c as u32) - ('0' as u32);
            if !(cur + d <= 8) {
                return false;
            }
            cur = cur + d;
        } else {
            return false;
        }
        i = i + 1;
    }
    cur == 8 && ranks == 7
}

/// Check the castling field on `s[start..end]`.
fn check_castling(s: &str, n: usize, start: usize, end: usize) -> (r: bool)
    requires
        n == s@.len(),
        start <= end <= n,
    ensures
        r == castling_ok(s@, start as int, end as int),
{
    if end - start == 1 && s.get_char(start) == '-' {
        return true;
    }
    if end - start < 1 {
        return false;
    }
    let mut i: usize = start;
    while i < end
        invariant
            start <= i <= end <= n,
            n == s@.len(),
            !(end - start == 1 && s@[start as int] == '-'),
            castling_chars_ok(s@, start as int, end as int) == castling_chars_ok(
                s@,
                i as int,
                end as int,
            ),
        decreases end - i,
    {
        let c = s.get_char(i);
        if !(c == 'K' || c == 'Q' || c == 'k' || c == 'q') {
            return false;
        }
        i = i + 1;
    }
    true
}

/// Check a move-counter field on `s[start..end]`.
fn check_counter(s: &str, n: usize, start: usize, end: usize) -> (r: bool)
    requires
        n == s@.len(),
        start <= end <= n,
    ensures
        r == counter_ok(s@, start as int, end as int),
{
    if end - start < 1 {
        return false;
    }
    let mut i: usize = start;
    while i < end
        invariant
            start <= i <= end <= n,
            n == s@.len(),
            digits_ok(s@, start as int, end as int) == digits_ok(s@, i as int, end as int),
        decreases end - i,
    {
        let c = s.get_char(i);
        if !('0' <= c && c <= '9') {
            return false;
        }
        i = i + 1;
    }
    true
}

/// Decide whether a position string is accepted.
pub fn check_fen(s: &str) -> (r: bool)
    ensures
        r == valid_fen(s@),
{
    let n = s.unicode_len();
    let e0 = first_space(s, n, 0);
    if e0 == n {
        return false;
    }
    let e1 = first_space(s, n, e0 + 1);
    if e1 == n {
        return false;
    }
    let e2 = first_space(s, n, e1 + 1);
    if e2 == n {
        return false;
    }
    let e3 = first_space(s, n, e2 + 1);
    if !check_placement(s, n, 0, e0) {
        return false;
    }
    // side field
    if !(e1 - (e0 + 1) == 1) {
        return false;
    }
    let sc = s.get_char(e0 + 1);
    if !(sc == 'w' || sc == 'b') {
        return false;
    }
    if !check_castling(s, n, e1 + 1, e2) {
        return false;
    }
    // en-passant field
    let ep_ok: bool = if e3 - (e2 + 1) == 1 && s.get_char(e2 + 1) == '-' {
        true
    } else if e3 - (e2 + 1) == 2 {
        let f = s.get_char(e2 + 1);
        let rk = s.get_char(e2 + 2);
        'a' <= f && f <= 'h' && '1' <= rk && rk <= '8'
    } else {
        false
    };
    if !ep_ok {
        return false;
    }
    if e3 == n {
        return true;
    }
    // counters
    let e4 = first_space(s, n, e3 + 1);
    if e4 == n {
        return check_counter(s, n, e3 + 1, e4);
    }
    if !check_counter(s, n, e3 + 1, e4) {
        return false;
    }
    if !check_counter(s, n, e4 + 1, n) {
        return false;
    }
    let e5 = first_space(s, n, e4 + 1);
    e5 == n
}

} // verus!
