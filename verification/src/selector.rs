//! Resolution of the caller-supplied promotion selector: a
//! case-insensitive match against `queen`, `rook`, `bishop` and
//! `knight`, with an explicit default-to-queen policy for anything
//! unrecognized, so the host can always complete a promotion.

use crate::model::PromoKind;
use vstd::prelude::*;

verus! {

/// The lower-case form of the letters the four selector words use;
/// every other character stands for itself.
pub open spec fn lower(c: char) -> char {
    match c {
        'Q' => 'q',
        'U' => 'u',
        'E' => 'e',
        'N' => 'n',
        'R' => 'r',
        'O' => 'o',
        'P' => 'p',
        'K' => 'k',
        'B' => 'b',
        'I' => 'i',
        'S' => 's',
        'H' => 'h',
        'G' => 'g',
        'T' => 't',
        _ => c,
    }
}

/// Whether `s` spells `w` up to letter case, where `w` is already
/// lower case.
pub open spec fn ci_eq(s: Seq<char>, w: Seq<char>) -> bool {
    s.len() == w.len() && forall|i: int| 0 <= i < s.len() ==> lower(#[trigger] s[i]) == w[i]
}

pub open spec fn queen_word() -> Seq<char> {
    seq!['q', 'u', 'e', 'e', 'n']
}

pub open spec fn rook_word() -> Seq<char> {
    seq!['r', 'o', 'o', 'k']
}

pub open spec fn bishop_word() -> Seq<char> {
    seq!['b', 'i', 's', 'h', 'o', 'p']
}

pub open spec fn knight_word() -> Seq<char> {
    seq!['k', 'n', 'i', 'g', 'h', 't']
}

/// The promotion kind a selector resolves to: the matching word, or
/// queen for anything unrecognized.
pub open spec fn sel_kind(s: Seq<char>) -> PromoKind {
    if ci_eq(s, queen_word()) {
        PromoKind::Queen
    } else if ci_eq(s, rook_word()) {
        PromoKind::Rook
    } else if ci_eq(s, bishop_word()) {
        PromoKind::Bishop
    } else if ci_eq(s, knight_word()) {
        PromoKind::Knight
    } else {
        PromoKind::Queen
    }
}

/// The lower-case form of a character, as `lower` states it.
fn lower_char(c: char) -> (r: char)
    ensures
        r == lower(c),
{
    match c {
        'Q' => 'q',
        'U' => 'u',
        'E' => 'e',
        'N' => 'n',
        'R' => 'r',
        'O' => 'o',
        'P' => 'p',
        'K' => 'k',
        'B' => 'b',
        'I' => 'i',
        'S' => 's',
        'H' => 'h',
        'G' => 'g',
        'T' => 't',
        _ => c,
    }
}

/// Whether `s` spells the word `w` up to letter case.
fn word_ci(s: &str, w: &Vec<char>) -> (r: bool)
    ensures
        r == ci_eq(s@, w@),
{
    let n = s.unicode_len();
    if n != w.len() {
        return false;
    }
    let mut i: usize = 0;
    while i < n
        invariant
            0 <= i <= n,
            n == s@.len(),
            n == w@.len(),
            forall|j: int| 0 <= j < i ==> lower(#[trigger] s@[j]) == w@[j],
        decreases n - i,
    {
        let c = lower_char(s.get_char(i));
        if c != w[i] {
            proof {
                let wi = i as int;
                assert(lower(s@[wi]) != w@[wi]);
            }
            return false;
        }
        i = i + 1;
    }
    true
}

/// Resolve a promotion selector to the kind it names, defaulting to
/// queen when it is unrecognized.
pub fn selector_kind(s: &str) -> (k: PromoKind)
    ensures
        k == sel_kind(s@),
{
    let qw: Vec<char> = vec!['q', 'u', 'e', 'e', 'n'];
    let rw: Vec<char> = vec!['r', 'o', 'o', 'k'];
    let bw: Vec<char> = vec!['b', 'i', 's', 'h', 'o', 'p'];
    let nw: Vec<char> = vec!['k', 'n', 'i', 'g', 'h', 't'];
    proof {
        assert(qw@ =~= queen_word());
        assert(rw@ =~= rook_word());
        assert(bw@ =~= bishop_word());
        assert(nw@ =~= knight_word());
    }
    if word_ci(s, &qw) {
        PromoKind::Queen
    } else if word_ci(s, &rw) {
        PromoKind::Rook
    } else if word_ci(s, &bw) {
        PromoKind::Bishop
    } else if word_ci(s, &nw) {
        PromoKind::Knight
    } else {
        PromoKind::Queen
    }
}

/// Matching against one word depends only on the selector's lower-cased
/// characters.
proof fn lemma_ci_eq_same_fold(s1: Seq<char>, s2: Seq<char>, w: Seq<char>)
    requires
        s1.len() == s2.len(),
        forall|i: int| 0 <= i < s1.len() ==> lower(#[trigger] s1[i]) == lower(s2[i]),
    ensures
        ci_eq(s1, w) == ci_eq(s2, w),
{
    if ci_eq(s1, w) {
        assert forall|i: int| 0 <= i < s2.len() implies lower(#[trigger] s2[i]) == w[i] by {
            assert(lower(s1[i]) == lower(s2[i]));
            assert(lower(s1[i]) == w[i]);
        }
    }
    if ci_eq(s2, w) {
        assert forall|i: int| 0 <= i < s1.len() implies lower(#[trigger] s1[i]) == w[i] by {
            assert(lower(s1[i]) == lower(s2[i]));
            assert(lower(s2[i]) == w[i]);
        }
    }
}

/// Case-insensitivity of the selector protocol: two selectors with the
/// same lower-cased spelling resolve to the same promotion kind.
pub proof fn lemma_selector_case_insensitive(s1: Seq<char>, s2: Seq<char>)
    requires
        s1.len() == s2.len(),
        forall|i: int| 0 <= i < s1.len() ==> lower(#[trigger] s1[i]) == lower(s2[i]),
    ensures
        sel_kind(s1) == sel_kind(s2),
{
    lemma_ci_eq_same_fold(s1, s2, queen_word());
    lemma_ci_eq_same_fold(s1, s2, rook_word());
    lemma_ci_eq_same_fold(s1, s2, bishop_word());
    lemma_ci_eq_same_fold(s1, s2, knight_word());
}

/// Default-to-queen policy: a selector that matches none of the four
/// words, in any letter case, resolves to a queen promotion.
pub proof fn lemma_unrecognized_selector_defaults_to_queen(s: Seq<char>)
    requires
        !ci_eq(s, queen_word()),
        !ci_eq(s, rook_word()),
        !ci_eq(s, bishop_word()),
        !ci_eq(s, knight_word()),
    ensures
        sel_kind(s) == PromoKind::Queen,
{
}

} // verus!
