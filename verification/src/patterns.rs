//! Recognizers for the textual field formats that payload validation
//! enforces: IBAN and BIC shapes, `dd-mm-yyyy` dates, and character counts.
//!
//! Each recognizer is an executable scan proved equal to a spec-level
//! statement of the grammar it accepts.
use vstd::prelude::*;

verus! {

/// An ASCII decimal digit.
pub open spec fn is_digit(c: char) -> bool {
    '0' <= c && c <= '9'
}

/// An ASCII upper-case letter.
pub open spec fn is_upper(c: char) -> bool {
    'A' <= c && c <= 'Z'
}

/// Every character of `s` in `[from, to)` is a decimal digit.
pub open spec fn digits_at(s: Seq<char>, from: int, to: int) -> bool {
    forall|i: int| from <= i < to ==> is_digit(#[trigger] s[i])
}

/// `s` has the shape `dd-mm-yyyy`: two digits, a dash, two digits, a dash,
/// four digits, and nothing else.
pub open spec fn is_date_shape(s: Seq<char>) -> bool {
    &&& s.len() == 10
    &&& digits_at(s, 0, 2)
    &&& s[2] == '-'
    &&& digits_at(s, 3, 5)
    &&& s[5] == '-'
    &&& digits_at(s, 6, 10)
}

/// One IBAN digit group: four digits, optionally preceded by one space,
/// spanning exactly `[from, to)` of `s`.
pub open spec fn iban_group(s: Seq<char>, from: int, to: int) -> bool {
    ||| (to - from == 4 && digits_at(s, from, to))
    ||| (to - from == 5 && s[from] == ' ' && digits_at(s, from + 1, to))
}

/// The optional IBAN tail: nothing, or one or two digits, optionally
/// preceded by one space, spanning exactly `[from, to)` of `s`.
pub open spec fn iban_tail(s: Seq<char>, from: int, to: int) -> bool {
    ||| to == from
    ||| (1 <= to - from <= 2 && digits_at(s, from, to))
    ||| (2 <= to - from <= 3 && s[from] == ' ' && digits_at(s, from + 1, to))
}

/// `s` is an IBAN: a two-letter country code, two check digits, four groups
/// of four digits (each group optionally set off by one space), and an
/// optional tail of one or two digits.
pub open spec fn is_iban_shape(s: Seq<char>) -> bool {
    &&& s.len() >= 4
    &&& is_upper(s[0])
    &&& is_upper(s[1])
    &&& is_digit(s[2])
    &&& is_digit(s[3])
    &&& exists|b1: int, b2: int, b3: int, b4: int|
        {
            &&& 4 <= b1 <= b2 <= b3 <= b4 <= s.len()
            &&& #[trigger] iban_group(s, 4, b1)
            &&& #[trigger] iban_group(s, b1, b2)
            &&& #[trigger] iban_group(s, b2, b3)
            &&& #[trigger] iban_group(s, b3, b4)
            &&& iban_tail(s, b4, s.len() as int)
        }
}

/// A character allowed at the seventh position of a BIC: an upper-case
/// letter or a digit from `2` to `9`.
pub open spec fn is_bic_seventh(c: char) -> bool {
    is_upper(c) || ('2' <= c && c <= '9')
}

/// A character allowed at the eighth position of a BIC: an upper-case
/// letter other than `O`, or a digit.
pub open spec fn is_bic_eighth(c: char) -> bool {
    ('A' <= c && c <= 'N') || ('P' <= c && c <= 'Z') || is_digit(c)
}

/// The eight-character BIC core starts at position `q` of `s`: six
/// upper-case letters, then one character of each restricted class.
pub open spec fn bic_core_at(s: Seq<char>, q: int) -> bool {
    &&& 0 <= q && q + 8 <= s.len()
    &&& (forall|i: int| q <= i < q + 6 ==> is_upper(#[trigger] s[i]))
    &&& is_bic_seventh(s[q + 6])
    &&& is_bic_eighth(s[q + 7])
}

/// `s` contains a BIC somewhere: the pattern is unanchored, and its
/// three-character branch suffix is optional, so containment of the
/// eight-character core anywhere decides acceptance.
pub open spec fn has_bic_shape(s: Seq<char>) -> bool {
    exists|q: int| #[trigger] bic_core_at(s, q)
}

/// Decides whether the character at index `i` is a decimal digit.
fn digit_at(s: &str, i: usize) -> (r: bool)
    requires
        i < s@.len(),
    ensures
        r == is_digit(s@[i as int]),
{
    let c = s.get_char(i);
    '0' <= c && c <= '9'
}

/// Decides whether the character at index `i` is an upper-case letter.
fn upper_at(s: &str, i: usize) -> (r: bool)
    requires
        i < s@.len(),
    ensures
        r == is_upper(s@[i as int]),
{
    let c = s.get_char(i);
    'A' <= c && c <= 'Z'
}

/// Decides whether every character of `s` in `[from, to)` is a digit.
fn digits_in_range(s: &str, from: usize, to: usize) -> (r: bool)
    requires
        from <= to <= s@.len(),
    ensures
        r == digits_at(s@, from as int, to as int),
{
    let mut i = from;
    while i < to
        invariant
            from <= i <= to <= s@.len(),
            digits_at(s@, from as int, i as int),
        decreases to - i,
    {
        if !digit_at(s, i) {
            return false;
        }
        i = i + 1;
    }
    true
}

/// Decides whether `s` has the `dd-mm-yyyy` date shape.
pub fn matches_date_shape(s: &str) -> (r: bool)
    ensures
        r == is_date_shape(s@),
{
    let n = s.unicode_len();
    if n != 10 {
        return false;
    }
    digits_in_range(s, 0, 2) && s.get_char(2) == '-' && digits_in_range(s, 3, 5) && s.get_char(5)
        == '-' && digits_in_range(s, 6, 10)
}

/// A group parse is determined by its start: two groups starting at the
/// same position end at the same position.
proof fn lemma_iban_group_deterministic(s: Seq<char>, from: int, to1: int, to2: int)
    requires
        iban_group(s, from, to1),
        iban_group(s, from, to2),
    ensures
        to1 == to2,
{
    if to1 != to2 {
        assert(is_digit(s[from]) || s[from] == ' ');
    }
}

/// Extracts the group boundaries that witness an IBAN parse.
proof fn lemma_iban_witnesses(s: Seq<char>) -> (r: (int, int, int, int))
    requires
        is_iban_shape(s),
    ensures
        ({
            let (b1, b2, b3, b4) = r;
            &&& 4 <= b1 <= b2 <= b3 <= b4 <= s.len()
            &&& iban_group(s, 4, b1)
            &&& iban_group(s, b1, b2)
            &&& iban_group(s, b2, b3)
            &&& iban_group(s, b3, b4)
            &&& iban_tail(s, b4, s.len() as int)
        }),
{
    choose|b1: int, b2: int, b3: int, b4: int|
        {
            &&& 4 <= b1 <= b2 <= b3 <= b4 <= s.len()
            &&& #[trigger] iban_group(s, 4, b1)
            &&& #[trigger] iban_group(s, b1, b2)
            &&& #[trigger] iban_group(s, b2, b3)
            &&& #[trigger] iban_group(s, b3, b4)
            &&& iban_tail(s, b4, s.len() as int)
        }
}

/// Parses one IBAN digit group at character index `i`, returning the index
/// just past it; `None` when no group starts there.
fn take_iban_group(s: &str, i: usize) -> (r: Option<usize>)
    requires
        i <= s@.len(),
    ensures
        match r {
            Some(j) => i < j <= s@.len() && iban_group(s@, i as int, j as int),
            None => forall|j: int| j <= s@.len() ==> !#[trigger] iban_group(s@, i as int, j),
        },
{
    let n = s.unicode_len();
    if i < n && s.get_char(i) == ' ' {
        if n - i >= 5 && digits_in_range(s, i + 1, i + 5) {
            return Some(i + 5);
        }
        assert forall|j: int| j <= s@.len() implies !#[trigger] iban_group(s@, i as int, j) by {
            if iban_group(s@, i as int, j) {
                if j - i == 4 {
                    assert(is_digit(s@[i as int]));
                } else {
                    assert(j - i == 5 && digits_at(s@, i + 1, j));
                }
            }
        }
        return None;
    }
    if n - i >= 4 && digits_in_range(s, i, i + 4) {
        return Some(i + 4);
    }
    assert forall|j: int| j <= s@.len() implies !#[trigger] iban_group(s@, i as int, j) by {
        if iban_group(s@, i as int, j) {
            if j - i == 5 {
                assert(s@[i as int] == ' ');
            } else {
                assert(j - i == 4 && digits_at(s@, i as int, j));
                assert(is_digit(s@[i as int]));
            }
        }
    }
    None
}

/// Decides whether the IBAN tail spans exactly `[i, n)` of `s`, where `n`
/// is the length of `s`.
fn iban_tail_to_end(s: &str, i: usize) -> (r: bool)
    requires
        i <= s@.len(),
    ensures
        r == iban_tail(s@, i as int, s@.len() as int),
{
    let n = s.unicode_len();
    if i == n {
        true
    } else if s.get_char(i) == ' ' {
        n - i >= 2 && n - i <= 3 && digits_in_range(s, i + 1, n)
    } else {
        n - i <= 2 && digits_in_range(s, i, n)
    }
}

/// Decides whether `s` has the IBAN shape.
pub fn matches_iban_shape(s: &str) -> (r: bool)
    ensures
        r == is_iban_shape(s@),
{
    let n = s.unicode_len();
    if n < 4 || !upper_at(s, 0) || !upper_at(s, 1) || !digit_at(s, 2) || !digit_at(s, 3) {
        return false;
    }
    let g1 = match take_iban_group(s, 4) {
        Some(j) => j,
        None => {
            proof {
                if is_iban_shape(s@) {
                    let (b1, b2, b3, b4) = lemma_iban_witnesses(s@);
                }
            }
            return false;
        },
    };
    let g2 = match take_iban_group(s, g1) {
        Some(j) => j,
        None => {
            proof {
                if is_iban_shape(s@) {
                    let (b1, b2, b3, b4) = lemma_iban_witnesses(s@);
                    lemma_iban_group_deterministic(s@, 4, b1, g1 as int);
                }
            }
            return false;
        },
    };
    let g3 = match take_iban_group(s, g2) {
        Some(j) => j,
        None => {
            proof {
                if is_iban_shape(s@) {
                    let (b1, b2, b3, b4) = lemma_iban_witnesses(s@);
                    lemma_iban_group_deterministic(s@, 4, b1, g1 as int);
                    lemma_iban_group_deterministic(s@, g1 as int, b2, g2 as int);
                }
            }
            return false;
        },
    };
    let g4 = match take_iban_group(s, g3) {
        Some(j) => j,
        None => {
            proof {
                if is_iban_shape(s@) {
                    let (b1, b2, b3, b4) = lemma_iban_witnesses(s@);
                    lemma_iban_group_deterministic(s@, 4, b1, g1 as int);
                    lemma_iban_group_deterministic(s@, g1 as int, b2, g2 as int);
                    lemma_iban_group_deterministic(s@, g2 as int, b3, g3 as int);
                }
            }
            return false;
        },
    };
    if iban_tail_to_end(s, g4) {
        assert(is_iban_shape(s@)) by {
            assert(4 <= g1 <= g2 <= g3 <= g4 <= s@.len() && iban_group(s@, 4, g1 as int)
                && iban_group(s@, g1 as int, g2 as int) && iban_group(s@, g2 as int, g3 as int)
                && iban_group(s@, g3 as int, g4 as int) && iban_tail(s@, g4 as int, s@.len() as int));
        }
        true
    } else {
        proof {
            if is_iban_shape(s@) {
                let (b1, b2, b3, b4) = lemma_iban_witnesses(s@);
                lemma_iban_group_deterministic(s@, 4, b1, g1 as int);
                lemma_iban_group_deterministic(s@, g1 as int, b2, g2 as int);
                lemma_iban_group_deterministic(s@, g2 as int, b3, g3 as int);
                lemma_iban_group_deterministic(s@, g3 as int, b4, g4 as int);
            }
        }
        false
    }
}

/// Decides whether the eight-character BIC core starts at index `q`.
fn bic_core_check(s: &str, q: usize) -> (r: bool)
    requires
        q + 8 <= s@.len(),
    ensures
        r == bic_core_at(s@, q as int),
{
    let n = s.unicode_len();
    let mut i = q;
    while i < q + 6
        invariant
            q <= i <= q + 6,
            q + 8 <= n == s@.len(),
            forall|k: int| q <= k < i ==> is_upper(#[trigger] s@[k]),
        decreases q + 6 - i,
    {
        if !upper_at(s, i) {
            return false;
        }
        i = i + 1;
    }
    let c7 = s.get_char(q + 6);
    if !(('A' <= c7 && c7 <= 'Z') || ('2' <= c7 && c7 <= '9')) {
        return false;
    }
    let c8 = s.get_char(q + 7);
    (('A' <= c8 && c8 <= 'N') || ('P' <= c8 && c8 <= 'Z') || ('0' <= c8 && c8 <= '9'))
}

/// Decides whether `s` contains a BIC.
pub fn contains_bic_shape(s: &str) -> (r: bool)
    ensures
        r == has_bic_shape(s@),
{
    let n = s.unicode_len();
    if n < 8 {
        assert(!has_bic_shape(s@)) by {
            if has_bic_shape(s@) {
                let q = choose|q: int| #[trigger] bic_core_at(s@, q);
            }
        }
        return false;
    }
    let mut q: usize = 0;
    while q <= n - 8
        invariant
            8 <= n == s@.len(),
            q <= n - 8 + 1,
            forall|k: int| 0 <= k < q ==> !#[trigger] bic_core_at(s@, k),
        decreases n - q,
    {
        if bic_core_check(s, q) {
            return true;
        }
        q = q + 1;
    }
    assert(!has_bic_shape(s@)) by {
        if has_bic_shape(s@) {
            let w = choose|w: int| #[trigger] bic_core_at(s@, w);
        }
    }
    false
}

/// Decides whether `s` has at least `min` characters; the payload length
/// rules count characters, not bytes.
pub fn has_min_chars(s: &str, min: usize) -> (r: bool)
    ensures
        r == (s@.len() >= min),
{
    s.unicode_len() >= min
}

/// Decides whether two strings hold the same characters.
pub fn str_eq(a: &str, b: &str) -> (r: bool)
    ensures
        r == (a@ == b@),
{
    let na = a.unicode_len();
    let nb = b.unicode_len();
    if na != nb {
        return false;
    }
    let mut i: usize = 0;
    while i < na
        invariant
            i <= na,
            na == a@.len(),
            na == b@.len(),
            forall|k: int| 0 <= k < i ==> a@[k] == b@[k],
        decreases na - i,
    {
        if a.get_char(i) != b.get_char(i) {
            return false;
        }
        i = i + 1;
    }
    proof {
        assert(a@ =~= b@);
    }
    true
}

} // verus!
