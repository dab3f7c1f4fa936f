//! Character-level comparison of strings.
use vstd::prelude::*;

verus! {

/// The code of the character `c` once an ASCII capital is turned into its
/// lower-case letter; every other character keeps its code.
pub open spec fn ascii_lower_code(c: char) -> u32 {
    if 65 <= (c as u32) && (c as u32) <= 90 {
        ((c as u32) + 32) as u32
    } else {
        c as u32
    }
}

/// `s` spells the lower-case ASCII word `word` up to the case of its letters.
///
/// For the status and cookie words used by this crate (none holds a `k`) this
/// is the same as comparing the Unicode lower-case form of `s` with `word`:
/// the only non-ASCII character whose lower-case form is a single ASCII
/// letter is the Kelvin sign, which lower-cases to `k`.
pub open spec fn spells_word(s: Seq<char>, word: Seq<char>) -> bool {
    &&& s.len() == word.len()
    &&& forall|i: int| 0 <= i < s.len() ==> ascii_lower_code(#[trigger] s[i]) == word[i] as u32
}

/// Whether `s` spells `word` ignoring the case of ASCII letters.
pub fn matches_word(s: &str, word: &str) -> (res: bool)
    ensures
        res == spells_word(s@, word@),
{
    let n = s.unicode_len();
    let m = word.unicode_len();
    if n != m {
        return false;
    }
    let mut i: usize = 0;
    while i < n
        invariant
            n == s@.len(),
            m == word@.len(),
            n == m,
            i <= n,
            forall|j: int| 0 <= j < i ==> ascii_lower_code(#[trigger] s@[j]) == word@[j] as u32,
        decreases n - i,
    {
        let c = s.get_char(i);
        let w = word.get_char(i);
        let code: u32 = c as u32;
        let lowered: u32 = if 65 <= code && code <= 90 {
            code + 32
        } else {
            code
        };
        if lowered != w as u32 {
            assert(ascii_lower_code(s@[i as int]) != word@[i as int] as u32);
            return false;
        }
        i = i + 1;
    }
    true
}

/// Whether `a` and `b` hold the same characters.
pub fn same_text(a: &str, b: &str) -> (res: bool)
    ensures
        res == (a@ == b@),
{
    let n = a.unicode_len();
    let m = b.unicode_len();
    if n != m {
        return false;
    }
    let mut i: usize = 0;
    while i < n
        invariant
            n == a@.len(),
            m == b@.len(),
            n == m,
            i <= n,
            forall|j: int| 0 <= j < i ==> a@[j] == b@[j],
        decreases n - i,
    {
        if a.get_char(i) != b.get_char(i) {
            return false;
        }
        i = i + 1;
    }
    assert(a@ =~= b@);
    true
}

/// `s` spells `word` exactly when both have the same length and each
/// character of `s` is the character of `word` there, except that an ASCII
/// capital in `s` stands for its lower-case letter in `word`.
pub proof fn law_spells_word_by_characters(s: Seq<char>, word: Seq<char>)
    ensures
        spells_word(s, word) <==> (s.len() == word.len() && forall|i: int|
            0 <= i < s.len() ==> if 65 <= #[trigger] s[i] as u32 <= 90 {
                s[i] as u32 + 32 == word[i] as u32
            } else {
                s[i] as u32 == word[i] as u32
            }),
{
}

} // verus!
