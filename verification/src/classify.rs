//! Classification of send errors. A failure whose text names one of the
//! connection-reset codes, or a broken pipe, is a normal client departure;
//! every other send failure is an anomaly the session tolerates.

use vstd::prelude::*;
use vstd::string::*;

verus! {

/// `p` occurs in `s` starting at position `k`.
pub open spec fn match_at(s: Seq<char>, p: Seq<char>, k: int) -> bool {
    0 <= k && k + p.len() <= s.len() && s.subrange(k, k + p.len() as int) =~= p
}

/// `p` occurs somewhere in `s`.
pub open spec fn has_substring(s: Seq<char>, p: Seq<char>) -> bool {
    exists|k: int| match_at(s, p, k)
}

/// A send-error text of the disconnect class: it names one of the two
/// connection-reset codes or a broken pipe.
pub open spec fn is_disconnect_message(m: Seq<char>) -> bool {
    has_substring(m, "10053"@) || has_substring(m, "10054"@) || has_substring(m, "broken pipe"@)
}

/// `pattern` matches `text` at position `from`.
fn pattern_matches_at(text: &str, pattern: &str, from: usize) -> (r: bool)
    requires
        from + pattern@.len() <= text@.len(),
        text@.len() <= usize::MAX,
    ensures
        r == match_at(text@, pattern@, from as int),
{
    let m = pattern.unicode_len();
    let mut j: usize = 0;
    while j < m
        invariant
            j <= m,
            m == pattern@.len(),
            from + m <= text@.len(),
            text@.len() <= usize::MAX,
            forall|t: int| 0 <= t < j ==> text@[from + t] == pattern@[t],
        decreases m - j,
    {
        if text.get_char(from + j) != pattern.get_char(j) {
            proof {
                assert(text@.subrange(from as int, from + m as int)[j as int] == text@[from + j]);
            }
            return false;
        }
        j += 1;
    }
    proof {
        assert(text@.subrange(from as int, from + m as int) =~= pattern@);
    }
    true
}

/// `pattern` occurs somewhere in `text`.
pub fn str_contains(text: &str, pattern: &str) -> (r: bool)
    ensures
        r == has_substring(text@, pattern@),
{
    let n = text.unicode_len();
    let m = pattern.unicode_len();
    if m == 0 {
        proof {
            assert(text@.subrange(0, 0) =~= pattern@);
            assert(match_at(text@, pattern@, 0));
        }
        return true;
    }
    if m > n {
        return false;
    }
    let mut i: usize = 0;
    while i <= n - m
        invariant
            n == text@.len(),
            m == pattern@.len(),
            0 < m <= n,
            i <= n - m + 1,
            forall|k: int| 0 <= k < i ==> !match_at(text@, pattern@, k),
        decreases n - m + 1 - i,
    {
        if pattern_matches_at(text, pattern, i) {
            return true;
        }
        i += 1;
    }
    false
}

/// A send failure of the connection-reset / broken-pipe class is a normal
/// client disconnect; every other failure text is not.
pub fn is_disconnect_error(message: &str) -> (r: bool)
    ensures
        r == is_disconnect_message(message@),
{
    str_contains(message, "10053") || str_contains(message, "10054")
        || str_contains(message, "broken pipe")
}

} // verus!
