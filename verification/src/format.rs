//! Text handling around formatted numbers: trimming, counting decimals and
//! keeping the characters of a number.

use vstd::prelude::*;
use vstd::string::*;

verus! {

/// The first position, at `i` or later, that holds `c`.
pub open spec fn first_index_of(s: Seq<char>, c: char, i: int) -> Option<int>
    decreases s.len() - i,
{
    if 0 <= i < s.len() {
        if s[i] == c {
            Some(i)
        } else {
            first_index_of(s, c, i + 1)
        }
    } else {
        None
    }
}

proof fn lemma_first_index_of(s: Seq<char>, c: char, i: int)
    requires
        0 <= i <= s.len(),
    ensures
        first_index_of(s, c, i) matches Some(p) ==> i <= p < s.len() && s[p] == c && forall|k: int|
            i <= k < p ==> s[k] != c,
        first_index_of(s, c, i) is None ==> forall|k: int| i <= k < s.len() ==> s[k] != c,
    decreases s.len() - i,
{
    if i < s.len() {
        lemma_first_index_of(s, c, i + 1);
    }
}

/// A text with its trailing '0' characters removed.
pub open spec fn strip_trailing_zeros(s: Seq<char>) -> Seq<char>
    decreases s.len(),
{
    if s.len() > 0 && s.last() == '0' {
        strip_trailing_zeros(s.drop_last())
    } else {
        s
    }
}

/// The first position of `c` in `s`.
pub fn find_char(s: &str, c: char) -> (r: Option<usize>)
    ensures
        match r {
            Some(p) => first_index_of(s@, c, 0) == Some(p as int),
            None => first_index_of(s@, c, 0) is None && !s@.contains(c),
        },
        r is Some <==> s@.contains(c),
{
    proof {
        lemma_first_index_of(s@, c, 0);
    }
    let n = s.unicode_len();
    let mut i: usize = 0;
    while i < n
        invariant
            n == s@.len(),
            i <= n,
            first_index_of(s@, c, 0) == first_index_of(s@, c, i as int),
        decreases n - i,
    {
        if s.get_char(i) == c {
            assert(s@.contains(c));
            return Some(i);
        }
        i += 1;
    }
    None
}

/// A formatted number with its trailing zeros trimmed after the decimal
/// point, keeping at least one decimal place: a text without a decimal
/// point gains ".0".
pub open spec fn spec_trim_decimals(s: Seq<char>) -> Seq<char> {
    if s.contains('.') {
        let t = strip_trailing_zeros(s);
        if t.len() > 0 && t.last() == '.' {
            t.push('0')
        } else {
            t
        }
    } else {
        s + seq!['.', '0']
    }
}

proof fn lemma_strip_trailing_zeros(s: Seq<char>)
    ensures
        strip_trailing_zeros(s).len() <= s.len(),
        strip_trailing_zeros(s) == s.take(strip_trailing_zeros(s).len() as int),
        strip_trailing_zeros(s).len() > 0 ==> strip_trailing_zeros(s).last() != '0',
        forall|i: int|
            strip_trailing_zeros(s).len() <= i < s.len() ==> #[trigger] s[i] == '0',
    decreases s.len(),
{
    if s.len() > 0 && s.last() == '0' {
        lemma_strip_trailing_zeros(s.drop_last());
        assert(s.drop_last().take(strip_trailing_zeros(s).len() as int)
            == s.take(strip_trailing_zeros(s).len() as int));
        assert forall|i: int| strip_trailing_zeros(s).len() <= i < s.len() implies #[trigger] s[i] == '0' by {
            if i < s.len() - 1 {
                assert(s.drop_last()[i] == s[i]);
            }
        }
    } else {
        assert(s.take(s.len() as int) == s);
    }
}

/// Trims the trailing zeros of a formatted number after its decimal point,
/// keeping at least one decimal place: "1.2500" becomes "1.25", "3.000"
/// becomes "3.0" and "3" becomes "3.0".
pub fn trim_decimals(s: &str) -> (r: String)
    ensures
        r@ == spec_trim_decimals(s@),
        r@.contains('.'),
        r@.last() != '0' || r@.drop_last().last() == '.',
{
    let n = s.unicode_len();
    if find_char(s, '.').is_none() {
        let mut r = s.to_owned();
        proof {
            reveal_strlit(".0");
        }
        r.append(".0");
        assert(r@[s@.len() as int] == '.');
        return r;
    }
    proof {
        lemma_strip_trailing_zeros(s@);
        assert(s@.take(n as int) == s@);
    }
    // the point is not a zero, so the stripping stops at it at the latest
    let mut end = n;
    while end > 0 && s.get_char(end - 1) == '0'
        invariant
            n == s@.len(),
            end <= n,
            strip_trailing_zeros(s@) == strip_trailing_zeros(s@.take(end as int)),
            forall|k: int| end <= k < n ==> #[trigger] s@[k] == '0',
        decreases end,
    {
        assert(s@.take(end as int).drop_last() == s@.take(end - 1));
        end -= 1;
    }
    assert(strip_trailing_zeros(s@.take(end as int)) == s@.take(end as int));
    let ghost p = choose|i: int| 0 <= i < s@.len() && s@[i] == '.';
    assert(p < end);
    let mut r = s.substring_char(0, end).to_owned();
    assert(r@[p] == '.');
    if end > 0 && s.get_char(end - 1) == '.' {
        proof {
            reveal_strlit("0");
        }
        r.append("0");
    }
    assert(r@[p] == '.');
    r
}

/// Trimming a trimmed number changes nothing.
pub proof fn lemma_trim_decimals_idempotent(s: Seq<char>)
    ensures
        spec_trim_decimals(spec_trim_decimals(s)) == spec_trim_decimals(s),
{
    if s.contains('.') {
        lemma_strip_trailing_zeros(s);
        let t = strip_trailing_zeros(s);
        let p = choose|i: int| 0 <= i < s.len() && s[i] == '.';
        assert(p < t.len());
        assert(t[p] == '.');
        assert(t.contains('.'));
        if t.len() > 0 && t.last() == '.' {
            let r = t.push('0');
            assert(r[p] == '.');
            assert(r.drop_last() == t);
            assert(strip_trailing_zeros(r) == strip_trailing_zeros(t));
        }
    } else {
        let r = s + seq!['.', '0'];
        assert(r[s.len() as int] == '.');
        assert(r.drop_last() == s.push('.'));
        assert(strip_trailing_zeros(r) == strip_trailing_zeros(s.push('.')));
        assert(strip_trailing_zeros(s.push('.')) == s.push('.'));
        assert(s.push('.').push('0') == r);
    }
}

/// The number of digits after the decimal point, not counting trailing
/// zeros; 0 when there is no decimal point.
pub open spec fn spec_decimal_places(s: Seq<char>) -> int {
    match first_index_of(s, '.', 0) {
        Some(p) => strip_trailing_zeros(s.skip(p + 1)).len() as int,
        None => 0,
    }
}

/// The number of digits that a formatted number holds after its decimal
/// point, trailing zeros not counted.
pub fn decimal_places(s: &str) -> (r: usize)
    ensures
        r == spec_decimal_places(s@),
{
    let n = s.unicode_len();
    let i = match find_char(s, '.') {
        Some(p) => p,
        None => return 0,
    };
    proof {
        lemma_first_index_of(s@, '.', 0);
    }
    let after = s.substring_char(i + 1, n);
    proof {
        lemma_strip_trailing_zeros(after@);
        assert(after@ == s@.skip(i + 1));
        assert(after@.take(after@.len() as int) == after@);
    }
    let m = n - (i + 1);
    let mut end = m;
    while end > 0 && after.get_char(end - 1) == '0'
        invariant
            m == after@.len(),
            end <= m,
            strip_trailing_zeros(after@) == strip_trailing_zeros(after@.take(end as int)),
        decreases end,
    {
        assert(after@.take(end as int).drop_last() == after@.take(end - 1));
        end -= 1;
    }
    assert(strip_trailing_zeros(after@.take(end as int)) == after@.take(end as int));
    end
}

/// The characters of a number: ASCII digits, the decimal point, and the
/// minus sign where it is allowed.
pub open spec fn is_number_char(c: char, allow_minus: bool) -> bool {
    ('0' <= c && c <= '9') || c == '.' || (allow_minus && c == '-')
}

/// The characters of `s` that belong to a number, in order.
pub fn filter_number_chars(s: &str, allow_minus: bool) -> (r: String)
    ensures
        r@ == s@.filter(|c: char| is_number_char(c, allow_minus)),
{
    let ghost keep = |c: char| is_number_char(c, allow_minus);
    let n = s.unicode_len();
    let mut r = String::new();
    let mut i: usize = 0;
    assert(s@.take(0).filter(keep) =~= Seq::<char>::empty()) by {
        reveal(Seq::filter);
    }
    while i < n
        invariant
            n == s@.len(),
            i <= n,
            r@ == s@.take(i as int).filter(keep),
            keep == (|c: char| is_number_char(c, allow_minus)),
        decreases n - i,
    {
        let c = s.get_char(i);
        proof {
            reveal(Seq::filter);
            assert(s@.take(i + 1).drop_last() == s@.take(i as int));
            assert(s@.take(i + 1).last() == c);
        }
        if ('0' <= c && c <= '9') || c == '.' || (allow_minus && c == '-') {
            let piece = s.substring_char(i, i + 1);
            assert(piece@ == seq![c]);
            r.append(piece);
        }
        i += 1;
    }
    assert(s@.take(n as int) == s@);
    r
}

/// Every ASCII digit, the decimal point, and the minus sign where it is
/// allowed, belong to a number; no other character does.
pub proof fn lemma_number_chars(c: char, allow_minus: bool)
    ensures
        '0' <= c <= '9' ==> is_number_char(c, allow_minus),
        c == '.' ==> is_number_char(c, allow_minus),
        allow_minus && c == '-' ==> is_number_char(c, allow_minus),
        !('0' <= c <= '9') && c != '.' && c != '-' ==> !is_number_char(c, allow_minus),
        !allow_minus && c == '-' ==> !is_number_char(c, allow_minus),
{
}

/// A text made only of digits, decimal points and (where allowed) minus
/// signs passes through the number filter unchanged.
pub proof fn lemma_number_text_passes_unchanged(s: Seq<char>, allow_minus: bool)
    requires
        forall|i: int|
            0 <= i < s.len() ==> ('0' <= #[trigger] s[i] <= '9') || s[i] == '.' || (allow_minus && s[i]
                == '-'),
    ensures
        s.filter(|c: char| is_number_char(c, allow_minus)) == s,
    decreases s.len(),
{
    reveal(Seq::filter);
    if s.len() > 0 {
        let t = s.drop_last();
        assert forall|i: int| 0 <= i < t.len() implies ('0' <= #[trigger] t[i] <= '9') || t[i] == '.'
            || (allow_minus && t[i] == '-') by {
            assert(t[i] == s[i]);
        }
        lemma_number_text_passes_unchanged(t, allow_minus);
        assert(s.last() == s[s.len() - 1]);
        assert(t.push(s.last()) == s);
    }
}

} // verus!
