use vstd::prelude::*;
use vstd::string::*;

verus! {

/// `needle` occurs in `hay` at position `i`.
pub open spec fn occurs_at(hay: Seq<char>, needle: Seq<char>, i: int) -> bool {
    0 <= i && i + needle.len() <= hay.len() && hay.subrange(i, i + needle.len()) == needle
}

/// `needle` occurs somewhere in `hay` (the empty needle occurs everywhere).
pub open spec fn seq_contains_text(hay: Seq<char>, needle: Seq<char>) -> bool {
    exists|i: int| occurs_at(hay, needle, i)
}

/// `prefix` is a prefix of `s`.
pub open spec fn has_prefix(s: Seq<char>, prefix: Seq<char>) -> bool {
    prefix.len() <= s.len() && s.subrange(0, prefix.len() as int) == prefix
}

/// `suffix` is a suffix of `s`.
pub open spec fn has_suffix(s: Seq<char>, suffix: Seq<char>) -> bool {
    suffix.len() <= s.len() && s.subrange(s.len() - suffix.len(), s.len() as int) == suffix
}

/// Decimal digit character of `d` (for `d < 10`).
pub open spec fn digit_char(d: int) -> char {
    if d == 0 { '0' }
    else if d == 1 { '1' }
    else if d == 2 { '2' }
    else if d == 3 { '3' }
    else if d == 4 { '4' }
    else if d == 5 { '5' }
    else if d == 6 { '6' }
    else if d == 7 { '7' }
    else if d == 8 { '8' }
    else { '9' }
}

/// The `width` last decimal digits of `n`, most significant first, zero padded.
pub open spec fn padded_digits(n: nat, width: nat) -> Seq<char>
    decreases width,
{
    if width == 0 {
        Seq::empty()
    } else {
        padded_digits(n / 10, (width - 1) as nat).push(digit_char((n % 10) as int))
    }
}

/// Decimal text of `n` zero padded on the left to at least `width`
/// characters (as `{:0width$}` formats an unsigned number).
pub open spec fn zero_padded(n: nat, width: nat) -> Seq<char>
    decreases n,
{
    let rest: nat = if width > 1 { (width - 1) as nat } else { 0 };
    if n < 10 {
        Seq::new(rest, |i: int| '0').push(digit_char(n as int))
    } else {
        zero_padded(n / 10, rest).push(digit_char((n % 10) as int))
    }
}

/// Decimal text of `n`, without leading zeros.
pub open spec fn decimal_text(n: nat) -> Seq<char>
    decreases n,
{
    if n < 10 {
        seq![digit_char(n as int)]
    } else {
        decimal_text(n / 10).push(digit_char((n % 10) as int))
    }
}

/// Decimal value of a sequence of digit characters (most significant first).
pub open spec fn decimal_value(s: Seq<char>) -> nat
    decreases s.len(),
{
    if s.len() == 0 {
        0
    } else {
        decimal_value(s.drop_last()) * 10 + (s.last() as nat - '0' as nat) as nat
    }
}

/// Every character of `s` is an ASCII decimal digit.
pub open spec fn all_digits(s: Seq<char>) -> bool {
    forall|i: int| 0 <= i < s.len() ==> '0' <= #[trigger] s[i] <= '9'
}

/// Two strings hold the same characters.
pub fn str_eq(a: &str, b: &str) -> (same: bool)
    ensures
        same == (a@ == b@),
{
    let la = a.unicode_len();
    let lb = b.unicode_len();
    if la != lb {
        return false;
    }
    let mut i: usize = 0;
    while i < la
        invariant
            la == a@.len(),
            lb == b@.len(),
            la == lb,
            i <= la,
            forall|j: int| 0 <= j < i ==> a@[j] == b@[j],
        decreases la - i,
    {
        if a.get_char(i) != b.get_char(i) {
            return false;
        }
        i = i + 1;
    }
    assert(a@ =~= b@);
    true
}

/// `s` starts with `prefix`.
pub fn starts_with(s: &str, prefix: &str) -> (found: bool)
    ensures
        found == has_prefix(s@, prefix@),
{
    let ls = s.unicode_len();
    let lp = prefix.unicode_len();
    if lp > ls {
        return false;
    }
    let mut i: usize = 0;
    while i < lp
        invariant
            ls == s@.len(),
            lp == prefix@.len(),
            lp <= ls,
            i <= lp,
            forall|j: int| 0 <= j < i ==> s@[j] == prefix@[j],
        decreases lp - i,
    {
        if s.get_char(i) != prefix.get_char(i) {
            assert(s@.subrange(0, lp as int)[i as int] != prefix@[i as int]);
            return false;
        }
        i = i + 1;
    }
    assert(s@.subrange(0, lp as int) =~= prefix@);
    true
}

/// `s` ends with `suffix`.
pub fn ends_with(s: &str, suffix: &str) -> (found: bool)
    ensures
        found == has_suffix(s@, suffix@),
{
    let ls = s.unicode_len();
    let lx = suffix.unicode_len();
    if lx > ls {
        return false;
    }
    let start = ls - lx;
    let mut i: usize = 0;
    while i < lx
        invariant
            ls == s@.len(),
            lx == suffix@.len(),
            lx <= ls,
            start == ls - lx,
            i <= lx,
            forall|j: int| 0 <= j < i ==> s@[start + j] == suffix@[j],
        decreases lx - i,
    {
        if s.get_char(start + i) != suffix.get_char(i) {
            assert(s@.subrange(start as int, ls as int)[i as int] != suffix@[i as int]);
            return false;
        }
        i = i + 1;
    }
    assert(s@.subrange(start as int, ls as int) =~= suffix@);
    true
}

/// `needle` occurs at character position `at` of `hay`.
fn matches_at(hay: &str, needle: &str, at: usize) -> (found: bool)
    requires
        at as int + needle@.len() <= hay@.len(),
    ensures
        found == occurs_at(hay@, needle@, at as int),
{
    let _lh = hay.unicode_len();
    let ln = needle.unicode_len();
    let mut i: usize = 0;
    while i < ln
        invariant
            ln == needle@.len(),
            hay@.len() <= usize::MAX,
            at + ln <= hay@.len(),
            i <= ln,
            forall|j: int| 0 <= j < i ==> hay@[at + j] == needle@[j],
        decreases ln - i,
    {
        if hay.get_char(at + i) != needle.get_char(i) {
            assert(hay@.subrange(at as int, at + ln)[i as int] != needle@[i as int]);
            return false;
        }
        i = i + 1;
    }
    assert(hay@.subrange(at as int, at + ln) =~= needle@);
    true
}

/// `needle` occurs somewhere in `hay`.
pub fn contains_text(hay: &str, needle: &str) -> (found: bool)
    ensures
        found == seq_contains_text(hay@, needle@),
{
    let lh = hay.unicode_len();
    let ln = needle.unicode_len();
    if ln > lh {
        return false;
    }
    if ln == 0 {
        assert(occurs_at(hay@, needle@, 0)) by {
            assert(hay@.subrange(0, 0) =~= needle@);
        }
        return true;
    }
    let last = lh - ln;
    let mut at: usize = 0;
    while at <= last
        invariant
            lh == hay@.len(),
            ln == needle@.len(),
            last == lh - ln,
            ln > 0,
            at <= last + 1,
            forall|j: int| 0 <= j < at ==> !occurs_at(hay@, needle@, j),
        decreases last + 1 - at,
    {
        if matches_at(hay, needle, at) {
            return true;
        }
        at = at + 1;
    }
    false
}

/// The part of `s` after `prefix`, when `s` starts with it.
pub fn strip_prefix(s: &str, prefix: &str) -> (rest: Option<String>)
    ensures
        has_prefix(s@, prefix@) ==> (rest matches Some(r) && r@ == s@.subrange(prefix@.len() as int, s@.len() as int)),
        !has_prefix(s@, prefix@) ==> rest is None,
{
    if starts_with(s, prefix) {
        let lp = prefix.unicode_len();
        let ls = s.unicode_len();
        Some(String::from_str(s.substring_char(lp, ls)))
    } else {
        None
    }
}

/// The decimal digit of `d` as a one-character string.
pub fn digit_str(d: u64) -> (text: &'static str)
    requires
        d < 10,
    ensures
        text@ == seq![digit_char(d as int)],
{
    proof {
        reveal_strlit("0");
        reveal_strlit("1");
        reveal_strlit("2");
        reveal_strlit("3");
        reveal_strlit("4");
        reveal_strlit("5");
        reveal_strlit("6");
        reveal_strlit("7");
        reveal_strlit("8");
        reveal_strlit("9");
    }
    if d == 0 { "0" }
    else if d == 1 { "1" }
    else if d == 2 { "2" }
    else if d == 3 { "3" }
    else if d == 4 { "4" }
    else if d == 5 { "5" }
    else if d == 6 { "6" }
    else if d == 7 { "7" }
    else if d == 8 { "8" }
    else { "9" }
}

/// Appends the `width` last decimal digits of `n`, zero padded, to `out`.
pub fn push_padded_digits(out: &mut String, n: u64, width: u64)
    ensures
        final(out)@ == old(out)@ + padded_digits(n as nat, width as nat),
    decreases width,
{
    if width == 0 {
        assert(old(out)@ + padded_digits(n as nat, 0) =~= old(out)@);
        return;
    }
    push_padded_digits(out, n / 10, width - 1);
    let d = digit_str(n % 10);
    out.append(d);
    assert(out@ =~= old(out)@ + padded_digits(n as nat, width as nat));
}

/// Appends the decimal text of `n`, zero padded to at least `width`
/// characters, to `out`.
pub fn push_zero_padded(out: &mut String, n: u64, width: u64)
    ensures
        final(out)@ == old(out)@ + zero_padded(n as nat, width as nat),
    decreases n,
{
    proof { reveal_strlit("0"); }
    let rest: u64 = if width > 1 { width - 1 } else { 0 };
    if n >= 10 {
        push_zero_padded(out, n / 10, rest);
    } else {
        let mut k: u64 = 0;
        while k < rest
            invariant
                k <= rest,
                out@ == old(out)@ + Seq::new(k as nat, |i: int| '0'),
            decreases rest - k,
        {
            proof { reveal_strlit("0"); }
            out.append("0");
            assert(out@ =~= old(out)@ + Seq::new((k + 1) as nat, |i: int| '0'));
            k = k + 1;
        }
    }
    let d = digit_str(n % 10);
    out.append(d);
    assert(out@ =~= old(out)@ + zero_padded(n as nat, width as nat));
}

/// Appends the decimal text of `n` to `out`.
pub fn push_decimal(out: &mut String, n: u64)
    ensures
        final(out)@ == old(out)@ + decimal_text(n as nat),
    decreases n,
{
    if n >= 10 {
        push_decimal(out, n / 10);
    }
    let d = digit_str(n % 10);
    out.append(d);
    assert(out@ =~= old(out)@ + decimal_text(n as nat));
}

/// Two byte strings are equal.
pub fn bytes_eq(a: &[u8], b: &[u8]) -> (same: bool)
    ensures
        same == (a@ == b@),
{
    if a.len() != b.len() {
        return false;
    }
    let mut i: usize = 0;
    while i < a.len()
        invariant
            a@.len() == b@.len(),
            i <= a@.len(),
            forall|j: int| 0 <= j < i ==> a@[j] == b@[j],
        decreases a@.len() - i,
    {
        if a[i] != b[i] {
            return false;
        }
        i = i + 1;
    }
    assert(a@ =~= b@);
    true
}


/// A character with the Unicode `White_Space` property, which `str::trim` removes.
pub open spec fn is_unicode_whitespace(c: char) -> bool {
    ('\u{9}' <= c && c <= '\u{d}') || c == ' ' || c == '\u{85}' || c == '\u{a0}' || c == '\u{1680}'
        || ('\u{2000}' <= c && c <= '\u{200a}') || c == '\u{2028}' || c == '\u{2029}' || c
        == '\u{202f}' || c == '\u{205f}' || c == '\u{3000}'
}

pub fn is_whitespace_char(c: char) -> (ws: bool)
    ensures
        ws == is_unicode_whitespace(c),
{
    ('\u{9}' <= c && c <= '\u{d}') || c == ' ' || c == '\u{85}' || c == '\u{a0}' || c == '\u{1680}'
        || ('\u{2000}' <= c && c <= '\u{200a}') || c == '\u{2028}' || c == '\u{2029}' || c
        == '\u{202f}' || c == '\u{205f}' || c == '\u{3000}'
}

/// `s` without its leading white space.
pub open spec fn trim_front(s: Seq<char>) -> Seq<char>
    decreases s.len(),
{
    if s.len() > 0 && is_unicode_whitespace(s[0]) {
        trim_front(s.subrange(1, s.len() as int))
    } else {
        s
    }
}

/// `s` without its trailing white space.
pub open spec fn trim_back(s: Seq<char>) -> Seq<char>
    decreases s.len(),
{
    if s.len() > 0 && is_unicode_whitespace(s.last()) {
        trim_back(s.drop_last())
    } else {
        s
    }
}

/// `s` without leading and trailing white space, as `str::trim` gives it.
pub open spec fn trimmed(s: Seq<char>) -> Seq<char> {
    trim_back(trim_front(s))
}

proof fn lemma_trim_front_from(s: Seq<char>, i: int)
    requires
        0 <= i <= s.len(),
        forall|k: int| 0 <= k < i ==> is_unicode_whitespace(#[trigger] s[k]),
    ensures
        trim_front(s) == trim_front(s.subrange(i, s.len() as int)),
    decreases i,
{
    if i > 0 {
        let t = s.subrange(1, s.len() as int);
        assert forall|k: int| 0 <= k < i - 1 implies is_unicode_whitespace(#[trigger] t[k]) by {
            assert(t[k] == s[k + 1]);
        }
        lemma_trim_front_from(t, i - 1);
        assert(t.subrange(i - 1, t.len() as int) =~= s.subrange(i, s.len() as int));
    } else {
        assert(s.subrange(0, s.len() as int) =~= s);
    }
}

proof fn lemma_trim_back_to(s: Seq<char>, j: int)
    requires
        0 <= j <= s.len(),
        forall|k: int| j <= k < s.len() ==> is_unicode_whitespace(#[trigger] s[k]),
    ensures
        trim_back(s) == trim_back(s.subrange(0, j)),
    decreases s.len() - j,
{
    if j < s.len() {
        let t = s.drop_last();
        assert forall|k: int| j <= k < t.len() implies is_unicode_whitespace(#[trigger] t[k]) by {
            assert(t[k] == s[k]);
        }
        lemma_trim_back_to(t, j);
        assert(t.subrange(0, j) =~= s.subrange(0, j));
    } else {
        assert(s.subrange(0, j) =~= s);
    }
}

/// `s` without leading and trailing white space.
pub fn trim_text(s: &str) -> (t: String)
    ensures
        t@ == trimmed(s@),
{
    let len = s.unicode_len();
    let mut start: usize = 0;
    while start < len && is_whitespace_char(s.get_char(start))
        invariant
            start <= len,
            len == s@.len(),
            forall|k: int| 0 <= k < start ==> is_unicode_whitespace(#[trigger] s@[k]),
        decreases len - start,
    {
        start = start + 1;
    }
    let mut end: usize = len;
    while end > start && is_whitespace_char(s.get_char(end - 1))
        invariant
            start <= end <= len,
            len == s@.len(),
            forall|k: int| end <= k < len ==> is_unicode_whitespace(#[trigger] s@[k]),
        decreases end - start,
    {
        end = end - 1;
    }
    proof {
        lemma_trim_front_from(s@, start as int);
        let rest = s@.subrange(start as int, len as int);
        assert(start == len || !is_unicode_whitespace(rest[0]));
        assert(trim_front(rest) == rest);
        assert forall|k: int| end - start <= k < rest.len() implies is_unicode_whitespace(#[trigger] rest[k]) by {
            assert(rest[k] == s@[k + start]);
        }
        lemma_trim_back_to(rest, end - start);
        let kept = rest.subrange(0, end - start);
        assert(kept =~= s@.subrange(start as int, end as int));
        assert(end == start || !is_unicode_whitespace(kept.last()));
        assert(trim_back(kept) == kept);
    }
    s.substring_char(start, end).to_string()
}

/// The pieces of `s` between commas, as `str::split(',')` gives them.
pub open spec fn split_commas(s: Seq<char>) -> Seq<Seq<char>>
    decreases s.len(),
{
    if s.len() == 0 {
        seq![Seq::<char>::empty()]
    } else if s.last() == ',' {
        split_commas(s.drop_last()).push(Seq::<char>::empty())
    } else {
        let prev = split_commas(s.drop_last());
        prev.update(prev.len() - 1, prev.last().push(s.last()))
    }
}

pub proof fn lemma_split_commas_nonempty(s: Seq<char>)
    ensures
        split_commas(s).len() >= 1,
    decreases s.len(),
{
    if s.len() > 0 {
        lemma_split_commas_nonempty(s.drop_last());
    }
}

/// The pieces of `s` between commas.
pub fn split_on_commas(s: &str) -> (pieces: Vec<String>)
    ensures
        pieces@.map_values(|p: String| p@) == split_commas(s@),
{
    let len = s.unicode_len();
    let mut pieces: Vec<String> = Vec::new();
    let mut start: usize = 0;
    let mut i: usize = 0;
    assert(s@.subrange(0, 0) =~= Seq::<char>::empty());
    assert(pieces@.map_values(|p: String| p@).push(s@.subrange(0, 0)) =~= seq![Seq::<char>::empty()]);
    while i < len
        invariant
            start <= i <= len,
            len == s@.len(),
            pieces@.map_values(|p: String| p@).push(s@.subrange(start as int, i as int))
                == split_commas(s@.subrange(0, i as int)),
        decreases len - i,
    {
        let ghost before = s@.subrange(0, i as int);
        let ghost next = s@.subrange(0, i + 1);
        assert(next.drop_last() =~= before);
        assert(next.last() == s@[i as int]);
        proof {
            lemma_split_commas_nonempty(before);
        }
        if s.get_char(i) == ',' {
            let piece = s.substring_char(start, i).to_string();
            let ghost old_views = pieces@.map_values(|p: String| p@);
            pieces.push(piece);
            assert(pieces@.map_values(|p: String| p@) =~= old_views.push(piece@));
            assert(s@.subrange((i + 1) as int, (i + 1) as int) =~= Seq::<char>::empty());
            start = i + 1;
        } else {
            assert(s@.subrange(start as int, i + 1) =~= s@.subrange(start as int, i as int).push(s@[i as int]));
        }
        i = i + 1;
    }
    let last = s.substring_char(start, len).to_string();
    let ghost old_views = pieces@.map_values(|p: String| p@);
    pieces.push(last);
    assert(pieces@.map_values(|p: String| p@) =~= old_views.push(last@));
    assert(s@.subrange(0, len as int) =~= s@);
    pieces
}

} // verus!
