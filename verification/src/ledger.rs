use vstd::prelude::*;
use vstd::string::*;

use crate::encoding::{hex_encode, hex_lower};
use crate::timestamping::service::{sha3_256, sha3_256_digest};
use crate::text::{all_digits, decimal_value, padded_digits, push_padded_digits};

verus! {

/// A monthly digest period, written `YYYY-MM`.
#[derive(Debug, Clone, Copy, PartialEq, Eq, Structural)]
pub struct MonthlyDigestPeriod {
    pub year: u16,
    pub month: u8,
}

/// Why a period could not be read.
#[derive(Debug, Clone, Copy, PartialEq, Eq, Structural)]
pub enum PeriodError {
    InvalidFormat,
}

pub open spec fn period_error_text() -> Seq<char> {
    "invalid period format (expected YYYY-MM)"@
}

impl PeriodError {
    /// The human-readable description of the error.
    pub fn to_display_string(&self) -> (text: String)
        ensures
            text@ == period_error_text(),
    {
        String::from_str("invalid period format (expected YYYY-MM)")
    }
}

impl MonthlyDigestPeriod {
    /// A period has a four-digit year and a month from 1 to 12.
    pub open spec fn wf(self) -> bool {
        self.year <= 9999 && 1 <= self.month <= 12
    }

    /// The `YYYY-MM` text of a period.
    pub open spec fn text(self) -> Seq<char> {
        padded_digits(self.year as nat, 4) + seq!['-'] + padded_digits(self.month as nat, 2)
    }
}

/// The text of a valid period: four digits, a hyphen, two digits, month 1 to 12.
pub open spec fn is_period_text(s: Seq<char>) -> bool {
    &&& s.len() == 7
    &&& all_digits(s.subrange(0, 4))
    &&& s[4] == '-'
    &&& all_digits(s.subrange(5, 7))
    &&& 1 <= decimal_value(s.subrange(5, 7)) <= 12
}

/// The period that a valid period text denotes.
pub open spec fn period_of_text(s: Seq<char>) -> MonthlyDigestPeriod {
    MonthlyDigestPeriod {
        year: decimal_value(s.subrange(0, 4)) as u16,
        month: decimal_value(s.subrange(5, 7)) as u8,
    }
}

fn digit_value(c: char) -> (v: Option<u16>)
    ensures
        ('0' <= c <= '9') ==> (v matches Some(d) && d as nat == (c as nat - '0' as nat)),
        !('0' <= c <= '9') ==> v is None,
{
    if '0' <= c && c <= '9' {
        Some((c as u32 - '0' as u32) as u16)
    } else {
        None
    }
}

proof fn lemma_decimal_value_bound(s: Seq<char>)
    requires
        all_digits(s),
    ensures
        decimal_value(s) < pow10(s.len()),
    decreases s.len(),
{
    if s.len() > 0 {
        assert(all_digits(s.drop_last())) by {
            assert forall|i: int| 0 <= i < s.drop_last().len() implies '0' <= #[trigger] s.drop_last()[i] <= '9' by {
                assert(s.drop_last()[i] == s[i]);
            }
        }
        lemma_decimal_value_bound(s.drop_last());
        assert('0' <= s[s.len() - 1] <= '9');
    }
}

/// Ten to the power `n`.
pub open spec fn pow10(n: nat) -> nat
    decreases n,
{
    if n == 0 { 1 } else { 10 * pow10((n - 1) as nat) }
}

/// Parses the digits `s[from..to]` of a string known to be at least `to` long.
fn parse_digits(s: &str, from: usize, to: usize) -> (v: Option<u16>)
    requires
        from <= to <= s@.len(),
        to - from <= 4,
    ensures
        all_digits(s@.subrange(from as int, to as int)) ==> (v matches Some(n) && n as nat == decimal_value(s@.subrange(from as int, to as int))),
        !all_digits(s@.subrange(from as int, to as int)) ==> v is None,
{
    let mut value: u16 = 0;
    let mut i: usize = from;
    while i < to
        invariant
            from <= i <= to <= s@.len(),
            to - from <= 4,
            all_digits(s@.subrange(from as int, i as int)),
            value as nat == decimal_value(s@.subrange(from as int, i as int)),
            value < pow10((i - from) as nat),
        decreases to - i,
    {
        let c = s.get_char(i);
        let ghost prefix = s@.subrange(from as int, i as int);
        let ghost next = s@.subrange(from as int, i + 1);
        assert(next.drop_last() =~= prefix);
        assert(next.last() == c);
        match digit_value(c) {
            None => {
                assert(!all_digits(s@.subrange(from as int, to as int))) by {
                    assert(s@.subrange(from as int, to as int)[i - from] == c);
                }
                return None;
            },
            Some(d) => {
                assert(pow10((i + 1 - from) as nat) == 10 * pow10((i - from) as nat));
                assert(pow10((i - from) as nat) <= 1000) by {
                    reveal_with_fuel(pow10, 5);
                }
                value = value * 10 + d;
                assert(all_digits(next)) by {
                    assert forall|k: int| 0 <= k < next.len() implies '0' <= #[trigger] next[k] <= '9' by {
                        if k < prefix.len() {
                            assert(next[k] == prefix[k]);
                        }
                    }
                }
            },
        }
        i = i + 1;
    }
    Some(value)
}

impl MonthlyDigestPeriod {
    /// Reads a `YYYY-MM` period.
    pub fn parse(text: &str) -> (period: Result<MonthlyDigestPeriod, PeriodError>)
        ensures
            is_period_text(text@) ==> (period matches Ok(p) && p == period_of_text(text@) && p.wf()),
            !is_period_text(text@) ==> period matches Err(PeriodError::InvalidFormat),
    {
        let len = text.unicode_len();
        if len != 7 {
            return Err(PeriodError::InvalidFormat);
        }
        if text.get_char(4) != '-' {
            return Err(PeriodError::InvalidFormat);
        }
        let year = match parse_digits(text, 0, 4) {
            Some(y) => y,
            None => { return Err(PeriodError::InvalidFormat); },
        };
        let month = match parse_digits(text, 5, 7) {
            Some(m) => m,
            None => { return Err(PeriodError::InvalidFormat); },
        };
        if month < 1 || month > 12 {
            return Err(PeriodError::InvalidFormat);
        }
        proof {
            lemma_decimal_value_bound(text@.subrange(0, 4));
            reveal_with_fuel(pow10, 5);
        }
        Ok(MonthlyDigestPeriod { year, month: month as u8 })
    }

    /// The `YYYY-MM` text of the period.
    pub fn as_str(&self) -> (text: String)
        ensures
            text@ == self.text(),
    {
        let mut out = String::new();
        push_padded_digits(&mut out, self.year as u64, 4);
        out.append("-");
        push_padded_digits(&mut out, self.month as u64, 2);
        proof {
            reveal_strlit("-");
        }
        out
    }
}

/// Lemma: the last `width` digits of `n` read back as `n`, when `n` has at most `width` digits.
pub proof fn lemma_padded_digits_roundtrip(n: nat, width: nat)
    requires
        n < pow10(width),
    ensures
        padded_digits(n, width).len() == width,
        all_digits(padded_digits(n, width)),
        decimal_value(padded_digits(n, width)) == n,
    decreases width,
{
    if width > 0 {
        lemma_padded_digits_roundtrip(n / 10, (width - 1) as nat);
        let d = n % 10;
        let s = padded_digits(n, width);
        assert(s.drop_last() =~= padded_digits(n / 10, (width - 1) as nat));
        assert(crate::text::digit_char(d as int) as nat - '0' as nat == d);
        assert forall|i: int| 0 <= i < s.len() implies '0' <= #[trigger] s[i] <= '9' by {
            if i < s.len() - 1 {
                assert(s[i] == padded_digits(n / 10, (width - 1) as nat)[i]);
            }
        }
    }
}

/// Law: reading back the text of a valid period gives the same period.
pub proof fn lemma_period_text_roundtrip(p: MonthlyDigestPeriod)
    requires
        p.wf(),
    ensures
        is_period_text(p.text()),
        period_of_text(p.text()) == p,
{
    reveal_with_fuel(pow10, 5);
    lemma_padded_digits_roundtrip(p.year as nat, 4);
    lemma_padded_digits_roundtrip(p.month as nat, 2);
    let t = p.text();
    assert(t.subrange(0, 4) =~= padded_digits(p.year as nat, 4));
    assert(t.subrange(5, 7) =~= padded_digits(p.month as nat, 2));
}

/// SHA3-256 hash of a monthly digest: exactly 32 bytes.
#[derive(Debug, Clone, Copy, PartialEq, Eq, Hash)]
pub struct DigestHash([u8; 32]);

impl View for DigestHash {
    type V = Seq<u8>;

    closed spec fn view(&self) -> Seq<u8> {
        self.0@
    }
}

impl DigestHash {
    pub fn from_bytes(bytes: [u8; 32]) -> (hash: Self)
        ensures
            hash@ == bytes@,
    {
        DigestHash(bytes)
    }

    pub fn as_bytes(&self) -> (bytes: &[u8; 32])
        ensures
            bytes@ == self@,
    {
        &self.0
    }

    /// The digest hash of a monthly digest's canonical form: its SHA3-256
    /// hash, the algorithm that time-stamp requests name for the imprint.
    pub fn from_canonical_bytes(canonical_bytes: &[u8]) -> (hash: Self)
        ensures
            hash@ == sha3_256(canonical_bytes@),
    {
        DigestHash(sha3_256_digest(canonical_bytes))
    }

    /// Lower-case hexadecimal text of the hash (64 characters).
    pub fn to_hex(&self) -> (text: String)
        ensures
            text@ == hex_lower(self@),
    {
        hex_encode(self.0.as_slice())
    }
}

} // verus!
