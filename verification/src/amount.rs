use vstd::prelude::*;

use crate::text::{find_char, lemma_find_char_hit, lemma_find_char_miss};

verus! {

/// An arbitrary-precision decimal monetary quantity, kept as its exact
/// decimal digits: money never passes through floating point, and
/// trailing fractional zeros (the scale) survive every trip.
#[derive(Debug, Clone, PartialEq, Eq, Hash)]
pub struct Amount {
    /// Whether the quantity is negative.
    pub negative: bool,
    /// The digits before the decimal point, most significant first,
    /// each `0..=9`; at least one, with no superfluous leading zero.
    pub integer: Vec<u8>,
    /// The digits after the decimal point, if any; each `0..=9`.
    /// Trailing zeros are meaningful and preserved.
    pub fraction: Vec<u8>,
}

/// The mathematical form of an `Amount`.
pub struct AmountView {
    /// See `Amount::negative`.
    pub negative: bool,
    /// See `Amount::integer`.
    pub integer: Seq<u8>,
    /// See `Amount::fraction`.
    pub fraction: Seq<u8>,
}

impl View for Amount {
    type V = AmountView;

    open spec fn view(&self) -> AmountView {
        AmountView { negative: self.negative, integer: self.integer@, fraction: self.fraction@ }
    }
}

/// Well-formedness of an amount: digits in range, a nonempty integer part,
/// and no superfluous leading zero.
pub open spec fn amount_wf(a: AmountView) -> bool {
    &&& a.integer.len() > 0
    &&& forall|i: int| 0 <= i < a.integer.len() ==> a.integer[i] < 10
    &&& forall|i: int| 0 <= i < a.fraction.len() ==> a.fraction[i] < 10
    &&& a.integer.len() > 1 ==> a.integer[0] != 0
}

/// The character written for one decimal digit.
pub open spec fn digit_char(d: u8) -> char {
    match d {
        0u8 => '0',
        1u8 => '1',
        2u8 => '2',
        3u8 => '3',
        4u8 => '4',
        5u8 => '5',
        6u8 => '6',
        7u8 => '7',
        8u8 => '8',
        9u8 => '9',
        _ => '?',
    }
}

/// The value of one decimal digit character; ten for anything else.
pub open spec fn char_digit(c: char) -> u8 {
    match c {
        '0' => 0u8,
        '1' => 1u8,
        '2' => 2u8,
        '3' => 3u8,
        '4' => 4u8,
        '5' => 5u8,
        '6' => 6u8,
        '7' => 7u8,
        '8' => 8u8,
        '9' => 9u8,
        _ => 10u8,
    }
}

/// Whether a character is a decimal digit.
pub open spec fn is_digit_char(c: char) -> bool {
    char_digit(c) < 10
}

/// Digits written as characters, in order.
pub open spec fn digits_text(ds: Seq<u8>) -> Seq<char> {
    Seq::new(ds.len(), |i: int| digit_char(ds[i]))
}

/// Characters read as digits, in order.
pub open spec fn digits_of(cs: Seq<char>) -> Seq<u8> {
    Seq::new(cs.len(), |i: int| char_digit(cs[i]))
}

/// Whether every character is a decimal digit.
pub open spec fn all_digits(cs: Seq<char>) -> bool {
    forall|i: int| 0 <= i < cs.len() ==> is_digit_char(cs[i])
}

/// A valid integer part: nonempty, all digits, and no superfluous
/// leading zero.
pub open spec fn valid_int_chars(cs: Seq<char>) -> bool {
    &&& cs.len() > 0
    &&& all_digits(cs)
    &&& cs.len() > 1 ==> cs[0] != '0'
}

/// The one textual form of an amount: an optional minus sign, the integer
/// digits, and, when any fractional digit is present, a point and the
/// fractional digits.
pub open spec fn amount_text(a: AmountView) -> Seq<char> {
    let sign: Seq<char> = if a.negative {
        seq!['-']
    } else {
        Seq::empty()
    };
    let tail: Seq<char> = if a.fraction.len() > 0 {
        seq!['.'] + digits_text(a.fraction)
    } else {
        Seq::empty()
    };
    sign + digits_text(a.integer) + tail
}

/// Decoding of the decimal-literal form: `[-]digits[.digits]`, rejecting
/// anything else (an empty part, a stray character, a second point, a
/// superfluous leading zero).
pub open spec fn spec_parse_amount(s: Seq<char>) -> Option<AmountView> {
    let negative = s.len() > 0 && s[0] == '-';
    let body = if negative {
        s.drop_first()
    } else {
        s
    };
    match find_char(body, '.', 0) {
        None => if valid_int_chars(body) {
            Some(AmountView { negative, integer: digits_of(body), fraction: Seq::empty() })
        } else {
            None
        },
        Some(i) => {
            let ip = body.subrange(0, i);
            let fp = body.subrange(i + 1, body.len() as int);
            if valid_int_chars(ip) && fp.len() > 0 && all_digits(fp) {
                Some(AmountView { negative, integer: digits_of(ip), fraction: digits_of(fp) })
            } else {
                None
            }
        },
    }
}

/// Writes one decimal digit, mirroring `digit_char`.
fn digit_to_char(d: u8) -> (r: char)
    ensures
        r == digit_char(d),
{
    match d {
        0u8 => '0',
        1u8 => '1',
        2u8 => '2',
        3u8 => '3',
        4u8 => '4',
        5u8 => '5',
        6u8 => '6',
        7u8 => '7',
        8u8 => '8',
        9u8 => '9',
        _ => '?',
    }
}

/// Reads one decimal digit, mirroring `char_digit`.
fn char_to_digit(c: char) -> (r: u8)
    ensures
        r == char_digit(c),
{
    match c {
        '0' => 0u8,
        '1' => 1u8,
        '2' => 2u8,
        '3' => 3u8,
        '4' => 4u8,
        '5' => 5u8,
        '6' => 6u8,
        '7' => 7u8,
        '8' => 8u8,
        '9' => 9u8,
        _ => 10u8,
    }
}

/// Reads a run of digit characters; fails on the first non-digit.
fn digits_vec(t: &str) -> (r: Option<Vec<u8>>)
    ensures
        all_digits(t@) ==> (r matches Some(v) && v@ == digits_of(t@)),
        !all_digits(t@) ==> r is None,
{
    let len = t.unicode_len();
    let mut v: Vec<u8> = Vec::new();
    let mut i: usize = 0;
    while i < len
        invariant
            len == t@.len(),
            i <= len,
            v@ == digits_of(t@.subrange(0, i as int)),
            forall|k: int| 0 <= k < i ==> is_digit_char(t@[k]),
        decreases len - i,
    {
        let c = t.get_char(i);
        let d = char_to_digit(c);
        if d >= 10 {
            return None;
        }
        v.push(d);
        i = i + 1;
        proof {
            assert(digits_of(t@.subrange(0, i as int)) =~= digits_of(
                t@.subrange(0, i - 1),
            ) + seq![char_digit(t@[i - 1])]);
        }
    }
    proof {
        assert(t@.subrange(0, len as int) =~= t@);
    }
    Some(v)
}

impl Amount {
    /// Writes the amount in its decimal textual form.
    pub fn to_text(&self) -> (r: String)
        ensures
            r@ == amount_text(self@),
    {
        proof {
            reveal_strlit("-");
            reveal_strlit(".");
            assert("-"@ =~= seq!['-']);
            assert("."@ =~= seq!['.']);
        }
        let mut out = String::new();
        if self.negative {
            out.append("-");
        }
        let ghost sign: Seq<char> = if self.negative {
            seq!['-']
        } else {
            Seq::empty()
        };
        assert(out@ == sign);
        let ilen = self.integer.len();
        let mut i: usize = 0;
        while i < ilen
            invariant
                ilen == self.integer.len(),
                i <= ilen,
                out@ == sign + digits_text(self.integer@.subrange(0, i as int)),
            decreases ilen - i,
        {
            crate::text::push_char(&mut out, digit_to_char(self.integer[i]));
            i = i + 1;
            proof {
                assert(digits_text(self.integer@.subrange(0, i as int)) =~= digits_text(
                    self.integer@.subrange(0, i - 1),
                ) + seq![digit_char(self.integer@[i - 1])]);
            }
        }
        proof {
            assert(self.integer@.subrange(0, ilen as int) =~= self.integer@);
        }
        if self.fraction.len() > 0 {
            out.append(".");
            let ghost mid = sign + digits_text(self.integer@) + seq!['.'];
            assert(out@ == mid);
            let flen = self.fraction.len();
            let mut j: usize = 0;
            while j < flen
                invariant
                    flen == self.fraction.len(),
                    j <= flen,
                    out@ == mid + digits_text(self.fraction@.subrange(0, j as int)),
                decreases flen - j,
            {
                crate::text::push_char(&mut out, digit_to_char(self.fraction[j]));
                j = j + 1;
                proof {
                    assert(digits_text(self.fraction@.subrange(0, j as int)) =~= digits_text(
                        self.fraction@.subrange(0, j - 1),
                    ) + seq![digit_char(self.fraction@[j - 1])]);
                }
            }
            proof {
                assert(self.fraction@.subrange(0, flen as int) =~= self.fraction@);
                assert(out@ =~= amount_text(self@));
            }
        } else {
            proof {
                assert(out@ =~= amount_text(self@));
            }
        }
        out
    }

    /// Decodes the decimal textual form of an amount.
    pub fn from_text(s: &str) -> (r: Option<Amount>)
        ensures
            match spec_parse_amount(s@) {
                Some(v) => (r matches Some(a) && a@ == v),
                None => r is None,
            },
    {
        let len = s.unicode_len();
        let negative = len > 0 && s.get_char(0) == '-';
        let pos: usize = if negative {
            1
        } else {
            0
        };
        let body = s.substring_char(pos, len);
        proof {
            if negative {
                assert(body@ =~= s@.drop_first());
            } else {
                assert(body@ =~= s@);
            }
        }
        let blen = body.unicode_len();
        let mut d: usize = 0;
        while d < blen && body.get_char(d) != '.'
            invariant
                blen == body@.len(),
                d <= blen,
                forall|k: int| 0 <= k < d ==> body@[k] != '.',
            decreases blen - d,
        {
            d = d + 1;
        }
        if d == blen {
            proof {
                lemma_find_char_miss(body@, '.', 0);
            }
            if blen == 0 {
                return None;
            }
            if blen > 1 && body.get_char(0) == '0' {
                return None;
            }
            match digits_vec(body) {
                Some(ints) => Some(Amount { negative, integer: ints, fraction: Vec::new() }),
                None => None,
            }
        } else {
            proof {
                lemma_find_char_hit(body@, '.', 0, d as int);
            }
            let ip = body.substring_char(0, d);
            let fp = body.substring_char(d + 1, blen);
            if d == 0 {
                return None;
            }
            if d > 1 && body.get_char(0) == '0' {
                return None;
            }
            if fp.unicode_len() == 0 {
                return None;
            }
            match (digits_vec(ip), digits_vec(fp)) {
                (Some(ints), Some(fracs)) => Some(
                    Amount { negative, integer: ints, fraction: fracs },
                ),
                _ => None,
            }
        }
    }
}

/// The decimal notation of a whole number: its digits, most significant
/// first, with no leading zero (and `0` written as one digit).
pub open spec fn dec_digits(n: nat) -> Seq<char>
    decreases n,
{
    if n < 10 {
        seq![digit_char(n as u8)]
    } else {
        dec_digits(n / 10) + seq![digit_char((n % 10) as u8)]
    }
}

/// The digits of a run, read back to front, as characters.
spec fn rev_digit_chars(ds: Seq<u8>) -> Seq<char> {
    Seq::new(ds.len(), |i: int| digit_char(ds[ds.len() - 1 - i]))
}

/// Writes a whole number in decimal notation.
pub fn usize_to_string(n: usize) -> (r: String)
    ensures
        r@ == dec_digits(n as nat),
{
    let mut digits: Vec<u8> = Vec::new();
    let mut m = n;
    while m >= 10
        invariant
            dec_digits(n as nat) == dec_digits(m as nat) + rev_digit_chars(digits@),
        decreases m,
    {
        digits.push((m % 10) as u8);
        proof {
            assert(dec_digits(m as nat) + rev_digit_chars(digits@.drop_last()) =~= dec_digits(
                m as nat / 10,
            ) + rev_digit_chars(digits@));
        }
        m = m / 10;
    }
    digits.push(m as u8);
    proof {
        assert(dec_digits(m as nat) + rev_digit_chars(digits@.drop_last()) =~= rev_digit_chars(
            digits@,
        ));
    }
    let count = digits.len();
    let mut out = String::new();
    let mut k: usize = 0;
    while k < count
        invariant
            count == digits.len(),
            k <= count,
            out@ == rev_digit_chars(digits@).subrange(0, k as int),
        decreases count - k,
    {
        crate::text::push_char(&mut out, digit_to_char(digits[count - 1 - k]));
        k = k + 1;
        proof {
            assert(rev_digit_chars(digits@).subrange(0, k as int) =~= rev_digit_chars(
                digits@,
            ).subrange(0, k - 1) + seq![digit_char(digits@[count - k])]);
        }
    }
    proof {
        assert(rev_digit_chars(digits@).subrange(0, count as int) =~= rev_digit_chars(digits@));
    }
    out
}

/// For every digit value a digit produces, reading its character back
/// gives the digit, and the character is neither a sign nor a point.
proof fn lemma_digit_char_facts(d: u8)
    requires
        d < 10,
    ensures
        char_digit(digit_char(d)) == d,
        is_digit_char(digit_char(d)),
        digit_char(d) != '-',
        digit_char(d) != '.',
        d != 0 ==> digit_char(d) != '0',
{
}

/// Writing any well-formed amount and reading the text back reproduces
/// the amount exactly: every digit, the sign, and the scale survive.
pub proof fn lemma_amount_round_trip(a: AmountView)
    requires
        amount_wf(a),
    ensures
        spec_parse_amount(amount_text(a)) == Some(a),
{
    let text = amount_text(a);
    let sign: Seq<char> = if a.negative {
        seq!['-']
    } else {
        Seq::empty()
    };
    let it = digits_text(a.integer);
    let ft = digits_text(a.fraction);
    assert forall|i: int| 0 <= i < a.integer.len() implies is_digit_char(it[i]) && it[i] != '-'
        && it[i] != '.' && char_digit(it[i]) == a.integer[i] by {
        lemma_digit_char_facts(a.integer[i]);
    }
    assert forall|i: int| 0 <= i < a.fraction.len() implies is_digit_char(ft[i]) && ft[i] != '-'
        && ft[i] != '.' && char_digit(ft[i]) == a.fraction[i] by {
        lemma_digit_char_facts(a.fraction[i]);
    }
    let negative = text.len() > 0 && text[0] == '-';
    assert(negative == a.negative);
    let body = if negative {
        text.drop_first()
    } else {
        text
    };
    if a.fraction.len() == 0 {
        assert(body =~= it);
        lemma_find_char_miss(body, '.', 0);
        assert(valid_int_chars(body)) by {
            if a.integer.len() > 1 {
                lemma_digit_char_facts(a.integer[0]);
            }
        }
        assert(digits_of(body) =~= a.integer);
        assert(a.fraction =~= Seq::empty());
        assert(spec_parse_amount(text) == Some(a));
    } else {
        assert(body =~= it + seq!['.'] + ft);
        assert(body[it.len() as int] == '.');
        lemma_find_char_hit(body, '.', 0, it.len() as int);
        let ip = body.subrange(0, it.len() as int);
        let fp = body.subrange(it.len() as int + 1, body.len() as int);
        assert(ip =~= it);
        assert(fp =~= ft);
        assert(valid_int_chars(ip)) by {
            if a.integer.len() > 1 {
                lemma_digit_char_facts(a.integer[0]);
            }
        }
        assert(digits_of(ip) =~= a.integer);
        assert(digits_of(fp) =~= a.fraction);
        assert(spec_parse_amount(text) == Some(a));
    }
}

} // verus!
