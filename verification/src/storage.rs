//! The high-score persistence codec: the file holds the counter as plain
//! decimal text. Reading and writing the file itself happens outside this
//! crate; here the text is parsed and rendered, exactly.

use vstd::prelude::*;

verus! {

/// The bytes after an optional leading plus sign.
pub open spec fn spec_digits_part(s: Seq<u8>) -> Seq<u8> {
    if s.len() > 0 && s[0] == 43 {
        s.drop_first()
    } else {
        s
    }
}

/// Whether every byte is an ASCII digit.
pub open spec fn spec_all_digits(s: Seq<u8>) -> bool {
    forall|i: int| 0 <= i < s.len() ==> 48 <= #[trigger] s[i] <= 57
}

/// The numeric value of a digit string, most significant digit first.
pub open spec fn spec_digits_value(s: Seq<u8>) -> int
    decreases s.len(),
{
    if s.len() == 0 {
        0
    } else {
        spec_digits_value(s.drop_last()) * 10 + (s.last() - 48)
    }
}

/// What parsing the stored text yields: the value, when the text is an
/// optional plus sign followed by one or more digits and the value fits the
/// counter; zero for any other text.
pub open spec fn spec_parse_high_score(s: Seq<u8>) -> int {
    let d = spec_digits_part(s);
    if d.len() > 0 && spec_all_digits(d) && spec_digits_value(d) <= 65535 {
        spec_digits_value(d)
    } else {
        0
    }
}

/// The value of a digit string is never negative.
proof fn lemma_digits_value_nonneg(s: Seq<u8>)
    requires
        spec_all_digits(s),
    ensures
        spec_digits_value(s) >= 0,
    decreases s.len(),
{
    if s.len() > 0 {
        assert(spec_all_digits(s.drop_last()));
        lemma_digits_value_nonneg(s.drop_last());
    }
}

/// A digit string is worth at least any of its prefixes.
proof fn lemma_digits_value_prefix(s: Seq<u8>, k: int)
    requires
        spec_all_digits(s),
        0 <= k <= s.len(),
    ensures
        spec_digits_value(s) >= spec_digits_value(s.subrange(0, k)),
    decreases s.len() - k,
{
    if k == s.len() {
        assert(s.subrange(0, k) =~= s);
    } else {
        assert(s.subrange(0, k + 1).drop_last() =~= s.subrange(0, k));
        assert(spec_all_digits(s.subrange(0, k)));
        lemma_digits_value_nonneg(s.subrange(0, k));
        assert(spec_digits_value(s.subrange(0, k + 1)) >= spec_digits_value(s.subrange(0, k)));
        lemma_digits_value_prefix(s, k + 1);
    }
}

/// Parse the stored text: an optional plus sign followed by digits gives
/// the value when it fits the counter; any other text counts as zero.
pub fn parse_high_score(data: &Vec<u8>) -> (r: u16)
    ensures
        r == spec_parse_high_score(data@),
{
    let ghost d = spec_digits_part(data@);
    let len: usize = data.len();
    let start: usize = if len > 0 && data[0] == 43 {
        1
    } else {
        0
    };
    proof {
        assert(d =~= data@.subrange(start as int, len as int));
    }
    if start == len {
        return 0;
    }
    let mut acc: u32 = 0;
    let mut i: usize = start;
    while i < len
        invariant
            start <= i <= len,
            len == data@.len(),
            start <= 1,
            d == data@.subrange(start as int, len as int),
            d == spec_digits_part(data@),
            spec_all_digits(data@.subrange(start as int, i as int)),
            acc == spec_digits_value(data@.subrange(start as int, i as int)),
            acc <= 65535,
        decreases len - i,
    {
        let c: u8 = data[i];
        if c < 48 || c > 57 {
            proof {
                assert(d[i - start] == data@[i as int]);
                assert(!(48 <= d[i - start] <= 57));
                assert(!spec_all_digits(d));
            }
            return 0;
        }
        let next: u32 = acc * 10 + (c - 48) as u32;
        proof {
            assert(data@.subrange(start as int, i + 1).drop_last() =~= data@.subrange(
                start as int,
                i as int,
            ));
            assert(data@.subrange(start as int, i + 1).last() == data@[i as int]);
        }
        if next > 65535 {
            proof {
                if spec_all_digits(d) {
                    lemma_digits_value_prefix(d, i + 1 - start);
                    assert(d.subrange(0, i + 1 - start) =~= data@.subrange(start as int, i + 1));
                }
            }
            return 0;
        }
        acc = next;
        i = i + 1;
    }
    proof {
        assert(data@.subrange(start as int, len as int) =~= d);
        assert(d.len() > 0);
    }
    acc as u16
}

/// The decimal digits of a value, most significant first; zero is a single
/// digit.
pub open spec fn spec_decimal(n: int) -> Seq<u8>
    decreases n,
{
    if n < 10 {
        seq![(48 + n) as u8]
    } else {
        spec_decimal(n / 10).push((48 + n % 10) as u8)
    }
}

/// Render a counter value as the decimal text the storage file holds.
pub fn high_score_bytes(v: u16) -> (r: Vec<u8>)
    ensures
        r@ == spec_decimal(v as int),
{
    let mut reversed: Vec<u8> = Vec::new();
    let mut x: u32 = v as u32;
    proof {
        assert(spec_decimal(v as int) =~= spec_decimal(x as int) + reversed@.reverse());
    }
    while x >= 10
        invariant
            x <= 65535,
            spec_decimal(v as int) == spec_decimal(x as int) + reversed@.reverse(),
        decreases x,
    {
        let digit: u8 = 48 + (x % 10) as u8;
        reversed.push(digit);
        proof {
            assert(reversed@.reverse() =~= seq![digit] + reversed@.drop_last().reverse());
            assert(spec_decimal(x as int) == spec_decimal(x as int / 10).push(digit));
            assert(spec_decimal(x as int / 10) + (seq![digit] + reversed@.drop_last().reverse())
                =~= (spec_decimal(x as int / 10).push(digit)) + reversed@.drop_last().reverse());
        }
        x = x / 10;
    }
    let digit: u8 = 48 + x as u8;
    reversed.push(digit);
    proof {
        assert(reversed@.reverse() =~= seq![digit] + reversed@.drop_last().reverse());
        assert(spec_decimal(x as int) == seq![digit]);
        assert(spec_decimal(x as int) + reversed@.drop_last().reverse() =~= seq![digit]
            + reversed@.drop_last().reverse());
        assert(spec_decimal(v as int) =~= reversed@.reverse());
    }
    let n: usize = reversed.len();
    let mut r: Vec<u8> = Vec::new();
    let mut i: usize = 0;
    while i < n
        invariant
            i <= n,
            n == reversed@.len(),
            r@.len() == i,
            forall|k: int| 0 <= k < i ==> r@[k] == reversed@[n - 1 - k],
        decreases n - i,
    {
        r.push(reversed[n - 1 - i]);
        i = i + 1;
    }
    proof {
        assert(r@ =~= reversed@.reverse());
    }
    r
}

/// The digits the renderer writes are exactly what the parser reads back:
/// the codec round-trips every value of the counter.
pub proof fn lemma_high_score_round_trip(v: u16)
    ensures
        spec_parse_high_score(spec_decimal(v as int)) == v,
{
    lemma_decimal_all_digits(v as int);
    lemma_decimal_value(v as int);
    let d = spec_decimal(v as int);
    assert(d.len() > 0);
    assert(48 <= d[0] <= 57);
    assert(spec_digits_part(d) == d);
}

/// Every byte the renderer writes is an ASCII digit, and there is at least
/// one.
proof fn lemma_decimal_all_digits(n: int)
    requires
        0 <= n,
    ensures
        spec_decimal(n).len() > 0,
        spec_all_digits(spec_decimal(n)),
    decreases n,
{
    if n < 10 {
    } else {
        lemma_decimal_all_digits(n / 10);
        assert(48 <= (48 + n % 10) as u8 <= 57);
    }
}

/// The rendered digits are worth the value they were rendered from.
proof fn lemma_decimal_value(n: int)
    requires
        0 <= n,
    ensures
        spec_digits_value(spec_decimal(n)) == n,
    decreases n,
{
    if n < 10 {
        assert(spec_decimal(n) =~= seq![(48 + n) as u8]);
        assert(seq![(48 + n) as u8].drop_last() =~= Seq::<u8>::empty());
        assert(spec_digits_value(Seq::<u8>::empty()) == 0);
        assert(seq![(48 + n) as u8].last() == (48 + n) as u8);
        assert(spec_digits_value(seq![(48 + n) as u8]) == n);
    } else {
        lemma_decimal_value(n / 10);
        assert(spec_decimal(n).drop_last() =~= spec_decimal(n / 10));
        assert(spec_digits_value(spec_decimal(n)) == n / 10 * 10 + n % 10);
    }
}

} // verus!
