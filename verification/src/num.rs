//! Decimal byte strings: rendering call identifiers and offsets, and parsing
//! the numeric columns a record row carries.
//!
//! Record rows arrive as raw byte strings (an identifier such as `1234`, a
//! comma-separated offset list such as `5,9`), and the extraction tools are
//! handed decimal byte strings back, so both directions live here with exact
//! contracts.

use vstd::prelude::*;

use crate::ascii::COMMA;
use crate::ascii::NINE;
use crate::ascii::ZERO;

verus! {

/// The decimal digit string of `n`, most significant digit first.
pub open spec fn dec_digits(n: nat) -> Seq<u8>
    decreases n,
{
    if n < 10 {
        seq![(ZERO + n) as u8]
    } else {
        dec_digits(n / 10).push((ZERO + n % 10) as u8)
    }
}

/// Render `n` as its decimal digit string.
pub fn u64_to_dec(n: u64) -> (r: Vec<u8>)
    ensures
        r@ == dec_digits(n as nat),
    decreases n,
{
    if n < 10 {
        let mut v: Vec<u8> = Vec::new();
        v.push(ZERO + (n as u8));
        assert(v@ =~= dec_digits(n as nat));
        v
    } else {
        let mut v = u64_to_dec(n / 10);
        v.push(ZERO + ((n % 10) as u8));
        assert(v@ =~= dec_digits(n as nat));
        v
    }
}

/// `c` is an ASCII decimal digit.
pub open spec fn is_digit(c: u8) -> bool {
    ZERO <= c <= NINE
}

/// Every byte of `s` is an ASCII decimal digit.
pub open spec fn all_digits(s: Seq<u8>) -> bool {
    forall|i: int| 0 <= i < s.len() ==> is_digit(s[i])
}

/// The numeric value of a digit string, read most significant digit first.
pub open spec fn dec_value(s: Seq<u8>) -> int
    decreases s.len(),
{
    if s.len() == 0 {
        0
    } else {
        dec_value(s.drop_last()) * 10 + (s.last() - ZERO)
    }
}

/// `s` is a byte string that `parse_u64` accepts: non-empty, digits only, and
/// in range.
pub open spec fn u64_field(s: Seq<u8>) -> bool {
    s.len() > 0 && all_digits(s) && dec_value(s) <= u64::MAX
}

proof fn lemma_dec_value_nonneg(s: Seq<u8>)
    requires
        all_digits(s),
    ensures
        dec_value(s) >= 0,
    decreases s.len(),
{
    if s.len() > 0 {
        assert(all_digits(s.drop_last()));
        lemma_dec_value_nonneg(s.drop_last());
    }
}

proof fn lemma_dec_value_grows(s: Seq<u8>, j: int)
    requires
        0 <= j <= s.len(),
        all_digits(s),
    ensures
        dec_value(s) >= dec_value(s.take(j)),
        dec_value(s.take(j)) >= 0,
    decreases s.len() - j,
{
    assert(all_digits(s.take(j)));
    lemma_dec_value_nonneg(s.take(j));
    if j == s.len() {
        assert(s.take(j) =~= s);
    } else {
        lemma_dec_value_grows(s, j + 1);
        assert(s.take(j + 1).drop_last() =~= s.take(j));
    }
}

/// Parse a decimal byte string as a 64-bit value.  Returns `Some` exactly on
/// the strings that are non-empty, all digits, and whose value fits.
pub fn parse_u64(s: &Vec<u8>) -> (r: Option<u64>)
    ensures
        r is Some <==> u64_field(s@),
        r matches Some(v) ==> v == dec_value(s@),
{
    if s.len() == 0 {
        return None;
    }
    let mut acc: u64 = 0;
    let mut i: usize = 0;
    while i < s.len()
        invariant
            0 < s.len(),
            i <= s.len(),
            all_digits(s@.take(i as int)),
            acc == dec_value(s@.take(i as int)),
        decreases s.len() - i,
    {
        let c = s[i];
        if c < ZERO || c > NINE {
            assert(!is_digit(s@[i as int]));
            return None;
        }
        let d: u64 = (c - ZERO) as u64;
        assert(s@.take(i + 1 as int).drop_last() =~= s@.take(i as int));
        assert(all_digits(s@.take(i + 1 as int)));
        if acc > (u64::MAX - d) / 10 {
            proof {
                assert(dec_value(s@.take(i + 1 as int)) == acc * 10 + d);
                assert(acc * 10 + d > u64::MAX) by (nonlinear_arith)
                    requires acc > (u64::MAX - d) / 10 && d <= 9;
                if u64_field(s@) {
                    lemma_dec_value_grows(s@, i + 1 as int);
                }
            }
            return None;
        }
        assert(acc * 10 + d <= u64::MAX) by (nonlinear_arith)
            requires acc <= (u64::MAX - d) / 10 && d <= 9;
        acc = acc * 10 + d;
        i = i + 1;
    }
    assert(s@.take(s@.len() as int) =~= s@);
    Some(acc)
}

/// The fields of `s` split on commas, scanning left to right with `cur` the
/// field read so far.
pub open spec fn split_commas_from(s: Seq<u8>, cur: Seq<u8>) -> Seq<Seq<u8>>
    decreases s.len(),
{
    if s.len() == 0 {
        seq![cur]
    } else if s[0] == COMMA {
        seq![cur] + split_commas_from(s.skip(1), Seq::empty())
    } else {
        split_commas_from(s.skip(1), cur.push(s[0]))
    }
}

/// The comma-separated fields of `s`.  The empty string has one empty field;
/// a string of `k` commas has `k + 1` fields.
pub open spec fn comma_fields(s: Seq<u8>) -> Seq<Seq<u8>> {
    split_commas_from(s, Seq::empty())
}

/// Every comma-separated field of `s` is a parseable 64-bit decimal.
pub open spec fn positions_ok(s: Seq<u8>) -> bool {
    forall|k: int| 0 <= k < comma_fields(s).len() ==> u64_field(#[trigger] comma_fields(s)[k])
}

proof fn lemma_split_commas_len(s: Seq<u8>, cur: Seq<u8>)
    ensures
        split_commas_from(s, cur).len() >= 1,
    decreases s.len(),
{
    if s.len() > 0 {
        if s[0] == COMMA {
            lemma_split_commas_len(s.skip(1), Seq::empty());
        } else {
            lemma_split_commas_len(s.skip(1), cur.push(s[0]));
        }
    }
}

/// Parse a comma-separated offset list such as `5,9`.  Returns `Some` exactly
/// when every field parses as a 64-bit decimal, and then yields the offsets in
/// the order written.
pub fn parse_positions(s: &Vec<u8>) -> (r: Option<Vec<u64>>)
    ensures
        r is Some <==> positions_ok(s@),
        r matches Some(v) ==> {
            &&& v@.len() == comma_fields(s@).len()
            &&& forall|k: int|
                0 <= k < v@.len() ==> v@[k] == dec_value(#[trigger] comma_fields(s@)[k])
        },
{
    let mut out: Vec<u64> = Vec::new();
    let mut cur: Vec<u8> = Vec::new();
    let mut i: usize = 0;
    let ghost mut done: Seq<Seq<u8>> = Seq::empty();
    assert(s@.skip(0) =~= s@);
    while i < s.len()
        invariant
            i <= s.len(),
            comma_fields(s@) =~= done + split_commas_from(s@.skip(i as int), cur@),
            out@.len() == done.len(),
            forall|k: int| 0 <= k < done.len() ==> u64_field(#[trigger] done[k]),
            forall|k: int| 0 <= k < done.len() ==> out@[k] == dec_value(#[trigger] done[k]),
        decreases s.len() - i,
    {
        let c = s[i];
        assert(s@.skip(i as int)[0] == s@[i as int]);
        assert(s@.skip(i as int).skip(1) =~= s@.skip(i + 1 as int));
        if c == COMMA {
            proof {
                lemma_split_commas_len(s@.skip(i + 1 as int), Seq::empty());
                assert(comma_fields(s@)[done.len() as int] == cur@);
            }
            match parse_u64(&cur) {
                Some(v) => {
                    out.push(v);
                    proof {
                        done = done.push(cur@);
                    }
                    cur = Vec::new();
                }
                None => {
                    assert(!positions_ok(s@));
                    return None;
                }
            }
        } else {
            cur.push(c);
        }
        i = i + 1;
    }
    assert(s@.skip(s@.len() as int) =~= Seq::<u8>::empty());
    assert(comma_fields(s@) =~= done.push(cur@));
    assert(comma_fields(s@)[done.len() as int] == cur@);
    match parse_u64(&cur) {
        Some(v) => {
            out.push(v);
            proof {
                done = done.push(cur@);
            }
            assert(forall|k: int| 0 <= k < done.len() ==> u64_field(#[trigger] done[k]));
            Some(out)
        }
        None => {
            assert(!positions_ok(s@));
            None
        }
    }
}

/// The offsets of `vs` rendered in decimal and joined with commas.
pub open spec fn joined_dec(vs: Seq<u64>) -> Seq<u8>
    decreases vs.len(),
{
    if vs.len() == 0 {
        Seq::empty()
    } else if vs.len() == 1 {
        dec_digits(vs[0] as nat)
    } else {
        joined_dec(vs.drop_last()) + seq![COMMA] + dec_digits(vs.last() as nat)
    }
}

/// Render an offset list as the comma-separated decimal string the indexed
/// extraction tool takes.
pub fn format_positions(vs: &Vec<u64>) -> (r: Vec<u8>)
    ensures
        r@ == joined_dec(vs@),
{
    let mut out: Vec<u8> = Vec::new();
    let mut i: usize = 0;
    while i < vs.len()
        invariant
            i <= vs.len(),
            out@ == joined_dec(vs@.take(i as int)),
        decreases vs.len() - i,
    {
        if i > 0 {
            out.push(COMMA);
        }
        let mut digits = u64_to_dec(vs[i]);
        crate::bytes::append_bytes(&mut out, &digits);
        assert(vs@.take(i + 1 as int).drop_last() =~= vs@.take(i as int));
        assert(vs@.take(i + 1 as int).last() == vs@[i as int]);
        i = i + 1;
    }
    assert(vs@.take(vs@.len() as int) =~= vs@);
    out
}

} // verus!
