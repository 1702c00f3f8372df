//! Archive entry-name normalization.
//!
//! A raw archive entry name cannot be handed to the extraction tools as it
//! stands: `[` and `]` are glob metacharacters to the archive tooling, and a
//! leading `-` would be parsed as a command-line flag.  The normalizer rewrites
//! a name into the token the tools require: every bracket becomes `_`, and a
//! leading `-` (only the leading one) becomes `*`.

use vstd::prelude::*;

use crate::ascii::HYPHEN;
use crate::ascii::LBRACKET;
use crate::ascii::RBRACKET;
use crate::ascii::STAR;
use crate::ascii::UNDERSCORE;

verus! {

/// Every `[` and `]` byte replaced with `_`; all other bytes unchanged.
pub open spec fn bracket_fixed(s: Seq<u8>) -> Seq<u8> {
    s.map_values(|c: u8| if c == LBRACKET || c == RBRACKET { UNDERSCORE } else { c })
}

/// A leading `-` replaced with `*`; everything else unchanged.
pub open spec fn hyphen_fixed(s: Seq<u8>) -> Seq<u8> {
    if s.len() > 0 && s[0] == HYPHEN {
        s.update(0, STAR)
    } else {
        s
    }
}

/// The normalized form of a raw entry name: brackets fixed first, then the
/// leading hyphen.
pub open spec fn normalized(s: Seq<u8>) -> Seq<u8> {
    hyphen_fixed(bracket_fixed(s))
}

/// Rewrite a raw archive entry name into the token the extraction tools
/// accept.  Total over all inputs; the result always has the input's length.
pub fn normalize_entry_name(raw: &Vec<u8>) -> (r: Vec<u8>)
    ensures
        r@ == normalized(raw@),
        r@.len() == raw@.len(),
{
    let mut out: Vec<u8> = Vec::new();
    let mut i: usize = 0;
    while i < raw.len()
        invariant
            i <= raw.len(),
            out@ == bracket_fixed(raw@).take(i as int),
        decreases raw.len() - i,
    {
        let c = raw[i];
        let m: u8 = if c == LBRACKET || c == RBRACKET { UNDERSCORE } else { c };
        out.push(m);
        assert(bracket_fixed(raw@).take(i + 1 as int)
            =~= bracket_fixed(raw@).take(i as int).push(m));
        i = i + 1;
    }
    assert(bracket_fixed(raw@).take(raw@.len() as int) =~= bracket_fixed(raw@));
    if out.len() > 0 && out[0] == HYPHEN {
        out.set(0, STAR);
    }
    out
}

/// Normalizing is idempotent: a second pass changes nothing.
pub proof fn lemma_normalize_idempotent(s: Seq<u8>)
    ensures
        normalized(normalized(s)) == normalized(s),
{
    let t = normalized(s);
    assert(bracket_fixed(t) =~= t);
    assert(normalized(t) == hyphen_fixed(t));
    if t.len() > 0 {
        assert(t[0] != HYPHEN);
    }
}

/// The normalized form keeps the length and holds no bracket at all.
pub proof fn lemma_normalize_no_brackets(s: Seq<u8>)
    ensures
        normalized(s).len() == s.len(),
        forall|i: int|
            0 <= i < s.len()
                ==> normalized(s)[i] != LBRACKET && normalized(s)[i] != RBRACKET,
{
}

} // verus!
