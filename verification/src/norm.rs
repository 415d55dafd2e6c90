//! Line-ending normalization.
//!
//! Two pure transforms over byte strings: collapsing every CRLF pair to a
//! lone LF, and expanding every lone LF (one that is not preceded by a CR)
//! to a CRLF pair while leaving pre-existing CRLF pairs untouched.
//! CR and LF are ASCII bytes, so the transforms work the same on UTF-8
//! text whether viewed as bytes or as characters.

use vstd::prelude::*;

verus! {

/// Carriage return.
pub const CR: u8 = 13;

/// Line feed.
pub const LF: u8 = 10;

/// A CRLF pair starts at position `k` of `s`.
pub open spec fn crlf_at(s: Seq<u8>, k: int) -> bool {
    &&& 0 <= k
    &&& k + 1 < s.len()
    &&& s[k] == CR
    &&& s[k + 1] == LF
}

/// `s` contains a CRLF pair somewhere.
pub open spec fn contains_crlf(s: Seq<u8>) -> bool {
    exists|k: int| crlf_at(s, k)
}

/// `s` contains a line feed somewhere.
pub open spec fn contains_lf(s: Seq<u8>) -> bool {
    exists|k: int| 0 <= k < s.len() && s[k] == LF
}

/// The collapse transform: every CRLF pair becomes a lone LF, scanning
/// left to right; all other bytes are kept as they are.
pub open spec fn collapse_spec(s: Seq<u8>) -> Seq<u8>
    decreases s.len(),
{
    if s.len() >= 2 && s[0] == CR && s[1] == LF {
        seq![LF] + collapse_spec(s.skip(2))
    } else if s.len() >= 1 {
        seq![s[0]] + collapse_spec(s.skip(1))
    } else {
        Seq::empty()
    }
}

/// The expand transform: every CRLF pair is kept as it is, and every lone
/// LF becomes a CRLF pair, scanning left to right; all other bytes are
/// kept as they are.
pub open spec fn expand_spec(s: Seq<u8>) -> Seq<u8>
    decreases s.len(),
{
    if s.len() >= 2 && s[0] == CR && s[1] == LF {
        seq![CR, LF] + expand_spec(s.skip(2))
    } else if s.len() >= 1 && s[0] == LF {
        seq![CR, LF] + expand_spec(s.skip(1))
    } else if s.len() >= 1 {
        seq![s[0]] + expand_spec(s.skip(1))
    } else {
        Seq::empty()
    }
}

/// Replace every CRLF pair in `input` with a lone LF.
pub fn collapse_crlf(input: &[u8]) -> (out: Vec<u8>)
    ensures
        out@ == collapse_spec(input@),
{
    let mut out: Vec<u8> = Vec::new();
    let mut i: usize = 0;
    proof {
        assert(input@.skip(0) =~= input@);
        assert(Seq::<u8>::empty() + collapse_spec(input@) =~= collapse_spec(input@));
    }
    while i < input.len()
        invariant
            i <= input.len(),
            collapse_spec(input@) == out@ + collapse_spec(input@.skip(i as int)),
        decreases input.len() - i,
    {
        if input[i] == CR && i + 1 < input.len() && input[i + 1] == LF {
            out.push(LF);
            proof {
                assert(input@.skip(i as int).skip(2) =~= input@.skip(i + 2));
            }
            i = i + 2;
        } else {
            let b = input[i];
            out.push(b);
            proof {
                assert(input@.skip(i as int).skip(1) =~= input@.skip(i + 1));
            }
            i = i + 1;
        }
    }
    proof {
        assert(input@.skip(input@.len() as int) =~= Seq::<u8>::empty());
        assert(out@ =~= out@ + Seq::<u8>::empty());
    }
    out
}

/// Replace every lone LF in `input` with a CRLF pair, leaving pre-existing
/// CRLF pairs untouched.
pub fn expand_lf(input: &[u8]) -> (out: Vec<u8>)
    ensures
        out@ == expand_spec(input@),
{
    let mut out: Vec<u8> = Vec::new();
    let mut i: usize = 0;
    proof {
        assert(input@.skip(0) =~= input@);
        assert(Seq::<u8>::empty() + expand_spec(input@) =~= expand_spec(input@));
    }
    while i < input.len()
        invariant
            i <= input.len(),
            expand_spec(input@) == out@ + expand_spec(input@.skip(i as int)),
        decreases input.len() - i,
    {
        if input[i] == CR && i + 1 < input.len() && input[i + 1] == LF {
            out.push(CR);
            out.push(LF);
            proof {
                assert(input@.skip(i as int).skip(2) =~= input@.skip(i + 2));
            }
            i = i + 2;
        } else if input[i] == LF {
            out.push(CR);
            out.push(LF);
            proof {
                assert(input@.skip(i as int).skip(1) =~= input@.skip(i + 1));
            }
            i = i + 1;
        } else {
            let b = input[i];
            out.push(b);
            proof {
                assert(input@.skip(i as int).skip(1) =~= input@.skip(i + 1));
            }
            i = i + 1;
        }
    }
    proof {
        assert(input@.skip(input@.len() as int) =~= Seq::<u8>::empty());
        assert(out@ =~= out@ + Seq::<u8>::empty());
    }
    out
}

/// Collapsing a string that holds no CRLF pair leaves it unchanged, so
/// collapsing an already-collapsed string (one with no CRLF left in it)
/// is a no-op.
pub proof fn lemma_collapse_no_crlf_noop(s: Seq<u8>)
    requires
        !contains_crlf(s),
    ensures
        collapse_spec(s) == s,
    decreases s.len(),
{
    if s.len() == 0 {
        assert(collapse_spec(s) =~= s);
    } else {
        assert(!crlf_at(s, 0));
        assert forall|k: int| !crlf_at(s.skip(1), k) by {
            if crlf_at(s.skip(1), k) {
                assert(crlf_at(s, k + 1));
            }
        }
        lemma_collapse_no_crlf_noop(s.skip(1));
        assert(collapse_spec(s) =~= s);
    }
}

/// Expansion only acts on line feeds: a string with no LF at all, lone CR
/// bytes included, is unchanged by expansion.
pub proof fn lemma_expand_no_lf_noop(s: Seq<u8>)
    requires
        !contains_lf(s),
    ensures
        expand_spec(s) == s,
    decreases s.len(),
{
    if s.len() == 0 {
        assert(expand_spec(s) =~= s);
    } else {
        assert(s[0] != LF);
        if s.len() >= 2 {
            assert(s[1] != LF);
        }
        assert forall|k: int| 0 <= k < s.skip(1).len() implies s.skip(1)[k] != LF by {
            assert(s.skip(1)[k] == s[k + 1]);
        }
        lemma_expand_no_lf_noop(s.skip(1));
        assert(expand_spec(s) =~= s);
    }
}

} // verus!
