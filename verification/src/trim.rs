use vstd::prelude::*;

verus! {

/// Whether a byte is ASCII whitespace: space, tab, line feed, carriage
/// return, or form feed.
pub open spec fn is_space(b: u8) -> bool {
    b == 32 || b == 9 || b == 10 || b == 13 || b == 12
}

/// A byte sequence with its trailing ASCII whitespace removed.
pub open spec fn spec_trim(s: Seq<u8>) -> Seq<u8>
    decreases s.len(),
{
    if s.len() > 0 && is_space(s.last()) {
        spec_trim(s.drop_last())
    } else {
        s
    }
}

/// The trimmed sequence is a prefix of the original.
pub proof fn lemma_trim_is_prefix(s: Seq<u8>)
    ensures
        spec_trim(s).len() <= s.len(),
        spec_trim(s) == s.take(spec_trim(s).len() as int),
    decreases s.len(),
{
    if s.len() > 0 && is_space(s.last()) {
        lemma_trim_is_prefix(s.drop_last());
        assert(s.drop_last().take(spec_trim(s).len() as int) =~= s.take(
            spec_trim(s).len() as int,
        ));
    } else {
        assert(s.take(s.len() as int) =~= s);
    }
}

/// A sequence that neither ends in whitespace nor is shortened is its own
/// trim; used to recognise fixed points.
pub proof fn lemma_trim_fixed(s: Seq<u8>)
    requires
        s.len() == 0 || !is_space(s.last()),
    ensures
        spec_trim(s) == s,
{
}

/// Whether a byte, handed over at run time, is ASCII whitespace.
fn is_space_byte(b: u8) -> (r: bool)
    ensures
        r == is_space(b),
{
    b == 32 || b == 9 || b == 10 || b == 13 || b == 12
}

/// Copy `s` without its trailing ASCII whitespace.
pub fn trim_trailing(s: &[u8]) -> (r: Vec<u8>)
    ensures
        r@ == spec_trim(s@),
{
    let mut end = s.len();
    proof {
        assert(s@.take(s@.len() as int) =~= s@);
    }
    while end > 0 && is_space_byte(s[end - 1])
        invariant
            0 <= end <= s@.len(),
            spec_trim(s@) == spec_trim(s@.take(end as int)),
        decreases end,
    {
        proof {
            assert(s@.take(end as int).drop_last() =~= s@.take(end - 1));
        }
        end = end - 1;
    }
    proof {
        if end > 0 {
            assert(s@.take(end as int).last() == s@[end - 1]);
        }
        lemma_trim_fixed(s@.take(end as int));
    }
    let mut r: Vec<u8> = Vec::new();
    let mut i: usize = 0;
    while i < end
        invariant
            0 <= i <= end <= s@.len(),
            r@ == s@.take(i as int),
        decreases end - i,
    {
        r.push(s[i]);
        proof {
            assert(s@.take(i + 1) =~= s@.take(i as int).push(s@[i as int]));
        }
        i = i + 1;
    }
    r
}

} // verus!
