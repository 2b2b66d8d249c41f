//! CRLF detection and rewriting: every CRLF sequence becomes a single LF in a
//! left-to-right scan; lone CR and lone LF bytes are left untouched.

use vstd::prelude::*;

verus! {

/// Carriage return.
pub const CR: u8 = 13;

/// Line feed.
pub const LF: u8 = 10;

/// A CRLF sequence starts at index `i` of `s`.
pub open spec fn crlf_at(s: Seq<u8>, i: int) -> bool {
    &&& 0 <= i
    &&& i + 1 < s.len()
    &&& s[i] == CR
    &&& s[i + 1] == LF
}

/// `s` holds at least one CRLF sequence.
pub open spec fn has_crlf(s: Seq<u8>) -> bool {
    exists|i: int| crlf_at(s, i)
}

/// A CR immediately followed by a CRLF sequence starts at index `i` of `s`.
/// Rewriting such content leaves the leading CR adjacent to the produced LF,
/// so a fresh CRLF appears in the output.
pub open spec fn cr_crlf_at(s: Seq<u8>, i: int) -> bool {
    &&& 0 <= i
    &&& i + 2 < s.len()
    &&& s[i] == CR
    &&& crlf_at(s, i + 1)
}

/// `s` holds a CR immediately followed by a CRLF sequence.
pub open spec fn has_cr_crlf(s: Seq<u8>) -> bool {
    exists|i: int| cr_crlf_at(s, i)
}

/// Number of CRLF sequences that a left-to-right scan of `s` meets from
/// index `i` on (a met pair is consumed whole, so pairs never overlap).
pub open spec fn count_crlf_from(s: Seq<u8>, i: int) -> nat
    decreases s.len() - i,
{
    if i < 0 || i >= s.len() {
        0
    } else if crlf_at(s, i) {
        1 + count_crlf_from(s, i + 2)
    } else {
        count_crlf_from(s, i + 1)
    }
}

/// Number of CRLF sequences a left-to-right scan of `s` meets.
pub open spec fn count_crlf(s: Seq<u8>) -> nat {
    count_crlf_from(s, 0)
}

/// The rewritten form of `s` from index `i` on: each CRLF met by the
/// left-to-right scan is replaced by one LF, every other byte is kept.
pub open spec fn convert_from(s: Seq<u8>, i: int) -> Seq<u8>
    decreases s.len() - i,
{
    if i < 0 || i >= s.len() {
        Seq::empty()
    } else if crlf_at(s, i) {
        seq![LF] + convert_from(s, i + 2)
    } else {
        seq![s[i]] + convert_from(s, i + 1)
    }
}

/// The rewritten form of `s`: every CRLF replaced by a single LF.
pub open spec fn convert_spec(s: Seq<u8>) -> Seq<u8> {
    convert_from(s, 0)
}

proof fn lemma_convert_from_first(s: Seq<u8>, i: int)
    requires
        0 <= i < s.len(),
    ensures
        convert_from(s, i).len() > 0,
        convert_from(s, i)[0] == if crlf_at(s, i) { LF } else { s[i] },
{
}

proof fn lemma_convert_len_from(s: Seq<u8>, i: int)
    requires
        0 <= i <= s.len(),
    ensures
        convert_from(s, i).len() + count_crlf_from(s, i) == s.len() - i,
    decreases s.len() - i,
{
    if i < s.len() {
        if crlf_at(s, i) {
            lemma_convert_len_from(s, i + 2);
        } else {
            lemma_convert_len_from(s, i + 1);
        }
    }
}

/// Rewriting shortens content by exactly the number of CRLF sequences met:
/// each such pair becomes a single LF and nothing else is added or dropped.
pub proof fn lemma_convert_len(s: Seq<u8>)
    ensures
        convert_spec(s).len() + count_crlf(s) == s.len(),
{
    lemma_convert_len_from(s, 0);
}

proof fn lemma_no_crlf_unchanged_from(s: Seq<u8>, i: int)
    requires
        0 <= i <= s.len(),
        !has_crlf(s),
    ensures
        convert_from(s, i) == s.skip(i),
    decreases s.len() - i,
{
    if i >= s.len() {
        assert(convert_from(s, i) =~= s.skip(i));
    } else {
        assert(!crlf_at(s, i));
        lemma_no_crlf_unchanged_from(s, i + 1);
        assert(seq![s[i]] + s.skip(i + 1) =~= s.skip(i));
    }
}

/// CRLF-free content is left byte-for-byte unchanged by rewriting.
pub proof fn lemma_no_crlf_unchanged(s: Seq<u8>)
    requires
        !has_crlf(s),
    ensures
        convert_spec(s) == s,
{
    lemma_no_crlf_unchanged_from(s, 0);
    assert(s.skip(0) =~= s);
}

proof fn lemma_convert_no_crlf_from(s: Seq<u8>, i: int)
    requires
        0 <= i <= s.len(),
        !has_cr_crlf(s),
    ensures
        !has_crlf(convert_from(s, i)),
    decreases s.len() - i,
{
    let out = convert_from(s, i);
    if i >= s.len() {
        assert(forall|k: int| !crlf_at(out, k));
    } else if crlf_at(s, i) {
        lemma_convert_no_crlf_from(s, i + 2);
        let rest = convert_from(s, i + 2);
        assert(out == seq![LF] + rest);
        assert forall|k: int| !crlf_at(out, k) by {
            if crlf_at(out, k) {
                if k == 0 {
                    assert(out[0] == LF);
                } else {
                    assert(out[k] == rest[k - 1]);
                    assert(out[k + 1] == rest[k]);
                    assert(crlf_at(rest, k - 1));
                    assert(has_crlf(rest));
                }
            }
        }
    } else {
        lemma_convert_no_crlf_from(s, i + 1);
        let rest = convert_from(s, i + 1);
        assert(out == seq![s[i]] + rest);
        assert forall|k: int| !crlf_at(out, k) by {
            if crlf_at(out, k) {
                if k == 0 {
                    assert(out[0] == s[i] && s[i] == CR);
                    assert(rest.len() > 0);
                    assert(i + 1 < s.len());
                    lemma_convert_from_first(s, i + 1);
                    assert(out[1] == rest[0]);
                    if crlf_at(s, i + 1) {
                        assert(cr_crlf_at(s, i));
                        assert(has_cr_crlf(s));
                    } else {
                        assert(s[i + 1] == LF);
                        assert(crlf_at(s, i));
                    }
                } else {
                    assert(crlf_at(rest, k - 1));
                    assert(has_crlf(rest));
                }
            }
        }
    }
}

/// Rewritten content holds no CRLF sequence, provided the original held no
/// CR immediately followed by a CRLF sequence (content such as a CR before a
/// CRLF leaves that CR adjacent to the produced LF, a fresh CRLF).
pub proof fn lemma_convert_no_crlf(s: Seq<u8>)
    requires
        !has_cr_crlf(s),
    ensures
        !has_crlf(convert_spec(s)),
{
    lemma_convert_no_crlf_from(s, 0);
}

/// Rewriting is idempotent on content without a CR-before-CRLF pattern:
/// a second rewrite finds no CRLF and changes nothing.
pub proof fn lemma_convert_idempotent(s: Seq<u8>)
    requires
        !has_cr_crlf(s),
    ensures
        convert_spec(convert_spec(s)) == convert_spec(s),
{
    lemma_convert_no_crlf(s);
    lemma_no_crlf_unchanged(convert_spec(s));
}

/// Decides whether `content` holds a CRLF sequence.
pub fn contains_crlf(content: &Vec<u8>) -> (r: bool)
    ensures
        r == has_crlf(content@),
{
    let mut i: usize = 0;
    while i < content.len()
        invariant
            0 <= i <= content@.len(),
            forall|j: int| 0 <= j < i ==> !crlf_at(content@, j),
        decreases content@.len() - i,
    {
        if content[i] == CR && i + 1 < content.len() && content[i + 1] == LF {
            assert(crlf_at(content@, i as int));
            return true;
        }
        i = i + 1;
    }
    proof {
        if has_crlf(content@) {
            let j = choose|j: int| crlf_at(content@, j);
            assert(!crlf_at(content@, j));
        }
    }
    false
}

/// Rewrites `content`, replacing each CRLF sequence met by a left-to-right
/// scan with a single LF and keeping every other byte.
pub fn convert_crlf(content: &Vec<u8>) -> (r: Vec<u8>)
    ensures
        r@ == convert_spec(content@),
{
    let ghost s = content@;
    let mut out: Vec<u8> = Vec::new();
    let mut i: usize = 0;
    while i < content.len()
        invariant
            0 <= i <= s.len(),
            s == content@,
            convert_spec(s) == out@ + convert_from(s, i as int),
        decreases s.len() - i,
    {
        let ghost out_pre = out@;
        if content[i] == CR && i + 1 < content.len() && content[i + 1] == LF {
            assert(crlf_at(s, i as int));
            out.push(LF);
            proof {
                assert(convert_from(s, i as int) == seq![LF] + convert_from(s, i + 2));
                assert(out_pre + convert_from(s, i as int)
                    =~= out@ + convert_from(s, i + 2));
            }
            i = i + 2;
        } else {
            assert(!crlf_at(s, i as int));
            let b = content[i];
            out.push(b);
            proof {
                assert(convert_from(s, i as int) == seq![s[i as int]] + convert_from(s, i + 1));
                assert(out_pre + convert_from(s, i as int)
                    =~= out@ + convert_from(s, i + 1));
            }
            i = i + 1;
        }
    }
    proof {
        assert(convert_from(s, i as int) =~= Seq::<u8>::empty());
        assert(out@ + convert_from(s, i as int) =~= out@);
    }
    out
}

/// Rewrites `content` when it holds a CRLF sequence; reports "no change"
/// otherwise, so a caller can leave CRLF-free content untouched.
pub fn rewrite_if_needed(content: &Vec<u8>) -> (r: Option<Vec<u8>>)
    ensures
        r is Some <==> has_crlf(content@),
        r matches Some(n) ==> n@ == convert_spec(content@),
{
    if contains_crlf(content) {
        Some(convert_crlf(content))
    } else {
        None
    }
}

} // verus!
