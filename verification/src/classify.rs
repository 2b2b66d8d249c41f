//! Text-versus-binary classification: content is treated as likely text
//! when no NUL byte occurs among the first `HEAD_SAMPLE_LEN` bytes.

use vstd::prelude::*;

verus! {

/// Number of leading bytes inspected by the text heuristic.
pub const HEAD_SAMPLE_LEN: usize = 1024;

/// A byte sequence reads as text when it holds no NUL byte.
pub open spec fn is_text(s: Seq<u8>) -> bool {
    forall|i: int| 0 <= i < s.len() ==> s[i] != 0
}

/// The sample the heuristic looks at: the whole content when it is short,
/// otherwise its first `HEAD_SAMPLE_LEN` bytes.
pub open spec fn head_window(s: Seq<u8>) -> Seq<u8> {
    if s.len() <= HEAD_SAMPLE_LEN {
        s
    } else {
        s.take(HEAD_SAMPLE_LEN as int)
    }
}

/// Decides whether `bytes` is likely text: true exactly when no byte of the
/// head sample is NUL. Bytes past the sample window are never inspected.
pub fn is_likely_text(bytes: &Vec<u8>) -> (r: bool)
    ensures
        r == is_text(head_window(bytes@)),
{
    let limit: usize = if bytes.len() <= HEAD_SAMPLE_LEN {
        bytes.len()
    } else {
        HEAD_SAMPLE_LEN
    };
    let mut i: usize = 0;
    while i < limit
        invariant
            0 <= i <= limit <= bytes@.len(),
            head_window(bytes@).len() == limit,
            forall|j: int| 0 <= j < limit ==> head_window(bytes@)[j] == bytes@[j],
            forall|j: int| 0 <= j < i ==> bytes@[j] != 0,
        decreases limit - i,
    {
        if bytes[i] == 0 {
            assert(head_window(bytes@)[i as int] == 0);
            return false;
        }
        i = i + 1;
    }
    true
}

} // verus!
