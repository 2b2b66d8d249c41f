//! The per-file pipeline: classify content as likely text, then rewrite CRLF
//! sequences to LF, yielding exactly one outcome per file.

use vstd::prelude::*;
use crate::classify::{head_window, is_likely_text, is_text};
use crate::convert::{
    convert_spec, has_cr_crlf, has_crlf, lemma_convert_idempotent, lemma_convert_no_crlf,
    rewrite_if_needed,
};

verus! {

/// The result of processing one file. Exactly one variant per file:
/// `Converted` when CRLF sequences were found and rewritten, `Skipped` when
/// the content was not likely text or held no CRLF, `Errored` when reading,
/// decoding or writing failed, with the underlying reason.
pub enum FileOutcome {
    Converted,
    Skipped,
    Errored(String),
}

/// The pipeline rewrites content exactly when its head sample reads as text
/// and it holds a CRLF sequence.
pub open spec fn pipeline_converts(s: Seq<u8>) -> bool {
    is_text(head_window(s)) && has_crlf(s)
}

/// The outcome the pipeline reports for content it reads and writes without
/// an I/O or decode failure.
pub open spec fn pipeline_outcome(s: Seq<u8>) -> FileOutcome {
    if pipeline_converts(s) {
        FileOutcome::Converted
    } else {
        FileOutcome::Skipped
    }
}

/// The content a file holds after one failure-free pipeline pass.
pub open spec fn pipeline_result(s: Seq<u8>) -> Seq<u8> {
    if pipeline_converts(s) {
        convert_spec(s)
    } else {
        s
    }
}

/// Runs the pipeline on buffered content: classify, detect, rewrite.
/// Returns the outcome together with the resulting content, which equals the
/// input whenever the outcome is `Skipped`.
pub fn process_content(content: Vec<u8>) -> (r: (FileOutcome, Vec<u8>))
    ensures
        r.0 == pipeline_outcome(content@),
        r.1@ == pipeline_result(content@),
{
    if !is_likely_text(&content) {
        return (FileOutcome::Skipped, content);
    }
    match rewrite_if_needed(&content) {
        None => (FileOutcome::Skipped, content),
        Some(rewritten) => (FileOutcome::Converted, rewritten),
    }
}

/// Content whose head sample holds a NUL byte is skipped, whether or not it
/// holds CRLF sequences, and is left unchanged.
pub proof fn lemma_binary_skipped(s: Seq<u8>)
    requires
        !is_text(head_window(s)),
    ensures
        pipeline_outcome(s) == FileOutcome::Skipped,
        pipeline_result(s) == s,
{
}

/// The pipeline is idempotent on content without a CR-before-CRLF pattern:
/// a pass that converts leaves content a second pass skips, and the content
/// settles after one pass either way.
pub proof fn lemma_pipeline_idempotent(s: Seq<u8>)
    requires
        !has_cr_crlf(s),
    ensures
        pipeline_result(pipeline_result(s)) == pipeline_result(s),
        pipeline_converts(s) ==> pipeline_outcome(pipeline_result(s)) == FileOutcome::Skipped,
{
    if pipeline_converts(s) {
        lemma_convert_no_crlf(s);
        lemma_convert_idempotent(s);
    }
}

} // verus!
