//! The line-ending auditor: every terminator that is not exactly CRLF is an error.

use crate::error::{CsvError, CsvErrorKind, ErrorView, KindView};
use vstd::prelude::*;

verus! {

pub const CR: u8 = 13;

pub const LF: u8 = 10;

/// Whether the byte at `i` is a malformed terminator: a LF not preceded by CR,
/// or a CR not followed by LF.
pub open spec fn bad_terminator_at(c: Seq<u8>, i: int) -> bool {
    (c[i] == LF && (i == 0 || c[i - 1] != CR)) || (c[i] == CR && (i + 1 >= c.len() || c[i + 1]
        != LF))
}

/// The number of LF bytes among the first `i` bytes.
pub open spec fn lines_before(c: Seq<u8>, i: int) -> nat
    decreases i,
{
    if i <= 0 {
        0
    } else {
        lines_before(c, i - 1) + if c[i - 1] == LF {
            1nat
        } else {
            0nat
        }
    }
}

/// The error reported for a malformed terminator on the given line.
pub open spec fn line_error(line: nat) -> ErrorView {
    ErrorView { record: None, record_num: line, kind: KindView::InvalidLineEnding }
}

/// The errors for the malformed terminators among the first `i` bytes, in order.
pub open spec fn line_errors_upto(c: Seq<u8>, i: int) -> Seq<ErrorView>
    decreases i,
{
    if i <= 0 {
        seq![]
    } else {
        let prev = line_errors_upto(c, i - 1);
        if bad_terminator_at(c, i - 1) {
            prev.push(line_error(lines_before(c, i - 1) + 1))
        } else {
            prev
        }
    }
}

/// The errors for all malformed terminators of `c`, in order.
pub open spec fn line_ending_errors(c: Seq<u8>) -> Seq<ErrorView> {
    line_errors_upto(c, c.len() as int)
}

/// The views of a sequence of errors.
pub open spec fn errors_view(s: Seq<CsvError>) -> Seq<ErrorView> {
    s.map_values(|e: CsvError| e@)
}

/// Appends an InvalidLineEnding error for every malformed terminator of `content`.
pub fn validate_line_endings(content: &[u8], errors: &mut Vec<CsvError>)
    requires
        content@.len() < usize::MAX,
    ensures
        errors_view(final(errors)@) == errors_view(old(errors)@) + line_ending_errors(content@),
{
    let ghost start = errors_view(errors@);
    let mut line_num: usize = 1;
    let mut i: usize = 0;
    while i < content.len()
        invariant
            i <= content@.len() < usize::MAX,
            line_num == lines_before(content@, i as int) + 1,
            lines_before(content@, i as int) <= i,
            errors_view(errors@) == start + line_errors_upto(content@, i as int),
        decreases content@.len() - i,
    {
        let ghost before = errors@;
        if content[i] == LF {
            if i == 0 || content[i - 1] != CR {
                errors.push(CsvError { record: None, record_num: line_num, error: CsvErrorKind::InvalidLineEnding });
            }
            line_num += 1;
        } else if content[i] == CR {
            if i + 1 >= content.len() || content[i + 1] != LF {
                errors.push(CsvError { record: None, record_num: line_num, error: CsvErrorKind::InvalidLineEnding });
            }
        }
        proof {
            if errors@.len() != before.len() {
                assert(errors_view(errors@) =~= errors_view(before).push(errors@.last()@));
            } else {
                assert(errors@ == before);
            }
        }
        i += 1;
    }
    assert(content@.len() == content.len());
}

} // verus!
