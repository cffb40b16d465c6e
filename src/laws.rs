//! Laws of the validator, proved over its model.

use crate::error::{failure_kind, is_fatal, ErrorClass, ErrorView, KindView};
use crate::line_endings::{bad_terminator_at, line_ending_errors, line_errors_upto};
use crate::reader::{csv_reads, ReadStep};
use crate::validate::{
    data_errors, is_fatal_step, step_errors, stop_at, validation_model, validation_of, ResultView,
};
use vstd::prelude::*;

verus! {

/// Where the first fatal read lies: at or after `k`, and fatal if before the end.
pub proof fn lemma_stop_at(reads: Seq<ReadStep>, k: int)
    requires
        0 <= k <= reads.len(),
    ensures
        k <= stop_at(reads, k) <= reads.len(),
        stop_at(reads, k) < reads.len() ==> is_fatal_step(reads[stop_at(reads, k)]),
        (forall|j: int| k <= j < reads.len() ==> !is_fatal_step(#[trigger] reads[j])) ==> stop_at(
            reads,
            k,
        ) == reads.len(),
    decreases reads.len() - k,
{
    if k < reads.len() && !is_fatal_step(reads[k]) {
        lemma_stop_at(reads, k + 1);
    }
}

/// Every line-ending error is of kind InvalidLineEnding, and one exists when
/// some byte before `i` is a malformed terminator.
pub proof fn lemma_line_errors(c: Seq<u8>, i: int)
    requires
        0 <= i <= c.len(),
    ensures
        forall|j: int|
            0 <= j < line_errors_upto(c, i).len() ==> (#[trigger] line_errors_upto(c, i)[j]).kind
                == KindView::InvalidLineEnding,
        (exists|b: int| 0 <= b < i && #[trigger] bad_terminator_at(c, b)) ==> line_errors_upto(
            c,
            i,
        ).len() > 0,
        (forall|b: int| 0 <= b < i ==> !#[trigger] bad_terminator_at(c, b)) ==> line_errors_upto(
            c,
            i,
        ).len() == 0,
    decreases i,
{
    if i > 0 {
        lemma_line_errors(c, i - 1);
        if exists|b: int| 0 <= b < i && #[trigger] bad_terminator_at(c, b) {
            let b = choose|b: int| 0 <= b < i && #[trigger] bad_terminator_at(c, b);
            if b < i - 1 {
                assert(line_errors_upto(c, i - 1).len() > 0);
            }
        }
    }
}

/// No read contributes a line-ending error.
pub proof fn lemma_data_errors_kinds(reads: Seq<ReadStep>, k: int, header_len: nat, lazy: bool)
    requires
        k <= reads.len(),
    ensures
        forall|j: int|
            0 <= j < data_errors(reads, k, header_len, lazy).len() ==> (#[trigger] data_errors(
                reads,
                k,
                header_len,
                lazy,
            )[j]).kind != KindView::InvalidLineEnding,
    decreases k,
{
    if k > 1 {
        lemma_data_errors_kinds(reads, k - 1, header_len, lazy);
        let prev = data_errors(reads, k - 1, header_len, lazy);
        let last = step_errors(reads[k - 1], k as nat, header_len, lazy);
        assert forall|j: int| 0 <= j < last.len() implies (#[trigger] last[j]).kind
            != KindView::InvalidLineEnding by {
            if let ReadStep::Failed(c, m) = reads[k - 1] {
                assert(last[j].kind == failure_kind(c, m));
            }
        }
        assert forall|j: int| 0 <= j < (prev + last).len() implies (#[trigger] (prev + last)[j]).kind
            != KindView::InvalidLineEnding by {
            if j >= prev.len() {
                assert((prev + last)[j] == last[j - prev.len()]);
            }
        }
    }
}

/// Reads whose records all have the header's field count contribute no error.
pub proof fn lemma_data_errors_clean(reads: Seq<ReadStep>, k: int, header_len: nat, lazy: bool)
    requires
        k <= reads.len(),
        forall|j: int|
            1 <= j < k ==> (#[trigger] reads[j] matches ReadStep::Record(f) && f.len() == header_len),
    ensures
        data_errors(reads, k, header_len, lazy).len() == 0,
    decreases k,
{
    if k > 1 {
        lemma_data_errors_clean(reads, k - 1, header_len, lazy);
        assert(reads[k - 1] matches ReadStep::Record(f) && f.len() == header_len);
    }
}

/// Leniency never adds an error to those of the same reads.
pub proof fn lemma_data_errors_lenient(reads: Seq<ReadStep>, k: int, header_len: nat)
    requires
        k <= reads.len(),
    ensures
        data_errors(reads, k, header_len, true).len() <= data_errors(
            reads,
            k,
            header_len,
            false,
        ).len(),
    decreases k,
{
    if k > 1 {
        lemma_data_errors_lenient(reads, k - 1, header_len);
    }
}

/// Every outcome is a record with as many fields as the first.
pub open spec fn uniform_records(reads: Seq<ReadStep>) -> bool {
    forall|j: int|
        0 <= j < reads.len() ==> (#[trigger] reads[j] matches ReadStep::Record(f) && reads[0] matches ReadStep::Record(h)
            && f.len() == h.len())
}

/// With every terminator CRLF and every record as long as the header, strict
/// validation reports nothing and completes.
pub proof fn clean_input_is_valid(content: Seq<u8>, delimiter: u8, lazy: bool)
    requires
        forall|i: int| 0 <= i < content.len() ==> !#[trigger] bad_terminator_at(content, i),
        uniform_records(csv_reads(content, delimiter, !lazy)),
    ensures
        validation_of(content, delimiter, lazy, true) == (ResultView { errors: seq![], halted: false }),
{
    let reads = csv_reads(content, delimiter, !lazy);
    lemma_line_errors(content, content.len() as int);
    assert(line_ending_errors(content) =~= seq![]);
    if reads.len() > 0 {
        let h = reads[0]->Record_0;
        assert forall|j: int| 1 <= j < reads.len() implies !is_fatal_step(#[trigger] reads[j]) by {
            assert(reads[j] matches ReadStep::Record(_));
        }
        lemma_stop_at(reads, 1);
        assert forall|j: int| 1 <= j < reads.len() implies (#[trigger] reads[j] matches ReadStep::Record(f)
            && f.len() == h.len()) by {
            assert(reads[j] matches ReadStep::Record(_));
        }
        lemma_data_errors_clean(reads, reads.len() as int, h.len(), lazy);
        assert(data_errors(reads, reads.len() as int, h.len(), lazy) =~= seq![]);
        assert(seq![] + data_errors(reads, reads.len() as int, h.len(), lazy) =~= seq![]);
    }
}

/// In strict-compliance mode a malformed terminator yields at least one
/// InvalidLineEnding error.
pub proof fn bad_terminator_is_reported(content: Seq<u8>, delimiter: u8, lazy: bool, i: int)
    requires
        0 <= i < content.len(),
        bad_terminator_at(content, i),
    ensures
        exists|j: int|
            0 <= j < validation_of(content, delimiter, lazy, true).errors.len() && (#[trigger] validation_of(
                content,
                delimiter,
                lazy,
                true,
            ).errors[j]).kind == KindView::InvalidLineEnding,
{
    let r = validation_of(content, delimiter, lazy, true);
    let le = line_ending_errors(content);
    lemma_line_errors(content, content.len() as int);
    assert(le.len() > 0);
    let reads = csv_reads(content, delimiter, !lazy);
    assert(r.errors[0] == le[0]);
}

/// Without strict-compliance mode no InvalidLineEnding error is reported.
pub proof fn lenient_line_endings_unreported(content: Seq<u8>, delimiter: u8, lazy: bool)
    ensures
        forall|j: int|
            0 <= j < validation_of(content, delimiter, lazy, false).errors.len() ==> (#[trigger] validation_of(
                content,
                delimiter,
                lazy,
                false,
            ).errors[j]).kind != KindView::InvalidLineEnding,
{
    let reads = csv_reads(content, delimiter, !lazy);
    let r = validation_of(content, delimiter, lazy, false);
    if reads.len() > 0 {
        if let ReadStep::Record(h) = reads[0] {
            let s = stop_at(reads, 1);
            lemma_stop_at(reads, 1);
            let end = if s < reads.len() { s + 1 } else { reads.len() as int };
            lemma_data_errors_kinds(reads, end, h.len(), lazy);
            assert(r.errors =~= data_errors(reads, end, h.len(), lazy));
        } else {
            let c = reads[0]->Failed_0;
            let m = reads[0]->Failed_1;
            assert(r.errors[0].kind == failure_kind(c, m));
        }
    }
}

/// For one and the same sequence of tokenizer outcomes, leniency never
/// increases the number of errors.
pub proof fn leniency_never_adds_errors(content: Seq<u8>, strict: bool, reads: Seq<ReadStep>)
    ensures
        validation_model(content, true, strict, reads).errors.len() <= validation_model(
            content,
            false,
            strict,
            reads,
        ).errors.len(),
{
    if reads.len() > 0 {
        if let ReadStep::Record(h) = reads[0] {
            lemma_stop_at(reads, 1);
            if stop_at(reads, 1) < reads.len() {
                lemma_data_errors_lenient(reads, stop_at(reads, 1) + 1, h.len());
            } else {
                lemma_data_errors_lenient(reads, reads.len() as int, h.len());
            }
        }
    }
}

/// A halted scan ends with an Io or Utf8 error, or with the failure of the header read.
pub proof fn halt_ends_with_fatal_error(content: Seq<u8>, delimiter: u8, lazy: bool, strict: bool)
    ensures
        validation_of(content, delimiter, lazy, strict).halted ==> ({
            let errs = validation_of(content, delimiter, lazy, strict).errors;
            errs.len() > 0 && (errs.last().kind is Io || errs.last().kind is Utf8
                || errs.last().record_num == 0)
        }),
{
    let reads = csv_reads(content, delimiter, !lazy);
    let r = validation_of(content, delimiter, lazy, strict);
    if r.halted && reads.len() > 0 {
        if let ReadStep::Record(h) = reads[0] {
            let s = stop_at(reads, 1);
            lemma_stop_at(reads, 1);
            let c = reads[s]->Failed_0;
            let m = reads[s]->Failed_1;
            assert(is_fatal(c));
            let last = step_errors(reads[s], (s + 1) as nat, h.len(), lazy);
            assert(data_errors(reads, s + 1, h.len(), lazy) == data_errors(reads, s, h.len(), lazy) + last);
            assert(r.errors.last() == last[0]);
        }
    }
}

/// The number of FieldCount errors in `errs`.
pub open spec fn field_count_errors(errs: Seq<ErrorView>) -> nat
    decreases errs.len(),
{
    if errs.len() == 0 {
        0
    } else {
        field_count_errors(errs.drop_last()) + if errs.last().kind is FieldCount {
            1nat
        } else {
            0nat
        }
    }
}

/// Whether a data read has a field count other than the header's: a record
/// of another length, or a read the tokenizer rejected for its length.
pub open spec fn wrong_count(s: ReadStep, header_len: nat) -> bool {
    match s {
        ReadStep::Record(f) => f.len() != header_len,
        ReadStep::Failed(c, _) => c == ErrorClass::UnequalLengths,
    }
}

/// The number of data reads among `1 .. k` with a wrong field count.
pub open spec fn wrong_count_reads(reads: Seq<ReadStep>, k: int, header_len: nat) -> nat
    decreases k,
{
    if k <= 1 {
        0
    } else {
        wrong_count_reads(reads, k - 1, header_len) + if wrong_count(reads[k - 1], header_len) {
            1nat
        } else {
            0nat
        }
    }
}

/// The end of the data reads that a scan reaches: up to and including the first fatal one.
pub open spec fn scanned_end(reads: Seq<ReadStep>) -> int {
    if stop_at(reads, 1) < reads.len() {
        stop_at(reads, 1) + 1
    } else {
        reads.len() as int
    }
}

pub proof fn lemma_field_count_concat(a: Seq<ErrorView>, b: Seq<ErrorView>)
    ensures
        field_count_errors(a + b) == field_count_errors(a) + field_count_errors(b),
    decreases b.len(),
{
    if b.len() > 0 {
        assert((a + b).drop_last() =~= a + b.drop_last());
        lemma_field_count_concat(a, b.drop_last());
    } else {
        assert(a + b =~= a);
    }
}

pub proof fn lemma_field_count_none(errs: Seq<ErrorView>)
    requires
        forall|j: int| 0 <= j < errs.len() ==> !((#[trigger] errs[j]).kind is FieldCount),
    ensures
        field_count_errors(errs) == 0,
    decreases errs.len(),
{
    if errs.len() > 0 {
        lemma_field_count_none(errs.drop_last());
    }
}

pub proof fn lemma_field_count_data(reads: Seq<ReadStep>, k: int, header_len: nat)
    requires
        k <= reads.len(),
    ensures
        field_count_errors(data_errors(reads, k, header_len, false)) == wrong_count_reads(
            reads,
            k,
            header_len,
        ),
    decreases k,
{
    if k > 1 {
        lemma_field_count_data(reads, k - 1, header_len);
        let last = step_errors(reads[k - 1], k as nat, header_len, false);
        lemma_field_count_concat(data_errors(reads, k - 1, header_len, false), last);
        if last.len() > 0 {
            let none: Seq<ErrorView> = seq![];
            assert(field_count_errors(none) == 0);
            assert(last.drop_last() =~= none);
            assert(field_count_errors(last) == if last.last().kind is FieldCount {
                1nat
            } else {
                0nat
            });
        }
        if let ReadStep::Failed(c, m) = reads[k - 1] {
            assert(last.last().kind == failure_kind(c, m));
        }
    }
}

/// Without leniency, the FieldCount errors are exactly the scanned data
/// records whose field count differs from the header's.
pub proof fn field_count_errors_match_records(content: Seq<u8>, delimiter: u8, strict: bool)
    ensures
        csv_reads(content, delimiter, true).len() > 0 ==> (csv_reads(content, delimiter, true)[0] matches ReadStep::Record(h)
            ==> field_count_errors(validation_of(content, delimiter, false, strict).errors)
            == wrong_count_reads(
            csv_reads(content, delimiter, true),
            scanned_end(csv_reads(content, delimiter, true)),
            h.len(),
        )),
{
    let reads = csv_reads(content, delimiter, true);
    let r = validation_of(content, delimiter, false, strict);
    let le = if strict {
        line_ending_errors(content)
    } else {
        seq![]
    };
    lemma_line_errors(content, content.len() as int);
    lemma_field_count_none(le);
    if reads.len() > 0 {
        if let ReadStep::Record(h) = reads[0] {
            lemma_stop_at(reads, 1);
            let end = scanned_end(reads);
            lemma_field_count_data(reads, end, h.len());
            lemma_field_count_concat(le, data_errors(reads, end, h.len(), false));
        }
    }
}

} // verus!
