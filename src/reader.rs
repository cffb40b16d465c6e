//! The record tokenizer: a `csv` reader over the buffered bytes.
//!
//! A reader is modelled by the sequence of outcomes that its remaining reads
//! return before it reports the end of the input.

use crate::error::ErrorClass;
use vstd::prelude::*;

verus! {

/// The `csv` crate's reader, opaque to proofs; `pending_reads` describes it.
#[verifier::external_type_specification]
#[verifier::external_body]
#[verifier::reject_recursive_types(R)]
pub struct ExCsvReader<R>(csv::Reader<R>);

/// The mathematical value of one read that did not reach the end of the input.
pub enum ReadStep {
    /// A record, as its fields.
    Record(Seq<Seq<char>>),
    /// A failed read, with the class and the text of the failure.
    Failed(ErrorClass, Seq<char>),
}

/// What one read of the tokenizer returned.
pub enum ReadOutcome {
    Record(Vec<String>),
    End,
    Failed(ErrorClass, String),
}

/// Whether the outcome `o` is the step `s`.
pub open spec fn outcome_is(o: ReadOutcome, s: ReadStep) -> bool {
    match o {
        ReadOutcome::Record(v) => s == ReadStep::Record(v.deep_view()),
        ReadOutcome::End => false,
        ReadOutcome::Failed(c, m) => s == ReadStep::Failed(c, m@),
    }
}

/// The outcomes, up to the end of the input, of a reader over `content` that
/// splits fields at `delimiter`, honours quotes when `quoting` holds, accepts
/// records of any length and takes the first row as the header row.
pub uninterp spec fn csv_reads(content: Seq<u8>, delimiter: u8, quoting: bool) -> Seq<ReadStep>;

/// The outcomes that the remaining reads of `reader` return before the end of the input.
pub uninterp spec fn pending_reads(reader: csv::Reader<&[u8]>) -> Seq<ReadStep>;

/// Relies on `csv::ReaderBuilder` (`delimiter`, `flexible`, `quoting`,
/// `from_reader`): the reader's outcomes depend on the bytes and these settings
/// alone, and each read before the end consumes at least one byte.
#[verifier::external_body]
pub(crate) fn open_reader<'a>(content: &'a [u8], delimiter: u8, quoting: bool) -> (r: csv::Reader<
    &'a [u8],
>)
    ensures
        pending_reads(r) == csv_reads(content@, delimiter, quoting) && pending_reads(r).len()
            <= content@.len(),
{
    csv::ReaderBuilder::new().delimiter(delimiter).flexible(true).quoting(quoting).from_reader(
        content,
    )
}

/// Relies on `csv::Reader::read_record`: it returns the next pending outcome,
/// or the end of the input, after which it keeps returning the end. The
/// record's fields are taken from `csv::StringRecord::iter`, and a failure is
/// described by `csv::Error::kind` and the error's `Display` text.
#[verifier::external_body]
pub(crate) fn read_next(reader: &mut csv::Reader<&[u8]>) -> (r: ReadOutcome)
    ensures
        pending_reads(*old(reader)).len() == 0 ==> (r is End && pending_reads(*final(reader))
            == pending_reads(*old(reader))),
        pending_reads(*old(reader)).len() > 0 ==> (outcome_is(r, pending_reads(*old(reader))[0])
            && pending_reads(*final(reader)) == pending_reads(*old(reader)).drop_first()),
{
    let mut rec = csv::StringRecord::new();
    match reader.read_record(&mut rec) {
        Ok(true) => ReadOutcome::Record(rec.iter().map(String::from).collect()),
        Ok(false) => ReadOutcome::End,
        Err(e) => {
            let class = match e.kind() {
                csv::ErrorKind::Io(_) => ErrorClass::Io,
                csv::ErrorKind::Utf8 { .. } => ErrorClass::Utf8,
                csv::ErrorKind::UnequalLengths { .. } => ErrorClass::UnequalLengths,
                _ => ErrorClass::Parse,
            };
            ReadOutcome::Failed(class, e.to_string())
        },
    }
}

} // verus!
