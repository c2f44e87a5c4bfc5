//! Records of an IEEE CSV listing as read by the `csv` crate, held as plain values.

use vstd::prelude::*;

verus! {

/// A failure reported by the `csv` reader: its position line, when it had one, and its
/// message.
#[derive(Debug, Clone, PartialEq, Eq)]
pub struct CsvFailure {
    /// Line of the reader's position at the failure, when the reader reported one.
    pub line: Option<u64>,
    /// Display of the reader's error.
    pub message: String,
}

/// One record of a CSV document: its fields and the line of the position it started at.
#[derive(Debug, Clone, PartialEq, Eq)]
pub struct CsvRecord {
    /// Fields of the record, unquoted.
    pub fields: Vec<String>,
    /// Line of the position at which the record starts, when the reader reported one.
    pub line: Option<u64>,
}

/// A reader failure as plain values: position line and message.
pub type CsvFailureView = (Option<u64>, Seq<char>);

/// A record as plain values: fields and position line.
pub type CsvRecordView = (Seq<Seq<char>>, Option<u64>);

impl View for CsvFailure {
    type V = CsvFailureView;

    open spec fn view(&self) -> CsvFailureView {
        (self.line, self.message@)
    }
}

impl View for CsvRecord {
    type V = CsvRecordView;

    open spec fn view(&self) -> CsvRecordView {
        (self.fields.deep_view(), self.line)
    }
}

/// The view of a header read.
pub open spec fn header_view(header: Result<Vec<String>, CsvFailure>) -> Result<
    Seq<Seq<char>>,
    CsvFailureView,
> {
    match header {
        Ok(fields) => Ok(fields.deep_view()),
        Err(failure) => Err(failure@),
    }
}

/// The view of one record read.
pub open spec fn record_view(record: Result<CsvRecord, CsvFailure>) -> Result<
    CsvRecordView,
    CsvFailureView,
> {
    match record {
        Ok(record) => Ok(record@),
        Err(failure) => Err(failure@),
    }
}

/// The view of all records read.
pub open spec fn records_view(records: Seq<Result<CsvRecord, CsvFailure>>) -> Seq<
    Result<CsvRecordView, CsvFailureView>,
> {
    records.map_values(|record: Result<CsvRecord, CsvFailure>| record_view(record))
}

/// What a flexible `csv` reader that treats the first record as the header returns for the
/// header of `text`.
pub uninterp spec fn csv_header_record(text: Seq<char>) -> Result<Seq<Seq<char>>, CsvFailureView>;

/// What a flexible `csv` reader that treats the first record as the header yields, in order,
/// for the records after the header of `text`.
pub uninterp spec fn csv_data_records(text: Seq<char>) -> Seq<
    Result<CsvRecordView, CsvFailureView>,
>;

/// Reads the header record of `text` with `csv::Reader::headers`, on a reader built by
/// `csv::ReaderBuilder` with `has_headers(true)` and `flexible(true)`.
///
/// Claims that the result, as plain values, is what that call returns for `text`: the
/// header's fields, or the error's position line and message.
#[verifier::external_body]
pub(crate) fn read_csv_header(text: &str) -> (header: Result<Vec<String>, CsvFailure>)
    ensures
        header_view(header) == csv_header_record(text@),
{
    let mut reader = csv::ReaderBuilder::new().has_headers(true).flexible(true).from_reader(
        text.as_bytes(),
    );
    match reader.headers() {
        Ok(fields) => Ok(fields.iter().map(String::from).collect()),
        Err(error) => Err(CsvFailure {
            line: error.position().map(csv::Position::line),
            message: error.to_string(),
        }),
    }
}

/// Reads every record after the header of `text` with `csv::Reader::records`, on a reader
/// built by `csv::ReaderBuilder` with `has_headers(true)` and `flexible(true)`.
///
/// Claims that the result, as plain values, is the sequence that iterator yields for `text`:
/// each record's fields and position line, or each error's position line and message.
#[verifier::external_body]
pub(crate) fn read_csv_records(text: &str) -> (records: Vec<Result<CsvRecord, CsvFailure>>)
    ensures
        records_view(records@) == csv_data_records(text@),
{
    let mut reader = csv::ReaderBuilder::new().has_headers(true).flexible(true).from_reader(
        text.as_bytes(),
    );
    reader.records().map(|row| match row {
        Ok(record) => Ok(CsvRecord {
            fields: record.iter().map(String::from).collect(),
            line: record.position().map(csv::Position::line),
        }),
        Err(error) => Err(CsvFailure {
            line: error.position().map(csv::Position::line),
            message: error.to_string(),
        }),
    }).collect()
}

} // verus!
