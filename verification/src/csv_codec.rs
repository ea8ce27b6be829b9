//! Reading and writing comma-separated values, done by the `csv` crate.
//! Nothing in this file is proved: each item states what the crate is
//! taken to do.

use vstd::prelude::*;
use crate::text::{rows_view, strings_view};

verus! {

/// What a `csv` reader with default settings, told whether the data has a
/// header, makes of `data`: the first record (`Reader::headers`) and the
/// records that `Reader::records` yields, or the message of the error that
/// it reports.
pub uninterp spec fn csv_document(data: Seq<u8>, has_headers: bool) -> Result<
    (Seq<Seq<char>>, Seq<Seq<Seq<char>>>),
    Seq<char>,
>;

/// The bytes that a `csv` writer with default settings produces for
/// `records`, or the message of the error that it reports.
pub uninterp spec fn csv_encoding(records: Seq<Seq<Seq<char>>>) -> Result<Seq<u8>, Seq<char>>;

/// Parses `data` with `csv::ReaderBuilder`, `Reader::headers` and
/// `Reader::records`, the reader reading from memory. Claimed: the
/// outcome depends on the two arguments alone, and is the one that
/// `csv_document` names. An error is handed on as its message.
#[verifier::external_body]
pub(crate) fn csv_read(data: &[u8], has_headers: bool) -> (r: Result<
    (Vec<String>, Vec<Vec<String>>),
    String,
>)
    ensures
        match r {
            Ok(doc) => csv_document(data@, has_headers) == Ok::<_, Seq<char>>(
                (strings_view(doc.0@), rows_view(doc.1@)),
            ),
            Err(message) => csv_document(data@, has_headers) == Err::<
                (Seq<Seq<char>>, Seq<Seq<Seq<char>>>),
                _,
            >(message@),
        },
{
    let mut reader = csv::ReaderBuilder::new().has_headers(has_headers).from_reader(data);
    let first = reader.headers().map_err(|e| e.to_string())?;
    let first: Vec<String> = first.iter().map(String::from).collect();
    let mut rows: Vec<Vec<String>> = Vec::new();
    for record in reader.records() {
        rows.push(record.map_err(|e| e.to_string())?.iter().map(String::from).collect());
    }
    Ok((first, rows))
}

/// Writes `records` with `csv::Writer::write_record` into memory and
/// returns the bytes. Claimed: the outcome depends on the records alone,
/// and is the one that `csv_encoding` names. An error is handed on as its
/// message.
#[verifier::external_body]
pub(crate) fn csv_write(records: &Vec<Vec<String>>) -> (r: Result<Vec<u8>, String>)
    ensures
        match r {
            Ok(bytes) => csv_encoding(rows_view(records@)) == Ok::<_, Seq<char>>(bytes@),
            Err(message) => csv_encoding(rows_view(records@)) == Err::<Seq<u8>, _>(message@),
        },
{
    let mut writer = csv::Writer::from_writer(Vec::new());
    for record in records.iter() {
        writer.write_record(record).map_err(|e| e.to_string())?;
    }
    writer.into_inner().map_err(|e| e.to_string())
}

} // verus!
