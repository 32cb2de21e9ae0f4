//! Reading the source file: comma-separated text with a header row, one
//! record per following row.
//!
//! The CSV grammar is the `csv` crate's: this module asks it for one
//! record at a time and decides what each becomes. The first four columns
//! are read here. The fifth is a floating-point number, which this library
//! does not parse: it is handed on as text, and the record is completed
//! from what the caller's parser made of it.
//!
//! What is assumed of the crate stands in `open_reader` and `next_record`
//! and nowhere else: that a reader over bytes in memory yields a fixed,
//! finite run of records and errors that depends on the bytes alone.

use crate::numeric::{parse_servings, parsed_i32, servings_of};
use crate::record::{Record, RecordView};
use vstd::prelude::*;

verus! {

/// `csv::Reader`, the crate's parser over a byte source. Nothing of its
/// inside is known here but what `unread` names.
#[verifier::external_type_specification]
#[verifier::external_body]
#[verifier::reject_recursive_types(R)]
pub struct ExReader<R>(csv::Reader<R>);

/// `csv::Error`, what the crate raises for a record that it rejects: one
/// whose number of fields differs from the header's, or one that is not
/// valid UTF-8.
#[verifier::external_type_specification]
#[verifier::external_body]
pub struct ExCsvError(csv::Error);

/// What a CSV reader makes of one record: its fields where it accepts the
/// record, nothing where it rejects it.
pub type CsvItem = Option<Seq<Seq<char>>>;

/// What a `csv::Reader` over `data` yields, record by record, until the
/// data is used up, when it is built with a header row and the crate's
/// defaults otherwise. The header itself is not among the items. The
/// grammar is the crate's and is not restated here.
pub uninterp spec fn csv_items(data: Seq<u8>) -> Seq<Option<Seq<Seq<char>>>>;

/// The items that a `csv::Reader` over a slice has yet to yield.
pub uninterp spec fn unread(reader: csv::Reader<&[u8]>) -> Seq<Option<Seq<Seq<char>>>>;

/// The texts of a run of strings, in order.
pub open spec fn texts_of(fields: Seq<String>) -> Seq<Seq<char>> {
    Seq::new(fields.len(), |i: int| fields[i]@)
}

/// The item that one read stands for.
pub open spec fn item_of(read: Result<Vec<String>, csv::Error>) -> CsvItem {
    match read {
        Ok(fields) => Some(texts_of(fields@)),
        Err(_) => None,
    }
}

/// `csv::ReaderBuilder::from_reader` on an in-memory slice, with
/// `has_headers(true)` and every other setting at its default. Nothing has
/// been read yet, so all the items of `data` are still to come.
#[verifier::external_body]
fn open_reader(data: &[u8]) -> (reader: csv::Reader<&[u8]>)
    ensures
        unread(reader) == csv_items(data@),
{
    csv::ReaderBuilder::new().has_headers(true).from_reader(data)
}

/// One step of `csv::Reader::records`: the next record of the reader, its
/// fields copied into strings, or the error that the crate raised for it;
/// `None` once the data is used up, and from then on. Reading from memory
/// cannot fail, so what comes depends on the data alone.
#[verifier::external_body]
fn next_record(reader: &mut csv::Reader<&[u8]>) -> (read: Option<Result<Vec<String>, csv::Error>>)
    ensures
        match read {
            Some(outcome) => {
                &&& unread(*old(reader)).len() > 0
                &&& item_of(outcome) == unread(*old(reader))[0]
                &&& unread(*final(reader)) == unread(*old(reader)).drop_first()
            },
            None => unread(*old(reader)).len() == 0 && unread(*final(reader)).len() == 0,
        },
{
    reader.records().next().map(|r| r.map(|record| record.iter().map(String::from).collect()))
}

/// A row of the source file as far as this library reads it.
#[derive(Debug, Clone, PartialEq, Eq)]
pub struct SourceRow {
    pub country: String,
    pub beer_servings: i32,
    pub spirit_servings: i32,
    pub wine_servings: i32,
    /// The fifth column as the file writes it.
    pub total_litres_text: String,
}

/// What a source row holds, with its texts as sequences of characters.
pub struct SourceRowView {
    pub country: Seq<char>,
    pub beer_servings: i32,
    pub spirit_servings: i32,
    pub wine_servings: i32,
    pub total_litres_text: Seq<char>,
}

impl View for SourceRow {
    type V = SourceRowView;

    open spec fn view(&self) -> SourceRowView {
        SourceRowView {
            country: self.country@,
            beer_servings: self.beer_servings,
            spirit_servings: self.spirit_servings,
            wine_servings: self.wine_servings,
            total_litres_text: self.total_litres_text@,
        }
    }
}

/// The number of columns that a row must have.
pub const COLUMNS: usize = 5;

/// The source row that five or more fields make: the country and the fifth
/// column as they stand, each serving count read as a 32-bit integer, and
/// zero where the text is none.
pub open spec fn row_of(fields: Seq<Seq<char>>) -> SourceRowView
    recommends
        fields.len() >= COLUMNS,
{
    SourceRowView {
        country: fields[0],
        beer_servings: servings_of(fields[1]),
        spirit_servings: servings_of(fields[2]),
        wine_servings: servings_of(fields[3]),
        total_litres_text: fields[4],
    }
}

/// The record that a source row becomes once the fifth column has been
/// parsed: `litres` is the bit pattern of the number that the text writes,
/// or nothing where it writes none, which counts as zero.
pub open spec fn completed(row: SourceRowView, litres: Option<u64>) -> RecordView {
    RecordView {
        country: row.country,
        beer_servings: row.beer_servings,
        spirit_servings: row.spirit_servings,
        wine_servings: row.wine_servings,
        total_litres_bits: match litres {
            Some(bits) => bits,
            None => 0,
        },
    }
}

impl SourceRow {
    /// Completes the row with what the floating-point parser made of
    /// `total_litres_text`: the bits of the number, or `None` where the
    /// parser rejected the text. A rejected text is stored as `0.0`, whose
    /// bit pattern is zero.
    pub fn into_record(self, litres: Option<u64>) -> (record: Record)
        ensures
            record@ == completed(self@, litres),
    {
        Record {
            country: self.country,
            beer_servings: self.beer_servings,
            spirit_servings: self.spirit_servings,
            wine_servings: self.wine_servings,
            total_litres_bits: match litres {
                Some(bits) => bits,
                None => 0,
            },
        }
    }
}

/// Reads the fields of one record. A record with fewer than five fields
/// makes no row; fields beyond the fifth are not looked at.
pub fn row_from_fields(fields: &Vec<String>) -> (row: Option<SourceRow>)
    ensures
        fields@.len() < COLUMNS ==> row is None,
        fields@.len() >= COLUMNS ==> row is Some && row->0@ == row_of(texts_of(fields@)),
{
    if fields.len() < COLUMNS {
        return None;
    }
    Some(
        SourceRow {
            country: fields[0].clone(),
            beer_servings: parse_servings(fields[1].as_str()),
            spirit_servings: parse_servings(fields[2].as_str()),
            wine_servings: parse_servings(fields[3].as_str()),
            total_litres_text: fields[4].clone(),
        },
    )
}

/// Why reading the source stopped before its end.
#[derive(Debug, Clone, Copy, PartialEq, Eq, Structural)]
pub enum LoadStop {
    /// The CSV reader rejected a record.
    Unreadable,
    /// A record has fewer than five fields.
    TooFewFields,
}

/// What reading a source file gave: the rows up to the first record that
/// makes none, and why reading stopped there, if it did.
#[derive(Debug, Clone, PartialEq, Eq)]
pub struct Loaded {
    pub rows: Vec<SourceRow>,
    pub stopped: Option<LoadStop>,
}

/// What a reading holds, each row by its view.
pub struct LoadedView {
    pub rows: Seq<SourceRowView>,
    pub stopped: Option<LoadStop>,
}

impl View for Loaded {
    type V = LoadedView;

    open spec fn view(&self) -> LoadedView {
        LoadedView {
            rows: Seq::new(self.rows@.len(), |i: int| self.rows@[i]@),
            stopped: self.stopped,
        }
    }
}

/// Whether an item makes a row: the reader accepted the record and it has
/// at least five fields.
pub open spec fn makes_row(item: CsvItem) -> bool {
    item matches Some(fields) && fields.len() >= COLUMNS
}

/// The number of items at the front of `items` that make a row each.
pub open spec fn rows_before_stop(items: Seq<CsvItem>) -> nat
    decreases items.len(),
{
    if items.len() == 0 || !makes_row(items[0]) {
        0
    } else {
        1 + rows_before_stop(items.drop_first())
    }
}

/// Why reading stops at `item`.
pub open spec fn stop_for(item: CsvItem) -> LoadStop {
    match item {
        None => LoadStop::Unreadable,
        Some(_) => LoadStop::TooFewFields,
    }
}

/// The reading that a run of items gives: a row for each item before the
/// first that makes none, in order, and the reason for that first one.
pub open spec fn loaded_from(items: Seq<CsvItem>) -> LoadedView {
    let count = rows_before_stop(items);
    LoadedView {
        rows: Seq::new(count, |i: int| row_of(items[i]->0)),
        stopped: if count < items.len() {
            Some(stop_for(items[count as int]))
        } else {
            None
        },
    }
}

/// Every item before the stop makes a row, and the stop lies within the
/// items.
pub proof fn lemma_rows_before_stop(items: Seq<CsvItem>)
    ensures
        rows_before_stop(items) <= items.len(),
        forall|i: int| 0 <= i < rows_before_stop(items) ==> makes_row(#[trigger] items[i]),
        rows_before_stop(items) < items.len() ==> !makes_row(
            items[rows_before_stop(items) as int],
        ),
    decreases items.len(),
{
    if items.len() > 0 && makes_row(items[0]) {
        let rest = items.drop_first();
        lemma_rows_before_stop(rest);
        assert forall|i: int| 0 <= i < rows_before_stop(items) implies makes_row(
            #[trigger] items[i],
        ) by {
            if i > 0 {
                assert(items[i] == rest[i - 1]);
            }
        }
    }
}

/// The stop is the first item that makes no row: an index with rows
/// before it and none at it is the count.
pub proof fn lemma_stop_is_first(items: Seq<CsvItem>, count: int)
    requires
        0 <= count <= items.len(),
        forall|i: int| 0 <= i < count ==> makes_row(#[trigger] items[i]),
        count < items.len() ==> !makes_row(items[count]),
    ensures
        rows_before_stop(items) == count,
{
    lemma_rows_before_stop(items);
}

/// Reads a source file held in memory: the first record is the header,
/// each following record makes one row. Reading stops at the first record
/// that the CSV reader rejects or that has fewer than five fields; the rows
/// before it are kept and the reason is reported.
pub fn load(data: &[u8]) -> (loaded: Loaded)
    ensures
        loaded@ == loaded_from(csv_items(data@)),
{
    let ghost items = csv_items(data@);
    let mut reader = open_reader(data);
    let mut rows: Vec<SourceRow> = Vec::new();
    let mut stopped: Option<LoadStop> = None;
    loop
        invariant_except_break
            stopped is None,
            unread(reader) == items.skip(rows@.len() as int),
        invariant
            rows@.len() <= items.len(),
            forall|i: int| 0 <= i < rows@.len() ==> makes_row(#[trigger] items[i]),
            forall|i: int| 0 <= i < rows@.len() ==> (#[trigger] rows@[i])@ == row_of(items[i]->0),
        ensures
            stopped is None ==> rows@.len() == items.len(),
            stopped is Some ==> rows@.len() < items.len() && !makes_row(
                items[rows@.len() as int],
            ) && stopped == Some(stop_for(items[rows@.len() as int])),
        decreases unread(reader).len(),
    {
        let read = next_record(&mut reader);
        match read {
            None => {
                break ;
            },
            Some(Err(_)) => {
                stopped = Some(LoadStop::Unreadable);
                break ;
            },
            Some(Ok(fields)) => {
                match row_from_fields(&fields) {
                    None => {
                        stopped = Some(LoadStop::TooFewFields);
                        break ;
                    },
                    Some(row) => {
                        rows.push(row);
                    },
                }
            },
        }
    }
    proof {
        lemma_stop_is_first(items, rows@.len() as int);
    }
    let loaded = Loaded { rows, stopped };
    assert(loaded@.rows =~= loaded_from(items).rows);
    loaded
}

/// A row whose three serving counts are well formed is loaded with
/// exactly the values that its texts write: the country as it stands, each
/// count as parsed, and the bits that the floating-point parser gave for
/// the fifth column.
pub proof fn law_well_formed_row_is_kept(fields: Seq<Seq<char>>, litres: u64)
    requires
        fields.len() >= COLUMNS,
        parsed_i32(fields[1]) is Some,
        parsed_i32(fields[2]) is Some,
        parsed_i32(fields[3]) is Some,
    ensures
        completed(row_of(fields), Some(litres)) == (RecordView {
            country: fields[0],
            beer_servings: parsed_i32(fields[1])->0,
            spirit_servings: parsed_i32(fields[2])->0,
            wine_servings: parsed_i32(fields[3])->0,
            total_litres_bits: litres,
        }),
{
}

/// A malformed numeric field does not cost the row: a record with five
/// fields always makes one, with zero in each serving column whose text is
/// no 32-bit integer, and with the bits of `0.0` in the fifth column where
/// the floating-point parser rejected its text.
pub proof fn law_malformed_field_is_zero(fields: Seq<Seq<char>>)
    requires
        fields.len() >= COLUMNS,
    ensures
        makes_row(Some(fields)),
        parsed_i32(fields[1]) is None ==> row_of(fields).beer_servings == 0,
        parsed_i32(fields[2]) is None ==> row_of(fields).spirit_servings == 0,
        parsed_i32(fields[3]) is None ==> row_of(fields).wine_servings == 0,
        completed(row_of(fields), None).total_litres_bits == 0,
{
}

/// Where the reader accepts every record and each has five fields, the
/// whole source is loaded, whatever its numeric fields hold: one row for
/// each record, in the order of the file, and no stop.
pub proof fn law_load_reads_every_row(items: Seq<CsvItem>)
    requires
        forall|i: int| 0 <= i < items.len() ==> makes_row(#[trigger] items[i]),
    ensures
        loaded_from(items).stopped is None,
        loaded_from(items).rows.len() == items.len(),
        forall|i: int|
            0 <= i < items.len() ==> #[trigger] loaded_from(items).rows[i] == row_of(items[i]->0),
{
    lemma_stop_is_first(items, items.len() as int);
}

} // verus!
