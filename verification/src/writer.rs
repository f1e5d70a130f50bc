//! Printing a trajectory and encoding it as a table, with the header
//! `x,y,z` and one record per state.

use crate::dynamics::State;
use crate::format::{lemma_table_text_push, record_text, table_text};
use crate::parse::{lemma_table_round_trip, parse_table};
use core::fmt::Display;
use vstd::prelude::*;
use vstd::string::to_string_from_display_ensures;
use vstd::utf8::{decode_utf8, encode_utf8, encode_utf8_decode_utf8, is_ascii_chars_encode_utf8};

verus! {

/// A state as it is printed: the text of each coordinate.
#[derive(Debug, PartialEq, Eq)]
pub struct Row {
    pub x: String,
    pub y: String,
    pub z: String,
}

impl Clone for Row {
    fn clone(&self) -> (copy: Self)
        ensures
            copy == *self,
    {
        Row { x: self.x.clone(), y: self.y.clone(), z: self.z.clone() }
    }
}

/// An error of the encoder; `message` is its own account of it. Encoding a
/// table of rows gives none: see `encode`.
#[derive(Debug, PartialEq, Eq)]
pub struct WriteError {
    pub message: String,
}

impl Clone for WriteError {
    fn clone(&self) -> (copy: Self)
        ensures
            copy == *self,
    {
        WriteError { message: self.message.clone() }
    }
}

impl Row {
    /// The three fields of the record that stands for this row, as bytes.
    pub open spec fn fields(self) -> Seq<Seq<u8>> {
        seq![encode_utf8(self.x@), encode_utf8(self.y@), encode_utf8(self.z@)]
    }
}

/// The fields of the header record: `x`, `y` and `z`.
pub open spec fn header() -> Seq<Seq<u8>> {
    seq![seq![120u8], seq![121u8], seq![122u8]]
}

/// The records of the table that stands for `rows`: the header, then one
/// record per row, in order.
pub open spec fn records_of(rows: Seq<Row>) -> Seq<Seq<Seq<u8>>> {
    Seq::new(rows.len() + 1, |i: int| if i == 0 { header() } else { rows[i - 1].fields() })
}

/// `row` is `state` printed: each field is what the coordinate's own
/// `Display` gives.
pub open spec fn printed<T: Display>(state: State<T>, row: Row) -> bool {
    &&& to_string_from_display_ensures::<T>(&state.x, row.x)
    &&& to_string_from_display_ensures::<T>(&state.y, row.y)
    &&& to_string_from_display_ensures::<T>(&state.z, row.z)
}

/// `rows` is `trajectory` printed, state by state.
pub open spec fn all_printed<T: Display>(trajectory: Seq<State<T>>, rows: Seq<Row>) -> bool {
    &&& rows.len() == trajectory.len()
    &&& forall|i: int| 0 <= i < trajectory.len() ==> printed(trajectory[i], #[trigger] rows[i])
}

/// The fields handed to the encoder, as bytes.
pub open spec fn utf8_fields(fields: Seq<&str>) -> Seq<Seq<u8>> {
    Seq::new(fields.len(), |i: int| encode_utf8(fields[i]@))
}

/// A `csv::Writer` that collects its output in a vector. Nothing of it is
/// visible to the verifier but what the three functions below name; it is
/// made and used by the three functions after them alone.
#[verifier::external_body]
pub struct Encoder {
    inner: csv::Writer<Vec<u8>>,
}

/// `csv::Error`, handed on as it comes.
#[verifier::external_type_specification]
#[verifier::external_body]
pub struct ExCsvError(csv::Error);

/// The bytes that the encoder has put out so far, whether they are still
/// in its buffer or already in its vector.
pub uninterp spec fn encoder_output(encoder: Encoder) -> Seq<u8>;

/// The encoder has the default configuration of `csv::Writer` (comma,
/// line feed, quotes where needed, quotes doubled) and stands between two
/// records: every record begun so far has been ended.
pub uninterp spec fn encoder_ready(encoder: Encoder) -> bool;

/// The number of fields of the first record that the encoder has ended, if
/// it has ended one. The encoder takes no record of another length.
pub uninterp spec fn encoder_width(encoder: Encoder) -> Option<nat>;

/// Not verified: calls `csv::Writer::from_writer` on an empty vector. The
/// contract claims that the writer has the default configuration, has put
/// out nothing yet and has no width yet.
#[verifier::external_body]
fn new_encoder() -> (encoder: Encoder)
    ensures
        encoder_ready(encoder),
        encoder_output(encoder) == Seq::<u8>::empty(),
        encoder_width(encoder) is None,
{
    Encoder { inner: csv::Writer::from_writer(Vec::new()) }
}

/// Not verified: calls `csv::Writer::write_record`. The contract claims
/// that the call returns `Ok` unless the record has another number of
/// fields than the first record had: the vector takes every byte, so the
/// writer has no other error to report. It claims that a call which returns
/// `Ok` has put out `record_text` of the fields' bytes, no more and no
/// less, has left the writer between two records, and has left it with the
/// width of this record. Nothing is claimed of the writer after an `Err`.
#[verifier::external_body]
fn write_record(encoder: &mut Encoder, fields: &Vec<&str>) -> (done: Result<(), csv::Error>)
    requires
        encoder_ready(*old(encoder)),
    ensures
        done is Ok <==> (encoder_width(*old(encoder)) is None || encoder_width(*old(encoder))
            == Some(fields@.len())),
        done is Ok ==> encoder_ready(*final(encoder)),
        done is Ok ==> encoder_width(*final(encoder)) == Some(fields@.len()),
        done is Ok ==> encoder_output(*final(encoder)) == encoder_output(*old(encoder))
            + record_text(utf8_fields(fields@)),
{
    encoder.inner.write_record(fields)
}

/// Not verified: calls `csv::Writer::into_inner`, and turns the error of
/// that call into a `csv::Error`. The contract claims that the call returns
/// `Ok`, since flushing into a vector does not fail, and that the vector
/// handed out holds everything that the writer has put out, in order.
#[verifier::external_body]
fn into_bytes(encoder: Encoder) -> (bytes: Result<Vec<u8>, csv::Error>)
    ensures
        bytes is Ok,
        bytes matches Ok(b) ==> b@ == encoder_output(encoder),
{
    encoder.inner.into_inner().map_err(|e| csv::Error::from(e.into_error()))
}

/// The encoder's error as this library's: its message is the error printed.
fn give_up(error: csv::Error) -> (failure: WriteError)
    ensures
        describes(error, failure),
{
    WriteError { message: error.to_string() }
}

/// `failure` is `error` described: its message is what the error prints.
pub open spec fn describes(error: csv::Error, failure: WriteError) -> bool {
    to_string_from_display_ensures::<csv::Error>(&error, failure.message)
}

/// Prints a trajectory, state by state.
pub fn print_rows<T: Display>(trajectory: &Vec<State<T>>) -> (rows: Vec<Row>)
    ensures
        all_printed(trajectory@, rows@),
{
    let mut rows: Vec<Row> = Vec::new();
    let mut i: usize = 0;
    while i < trajectory.len()
        invariant
            i <= trajectory.len(),
            rows@.len() == i,
            forall|j: int| 0 <= j < i ==> printed(trajectory@[j], #[trigger] rows@[j]),
        decreases trajectory.len() - i,
    {
        rows.push(print_state(&trajectory[i]));
        i = i + 1;
    }
    rows
}

/// The header record as it is handed to the encoder.
fn header_fields() -> (fields: Vec<&'static str>)
    ensures
        utf8_fields(fields@) == header(),
{
    let fields: Vec<&'static str> = vec!["x", "y", "z"];
    proof {
        reveal_strlit("x");
        reveal_strlit("y");
        reveal_strlit("z");
        is_ascii_chars_encode_utf8("x"@);
        is_ascii_chars_encode_utf8("y"@);
        is_ascii_chars_encode_utf8("z"@);
    }
    fields
}

/// Encodes `rows` as a table: the header record `x,y,z`, then one record per
/// row, in order. Every record has three fields, so the encoder takes all.
pub fn encode(rows: &Vec<Row>) -> (out: Result<Vec<u8>, WriteError>)
    ensures
        out is Ok,
        out matches Ok(bytes) ==> bytes@ == table_text(records_of(rows@)),
{
    let mut encoder = new_encoder();
    let head = header_fields();
    assert(head@.len() == utf8_fields(head@).len());
    match outcome(write_record(&mut encoder, &head)) {
        Ok(()) => {},
        Err(failure) => {
            return Err(failure);
        },
    }
    proof {
        lemma_table_text_push(Seq::empty(), header());
        assert(records_of(rows@.take(0)) =~= Seq::<Seq<Seq<u8>>>::empty().push(header()));
    }
    let mut i: usize = 0;
    while i < rows.len()
        invariant
            i <= rows.len(),
            encoder_ready(encoder),
            encoder_width(encoder) == Some(3nat),
            encoder_output(encoder) == table_text(records_of(rows@.take(i as int))),
        decreases rows.len() - i,
    {
        let row = &rows[i];
        let fields: Vec<&str> = vec![row.x.as_str(), row.y.as_str(), row.z.as_str()];
        assert(utf8_fields(fields@) =~= rows@[i as int].fields());
        match outcome(write_record(&mut encoder, &fields)) {
            Ok(()) => {},
            Err(failure) => {
                return Err(failure);
            },
        }
        proof {
            let before = records_of(rows@.take(i as int));
            lemma_table_text_push(before, rows@[i as int].fields());
            assert(before.push(rows@[i as int].fields()) =~= records_of(rows@.take(i + 1)));
        }
        i = i + 1;
    }
    assert(rows@.take(rows.len() as int) =~= rows@);
    outcome(into_bytes(encoder))
}

/// The text of a trajectory: its states printed, then encoded as a table
/// under the header `x,y,z`. It is owed for every trajectory.
pub fn to_csv<T: Display>(trajectory: &Vec<State<T>>) -> (out: Result<Vec<u8>, WriteError>)
    ensures
        out is Ok,
        out matches Ok(bytes) ==> exists|rows: Seq<Row>|
            all_printed(trajectory@, rows) && bytes@ == table_text(#[trigger] records_of(rows)),
{
    let rows = print_rows(trajectory);
    encode(&rows)
}

/// Prints one state: each coordinate by its own `Display`.
pub fn print_state<T: Display>(state: &State<T>) -> (row: Row)
    ensures
        printed(*state, row),
{
    Row { x: state.x.to_string(), y: state.y.to_string(), z: state.z.to_string() }
}

/// What is handed back for what the encoder handed out: its value as it
/// is, or its error described.
pub fn outcome<V>(handed: Result<V, csv::Error>) -> (out: Result<V, WriteError>)
    ensures
        match handed {
            Ok(value) => out == Ok::<V, WriteError>(value),
            Err(error) => out matches Err(failure) && describes(error, failure),
        },
{
    match handed {
        Ok(value) => Ok(value),
        Err(error) => Err(give_up(error)),
    }
}

/// Writing, then reading: the text of a table of rows is read back as the
/// header and, row by row, the three strings that were written.
pub proof fn lemma_rows_read_back(rows: Seq<Row>)
    ensures
        parse_table(table_text(records_of(rows))) == records_of(rows),
        parse_table(table_text(records_of(rows))).len() == rows.len() + 1,
        parse_table(table_text(records_of(rows)))[0] == header(),
        forall|i: int|
            #![trigger rows[i]]
            0 <= i < rows.len() ==> {
                let record = parse_table(table_text(records_of(rows)))[i + 1];
                &&& record.len() == 3
                &&& decode_utf8(record[0]) == rows[i].x@
                &&& decode_utf8(record[1]) == rows[i].y@
                &&& decode_utf8(record[2]) == rows[i].z@
            },
{
    let records = records_of(rows);
    lemma_table_round_trip(records);
    assert forall|i: int| #![trigger rows[i]] 0 <= i < rows.len() implies {
        let record = records[i + 1];
        &&& record.len() == 3
        &&& decode_utf8(record[0]) == rows[i].x@
        &&& decode_utf8(record[1]) == rows[i].y@
        &&& decode_utf8(record[2]) == rows[i].z@
    } by {
        encode_utf8_decode_utf8(rows[i].x@);
        encode_utf8_decode_utf8(rows[i].y@);
        encode_utf8_decode_utf8(rows[i].z@);
    }
}

} // verus!
