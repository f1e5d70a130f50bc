//! The text format of a table: comma-separated fields, one record per
//! line, quotes where a field would otherwise be misread.

use vstd::prelude::*;

verus! {

/// The byte `,`, which separates two fields.
pub const COMMA: u8 = 44;

/// The byte `"`, which encloses a field that needs it.
pub const QUOTE: u8 = 34;

/// The byte that ends a record.
pub const LINE_FEED: u8 = 10;

/// The byte that a reader may take for the end of a record.
pub const CARRIAGE_RETURN: u8 = 13;

/// The bytes that cannot stand in a field as they are: the separator, the
/// quote and the two line breaks.
pub open spec fn is_special(byte: u8) -> bool {
    byte == COMMA || byte == QUOTE || byte == LINE_FEED || byte == CARRIAGE_RETURN
}

/// A field is written in quotes where it holds a special byte.
pub open spec fn needs_quotes(field: Seq<u8>) -> bool {
    exists|i: int| 0 <= i < field.len() && is_special(#[trigger] field[i])
}

/// The field with every quote doubled.
pub open spec fn escaped(field: Seq<u8>) -> Seq<u8>
    decreases field.len(),
{
    if field.len() == 0 {
        Seq::empty()
    } else if field.first() == QUOTE {
        seq![QUOTE, QUOTE] + escaped(field.drop_first())
    } else {
        seq![field.first()] + escaped(field.drop_first())
    }
}

/// The text of one field: the field itself, or, where it needs quotes, the
/// field between two quotes with its own quotes doubled.
pub open spec fn field_text(field: Seq<u8>) -> Seq<u8> {
    if needs_quotes(field) {
        seq![QUOTE] + escaped(field) + seq![QUOTE]
    } else {
        field
    }
}

/// The texts of the fields with a comma between each two.
pub open spec fn joined(fields: Seq<Seq<u8>>) -> Seq<u8>
    decreases fields.len(),
{
    if fields.len() == 0 {
        Seq::empty()
    } else if fields.len() == 1 {
        field_text(fields.first())
    } else {
        field_text(fields.first()) + seq![COMMA] + joined(fields.drop_first())
    }
}

/// The text of one record: its fields joined, then a line feed. A record
/// that would otherwise be an empty line (no field, or one empty field) is
/// written as a pair of quotes.
pub open spec fn record_text(fields: Seq<Seq<u8>>) -> Seq<u8> {
    if joined(fields).len() == 0 {
        seq![QUOTE, QUOTE, LINE_FEED]
    } else {
        joined(fields) + seq![LINE_FEED]
    }
}

/// The text of a table: the texts of its records, one after the other.
pub open spec fn table_text(records: Seq<Seq<Seq<u8>>>) -> Seq<u8>
    decreases records.len(),
{
    if records.len() == 0 {
        Seq::empty()
    } else {
        record_text(records.first()) + table_text(records.drop_first())
    }
}

/// Appending a record to a table appends its text to the table's text.
pub proof fn lemma_table_text_push(records: Seq<Seq<Seq<u8>>>, record: Seq<Seq<u8>>)
    ensures
        table_text(records.push(record)) == table_text(records) + record_text(record),
    decreases records.len(),
{
    if records.len() == 0 {
        assert(table_text(records.push(record).drop_first()) =~= Seq::<u8>::empty());
    } else {
        lemma_table_text_push(records.drop_first(), record);
        assert(records.push(record).drop_first() =~= records.drop_first().push(record));
    }
}

} // verus!
