//! Reading a table back from its text, as a specification, and the proof
//! that it undoes the writing.

use crate::format::{
    escaped, field_text, is_special, joined, needs_quotes, record_text, table_text, COMMA,
    LINE_FEED, QUOTE,
};
use vstd::prelude::*;

verus! {

/// The number of bytes of `text` before its first comma or line feed.
pub open spec fn plain_len(text: Seq<u8>) -> nat
    decreases text.len(),
{
    if text.len() == 0 || text.first() == COMMA || text.first() == LINE_FEED {
        0
    } else {
        1 + plain_len(text.drop_first())
    }
}

/// The content of a quoted field, read from behind its opening quote: the
/// bytes up to the closing quote, with each doubled quote read as one.
pub open spec fn quoted_content(text: Seq<u8>) -> Seq<u8>
    decreases text.len(),
{
    if text.len() == 0 {
        Seq::empty()
    } else if text.first() != QUOTE {
        seq![text.first()] + quoted_content(text.drop_first())
    } else if text.len() >= 2 && text[1] == QUOTE {
        seq![QUOTE] + quoted_content(text.skip(2))
    } else {
        Seq::empty()
    }
}

/// The number of bytes of a quoted field behind its opening quote, the
/// closing quote included.
pub open spec fn quoted_len(text: Seq<u8>) -> nat
    decreases text.len(),
{
    if text.len() == 0 {
        0
    } else if text.first() != QUOTE {
        1 + quoted_len(text.drop_first())
    } else if text.len() >= 2 && text[1] == QUOTE {
        2 + quoted_len(text.skip(2))
    } else {
        1
    }
}

/// The field that `text` begins with.
pub open spec fn field_at(text: Seq<u8>) -> Seq<u8> {
    if text.len() > 0 && text.first() == QUOTE {
        quoted_content(text.drop_first())
    } else {
        text.take(plain_len(text) as int)
    }
}

/// The number of bytes that the field at the beginning of `text` takes.
pub open spec fn field_len(text: Seq<u8>) -> nat {
    if text.len() > 0 && text.first() == QUOTE {
        1 + quoted_len(text.drop_first())
    } else {
        plain_len(text)
    }
}

/// The record that `text` begins with: its fields up to the first line
/// feed outside quotes.
pub open spec fn record_at(text: Seq<u8>) -> Seq<Seq<u8>>
    decreases text.len(),
{
    let n = field_len(text);
    if n < text.len() && text[n as int] == COMMA {
        seq![field_at(text)] + record_at(text.skip(n + 1 as int))
    } else {
        seq![field_at(text)]
    }
}

/// The number of bytes that the record at the beginning of `text` takes,
/// its line feed included.
pub open spec fn record_len(text: Seq<u8>) -> nat
    decreases text.len(),
{
    let n = field_len(text);
    if n < text.len() && text[n as int] == COMMA {
        n + 1 + record_len(text.skip(n + 1 as int))
    } else {
        n + 1
    }
}

/// The records of a table, read from its text.
pub open spec fn parse_table(text: Seq<u8>) -> Seq<Seq<Seq<u8>>>
    decreases text.len(),
{
    if text.len() == 0 {
        Seq::empty()
    } else if record_len(text) >= text.len() {
        seq![record_at(text)]
    } else {
        seq![record_at(text)] + parse_table(text.skip(record_len(text) as int))
    }
}

/// A field without special bytes, written before a comma, a line feed or
/// the end of the text, is as long as it is read.
proof fn lemma_plain_field(field: Seq<u8>, tail: Seq<u8>)
    requires
        !needs_quotes(field),
        tail.len() == 0 || tail.first() == COMMA || tail.first() == LINE_FEED,
    ensures
        plain_len(field + tail) == field.len(),
    decreases field.len(),
{
    if field.len() > 0 {
        let rest = field.drop_first();
        assert forall|i: int| 0 <= i < rest.len() implies !is_special(#[trigger] rest[i]) by {
            assert(rest[i] == field[i + 1]);
        }
        assert((field + tail).drop_first() =~= rest + tail);
        lemma_plain_field(rest, tail);
    }
}

/// A field written in quotes is read back from behind its opening quote
/// as it was, where no quote follows the closing one.
proof fn lemma_quoted_field(field: Seq<u8>, tail: Seq<u8>)
    requires
        tail.len() == 0 || tail.first() != QUOTE,
    ensures
        quoted_content(escaped(field) + seq![QUOTE] + tail) == field,
        quoted_len(escaped(field) + seq![QUOTE] + tail) == escaped(field).len() + 1,
    decreases field.len(),
{
    let text = escaped(field) + seq![QUOTE] + tail;
    if field.len() > 0 {
        let rest = field.drop_first();
        let inner = escaped(rest) + seq![QUOTE] + tail;
        lemma_quoted_field(rest, tail);
        if field.first() == QUOTE {
            assert(text.skip(2) =~= inner);
        } else {
            assert(text.drop_first() =~= inner);
        }
    }
}

/// A field written before a comma or a line feed is read back as it was,
/// and reading it takes exactly the bytes that writing it gave.
pub proof fn lemma_field_round_trip(field: Seq<u8>, tail: Seq<u8>)
    requires
        tail.len() > 0,
        tail.first() == COMMA || tail.first() == LINE_FEED,
    ensures
        field_at(field_text(field) + tail) == field,
        field_len(field_text(field) + tail) == field_text(field).len(),
{
    let text = field_text(field) + tail;
    if needs_quotes(field) {
        assert(text.drop_first() =~= escaped(field) + seq![QUOTE] + tail);
        lemma_quoted_field(field, tail);
    } else {
        lemma_plain_field(field, tail);
    }
}

/// The fields of a line are read back as they were, the empty line as one
/// empty field.
proof fn lemma_joined_round_trip(fields: Seq<Seq<u8>>, after: Seq<u8>)
    requires
        fields.len() >= 1,
    ensures
        record_at(joined(fields) + seq![LINE_FEED] + after) == fields,
        record_len(joined(fields) + seq![LINE_FEED] + after) == joined(fields).len() + 1,
    decreases fields.len(),
{
    let text = joined(fields) + seq![LINE_FEED] + after;
    let head = field_text(fields.first());
    let n = head.len() as int;
    if fields.len() == 1 {
        let tail = seq![LINE_FEED] + after;
        assert(text =~= head + tail);
        lemma_field_round_trip(fields.first(), tail);
    } else {
        let rest = fields.drop_first();
        let inner = joined(rest) + seq![LINE_FEED] + after;
        let tail = seq![COMMA] + inner;
        assert(text =~= head + tail);
        lemma_field_round_trip(fields.first(), tail);
        assert(text.skip(n + 1) =~= inner);
        lemma_joined_round_trip(rest, after);
    }
}

/// Only the record of one empty field gives an empty line.
proof fn lemma_empty_line(fields: Seq<Seq<u8>>)
    requires
        fields.len() >= 1,
        joined(fields).len() == 0,
    ensures
        fields == seq![Seq::<u8>::empty()],
{
    if fields.len() == 1 {
        assert(fields.first() =~= Seq::<u8>::empty());
    }
}

/// A record of at least one field is read back as it was, whatever follows
/// its line feed, and reading it takes exactly the bytes that writing it
/// gave.
pub proof fn lemma_record_round_trip(fields: Seq<Seq<u8>>, after: Seq<u8>)
    requires
        fields.len() >= 1,
    ensures
        record_at(record_text(fields) + after) == fields,
        record_len(record_text(fields) + after) == record_text(fields).len(),
{
    if joined(fields).len() == 0 {
        lemma_empty_line(fields);
    } else {
        lemma_joined_round_trip(fields, after);
    }
}

/// The text of a table of no records is empty, and no other table's is.
proof fn lemma_table_text_is_empty(records: Seq<Seq<Seq<u8>>>)
    ensures
        table_text(records).len() == 0 <==> records.len() == 0,
{
}

/// Reading undoes writing: the records of a table, each of at least one
/// field, are read back from the table's text as they were.
pub proof fn lemma_table_round_trip(records: Seq<Seq<Seq<u8>>>)
    requires
        forall|i: int| 0 <= i < records.len() ==> (#[trigger] records[i]).len() >= 1,
    ensures
        parse_table(table_text(records)) == records,
    decreases records.len(),
{
    if records.len() > 0 {
        let text = table_text(records);
        let rest = records.drop_first();
        let after = table_text(rest);
        lemma_record_round_trip(records.first(), after);
        lemma_table_text_is_empty(rest);
        lemma_table_round_trip(rest);
        assert(text.skip(record_text(records.first()).len() as int) =~= after);
    }
}

} // verus!
