use vstd::prelude::*;
use crate::record::{Record, RecordView, views};
use crate::text::{decimal_text, render_i32};

verus! {

/// The character that writes the number `d` in hexadecimal, in lower case, for
/// `d` below sixteen.
pub open spec fn hex_digit(d: nat) -> char {
    if d < 10 {
        ((d + 48) as u8) as char
    } else {
        ((d + 87) as u8) as char
    }
}

/// How one character stands inside a JSON string: the double quote and the
/// backslash behind a backslash; backspace, tab, line feed, form feed and
/// carriage return as `\b`, `\t`, `\n`, `\f`, `\r`; every other character
/// below the space as `\u00` and its two hexadecimal digits; any other
/// character as it is.
pub open spec fn escaped_char(c: char) -> Seq<char> {
    if c == '"' {
        seq!['\\', '"']
    } else if c == '\\' {
        seq!['\\', '\\']
    } else if c == '\u{8}' {
        seq!['\\', 'b']
    } else if c == '\t' {
        seq!['\\', 't']
    } else if c == '\n' {
        seq!['\\', 'n']
    } else if c == '\u{c}' {
        seq!['\\', 'f']
    } else if c == '\r' {
        seq!['\\', 'r']
    } else if (c as nat) < 32 {
        seq!['\\', 'u', '0', '0', hex_digit(c as nat / 16), hex_digit(c as nat % 16)]
    } else {
        seq![c]
    }
}

/// The characters of `text` as they stand inside a JSON string.
pub open spec fn escaped(text: Seq<char>) -> Seq<char>
    decreases text.len(),
{
    if text.len() == 0 {
        Seq::empty()
    } else {
        escaped(text.drop_last()) + escaped_char(text.last())
    }
}

/// The JSON text of a string: its characters, escaped, between double quotes.
pub open spec fn json_string(text: Seq<char>) -> Seq<char> {
    seq!['"'] + escaped(text) + seq!['"']
}

/// Whether a character stands in a JSON string as it is.
pub open spec fn is_plain(c: char) -> bool {
    c != '"' && c != '\\' && (c as nat) >= 32
}

/// A text of plain characters is written as it is, between double quotes.
pub proof fn lemma_plain_text_is_quoted_unchanged(text: Seq<char>)
    requires
        forall|i: int| 0 <= i < text.len() ==> is_plain(#[trigger] text[i]),
    ensures
        escaped(text) == text,
        json_string(text) == seq!['"'] + text + seq!['"'],
    decreases text.len(),
{
    if text.len() == 0 {
        assert(escaped(text) =~= text);
    } else {
        lemma_plain_text_is_quoted_unchanged(text.drop_last());
        assert(is_plain(text.last()));
        assert(escaped_char(text.last()) == seq![text.last()]);
        assert(text.drop_last() + seq![text.last()] =~= text);
    }
}

/// Writes a string as JSON with `serde_json::to_string`. On a string that
/// function has no failing branch: it writes a double quote, the characters
/// with those of its escape table replaced as `escaped_char` says, and a double
/// quote, into a buffer in memory.
#[verifier::external_body]
fn quote(text: &str) -> (quoted: Option<String>)
    ensures
        quoted is Some,
        quoted->Some_0@ == json_string(text@),
{
    serde_json::to_string(text).ok()
}

/// The JSON object of a record, given its id and the JSON texts of its two
/// strings.
pub open spec fn record_text(id: int, date_json: Seq<char>, message_json: Seq<char>) -> Seq<
    char,
> {
    "{\"id\":"@ + decimal_text(id) + ",\"date\":"@ + date_json + ",\"message\":"@ + message_json
        + "}"@
}

/// The JSON object of a record: its fields in the order `id`, `date`, `message`.
pub open spec fn record_json(record: RecordView) -> Seq<char> {
    record_text(record.id, json_string(record.date), json_string(record.message))
}

/// The given texts with a comma between each two neighbours.
pub open spec fn joined(items: Seq<Seq<char>>) -> Seq<char>
    decreases items.len(),
{
    if items.len() == 0 {
        Seq::empty()
    } else if items.len() == 1 {
        items[0]
    } else {
        joined(items.drop_last()) + ","@ + items.last()
    }
}

/// The JSON array of the given JSON texts.
pub open spec fn array_text(items: Seq<Seq<char>>) -> Seq<char> {
    "["@ + joined(items) + "]"@
}

/// The JSON array of a list of records, in the list's order.
pub open spec fn records_json(records: Seq<RecordView>) -> Seq<char> {
    array_text(records.map_values(|r: RecordView| record_json(r)))
}

/// The views of a list of strings, in the list's order.
pub open spec fn text_views(texts: Seq<String>) -> Seq<Seq<char>> {
    texts.map_values(|t: String| t@)
}

/// Writes the JSON object of a record from its id and the JSON texts of its two
/// strings.
pub fn write_record(id: i32, date_json: &str, message_json: &str) -> (text: String)
    ensures
        text@ == record_text(id as int, date_json@, message_json@),
{
    let mut text = String::from_str("{\"id\":");
    let number = render_i32(id);
    text.append(number.as_str());
    text.append(",\"date\":");
    text.append(date_json);
    text.append(",\"message\":");
    text.append(message_json);
    text.append("}");
    text
}

/// Writes the JSON array of the given JSON texts.
pub fn write_array(items: &Vec<String>) -> (text: String)
    ensures
        text@ == array_text(text_views(items@)),
{
    let ghost all = text_views(items@);
    let mut text = String::from_str("[");
    let mut i: usize = 0;
    while i < items.len()
        invariant
            i <= items.len(),
            all == text_views(items@),
            text@ == "["@ + joined(all.subrange(0, i as int)),
        decreases items.len() - i,
    {
        proof {
            assert(all.subrange(0, i + 1).drop_last() =~= all.subrange(0, i as int));
            assert(all.subrange(0, i + 1).last() == items[i as int]@);
        }
        if i > 0 {
            text.append(",");
        }
        text.append(items[i].as_str());
        assert(text@ =~= "["@ + joined(all.subrange(0, i + 1)));
        i = i + 1;
    }
    assert(all.subrange(0, i as int) =~= all);
    text.append("]");
    text
}

/// Writes a record as a JSON object.
pub fn render_record(record: &Record) -> (text: String)
    ensures
        text@ == record_json(record@),
{
    let date = quote(record.date.as_str()).unwrap();
    let message = quote(record.message.as_str()).unwrap();
    write_record(record.id, date.as_str(), message.as_str())
}

/// Writes a list of records as a JSON array, in the list's order.
pub fn render_records(records: &Vec<Record>) -> (text: String)
    ensures
        text@ == records_json(views(records@)),
{
    let ghost all = views(records@);
    let mut items: Vec<String> = Vec::new();
    let mut i: usize = 0;
    while i < records.len()
        invariant
            i <= records.len(),
            all == views(records@),
            items.len() == i,
            forall|j: int| 0 <= j < i ==> record_json(all[j]) == #[trigger] items[j]@,
        decreases records.len() - i,
    {
        items.push(render_record(&records[i]));
        i = i + 1;
    }
    assert(text_views(items@) =~= all.map_values(|r: RecordView| record_json(r)));
    write_array(&items)
}

} // verus!
