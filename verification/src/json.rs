//! The JSON wire representation of changelog entries.
//!
//! The spec functions here define, character by character, the body of every
//! successful HTTP response: an object per entry with its fields in
//! declaration order, strings escaped as JSON asks (quote, backslash, and
//! control characters), timestamps rendered as RFC 3339 strings.

use vstd::prelude::*;
use crate::models::{Entry, EntryView};
use crate::timestamp::{rfc3339_of, rfc3339_of_micros, MAX_TIMESTAMP_MICROS};

verus! {

/// One lower-case hexadecimal digit.
pub open spec fn hex_digit_seq(d: int) -> Seq<char> {
    if d == 0 {
        "0"@
    } else if d == 1 {
        "1"@
    } else if d == 2 {
        "2"@
    } else if d == 3 {
        "3"@
    } else if d == 4 {
        "4"@
    } else if d == 5 {
        "5"@
    } else if d == 6 {
        "6"@
    } else if d == 7 {
        "7"@
    } else if d == 8 {
        "8"@
    } else if d == 9 {
        "9"@
    } else if d == 10 {
        "a"@
    } else if d == 11 {
        "b"@
    } else if d == 12 {
        "c"@
    } else if d == 13 {
        "d"@
    } else if d == 14 {
        "e"@
    } else {
        "f"@
    }
}

/// How one character appears inside a JSON string literal: quote and
/// backslash escaped, the named control characters by their short escapes,
/// any other control character as `\u00XX`, everything else as itself.
pub open spec fn escape_char(c: char) -> Seq<char> {
    if c == '"' {
        "\\\""@
    } else if c == '\\' {
        "\\\\"@
    } else if c == '\u{8}' {
        "\\b"@
    } else if c == '\t' {
        "\\t"@
    } else if c == '\n' {
        "\\n"@
    } else if c == '\u{c}' {
        "\\f"@
    } else if c == '\r' {
        "\\r"@
    } else if (c as int) < 0x20 {
        "\\u00"@ + hex_digit_seq((c as int) / 16) + hex_digit_seq((c as int) % 16)
    } else {
        seq![c]
    }
}

/// A whole string with every character escaped.
pub open spec fn escape_string(s: Seq<char>) -> Seq<char>
    decreases s.len(),
{
    if s.len() == 0 {
        Seq::<char>::empty()
    } else {
        escape_string(s.drop_last()) + escape_char(s.last())
    }
}

/// A JSON string literal: the escaped text between double quotes.
pub open spec fn json_string(s: Seq<char>) -> Seq<char> {
    "\""@ + escape_string(s) + "\""@
}

/// The comma-separated JSON string literals of a list, without brackets.
pub open spec fn json_string_items(ss: Seq<Seq<char>>) -> Seq<char>
    decreases ss.len(),
{
    if ss.len() == 0 {
        Seq::<char>::empty()
    } else if ss.len() == 1 {
        json_string(ss[0])
    } else {
        json_string_items(ss.drop_last()) + ","@ + json_string(ss.last())
    }
}

/// A JSON array of strings.
pub open spec fn json_string_array(ss: Seq<Seq<char>>) -> Seq<char> {
    "["@ + json_string_items(ss) + "]"@
}

/// The JSON object for one entry, fields in declaration order, timestamps
/// as RFC 3339 strings.
pub open spec fn json_of_entry(e: EntryView) -> Seq<char> {
    "{\"id\":"@ + json_string(e.id) + ",\"tags\":"@ + json_string_array(e.tags) + ",\"text\":"@
        + json_string(e.text) + ",\"created_at\":"@ + json_string(rfc3339_of(e.created_at))
        + ",\"updated_at\":"@ + json_string(rfc3339_of(e.updated_at)) + "}"@
}

/// The comma-separated JSON objects of a changelog, without brackets.
pub open spec fn json_entry_items(s: Seq<EntryView>) -> Seq<char>
    decreases s.len(),
{
    if s.len() == 0 {
        Seq::<char>::empty()
    } else if s.len() == 1 {
        json_of_entry(s[0])
    } else {
        json_entry_items(s.drop_last()) + ","@ + json_of_entry(s.last())
    }
}

/// A JSON array holding a whole changelog.
pub open spec fn json_of_entries(s: Seq<EntryView>) -> Seq<char> {
    "["@ + json_entry_items(s) + "]"@
}

/// An entry whose timestamps the wire format can render.
pub open spec fn renderable(e: EntryView) -> bool {
    &&& 0 < e.created_at <= MAX_TIMESTAMP_MICROS as int
    &&& 0 < e.updated_at <= MAX_TIMESTAMP_MICROS as int
}

fn hex_digit_str(d: u32) -> (r: &'static str)
    requires
        d < 16,
    ensures
        r@ == hex_digit_seq(d as int),
{
    match d {
        0 => "0",
        1 => "1",
        2 => "2",
        3 => "3",
        4 => "4",
        5 => "5",
        6 => "6",
        7 => "7",
        8 => "8",
        9 => "9",
        10 => "a",
        11 => "b",
        12 => "c",
        13 => "d",
        14 => "e",
        _ => "f",
    }
}

/// Appends `s` to `out` with every character escaped.
fn append_escaped(out: &mut String, s: &str)
    ensures
        final(out)@ == old(out)@ + escape_string(s@),
{
    let ghost init = out@;
    let n = s.unicode_len();
    let mut i: usize = 0;
    while i < n
        invariant
            n == s@.len(),
            i <= n,
            out@ == init + escape_string(s@.subrange(0, i as int)),
        decreases n - i,
    {
        let c = s.get_char(i);
        let ghost pre = s@.subrange(0, i as int);
        if c == '"' {
            out.append("\\\"");
        } else if c == '\\' {
            out.append("\\\\");
        } else if c == '\u{8}' {
            out.append("\\b");
        } else if c == '\t' {
            out.append("\\t");
        } else if c == '\n' {
            out.append("\\n");
        } else if c == '\u{c}' {
            out.append("\\f");
        } else if c == '\r' {
            out.append("\\r");
        } else if (c as u32) < 0x20 {
            let code = c as u32;
            out.append("\\u00");
            out.append(hex_digit_str(code / 16));
            out.append(hex_digit_str(code % 16));
        } else {
            let piece = s.substring_char(i, i + 1);
            proof {
                assert(piece@ =~= seq![c]);
            }
            out.append(piece);
        }
        proof {
            assert(s@.subrange(0, i as int + 1) =~= pre.push(c));
            assert(pre.push(c).drop_last() =~= pre);
            assert(escape_string(pre.push(c)) == escape_string(pre) + escape_char(c));
            assert(out@ =~= init + escape_string(s@.subrange(0, i as int + 1)));
        }
        i = i + 1;
    }
    proof {
        assert(s@.subrange(0, n as int) =~= s@);
    }
}

/// Appends the JSON string literal for `s` to `out`.
fn append_json_string(out: &mut String, s: &str)
    ensures
        final(out)@ == old(out)@ + json_string(s@),
{
    out.append("\"");
    append_escaped(out, s);
    out.append("\"");
    proof {
        assert(out@ =~= old(out)@ + json_string(s@));
    }
}

/// Appends the JSON array of the given strings to `out`.
fn append_string_array(out: &mut String, items: &Vec<String>)
    ensures
        final(out)@ == old(out)@ + json_string_array(items.deep_view()),
{
    let ghost init = out@;
    let ghost dv = items.deep_view();
    out.append("[");
    let mut i: usize = 0;
    while i < items.len()
        invariant
            i <= items.len(),
            dv == items.deep_view(),
            dv.len() == items@.len(),
            out@ == init + "["@ + json_string_items(dv.subrange(0, i as int)),
        decreases items.len() - i,
    {
        if i > 0 {
            out.append(",");
        }
        append_json_string(out, items[i].as_str());
        proof {
            let pre = dv.subrange(0, i as int);
            let x = dv[i as int];
            assert(x == items@[i as int]@);
            assert(dv.subrange(0, i as int + 1) =~= pre.push(x));
            assert(pre.push(x).drop_last() =~= pre);
            if i == 0 {
                assert(json_string_items(pre.push(x)) == json_string(x));
            } else {
                assert(json_string_items(pre.push(x)) == json_string_items(pre) + ","@
                    + json_string(x));
            }
            assert(out@ =~= init + "["@ + json_string_items(dv.subrange(0, i as int + 1)));
        }
        i = i + 1;
    }
    out.append("]");
    proof {
        assert(dv.subrange(0, dv.len() as int) =~= dv);
        assert(out@ =~= init + json_string_array(dv));
    }
}

/// Appends the JSON object for one entry to `out`.
fn append_entry_json(out: &mut String, e: &Entry)
    requires
        renderable(e@),
    ensures
        final(out)@ == old(out)@ + json_of_entry(e@),
{
    out.append("{\"id\":");
    append_json_string(out, e.id.as_str());
    out.append(",\"tags\":");
    append_string_array(out, &e.tags);
    out.append(",\"text\":");
    append_json_string(out, e.text.as_str());
    out.append(",\"created_at\":");
    let created = rfc3339_of_micros(e.created_at);
    append_json_string(out, created.as_str());
    out.append(",\"updated_at\":");
    let updated = rfc3339_of_micros(e.updated_at);
    append_json_string(out, updated.as_str());
    out.append("}");
    proof {
        assert(out@ =~= old(out)@ + json_of_entry(e@));
    }
}

/// The response body for one entry.
pub fn render_entry(e: &Entry) -> (r: String)
    requires
        renderable(e@),
    ensures
        r@ == json_of_entry(e@),
{
    let mut out = String::new();
    append_entry_json(&mut out, e);
    proof {
        assert(out@ =~= json_of_entry(e@));
    }
    out
}

/// The response body for a whole changelog, in the order given.
pub fn render_entries(entries: &Vec<Entry>) -> (r: String)
    requires
        forall|i: int| 0 <= i < entries@.len() ==> renderable(#[trigger] entries@[i]@),
    ensures
        r@ == json_of_entries(crate::repository::entries_view(entries@)),
{
    let ghost vs = crate::repository::entries_view(entries@);
    let mut out = String::new();
    out.append("[");
    let mut i: usize = 0;
    while i < entries.len()
        invariant
            i <= entries.len(),
            vs == crate::repository::entries_view(entries@),
            vs.len() == entries@.len(),
            forall|k: int| 0 <= k < entries@.len() ==> renderable(#[trigger] entries@[k]@),
            out@ == "["@ + json_entry_items(vs.subrange(0, i as int)),
        decreases entries.len() - i,
    {
        if i > 0 {
            out.append(",");
        }
        append_entry_json(&mut out, &entries[i]);
        proof {
            let pre = vs.subrange(0, i as int);
            let x = vs[i as int];
            assert(x == entries@[i as int]@);
            assert(vs.subrange(0, i as int + 1) =~= pre.push(x));
            assert(pre.push(x).drop_last() =~= pre);
            if i == 0 {
                assert(json_entry_items(pre.push(x)) == json_of_entry(x));
            } else {
                assert(json_entry_items(pre.push(x)) == json_entry_items(pre) + ","@
                    + json_of_entry(x));
            }
            assert(out@ =~= "["@ + json_entry_items(vs.subrange(0, i as int + 1)));
        }
        i = i + 1;
    }
    out.append("]");
    proof {
        assert(vs.subrange(0, vs.len() as int) =~= vs);
        assert(out@ =~= json_of_entries(vs));
    }
    out
}

} // verus!
