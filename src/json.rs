use crate::output::{joined, outputs, OutputMessage, OutputModel};
use vstd::prelude::*;

verus! {

/// A lower-case hexadecimal digit.
pub open spec fn hex_digit(d: nat) -> char {
    seq!['0', '1', '2', '3', '4', '5', '6', '7', '8', '9', 'a', 'b', 'c', 'd', 'e', 'f'][d as int]
}

/// How one character stands inside a JSON string: the quote and the
/// backslash are escaped, the control characters take their short escape
/// where JSON has one and `\u00XX` otherwise, everything else is unchanged.
pub open spec fn escaped_char(c: char) -> Seq<char> {
    if c == '"' {
        seq!['\\', '"']
    } else if c == '\\' {
        seq!['\\', '\\']
    } else if c == '\u{8}' {
        seq!['\\', 'b']
    } else if c == '\t' {
        seq!['\\', 't']
    } else if c == '\n' {
        seq!['\\', 'n']
    } else if c == '\u{c}' {
        seq!['\\', 'f']
    } else if c == '\r' {
        seq!['\\', 'r']
    } else if (c as u32) < 0x20 {
        seq!['\\', 'u', '0', '0', hex_digit((c as u32 / 16) as nat), hex_digit((c as u32 % 16) as nat)]
    } else {
        seq![c]
    }
}

/// The characters of `s`, each escaped.
pub open spec fn escaped(s: Seq<char>) -> Seq<char>
    decreases s.len(),
{
    if s.len() == 0 {
        s
    } else {
        escaped(s.drop_last()) + escaped_char(s.last())
    }
}

/// The JSON string literal of `s`: its escaped characters between quotes.
pub open spec fn json_string_text(s: Seq<char>) -> Seq<char> {
    seq!['"'] + escaped(s) + seq!['"']
}

/// Relies on `serde_json::to_string` on a `str`: the JSON string literal,
/// escaped as serde_json's escape table says.
/// It writes into a `Vec`, and a string always serialises, so it succeeds.
#[verifier::external_body]
fn json_string(s: &str) -> (r: Result<String, String>)
    ensures
        r is Ok,
        r matches Ok(t) ==> t@ == json_string_text(s@),
{
    serde_json::to_string(s).map_err(|e| e.to_string())
}

/// What opens an object: pretty objects put each key on its own line,
/// indented as an element of a top-level array.
pub open spec fn open_text(pretty: bool) -> Seq<char> {
    if pretty { "{\n    "@ } else { "{"@ }
}

/// What separates two entries of an object.
pub open spec fn sep_text(pretty: bool) -> Seq<char> {
    if pretty { ",\n    "@ } else { ","@ }
}

/// What separates a key from its value.
pub open spec fn colon_text(pretty: bool) -> Seq<char> {
    if pretty { ": "@ } else { ":"@ }
}

/// What closes an object.
pub open spec fn close_text(pretty: bool) -> Seq<char> {
    if pretty { "\n  }"@ } else { "}"@ }
}

/// One `"key": value` entry; `key` is the quoted key.
pub open spec fn entry_text(key: Seq<char>, value: Seq<char>, pretty: bool) -> Seq<char> {
    key + colon_text(pretty) + json_string_text(value)
}

/// The JSON object of a message: `timestamp` if present, `sender`,
/// `content`, `reply_to` if present, in that order; absent fields have no key.
pub open spec fn object_text(m: OutputModel, pretty: bool) -> Seq<char> {
    open_text(pretty) + (match m.timestamp {
        Some(t) => entry_text("\"timestamp\""@, t, pretty) + sep_text(pretty),
        None => Seq::empty(),
    }) + entry_text("\"sender\""@, m.sender, pretty) + sep_text(pretty) + entry_text(
        "\"content\""@,
        m.content,
        pretty,
    ) + (match m.reply_to {
        Some(r) => sep_text(pretty) + entry_text("\"reply_to\""@, r, pretty),
        None => Seq::empty(),
    }) + close_text(pretty)
}

/// The keys of the object of a message, in order, unquoted.
pub open spec fn object_keys(m: OutputModel) -> Seq<Seq<char>> {
    (if m.timestamp is Some { seq!["timestamp"@] } else { seq![] }) + seq!["sender"@, "content"@] + (
    if m.reply_to is Some {
        seq!["reply_to"@]
    } else {
        seq![]
    })
}

/// The objects of the messages.
pub open spec fn objects(ms: Seq<OutputModel>, pretty: bool) -> Seq<Seq<char>> {
    ms.map_values(|m: OutputModel| object_text(m, pretty))
}

/// A pretty-printed JSON array of the messages' objects.
pub open spec fn json_text(ms: Seq<OutputModel>) -> Seq<char> {
    if ms.len() == 0 {
        "[]"@
    } else {
        "[\n  "@ + joined(objects(ms, true), ",\n  "@) + "\n]"@
    }
}

/// One compact JSON object per message, joined by line breaks, with no
/// line break after the last.
pub open spec fn jsonl_text(ms: Seq<OutputModel>) -> Seq<char> {
    joined(objects(ms, false), "\n"@)
}

fn append_entry(out: &mut String, key: &str, value: &String, pretty: bool) -> (r: Result<(), String>)
    ensures
        r is Ok,
        final(out)@ == old(out)@ + entry_text(key@, value@, pretty),
{
    let v = json_string(value.as_str())?;
    out.append(key);
    if pretty {
        out.append(": ");
    } else {
        out.append(":");
    }
    out.append(v.as_str());
    Ok(())
}

fn append_sep(out: &mut String, pretty: bool)
    ensures
        final(out)@ == old(out)@ + sep_text(pretty),
{
    if pretty {
        out.append(",\n    ");
    } else {
        out.append(",");
    }
}

/// Renders one message as a JSON object, pretty-printed as an array element
/// or compact.
pub fn to_json_object(m: &OutputMessage, pretty: bool) -> (r: Result<String, String>)
    ensures
        r matches Ok(s) && s@ == object_text(m@, pretty),
{
    let mut out = if pretty {
        String::from_str("{\n    ")
    } else {
        String::from_str("{")
    };
    let ghost o = m@;
    let ghost a = out@;
    match &m.timestamp {
        Some(t) => {
            append_entry(&mut out, "\"timestamp\"", t, pretty)?;
            append_sep(&mut out, pretty);
        },
        None => {},
    }
    let ghost b = out@;
    append_entry(&mut out, "\"sender\"", &m.sender, pretty)?;
    append_sep(&mut out, pretty);
    append_entry(&mut out, "\"content\"", &m.content, pretty)?;
    let ghost c = out@;
    match &m.reply_to {
        Some(r) => {
            append_sep(&mut out, pretty);
            append_entry(&mut out, "\"reply_to\"", r, pretty)?;
        },
        None => {},
    }
    let ghost d = out@;
    if pretty {
        out.append("\n  }");
    } else {
        out.append("}");
    }
    assert(a == open_text(pretty));
    assert(b =~= a + match o.timestamp {
        Some(t) => entry_text("\"timestamp\""@, t, pretty) + sep_text(pretty),
        None => Seq::empty(),
    });
    assert(d =~= c + match o.reply_to {
        Some(r) => sep_text(pretty) + entry_text("\"reply_to\""@, r, pretty),
        None => Seq::empty(),
    });
    assert(out@ =~= object_text(o, pretty));
    Ok(out)
}

/// Renders the messages as one pretty-printed JSON array.
pub fn to_json(messages: &[OutputMessage]) -> (r: Result<String, String>)
    ensures
        r matches Ok(s) && s@ == json_text(outputs(messages@)),
{
    let ghost objs = objects(outputs(messages@), true);
    let mut out = String::new();
    let mut i: usize = 0;
    while i < messages.len()
        invariant
            i <= messages@.len(),
            objs == objects(outputs(messages@), true),
            objs.len() == messages@.len(),
            out@ == if i == 0 {
                Seq::<char>::empty()
            } else {
                "[\n  "@ + joined(objs.take(i as int), ",\n  "@)
            },
        decreases messages@.len() - i,
    {
        let obj = to_json_object(&messages[i], true)?;
        if i == 0 {
            out.append("[\n  ");
        } else {
            out.append(",\n  ");
        }
        out.append(obj.as_str());
        proof {
            let t = objs.take(i + 1);
            assert(t.drop_last() =~= objs.take(i as int));
            assert(t.last() == obj@);
            if i == 0 {
                assert(joined(t, ",\n  "@) == t[0]);
                assert(out@ =~= "[\n  "@ + joined(t, ",\n  "@));
            } else {
                assert(out@ =~= "[\n  "@ + joined(t, ",\n  "@));
            }
        }
        i = i + 1;
    }
    if i == 0 {
        out = String::from_str("[]");
    } else {
        out.append("\n]");
    }
    proof {
        assert(objs.take(i as int) =~= objs);
        if i == 0 {
            assert(out@ =~= "[]"@);
        } else {
            assert(out@ =~= "[\n  "@ + joined(objs, ",\n  "@) + "\n]"@);
        }
    }
    Ok(out)
}

/// Renders the messages as JSON Lines: one compact object per line, with no
/// line break after the last.
pub fn to_jsonl(messages: &[OutputMessage]) -> (r: Result<String, String>)
    ensures
        r matches Ok(s) && s@ == jsonl_text(outputs(messages@)),
{
    let ghost objs = objects(outputs(messages@), false);
    let mut out = String::new();
    let mut i: usize = 0;
    while i < messages.len()
        invariant
            i <= messages@.len(),
            objs == objects(outputs(messages@), false),
            objs.len() == messages@.len(),
            out@ == joined(objs.take(i as int), "\n"@),
        decreases messages@.len() - i,
    {
        let obj = to_json_object(&messages[i], false)?;
        if i > 0 {
            out.append("\n");
        }
        out.append(obj.as_str());
        proof {
            let t = objs.take(i + 1);
            assert(t.drop_last() =~= objs.take(i as int));
            assert(t.last() == obj@);
            if i == 0 {
                assert(joined(objs.take(0), "\n"@) == Seq::<char>::empty());
                assert(out@ =~= joined(t, "\n"@));
            } else {
                assert(out@ =~= joined(t, "\n"@));
            }
        }
        i = i + 1;
    }
    assert(objs.take(i as int) =~= objs);
    Ok(out)
}

} // verus!
