use crate::message::{datetime_text, render_timestamp, Message, MessageModel};
use vstd::prelude::*;

verus! {

/// A message as it is rendered: absent fields are left out of JSON and
/// rendered empty in CSV.
#[derive(Debug, Clone, PartialEq, Eq)]
pub struct OutputMessage {
    pub timestamp: Option<String>,
    pub sender: String,
    pub content: String,
    pub reply_to: Option<String>,
}

/// Mathematical model of an [`OutputMessage`].
pub struct OutputModel {
    pub timestamp: Option<Seq<char>>,
    pub sender: Seq<char>,
    pub content: Seq<char>,
    pub reply_to: Option<Seq<char>>,
}

impl View for OutputMessage {
    type V = OutputModel;

    open spec fn view(&self) -> OutputModel {
        OutputModel {
            timestamp: crate::message::opt_text(self.timestamp),
            sender: self.sender@,
            content: self.content@,
            reply_to: crate::message::opt_text(self.reply_to),
        }
    }
}

/// The models of a sequence of output messages.
pub open spec fn outputs(v: Seq<OutputMessage>) -> Seq<OutputModel> {
    v.map_values(|m: OutputMessage| m@)
}

/// The character of a decimal digit.
pub open spec fn digit(d: nat) -> char {
    seq!['0', '1', '2', '3', '4', '5', '6', '7', '8', '9'][d as int]
}

/// The decimal digits of `n`, without leading zeros.
pub open spec fn decimal_text(n: nat) -> Seq<char>
    decreases n,
{
    if n < 10 {
        seq![digit(n)]
    } else {
        decimal_text(n / 10).push(digit(n % 10))
    }
}

/// Relies on `u64`'s `Display` (through `ToString`): decimal digits without
/// leading zeros.
#[verifier::external_body]
fn decimal(n: u64) -> (r: String)
    ensures
        r@ == decimal_text(n as nat),
{
    n.to_string()
}

/// The rendered form of a message under the two field options; a moment
/// that cannot be represented is left out.
pub open spec fn output_of(m: MessageModel, include_timestamps: bool, include_replies: bool) -> OutputModel {
    OutputModel {
        timestamp: if include_timestamps && m.timestamp is Some {
            datetime_text(m.timestamp->0.secs, m.timestamp->0.nanos)
        } else {
            None
        },
        sender: m.sender,
        content: m.content,
        reply_to: if include_replies && m.reply_to is Some {
            Some(decimal_text(m.reply_to->0 as nat))
        } else {
            None
        },
    }
}

impl OutputMessage {
    /// Keeps the timestamp and the reply link (as decimal text) only where
    /// their option is on and the message has them.
    pub fn from_message(msg: &Message, include_timestamps: bool, include_replies: bool) -> (r: Self)
        ensures
            r@ == output_of(msg@, include_timestamps, include_replies),
    {
        let timestamp = if include_timestamps {
            match msg.timestamp {
                Some(t) => render_timestamp(t),
                None => None,
            }
        } else {
            None
        };
        let reply_to = if include_replies {
            match msg.reply_to {
                Some(id) => Some(decimal(id)),
                None => None,
            }
        } else {
            None
        };
        OutputMessage {
            timestamp,
            sender: msg.sender.clone(),
            content: msg.content.clone(),
            reply_to,
        }
    }
}

/// Renders every message under the two field options, in order.
pub fn to_outputs(messages: &Vec<Message>, include_timestamps: bool, include_replies: bool) -> (r: Vec<
    OutputMessage,
>)
    ensures
        r@.len() == messages@.len(),
        forall|i: int|
            0 <= i < r@.len() ==> #[trigger] r@[i]@ == output_of(
                messages@[i]@,
                include_timestamps,
                include_replies,
            ),
{
    let mut r: Vec<OutputMessage> = Vec::new();
    let mut i: usize = 0;
    while i < messages.len()
        invariant
            i <= messages@.len(),
            r@.len() == i,
            forall|k: int|
                0 <= k < i ==> #[trigger] r@[k]@ == output_of(
                    messages@[k]@,
                    include_timestamps,
                    include_replies,
                ),
        decreases messages@.len() - i,
    {
        r.push(OutputMessage::from_message(&messages[i], include_timestamps, include_replies));
        i = i + 1;
    }
    r
}

// ---------------------------------------------------------------- CSV

/// The parts joined by `sep`.
pub open spec fn joined(parts: Seq<Seq<char>>, sep: Seq<char>) -> Seq<char>
    decreases parts.len(),
{
    if parts.len() == 0 {
        Seq::empty()
    } else if parts.len() == 1 {
        parts[0]
    } else {
        joined(parts.drop_last(), sep) + sep + parts.last()
    }
}

/// Whether a CSV field must be quoted: it holds a comma, a quote or a line
/// break.
pub open spec fn needs_quotes(f: Seq<char>) -> bool {
    f.contains(',') || f.contains('"') || f.contains('\r') || f.contains('\n')
}

/// The field with each quote doubled.
pub open spec fn doubled_quotes(f: Seq<char>) -> Seq<char>
    decreases f.len(),
{
    if f.len() == 0 {
        f
    } else {
        doubled_quotes(f.drop_last()) + if f.last() == '"' {
            seq!['"', '"']
        } else {
            seq![f.last()]
        }
    }
}

/// How a field stands in a CSV record: quoted, with its quotes doubled,
/// where it must be; else as it is.
pub open spec fn csv_field(f: Seq<char>) -> Seq<char> {
    if needs_quotes(f) {
        seq!['"'] + doubled_quotes(f) + seq!['"']
    } else {
        f
    }
}

/// One CSV record of two or more fields: the fields separated by commas,
/// then a line break.
pub open spec fn csv_record_text(fields: Seq<Seq<char>>) -> Seq<char> {
    joined(fields.map_values(|f: Seq<char>| csv_field(f)), seq![',']) + seq!['\n']
}

/// The characters of each string.
pub open spec fn texts(v: Seq<String>) -> Seq<Seq<char>> {
    v.map_values(|s: String| s@)
}

/// Relies on `csv::Writer::write_record` (into a fresh writer over a byte
/// vector) under its default settings: necessary quoting, `,` between fields,
/// `\n` after the record. A single record written into a `Vec` cannot fail,
/// and the bytes are the UTF-8 fields with ASCII quotes, separators and
/// terminator, so the text is valid. (A record of one empty field is written
/// differently, so two fields at least are asked for.)
#[verifier::external_body]
fn csv_record(fields: &Vec<String>) -> (r: Result<String, String>)
    requires
        fields@.len() >= 2,
    ensures
        r is Ok,
        r matches Ok(s) ==> s@ == csv_record_text(texts(fields@)),
{
    let mut w = csv::Writer::from_writer(Vec::new());
    w.write_record(fields).map_err(|e| e.to_string())?;
    let bytes = w.into_inner().map_err(|e| e.to_string())?;
    String::from_utf8(bytes).map_err(|e| e.to_string())
}

/// The CSV header: `timestamp` if timestamps are on, then `sender` and
/// `content`, then `reply_to` if replies are on.
pub open spec fn header_fields(include_timestamps: bool, include_replies: bool) -> Seq<Seq<char>> {
    (if include_timestamps { seq!["timestamp"@] } else { seq![] }) + seq!["sender"@, "content"@] + (
    if include_replies {
        seq!["reply_to"@]
    } else {
        seq![]
    })
}

/// An optional field as a CSV cell: absent renders empty.
pub open spec fn cell(o: Option<Seq<char>>) -> Seq<char> {
    match o {
        Some(s) => s,
        None => Seq::empty(),
    }
}

/// The CSV cells of one message, in the header's order.
pub open spec fn row_fields(m: OutputModel, include_timestamps: bool, include_replies: bool) -> Seq<Seq<char>> {
    (if include_timestamps { seq![cell(m.timestamp)] } else { seq![] }) + seq![m.sender, m.content] + (
    if include_replies {
        seq![cell(m.reply_to)]
    } else {
        seq![]
    })
}

/// The data records of a CSV document.
pub open spec fn csv_rows(ms: Seq<OutputModel>, include_timestamps: bool, include_replies: bool) -> Seq<char>
    decreases ms.len(),
{
    if ms.len() == 0 {
        Seq::empty()
    } else {
        csv_rows(ms.drop_last(), include_timestamps, include_replies) + csv_record_text(
            row_fields(ms.last(), include_timestamps, include_replies),
        )
    }
}

/// A CSV document: the header record, then one record per message.
pub open spec fn csv_text(ms: Seq<OutputModel>, include_timestamps: bool, include_replies: bool) -> Seq<char> {
    csv_record_text(header_fields(include_timestamps, include_replies)) + csv_rows(
        ms,
        include_timestamps,
        include_replies,
    )
}

fn optional_cell(o: &Option<String>) -> (r: String)
    ensures
        r@ == cell(crate::message::opt_text(*o)),
{
    match o {
        Some(s) => s.clone(),
        None => String::new(),
    }
}

/// Renders messages as CSV with a header whose columns follow the options.
pub fn to_csv(messages: &[OutputMessage], include_timestamps: bool, include_replies: bool) -> (r:
    Result<String, String>)
    ensures
        r matches Ok(s) && s@ == csv_text(outputs(messages@), include_timestamps, include_replies),
{
    let mut headers: Vec<String> = Vec::new();
    if include_timestamps {
        headers.push(String::from_str("timestamp"));
    }
    headers.push(String::from_str("sender"));
    headers.push(String::from_str("content"));
    if include_replies {
        headers.push(String::from_str("reply_to"));
    }
    assert(texts(headers@) =~= header_fields(include_timestamps, include_replies));
    assert(headers@.len() == texts(headers@).len());
    let mut out = csv_record(&headers)?;
    let ghost ms = outputs(messages@);
    let mut i: usize = 0;
    while i < messages.len()
        invariant
            i <= messages@.len(),
            ms == outputs(messages@),
            out@ == csv_record_text(header_fields(include_timestamps, include_replies)) + csv_rows(
                ms.take(i as int),
                include_timestamps,
                include_replies,
            ),
        decreases messages@.len() - i,
    {
        let msg = &messages[i];
        let mut record: Vec<String> = Vec::new();
        if include_timestamps {
            record.push(optional_cell(&msg.timestamp));
        }
        record.push(msg.sender.clone());
        record.push(msg.content.clone());
        if include_replies {
            record.push(optional_cell(&msg.reply_to));
        }
        assert(texts(record@) =~= row_fields(ms[i as int], include_timestamps, include_replies));
        assert(record@.len() == texts(record@).len());
        let line = csv_record(&record)?;
        out.append(line.as_str());
        assert(ms.take(i + 1).drop_last() =~= ms.take(i as int));
        assert(out@ =~= csv_record_text(header_fields(include_timestamps, include_replies)) + csv_rows(
            ms.take(i + 1),
            include_timestamps,
            include_replies,
        ));
        i = i + 1;
    }
    assert(ms.take(messages@.len() as int) =~= ms);
    Ok(out)
}

} // verus!
