use crate::error::ConvertError;
use crate::json::{object_keys, json_text, jsonl_text, to_json, to_jsonl};
use crate::merge::{merge_consecutive, merged};
use crate::message::{models, valid_timestamp, valid_timestamps, Message, MessageModel, Timestamp};
use crate::output::{csv_record_text, header_fields, row_fields, csv_text, output_of, outputs, to_csv, to_outputs, OutputMessage, OutputModel};
use crate::selector::{format_of, lower_of, parse_format, parse_platform, platform_of, Format, Platform};
use vstd::prelude::*;

verus! {

/// What `chatpack`'s parser for `platform` makes of `input`: the messages,
/// in the order of the export, or `None` where it rejects the input.
pub uninterp spec fn parsed_export(platform: Platform, input: Seq<char>) -> Option<Seq<MessageModel>>;

/// Relies on `chatpack::parser::create_parser(platform).parse_str(input)`:
/// the messages of the export, each timestamp taken apart into seconds and
/// nanoseconds (which `chrono` can always put back together); the error's
/// text where the export is malformed.
#[verifier::external_body]
fn parse_export(input: &str, platform: Platform) -> (r: Result<Vec<Message>, String>)
    ensures
        r is Ok <==> parsed_export(platform, input@) is Some,
        r matches Ok(v) ==> parsed_export(platform, input@) == Some(models(v@)),
        r matches Ok(v) ==> valid_timestamps(v@),
{
    let p = match platform {
        Platform::Telegram => chatpack::parser::Platform::Telegram,
        Platform::WhatsApp => chatpack::parser::Platform::WhatsApp,
        Platform::Instagram => chatpack::parser::Platform::Instagram,
        Platform::Discord => chatpack::parser::Platform::Discord,
    };
    let v = chatpack::parser::create_parser(p).parse_str(input).map_err(|e| e.to_string())?;
    Ok(v.into_iter().map(|m| Message {
        timestamp: m.timestamp.map(|d| Timestamp { secs: d.timestamp(), nanos: d.timestamp_subsec_nanos() }),
        sender: m.sender, content: m.content, id: m.id, reply_to: m.reply_to,
    }).collect())
}

/// The messages of an export: none in an empty one, else what the
/// platform's parser reads.
pub open spec fn parsed(platform: Platform, input: Seq<char>) -> Option<Seq<MessageModel>> {
    if input.len() == 0 {
        Some(Seq::empty())
    } else {
        parsed_export(platform, input)
    }
}

/// Parses an export with the selected platform's parser, keeping the
/// export's order. Empty input is an export without messages; input that the
/// parser cannot read is a `MalformedExport` error.
pub fn parse_messages(input: &str, platform: Platform) -> (r: Result<Vec<Message>, ConvertError>)
    ensures
        r is Ok <==> parsed(platform, input@) is Some,
        r matches Ok(v) ==> parsed(platform, input@) == Some(models(v@)),
        r matches Ok(v) ==> valid_timestamps(v@),
        r matches Err(e) ==> e is MalformedExport,
{
    if input.is_empty() {
        let v: Vec<Message> = Vec::new();
        assert(models(v@) =~= Seq::<MessageModel>::empty());
        return Ok(v);
    }
    match parse_export(input, platform) {
        Ok(v) => Ok(v),
        Err(e) => Err(ConvertError::MalformedExport(e)),
    }
}

/// The rendered forms of the messages under the two field options.
pub open spec fn outputs_of(ms: Seq<MessageModel>, include_timestamps: bool, include_replies: bool) -> Seq<
    OutputModel,
> {
    ms.map_values(|m: MessageModel| output_of(m, include_timestamps, include_replies))
}

/// The text of the messages in the given format.
pub open spec fn rendered(
    format: Format,
    ms: Seq<OutputModel>,
    include_timestamps: bool,
    include_replies: bool,
) -> Seq<char> {
    match format {
        Format::Csv => csv_text(ms, include_timestamps, include_replies),
        Format::Json => json_text(ms),
        Format::Jsonl => jsonl_text(ms),
    }
}

/// The text that a whole conversion gives for parsed messages: merge, then
/// render under the options.
pub open spec fn converted(
    ms: Seq<MessageModel>,
    format: Format,
    include_timestamps: bool,
    include_replies: bool,
) -> Seq<char> {
    rendered(
        format,
        outputs_of(merged(ms), include_timestamps, include_replies),
        include_timestamps,
        include_replies,
    )
}

/// Renders messages in the given format.
pub fn format_output(
    messages: &[OutputMessage],
    format: Format,
    include_timestamps: bool,
    include_replies: bool,
) -> (r: Result<String, String>)
    ensures
        r matches Ok(s) && s@ == rendered(format, outputs(messages@), include_timestamps, include_replies),
{
    match format {
        Format::Csv => to_csv(messages, include_timestamps, include_replies),
        Format::Json => to_json(messages),
        Format::Jsonl => to_jsonl(messages),
    }
}

/// Merges parsed messages and renders them: every stage after parsing.
pub fn render_messages(
    messages: Vec<Message>,
    format: Format,
    include_timestamps: bool,
    include_replies: bool,
) -> (r: Result<String, ConvertError>)
    requires
        valid_timestamps(messages@),
    ensures
        r matches Ok(s) && s@ == converted(models(messages@), format, include_timestamps, include_replies),
{
    let ghost input = models(messages@);
    let merged_messages = merge_consecutive(messages);
    let out = to_outputs(&merged_messages, include_timestamps, include_replies);
    assert(outputs(out@) =~= outputs_of(merged(input), include_timestamps, include_replies));
    match format_output(out.as_slice(), format, include_timestamps, include_replies) {
        Ok(s) => Ok(s),
        Err(e) => Err(ConvertError::Serialization(e)),
    }
}

/// Converts a chat export: reads the selectors (ignoring case), parses the
/// export with the selected platform's parser, merges same-sender runs and
/// renders the result in the selected format. The first failing stage's
/// error is returned.
pub fn convert(
    input: &str,
    source: &str,
    format: &str,
    include_timestamps: bool,
    include_replies: bool,
) -> (r: Result<String, ConvertError>)
    ensures
        platform_of(lower_of(source@)) is None ==> (r matches Err(ConvertError::UnknownSource(v))
            && v@ == source@),
        platform_of(lower_of(source@)) is Some && format_of(lower_of(format@)) is None ==> (r matches Err(
            ConvertError::UnknownFormat(v),
        ) && v@ == format@),
        platform_of(lower_of(source@)) is Some && format_of(lower_of(format@)) is Some
            && parsed(platform_of(lower_of(source@))->0, input@) is Some ==> (r matches Ok(s) && s@
            == converted(
            parsed(platform_of(lower_of(source@))->0, input@)->0,
            format_of(lower_of(format@))->0,
            include_timestamps,
            include_replies,
        )),
        platform_of(lower_of(source@)) is Some && format_of(lower_of(format@)) is Some
            && parsed(platform_of(lower_of(source@))->0, input@) is None ==> (r matches Err(
            ConvertError::MalformedExport(_),
        )),
{
    let platform = parse_platform(source)?;
    let output_format = parse_format(format)?;
    let messages = parse_messages(input, platform)?;
    render_messages(messages, output_format, include_timestamps, include_replies)
}

/// The JSON object of every message has exactly the keys `sender` and
/// `content`, plus `timestamp` when timestamps are on and the message has
/// one that `chrono` can represent, plus `reply_to` when replies are on and the
/// message has a reply link.
pub proof fn lemma_json_keys(m: MessageModel, include_timestamps: bool, include_replies: bool)
    ensures
        object_keys(output_of(m, include_timestamps, include_replies)).contains("sender"@),
        object_keys(output_of(m, include_timestamps, include_replies)).contains("content"@),
        object_keys(output_of(m, include_timestamps, include_replies)).contains("timestamp"@) <==> (
        include_timestamps && m.timestamp is Some && valid_timestamp(m.timestamp->0)),
        object_keys(output_of(m, include_timestamps, include_replies)).contains("reply_to"@) <==> (
        include_replies && m.reply_to is Some),
        forall|k: Seq<char>|
            #[trigger] object_keys(output_of(m, include_timestamps, include_replies)).contains(k)
                ==> k == "timestamp"@ || k == "sender"@ || k == "content"@ || k == "reply_to"@,
{
    reveal_strlit("timestamp");
    reveal_strlit("sender");
    reveal_strlit("content");
    reveal_strlit("reply_to");
    let o = output_of(m, include_timestamps, include_replies);
    let ks = object_keys(o);
    let t: Seq<Seq<char>> = if o.timestamp is Some { seq!["timestamp"@] } else { seq![] };
    assert("timestamp"@[0] != "sender"@[0] && "timestamp"@[0] != "content"@[0]);
    assert("timestamp"@[0] != "reply_to"@[0]);
    assert("reply_to"@[0] != "sender"@[0] && "reply_to"@[0] != "content"@[0]);
    assert(ks[t.len() as int] == "sender"@);
    assert(ks[t.len() as int + 1] == "content"@);
    if o.timestamp is Some {
        assert(ks[0] == "timestamp"@);
    }
    if o.reply_to is Some {
        assert(ks[t.len() as int + 2] == "reply_to"@);
    }
}

/// The CSV header depends on the two options alone: every document made
/// under the same options starts with the same header record, whose columns
/// are `timestamp` (if on), `sender`, `content`, `reply_to` (if on); and every
/// data record has as many cells as the header has columns.
pub proof fn lemma_csv_header_stable(
    a: Seq<OutputModel>,
    b: Seq<OutputModel>,
    m: OutputModel,
    include_timestamps: bool,
    include_replies: bool,
)
    ensures
        csv_text(a, include_timestamps, include_replies).take(
            csv_record_text(header_fields(include_timestamps, include_replies)).len() as int,
        ) == csv_text(b, include_timestamps, include_replies).take(
            csv_record_text(header_fields(include_timestamps, include_replies)).len() as int,
        ),
        csv_text(a, include_timestamps, include_replies).take(
            csv_record_text(header_fields(include_timestamps, include_replies)).len() as int,
        ) == csv_record_text(header_fields(include_timestamps, include_replies)),
        header_fields(include_timestamps, include_replies).len() == 2 + (if include_timestamps {
            1int
        } else {
            0int
        }) + (if include_replies {
            1int
        } else {
            0int
        }),
        row_fields(m, include_timestamps, include_replies).len() == header_fields(
            include_timestamps,
            include_replies,
        ).len(),
{
    let h = csv_record_text(header_fields(include_timestamps, include_replies));
    assert(csv_text(a, include_timestamps, include_replies).take(h.len() as int) =~= h);
    assert(csv_text(b, include_timestamps, include_replies).take(h.len() as int) =~= h);
}

/// An export without messages renders as the bare CSV header, an empty JSON
/// array, or no JSON Lines at all.
pub proof fn lemma_empty_export(platform: Platform, include_timestamps: bool, include_replies: bool)
    ensures
        parsed(platform, Seq::empty()) == Some(Seq::<MessageModel>::empty()),
        converted(Seq::empty(), Format::Csv, include_timestamps, include_replies) == csv_record_text(
            header_fields(include_timestamps, include_replies),
        ),
        converted(Seq::empty(), Format::Json, include_timestamps, include_replies) == "[]"@,
        converted(Seq::empty(), Format::Jsonl, include_timestamps, include_replies)
            == Seq::<char>::empty(),
{
    let e = Seq::<MessageModel>::empty();
    assert(merged(e) == e);
    assert(parsed(platform, Seq::empty()) == Some(e));
    let o = outputs_of(merged(e), include_timestamps, include_replies);
    assert(o =~= Seq::<OutputModel>::empty());
    assert(crate::json::objects(o, false) =~= Seq::<Seq<char>>::empty());
    assert(csv_text(o, include_timestamps, include_replies) =~= csv_record_text(
        header_fields(include_timestamps, include_replies),
    ));
}

/// The library's release version.
pub fn version() -> (r: String)
    ensures
        r@ == "0.1.0"@,
{
    String::from_str("0.1.0")
}

} // verus!
