use crate::error::ConvertError;
use vstd::prelude::*;

verus! {

/// The chat platforms whose exports can be read.
#[derive(Debug, Clone, Copy, PartialEq, Eq, Structural)]
pub enum Platform {
    Telegram,
    WhatsApp,
    Instagram,
    Discord,
}

/// The formats that messages can be rendered in.
#[derive(Debug, Clone, Copy, PartialEq, Eq, Structural)]
pub enum Format {
    Csv,
    Json,
    Jsonl,
}

/// What `str::to_lowercase` returns for the given characters.
pub uninterp spec fn lower_of(s: Seq<char>) -> Seq<char>;

/// Relies on `str::to_lowercase`: the result depends on the characters alone.
#[verifier::external_body]
fn lowercase(s: &str) -> (r: String)
    ensures
        r@ == lower_of(s@),
{
    s.to_lowercase()
}

/// The platform that a lower-case selector names, by canonical name or alias.
pub open spec fn platform_of(t: Seq<char>) -> Option<Platform> {
    if t == "telegram"@ || t == "tg"@ {
        Some(Platform::Telegram)
    } else if t == "whatsapp"@ || t == "wa"@ {
        Some(Platform::WhatsApp)
    } else if t == "instagram"@ || t == "ig"@ {
        Some(Platform::Instagram)
    } else if t == "discord"@ || t == "dc"@ {
        Some(Platform::Discord)
    } else {
        None
    }
}

/// The format that a lower-case selector names.
pub open spec fn format_of(t: Seq<char>) -> Option<Format> {
    if t == "csv"@ {
        Some(Format::Csv)
    } else if t == "json"@ {
        Some(Format::Json)
    } else if t == "jsonl"@ {
        Some(Format::Jsonl)
    } else {
        None
    }
}

fn names(t: &String, name: &str) -> (r: bool)
    ensures
        r == (t@ == name@),
{
    *t == String::from_str(name)
}

/// The platform named by an already lower-cased selector.
pub fn platform_from_lowercase(t: &String) -> (r: Option<Platform>)
    ensures
        r == platform_of(t@),
{
    if names(t, "telegram") || names(t, "tg") {
        Some(Platform::Telegram)
    } else if names(t, "whatsapp") || names(t, "wa") {
        Some(Platform::WhatsApp)
    } else if names(t, "instagram") || names(t, "ig") {
        Some(Platform::Instagram)
    } else if names(t, "discord") || names(t, "dc") {
        Some(Platform::Discord)
    } else {
        None
    }
}

/// The format named by an already lower-cased selector.
pub fn format_from_lowercase(t: &String) -> (r: Option<Format>)
    ensures
        r == format_of(t@),
{
    if names(t, "csv") {
        Some(Format::Csv)
    } else if names(t, "json") {
        Some(Format::Json)
    } else if names(t, "jsonl") {
        Some(Format::Jsonl)
    } else {
        None
    }
}

/// Reads a platform selector, ignoring case; an unknown one is an
/// `UnknownSource` error that holds the selector as given.
pub fn parse_platform(s: &str) -> (r: Result<Platform, ConvertError>)
    ensures
        platform_of(lower_of(s@)) matches Some(p) ==> r == Ok::<Platform, ConvertError>(p),
        platform_of(lower_of(s@)) is None ==> (r matches Err(ConvertError::UnknownSource(v))
            && v@ == s@),
{
    match platform_from_lowercase(&lowercase(s)) {
        Some(p) => Ok(p),
        None => Err(ConvertError::UnknownSource(String::from_str(s))),
    }
}

/// Reads a format selector, ignoring case; an unknown one is an
/// `UnknownFormat` error that holds the selector as given.
pub fn parse_format(s: &str) -> (r: Result<Format, ConvertError>)
    ensures
        format_of(lower_of(s@)) matches Some(f) ==> r == Ok::<Format, ConvertError>(f),
        format_of(lower_of(s@)) is None ==> (r matches Err(ConvertError::UnknownFormat(v))
            && v@ == s@),
{
    match format_from_lowercase(&lowercase(s)) {
        Some(f) => Ok(f),
        None => Err(ConvertError::UnknownFormat(String::from_str(s))),
    }
}

/// Every alias of a platform selects what its canonical name selects, and
/// anything else selects nothing.
pub proof fn lemma_platform_aliases(t: Seq<char>)
    ensures
        platform_of("tg"@) == platform_of("telegram"@),
        platform_of("wa"@) == platform_of("whatsapp"@),
        platform_of("ig"@) == platform_of("instagram"@),
        platform_of("dc"@) == platform_of("discord"@),
        platform_of("telegram"@) == Some(Platform::Telegram),
        platform_of("whatsapp"@) == Some(Platform::WhatsApp),
        platform_of("instagram"@) == Some(Platform::Instagram),
        platform_of("discord"@) == Some(Platform::Discord),
        platform_of(t) is None <==> !(t == "telegram"@ || t == "tg"@ || t == "whatsapp"@
            || t == "wa"@ || t == "instagram"@ || t == "ig"@ || t == "discord"@ || t == "dc"@),
{
    reveal_strlit("tg");
    reveal_strlit("telegram");
    reveal_strlit("wa");
    reveal_strlit("whatsapp");
    reveal_strlit("ig");
    reveal_strlit("instagram");
    reveal_strlit("dc");
    reveal_strlit("discord");
    assert("wa"@[0] != "tg"@[0]);
    assert("ig"@[0] != "tg"@[0] && "ig"@[0] != "wa"@[0]);
    assert("dc"@[0] != "tg"@[0] && "dc"@[0] != "wa"@[0] && "dc"@[0] != "ig"@[0]);
    assert("whatsapp"@[0] != "telegram"@[0]);
    assert("instagram"@.len() != "telegram"@.len() && "instagram"@.len() != "whatsapp"@.len());
    assert("discord"@.len() != "telegram"@.len() && "discord"@.len() != "whatsapp"@.len());
    assert("discord"@.len() != "instagram"@.len());
}

/// A format is selected by its own name only; anything else selects nothing.
pub proof fn lemma_format_names(t: Seq<char>)
    ensures
        format_of("csv"@) == Some(Format::Csv),
        format_of("json"@) == Some(Format::Json),
        format_of("jsonl"@) == Some(Format::Jsonl),
        format_of(t) is None <==> !(t == "csv"@ || t == "json"@ || t == "jsonl"@),
{
    reveal_strlit("csv");
    reveal_strlit("json");
    reveal_strlit("jsonl");
    assert("json"@[0] != "csv"@[0]);
    assert("jsonl"@[0] != "csv"@[0] && "jsonl"@.len() != "json"@.len());
}

} // verus!
