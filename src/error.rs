use vstd::prelude::*;

verus! {

/// Why a conversion failed, tagged with the stage that failed.
#[derive(Debug, Clone, PartialEq, Eq)]
pub enum ConvertError {
    /// The platform selector names no known platform; holds the selector.
    UnknownSource(String),
    /// The format selector names no known format; holds the selector.
    UnknownFormat(String),
    /// The export could not be read as the selected platform's format.
    MalformedExport(String),
    /// The messages could not be rendered in the selected format.
    Serialization(String),
}

/// The human-readable text of an error.
pub open spec fn error_text(e: ConvertError) -> Seq<char> {
    match e {
        ConvertError::UnknownSource(s) => "Unknown source: "@ + s@
            + ". Expected: telegram, whatsapp, instagram, discord"@,
        ConvertError::UnknownFormat(s) => "Unknown format: "@ + s@ + ". Expected: csv, json, jsonl"@,
        ConvertError::MalformedExport(s) => "Parse error: "@ + s@,
        ConvertError::Serialization(s) => "Serialization error: "@ + s@,
    }
}

impl ConvertError {
    /// The message shown to a caller: it names the failing stage and reason,
    /// and for a selector the offending value and the accepted names.
    pub fn message(&self) -> (r: String)
        ensures
            r@ == error_text(*self),
    {
        let mut r: String;
        match self {
            ConvertError::UnknownSource(s) => {
                r = String::from_str("Unknown source: ");
                r.append(s.as_str());
                r.append(". Expected: telegram, whatsapp, instagram, discord");
            },
            ConvertError::UnknownFormat(s) => {
                r = String::from_str("Unknown format: ");
                r.append(s.as_str());
                r.append(". Expected: csv, json, jsonl");
            },
            ConvertError::MalformedExport(s) => {
                r = String::from_str("Parse error: ");
                r.append(s.as_str());
            },
            ConvertError::Serialization(s) => {
                r = String::from_str("Serialization error: ");
                r.append(s.as_str());
            },
        }
        r
    }
}

} // verus!
