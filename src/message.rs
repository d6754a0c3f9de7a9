use vstd::prelude::*;

verus! {

/// A moment in UTC: whole seconds since the Unix epoch and the nanoseconds
/// past them.
#[derive(Debug, Clone, Copy, PartialEq, Eq, Structural)]
pub struct Timestamp {
    pub secs: i64,
    pub nanos: u32,
}

/// What `chrono` renders for the moment `secs`, `nanos` (`YYYY-MM-DD
/// HH:MM:SS UTC`, with a fraction where `nanos` is not zero), or `None` where
/// it cannot represent the moment.
pub uninterp spec fn datetime_text(secs: i64, nanos: u32) -> Option<Seq<char>>;

/// Whether `chrono` can represent the moment.
pub open spec fn valid_timestamp(t: Timestamp) -> bool {
    datetime_text(t.secs, t.nanos) is Some
}

/// Whether every timestamp of the messages can be represented.
pub open spec fn valid_timestamps(v: Seq<Message>) -> bool {
    forall|i: int|
        0 <= i < v.len() && (#[trigger] v[i]).timestamp is Some ==> valid_timestamp(v[i].timestamp->0)
}

/// Relies on `chrono::DateTime::<Utc>::from_timestamp` and `DateTime`'s
/// `Display`: the rendered moment, or `None` where it is out of range.
#[verifier::external_body]
pub(crate) fn render_timestamp(t: Timestamp) -> (r: Option<String>)
    ensures
        opt_text(r) == datetime_text(t.secs, t.nanos),
{
    chrono::DateTime::<chrono::Utc>::from_timestamp(t.secs, t.nanos).map(|d| d.to_string())
}

/// The canonical, platform-agnostic chat message.
#[derive(Debug, Clone, PartialEq, Eq)]
pub struct Message {
    /// Display name of the author.
    pub sender: String,
    /// Text body; may be empty.
    pub content: String,
    /// The moment the message was sent.
    pub timestamp: Option<Timestamp>,
    /// Platform-native identifier, where the export has one.
    pub id: Option<u64>,
    /// Identifier of the message this one answers, in the same export.
    pub reply_to: Option<u64>,
}

/// Mathematical model of a [`Message`].
pub struct MessageModel {
    pub sender: Seq<char>,
    pub content: Seq<char>,
    pub timestamp: Option<Timestamp>,
    pub id: Option<u64>,
    pub reply_to: Option<u64>,
}

pub open spec fn opt_text(o: Option<String>) -> Option<Seq<char>> {
    match o {
        Some(s) => Some(s@),
        None => None,
    }
}

impl View for Message {
    type V = MessageModel;

    open spec fn view(&self) -> MessageModel {
        MessageModel {
            sender: self.sender@,
            content: self.content@,
            timestamp: self.timestamp,
            id: self.id,
            reply_to: self.reply_to,
        }
    }
}

/// The models of a sequence of messages.
pub open spec fn models(v: Seq<Message>) -> Seq<MessageModel> {
    v.map_values(|m: Message| m@)
}

impl Message {
    /// A message with only a sender and a content.
    pub fn new(sender: &str, content: &str) -> (r: Message)
        ensures
            r.sender@ == sender@,
            r.content@ == content@,
            r.timestamp.is_none(),
            r.id.is_none(),
            r.reply_to.is_none(),
    {
        Message {
            sender: String::from_str(sender),
            content: String::from_str(content),
            timestamp: None,
            id: None,
            reply_to: None,
        }
    }
}

} // verus!
