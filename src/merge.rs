use crate::message::{models, valid_timestamps, Message, MessageModel, Timestamp};
use vstd::prelude::*;

verus! {

/// The separator placed between the contents of merged messages.
pub open spec fn line_break() -> Seq<char> {
    seq!['\n']
}

/// `a` with `b`'s content appended after a line break.
pub open spec fn absorb(a: MessageModel, b: MessageModel) -> MessageModel {
    MessageModel { content: a.content + line_break() + b.content, ..a }
}

/// Collapses each maximal run of consecutive same-sender messages into one
/// message: the run's first message, with the contents of the run joined by
/// line breaks.
pub open spec fn merged(s: Seq<MessageModel>) -> Seq<MessageModel>
    decreases s.len(),
{
    if s.len() == 0 {
        s
    } else {
        let m = merged(s.drop_last());
        if m.len() > 0 && m.last().sender == s.last().sender {
            m.update(m.len() - 1, absorb(m.last(), s.last()))
        } else {
            m.push(s.last())
        }
    }
}

/// Whether position `i` of `s` begins a run of same-sender messages.
pub open spec fn starts_run(s: Seq<MessageModel>, i: int) -> bool {
    i == 0 || s[i - 1].sender != s[i].sender
}

/// The number of maximal same-sender runs in `s`.
pub open spec fn run_count(s: Seq<MessageModel>) -> nat
    decreases s.len(),
{
    if s.len() == 0 {
        0
    } else {
        run_count(s.drop_last()) + if starts_run(s, s.len() - 1) { 1nat } else { 0nat }
    }
}

/// No two neighbours in `s` share a sender.
pub open spec fn no_adjacent_same_sender(s: Seq<MessageModel>) -> bool {
    forall|i: int| 0 < i < s.len() ==> #[trigger] s[i].sender != s[i - 1].sender
}

/// Merging keeps the sender of the last message last.
pub proof fn lemma_merged_last(s: Seq<MessageModel>)
    requires
        s.len() > 0,
    ensures
        merged(s).len() > 0,
        merged(s).last().sender == s.last().sender,
    decreases s.len(),
{
}

/// The number of merged messages is the number of same-sender runs.
pub proof fn lemma_merged_len(s: Seq<MessageModel>)
    ensures
        merged(s).len() == run_count(s),
    decreases s.len(),
{
    if s.len() > 0 {
        lemma_merged_len(s.drop_last());
        if s.len() > 1 {
            lemma_merged_last(s.drop_last());
        }
    }
}

/// The result of merging never has two neighbours with one sender.
pub proof fn lemma_merged_alternates(s: Seq<MessageModel>)
    ensures
        no_adjacent_same_sender(merged(s)),
    decreases s.len(),
{
    if s.len() > 0 {
        lemma_merged_alternates(s.drop_last());
        if s.len() > 1 {
            lemma_merged_last(s.drop_last());
        }
        let m = merged(s.drop_last());
        assert forall|i: int| 0 < i < merged(s).len() implies #[trigger] merged(s)[i].sender
            != merged(s)[i - 1].sender by {
            if i < m.len() - 1 {
                assert(m[i].sender != m[i - 1].sender);
            } else if i == m.len() - 1 {
                assert(m[i].sender != m[i - 1].sender);
            }
        }
    }
}

/// A sequence whose runs all have length one is unchanged by merging.
pub proof fn lemma_merged_singleton_runs(s: Seq<MessageModel>)
    requires
        no_adjacent_same_sender(s),
    ensures
        merged(s) == s,
    decreases s.len(),
{
    if s.len() > 0 {
        let p = s.drop_last();
        assert forall|i: int| 0 < i < p.len() implies #[trigger] p[i].sender != p[i - 1].sender by {
            assert(s[i].sender != s[i - 1].sender);
        }
        lemma_merged_singleton_runs(p);
        if s.len() > 1 {
            assert(s[s.len() - 1].sender != s[s.len() - 2].sender);
        }
        assert(p.push(s.last()) =~= s);
    }
}

/// Merging twice gives the same messages as merging once.
pub proof fn lemma_merged_idempotent(s: Seq<MessageModel>)
    ensures
        merged(merged(s)) == merged(s),
{
    lemma_merged_alternates(s);
    lemma_merged_singleton_runs(merged(s));
}

/// Merging keeps the order of runs: where two sequences meet at a change of
/// sender, merging their concatenation concatenates their merges.
pub proof fn lemma_merged_append(s: Seq<MessageModel>, t: Seq<MessageModel>)
    requires
        s.len() > 0,
        t.len() > 0,
        s.last().sender != t[0].sender,
    ensures
        merged(s + t) == merged(s) + merged(t),
    decreases t.len(),
{
    if t.len() == 1 {
        lemma_merged_last(s);
        assert((s + t).drop_last() =~= s);
        assert(t.drop_last() =~= Seq::<MessageModel>::empty());
        assert(merged(t.drop_last()) =~= Seq::<MessageModel>::empty());
        assert(merged(t) =~= seq![t[0]]);
    } else {
        let t1 = t.drop_last();
        lemma_merged_append(s, t1);
        assert((s + t).drop_last() =~= s + t1);
        lemma_merged_last(t1);
        let a = merged(s);
        let b = merged(t1);
        assert((a + b).last() == b.last());
        if b.last().sender == t.last().sender {
            assert((a + b).update(a.len() + b.len() - 1, absorb(b.last(), t.last())) =~= a
                + b.update(b.len() - 1, absorb(b.last(), t.last())));
        } else {
            assert((a + b).push(t.last()) =~= a + b.push(t.last()));
        }
    }
}

/// The first message of each same-sender run, in order.
pub open spec fn run_heads(s: Seq<MessageModel>) -> Seq<MessageModel>
    decreases s.len(),
{
    if s.len() == 0 {
        s
    } else if starts_run(s, s.len() - 1) {
        run_heads(s.drop_last()).push(s.last())
    } else {
        run_heads(s.drop_last())
    }
}

/// Merging keeps the runs in their order: the k-th merged message carries
/// the sender, timestamp, id and reply link of the k-th run's first message.
pub proof fn lemma_merged_heads(s: Seq<MessageModel>)
    ensures
        merged(s).len() == run_heads(s).len(),
        forall|k: int|
            0 <= k < merged(s).len() ==> {
                let m = #[trigger] merged(s)[k];
                let h = run_heads(s)[k];
                m.sender == h.sender && m.timestamp == h.timestamp && m.id == h.id && m.reply_to
                    == h.reply_to
            },
    decreases s.len(),
{
    if s.len() > 0 {
        lemma_merged_heads(s.drop_last());
        if s.len() > 1 {
            lemma_merged_last(s.drop_last());
        }
    }
}

/// Relies on `chatpack::core::processor::merge_consecutive`: each run of
/// consecutive messages from one sender becomes the run's first message (its
/// timestamp, id and reply link), with the run's contents joined by `\n`.
/// Timestamps pass through `chrono::DateTime::<Utc>` both ways, which keeps
/// every moment that `chrono` can represent.
#[verifier::external_body]
pub(crate) fn merge_consecutive(messages: Vec<Message>) -> (r: Vec<Message>)
    requires
        valid_timestamps(messages@),
    ensures
        models(r@) == merged(models(messages@)),
        valid_timestamps(r@),
{
    let v = messages.into_iter().map(|m| chatpack::Message::with_metadata(m.sender, m.content,
        m.timestamp.and_then(|t| chrono::DateTime::from_timestamp(t.secs, t.nanos)), m.id, m.reply_to, None));
    chatpack::core::processor::merge_consecutive(v.collect()).into_iter().map(|m| Message {
        timestamp: m.timestamp.map(|d| Timestamp { secs: d.timestamp(), nanos: d.timestamp_subsec_nanos() }),
        sender: m.sender, content: m.content, id: m.id, reply_to: m.reply_to,
    }).collect()
}

} // verus!
