//! The ordered, append-only collection of posted messages.

use crate::matching::contains_lowered;
use crate::matching::keyword_matches;
use crate::matching::lemma_empty_keyword_matches;
use crate::matching::lowercase;
use crate::models::Message;
use crate::models::MessageView;
use vstd::prelude::*;

verus! {

/// The test that [`MessageLog::filter_by_sender`] applies to each message.
pub open spec fn sent_by(sender_id: u64) -> spec_fn(MessageView) -> bool {
    |message: MessageView| message.sender_id == sender_id
}

/// The test that [`MessageLog::filter_by_keyword`] applies to each message.
pub open spec fn mentions(keyword: Seq<char>) -> spec_fn(MessageView) -> bool {
    |message: MessageView| keyword_matches(message.content, keyword)
}

/// The messages of `log` that `sender_id` sent, in the order of the log.
pub open spec fn sender_filter(log: Seq<MessageView>, sender_id: u64) -> Seq<MessageView> {
    log.filter(sent_by(sender_id))
}

/// The messages of `log` whose content holds `keyword`, letter case
/// ignored, in the order of the log.
pub open spec fn keyword_filter(log: Seq<MessageView>, keyword: Seq<char>) -> Seq<MessageView> {
    log.filter(mentions(keyword))
}

/// The messages in append order. Nothing is ever removed, moved or edited.
pub struct MessageLog {
    entries: Vec<Message>,
}

impl View for MessageLog {
    type V = Seq<MessageView>;

    closed spec fn view(&self) -> Seq<MessageView> {
        self.entries.deep_view()
    }
}

impl MessageLog {
    /// An empty log.
    pub fn new() -> (log: Self)
        ensures
            log@ == Seq::<MessageView>::empty(),
    {
        MessageLog { entries: Vec::new() }
    }

    /// The number of messages stored.
    pub fn len(&self) -> (count: usize)
        ensures
            count == self@.len(),
    {
        self.entries.len()
    }

    /// Adds `message` at the end and leaves every earlier message as it was.
    pub fn append(&mut self, message: Message)
        ensures
            final(self)@ == old(self)@.push(message@),
    {
        self.entries.push(message);
    }

    /// A copy of every message, in append order.
    pub fn all(&self) -> (messages: Vec<Message>)
        ensures
            messages.deep_view() == self@,
    {
        let mut messages: Vec<Message> = Vec::new();
        let mut i: usize = 0;
        while i < self.entries.len()
            invariant
                i <= self.entries.len(),
                messages.deep_view() == self@.take(i as int),
            decreases self.entries.len() - i,
        {
            let entry = &self.entries[i];
            assert(self@.take(i + 1) == self@.take(i as int).push(entry@));
            messages.push(entry.clone());
            i += 1;
        }
        messages
    }

    /// A copy of every message that `sender_id` sent, in append order.
    pub fn filter_by_sender(&self, sender_id: u64) -> (messages: Vec<Message>)
        ensures
            messages.deep_view() == sender_filter(self@, sender_id),
    {
        let mut messages: Vec<Message> = Vec::new();
        let mut i: usize = 0;
        while i < self.entries.len()
            invariant
                i <= self.entries.len(),
                messages.deep_view() == sender_filter(self@.take(i as int), sender_id),
            decreases self.entries.len() - i,
        {
            let entry = &self.entries[i];
            proof {
                assert(self@.take(i + 1) == self@.take(i as int).push(entry@));
                self@.take(i as int).lemma_filter_push(entry@, sent_by(sender_id));
            }
            if entry.sender_id == sender_id {
                messages.push(entry.clone());
            }
            i += 1;
        }
        assert(self@.take(i as int) == self@);
        messages
    }

    /// A copy of every message whose content holds `keyword`, letter case
    /// ignored, in append order. The empty keyword selects every message.
    pub fn filter_by_keyword(&self, keyword: &str) -> (messages: Vec<Message>)
        ensures
            messages.deep_view() == keyword_filter(self@, keyword@),
            keyword@.len() == 0 ==> messages.deep_view() == self@,
    {
        let lowered = keyword.to_lowercase();
        let mut messages: Vec<Message> = Vec::new();
        let mut i: usize = 0;
        while i < self.entries.len()
            invariant
                i <= self.entries.len(),
                lowered@ == lowercase(keyword@),
                keyword@.len() == 0 ==> lowered@.len() == 0,
                messages.deep_view() == keyword_filter(self@.take(i as int), keyword@),
                keyword@.len() == 0 ==> messages.deep_view() == self@.take(i as int),
            decreases self.entries.len() - i,
        {
            let entry = &self.entries[i];
            proof {
                assert(self@.take(i + 1) == self@.take(i as int).push(entry@));
                self@.take(i as int).lemma_filter_push(entry@, mentions(keyword@));
                if keyword@.len() == 0 {
                    lemma_empty_keyword_matches(entry@.content, keyword@);
                }
            }
            if contains_lowered(entry.content.as_str(), lowered.as_str()) {
                messages.push(entry.clone());
            }
            i += 1;
        }
        assert(self@.take(i as int) == self@);
        messages
    }
}

/// The indices of the messages of `log` that pass `test`, in rising order.
pub open spec fn kept_positions(log: Seq<MessageView>, test: spec_fn(MessageView) -> bool) -> Seq<
    int,
>
    decreases log.len(),
{
    if log.len() == 0 {
        Seq::empty()
    } else if test(log.last()) {
        kept_positions(log.drop_last(), test).push(log.len() - 1)
    } else {
        kept_positions(log.drop_last(), test)
    }
}

/// Whether `chosen` is `log` cut down to the indices `positions`: the
/// indices rise, so the order of the log is kept, and `chosen` holds the
/// messages at them.
pub open spec fn is_selection_at(
    log: Seq<MessageView>,
    chosen: Seq<MessageView>,
    positions: Seq<int>,
) -> bool {
    &&& positions.len() == chosen.len()
    &&& forall|k: int|
        0 <= k < positions.len() ==> 0 <= #[trigger] positions[k] < log.len() && chosen[k]
            == log[positions[k]]
    &&& forall|j: int, k: int|
        0 <= j < k < positions.len() ==> #[trigger] positions[j] < #[trigger] positions[k]
}

/// Filtering selects from the log without reordering it: the result holds
/// the messages at rising indices of the log, and an index is among them
/// exactly when its message passes the test.
pub proof fn lemma_filter_selects_in_order(log: Seq<MessageView>, test: spec_fn(MessageView) -> bool)
    ensures
        is_selection_at(log, log.filter(test), kept_positions(log, test)),
        forall|i: int|
            0 <= i < log.len() ==> (test(#[trigger] log[i]) <==> kept_positions(log, test).contains(
                i,
            )),
    decreases log.len(),
{
    reveal(Seq::filter);
    let positions = kept_positions(log, test);
    if log.len() > 0 {
        let earlier = log.drop_last();
        let before = kept_positions(earlier, test);
        lemma_filter_selects_in_order(earlier, test);
        assert forall|i: int| 0 <= i < log.len() implies (test(#[trigger] log[i])
            <==> positions.contains(i)) by {
            if i < earlier.len() {
                assert(earlier[i] == log[i]);
                if before.contains(i) {
                    let k = choose|k: int| 0 <= k < before.len() && before[k] == i;
                    assert(positions[k] == i);
                }
            } else if test(log.last()) {
                assert(positions[positions.len() - 1] == i);
            }
        }
    }
}

/// A search by sender returns a subsequence of the log, in the order of the
/// log, that holds exactly the messages of that sender.
pub proof fn lemma_sender_filter_is_subsequence(log: Seq<MessageView>, sender_id: u64)
    ensures
        is_selection_at(
            log,
            sender_filter(log, sender_id),
            kept_positions(log, sent_by(sender_id)),
        ),
        forall|i: int|
            0 <= i < log.len() ==> ((#[trigger] log[i]).sender_id == sender_id <==> kept_positions(
                log,
                sent_by(sender_id),
            ).contains(i)),
        forall|k: int|
            0 <= k < sender_filter(log, sender_id).len() ==> (#[trigger] sender_filter(
                log,
                sender_id,
            )[k]).sender_id == sender_id,
{
    lemma_filter_selects_in_order(log, sent_by(sender_id));
}

/// A search by keyword returns a subsequence of the log, in the order of
/// the log, that holds exactly the messages whose content holds the
/// keyword, letter case ignored.
pub proof fn lemma_keyword_filter_is_subsequence(log: Seq<MessageView>, keyword: Seq<char>)
    ensures
        is_selection_at(log, keyword_filter(log, keyword), kept_positions(log, mentions(keyword))),
        forall|i: int|
            0 <= i < log.len() ==> (keyword_matches((#[trigger] log[i]).content, keyword)
                <==> kept_positions(log, mentions(keyword)).contains(i)),
{
    lemma_filter_selects_in_order(log, mentions(keyword));
}

/// A search by keyword ignores the letter case of the keyword: two keywords
/// with the same lower-case form select the same messages.
pub proof fn lemma_keyword_case_is_ignored(
    log: Seq<MessageView>,
    keyword: Seq<char>,
    other: Seq<char>,
)
    requires
        lowercase(keyword) == lowercase(other),
    ensures
        keyword_filter(log, keyword) == keyword_filter(log, other),
    decreases log.len(),
{
    reveal(Seq::filter);
    if log.len() > 0 {
        lemma_keyword_case_is_ignored(log.drop_last(), keyword, other);
    }
}

/// Reading twice with no append in between gives the same messages: two
/// copies of one state of the log agree.
pub proof fn lemma_all_is_repeatable(log: MessageLog, first: Vec<Message>, second: Vec<Message>)
    requires
        first.deep_view() == log@,
        second.deep_view() == log@,
    ensures
        first.deep_view() == second.deep_view(),
{
}

} // verus!
