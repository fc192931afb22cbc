//! Turning one event into one operation on the log and the text to show.

use crate::decimal::decimal_digits;
use crate::decimal::push_decimal;
use crate::message_log::MessageLog;
use crate::message_log::keyword_filter;
use crate::message_log::sender_filter;
use crate::models::ChatEvent;
use crate::models::ChatEventView;
use crate::models::Message;
use crate::models::MessageView;
use vstd::prelude::*;
use vstd::string::StringExecFns;

verus! {

/// The line that shows one message: its time stamp in square brackets, the
/// sender's name, a colon and the content.
pub open spec fn message_line(message: MessageView) -> Seq<char> {
    "["@ + decimal_digits(message.timestamp as nat) + "] "@ + message.sender_name + ": "@
        + message.content
}

/// The lines that show `messages`, one for each, in the same order.
pub open spec fn message_lines(messages: Seq<MessageView>) -> Seq<Seq<char>> {
    messages.map_values(|message: MessageView| message_line(message))
}

/// The line that heads the result of a search by sender.
pub open spec fn sender_heading(sender_id: u64) -> Seq<char> {
    "Messages from user "@ + decimal_digits(sender_id as nat) + ":"@
}

/// The line that heads the result of a search by keyword.
pub open spec fn keyword_heading(keyword: Seq<char>) -> Seq<char> {
    "Messages containing '"@ + keyword + "':"@
}

/// The text to show for `event` when the log holds `log`: a new message is
/// shown as its line; a search as its heading and then the matching
/// messages in append order; every other event as one line of notice.
pub open spec fn event_lines(log: Seq<MessageView>, event: ChatEventView) -> Seq<Seq<char>> {
    match event {
        ChatEventView::NewMessage(message) => seq![message_line(message)],
        ChatEventView::SearchByUser(sender_id) => seq![sender_heading(sender_id)] + message_lines(
            sender_filter(log, sender_id),
        ),
        ChatEventView::SearchByKeyword(keyword) => seq![keyword_heading(keyword)] + message_lines(
            keyword_filter(log, keyword),
        ),
        ChatEventView::SwitchUser(user_id) => seq![
            "Switching to user "@ + decimal_digits(user_id as nat) + "..."@,
        ],
        ChatEventView::AddUser(name) => seq!["Adding user "@ + name + "..."@],
        ChatEventView::ListUsers => seq!["Listing users..."@],
        ChatEventView::Exit => seq!["Exiting chat 👋"@],
    }
}

/// The log after `event`: a new message goes to the end, and no other event
/// changes the log.
pub open spec fn log_after(log: Seq<MessageView>, event: ChatEventView) -> Seq<MessageView> {
    match event {
        ChatEventView::NewMessage(message) => log.push(message),
        _ => log,
    }
}

/// Whether `event` reads or changes the log: a new message and the two
/// searches do, no other event does.
pub open spec fn uses_log(event: ChatEventView) -> bool {
    event is NewMessage || event is SearchByUser || event is SearchByKeyword
}

/// What came of one event: the lines to show, and whether the command loop
/// is to end.
#[derive(Debug, PartialEq, Eq)]
pub struct EventOutcome {
    pub lines: Vec<String>,
    pub exit: bool,
}

/// The line that shows `message`.
pub fn render_message(message: &Message) -> (line: String)
    ensures
        line@ == message_line(message@),
{
    let mut line = String::from_str("[");
    push_decimal(&mut line, message.timestamp);
    line.append("] ");
    line.append(message.sender_name.as_str());
    line.append(": ");
    line.append(message.content.as_str());
    line
}

/// Adds the line of each of `messages` to `lines`.
pub fn render_messages(lines: &mut Vec<String>, messages: &Vec<Message>)
    ensures
        final(lines).deep_view() == old(lines).deep_view() + message_lines(messages.deep_view()),
{
    let mut i: usize = 0;
    while i < messages.len()
        invariant
            i <= messages.len(),
            lines.deep_view() == old(lines).deep_view() + message_lines(
                messages.deep_view().take(i as int),
            ),
        decreases messages.len() - i,
    {
        let ghost before = lines.deep_view();
        let line = render_message(&messages[i]);
        lines.push(line);
        assert(lines.deep_view() == before.push(message_line(messages[i as int]@)));
        i += 1;
    }
}

/// Whether `event` reads or changes the log.
pub fn event_uses_log(event: &ChatEvent) -> (uses: bool)
    ensures
        uses == uses_log(event@),
{
    match event {
        ChatEvent::NewMessage(_) => true,
        ChatEvent::SearchByUser(_) => true,
        ChatEvent::SearchByKeyword(_) => true,
        _ => false,
    }
}

/// Carries out `event` on `log` and says what to show for it.
pub fn route_event(log: &mut MessageLog, event: ChatEvent) -> (outcome: EventOutcome)
    ensures
        final(log)@ == log_after(old(log)@, event@),
        outcome.lines.deep_view() == event_lines(old(log)@, event@),
        outcome.exit == (event@ is Exit),
{
    let mut lines: Vec<String> = Vec::new();
    let mut exit = false;
    match event {
        ChatEvent::NewMessage(message) => {
            lines.push(render_message(&message));
            log.append(message);
        },
        ChatEvent::SearchByUser(sender_id) => {
            let mut heading = String::from_str("Messages from user ");
            push_decimal(&mut heading, sender_id);
            heading.append(":");
            lines.push(heading);
            let matches = log.filter_by_sender(sender_id);
            render_messages(&mut lines, &matches);
        },
        ChatEvent::SearchByKeyword(keyword) => {
            let mut heading = String::from_str("Messages containing '");
            heading.append(keyword.as_str());
            heading.append("':");
            lines.push(heading);
            let matches = log.filter_by_keyword(keyword.as_str());
            render_messages(&mut lines, &matches);
        },
        ChatEvent::SwitchUser(user_id) => {
            let mut notice = String::from_str("Switching to user ");
            push_decimal(&mut notice, user_id);
            notice.append("...");
            lines.push(notice);
        },
        ChatEvent::AddUser(name) => {
            let mut notice = String::from_str("Adding user ");
            notice.append(name.as_str());
            notice.append("...");
            lines.push(notice);
        },
        ChatEvent::ListUsers => {
            lines.push(String::from_str("Listing users..."));
        },
        ChatEvent::Exit => {
            lines.push(String::from_str("Exiting chat 👋"));
            exit = true;
        },
    }
    EventOutcome { lines, exit }
}

/// No event removes, moves or edits a message: the log before an event is
/// the beginning of the log after it, and only a new message makes it
/// longer, by that message.
pub proof fn lemma_events_only_append(log: Seq<MessageView>, event: ChatEventView)
    ensures
        log.is_prefix_of(log_after(log, event)),
        event matches ChatEventView::NewMessage(message) ==> log_after(log, event) == log.push(
            message,
        ),
        !(event is NewMessage) ==> log_after(log, event) == log,
{
}

} // verus!
