//! Reading one line of input as an event.

use crate::clock::unix_seconds;
use crate::decimal::parse_decimal;
use crate::decimal::read_decimal;
use crate::models::ChatEvent;
use crate::models::ChatEventView;
use crate::models::Message;
use crate::models::MessageView;
use crate::models::UserView;
use crate::text::collect_chars;
use crate::text::is_white_space;
use crate::text::char_is_white_space;
use crate::text::string_from_chars;
use crate::text::trim_chars;
use crate::text::trimmed;
use crate::user_manager::UserManager;
use vstd::prelude::*;

verus! {

/// Why a line of input is no event.
#[derive(Debug, Clone, Copy, PartialEq, Eq)]
pub enum ParseError {
    /// The argument of `/user` or `/switch` is not a user id.
    InvalidUserId,
    /// The line is a message, and the user who would send it is not
    /// registered.
    UnknownSender,
}

/// The index of the first white-space character of `line` at or after
/// `from`, or the length of `line` if there is none.
pub open spec fn first_white_space(line: Seq<char>, from: int) -> int
    decreases line.len() - from,
{
    if from >= line.len() {
        line.len() as int
    } else if is_white_space(line[from]) {
        from
    } else {
        first_white_space(line, from + 1)
    }
}

/// The argument of a command line that starts with `word`: what follows
/// the first white-space character after the command word, as it stands.
/// A line without such a character has the empty argument.
pub open spec fn argument_of(line: Seq<char>, word: Seq<char>) -> Seq<char> {
    let gap = first_white_space(line, word.len() as int);
    if gap < line.len() {
        line.skip(gap + 1)
    } else {
        Seq::empty()
    }
}

/// The user id written in `argument`.
pub open spec fn user_id_of(argument: Seq<char>) -> Result<u64, ParseError> {
    match parse_decimal(argument) {
        Some(id) => Ok(id),
        None => Err(ParseError::InvalidUserId),
    }
}

/// The event that a line of input stands for. White space at either end
/// of the line does not count. A line that starts with a command word is
/// that command, and the words are tried in this order: `/exit` ends the
/// session; `/user` searches for the messages of the user whose id is the
/// argument; `/search` searches for the argument as a keyword; `/switch`
/// makes the user whose id is the argument the current user; `/add`
/// registers a user with the argument as name; `/list` lists the users.
/// An argument that has to be a user id and is none makes the line an
/// error. Any other line is a message from the current user, posted at
/// `timestamp`, with the line as its content; it is an error if that user
/// is not among `users`.
pub open spec fn parsed_line(
    input: Seq<char>,
    current_user_id: u64,
    users: Map<u64, UserView>,
    timestamp: u64,
) -> Result<ChatEventView, ParseError> {
    let line = trimmed(input);
    if "/exit"@.is_prefix_of(line) {
        Ok(ChatEventView::Exit)
    } else if "/user"@.is_prefix_of(line) {
        match user_id_of(argument_of(line, "/user"@)) {
            Ok(id) => Ok(ChatEventView::SearchByUser(id)),
            Err(error) => Err(error),
        }
    } else if "/search"@.is_prefix_of(line) {
        Ok(ChatEventView::SearchByKeyword(argument_of(line, "/search"@)))
    } else if "/switch"@.is_prefix_of(line) {
        match user_id_of(argument_of(line, "/switch"@)) {
            Ok(id) => Ok(ChatEventView::SwitchUser(id)),
            Err(error) => Err(error),
        }
    } else if "/add"@.is_prefix_of(line) {
        Ok(ChatEventView::AddUser(argument_of(line, "/add"@)))
    } else if "/list"@.is_prefix_of(line) {
        Ok(ChatEventView::ListUsers)
    } else if users.contains_key(current_user_id) {
        Ok(
            ChatEventView::NewMessage(
                MessageView {
                    sender_id: current_user_id,
                    sender_name: users[current_user_id].name,
                    content: line,
                    timestamp,
                },
            ),
        )
    } else {
        Err(ParseError::UnknownSender)
    }
}

/// What `outcome` holds, as plain mathematical values.
pub open spec fn outcome_view(outcome: Result<ChatEvent, ParseError>) -> Result<
    ChatEventView,
    ParseError,
> {
    match outcome {
        Ok(event) => Ok(event@),
        Err(error) => Err(error),
    }
}

/// Where the argument of `line` starts if `line` starts with `word`.
fn command_argument(line: &Vec<char>, word: &str) -> (start: Option<usize>)
    ensures
        match start {
            Some(from) => {
                &&& word@.is_prefix_of(line@)
                &&& from <= line.len()
                &&& line@.skip(from as int) == argument_of(line@, word@)
            },
            None => !word@.is_prefix_of(line@),
        },
{
    let word_chars = collect_chars(word);
    let len = line.len();
    let word_len = word_chars.len();
    if word_len > len {
        return None;
    }
    let mut i: usize = 0;
    while i < word_len
        invariant
            i <= word_len == word_chars.len(),
            word_len <= len == line.len(),
            word_chars@ == word@,
            forall|k: int| 0 <= k < i ==> line[k] == word_chars[k],
        decreases word_len - i,
    {
        if line[i] != word_chars[i] {
            return None;
        }
        i += 1;
    }
    let mut gap: usize = word_len;
    while gap < len && !char_is_white_space(line[gap])
        invariant
            word_len <= gap <= len == line.len(),
            first_white_space(line@, word_len as int) == first_white_space(line@, gap as int),
        decreases len - gap,
    {
        gap += 1;
    }
    if gap < len {
        Some(gap + 1)
    } else {
        Some(len)
    }
}

/// The user id written in `line[from..]`.
fn read_user_id(line: &Vec<char>, from: usize) -> (id: Result<u64, ParseError>)
    requires
        from <= line.len(),
    ensures
        id == user_id_of(line@.skip(from as int)),
{
    match read_decimal(line, from) {
        Some(id) => Ok(id),
        None => Err(ParseError::InvalidUserId),
    }
}

/// Reads `input` as an event; a message is stamped with `timestamp`.
pub fn parse_input_at(
    input: &str,
    current_user_id: u64,
    user_manager: &UserManager,
    timestamp: u64,
) -> (outcome: Result<ChatEvent, ParseError>)
    ensures
        outcome_view(outcome) == parsed_line(input@, current_user_id, user_manager@, timestamp),
{
    let chars = collect_chars(input);
    let line = trim_chars(&chars);
    let len = line.len();
    if command_argument(&line, "/exit").is_some() {
        Ok(ChatEvent::Exit)
    } else if let Some(from) = command_argument(&line, "/user") {
        match read_user_id(&line, from) {
            Ok(id) => Ok(ChatEvent::SearchByUser(id)),
            Err(error) => Err(error),
        }
    } else if let Some(from) = command_argument(&line, "/search") {
        Ok(ChatEvent::SearchByKeyword(string_from_chars(&line, from, len)))
    } else if let Some(from) = command_argument(&line, "/switch") {
        match read_user_id(&line, from) {
            Ok(id) => Ok(ChatEvent::SwitchUser(id)),
            Err(error) => Err(error),
        }
    } else if let Some(from) = command_argument(&line, "/add") {
        Ok(ChatEvent::AddUser(string_from_chars(&line, from, len)))
    } else if command_argument(&line, "/list").is_some() {
        Ok(ChatEvent::ListUsers)
    } else {
        match user_manager.get_user(current_user_id) {
            Some(user) => {
                assert(line@ == line@.subrange(0, len as int));
                let content = string_from_chars(&line, 0, len);
                Ok(
                    ChatEvent::NewMessage(
                        Message::with_timestamp(
                            current_user_id,
                            user.name.clone(),
                            content,
                            timestamp,
                        ),
                    ),
                )
            },
            None => Err(ParseError::UnknownSender),
        }
    }
}

/// Reads `input` as an event; a message is stamped with the current time.
pub fn parse_input(input: &str, current_user_id: u64, user_manager: &UserManager) -> (outcome:
    Result<ChatEvent, ParseError>)
    ensures
        exists|timestamp: u64|
            outcome_view(outcome) == parsed_line(
                input@,
                current_user_id,
                user_manager@,
                timestamp,
            ),
{
    parse_input_at(input, current_user_id, user_manager, unix_seconds())
}

} // verus!
