//! The values that travel through the board: messages, users and events.

use crate::clock::unix_seconds;
use vstd::prelude::*;

verus! {

/// One posted message. Its fields are fixed when it is built.
#[derive(Debug, PartialEq, Eq)]
pub struct Message {
    pub sender_id: u64,
    pub sender_name: String,
    pub content: String,
    pub timestamp: u64,
}

/// What a [`Message`] holds, as plain mathematical values.
pub struct MessageView {
    pub sender_id: u64,
    pub sender_name: Seq<char>,
    pub content: Seq<char>,
    pub timestamp: u64,
}

impl View for Message {
    type V = MessageView;

    open spec fn view(&self) -> MessageView {
        MessageView {
            sender_id: self.sender_id,
            sender_name: self.sender_name@,
            content: self.content@,
            timestamp: self.timestamp,
        }
    }
}

impl DeepView for Message {
    type V = MessageView;

    open spec fn deep_view(&self) -> MessageView {
        self@
    }
}

impl Clone for Message {
    fn clone(&self) -> (copy: Self)
        ensures
            copy == *self,
    {
        Message {
            sender_id: self.sender_id,
            sender_name: self.sender_name.clone(),
            content: self.content.clone(),
            timestamp: self.timestamp,
        }
    }
}

impl Message {
    /// Builds a message stamped with the given time.
    pub fn with_timestamp(sender_id: u64, sender_name: String, content: String, timestamp: u64) -> (message: Self)
        ensures
            message.sender_id == sender_id,
            message.sender_name == sender_name,
            message.content == content,
            message.timestamp == timestamp,
    {
        Message { sender_id, sender_name, content, timestamp }
    }

    /// Builds a message stamped with the current time.
    pub fn new(sender_id: u64, sender_name: String, content: String) -> (message: Self)
        ensures
            message.sender_id == sender_id,
            message.sender_name == sender_name,
            message.content == content,
    {
        Message::with_timestamp(sender_id, sender_name, content, unix_seconds())
    }
}

/// A participant of the board.
#[derive(Debug, PartialEq, Eq)]
pub struct User {
    pub id: u64,
    pub name: String,
    pub created_at: u64,
}

/// What a [`User`] holds, as plain mathematical values.
pub struct UserView {
    pub id: u64,
    pub name: Seq<char>,
    pub created_at: u64,
}

impl View for User {
    type V = UserView;

    open spec fn view(&self) -> UserView {
        UserView { id: self.id, name: self.name@, created_at: self.created_at }
    }
}

impl DeepView for User {
    type V = UserView;

    open spec fn deep_view(&self) -> UserView {
        self@
    }
}

impl Clone for User {
    fn clone(&self) -> (copy: Self)
        ensures
            copy == *self,
    {
        User { id: self.id, name: self.name.clone(), created_at: self.created_at }
    }
}

impl User {
    /// Builds a user record created at the given time.
    pub fn with_created_at(id: u64, name: String, created_at: u64) -> (user: Self)
        ensures
            user.id == id,
            user.name == name,
            user.created_at == created_at,
    {
        User { id, name, created_at }
    }

    /// Builds a user record created now.
    pub fn new(id: u64, name: String) -> (user: Self)
        ensures
            user.id == id,
            user.name == name,
    {
        User::with_created_at(id, name, unix_seconds())
    }
}

/// What the command loop asks of the board.
#[derive(Debug, PartialEq, Eq)]
pub enum ChatEvent {
    NewMessage(Message),
    SearchByUser(u64),
    SearchByKeyword(String),
    SwitchUser(u64),
    AddUser(String),
    ListUsers,
    Exit,
}

/// What a [`ChatEvent`] holds, as plain mathematical values.
pub enum ChatEventView {
    NewMessage(MessageView),
    SearchByUser(u64),
    SearchByKeyword(Seq<char>),
    SwitchUser(u64),
    AddUser(Seq<char>),
    ListUsers,
    Exit,
}

impl View for ChatEvent {
    type V = ChatEventView;

    open spec fn view(&self) -> ChatEventView {
        match self {
            ChatEvent::NewMessage(message) => ChatEventView::NewMessage(message@),
            ChatEvent::SearchByUser(id) => ChatEventView::SearchByUser(*id),
            ChatEvent::SearchByKeyword(keyword) => ChatEventView::SearchByKeyword(keyword@),
            ChatEvent::SwitchUser(id) => ChatEventView::SwitchUser(*id),
            ChatEvent::AddUser(name) => ChatEventView::AddUser(name@),
            ChatEvent::ListUsers => ChatEventView::ListUsers,
            ChatEvent::Exit => ChatEventView::Exit,
        }
    }
}

} // verus!
