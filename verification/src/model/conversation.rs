//! Chat messages and the roles that speak them.

use vstd::prelude::*;

verus! {

/// Who speaks a message.
#[derive(Debug, Clone, Copy, PartialEq, Eq, Structural)]
#[non_exhaustive]
pub enum Role {
    /// An instruction to the model.
    System,
    /// A viewer.
    User,
    /// The model.
    Assistant,
    /// An older name for [`Role::Assistant`].
    Bot,
}

impl Role {
    /// The role's name in conversation logs.
    pub open spec fn name(self) -> Seq<char> {
        match self {
            Role::System => "system"@,
            Role::User => "user"@,
            Role::Assistant | Role::Bot => "assistant"@,
        }
    }

    /// The role's name in a request to the model backend, which calls the
    /// assistant `model`.
    pub open spec fn wire_name(self) -> Seq<char> {
        match self {
            Role::System => "system"@,
            Role::User => "user"@,
            Role::Assistant | Role::Bot => "model"@,
        }
    }

    /// Whether the role stands for the model's side of the conversation.
    pub open spec fn is_assistant(self) -> bool {
        self == Role::Assistant || self == Role::Bot
    }

    /// Returns the role's name in conversation logs.
    #[inline]
    pub fn as_str(self) -> (s: &'static str)
        ensures
            s@ == self.name(),
    {
        match self {
            Role::System => "system",
            Role::User => "user",
            Role::Assistant | Role::Bot => "assistant",
        }
    }

    /// Returns the role's name in a request to the model backend.
    #[inline]
    pub fn wire_str(self) -> (s: &'static str)
        ensures
            s@ == self.wire_name(),
    {
        match self {
            Role::System => "system",
            Role::User => "user",
            Role::Assistant | Role::Bot => "model",
        }
    }
}

/// One attributed utterance of the conversation.
#[derive(Debug)]
pub struct Message {
    pub role: Role,
    pub text: String,
}

/// The mathematical content of a [`Message`].
pub struct MessageView {
    pub role: Role,
    pub text: Seq<char>,
}

impl View for Message {
    type V = MessageView;

    open spec fn view(&self) -> MessageView {
        MessageView { role: self.role, text: self.text@ }
    }
}

impl DeepView for Message {
    type V = MessageView;

    open spec fn deep_view(&self) -> MessageView {
        self@
    }
}

impl Clone for Message {
    fn clone(&self) -> (copy: Self)
        ensures
            copy == *self,
    {
        Message { role: self.role, text: self.text.clone() }
    }
}

impl<'a> From<(Role, &'a str)> for Message {
    /// Builds a message from a pair of role and text.
    fn from(pair: (Role, &'a str)) -> (m: Self)
        ensures
            m@ == (MessageView { role: pair.0, text: pair.1@ }),
    {
        Message::new(pair.0, pair.1)
    }
}

impl<'a> vstd::std_specs::convert::FromSpecImpl<(Role, &'a str)> for Message {
    /// A message owns its text, so no specification value stands for the one
    /// that `from` returns: its contract is stated on the view.
    open spec fn obeys_from_spec() -> bool {
        false
    }

    open spec fn from_spec(pair: (Role, &'a str)) -> Self {
        arbitrary()
    }
}

impl Message {
    /// Builds a message from a role and a text.
    pub fn new(role: Role, text: &str) -> (m: Self)
        ensures
            m@ == (MessageView { role, text: text@ }),
    {
        Message { role, text: text.to_owned() }
    }

    /// A message spoken by [`Role::System`].
    pub fn system(text: &str) -> (m: Self)
        ensures
            m@ == (MessageView { role: Role::System, text: text@ }),
    {
        Self::new(Role::System, text)
    }

    /// A message spoken by [`Role::User`].
    pub fn user(text: &str) -> (m: Self)
        ensures
            m@ == (MessageView { role: Role::User, text: text@ }),
    {
        Self::new(Role::User, text)
    }

    /// A message spoken by [`Role::Assistant`].
    pub fn assistant(text: &str) -> (m: Self)
        ensures
            m@ == (MessageView { role: Role::Assistant, text: text@ }),
    {
        Self::new(Role::Assistant, text)
    }
}

} // verus!
