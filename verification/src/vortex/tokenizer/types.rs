//! Tokenizer types.

use vstd::prelude::*;
use crate::text::to_owned_string;

verus! {

/// Special token IDs for a model.
#[derive(Debug, Clone, Copy, PartialEq, Eq)]
pub struct SpecialTokens {
    /// Beginning of sequence token ID.
    pub bos_token_id: Option<u32>,
    /// End of sequence token ID.
    pub eos_token_id: Option<u32>,
    /// Padding token ID.
    pub pad_token_id: Option<u32>,
    /// Unknown token ID.
    pub unk_token_id: Option<u32>,
}

impl Default for SpecialTokens {
    /// No special token is known.
    fn default() -> (t: SpecialTokens)
        ensures
            t.bos_token_id is None,
            t.eos_token_id is None,
            t.pad_token_id is None,
            t.unk_token_id is None,
    {
        SpecialTokens { bos_token_id: None, eos_token_id: None, pad_token_id: None, unk_token_id: None }
    }
}

/// Chat message role.
#[derive(Debug, Clone, Copy, PartialEq, Eq, Structural)]
pub enum ChatRole {
    /// System message (instructions).
    System,
    /// User message.
    User,
    /// Assistant response.
    Assistant,
}

/// The role name as chat templates spell it.
pub open spec fn role_name(r: ChatRole) -> Seq<char> {
    match r {
        ChatRole::System => "system"@,
        ChatRole::User => "user"@,
        ChatRole::Assistant => "assistant"@,
    }
}

impl ChatRole {
    /// Get the role name as used in chat templates.
    pub fn as_str(&self) -> (s: &'static str)
        ensures
            s@ == role_name(*self),
    {
        match self {
            ChatRole::System => "system",
            ChatRole::User => "user",
            ChatRole::Assistant => "assistant",
        }
    }
}

/// A chat message for template formatting.
#[derive(Debug)]
pub struct ChatMessage {
    /// The role of the message sender.
    pub role: ChatRole,
    /// The message content.
    pub content: String,
}

impl Clone for ChatMessage {
    fn clone(&self) -> (m: ChatMessage)
        ensures
            m == *self,
    {
        ChatMessage { role: self.role, content: self.content.clone() }
    }
}

impl ChatMessage {
    /// Create a new chat message.
    pub fn new(role: ChatRole, content: &str) -> (m: ChatMessage)
        ensures
            m.role == role,
            m.content@ == content@,
    {
        ChatMessage { role, content: to_owned_string(content) }
    }

    /// Create a system message.
    pub fn system(content: &str) -> (m: ChatMessage)
        ensures
            m.role == ChatRole::System,
            m.content@ == content@,
    {
        ChatMessage::new(ChatRole::System, content)
    }

    /// Create a user message.
    pub fn user(content: &str) -> (m: ChatMessage)
        ensures
            m.role == ChatRole::User,
            m.content@ == content@,
    {
        ChatMessage::new(ChatRole::User, content)
    }

    /// Create an assistant message.
    pub fn assistant(content: &str) -> (m: ChatMessage)
        ensures
            m.role == ChatRole::Assistant,
            m.content@ == content@,
    {
        ChatMessage::new(ChatRole::Assistant, content)
    }
}

} // verus!
