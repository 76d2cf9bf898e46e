//! Plain data carried through a conversation.

pub mod conversation;
pub mod emotion;
pub mod gemini;
pub mod gemini_dto;
