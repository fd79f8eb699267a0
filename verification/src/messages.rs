//! The commands that the host side hands to the protocol side.

use vstd::prelude::*;

verus! {

/// Asks to join the chat behind a stamp or a shareable link.
#[derive(Debug, Clone)]
pub struct JoinChatMessageData {
    pub stamp: String,
}

/// Asks to send a message to a chat or contact.
#[derive(Debug, Clone)]
pub struct SendMsgMessageData {
    pub to_sn: String,
    pub message: String,
}

/// Asks for the full description of a chat.
#[derive(Debug, Clone)]
pub struct GetChatInfoMessageData {
    pub sn: String,
}

/// Asks for a page of a chat's history: `count` messages from the message
/// `from_msg_id`, backward where `count` is negative.
#[derive(Debug, Clone)]
pub struct GetHistoryMessageData {
    pub sn: String,
    pub from_msg_id: String,
    pub count: i32,
}

/// A command for the protocol side.
#[derive(Debug, Clone)]
pub enum PurpleMessage {
    /// Log the account with this phone number in.
    Login(String),
    JoinChat(JoinChatMessageData),
    SendMsg(SendMsgMessageData),
    GetChatInfo(GetChatInfoMessageData),
    GetHistory(GetHistoryMessageData),
}

impl PurpleMessage {
    /// The command that joins the chat behind `stamp`.
    pub fn join_chat(stamp: String) -> (message: PurpleMessage)
        ensures
            message == PurpleMessage::JoinChat(JoinChatMessageData { stamp }),
    {
        PurpleMessage::JoinChat(JoinChatMessageData { stamp })
    }

    /// The command that fetches a page of the history of the chat `sn`.
    pub fn fetch_history(sn: String, from_msg_id: String, count: i32) -> (message: PurpleMessage)
        ensures
            message == PurpleMessage::GetHistory(GetHistoryMessageData { sn, from_msg_id, count }),
    {
        PurpleMessage::GetHistory(GetHistoryMessageData { sn, from_msg_id, count })
    }

    /// The command that sends `message` to `to_sn`.
    pub fn send_msg(to_sn: String, message: String) -> (out: PurpleMessage)
        ensures
            out == PurpleMessage::SendMsg(SendMsgMessageData { to_sn, message }),
    {
        PurpleMessage::SendMsg(SendMsgMessageData { to_sn, message })
    }

    /// The command that fetches the description of the chat `sn`.
    pub fn get_chat_info(sn: String) -> (message: PurpleMessage)
        ensures
            message == PurpleMessage::GetChatInfo(GetChatInfoMessageData { sn }),
    {
        PurpleMessage::GetChatInfo(GetChatInfoMessageData { sn })
    }
}

} // verus!
