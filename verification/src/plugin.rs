//! What the plugin says of itself to the host: its name, the states that an
//! account can be in, and the fields of the dialog that joins a chat.

use crate::chat_info::{SN, SN_NAME};
use vstd::prelude::*;

verus! {

/// Name of the plugin's icon.
pub const ICON_FILE: &'static str = "icq";

/// The name of the command that fetches history.
pub const HISTORY: &'static str = "history";

/// How the plugin describes itself.
#[derive(Debug, Clone)]
pub struct PrplInfo {
    pub id: String,
    pub name: String,
    pub version: String,
    pub summary: String,
    pub description: String,
    pub author: String,
    pub homepage: String,
}

impl PrplInfo {
    /// A description with every field empty.
    pub fn default() -> (info: PrplInfo)
        ensures
            info.id@.len() == 0,
            info.name@.len() == 0,
            info.version@.len() == 0,
            info.summary@.len() == 0,
            info.description@.len() == 0,
            info.author@.len() == 0,
            info.homepage@.len() == 0,
    {
        PrplInfo {
            id: String::new(),
            name: String::new(),
            version: String::new(),
            summary: String::new(),
            description: String::new(),
            author: String::new(),
            homepage: String::new(),
        }
    }
}

/// The description under which the plugin registers.
pub fn register() -> (info: PrplInfo)
    ensures
        info.id@ == "prpl-flare-icq"@,
        info.name@ == "ICQ (Web)"@,
        info.version@ == "0.1"@,
        info.summary@ == "Web ICQ protocol implementation"@,
        info.description@ == "Web ICQ protocol implementation"@,
        info.author@ == "Israel Halle <israel.halle@flare.systems>"@,
        info.homepage@ == "https://github.com/Flared/purple-icq"@,
{
    PrplInfo {
        id: "prpl-flare-icq".to_owned(),
        name: "ICQ (Web)".to_owned(),
        version: "0.1".to_owned(),
        summary: "Web ICQ protocol implementation".to_owned(),
        description: "Web ICQ protocol implementation".to_owned(),
        author: "Israel Halle <israel.halle@flare.systems>".to_owned(),
        homepage: "https://github.com/Flared/purple-icq".to_owned(),
    }
}

/// The kinds of state that the host knows.
#[derive(Debug, Clone, Copy, PartialEq, Eq, Structural)]
pub enum StatusPrimitive {
    Available,
    Offline,
}

/// A state that an account can be in.
#[derive(Debug, Clone, Copy)]
pub struct StatusType {
    pub primitive: StatusPrimitive,
    pub id: &'static str,
    pub name: &'static str,
    pub user_settable: bool,
}

/// The states of an account: online and offline, both for the user to set.
pub fn status_types() -> (types: Vec<StatusType>)
    ensures
        types@.len() == 2,
        types@[0].primitive == StatusPrimitive::Available,
        types@[0].id@ == "online"@,
        types@[0].name@ == "Online"@,
        types@[0].user_settable,
        types@[1].primitive == StatusPrimitive::Offline,
        types@[1].id@ == "offline"@,
        types@[1].name@ == "Offline"@,
        types@[1].user_settable,
{
    let mut types: Vec<StatusType> = Vec::new();
    types.push(
        StatusType {
            primitive: StatusPrimitive::Available,
            id: "online",
            name: "Online",
            user_settable: true,
        },
    );
    types.push(
        StatusType {
            primitive: StatusPrimitive::Offline,
            id: "offline",
            name: "Offline",
            user_settable: true,
        },
    );
    types
}

/// The icon of the plugin in lists.
pub fn list_icon() -> (icon: &'static str)
    ensures
        icon@ == ICON_FILE@,
{
    ICON_FILE
}

/// A field of the dialog that joins a chat.
#[derive(Debug, Clone, Copy)]
pub struct ChatEntry {
    pub label: &'static str,
    pub identifier: &'static str,
    pub required: bool,
    pub is_int: bool,
    pub min: i32,
    pub max: i32,
    pub secret: bool,
}

/// The fields of the dialog that joins a chat: the chat's id, required, as
/// plain text.
pub fn chat_info() -> (entries: Vec<ChatEntry>)
    ensures
        entries@.len() == 1,
        entries@[0].label@ == SN_NAME@,
        entries@[0].identifier@ == SN@,
        entries@[0].required,
        !entries@[0].is_int,
        entries@[0].min == 0,
        entries@[0].max == 0,
        !entries@[0].secret,
{
    let mut entries: Vec<ChatEntry> = Vec::new();
    entries.push(
        ChatEntry {
            label: SN_NAME,
            identifier: SN,
            required: true,
            is_int: false,
            min: 0,
            max: 0,
            secret: false,
        },
    );
    entries
}

} // verus!
