//! The local state of one connection, and how server-pushed data is merged
//! into it: the chat entries of the buddy list, its folders, and the open
//! conversations with their chat descriptor and history cursor.
//!
//! Every operation is specified by a transition on [`ReconcilerView`], the
//! state as plain values.

use crate::chat_info::{
    clone_opt, opt_view, ChatBuddyFlags, ChatInfo, ChatInfoVersion, ChatInfoView, MemberRole,
    PartialChatInfo, PartialChatInfoView, StrHashTable, SN, STATE,
};
use crate::messages::{GetChatInfoMessageData, GetHistoryMessageData, JoinChatMessageData, SendMsgMessageData};
use crate::text::{ends_with, has_suffix, parse_u32, push_char, str_eq, u32_of};
use vstd::string::StringExecFns;
use vstd::prelude::*;

verus! {

/// Value of the join state in the components of a chat that was joined.
pub const JOINED: &'static str = "joined";

/// Folder that a chat is filed under when it names none.
pub const DEFAULT_GROUP: &'static str = "ICQ";

/// Ending of the stable name of a group chat.
pub const GROUP_CHAT_SUFFIX: &'static str = "@chat.agent";

/// How far back the history of a conversation is known.
#[derive(Debug, Clone)]
pub struct HistoryInfo {
    pub oldest_message_id: Option<String>,
    pub oldest_message_timestamp: Option<i64>,
}

/// What a [`HistoryInfo`] holds, as plain values.
pub struct HistoryInfoView {
    pub oldest_message_id: Option<Seq<char>>,
    pub oldest_message_timestamp: Option<i64>,
}

impl View for HistoryInfo {
    type V = HistoryInfoView;

    open spec fn view(&self) -> HistoryInfoView {
        HistoryInfoView {
            oldest_message_id: opt_view(self.oldest_message_id),
            oldest_message_timestamp: self.oldest_message_timestamp,
        }
    }
}

/// A message of a chat, ready to be shown.
#[derive(Debug, Clone)]
pub struct MsgInfo {
    pub chat_sn: String,
    pub author_sn: String,
    pub author_friendly: String,
    pub text: String,
    pub time: i64,
    pub message_id: String,
}

/// What a [`MsgInfo`] holds, as plain values.
pub struct MsgInfoView {
    pub chat_sn: Seq<char>,
    pub author_sn: Seq<char>,
    pub author_friendly: Seq<char>,
    pub text: Seq<char>,
    pub time: i64,
    pub message_id: Seq<char>,
}

impl View for MsgInfo {
    type V = MsgInfoView;

    open spec fn view(&self) -> MsgInfoView {
        MsgInfoView {
            chat_sn: self.chat_sn@,
            author_sn: self.author_sn@,
            author_friendly: self.author_friendly@,
            text: self.text@,
            time: self.time,
            message_id: self.message_id@,
        }
    }
}

impl HistoryInfoView {
    /// The cursor before any message was seen.
    pub open spec fn empty() -> HistoryInfoView {
        HistoryInfoView { oldest_message_id: None, oldest_message_timestamp: None }
    }

    /// The cursor after a message with the given id and time was seen: the
    /// message becomes the oldest known one where none was known or it is
    /// strictly older; otherwise the cursor stays.
    pub open spec fn observe(self, message_id: Seq<char>, time: i64) -> HistoryInfoView {
        match self.oldest_message_timestamp {
            None => HistoryInfoView {
                oldest_message_id: Some(message_id),
                oldest_message_timestamp: Some(time),
            },
            Some(existing) => if time < existing {
                HistoryInfoView {
                    oldest_message_id: Some(message_id),
                    oldest_message_timestamp: Some(time),
                }
            } else {
                self
            },
        }
    }
}

impl HistoryInfo {
    /// A cursor that knows no message yet.
    pub fn new() -> (cursor: HistoryInfo)
        ensures
            cursor@ == HistoryInfoView::empty(),
    {
        HistoryInfo { oldest_message_id: None, oldest_message_timestamp: None }
    }

    /// Takes note of a message: the cursor moves to it where it is strictly
    /// older than the oldest known one, or none is known. Returns whether the
    /// cursor moved.
    pub fn observe(&mut self, message_id: &str, time: i64) -> (moved: bool)
        ensures
            final(self)@ == old(self)@.observe(message_id@, time),
            moved == match old(self)@.oldest_message_timestamp {
                None => true,
                Some(existing) => time < existing,
            },
    {
        let moved = match self.oldest_message_timestamp {
            None => true,
            Some(existing) => time < existing,
        };
        if moved {
            self.oldest_message_id = Some(message_id.to_owned());
            self.oldest_message_timestamp = Some(time);
        }
        moved
    }

    /// A copy of the cursor.
    pub fn clone_info(&self) -> (out: HistoryInfo)
        ensures
            out@ == self@,
    {
        HistoryInfo {
            oldest_message_id: clone_opt(&self.oldest_message_id),
            oldest_message_timestamp: self.oldest_message_timestamp,
        }
    }
}

/// The cursor only moves backward: a message that is not older than the
/// cursor leaves it as it is, and an older one replaces both the id and the
/// timestamp.
pub proof fn lemma_cursor_moves_backward(
    cursor: HistoryInfoView,
    existing: i64,
    message_id: Seq<char>,
    time: i64,
)
    requires
        cursor.oldest_message_timestamp == Some(existing),
    ensures
        time >= existing ==> cursor.observe(message_id, time) == cursor,
        time < existing ==> cursor.observe(message_id, time).oldest_message_id == Some(message_id)
            && cursor.observe(message_id, time).oldest_message_timestamp == Some(time),
{
}

/// The timestamp of the cursor never grows, whatever message is seen.
pub proof fn lemma_cursor_never_advances(cursor: HistoryInfoView, message_id: Seq<char>, time: i64)
    ensures
        cursor.observe(message_id, time).oldest_message_timestamp is Some,
        cursor.oldest_message_timestamp matches Some(existing) ==> cursor.observe(
            message_id,
            time,
        ).oldest_message_timestamp->0 <= existing,
{
}

/// A chat entry of the local buddy list.
#[derive(Debug, Clone)]
pub struct LocalChat {
    pub sn: String,
    pub alias: String,
    pub group: Option<String>,
    pub last_seen_timestamp: i64,
    pub components: StrHashTable,
}

/// What a [`LocalChat`] holds, as plain values.
pub struct LocalChatView {
    pub sn: Seq<char>,
    pub alias: Seq<char>,
    pub group: Option<Seq<char>>,
    pub last_seen_timestamp: i64,
    pub components: Map<Seq<char>, Seq<char>>,
}

impl View for LocalChat {
    type V = LocalChatView;

    open spec fn view(&self) -> LocalChatView {
        LocalChatView {
            sn: self.sn@,
            alias: self.alias@,
            group: opt_view(self.group),
            last_seen_timestamp: self.last_seen_timestamp,
            components: self.components@,
        }
    }
}

/// A member as the member list of a conversation shows it.
#[derive(Debug, Clone)]
pub struct ChatUser {
    pub sn: String,
    pub flags: ChatBuddyFlags,
}

/// What a [`ChatUser`] holds, as plain values.
pub struct ChatUserView {
    pub sn: Seq<char>,
    pub flags: ChatBuddyFlags,
}

impl View for ChatUser {
    type V = ChatUserView;

    open spec fn view(&self) -> ChatUserView {
        ChatUserView { sn: self.sn@, flags: self.flags }
    }
}

/// An open conversation with what the core attaches to it.
#[derive(Debug, Clone)]
pub struct Conversation {
    pub sn: String,
    pub title: String,
    pub has_left: bool,
    pub chat_info: Option<ChatInfo>,
    pub history: Option<HistoryInfo>,
    pub users: Vec<ChatUser>,
}

/// What a [`Conversation`] holds, as plain values.
pub struct ConversationView {
    pub sn: Seq<char>,
    pub title: Seq<char>,
    pub has_left: bool,
    pub chat_info: Option<ChatInfoView>,
    pub history: Option<HistoryInfoView>,
    pub users: Seq<ChatUserView>,
}

impl View for Conversation {
    type V = ConversationView;

    open spec fn view(&self) -> ConversationView {
        ConversationView {
            sn: self.sn@,
            title: self.title@,
            has_left: self.has_left,
            chat_info: match self.chat_info {
                Some(info) => Some(info@),
                None => None,
            },
            history: match self.history {
                Some(history) => Some(history@),
                None => None,
            },
            users: Seq::new(self.users@.len(), |i: int| self.users@[i]@),
        }
    }
}

/// What became of a chat entry when a chat was joined.
#[derive(Debug, Clone, Copy, PartialEq, Eq, Structural)]
pub enum ChatJoined {
    /// A new entry was made and filed under its folder.
    Created,
    /// The entry was there: its alias was set, and it was moved to another
    /// folder where `moved` says so.
    Updated { moved: bool },
}

/// What became of a conversation when it was joined.
#[derive(Debug, Clone, Copy, PartialEq, Eq, Structural)]
pub enum ConversationJoined {
    /// A new conversation was opened and titled.
    Created,
    /// The conversation was there and is brought to the front.
    Presented,
    /// The conversation was there but has been left: nothing is done.
    HasLeft,
}

/// The state of one connection, as plain values.
pub struct ReconcilerView {
    pub chats: Seq<LocalChatView>,
    pub groups: Seq<Seq<char>>,
    pub conversations: Seq<ConversationView>,
}

/// Where the chat entry with the stable name `sn` stands.
pub open spec fn chat_at(chats: Seq<LocalChatView>, sn: Seq<char>) -> Option<int> {
    if exists|i: int| 0 <= i < chats.len() && (#[trigger] chats[i]).sn == sn {
        Some(choose|i: int| 0 <= i < chats.len() && (#[trigger] chats[i]).sn == sn)
    } else {
        None
    }
}

/// Where the conversation with the stable name `sn` stands.
pub open spec fn conversation_at(conversations: Seq<ConversationView>, sn: Seq<char>) -> Option<
    int,
> {
    if exists|i: int| 0 <= i < conversations.len() && (#[trigger] conversations[i]).sn == sn {
        Some(choose|i: int| 0 <= i < conversations.len() && (#[trigger] conversations[i]).sn == sn)
    } else {
        None
    }
}

/// The folders with `name` among them: added at the end where it was not.
pub open spec fn with_group(groups: Seq<Seq<char>>, name: Seq<char>) -> Seq<Seq<char>> {
    if groups.contains(name) {
        groups
    } else {
        groups.push(name)
    }
}

/// The stable name is that of a group chat.
pub open spec fn is_group_chat(sn: Seq<char>) -> bool {
    has_suffix(sn, GROUP_CHAT_SUFFIX@)
}

impl ReconcilerView {
    /// No two chat entries, no two conversations and no two folders share a
    /// name.
    pub open spec fn wf(self) -> bool {
        &&& forall|i: int, j: int|
            0 <= i < j < self.chats.len() ==> (#[trigger] self.chats[i]).sn != (
            #[trigger] self.chats[j]).sn
        &&& forall|i: int, j: int|
            0 <= i < j < self.conversations.len() ==> (#[trigger] self.conversations[i]).sn != (
            #[trigger] self.conversations[j]).sn
        &&& forall|i: int, j: int|
            0 <= i < j < self.groups.len() ==> #[trigger] self.groups[i] != #[trigger] self.groups[j]
    }

    /// The components that a new chat entry is made with: the descriptor's
    /// table, marked as joined.
    pub open spec fn joined_components(info: PartialChatInfoView) -> Map<Seq<char>, Seq<char>> {
        PartialChatInfo::table_of(info).insert(STATE@, JOINED@)
    }

    /// Joining a group chat: where an entry with the stable name exists, its
    /// alias becomes the title, and it moves to the descriptor's folder where
    /// that is given and differs from the one it is filed under; where none
    /// exists, one is made and filed under the descriptor's folder, or the
    /// default one.
    pub open spec fn group_chat_joined(self, info: PartialChatInfoView) -> (
        ReconcilerView,
        ChatJoined,
    ) {
        match chat_at(self.chats, info.sn) {
            Some(i) => {
                let chat = self.chats[i];
                let moved = info.group is Some && chat.group != info.group;
                let updated = LocalChatView {
                    alias: info.title,
                    group: if moved {
                        info.group
                    } else {
                        chat.group
                    },
                    ..chat
                };
                (
                    ReconcilerView {
                        chats: self.chats.update(i, updated),
                        groups: if moved {
                            with_group(self.groups, info.group->0)
                        } else {
                            self.groups
                        },
                        ..self
                    },
                    ChatJoined::Updated { moved },
                )
            },
            None => {
                let group = match info.group {
                    Some(group) => group,
                    None => DEFAULT_GROUP@,
                };
                let created = LocalChatView {
                    sn: info.sn,
                    alias: info.title,
                    group: Some(group),
                    last_seen_timestamp: 0,
                    components: Self::joined_components(info),
                };
                (
                    ReconcilerView {
                        chats: self.chats.push(created),
                        groups: with_group(self.groups, group),
                        ..self
                    },
                    ChatJoined::Created,
                )
            },
        }
    }

    /// Joining a chat: a group chat gets its entry made or brought up to
    /// date; any other stable name has no entry in the buddy list, and the
    /// state stays as it is.
    pub open spec fn chat_joined(self, info: PartialChatInfoView) -> (
        ReconcilerView,
        Option<ChatJoined>,
    ) {
        if is_group_chat(info.sn) {
            (self.group_chat_joined(info).0, Some(self.group_chat_joined(info).1))
        } else {
            (self, None)
        }
    }

    /// Joining a conversation: one that exists stays as it is; where none
    /// exists, one is opened under the descriptor's title.
    pub open spec fn conversation_joined(self, info: PartialChatInfoView) -> (
        ReconcilerView,
        ConversationJoined,
    ) {
        match conversation_at(self.conversations, info.sn) {
            Some(i) => (
                self,
                if self.conversations[i].has_left {
                    ConversationJoined::HasLeft
                } else {
                    ConversationJoined::Presented
                },
            ),
            None => (
                ReconcilerView {
                    conversations: self.conversations.push(
                        ConversationView {
                            sn: info.sn,
                            title: info.title,
                            has_left: false,
                            chat_info: None,
                            history: None,
                            users: Seq::empty(),
                        },
                    ),
                    ..self
                },
                ConversationJoined::Created,
            ),
        }
    }
}

/// The state of one connection: the buddy list's chat entries and folders,
/// and the open conversations.
#[derive(Debug, Clone)]
pub struct Reconciler {
    chats: Vec<LocalChat>,
    groups: Vec<String>,
    conversations: Vec<Conversation>,
}

impl View for Reconciler {
    type V = ReconcilerView;

    closed spec fn view(&self) -> ReconcilerView {
        ReconcilerView {
            chats: Seq::new(self.chats@.len(), |i: int| self.chats@[i]@),
            groups: Seq::new(self.groups@.len(), |i: int| self.groups@[i]@),
            conversations: Seq::new(self.conversations@.len(), |i: int| self.conversations@[i]@),
        }
    }
}

impl PartialChatInfo {
    /// The components that a new chat entry is made with.
    pub fn joined_components(&self) -> (table: StrHashTable)
        ensures
            table@ == ReconcilerView::joined_components(self@),
    {
        let mut table = self.as_hashtable();
        table.insert(STATE, JOINED);
        table
    }
}

impl Reconciler {
    /// The state is well formed: see [`ReconcilerView::wf`].
    pub open spec fn wf(&self) -> bool {
        self@.wf()
    }

    /// The state of a fresh connection: no chat entry, folder or
    /// conversation.
    pub fn new() -> (state: Reconciler)
        ensures
            state.wf(),
            state@.chats.len() == 0,
            state@.groups.len() == 0,
            state@.conversations.len() == 0,
    {
        Reconciler { chats: Vec::new(), groups: Vec::new(), conversations: Vec::new() }
    }

    /// The position of the chat entry with the stable name `sn`.
    pub fn find_chat(&self, sn: &str) -> (at: Option<usize>)
        requires
            self.wf(),
        ensures
            match at {
                Some(i) => chat_at(self@.chats, sn@) == Some(i as int) && i < self@.chats.len()
                    && self@.chats[i as int].sn == sn@,
                None => chat_at(self@.chats, sn@) is None,
            },
    {
        let mut i: usize = 0;
        while i < self.chats.len()
            invariant
                i <= self.chats@.len(),
                self.wf(),
                self@.chats.len() == self.chats@.len(),
                forall|k: int| 0 <= k < i ==> (#[trigger] self@.chats[k]).sn != sn@,
            decreases self.chats@.len() - i,
        {
            if str_eq(self.chats[i].sn.as_str(), sn) {
                proof {
                    assert(self@.chats[i as int].sn == sn@);
                    let j = chat_at(self@.chats, sn@)->0;
                    if j < i {
                        assert(self@.chats[j].sn != self@.chats[i as int].sn);
                    } else if i < j {
                        assert(self@.chats[i as int].sn != self@.chats[j].sn);
                    }
                }
                return Some(i);
            }
            i += 1;
        }
        None
    }

    /// The position of the conversation with the stable name `sn`.
    pub fn find_conversation(&self, sn: &str) -> (at: Option<usize>)
        requires
            self.wf(),
        ensures
            match at {
                Some(i) => conversation_at(self@.conversations, sn@) == Some(i as int) && i
                    < self@.conversations.len() && self@.conversations[i as int].sn == sn@,
                None => conversation_at(self@.conversations, sn@) is None,
            },
    {
        let mut i: usize = 0;
        while i < self.conversations.len()
            invariant
                i <= self.conversations@.len(),
                self.wf(),
                self@.conversations.len() == self.conversations@.len(),
                forall|k: int| 0 <= k < i ==> (#[trigger] self@.conversations[k]).sn != sn@,
            decreases self.conversations@.len() - i,
        {
            if str_eq(self.conversations[i].sn.as_str(), sn) {
                proof {
                    assert(self@.conversations[i as int].sn == sn@);
                    let j = conversation_at(self@.conversations, sn@)->0;
                    if j < i {
                        assert(self@.conversations[j].sn != self@.conversations[i as int].sn);
                    } else if i < j {
                        assert(self@.conversations[i as int].sn != self@.conversations[j].sn);
                    }
                }
                return Some(i);
            }
            i += 1;
        }
        None
    }

    /// Makes sure that a folder of the given name exists; without a name,
    /// that the default folder does. Returns the folder's name.
    pub fn get_or_create_group(&mut self, name: Option<&str>) -> (group: String)
        requires
            old(self).wf(),
        ensures
            final(self).wf(),
            group@ == match name {
                Some(name) => name@,
                None => DEFAULT_GROUP@,
            },
            final(self)@ == (ReconcilerView {
                groups: with_group(old(self)@.groups, group@),
                ..old(self)@
            }),
    {
        let name: &str = match name {
            Some(name) => name,
            None => DEFAULT_GROUP,
        };
        let ghost before = self@;
        let mut i: usize = 0;
        let mut found = false;
        while i < self.groups.len() && !found
            invariant
                i <= self.groups@.len(),
                self@ == before,
                before.groups.len() == self.groups@.len(),
                forall|k: int| 0 <= k < i ==> #[trigger] before.groups[k] != name@,
                found ==> before.groups.contains(name@),
            decreases self.groups@.len() - i + (if found { 0int } else { 1int }),
        {
            if str_eq(self.groups[i].as_str(), name) {
                assert(before.groups[i as int] == name@);
                found = true;
            } else {
                i += 1;
            }
        }
        if !found {
            self.groups.push(name.to_owned());
            assert(self@.groups =~= before.groups.push(name@));
            assert(self@.chats =~= before.chats);
            assert(self@.conversations =~= before.conversations);
        }
        name.to_owned()
    }

    /// Makes or brings up to date the buddy-list entry of a group chat.
    pub fn group_chat_joined(&mut self, info: &PartialChatInfo) -> (outcome: ChatJoined)
        requires
            old(self).wf(),
        ensures
            final(self).wf(),
            final(self)@ == old(self)@.group_chat_joined(info@).0,
            outcome == old(self)@.group_chat_joined(info@).1,
    {
        let ghost before = self@;
        match self.find_chat(info.sn.as_str()) {
            Some(i) => {
                let moved = match &info.group {
                    Some(group) => match &self.chats[i].group {
                        Some(current) => !str_eq(current.as_str(), group.as_str()),
                        None => true,
                    },
                    None => false,
                };
                if moved {
                    match &info.group {
                        Some(group) => {
                            let _ = self.get_or_create_group(Some(group.as_str()));
                        },
                        None => {},
                    }
                }
                let ghost middle = self@;
                let mut chat = self.chats.remove(i);
                if moved {
                    chat.group = clone_opt(&info.group);
                }
                chat.alias = info.title.clone();
                self.chats.insert(i, chat);
                proof {
                    assert(self@.chats =~= middle.chats.update(i as int, chat@));
                    assert(self@.groups =~= middle.groups);
                    assert(self@.conversations =~= middle.conversations);
                }
                ChatJoined::Updated { moved }
            },
            None => {
                let group = match &info.group {
                    Some(group) => self.get_or_create_group(Some(group.as_str())),
                    None => self.get_or_create_group(None),
                };
                let ghost middle = self@;
                let chat = LocalChat {
                    sn: info.sn.clone(),
                    alias: info.title.clone(),
                    group: Some(group),
                    last_seen_timestamp: 0,
                    components: info.joined_components(),
                };
                self.chats.push(chat);
                proof {
                    assert(self@.chats =~= middle.chats.push(chat@));
                    assert(self@.groups =~= middle.groups);
                    assert(self@.conversations =~= middle.conversations);
                }
                ChatJoined::Created
            },
        }
    }

    /// Records that a chat was joined: see [`ReconcilerView::chat_joined`].
    pub fn chat_joined(&mut self, info: &PartialChatInfo) -> (outcome: Option<ChatJoined>)
        requires
            old(self).wf(),
        ensures
            final(self).wf(),
            final(self)@ == old(self)@.chat_joined(info@).0,
            outcome == old(self)@.chat_joined(info@).1,
    {
        if ends_with(info.sn.as_str(), GROUP_CHAT_SUFFIX) {
            Some(self.group_chat_joined(info))
        } else {
            None
        }
    }

    /// Opens the conversation of a chat unless it is open already: see
    /// [`ReconcilerView::conversation_joined`].
    pub fn conversation_joined(&mut self, info: &PartialChatInfo) -> (outcome: ConversationJoined)
        requires
            old(self).wf(),
        ensures
            final(self).wf(),
            final(self)@ == old(self)@.conversation_joined(info@).0,
            outcome == old(self)@.conversation_joined(info@).1,
    {
        let ghost before = self@;
        match self.find_conversation(info.sn.as_str()) {
            Some(i) => {
                if self.conversations[i].has_left {
                    ConversationJoined::HasLeft
                } else {
                    ConversationJoined::Presented
                }
            },
            None => {
                let conversation = Conversation {
                    sn: info.sn.clone(),
                    title: info.title.clone(),
                    has_left: false,
                    chat_info: None,
                    history: None,
                    users: Vec::new(),
                };
                self.conversations.push(conversation);
                proof {
                    assert(conversation@.users =~= Seq::empty());
                    assert(self@.conversations =~= before.conversations.push(conversation@));
                    assert(self@.chats =~= before.chats);
                    assert(self@.groups =~= before.groups);
                }
                ConversationJoined::Created
            },
        }
    }
}

/// What became of an incoming message.
#[derive(Debug, Clone, Copy, PartialEq, Eq, Structural)]
pub struct MessageOutcome {
    /// The buddy list has an entry for the message's chat.
    pub chat_known: bool,
    /// The message was newer than every earlier one of its chat, and this is
    /// what became of the chat's conversation.
    pub joined: Option<ConversationJoined>,
    /// The history cursor of the conversation moved to this message.
    pub cursor_moved: bool,
}

impl MsgInfoView {
    /// The descriptor under which the conversation of a message is joined:
    /// the chat's stable name, titled with the author's display name.
    pub open spec fn conversation(self) -> PartialChatInfoView {
        PartialChatInfoView { sn: self.chat_sn, title: self.author_friendly, group: None }
    }

    /// The sender as the conversation shows it: the display name where it is
    /// the stable name, else the stable name, an exclamation mark and the
    /// display name.
    pub open spec fn who(self) -> Seq<char> {
        if self.author_friendly == self.author_sn {
            self.author_friendly
        } else {
            self.author_sn + seq!['!'] + self.author_friendly
        }
    }
}

impl MsgInfo {
    /// The sender as the conversation shows it.
    pub fn who(&self) -> (label: String)
        ensures
            label@ == self@.who(),
    {
        if str_eq(self.author_friendly.as_str(), self.author_sn.as_str()) {
            self.author_friendly.clone()
        } else {
            let mut label = self.author_sn.clone();
            push_char(&mut label, '!');
            label.append(self.author_friendly.as_str());
            label
        }
    }
}

impl ConversationView {
    /// The conversation with its history cursor having seen a message.
    pub open spec fn observe(self, message_id: Seq<char>, time: i64) -> ConversationView {
        ConversationView {
            history: Some(
                match self.history {
                    Some(history) => history,
                    None => HistoryInfoView::empty(),
                }.observe(message_id, time),
            ),
            ..self
        }
    }

    /// Whether a message with the given time moves the cursor.
    pub open spec fn moves_cursor(self, time: i64) -> bool {
        match self.history {
            Some(history) => match history.oldest_message_timestamp {
                Some(existing) => time < existing,
                None => true,
            },
            None => true,
        }
    }

    /// The members that the member list shows for a description: each
    /// member with the mark of its role.
    pub open spec fn users_of(info: ChatInfoView) -> Seq<ChatUserView> {
        Seq::new(
            info.members.len(),
            |i: int|
                ChatUserView {
                    sn: info.members[i].sn,
                    flags: MemberRole::flags_of(info.members[i].role),
                },
        )
    }

    /// The display name that the attached description gives the member
    /// `who`: that of the first member of this stable name that has one.
    pub open spec fn alias_of(self, who: Seq<char>) -> Option<Seq<char>> {
        match self.chat_info {
            Some(info) => first_alias(info.members, who),
            None => None,
        }
    }
}

/// The display name of the first member called `who` that has one.
pub open spec fn first_alias(members: Seq<crate::chat_info::ChatMemberView>, who: Seq<char>) -> Option<
    Seq<char>,
>
    decreases members.len(),
{
    if members.len() == 0 {
        None
    } else if members[0].sn == who && members[0].friendly_name is Some {
        members[0].friendly_name
    } else {
        first_alias(members.drop_first(), who)
    }
}

/// What the host is to do when the user asks to join a chat.
#[derive(Debug, Clone)]
pub enum JoinRequest {
    /// Nothing: the request names no chat.
    Ignored,
    /// The chat was joined before: its conversation was opened, with the
    /// given outcome, and its description is to be fetched.
    Rejoined { joined: ConversationJoined, info_request: GetChatInfoMessageData },
    /// The chat is to be joined on the service.
    Join { join_request: JoinChatMessageData },
}

impl ReconcilerView {
    /// An incoming message: where the buddy list has no entry for its chat,
    /// nothing changes. Otherwise, where the message is newer than the last
    /// one seen of its chat, that time is noted and the conversation is
    /// joined; and the history cursor of the chat's conversation, where there
    /// is one, takes note of the message.
    pub open spec fn serv_got_chat_in(self, msg: MsgInfoView) -> (ReconcilerView, MessageOutcome) {
        match chat_at(self.chats, msg.chat_sn) {
            None => (self, MessageOutcome { chat_known: false, joined: None, cursor_moved: false }),
            Some(i) => {
                let newer = msg.time > self.chats[i].last_seen_timestamp;
                let noted = ReconcilerView {
                    chats: self.chats.update(
                        i,
                        LocalChatView { last_seen_timestamp: msg.time, ..self.chats[i] },
                    ),
                    ..self
                };
                let joined_state = if newer {
                    noted.conversation_joined(msg.conversation()).0
                } else {
                    self
                };
                let joined = if newer {
                    Some(noted.conversation_joined(msg.conversation()).1)
                } else {
                    None
                };
                match conversation_at(joined_state.conversations, msg.chat_sn) {
                    Some(c) => (
                        ReconcilerView {
                            conversations: joined_state.conversations.update(
                                c,
                                joined_state.conversations[c].observe(msg.message_id, msg.time),
                            ),
                            ..joined_state
                        },
                        MessageOutcome {
                            chat_known: true,
                            joined,
                            cursor_moved: joined_state.conversations[c].moves_cursor(msg.time),
                        },
                    ),
                    None => (
                        joined_state,
                        MessageOutcome { chat_known: true, joined, cursor_moved: false },
                    ),
                }
            },
        }
    }

    /// Whether the description of the chat `sn` must be fetched, given the
    /// versions that the service reports: it must where the chat has a
    /// conversation whose description is missing or stale.
    pub open spec fn check_chat_info(
        self,
        sn: Seq<char>,
        members_version: Seq<char>,
        info_version: Seq<char>,
    ) -> bool {
        match conversation_at(self.conversations, sn) {
            Some(c) => match self.conversations[c].chat_info {
                Some(info) => ChatInfo::stale(info, members_version, info_version),
                None => true,
            },
            None => false,
        }
    }

    /// A fetched description replaces the one attached to the chat's
    /// conversation, and the member list is built anew from it. Without a
    /// conversation nothing changes.
    pub open spec fn load_chat_info(self, info: ChatInfoView) -> ReconcilerView {
        match conversation_at(self.conversations, info.sn) {
            Some(c) => ReconcilerView {
                conversations: self.conversations.update(
                    c,
                    ConversationView {
                        chat_info: Some(info),
                        users: ConversationView::users_of(info),
                        ..self.conversations[c]
                    },
                ),
                ..self
            },
            None => self,
        }
    }

    /// Leaving a chat detaches the description from its conversation.
    pub open spec fn chat_leave(self, sn: Seq<char>) -> ReconcilerView {
        match conversation_at(self.conversations, sn) {
            Some(c) => ReconcilerView {
                conversations: self.conversations.update(
                    c,
                    ConversationView { chat_info: None, ..self.conversations[c] },
                ),
                ..self
            },
            None => self,
        }
    }

    /// The id of the oldest known message of the chat `sn`.
    pub open spec fn oldest_message_id(self, sn: Seq<char>) -> Option<Seq<char>> {
        match conversation_at(self.conversations, sn) {
            Some(c) => match self.conversations[c].history {
                Some(history) => history.oldest_message_id,
                None => None,
            },
            None => None,
        }
    }

    /// The stable name under which messages to the conversation `sn` are
    /// sent: that of its attached description.
    pub open spec fn send_target(self, sn: Seq<char>) -> Option<Seq<char>> {
        match conversation_at(self.conversations, sn) {
            Some(c) => match self.conversations[c].chat_info {
                Some(info) => Some(info.sn),
                None => None,
            },
            None => None,
        }
    }

    /// The display name of the member `who` of the conversation `sn`.
    pub open spec fn cb_alias(self, sn: Seq<char>, who: Seq<char>) -> Option<Seq<char>> {
        match conversation_at(self.conversations, sn) {
            Some(c) => self.conversations[c].alias_of(who),
            None => None,
        }
    }
}

/// The number of messages that a history command asks for: the single
/// argument, read as a 32-bit unsigned numeral that a signed one can hold.
pub open spec fn history_count(args: Seq<Seq<char>>) -> Option<int> {
    if args.len() == 1 {
        match u32_of(args[0]) {
            Some(n) => if n <= i32::MAX {
                Some(n as int)
            } else {
                None
            },
            None => None,
        }
    } else {
        None
    }
}

/// The stable name that a chat's components give.
pub open spec fn chat_name_of(data: Option<Map<Seq<char>, Seq<char>>>) -> Option<Seq<char>> {
    match data {
        Some(table) => if table.contains_key(SN@) {
            Some(table[SN@])
        } else {
            None
        },
        None => None,
    }
}

/// The components say that the chat was joined before, and spell out a
/// descriptor.
pub open spec fn rejoins(table: Map<Seq<char>, Seq<char>>) -> bool {
    table.contains_key(STATE@) && table[STATE@] == JOINED@ && PartialChatInfo::of_table(table)
        is Some
}

/// The stable name that a chat's components give.
pub fn get_chat_name(data: Option<&StrHashTable>) -> (name: Option<String>)
    ensures
        opt_view(name) == chat_name_of(
            match data {
                Some(table) => Some(table@),
                None => None,
            },
        ),
{
    match data {
        Some(table) => table.lookup(SN),
        None => None,
    }
}

/// The components that the join dialog starts with: the stable name set to
/// the chat's name, or to nothing where there is none.
pub fn chat_info_defaults(chat_name: Option<&str>) -> (defaults: StrHashTable)
    ensures
        defaults@ == Map::<Seq<char>, Seq<char>>::empty().insert(
            SN@,
            match chat_name {
                Some(name) => name@,
                None => Seq::<char>::empty(),
            },
        ),
{
    let mut defaults = StrHashTable::new();
    match chat_name {
        Some(name) => {
            defaults.insert(SN, name);
        },
        None => {
            let empty = String::new();
            defaults.insert(SN, empty.as_str());
        },
    }
    defaults
}

impl Reconciler {
    /// Takes an incoming message in: see
    /// [`ReconcilerView::serv_got_chat_in`].
    pub fn serv_got_chat_in(&mut self, msg_info: &MsgInfo) -> (outcome: MessageOutcome)
        requires
            old(self).wf(),
        ensures
            final(self).wf(),
            final(self)@ == old(self)@.serv_got_chat_in(msg_info@).0,
            outcome == old(self)@.serv_got_chat_in(msg_info@).1,
    {
        let ghost before = self@;
        let i = match self.find_chat(msg_info.chat_sn.as_str()) {
            Some(i) => i,
            None => {
                return MessageOutcome { chat_known: false, joined: None, cursor_moved: false };
            },
        };
        let newer = msg_info.time > self.chats[i].last_seen_timestamp;
        let mut joined: Option<ConversationJoined> = None;
        if newer {
            let mut chat = self.chats.remove(i);
            chat.last_seen_timestamp = msg_info.time;
            self.chats.insert(i, chat);
            proof {
                assert(self@.chats =~= before.chats.update(i as int, chat@));
                assert(self@.groups =~= before.groups);
                assert(self@.conversations =~= before.conversations);
            }
            let info = PartialChatInfo {
                sn: msg_info.chat_sn.clone(),
                title: msg_info.author_friendly.clone(),
                group: None,
            };
            joined = Some(self.conversation_joined(&info));
        }
        let ghost joined_state = self@;
        match self.find_conversation(msg_info.chat_sn.as_str()) {
            Some(c) => {
                let mut conversation = self.conversations.remove(c);
                let mut history = match conversation.history {
                    Some(history) => history,
                    None => HistoryInfo::new(),
                };
                let cursor_moved = history.observe(msg_info.message_id.as_str(), msg_info.time);
                conversation.history = Some(history);
                self.conversations.insert(c, conversation);
                proof {
                    assert(conversation@ == joined_state.conversations[c as int].observe(
                        msg_info@.message_id,
                        msg_info@.time,
                    ));
                    assert(self@.conversations =~= joined_state.conversations.update(
                        c as int,
                        conversation@,
                    ));
                    assert(self@.chats =~= joined_state.chats);
                    assert(self@.groups =~= joined_state.groups);
                }
                MessageOutcome { chat_known: true, joined, cursor_moved }
            },
            None => MessageOutcome { chat_known: true, joined, cursor_moved: false },
        }
    }

    /// Decides whether the description of a chat must be fetched, and
    /// returns the command that fetches it: see
    /// [`ReconcilerView::check_chat_info`].
    pub fn check_chat_info(&self, sn: &str, version: &ChatInfoVersion) -> (request: Option<
        GetChatInfoMessageData,
    >)
        requires
            self.wf(),
        ensures
            request is Some == self@.check_chat_info(
                sn@,
                version.members_version@,
                version.info_version@,
            ),
            request matches Some(r) ==> r.sn@ == sn@,
    {
        match self.find_conversation(sn) {
            Some(c) => {
                let stale = match &self.conversations[c].chat_info {
                    Some(info) => info.need_update(version),
                    None => true,
                };
                if stale {
                    Some(GetChatInfoMessageData { sn: sn.to_owned() })
                } else {
                    None
                }
            },
            None => None,
        }
    }

    /// Attaches a fetched description to the conversation of its chat and
    /// rebuilds the member list from it. Returns whether there was such a
    /// conversation.
    pub fn load_chat_info(&mut self, info: &ChatInfo) -> (loaded: bool)
        requires
            old(self).wf(),
        ensures
            final(self).wf(),
            final(self)@ == old(self)@.load_chat_info(info@),
            loaded == conversation_at(old(self)@.conversations, info@.sn) is Some,
    {
        let ghost before = self@;
        match self.find_conversation(info.sn.as_str()) {
            Some(c) => {
                let mut users: Vec<ChatUser> = Vec::new();
                let mut k: usize = 0;
                while k < info.members.len()
                    invariant
                        k <= info.members@.len(),
                        users@.len() == k,
                        forall|j: int|
                            0 <= j < k ==> (#[trigger] users@[j])@ == (ChatUserView {
                                sn: info.members@[j].sn@,
                                flags: MemberRole::flags_of(info.members@[j].role.0@),
                            }),
                    decreases info.members@.len() - k,
                {
                    let member = &info.members[k];
                    users.push(ChatUser { sn: member.sn.clone(), flags: member.role.as_flags() });
                    k += 1;
                }
                let mut conversation = self.conversations.remove(c);
                conversation.chat_info = Some(info.clone_info());
                conversation.users = users;
                self.conversations.insert(c, conversation);
                proof {
                    assert(conversation@.users =~= ConversationView::users_of(info@));
                    assert(self@.conversations =~= before.conversations.update(
                        c as int,
                        conversation@,
                    ));
                    assert(self@.chats =~= before.chats);
                    assert(self@.groups =~= before.groups);
                }
                true
            },
            None => false,
        }
    }

    /// Detaches the description from the conversation of the chat `sn`.
    /// Returns whether there was such a conversation.
    pub fn chat_leave(&mut self, sn: &str) -> (found: bool)
        requires
            old(self).wf(),
        ensures
            final(self).wf(),
            final(self)@ == old(self)@.chat_leave(sn@),
            found == conversation_at(old(self)@.conversations, sn@) is Some,
    {
        let ghost before = self@;
        match self.find_conversation(sn) {
            Some(c) => {
                let mut conversation = self.conversations.remove(c);
                conversation.chat_info = None;
                self.conversations.insert(c, conversation);
                proof {
                    assert(self@.conversations =~= before.conversations.update(
                        c as int,
                        conversation@,
                    ));
                    assert(self@.chats =~= before.chats);
                    assert(self@.groups =~= before.groups);
                }
                true
            },
            None => false,
        }
    }

    /// The history command of the conversation `sn`: with one argument that
    /// is a count, and an oldest known message, the command that fetches
    /// that many messages before it; nothing otherwise.
    pub fn command_history(&self, sn: &str, args: &Vec<String>) -> (request: Option<
        GetHistoryMessageData,
    >)
        requires
            self.wf(),
        ensures
            match request {
                Some(r) => history_count(Seq::new(args@.len(), |i: int| args@[i]@)) == Some(
                    -(r.count as int),
                ) && self@.oldest_message_id(sn@) == Some(r.from_msg_id@) && r.sn@ == sn@,
                None => history_count(Seq::new(args@.len(), |i: int| args@[i]@)) is None
                    || self@.oldest_message_id(sn@) is None,
            },
    {
        if args.len() != 1 {
            return None;
        }
        let input = match parse_u32(args[0].as_str()) {
            Some(input) => input,
            None => {
                return None;
            },
        };
        if input > 2147483647 {
            return None;
        }
        let count: i32 = 0 - (input as i32);
        let c = match self.find_conversation(sn) {
            Some(c) => c,
            None => {
                return None;
            },
        };
        let from_msg_id = match &self.conversations[c].history {
            Some(history) => match &history.oldest_message_id {
                Some(id) => id.clone(),
                None => {
                    return None;
                },
            },
            None => {
                return None;
            },
        };
        Some(GetHistoryMessageData { sn: sn.to_owned(), from_msg_id, count })
    }

    /// A command that the user gave in the conversation `sn`: the history
    /// command gives what [`Self::command_history`] gives; every other
    /// command fails.
    pub fn command(&self, sn: &str, command: &str, args: &Vec<String>) -> (request: Option<
        GetHistoryMessageData,
    >)
        requires
            self.wf(),
        ensures
            command@ != crate::plugin::HISTORY@ ==> request is None,
            command@ == crate::plugin::HISTORY@ ==> match request {
                Some(r) => history_count(Seq::new(args@.len(), |i: int| args@[i]@)) == Some(
                    -(r.count as int),
                ) && self@.oldest_message_id(sn@) == Some(r.from_msg_id@) && r.sn@ == sn@,
                None => history_count(Seq::new(args@.len(), |i: int| args@[i]@)) is None
                    || self@.oldest_message_id(sn@) is None,
            },
    {
        if str_eq(command, crate::plugin::HISTORY) {
            self.command_history(sn, args)
        } else {
            None
        }
    }

    /// The user asks to join a chat, given the chat's components. Without
    /// components or a stable name in them nothing is done. Components of a
    /// chat that was joined before open its conversation and ask for its
    /// description; any others ask the service to join the chat.
    pub fn join_chat(&mut self, data: Option<&StrHashTable>) -> (request: JoinRequest)
        requires
            old(self).wf(),
        ensures
            final(self).wf(),
            match data {
                Some(table) => match chat_name_of(Some(table@)) {
                    Some(stamp) => if rejoins(table@) {
                        let info = PartialChatInfo::of_table(table@)->0;
                        &&& final(self)@ == old(self)@.conversation_joined(info).0
                        &&& request matches JoinRequest::Rejoined { joined, info_request }
                        &&& joined == old(self)@.conversation_joined(info).1
                        &&& info_request.sn@ == info.sn
                    } else {
                        &&& final(self)@ == old(self)@
                        &&& request matches JoinRequest::Join { join_request }
                        &&& join_request.stamp@ == stamp
                    },
                    None => final(self)@ == old(self)@ && request is Ignored,
                },
                None => final(self)@ == old(self)@ && request is Ignored,
            },
    {
        let table = match data {
            Some(table) => table,
            None => {
                return JoinRequest::Ignored;
            },
        };
        let stamp = match get_chat_name(Some(table)) {
            Some(stamp) => stamp,
            None => {
                return JoinRequest::Ignored;
            },
        };
        let was_joined = match table.lookup(STATE) {
            Some(state) => str_eq(state.as_str(), JOINED),
            None => false,
        };
        if was_joined {
            match PartialChatInfo::from_hashtable(table) {
                Some(info) => {
                    let joined = self.conversation_joined(&info);
                    return JoinRequest::Rejoined {
                        joined,
                        info_request: GetChatInfoMessageData { sn: info.sn },
                    };
                },
                None => {},
            }
        }
        JoinRequest::Join { join_request: JoinChatMessageData { stamp } }
    }

    /// The user sends a message in the conversation `sn`: with a description
    /// attached, the result is 1 and the command that sends the message to
    /// the description's stable name; otherwise -1 and nothing.
    pub fn chat_send(&self, sn: &str, message: &str) -> (sent: (i32, Option<SendMsgMessageData>))
        requires
            self.wf(),
        ensures
            match self@.send_target(sn@) {
                Some(target) => {
                    &&& sent.0 == 1
                    &&& sent.1 matches Some(request)
                    &&& request.to_sn@ == target
                    &&& request.message@ == message@
                },
                None => sent.0 == -1 && sent.1 is None,
            },
    {
        let c = match self.find_conversation(sn) {
            Some(c) => c,
            None => {
                return (-1, None);
            },
        };
        match &self.conversations[c].chat_info {
            Some(info) => (
                1,
                Some(SendMsgMessageData { to_sn: info.sn.clone(), message: message.to_owned() }),
            ),
            None => (-1, None),
        }
    }

    /// The display name of the member `who` of the conversation `sn`, from
    /// the attached description.
    pub fn get_cb_alias(&self, sn: &str, who: &str) -> (alias: Option<String>)
        requires
            self.wf(),
        ensures
            opt_view(alias) == self@.cb_alias(sn@, who@),
    {
        let c = match self.find_conversation(sn) {
            Some(c) => c,
            None => {
                return None;
            },
        };
        match &self.conversations[c].chat_info {
            Some(info) => {
                let ghost members = info@.members;
                let mut k: usize = 0;
                proof {
                    assert(members.subrange(0, members.len() as int) =~= members);
                }
                while k < info.members.len()
                    invariant
                        k <= info.members@.len(),
                        members == info@.members,
                        self@.cb_alias(sn@, who@) == first_alias(members, who@),
                        first_alias(members, who@) == first_alias(
                            members.subrange(k as int, members.len() as int),
                            who@,
                        ),
                    decreases info.members@.len() - k,
                {
                    let member = &info.members[k];
                    let ghost rest = members.subrange(k as int, members.len() as int);
                    proof {
                        assert(rest.len() > 0);
                        assert(rest[0] == members[k as int]);
                        assert(rest[0] == member@);
                        assert(rest.drop_first() =~= members.subrange(
                            k + 1,
                            members.len() as int,
                        ));
                    }
                    if str_eq(member.sn.as_str(), who) {
                        match &member.friendly_name {
                            Some(name) => {
                                return Some(name.clone());
                            },
                            None => {},
                        }
                    }
                    k += 1;
                }
                proof {
                    assert(members.subrange(k as int, members.len() as int).len() == 0);
                }
                None
            },
            None => None,
        }
    }

    /// The chat entries of the buddy list, in the order they were made.
    pub fn chats(&self) -> (chats: &Vec<LocalChat>)
        ensures
            chats@.len() == self@.chats.len(),
            forall|i: int| 0 <= i < chats@.len() ==> (#[trigger] chats@[i])@ == self@.chats[i],
    {
        &self.chats
    }

    /// The folders of the buddy list, in the order they were made.
    pub fn groups(&self) -> (groups: &Vec<String>)
        ensures
            groups@.len() == self@.groups.len(),
            forall|i: int| 0 <= i < groups@.len() ==> (#[trigger] groups@[i])@ == self@.groups[i],
    {
        &self.groups
    }

    /// The open conversations, in the order they were opened.
    pub fn conversations(&self) -> (conversations: &Vec<Conversation>)
        ensures
            conversations@.len() == self@.conversations.len(),
            forall|i: int|
                0 <= i < conversations@.len() ==> (#[trigger] conversations@[i])@
                    == self@.conversations[i],
    {
        &self.conversations
    }
}

/// Joining the same chat twice with the same title and folder leaves the
/// state after the first join as it is: no second entry is made, and the
/// entry is not moved to another folder.
pub proof fn lemma_chat_join_idempotent(state: ReconcilerView, info: PartialChatInfoView)
    requires
        state.wf(),
    ensures
        ({
            let once = state.chat_joined(info).0;
            &&& once.chat_joined(info).0 == once
            &&& once.chats.len() <= state.chats.len() + 1
            &&& is_group_chat(info.sn) ==> once.chat_joined(info).1 == Some(
                ChatJoined::Updated { moved: false },
            )
        }),
{
    if is_group_chat(info.sn) {
        let once = state.group_chat_joined(info).0;
        match chat_at(state.chats, info.sn) {
            Some(i) => {
                assert(once.chats[i].sn == info.sn);
            },
            None => {
                assert(once.chats[state.chats.len() as int].sn == info.sn);
            },
        }
        let j = chat_at(once.chats, info.sn)->0;
        assert(once.chats.update(j, once.chats[j]) =~= once.chats);
        let twice = once.group_chat_joined(info).0;
        assert(twice.chats =~= once.chats);
    }
}

/// An incoming message never moves the history cursor of its chat's
/// conversation forward: after the message the cursor stands at the message
/// where it is strictly older than the cursor was, or none was set, and
/// where it stood otherwise.
pub proof fn lemma_message_moves_cursor_backward(state: ReconcilerView, msg: MsgInfoView)
    requires
        state.wf(),
        chat_at(state.chats, msg.chat_sn) is Some,
        conversation_at(state.conversations, msg.chat_sn) is Some,
    ensures
        ({
            let c = conversation_at(state.conversations, msg.chat_sn)->0;
            let before = state.conversations[c].history;
            let after = state.serv_got_chat_in(msg).0;
            &&& conversation_at(after.conversations, msg.chat_sn) == Some(c)
            &&& after.conversations[c].history == Some(
                match before {
                    Some(history) => history,
                    None => HistoryInfoView::empty(),
                }.observe(msg.message_id, msg.time),
            )
            &&& before matches Some(history) ==> (history.oldest_message_timestamp matches Some(t)
                ==> (if msg.time < t {
                after.conversations[c].history->0.oldest_message_timestamp == Some(msg.time)
                    && after.conversations[c].history->0.oldest_message_id == Some(msg.message_id)
            } else {
                after.conversations[c].history == before
            }))
        }),
{
    let i = chat_at(state.chats, msg.chat_sn)->0;
    let c = conversation_at(state.conversations, msg.chat_sn)->0;
    let noted = ReconcilerView {
        chats: state.chats.update(
            i,
            LocalChatView { last_seen_timestamp: msg.time, ..state.chats[i] },
        ),
        ..state
    };
    assert(noted.conversations == state.conversations);
    let newer = msg.time > state.chats[i].last_seen_timestamp;
    let joined_state = if newer {
        noted.conversation_joined(msg.conversation()).0
    } else {
        state
    };
    assert(joined_state.conversations == state.conversations);
    let after = state.serv_got_chat_in(msg).0;
    assert(after.conversations == state.conversations.update(
        c,
        state.conversations[c].observe(msg.message_id, msg.time),
    ));
    assert(after.conversations[c].sn == msg.chat_sn);
    let d = conversation_at(after.conversations, msg.chat_sn)->0;
    if d != c {
        assert(after.conversations[d].sn == state.conversations[d].sn);
        if d < c {
            assert(state.conversations[d].sn != state.conversations[c].sn);
        } else {
            assert(state.conversations[c].sn != state.conversations[d].sn);
        }
    }
}

/// Joining a chat keeps at most one entry per stable name: the state stays
/// well formed.
pub proof fn lemma_chat_joined_wf(state: ReconcilerView, info: PartialChatInfoView)
    requires
        state.wf(),
    ensures
        state.chat_joined(info).0.wf(),
        state.conversation_joined(info).0.wf(),
{
}

} // verus!
