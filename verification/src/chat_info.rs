//! Chat descriptors: the partial form that events and user actions carry, the
//! full form that a chat-info fetch returns, and the string table in which a
//! partial descriptor travels through the chat-join dialog.

use crate::text::{lex_less, str_eq, str_less};
use vstd::prelude::*;

verus! {

/// Key of the stable name in a chat's string table.
pub const SN: &'static str = "sn";

/// Label shown for the stable-name field of the join dialog.
pub const SN_NAME: &'static str = "Chat ID";

/// Key of the shareable stamp in a chat's string table.
pub const STAMP: &'static str = "stamp";

/// Key of the display title in a chat's string table.
pub const TITLE: &'static str = "title";

/// Key of the buddy-list folder in a chat's string table.
pub const GROUP: &'static str = "group";

/// Key of the join state in a chat's string table.
pub const STATE: &'static str = "state";

/// How a chat member is marked in the member list of a conversation.
#[derive(Debug, Clone, Copy, PartialEq, Eq, Structural)]
pub enum ChatBuddyFlags {
    /// No mark.
    NoFlags,
    /// May speak.
    Voice,
    /// Administers the chat.
    Operator,
}

/// The role of a chat member as the service names it.
#[derive(Debug, Clone)]
pub struct MemberRole(pub String);

/// The display essentials of a chat.
#[derive(Debug, Clone)]
pub struct PartialChatInfo {
    pub sn: String,
    pub title: String,
    pub group: Option<String>,
}

/// The authoritative description of a chat, as a chat-info fetch returns it.
#[derive(Debug, Clone)]
pub struct ChatInfo {
    pub stamp: Option<String>,
    pub group: Option<String>,
    pub sn: String,
    pub title: String,
    pub about: Option<String>,
    pub members_version: String,
    pub info_version: String,
    pub members: Vec<ChatMember>,
}

/// One member of a chat.
#[derive(Debug, Clone)]
pub struct ChatMember {
    pub sn: String,
    pub friendly_name: Option<String>,
    pub role: MemberRole,
    pub last_seen: Option<u64>,
    pub first_name: Option<String>,
    pub last_name: Option<String>,
}

/// The two version strings by which staleness of a [`ChatInfo`] is decided.
#[derive(Debug, Clone)]
pub struct ChatInfoVersion {
    pub members_version: String,
    pub info_version: String,
}

/// The characters of an optional string.
pub open spec fn opt_view(s: Option<String>) -> Option<Seq<char>> {
    match s {
        Some(s) => Some(s@),
        None => None,
    }
}

/// A copy of an optional string.
pub fn clone_opt(s: &Option<String>) -> (out: Option<String>)
    ensures
        opt_view(out) == opt_view(*s),
{
    match s {
        Some(s) => Some(s.clone()),
        None => None,
    }
}

/// What a [`PartialChatInfo`] holds, as plain characters.
pub struct PartialChatInfoView {
    pub sn: Seq<char>,
    pub title: Seq<char>,
    pub group: Option<Seq<char>>,
}

impl View for PartialChatInfo {
    type V = PartialChatInfoView;

    open spec fn view(&self) -> PartialChatInfoView {
        PartialChatInfoView { sn: self.sn@, title: self.title@, group: opt_view(self.group) }
    }
}

/// What a [`ChatMember`] holds, as plain characters.
pub struct ChatMemberView {
    pub sn: Seq<char>,
    pub friendly_name: Option<Seq<char>>,
    pub role: Seq<char>,
    pub last_seen: Option<u64>,
    pub first_name: Option<Seq<char>>,
    pub last_name: Option<Seq<char>>,
}

impl View for ChatMember {
    type V = ChatMemberView;

    open spec fn view(&self) -> ChatMemberView {
        ChatMemberView {
            sn: self.sn@,
            friendly_name: opt_view(self.friendly_name),
            role: self.role.0@,
            last_seen: self.last_seen,
            first_name: opt_view(self.first_name),
            last_name: opt_view(self.last_name),
        }
    }
}

/// What a [`ChatInfo`] holds, as plain characters.
pub struct ChatInfoView {
    pub stamp: Option<Seq<char>>,
    pub group: Option<Seq<char>>,
    pub sn: Seq<char>,
    pub title: Seq<char>,
    pub about: Option<Seq<char>>,
    pub members_version: Seq<char>,
    pub info_version: Seq<char>,
    pub members: Seq<ChatMemberView>,
}

impl View for ChatInfo {
    type V = ChatInfoView;

    open spec fn view(&self) -> ChatInfoView {
        ChatInfoView {
            stamp: opt_view(self.stamp),
            group: opt_view(self.group),
            sn: self.sn@,
            title: self.title@,
            about: opt_view(self.about),
            members_version: self.members_version@,
            info_version: self.info_version@,
            members: Seq::new(self.members@.len(), |i: int| self.members@[i]@),
        }
    }
}

impl MemberRole {
    /// The mark that a role name stands for.
    pub open spec fn flags_of(role: Seq<char>) -> ChatBuddyFlags {
        if role == "admin"@ {
            ChatBuddyFlags::Operator
        } else if role == "readonly"@ {
            ChatBuddyFlags::NoFlags
        } else {
            ChatBuddyFlags::Voice
        }
    }

    /// Maps the role to its mark in the member list: an administrator is an
    /// operator, a read-only member has no mark, everyone else has voice.
    pub fn as_flags(&self) -> (flags: ChatBuddyFlags)
        ensures
            flags == Self::flags_of(self.0@),
    {
        if str_eq(self.0.as_str(), "admin") {
            ChatBuddyFlags::Operator
        } else if str_eq(self.0.as_str(), "readonly") {
            ChatBuddyFlags::NoFlags
        } else {
            ChatBuddyFlags::Voice
        }
    }
}

/// A table from string keys to string values, in which the host carries the
/// components of a chat.
#[derive(Debug, Clone)]
pub struct StrHashTable {
    entries: Vec<(String, String)>,
}

/// The table that a list of insertions builds: each insertion sets its key,
/// replacing what an earlier one had set.
pub open spec fn entries_map(entries: Seq<(String, String)>) -> Map<Seq<char>, Seq<char>>
    decreases entries.len(),
{
    if entries.len() == 0 {
        Map::empty()
    } else {
        entries_map(entries.drop_last()).insert(entries.last().0@, entries.last().1@)
    }
}

impl View for StrHashTable {
    type V = Map<Seq<char>, Seq<char>>;

    closed spec fn view(&self) -> Map<Seq<char>, Seq<char>> {
        entries_map(self.entries@)
    }
}

impl StrHashTable {
    /// A table without entries.
    pub fn new() -> (table: StrHashTable)
        ensures
            table@ == Map::<Seq<char>, Seq<char>>::empty(),
    {
        StrHashTable { entries: Vec::new() }
    }

    /// Sets `key` to `value`, replacing an earlier value of the key.
    pub fn insert(&mut self, key: &str, value: &str)
        ensures
            final(self)@ == old(self)@.insert(key@, value@),
    {
        let ghost before = self.entries@;
        self.entries.push((key.to_owned(), value.to_owned()));
        assert(self.entries@.drop_last() =~= before);
    }

    /// The value that `key` is set to.
    pub fn lookup(&self, key: &str) -> (value: Option<String>)
        ensures
            match value {
                Some(v) => self@.contains_key(key@) && self@[key@] == v@,
                None => !self@.contains_key(key@),
            },
    {
        let mut found: Option<String> = None;
        let mut i: usize = 0;
        while i < self.entries.len()
            invariant
                i <= self.entries@.len(),
                match found {
                    Some(v) => entries_map(self.entries@.subrange(0, i as int)).contains_key(key@)
                        && entries_map(self.entries@.subrange(0, i as int))[key@] == v@,
                    None => !entries_map(self.entries@.subrange(0, i as int)).contains_key(key@),
                },
            decreases self.entries@.len() - i,
        {
            assert(self.entries@.subrange(0, i + 1).drop_last() =~= self.entries@.subrange(
                0,
                i as int,
            ));
            if str_eq(self.entries[i].0.as_str(), key) {
                found = Some(self.entries[i].1.clone());
            }
            i += 1;
        }
        assert(self.entries@.subrange(0, i as int) =~= self.entries@);
        found
    }
}

impl PartialChatInfo {
    /// The descriptor that a table spells out: its stable name and title,
    /// both required, and its folder.
    pub open spec fn of_table(table: Map<Seq<char>, Seq<char>>) -> Option<PartialChatInfoView> {
        if table.contains_key(SN@) && table.contains_key(TITLE@) {
            Some(
                PartialChatInfoView {
                    sn: table[SN@],
                    title: table[TITLE@],
                    group: if table.contains_key(GROUP@) {
                        Some(table[GROUP@])
                    } else {
                        None
                    },
                },
            )
        } else {
            None
        }
    }

    /// Reads a descriptor from a chat's string table; `None` where the table
    /// lacks the stable name or the title.
    pub fn from_hashtable(table: &StrHashTable) -> (info: Option<PartialChatInfo>)
        ensures
            match info {
                Some(info) => Self::of_table(table@) == Some(info@),
                None => Self::of_table(table@) is None,
            },
    {
        let group = table.lookup(GROUP);
        let sn = match table.lookup(SN) {
            Some(sn) => sn,
            None => {
                return None;
            },
        };
        let title = match table.lookup(TITLE) {
            Some(title) => title,
            None => {
                return None;
            },
        };
        Some(PartialChatInfo { sn, title, group })
    }

    /// The table that spells a descriptor out.
    pub open spec fn table_of(info: PartialChatInfoView) -> Map<Seq<char>, Seq<char>> {
        let with_sn = Map::<Seq<char>, Seq<char>>::empty().insert(SN@, info.sn);
        let with_group = match info.group {
            Some(group) => with_sn.insert(GROUP@, group),
            None => with_sn,
        };
        with_group.insert(TITLE@, info.title)
    }

    /// Writes the descriptor into a fresh string table: the stable name, the
    /// folder where there is one, and the title.
    pub fn as_hashtable(&self) -> (table: StrHashTable)
        ensures
            table@ == Self::table_of(self@),
    {
        let mut table = StrHashTable::new();
        table.insert(SN, self.sn.as_str());
        match &self.group {
            Some(group) => {
                table.insert(GROUP, group.as_str());
            },
            None => {},
        }
        table.insert(TITLE, self.title.as_str());
        table
    }

    /// A copy of the descriptor.
    pub fn clone_info(&self) -> (out: PartialChatInfo)
        ensures
            out@ == self@,
    {
        PartialChatInfo {
            sn: self.sn.clone(),
            title: self.title.clone(),
            group: clone_opt(&self.group),
        }
    }
}

/// Writing a descriptor into a table and reading it back gives the same
/// descriptor.
pub proof fn lemma_table_round_trip(info: PartialChatInfoView)
    ensures
        PartialChatInfo::of_table(PartialChatInfo::table_of(info)) == Some(info),
{
    reveal_strlit("sn");
    reveal_strlit("title");
    reveal_strlit("group");
    assert(SN@ != TITLE@) by {
        assert(SN@.len() != TITLE@.len());
    }
    assert(SN@ != GROUP@) by {
        assert(SN@.len() != GROUP@.len());
    }
    assert(GROUP@ != TITLE@) by {
        assert(GROUP@[0] != TITLE@[0]);
    }
}

impl ChatMember {
    /// A copy of the member.
    pub fn clone_member(&self) -> (out: ChatMember)
        ensures
            out@ == self@,
    {
        ChatMember {
            sn: self.sn.clone(),
            friendly_name: clone_opt(&self.friendly_name),
            role: MemberRole(self.role.0.clone()),
            last_seen: self.last_seen,
            first_name: clone_opt(&self.first_name),
            last_name: clone_opt(&self.last_name),
        }
    }
}

impl ChatInfo {
    /// The display essentials of the chat.
    pub fn as_partial(&self) -> (partial: PartialChatInfo)
        ensures
            partial@ == (PartialChatInfoView {
                sn: self@.sn,
                title: self@.title,
                group: self@.group,
            }),
    {
        PartialChatInfo {
            sn: self.sn.clone(),
            title: self.title.clone(),
            group: clone_opt(&self.group),
        }
    }

    /// A cached description is stale where the service reports a members
    /// version or an info version that comes after the cached one.
    pub open spec fn stale(cached: ChatInfoView, members_version: Seq<char>, info_version: Seq<char>) -> bool {
        lex_less(cached.members_version, members_version) || lex_less(
            cached.info_version,
            info_version,
        )
    }

    /// Whether the description must be fetched again, given the versions that
    /// the service reports.
    pub fn need_update(&self, new_version: &ChatInfoVersion) -> (stale: bool)
        ensures
            stale == Self::stale(self@, new_version.members_version@, new_version.info_version@),
    {
        str_less(self.members_version.as_str(), new_version.members_version.as_str()) || str_less(
            self.info_version.as_str(),
            new_version.info_version.as_str(),
        )
    }

    /// A copy of the description.
    pub fn clone_info(&self) -> (out: ChatInfo)
        ensures
            out@ == self@,
    {
        let mut members: Vec<ChatMember> = Vec::new();
        let mut i: usize = 0;
        while i < self.members.len()
            invariant
                i <= self.members@.len(),
                members@.len() == i,
                forall|k: int| 0 <= k < i ==> members@[k]@ == self.members@[k]@,
            decreases self.members@.len() - i,
        {
            members.push(self.members[i].clone_member());
            i += 1;
        }
        let out = ChatInfo {
            stamp: clone_opt(&self.stamp),
            group: clone_opt(&self.group),
            sn: self.sn.clone(),
            title: self.title.clone(),
            about: clone_opt(&self.about),
            members_version: self.members_version.clone(),
            info_version: self.info_version.clone(),
            members,
        };
        assert(out@.members =~= self@.members);
        out
    }
}

/// Equal versions never make a description stale.
pub proof fn lemma_same_version_is_fresh(cached: ChatInfoView)
    ensures
        !ChatInfo::stale(cached, cached.members_version, cached.info_version),
{
    lemma_lex_irreflexive(cached.members_version);
    lemma_lex_irreflexive(cached.info_version);
}

/// No string comes before itself.
pub proof fn lemma_lex_irreflexive(a: Seq<char>)
    ensures
        !lex_less(a, a),
{
    crate::text::lemma_lex_decided(a, a, a.len() as int);
    assert(a.subrange(0, a.len() as int) =~= a);
}

} // verus!
