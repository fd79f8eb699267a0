//! What a poll's events do to the local state, and the decisions of the
//! polling loop.

use crate::chat_info::{ChatInfoVersion, PartialChatInfo, PartialChatInfoView};
use crate::escape::{encode_minimal, minimal_escaped};
use crate::events::{
    Buddy, BuddyListData, BuddyListGroup, Event, EventData, HistDlgStateData,
    HistDlgStateMChatState, HistDlgStateMessage, HistDlgStatePerson, MyInfoData, TryResult,
    UserType,
};
use crate::files::{
    message_file_ids, process_message_files, ref_ids_from, rewritten, FileInfoEntry,
};
use crate::json::{json_text, write_json, Json};
use crate::messages::GetChatInfoMessageData;
use crate::reconciler::{ChatJoined, MessageOutcome, MsgInfo, MsgInfoView, Reconciler, ReconcilerView};
use crate::text::str_eq;
use vstd::prelude::*;
use vstd::string::StringExecFns;

verus! {

/// Seconds that the polling loop waits before it tries again.
pub const RETRY_DELAY_SECONDS: u64 = 5;

/// The display name of `sn` among the people of an event: that of the first
/// person with this stable name, or the stable name itself.
pub open spec fn friendly_of(sn: Seq<char>, persons: Seq<HistDlgStatePerson>) -> Seq<char>
    decreases persons.len(),
{
    if persons.len() == 0 {
        sn
    } else if persons[0].sn@ == sn {
        persons[0].friendly@
    } else {
        friendly_of(sn, persons.drop_first())
    }
}

/// Resolves the display name of an author among the people of an event.
pub fn find_author_friendly<'a>(author_sn: &'a str, persons: &'a [HistDlgStatePerson]) -> (name:
    &'a str)
    ensures
        name@ == friendly_of(author_sn@, persons@),
{
    let mut k: usize = 0;
    proof {
        assert(persons@.subrange(0, persons@.len() as int) =~= persons@);
    }
    while k < persons.len()
        invariant
            k <= persons@.len(),
            friendly_of(author_sn@, persons@) == friendly_of(
                author_sn@,
                persons@.subrange(k as int, persons@.len() as int),
            ),
        decreases persons@.len() - k,
    {
        let ghost rest = persons@.subrange(k as int, persons@.len() as int);
        proof {
            assert(rest.len() > 0);
            assert(rest[0] == persons@[k as int]);
            assert(rest.drop_first() =~= persons@.subrange(k + 1, persons@.len() as int));
        }
        if str_eq(persons[k].sn.as_str(), author_sn) {
            return persons[k].friendly.as_str();
        }
        k += 1;
    }
    proof {
        assert(persons@.subrange(k as int, persons@.len() as int).len() == 0);
    }
    author_sn
}

impl ChatInfoVersion {
    /// The versions that a chat-state event reports.
    pub fn from(info: HistDlgStateMChatState) -> (version: ChatInfoVersion)
        ensures
            version.members_version@ == info.members_version@,
            version.info_version@ == info.info_version@,
    {
        ChatInfoVersion { members_version: info.members_version, info_version: info.info_version }
    }
}

/// The descriptor under which the chat of a chat-state event is joined: its
/// stable name, titled with its display name among the event's people.
pub open spec fn event_chat(event: HistDlgStateData) -> PartialChatInfoView {
    PartialChatInfoView {
        sn: event.sn@,
        title: friendly_of(event.sn@, event.persons@),
        group: None,
    }
}

/// The author of a message: its sender where the message belongs to a group
/// chat, the event's stable name where it is a direct message.
pub open spec fn author_of(event: HistDlgStateData, message: HistDlgStateMessage) -> Seq<char> {
    match message.chat {
        Some(chat) => chat.sender@,
        None => event.sn@,
    }
}

/// The text of a message as it is shown: entity-encoded, then with its file
/// references rewritten.
pub open spec fn shown_text(text: Seq<char>, files: Seq<FileInfoEntry>) -> Seq<char> {
    rewritten(minimal_escaped(text), files)
}

/// What is delivered for a message of a chat-state event: nothing for a
/// message without text.
pub open spec fn delivered_message(
    event: HistDlgStateData,
    message: HistDlgStateMessage,
    files: Seq<FileInfoEntry>,
) -> Option<MsgInfoView> {
    match message.text {
        Some(text) => Some(
            MsgInfoView {
                chat_sn: event.sn@,
                author_sn: author_of(event, message),
                author_friendly: friendly_of(author_of(event, message), event.persons@),
                text: shown_text(text@, files),
                time: message.time as i64,
                message_id: message.msg_id@,
            },
        ),
        None => None,
    }
}

/// What is delivered for the first `n` messages of a chat-state event, in
/// order.
pub open spec fn delivered_messages(event: HistDlgStateData, files: Seq<FileInfoEntry>, n: int) -> Seq<
    MsgInfoView,
>
    decreases n,
{
    if n <= 0 {
        Seq::empty()
    } else {
        match delivered_message(event, event.messages@[n - 1], files) {
            Some(message) => delivered_messages(event, files, n - 1).push(message),
            None => delivered_messages(event, files, n - 1),
        }
    }
}

/// The state after the given messages came in, one after the other.
pub open spec fn deliver_all(state: ReconcilerView, messages: Seq<MsgInfoView>) -> ReconcilerView
    decreases messages.len(),
{
    if messages.len() == 0 {
        state
    } else {
        deliver_all(state, messages.drop_last()).serv_got_chat_in(messages.last()).0
    }
}

/// The state after a chat-state event: the chat is joined, then the event's
/// messages come in.
pub open spec fn after_hist_dlg_state(
    state: ReconcilerView,
    event: HistDlgStateData,
    files: Seq<FileInfoEntry>,
) -> ReconcilerView {
    deliver_all(
        state.chat_joined(event_chat(event)).0,
        delivered_messages(event, files, event.messages@.len() as int),
    )
}

/// Whether a chat-state event asks for the chat's description to be
/// fetched: it does where it carries versions and, after the event, the
/// chat's conversation has no description or a stale one.
pub open spec fn asks_chat_info(
    state: ReconcilerView,
    event: HistDlgStateData,
    files: Seq<FileInfoEntry>,
) -> bool {
    match event.mchat_state {
        Some(version) => after_hist_dlg_state(state, event, files).check_chat_info(
            event.sn@,
            version.members_version@,
            version.info_version@,
        ),
        None => false,
    }
}

/// A message that was delivered, and what became of it.
#[derive(Debug, Clone)]
pub struct Delivery {
    pub message: MsgInfo,
    pub outcome: MessageOutcome,
}

/// What a chat-state event led to.
#[derive(Debug, Clone)]
pub struct HistDlgStateOutcome {
    /// The descriptor under which the chat was joined.
    pub chat: PartialChatInfo,
    /// What became of the chat's entry in the buddy list.
    pub chat_joined: Option<ChatJoined>,
    /// The messages that were delivered, in order.
    pub delivered: Vec<Delivery>,
    /// The command that fetches the chat's description, where it is due.
    pub info_request: Option<GetChatInfoMessageData>,
}

/// What a chat-state event leads to, from the state before it: the chat's
/// descriptor and what became of its entry, the delivered messages in order,
/// each with what became of it in the state that the messages before it left,
/// and the request for the chat's description exactly where it is due.
pub open spec fn hist_dlg_state_outcome(
    state: ReconcilerView,
    event: HistDlgStateData,
    files: Seq<FileInfoEntry>,
    outcome: HistDlgStateOutcome,
) -> bool {
    let messages = delivered_messages(event, files, event.messages@.len() as int);
    let joined = state.chat_joined(event_chat(event)).0;
    &&& outcome.chat@ == event_chat(event)
    &&& outcome.chat_joined == state.chat_joined(event_chat(event)).1
    &&& outcome.delivered@.len() == messages.len()
    &&& forall|i: int|
        0 <= i < outcome.delivered@.len() ==> {
            &&& (#[trigger] outcome.delivered@[i]).message@ == messages[i]
            &&& outcome.delivered@[i].outcome == deliver_all(
                joined,
                messages.subrange(0, i),
            ).serv_got_chat_in(messages[i]).1
        }
    &&& outcome.info_request is Some == asks_chat_info(state, event, files)
    &&& outcome.info_request matches Some(request) ==> request.sn@ == event.sn@
}

/// Builds what is delivered for one message of a chat-state event.
pub fn deliver_message(
    event_data: &HistDlgStateData,
    message: &HistDlgStateMessage,
    files: &Vec<FileInfoEntry>,
) -> (out: Option<MsgInfo>)
    ensures
        match out {
            Some(msg) => delivered_message(*event_data, *message, files@) == Some(msg@),
            None => delivered_message(*event_data, *message, files@) is None,
        },
{
    let message_text = match &message.text {
        Some(text) => text,
        None => {
            return None;
        },
    };
    let author_sn = match &message.chat {
        Some(chat) => chat.sender.clone(),
        None => event_data.sn.clone(),
    };
    let author_friendly = find_author_friendly(
        author_sn.as_str(),
        event_data.persons.as_slice(),
    ).to_owned();
    let escaped = encode_minimal(message_text.as_str());
    let text = process_message_files(escaped.as_str(), files);
    Some(
        MsgInfo {
            chat_sn: event_data.sn.clone(),
            author_sn,
            author_friendly,
            text,
            time: message.time as i64,
            message_id: message.msg_id.clone(),
        },
    )
}

/// Merges a chat-state event into the local state: joins the chat, delivers
/// each message that has a text, and decides whether the chat's description
/// must be fetched. `files` holds what the service said of the files that
/// the messages refer to.
pub fn process_event_hist_dlg_state(
    state: &mut Reconciler,
    event_data: &HistDlgStateData,
    files: &Vec<FileInfoEntry>,
) -> (outcome: HistDlgStateOutcome)
    requires
        old(state).wf(),
    ensures
        final(state).wf(),
        final(state)@ == after_hist_dlg_state(old(state)@, *event_data, files@),
        hist_dlg_state_outcome(old(state)@, *event_data, files@, outcome),
{
    let chat_friendly = find_author_friendly(
        event_data.sn.as_str(),
        event_data.persons.as_slice(),
    ).to_owned();
    let chat = PartialChatInfo { sn: event_data.sn.clone(), title: chat_friendly, group: None };
    let chat_joined = state.chat_joined(&chat);
    let ghost joined_state = state@;
    let mut delivered: Vec<Delivery> = Vec::new();
    let ghost mut so_far: Seq<MsgInfoView> = Seq::empty();
    let mut k: usize = 0;
    while k < event_data.messages.len()
        invariant
            k <= event_data.messages@.len(),
            state.wf(),
            so_far == delivered_messages(*event_data, files@, k as int),
            state@ == deliver_all(joined_state, so_far),
            delivered@.len() == so_far.len(),
            forall|i: int|
                0 <= i < delivered@.len() ==> {
                    &&& (#[trigger] delivered@[i]).message@ == so_far[i]
                    &&& delivered@[i].outcome == deliver_all(
                        joined_state,
                        so_far.subrange(0, i),
                    ).serv_got_chat_in(so_far[i]).1
                },
        decreases event_data.messages@.len() - k,
    {
        match deliver_message(event_data, &event_data.messages[k], files) {
            Some(message) => {
                let ghost previous = so_far;
                let outcome = state.serv_got_chat_in(&message);
                proof {
                    so_far = so_far.push(message@);
                    assert(so_far.drop_last() =~= previous);
                    assert(so_far.subrange(0, previous.len() as int) =~= previous);
                    assert forall|i: int| 0 <= i < previous.len() implies so_far.subrange(0, i)
                        == previous.subrange(0, i) by {
                        assert(so_far.subrange(0, i) =~= previous.subrange(0, i));
                    }
                }
                delivered.push(Delivery { message, outcome });
            },
            None => {},
        }
        k += 1;
    }
    let info_request = match &event_data.mchat_state {
        Some(info) => {
            let version = ChatInfoVersion {
                members_version: info.members_version.clone(),
                info_version: info.info_version.clone(),
            };
            state.check_chat_info(event_data.sn.as_str(), &version)
        },
        None => None,
    };
    HistDlgStateOutcome { chat, chat_joined, delivered, info_request }
}

/// The chat that a buddy of the folder `group_name` stands for: none unless
/// the buddy is a chat; its title is the buddy's display name, or its stable
/// name where it has none.
pub open spec fn buddy_chat(group_name: Seq<char>, buddy: Buddy) -> Option<PartialChatInfoView> {
    if buddy.user_type == UserType::Chat {
        Some(
            PartialChatInfoView {
                sn: buddy.aim_id@,
                title: match buddy.friendly {
                    Some(friendly) => friendly@,
                    None => buddy.aim_id@,
                },
                group: Some(group_name),
            },
        )
    } else {
        None
    }
}

/// The chats among the first `n` buddies of a folder, in order.
pub open spec fn group_chats(group: BuddyListGroup, n: int) -> Seq<PartialChatInfoView>
    decreases n,
{
    if n <= 0 {
        Seq::empty()
    } else {
        match buddy_chat(group.name@, group.buddies@[n - 1]) {
            Some(chat) => group_chats(group, n - 1).push(chat),
            None => group_chats(group, n - 1),
        }
    }
}

/// The chats of the first `n` folders of a buddy list, folder by folder.
pub open spec fn buddy_list_chats(event: BuddyListData, n: int) -> Seq<PartialChatInfoView>
    decreases n,
{
    if n <= 0 {
        Seq::empty()
    } else {
        buddy_list_chats(event, n - 1) + group_chats(
            event.groups@[n - 1],
            event.groups@[n - 1].buddies@.len() as int,
        )
    }
}

/// The state after the given chats were joined, one after the other.
pub open spec fn join_all(state: ReconcilerView, chats: Seq<PartialChatInfoView>) -> ReconcilerView
    decreases chats.len(),
{
    if chats.len() == 0 {
        state
    } else {
        join_all(state, chats.drop_last()).chat_joined(chats.last()).0
    }
}

/// The stable names of the buddies of unknown kind among the first `n` of a
/// folder, in order.
pub open spec fn group_unknown(group: BuddyListGroup, n: int) -> Seq<Seq<char>>
    decreases n,
{
    if n <= 0 {
        Seq::empty()
    } else if group.buddies@[n - 1].user_type == UserType::Unknown {
        group_unknown(group, n - 1).push(group.buddies@[n - 1].aim_id@)
    } else {
        group_unknown(group, n - 1)
    }
}

/// The stable names of the buddies of unknown kind in the first `n` folders
/// of a buddy list.
pub open spec fn buddy_list_unknown(event: BuddyListData, n: int) -> Seq<Seq<char>>
    decreases n,
{
    if n <= 0 {
        Seq::empty()
    } else {
        buddy_list_unknown(event, n - 1) + group_unknown(
            event.groups@[n - 1],
            event.groups@[n - 1].buddies@.len() as int,
        )
    }
}

/// A chat of the buddy list that was joined, and what became of its entry.
#[derive(Debug, Clone)]
pub struct JoinedChat {
    pub chat: PartialChatInfo,
    pub outcome: Option<ChatJoined>,
}

/// What a buddy-list snapshot led to.
#[derive(Debug, Clone)]
pub struct BuddyListOutcome {
    /// The chats of the snapshot, in order, each joined.
    pub joined: Vec<JoinedChat>,
    /// The buddies of a kind that this client does not know.
    pub unknown_buddies: Vec<String>,
}

/// What a buddy-list snapshot leads to, from the state before it: the
/// snapshot's chats in order, each with what became of its entry in the state
/// that the chats before it left, and the buddies of unknown kind.
pub open spec fn buddy_list_outcome(
    state: ReconcilerView,
    event: BuddyListData,
    outcome: BuddyListOutcome,
) -> bool {
    let chats = buddy_list_chats(event, event.groups@.len() as int);
    let unknown = buddy_list_unknown(event, event.groups@.len() as int);
    &&& outcome.joined@.len() == chats.len()
    &&& forall|i: int|
        0 <= i < outcome.joined@.len() ==> {
            &&& (#[trigger] outcome.joined@[i]).chat@ == chats[i]
            &&& outcome.joined@[i].outcome == join_all(state, chats.subrange(0, i)).chat_joined(
                chats[i],
            ).1
        }
    &&& outcome.unknown_buddies@.len() == unknown.len()
    &&& forall|i: int|
        0 <= i < outcome.unknown_buddies@.len() ==> (#[trigger] outcome.unknown_buddies@[i])@
            == unknown[i]
}

/// Merges a buddy-list snapshot into the local state: every buddy that is a
/// chat is joined under its folder; ordinary contacts are passed over;
/// buddies of unknown kind are counted and do not stop the rest.
pub fn process_event_buddy_list(state: &mut Reconciler, event_data: &BuddyListData) -> (outcome:
    BuddyListOutcome)
    requires
        old(state).wf(),
    ensures
        final(state).wf(),
        final(state)@ == join_all(
            old(state)@,
            buddy_list_chats(*event_data, event_data.groups@.len() as int),
        ),
        buddy_list_outcome(old(state)@, *event_data, outcome),
{
    let ghost start = state@;
    let mut joined: Vec<JoinedChat> = Vec::new();
    let mut unknown_buddies: Vec<String> = Vec::new();
    let ghost mut unknown: Seq<Seq<char>> = Seq::empty();
    let ghost mut so_far: Seq<PartialChatInfoView> = Seq::empty();
    let mut g: usize = 0;
    while g < event_data.groups.len()
        invariant
            g <= event_data.groups@.len(),
            state.wf(),
            so_far == buddy_list_chats(*event_data, g as int),
            state@ == join_all(start, so_far),
            joined@.len() == so_far.len(),
            forall|i: int|
                0 <= i < joined@.len() ==> {
                    &&& (#[trigger] joined@[i]).chat@ == so_far[i]
                    &&& joined@[i].outcome == join_all(start, so_far.subrange(0, i)).chat_joined(
                        so_far[i],
                    ).1
                },
            unknown == buddy_list_unknown(*event_data, g as int),
            unknown_buddies@.len() == unknown.len(),
            forall|i: int|
                0 <= i < unknown_buddies@.len() ==> (#[trigger] unknown_buddies@[i])@ == unknown[i],
        decreases event_data.groups@.len() - g,
    {
        let group = &event_data.groups[g];
        let ghost group_start = so_far;
        let ghost unknown_start = unknown;
        let mut b: usize = 0;
        proof {
            assert(so_far =~= group_start + group_chats(*group, 0));
            assert(unknown =~= unknown_start + group_unknown(*group, 0));
        }
        while b < group.buddies.len()
            invariant
                b <= group.buddies@.len(),
                state.wf(),
                so_far == group_start + group_chats(*group, b as int),
                state@ == join_all(start, so_far),
                joined@.len() == so_far.len(),
                forall|i: int|
                    0 <= i < joined@.len() ==> {
                        &&& (#[trigger] joined@[i]).chat@ == so_far[i]
                        &&& joined@[i].outcome == join_all(
                            start,
                            so_far.subrange(0, i),
                        ).chat_joined(so_far[i]).1
                    },
                unknown == unknown_start + group_unknown(*group, b as int),
                unknown_buddies@.len() == unknown.len(),
                forall|i: int|
                    0 <= i < unknown_buddies@.len() ==> (#[trigger] unknown_buddies@[i])@
                        == unknown[i],
            decreases group.buddies@.len() - b,
        {
            let buddy = &group.buddies[b];
            match buddy.user_type {
                UserType::Chat => {
                    let chat = PartialChatInfo {
                        sn: buddy.aim_id.clone(),
                        title: match &buddy.friendly {
                            Some(friendly) => friendly.clone(),
                            None => buddy.aim_id.clone(),
                        },
                        group: Some(group.name.clone()),
                    };
                    let ghost previous = so_far;
                    let outcome = state.chat_joined(&chat);
                    proof {
                        so_far = so_far.push(chat@);
                        assert(so_far.drop_last() =~= previous);
                        assert(so_far =~= group_start + group_chats(*group, b + 1));
                        assert forall|i: int| 0 <= i <= previous.len() implies so_far.subrange(
                            0,
                            i,
                        ) == previous.subrange(0, i) by {
                            assert(so_far.subrange(0, i) =~= previous.subrange(0, i));
                        }
                        assert(previous.subrange(0, previous.len() as int) =~= previous);
                    }
                    joined.push(JoinedChat { chat, outcome });
                },
                UserType::ICQ => {},
                UserType::Unknown => {
                    unknown_buddies.push(buddy.aim_id.clone());
                    proof {
                        unknown = unknown.push(buddy.aim_id@);
                        assert(unknown =~= unknown_start + group_unknown(*group, b + 1));
                    }
                },
            }
            b += 1;
        }
        proof {
            assert(so_far =~= buddy_list_chats(*event_data, g + 1));
            assert(unknown =~= buddy_list_unknown(*event_data, g + 1));
        }
        g += 1;
    }
    BuddyListOutcome { joined, unknown_buddies }
}

/// Takes note of the account's own profile. Nothing follows from it yet.
pub fn process_event_my_info(_event_data: &MyInfoData) {
}

/// The state after one event of a poll: a chat-state event and a buddy-list
/// snapshot are merged in; every other event, and a payload of unknown
/// shape, leaves the state as it is.
pub open spec fn after_event(
    state: ReconcilerView,
    event: TryResult<Event>,
    files: Seq<FileInfoEntry>,
) -> ReconcilerView {
    match event.0 {
        Ok(event) => match event.event_data {
            EventData::HistDlgState(data) => after_hist_dlg_state(state, data, files),
            EventData::BuddyList(data) => join_all(
                state,
                buddy_list_chats(data, data.groups@.len() as int),
            ),
            _ => state,
        },
        Err(_) => state,
    }
}

/// The state after the first `n` events of a poll, in the order received.
pub open spec fn after_events(
    state: ReconcilerView,
    events: Seq<TryResult<Event>>,
    files: Seq<FileInfoEntry>,
    n: int,
) -> ReconcilerView
    decreases n,
{
    if n <= 0 {
        state
    } else {
        after_event(after_events(state, events, files, n - 1), events[n - 1], files)
    }
}

/// What one event of a poll led to.
#[derive(Debug, Clone)]
pub enum EventOutcome {
    /// A chat-state event was merged in.
    HistDlgState(HistDlgStateOutcome),
    /// A buddy-list snapshot was merged in.
    BuddyList(BuddyListOutcome),
    /// An event of a known kind that has no effect yet.
    Observed,
    /// A payload of unknown shape: passed over.
    Unrecognized,
}

/// What one event leads to, from the state before it.
pub open spec fn outcome_fits(
    state: ReconcilerView,
    event: TryResult<Event>,
    files: Seq<FileInfoEntry>,
    outcome: EventOutcome,
) -> bool {
    match event.0 {
        Ok(event) => match event.event_data {
            EventData::HistDlgState(data) => outcome matches EventOutcome::HistDlgState(out)
                && hist_dlg_state_outcome(state, data, files, out),
            EventData::BuddyList(data) => outcome matches EventOutcome::BuddyList(out)
                && buddy_list_outcome(state, data, out),
            _ => outcome is Observed,
        },
        Err(_) => outcome is Unrecognized,
    }
}

/// Merges the events of one poll into the local state, strictly in the
/// order received. An event of unknown shape is passed over and never keeps
/// the events behind it from being processed: there is one outcome for every
/// event.
pub fn process_events(
    state: &mut Reconciler,
    events: &Vec<TryResult<Event>>,
    files: &Vec<FileInfoEntry>,
) -> (outcomes: Vec<EventOutcome>)
    requires
        old(state).wf(),
    ensures
        final(state).wf(),
        final(state)@ == after_events(old(state)@, events@, files@, events@.len() as int),
        outcomes@.len() == events@.len(),
        forall|i: int|
            0 <= i < events@.len() ==> outcome_fits(
                after_events(old(state)@, events@, files@, i),
                events@[i],
                files@,
                #[trigger] outcomes@[i],
            ),
{
    let ghost start = state@;
    let mut outcomes: Vec<EventOutcome> = Vec::new();
    let mut k: usize = 0;
    while k < events.len()
        invariant
            k <= events@.len(),
            state.wf(),
            state@ == after_events(start, events@, files@, k as int),
            outcomes@.len() == k,
            forall|i: int|
                0 <= i < k ==> outcome_fits(
                    after_events(start, events@, files@, i),
                    events@[i],
                    files@,
                    #[trigger] outcomes@[i],
                ),
        decreases events@.len() - k,
    {
        let outcome = match &events[k].0 {
            Ok(event) => match &event.event_data {
                EventData::BuddyList(event_data) => EventOutcome::BuddyList(
                    process_event_buddy_list(state, event_data),
                ),
                EventData::HistDlgState(event_data) => EventOutcome::HistDlgState(
                    process_event_hist_dlg_state(state, event_data, files),
                ),
                EventData::MyInfo(event_data) => {
                    process_event_my_info(event_data);
                    EventOutcome::Observed
                },
                EventData::PermitDeny(_) => EventOutcome::Observed,
                EventData::Presence(_) => EventOutcome::Observed,
                EventData::GalleryNotify(_) => EventOutcome::Observed,
            },
            Err(_) => EventOutcome::Unrecognized,
        };
        outcomes.push(outcome);
        k += 1;
    }
    outcomes
}

/// What is logged of a payload of unknown shape.
pub const UNKNOWN_EVENT: &'static str = "Unknown event: ";

/// The line that is logged of a payload of unknown shape: the payload as
/// JSON text behind a fixed beginning; the beginning alone where the payload
/// cannot be written.
pub fn describe_unknown_event(payload: &Json) -> (line: String)
    ensures
        line@ == UNKNOWN_EVENT@ + match json_text(*payload) {
            Some(text) => text,
            None => Seq::empty(),
        },
{
    let mut line = UNKNOWN_EVENT.to_owned();
    match write_json(payload) {
        Ok(text) => {
            line.append(text.as_str());
        },
        Err(_) => {
            assert(line@ + Seq::<char>::empty() =~= line@);
        },
    }
    line
}

/// An event of unknown shape changes nothing, wherever in the batch it
/// stands: the events before and behind it have the effect that they have
/// without it.
pub proof fn lemma_unknown_event_is_passed_over(
    state: ReconcilerView,
    events: Seq<TryResult<Event>>,
    files: Seq<FileInfoEntry>,
    at: int,
)
    requires
        0 <= at < events.len(),
        events[at].0 is Err,
    ensures
        after_events(state, events, files, events.len() as int) == after_events(
            state,
            events.remove(at),
            files,
            events.len() - 1,
        ),
{
    lemma_skip_unknown(state, events, files, at, events.len() as int);
}

proof fn lemma_skip_unknown(
    state: ReconcilerView,
    events: Seq<TryResult<Event>>,
    files: Seq<FileInfoEntry>,
    at: int,
    n: int,
)
    requires
        0 <= at < events.len(),
        events[at].0 is Err,
        0 <= n <= events.len(),
    ensures
        n <= at ==> after_events(state, events, files, n) == after_events(
            state,
            events.remove(at),
            files,
            n,
        ),
        n > at ==> after_events(state, events, files, n) == after_events(
            state,
            events.remove(at),
            files,
            n - 1,
        ),
    decreases n,
{
    if n > 0 {
        lemma_skip_unknown(state, events, files, at, n - 1);
        if n - 1 < at {
            assert(events.remove(at)[n - 1] == events[n - 1]);
        } else if n - 1 > at {
            assert(events.remove(at)[n - 2] == events[n - 1]);
        }
    }
}

/// No two of the strings are the same.
pub open spec fn distinct(ids: Seq<Seq<char>>) -> bool {
    forall|i: int, j: int| 0 <= i < j < ids.len() ==> ids[i] != ids[j]
}

/// The characters of each string of a list.
pub open spec fn views_of(ids: Seq<String>) -> Seq<Seq<char>> {
    Seq::new(ids.len(), |i: int| ids[i]@)
}

/// The file ids that the first `n` messages of a chat-state event refer to,
/// in order, repeats included. A message without text refers to none.
pub open spec fn event_ref_ids(event: HistDlgStateData, n: int) -> Seq<Seq<char>>
    decreases n,
{
    if n <= 0 {
        Seq::empty()
    } else {
        event_ref_ids(event, n - 1) + match event.messages@[n - 1].text {
            Some(text) => ref_ids_from(minimal_escaped(text@), 0),
            None => Seq::empty(),
        }
    }
}

/// The file ids that the first `n` events of a poll refer to.
pub open spec fn events_ref_ids(events: Seq<TryResult<Event>>, n: int) -> Seq<Seq<char>>
    decreases n,
{
    if n <= 0 {
        Seq::empty()
    } else {
        events_ref_ids(events, n - 1) + match events[n - 1].0 {
            Ok(event) => match event.event_data {
                EventData::HistDlgState(data) => event_ref_ids(data, data.messages@.len() as int),
                _ => Seq::empty(),
            },
            Err(_) => Seq::empty(),
        }
    }
}

/// Adds the strings of `more` that `ids` does not hold yet.
fn add_unique(ids: &mut Vec<String>, more: Vec<String>, Ghost(seen): Ghost<Seq<Seq<char>>>)
    requires
        distinct(views_of(old(ids)@)),
        forall|id: Seq<char>| views_of(old(ids)@).contains(id) <==> seen.contains(id),
    ensures
        distinct(views_of(final(ids)@)),
        forall|id: Seq<char>|
            views_of(final(ids)@).contains(id) <==> (seen + views_of(more@)).contains(id),
{
    let ghost added = views_of(more@);
    let mut k: usize = 0;
    while k < more.len()
        invariant
            k <= more@.len(),
            added == views_of(more@),
            distinct(views_of(ids@)),
            forall|id: Seq<char>|
                views_of(ids@).contains(id) <==> (seen + added.subrange(0, k as int)).contains(id),
        decreases more@.len() - k,
    {
        let ghost before = views_of(ids@);
        let ghost known = seen + added.subrange(0, k as int);
        let mut present = false;
        let mut j: usize = 0;
        while j < ids.len() && !present
            invariant
                j <= ids@.len(),
                k < more@.len(),
                before == views_of(ids@),
                forall|i: int| 0 <= i < j ==> before[i] != more@[k as int]@,
                present ==> before.contains(more@[k as int]@),
            decreases ids@.len() - j + (if present { 0int } else { 1int }),
        {
            if str_eq(ids[j].as_str(), more[k].as_str()) {
                assert(before[j as int] == more@[k as int]@);
                present = true;
            } else {
                j += 1;
            }
        }
        let ghost next = seen + added.subrange(0, k + 1);
        proof {
            assert(next =~= known.push(added[k as int]));
            assert(added[k as int] == more@[k as int]@);
            assert forall|id: Seq<char>| next.contains(id) <==> (known.contains(id) || id
                == added[k as int]) by {
                if known.contains(id) {
                    let i = choose|i: int| 0 <= i < known.len() && known[i] == id;
                    assert(next[i] == id);
                }
                if id == added[k as int] {
                    assert(next[known.len() as int] == id);
                }
            }
        }
        if !present {
            ids.push(more[k].clone());
            proof {
                let after = views_of(ids@);
                assert(after =~= before.push(added[k as int]));
                assert forall|id: Seq<char>| after.contains(id) <==> (before.contains(id) || id
                    == added[k as int]) by {
                    if before.contains(id) {
                        let i = choose|i: int| 0 <= i < before.len() && before[i] == id;
                        assert(after[i] == id);
                    }
                    if id == added[k as int] {
                        assert(after[before.len() as int] == id);
                    }
                }
            }
        }
        k += 1;
    }
    proof {
        assert(added.subrange(0, k as int) =~= added);
    }
}

/// The files that a chat-state event refers to: each id once. These are the
/// files whose descriptions [`process_event_hist_dlg_state`] looks up.
pub fn event_file_ids(event_data: &HistDlgStateData) -> (ids: Vec<String>)
    ensures
        distinct(views_of(ids@)),
        forall|id: Seq<char>|
            views_of(ids@).contains(id) <==> event_ref_ids(
                *event_data,
                event_data.messages@.len() as int,
            ).contains(id),
{
    let mut ids: Vec<String> = Vec::new();
    let mut k: usize = 0;
    while k < event_data.messages.len()
        invariant
            k <= event_data.messages@.len(),
            distinct(views_of(ids@)),
            forall|id: Seq<char>|
                views_of(ids@).contains(id) <==> event_ref_ids(*event_data, k as int).contains(id),
        decreases event_data.messages@.len() - k,
    {
        match &event_data.messages[k].text {
            Some(text) => {
                let escaped = encode_minimal(text.as_str());
                let more = message_file_ids(escaped.as_str());
                proof {
                    assert(views_of(more@) =~= ref_ids_from(minimal_escaped(text@), 0));
                }
                add_unique(&mut ids, more, Ghost(event_ref_ids(*event_data, k as int)));
            },
            None => {
                assert(event_ref_ids(*event_data, k + 1) =~= event_ref_ids(*event_data, k as int));
            },
        }
        k += 1;
    }
    ids
}

/// The files that the events of a poll refer to: each id once.
pub fn events_file_ids(events: &Vec<TryResult<Event>>) -> (ids: Vec<String>)
    ensures
        distinct(views_of(ids@)),
        forall|id: Seq<char>|
            views_of(ids@).contains(id) <==> events_ref_ids(events@, events@.len() as int).contains(
                id,
            ),
{
    let mut ids: Vec<String> = Vec::new();
    let mut k: usize = 0;
    while k < events.len()
        invariant
            k <= events@.len(),
            distinct(views_of(ids@)),
            forall|id: Seq<char>|
                views_of(ids@).contains(id) <==> events_ref_ids(events@, k as int).contains(id),
        decreases events@.len() - k,
    {
        let ghost seen = events_ref_ids(events@, k as int);
        match &events[k].0 {
            Ok(event) => match &event.event_data {
                EventData::HistDlgState(data) => {
                    let more = event_file_ids(data);
                    let ghost all = event_ref_ids(*data, data.messages@.len() as int);
                    add_unique(&mut ids, more, Ghost(seen));
                    proof {
                        let next = events_ref_ids(events@, k + 1);
                        assert(next == seen + all);
                        assert forall|id: Seq<char>| views_of(ids@).contains(id)
                            <==> next.contains(id) by {
                            lemma_contains_concat(seen, views_of(more@), id);
                            lemma_contains_concat(seen, all, id);
                        }
                    }
                },
                _ => {
                    assert(events_ref_ids(events@, k + 1) =~= seen);
                },
            },
            Err(_) => {
                assert(events_ref_ids(events@, k + 1) =~= seen);
            },
        }
        k += 1;
    }
    ids
}

/// A concatenation holds what either part holds.
pub proof fn lemma_contains_concat(a: Seq<Seq<char>>, b: Seq<Seq<char>>, id: Seq<char>)
    ensures
        (a + b).contains(id) <==> (a.contains(id) || b.contains(id)),
{
    if a.contains(id) {
        let i = choose|i: int| 0 <= i < a.len() && a[i] == id;
        assert((a + b)[i] == id);
    }
    if b.contains(id) {
        let i = choose|i: int| 0 <= i < b.len() && b[i] == id;
        assert((a + b)[a.len() + i] == id);
    }
    if (a + b).contains(id) {
        let i = choose|i: int| 0 <= i < (a + b).len() && (a + b)[i] == id;
        if i < a.len() {
            assert(a[i] == id);
        } else {
            assert(b[i - a.len()] == id);
        }
    }
}

/// Where the polling loop stands.
#[derive(Debug, Clone, Copy, PartialEq, Eq, Structural)]
pub enum PollPhase {
    /// At the top of the loop: the session's closed flag is being read.
    AtTop,
    /// The host is being asked whether the account is disconnected.
    CheckingAccount,
    /// A poll is in flight.
    Fetching,
    /// The loop waits before it starts over.
    Waiting,
    /// The loop has ended.
    Stopped,
}

/// What the loop is told: the answer to what it last asked for.
#[derive(Debug)]
pub enum PollInput {
    /// The session's closed flag, as read.
    Closed(bool),
    /// Whether the host reports the account as disconnected.
    Disconnected(bool),
    /// The poll came back with a next poll target.
    Fetched { next_fetch_base_url: String },
    /// The poll failed.
    FetchFailed,
    /// The wait is over.
    Slept,
}

/// What the loop asks for next.
#[derive(Debug, Clone)]
pub enum PollAction {
    /// Read the session's closed flag.
    CheckClosed,
    /// Ask the host whether the account is disconnected.
    CheckDisconnected,
    /// Poll the given target.
    Fetch { fetch_base_url: String },
    /// Wait for the given number of seconds.
    Sleep { seconds: u64 },
    /// Leave the loop.
    Stop,
}

/// The polling loop of one session: where it stands, and the target of the
/// next poll.
#[derive(Debug, Clone)]
pub struct Poller {
    pub phase: PollPhase,
    pub fetch_base_url: String,
}

/// A [`Poller`], as plain values.
pub struct PollerView {
    pub phase: PollPhase,
    pub fetch_base_url: Seq<char>,
}

/// A [`PollInput`], as plain values.
pub enum PollInputView {
    Closed(bool),
    Disconnected(bool),
    Fetched { next_fetch_base_url: Seq<char> },
    FetchFailed,
    Slept,
}

/// A [`PollAction`], as plain values.
pub enum PollActionView {
    CheckClosed,
    CheckDisconnected,
    Fetch { fetch_base_url: Seq<char> },
    Sleep { seconds: u64 },
    Stop,
}

impl View for Poller {
    type V = PollerView;

    open spec fn view(&self) -> PollerView {
        PollerView { phase: self.phase, fetch_base_url: self.fetch_base_url@ }
    }
}

impl View for PollInput {
    type V = PollInputView;

    open spec fn view(&self) -> PollInputView {
        match self {
            PollInput::Closed(closed) => PollInputView::Closed(*closed),
            PollInput::Disconnected(disconnected) => PollInputView::Disconnected(*disconnected),
            PollInput::Fetched { next_fetch_base_url } => PollInputView::Fetched {
                next_fetch_base_url: next_fetch_base_url@,
            },
            PollInput::FetchFailed => PollInputView::FetchFailed,
            PollInput::Slept => PollInputView::Slept,
        }
    }
}

impl View for PollAction {
    type V = PollActionView;

    open spec fn view(&self) -> PollActionView {
        match self {
            PollAction::CheckClosed => PollActionView::CheckClosed,
            PollAction::CheckDisconnected => PollActionView::CheckDisconnected,
            PollAction::Fetch { fetch_base_url } => PollActionView::Fetch {
                fetch_base_url: fetch_base_url@,
            },
            PollAction::Sleep { seconds } => PollActionView::Sleep { seconds: *seconds },
            PollAction::Stop => PollActionView::Stop,
        }
    }
}

impl PollerView {
    /// What the loop asks for while it stands where it stands.
    pub open spec fn pending(self) -> PollActionView {
        match self.phase {
            PollPhase::AtTop => PollActionView::CheckClosed,
            PollPhase::CheckingAccount => PollActionView::CheckDisconnected,
            PollPhase::Fetching => PollActionView::Fetch { fetch_base_url: self.fetch_base_url },
            PollPhase::Waiting => PollActionView::Sleep { seconds: RETRY_DELAY_SECONDS },
            PollPhase::Stopped => PollActionView::Stop,
        }
    }

    /// One step of the loop. At the top a closed session ends the loop, an
    /// open one has the account checked. A disconnected account makes the
    /// loop wait and start over; a connected one is polled. A poll that came
    /// back replaces the poll target with the one it brought and starts
    /// over; a failed one makes the loop wait and start over. An answer that
    /// the loop did not ask for changes nothing.
    pub open spec fn step(self, input: PollInputView) -> PollerView {
        match (self.phase, input) {
            (PollPhase::AtTop, PollInputView::Closed(true)) => PollerView {
                phase: PollPhase::Stopped,
                ..self
            },
            (PollPhase::AtTop, PollInputView::Closed(false)) => PollerView {
                phase: PollPhase::CheckingAccount,
                ..self
            },
            (PollPhase::CheckingAccount, PollInputView::Disconnected(true)) => PollerView {
                phase: PollPhase::Waiting,
                ..self
            },
            (PollPhase::CheckingAccount, PollInputView::Disconnected(false)) => PollerView {
                phase: PollPhase::Fetching,
                ..self
            },
            (PollPhase::Fetching, PollInputView::Fetched { next_fetch_base_url }) => PollerView {
                phase: PollPhase::AtTop,
                fetch_base_url: next_fetch_base_url,
            },
            (PollPhase::Fetching, PollInputView::FetchFailed) => PollerView {
                phase: PollPhase::Waiting,
                ..self
            },
            (PollPhase::Waiting, PollInputView::Slept) => PollerView {
                phase: PollPhase::AtTop,
                ..self
            },
            _ => self,
        }
    }
}

impl Poller {
    /// The loop of a session that has just become active: at the top, with
    /// the session's first poll target.
    pub fn new(fetch_base_url: String) -> (poller: Poller)
        ensures
            poller@ == (PollerView { phase: PollPhase::AtTop, fetch_base_url: fetch_base_url@ }),
    {
        Poller { phase: PollPhase::AtTop, fetch_base_url }
    }

    /// What the loop asks for while it stands where it stands.
    pub fn pending(&self) -> (action: PollAction)
        ensures
            action@ == self@.pending(),
    {
        match self.phase {
            PollPhase::AtTop => PollAction::CheckClosed,
            PollPhase::CheckingAccount => PollAction::CheckDisconnected,
            PollPhase::Fetching => PollAction::Fetch { fetch_base_url: self.fetch_base_url.clone() },
            PollPhase::Waiting => PollAction::Sleep { seconds: RETRY_DELAY_SECONDS },
            PollPhase::Stopped => PollAction::Stop,
        }
    }

    /// Takes the answer to what the loop last asked for, and returns what it
    /// asks for next: see [`PollerView::step`].
    pub fn fetch_events_loop(&mut self, input: PollInput) -> (action: PollAction)
        ensures
            final(self)@ == old(self)@.step(input@),
            action@ == old(self)@.step(input@).pending(),
    {
        match (self.phase, input) {
            (PollPhase::AtTop, PollInput::Closed(closed)) => {
                if closed {
                    self.phase = PollPhase::Stopped;
                } else {
                    self.phase = PollPhase::CheckingAccount;
                }
            },
            (PollPhase::CheckingAccount, PollInput::Disconnected(disconnected)) => {
                if disconnected {
                    self.phase = PollPhase::Waiting;
                } else {
                    self.phase = PollPhase::Fetching;
                }
            },
            (PollPhase::Fetching, PollInput::Fetched { next_fetch_base_url }) => {
                self.phase = PollPhase::AtTop;
                self.fetch_base_url = next_fetch_base_url;
            },
            (PollPhase::Fetching, PollInput::FetchFailed) => {
                self.phase = PollPhase::Waiting;
            },
            (PollPhase::Waiting, PollInput::Slept) => {
                self.phase = PollPhase::AtTop;
            },
            _ => {},
        }
        self.pending()
    }
}

/// The loop ends in one way only: the closed flag is read as set at the top
/// of the loop. Once ended it stays so.
pub proof fn lemma_poller_stops_only_when_closed(poller: PollerView, input: PollInputView)
    ensures
        poller.phase != PollPhase::Stopped && poller.step(input).phase == PollPhase::Stopped ==> (
        poller.phase == PollPhase::AtTop && input == PollInputView::Closed(true)),
        poller.phase == PollPhase::Stopped ==> poller.step(input) == poller,
{
}

/// A poll target is used once: a poll that came back replaces it, and
/// nothing else changes it.
pub proof fn lemma_poll_target_rotates(poller: PollerView, input: PollInputView)
    ensures
        input matches PollInputView::Fetched { next_fetch_base_url } ==> (poller.phase
            == PollPhase::Fetching ==> poller.step(input).fetch_base_url == next_fetch_base_url),
        !(poller.phase == PollPhase::Fetching && input is Fetched) ==> poller.step(
            input,
        ).fetch_base_url == poller.fetch_base_url,
{
}

/// A failed poll never ends the loop: it leads to a wait, and the wait back
/// to the top.
pub proof fn lemma_failed_poll_retries(poller: PollerView)
    requires
        poller.phase == PollPhase::Fetching,
    ensures
        poller.step(PollInputView::FetchFailed).pending() == (PollActionView::Sleep {
            seconds: RETRY_DELAY_SECONDS,
        }),
        poller.step(PollInputView::FetchFailed).step(PollInputView::Slept).phase
            == PollPhase::AtTop,
{
}

} // verus!
