//! What the answers of the service to the user's commands do to the local
//! state.

use crate::chat_info::{ChatInfo, ChatInfoView, PartialChatInfo, PartialChatInfoView};
use crate::client::GetChatInfoResponseData;
use crate::messages::JoinChatMessageData;
use crate::protocol::{normalize_stamp, normalized_stamp};
use crate::reconciler::{
    conversation_at, ChatJoined, ConversationJoined, Reconciler, ReconcilerView,
};
use vstd::prelude::*;

verus! {

/// The display essentials of a description.
pub open spec fn partial_of(info: ChatInfoView) -> PartialChatInfoView {
    PartialChatInfoView { sn: info.sn, title: info.title, group: info.group }
}

/// The state after a chat was joined on the service and described: its
/// entry is made or brought up to date, its conversation is opened, and the
/// description is attached to the conversation.
pub open spec fn after_join(state: ReconcilerView, info: ChatInfoView) -> ReconcilerView {
    state.chat_joined(partial_of(info)).0.conversation_joined(partial_of(info)).0.load_chat_info(
        info,
    )
}

/// What became of a chat that was joined on the service.
#[derive(Debug, Clone)]
pub struct JoinedOnService {
    /// The description that the service gave.
    pub info: ChatInfo,
    /// What became of the chat's entry in the buddy list.
    pub chat: Option<ChatJoined>,
    /// What became of the chat's conversation.
    pub conversation: ConversationJoined,
}

/// The stamp that a join command names: see [`normalized_stamp`].
pub fn join_chat_stamp(message: JoinChatMessageData) -> (stamp: String)
    ensures
        stamp@ == normalized_stamp(message.stamp@),
{
    normalize_stamp(message.stamp)
}

/// Takes in the description of a chat that was just joined on the service:
/// see [`after_join`].
pub fn join_chat(state: &mut Reconciler, response: GetChatInfoResponseData) -> (out:
    JoinedOnService)
    requires
        old(state).wf(),
    ensures
        final(state).wf(),
        out.info@ == ChatInfo::of_response(response),
        final(state)@ == after_join(old(state)@, out.info@),
        out.chat == old(state)@.chat_joined(partial_of(out.info@)).1,
        out.conversation == old(state)@.chat_joined(partial_of(out.info@)).0.conversation_joined(
            partial_of(out.info@),
        ).1,
{
    let info = ChatInfo::from(response);
    let partial = info.as_partial();
    let chat = state.chat_joined(&partial);
    let conversation = state.conversation_joined(&partial);
    let _ = state.load_chat_info(&info);
    JoinedOnService { info, chat, conversation }
}

/// Takes in the description of a chat that was fetched: it is attached to
/// the chat's conversation, if there is one. Returns whether there was.
pub fn get_chat_info(state: &mut Reconciler, response: GetChatInfoResponseData) -> (loaded: bool)
    requires
        old(state).wf(),
    ensures
        final(state).wf(),
        final(state)@ == old(state)@.load_chat_info(ChatInfo::of_response(response)),
        loaded == conversation_at(old(state)@.conversations, response.sn@) is Some,
{
    let info = ChatInfo::from(response);
    state.load_chat_info(&info)
}

/// After a chat was joined on the service, its conversation exists and
/// carries the description.
pub proof fn lemma_joined_chat_is_described(state: ReconcilerView, info: ChatInfoView)
    requires
        state.wf(),
    ensures
        conversation_at(after_join(state, info).conversations, info.sn) matches Some(c)
            && after_join(state, info).conversations[c].chat_info == Some(info),
        after_join(state, info).wf(),
{
    let partial = partial_of(info);
    let joined = state.chat_joined(partial).0;
    crate::reconciler::lemma_chat_joined_wf(state, partial);
    let opened = joined.conversation_joined(partial).0;
    crate::reconciler::lemma_chat_joined_wf(joined, partial);
    match conversation_at(joined.conversations, info.sn) {
        Some(i) => {},
        None => {
            assert(opened.conversations[joined.conversations.len() as int].sn == info.sn);
        },
    }
    let c = conversation_at(opened.conversations, info.sn)->0;
    let loaded = opened.load_chat_info(info);
    assert(loaded.conversations[c].sn == info.sn);
    assert(loaded.conversations.len() == opened.conversations.len());
    assert forall|i: int, j: int| 0 <= i < j < loaded.conversations.len() implies (
    #[trigger] loaded.conversations[i]).sn != (#[trigger] loaded.conversations[j]).sn by {
        assert(loaded.conversations[i].sn == opened.conversations[i].sn);
        assert(loaded.conversations[j].sn == opened.conversations[j].sn);
    }
    let d = conversation_at(loaded.conversations, info.sn)->0;
    if d != c {
        if d < c {
            assert(loaded.conversations[d].sn != loaded.conversations[c].sn);
        } else {
            assert(loaded.conversations[c].sn != loaded.conversations[d].sn);
        }
    }
}

} // verus!
