use vstd::prelude::*;
use dashmap::DashMap;
use crate::player::{is_idle, model_new, ChatState, ChatStateView};

verus! {

/// The concurrent map the chats are kept in; the library reaches into it only
/// through the wrappers below.
#[verifier::external_type_specification]
#[verifier::external_body]
#[verifier::reject_recursive_types(K)]
#[verifier::reject_recursive_types(V)]
#[verifier::reject_recursive_types(S)]
pub struct ExDashMap<K, V, S>(DashMap<K, V, S>);

/// What a map of chats holds: the state of each stored chat, by its view.
pub uninterp spec fn stored_chats(m: DashMap<i64, ChatState>) -> Map<i64, ChatStateView>;

/// `DashMap::new`: a map that holds nothing.
#[verifier::external_body]
fn chats_map_new() -> (r: DashMap<i64, ChatState>)
    ensures
        stored_chats(r).dom().is_empty(),
{
    DashMap::new()
}

/// `DashMap::remove`: takes the entry of `chat_id` out of the map and hands
/// back its value, if there was one; the other entries stay as they were.
#[verifier::external_body]
fn chats_map_remove(m: &mut DashMap<i64, ChatState>, chat_id: i64) -> (r: Option<ChatState>)
    ensures
        stored_chats(*final(m)) == stored_chats(*old(m)).remove(chat_id),
        match r {
            Some(chat) => stored_chats(*old(m)).contains_key(chat_id) && chat@ == stored_chats(*old(m))[chat_id],
            None => !stored_chats(*old(m)).contains_key(chat_id),
        },
{
    m.remove(&chat_id).map(|(_, chat)| chat)
}

/// `DashMap::insert`: stores `chat` under `chat_id`, in place of any earlier
/// value; the other entries stay as they were.
#[verifier::external_body]
fn chats_map_insert(m: &mut DashMap<i64, ChatState>, chat_id: i64, chat: ChatState)
    ensures
        stored_chats(*final(m)) == stored_chats(*old(m)).insert(chat_id, chat@),
{
    m.insert(chat_id, chat);
}

/// No idle chat is stored: a chat with nothing going on is forgotten.
pub open spec fn holds_no_idle_chat(m: Map<i64, ChatStateView>) -> bool {
    forall|k: i64| #[trigger] m.contains_key(k) ==> !is_idle(m[k])
}

/// A chat taken out of the registry: its stored state, or a new one.
pub open spec fn model_taken(m: Map<i64, ChatStateView>, chat_id: i64) -> ChatStateView {
    if m.contains_key(chat_id) {
        m[chat_id]
    } else {
        model_new()
    }
}

/// The registry after `chat` is put back under `chat_id`: stored, or forgotten
/// when idle.
pub open spec fn model_put(m: Map<i64, ChatStateView>, chat_id: i64, chat: ChatStateView) -> Map<i64, ChatStateView> {
    if is_idle(chat) {
        m.remove(chat_id)
    } else {
        m.insert(chat_id, chat)
    }
}

/// The state of every chat that has something going on, by chat id.
pub struct Chats {
    map: DashMap<i64, ChatState>,
}

impl View for Chats {
    type V = Map<i64, ChatStateView>;

    closed spec fn view(&self) -> Map<i64, ChatStateView> {
        stored_chats(self.map)
    }
}

impl Chats {
    /// A registry with no chat in it.
    pub fn new() -> (r: Chats)
        ensures
            r@ == Map::<i64, ChatStateView>::empty(),
            holds_no_idle_chat(r@),
    {
        Chats { map: chats_map_new() }
    }

    /// Takes the state of `chat_id` out of the registry: the stored one, or a
    /// new one when none is stored.
    pub fn take(&mut self, chat_id: i64) -> (r: ChatState)
        ensures
            r@ == model_taken(old(self)@, chat_id),
            final(self)@ == old(self)@.remove(chat_id),
            holds_no_idle_chat(old(self)@) ==> holds_no_idle_chat(final(self)@),
    {
        match chats_map_remove(&mut self.map, chat_id) {
            Some(chat) => chat,
            None => ChatState::new(),
        }
    }

    /// Puts the state of `chat_id` back; an idle chat is forgotten.
    pub fn put(&mut self, chat_id: i64, chat: ChatState)
        ensures
            final(self)@ == model_put(old(self)@, chat_id, chat@),
            holds_no_idle_chat(old(self)@) ==> holds_no_idle_chat(final(self)@),
    {
        if chat.is_idle() {
            let _ = chats_map_remove(&mut self.map, chat_id);
        } else {
            chats_map_insert(&mut self.map, chat_id, chat);
        }
    }
}

/// Putting a chat back and taking it out again gives it back as it was put,
/// or as a new chat when it was idle; the registry is then as before, but for
/// that chat, which is no longer stored.
pub proof fn law_take_gives_back_what_was_put(m: Map<i64, ChatStateView>, chat_id: i64, chat: ChatStateView)
    ensures
        model_taken(model_put(m, chat_id, chat), chat_id) == (if is_idle(chat) { model_new() } else { chat }),
        model_put(m, chat_id, chat).remove(chat_id) == m.remove(chat_id),
{
    assert(model_put(m, chat_id, chat).remove(chat_id) =~= m.remove(chat_id));
}

/// Taking or putting one chat leaves every other chat as it was.
pub proof fn law_other_chats_unchanged(m: Map<i64, ChatStateView>, chat_id: i64, chat: ChatStateView, other: i64)
    requires
        other != chat_id,
    ensures
        m.remove(chat_id).contains_key(other) == m.contains_key(other),
        model_put(m, chat_id, chat).contains_key(other) == m.contains_key(other),
        m.contains_key(other) ==> m.remove(chat_id)[other] == m[other],
        m.contains_key(other) ==> model_put(m, chat_id, chat)[other] == m[other],
{
}

/// An idle chat is never stored: the registry starts empty, and taking and
/// putting back keep it free of idle chats.
pub proof fn law_no_idle_chat_is_stored(m: Map<i64, ChatStateView>, chat_id: i64, chat: ChatStateView)
    requires
        holds_no_idle_chat(m),
    ensures
        holds_no_idle_chat(m.remove(chat_id)),
        holds_no_idle_chat(model_put(m, chat_id, chat)),
        is_idle(chat) ==> !model_put(m, chat_id, chat).contains_key(chat_id),
{
}

} // verus!
