//! What the library expects of the store, as a model: rows in mathematical
//! sequences, and what each write and each listing means on them.
//!
//! The engine is outside this library, so nothing here is proved of it. What
//! is proved is that the writes that the session controller plans, taken
//! with this meaning, do to a conversation what a turn is meant to do.

use vstd::prelude::*;
use crate::session::{plans_error_log, plans_exchange, TurnPlan};
use crate::store::{first_refusal, StoreWrite};
use crate::text::{is_trimmed, lemma_trimmed, trimmed};
use crate::types::{CompletionResponse, Message, MessageRole, OpenAIError};

verus! {

/// A stored conversation.
pub struct ConversationRecord {
    pub id: nat,
    pub title: Seq<char>,
    pub key: Seq<char>,
    pub created: int,
}

/// A stored message.
pub struct MessageRecord {
    pub conversation_id: nat,
    pub role: MessageRole,
    pub content: Seq<char>,
    pub prompt_tokens: nat,
    pub completion_tokens: nat,
    pub created: int,
}

/// A stored entry of the error log.
pub struct ErrorRecord {
    pub key: Seq<char>,
    pub context: Seq<Message>,
    pub error: Seq<char>,
    pub api_error: Option<OpenAIError>,
}

/// A line of the listing.
pub struct ListingRecord {
    pub id: nat,
    pub title: Seq<char>,
    pub usage: nat,
    pub last_update: int,
}

/// The rows of a store, each table in the order of insertion.
pub struct StoreModel {
    pub conversations: Seq<ConversationRecord>,
    pub messages: Seq<MessageRecord>,
    pub errors: Seq<ErrorRecord>,
}

/// The messages among `messages` that belong to a conversation, in their
/// order.
pub open spec fn messages_in(messages: Seq<MessageRecord>, id: nat) -> Seq<MessageRecord>
    decreases messages.len(),
{
    if messages.len() == 0 {
        Seq::empty()
    } else if messages.last().conversation_id == id {
        messages_in(messages.drop_last(), id).push(messages.last())
    } else {
        messages_in(messages.drop_last(), id)
    }
}

/// The tokens that a run of messages has used: prompt and completion counts,
/// summed.
pub open spec fn tokens_used(messages: Seq<MessageRecord>) -> nat
    decreases messages.len(),
{
    if messages.len() == 0 {
        0
    } else {
        tokens_used(messages.drop_last()) + messages.last().prompt_tokens
            + messages.last().completion_tokens
    }
}

/// The latest time among a run of messages, and `floor` if there is none
/// later.
pub open spec fn latest_time(messages: Seq<MessageRecord>, floor: int) -> int
    decreases messages.len(),
{
    if messages.len() == 0 {
        floor
    } else {
        let before = latest_time(messages.drop_last(), floor);
        if messages.last().created > before {
            messages.last().created
        } else {
            before
        }
    }
}

impl StoreModel {
    /// A store without rows.
    pub open spec fn empty() -> StoreModel {
        StoreModel { conversations: Seq::empty(), messages: Seq::empty(), errors: Seq::empty() }
    }

    /// Whether a conversation with this id is stored.
    pub open spec fn has_conversation(self, id: nat) -> bool {
        exists|i: int| 0 <= i < self.conversations.len() && self.conversations[i].id == id
    }

    /// The invariant of the store: ids start at 1 and rise with insertion, and
    /// every message belongs to a stored conversation.
    pub open spec fn wf(self) -> bool {
        &&& forall|i: int|
            0 <= i < self.conversations.len() ==> (#[trigger] self.conversations[i]).id == i + 1
        &&& forall|i: int|
            0 <= i < self.messages.len() ==> self.has_conversation(
                (#[trigger] self.messages[i]).conversation_id,
            )
    }

    /// The store after a conversation was created, and the id it got.
    pub open spec fn create_conversation(self, title: Seq<char>, key: Seq<char>, now: int) -> (
        StoreModel,
        nat,
    ) {
        let id = self.conversations.len() + 1;
        (
            StoreModel {
                conversations: self.conversations.push(
                    ConversationRecord { id, title, key, created: now },
                ),
                ..self
            },
            id,
        )
    }

    /// The store after a write, or `None` where the write is refused: a token
    /// count does not fit, or the message names no stored conversation. A
    /// message is stored with its content trimmed.
    pub open spec fn after_write(self, write: StoreWrite, now: int) -> Option<StoreModel> {
        match write {
            StoreWrite::Message {
                conversation_id,
                role,
                content,
                prompt_tokens,
                completion_tokens,
            } => if write.params() is Ok && self.has_conversation(conversation_id as nat) {
                Some(
                    StoreModel {
                        messages: self.messages.push(
                            MessageRecord {
                                conversation_id: conversation_id as nat,
                                role,
                                content: trimmed(content@),
                                prompt_tokens: prompt_tokens as nat,
                                completion_tokens: completion_tokens as nat,
                                created: now,
                            },
                        ),
                        ..self
                    },
                )
            } else {
                None
            },
            StoreWrite::ErrorLog { key, context, error, api_error } => Some(
                StoreModel {
                    errors: self.errors.push(
                        ErrorRecord { key: key@, context: context@, error: error@, api_error },
                    ),
                    ..self
                },
            ),
        }
    }

    /// The store after a list of writes, or `None` if one of them is refused.
    pub open spec fn after_writes(self, writes: Seq<StoreWrite>, now: int) -> Option<StoreModel>
        decreases writes.len(),
    {
        if writes.len() == 0 {
            Some(self)
        } else {
            match self.after_write(writes[0], now) {
                Some(next) => next.after_writes(writes.drop_first(), now),
                None => None,
            }
        }
    }

    /// The messages of a conversation in the order of their creation.
    pub open spec fn messages_of(self, id: nat) -> Seq<MessageRecord> {
        messages_in(self.messages, id)
    }

    /// The line of the listing for a stored conversation: its usage is the
    /// sum over its messages, and its last update is the latest of its own
    /// time and those of its messages.
    pub open spec fn listing_of(self, conversation: ConversationRecord) -> ListingRecord {
        ListingRecord {
            id: conversation.id,
            title: conversation.title,
            usage: tokens_used(self.messages_of(conversation.id)),
            last_update: latest_time(self.messages_of(conversation.id), conversation.created),
        }
    }

    /// Whether `listing` is a listing for `key`: it holds the line of every
    /// conversation that `key` owns, once, and of no other, with the oldest
    /// activity first.
    pub open spec fn lists(self, key: Seq<char>, listing: Seq<ListingRecord>) -> bool {
        &&& forall|i: int|
            0 <= i < listing.len() ==> exists|j: int|
                0 <= j < self.conversations.len() && self.conversations[j].key == key
                    && #[trigger] listing[i] == self.listing_of(self.conversations[j])
        &&& forall|j: int|
            0 <= j < self.conversations.len() && (#[trigger] self.conversations[j]).key == key
                ==> exists|i: int|
                0 <= i < listing.len() && listing[i].id == self.conversations[j].id
        &&& forall|i: int, k: int|
            0 <= i < k < listing.len() ==> listing[i].id != listing[k].id && listing[i].last_update
                <= listing[k].last_update
    }
}

/// A listing for a key never holds a conversation of another key: every line
/// is the line of a stored conversation that the key owns.
pub proof fn lemma_listing_is_scoped(store: StoreModel, key: Seq<char>, listing: Seq<ListingRecord>)
    requires
        store.wf(),
        store.lists(key, listing),
    ensures
        forall|i: int, j: int|
            0 <= i < listing.len() && 0 <= j < store.conversations.len()
                && store.conversations[j].id == listing[i].id ==> store.conversations[j].key == key,
{
    assert forall|i: int, j: int|
        0 <= i < listing.len() && 0 <= j < store.conversations.len() && store.conversations[j].id
            == listing[i].id implies store.conversations[j].key == key by {
        let owner = choose|o: int|
            0 <= o < store.conversations.len() && store.conversations[o].key == key && listing[i]
                == store.listing_of(store.conversations[o]);
        assert(store.conversations[owner].id == owner + 1);
        assert(store.conversations[j].id == j + 1);
    }
}

/// Appending a message adds it at the end of its conversation, trimmed and
/// otherwise as given, and leaves every other conversation as it was. A
/// content without white space at its ends comes back unchanged.
pub proof fn lemma_append_round_trip(store: StoreModel, write: StoreWrite, now: int)
    requires
        write is Message,
        store.after_write(write, now) is Some,
    ensures
        ({
            let after = store.after_write(write, now)->0;
            let id = write->conversation_id as nat;
            &&& after.messages_of(id).len() == store.messages_of(id).len() + 1
            &&& after.messages_of(id).drop_last() == store.messages_of(id)
            &&& after.messages_of(id).last().content == trimmed(write->content@)
            &&& after.messages_of(id).last().role == write->role
            &&& is_trimmed(write->content@) ==> after.messages_of(id).last().content
                == write->content@
            &&& forall|other: nat| other != id ==> after.messages_of(other) == store.messages_of(other)
            &&& tokens_used(after.messages_of(id)) == tokens_used(store.messages_of(id))
                + write->prompt_tokens + write->completion_tokens
            &&& after.conversations == store.conversations
        }),
{
    let after = store.after_write(write, now)->0;
    let id = write->conversation_id as nat;
    assert(after.messages.drop_last() =~= store.messages);
    assert(after.messages_of(id).drop_last() =~= store.messages_of(id));
    lemma_trimmed(write->content@);
}

/// A successful turn adds exactly two messages to its conversation, the
/// prompt and then the reply; a failed turn adds none, and one entry to the
/// error log.
pub proof fn lemma_turn_changes_history(
    store: StoreModel,
    plan: TurnPlan,
    id: u32,
    prompt: Seq<char>,
    completion: CompletionResponse,
    owner: Seq<char>,
    sent: Vec<Message>,
    raw: Seq<char>,
    structured: Option<OpenAIError>,
    now: int,
)
    requires
        store.has_conversation(id as nat),
        completion.usage.prompt_tokens <= i64::MAX,
        completion.usage.completion_tokens <= i64::MAX,
        plans_exchange(plan, id, prompt, completion) || plans_error_log(
            plan,
            owner,
            sent,
            raw,
            structured,
        ),
    ensures
        store.after_writes(plan.writes@, now) is Some,
        plans_exchange(plan, id, prompt, completion) ==> ({
            let after = store.after_writes(plan.writes@, now)->0;
            &&& after.messages_of(id as nat).len() == store.messages_of(id as nat).len() + 2
            &&& after.messages_of(id as nat).last().content == trimmed(completion.reply().content)
            &&& after.errors == store.errors
        }),
        plans_error_log(plan, owner, sent, raw, structured) ==> ({
            let after = store.after_writes(plan.writes@, now)->0;
            &&& after.messages == store.messages
            &&& after.messages_of(id as nat).len() == store.messages_of(id as nat).len()
            &&& after.errors.len() == store.errors.len() + 1
            &&& after.errors.last().api_error == structured
            &&& after.errors.last().error == raw
        }),
{
    let writes = plan.writes@;
    if plans_exchange(plan, id, prompt, completion) {
        let first = store.after_write(writes[0], now);
        assert(first is Some);
        let middle = first->0;
        assert(middle.has_conversation(id as nat)) by {
            let i = choose|i: int|
                0 <= i < store.conversations.len() && store.conversations[i].id == id as nat;
            assert(middle.conversations[i].id == id as nat);
        }
        let second = middle.after_write(writes[1], now);
        assert(second is Some);
        let rest = writes.drop_first();
        assert(rest[0] == writes[1]);
        assert(rest.drop_first().len() == 0);
        assert(second->0.after_writes(rest.drop_first(), now) == second);
        assert(middle.after_writes(rest, now) == second);
        assert(store.after_writes(writes, now) == second);
        lemma_append_round_trip(store, writes[0], now);
        lemma_append_round_trip(middle, writes[1], now);
    } else {
        let first = store.after_write(writes[0], now);
        assert(first is Some);
        assert(writes.drop_first().len() == 0);
        assert(first->0.after_writes(writes.drop_first(), now) == first);
        assert(store.after_writes(writes, now) == first);
    }
}

/// A list of writes with a refused write changes nothing: the store takes the
/// list as a whole or not at all.
pub proof fn lemma_refused_list_changes_nothing(store: StoreModel, writes: Seq<StoreWrite>, now: int)
    requires
        first_refusal(writes) is Some,
    ensures
        store.after_writes(writes, now) is None,
    decreases writes.len(),
{
    if writes[0].params() is Ok {
        match store.after_write(writes[0], now) {
            Some(next) => {
                lemma_refused_list_changes_nothing(next, writes.drop_first(), now);
            },
            None => {},
        }
    }
}

/// A new conversation gets the next id, is listed for its key with no usage,
/// and keeps the store well formed. In an empty store the id is 1.
pub proof fn lemma_create_conversation(
    store: StoreModel,
    title: Seq<char>,
    key: Seq<char>,
    now: int,
)
    requires
        store.wf(),
    ensures
        ({
            let (after, id) = store.create_conversation(title, key, now);
            &&& after.wf()
            &&& id == store.conversations.len() + 1
            &&& !store.has_conversation(id)
            &&& after.has_conversation(id)
            &&& after.messages_of(id).len() == 0
            &&& after.listing_of(after.conversations.last()).usage == 0
            &&& after.listing_of(after.conversations.last()).last_update == now
            &&& after.listing_of(after.conversations.last()).title == title
        }),
        StoreModel::empty().wf(),
        StoreModel::empty().create_conversation(title, key, now).1 == 1,
{
    let (after, id) = store.create_conversation(title, key, now);
    assert(after.conversations[id - 1].id == id);
    assert forall|i: int| 0 <= i < after.messages.len() implies after.has_conversation(
        (#[trigger] after.messages[i]).conversation_id,
    ) by {
        let c = after.messages[i].conversation_id;
        assert(store.has_conversation(store.messages[i].conversation_id));
        let j = choose|j: int| 0 <= j < store.conversations.len() && store.conversations[j].id == c;
        assert(after.conversations[j].id == c);
    }
    lemma_no_messages_of_unknown(store, id);
}

/// A conversation that is not stored has no messages.
pub proof fn lemma_no_messages_of_unknown(store: StoreModel, id: nat)
    requires
        store.wf(),
        !store.has_conversation(id),
    ensures
        store.messages_of(id).len() == 0,
{
    lemma_none_in(store, store.messages, id);
}

proof fn lemma_none_in(store: StoreModel, messages: Seq<MessageRecord>, id: nat)
    requires
        !store.has_conversation(id),
        forall|i: int|
            0 <= i < messages.len() ==> store.has_conversation(
                (#[trigger] messages[i]).conversation_id,
            ),
    ensures
        messages_in(messages, id).len() == 0,
    decreases messages.len(),
{
    if messages.len() > 0 {
        assert(store.has_conversation(messages[messages.len() - 1].conversation_id));
        lemma_none_in(store, messages.drop_last(), id);
    }
}

} // verus!
