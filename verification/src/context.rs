//! Context assembly: which part of a conversation's history accompanies a
//! new prompt.
//!
//! The history is walked from the most recent message to the oldest. Two
//! counters run along: the messages taken so far and their estimated token
//! count. The walk tests the counters before it takes a message, so the
//! message that carries a counter over its budget is still taken, and the
//! walk stops at the one after it.

use vstd::prelude::*;
use vstd::utf8::*;
use crate::types::{message_views, Message, MessageRole, MessageView, SavedMessage};

verus! {

/// The length of a text in bytes of UTF-8, as `str::len` reports it.
pub open spec fn byte_length(content: Seq<char>) -> usize {
    encode_utf8(content).len() as usize
}

/// The crude token estimate of a message: a third of its length in bytes.
pub open spec fn token_estimate(content: Seq<char>) -> nat {
    (byte_length(content) / 3) as nat
}

/// The summed token estimate of the `count` most recent messages.
pub open spec fn recent_tokens(history: Seq<SavedMessage>, count: nat) -> nat
    recommends
        count <= history.len(),
    decreases count,
{
    if count == 0 || count > history.len() {
        0
    } else {
        recent_tokens(history, (count - 1) as nat) + token_estimate(
            history[history.len() - count].content@,
        )
    }
}

/// Whether the walk stops once it has taken the `count` most recent messages:
/// the history is used up, or a counter has passed its budget.
pub open spec fn walk_stops(
    history: Seq<SavedMessage>,
    count: nat,
    max_messages: nat,
    max_tokens: nat,
) -> bool {
    count >= history.len() || count > max_messages || recent_tokens(history, count) > max_tokens
}

/// The number of messages that the walk takes when it has already taken
/// `count` of them.
pub open spec fn walk_from(
    history: Seq<SavedMessage>,
    count: nat,
    max_messages: nat,
    max_tokens: nat,
) -> nat
    decreases history.len() - count,
{
    if walk_stops(history, count, max_messages, max_tokens) {
        count
    } else {
        walk_from(history, count + 1, max_messages, max_tokens)
    }
}

/// The number of history messages that go into the context.
pub open spec fn kept_count(history: Seq<SavedMessage>, max_messages: nat, max_tokens: nat) -> nat {
    walk_from(history, 0, max_messages, max_tokens)
}

/// The context for a new prompt: the kept messages, oldest first, and then the
/// prompt as a message of the user.
pub open spec fn context_of(
    history: Seq<SavedMessage>,
    new_prompt: Seq<char>,
    max_messages: nat,
    max_tokens: nat,
) -> Seq<MessageView> {
    let kept = kept_count(history, max_messages, max_tokens);
    Seq::new(kept, |k: int| history[history.len() - kept + k].message()).push(
        MessageView { role: MessageRole::User, content: new_prompt },
    )
}

/// The walk ends at the first count at which it stops, and never before.
pub proof fn lemma_walk_from(
    history: Seq<SavedMessage>,
    count: nat,
    max_messages: nat,
    max_tokens: nat,
)
    requires
        count <= history.len(),
    ensures
        count <= walk_from(history, count, max_messages, max_tokens) <= history.len(),
        walk_stops(
            history,
            walk_from(history, count, max_messages, max_tokens),
            max_messages,
            max_tokens,
        ),
        forall|k: nat|
            count <= k < walk_from(history, count, max_messages, max_tokens) ==> !walk_stops(
                history,
                k,
                max_messages,
                max_tokens,
            ),
    decreases history.len() - count,
{
    if !walk_stops(history, count, max_messages, max_tokens) {
        lemma_walk_from(history, count + 1, max_messages, max_tokens);
    }
}

/// The number of kept messages is the least count at which the walk stops.
/// It is therefore at most the length of the history and at most one more
/// than the message budget.
pub proof fn lemma_kept_count(history: Seq<SavedMessage>, max_messages: nat, max_tokens: nat)
    ensures
        kept_count(history, max_messages, max_tokens) <= history.len(),
        kept_count(history, max_messages, max_tokens) <= max_messages + 1,
        walk_stops(
            history,
            kept_count(history, max_messages, max_tokens),
            max_messages,
            max_tokens,
        ),
        forall|k: nat|
            k < kept_count(history, max_messages, max_tokens) ==> !walk_stops(
                history,
                k,
                max_messages,
                max_tokens,
            ),
{
    lemma_walk_from(history, 0, max_messages, max_tokens);
    let kept = kept_count(history, max_messages, max_tokens);
    if kept > max_messages + 1 {
        assert(!walk_stops(history, max_messages + 1, max_messages, max_tokens));
    }
}

/// Assembles the messages to send for a new prompt.
///
/// The result is the kept part of the history followed by the prompt. The
/// kept part is a suffix of the history in its stored order, it has at most
/// `max_messages + 1` messages, and the prompt is always the last element,
/// whatever the budgets are.
pub fn build_context(
    history: &Vec<SavedMessage>,
    new_prompt: &str,
    max_messages: u64,
    max_tokens: u64,
) -> (context: Vec<Message>)
    ensures
        message_views(context@) == context_of(
            history@,
            new_prompt@,
            max_messages as nat,
            max_tokens as nat,
        ),
        context@.len() == kept_count(history@, max_messages as nat, max_tokens as nat) + 1,
        context@.len() <= history@.len() + 1,
        context@.len() <= max_messages + 2,
        context@.last()@ == (MessageView { role: MessageRole::User, content: new_prompt@ }),
        forall|k: int|
            0 <= k < context@.len() - 1 ==> (#[trigger] context@[k])@ == history@[history@.len() - (
            context@.len() - 1) + k].message(),
{
    let total = history.len();
    let mut taken: usize = 0;
    let mut tokens: u128 = 0;
    while taken < total && taken as u64 <= max_messages && tokens <= max_tokens as u128
        invariant
            total == history@.len(),
            taken <= total,
            tokens == recent_tokens(history@, taken as nat),
            walk_from(history@, taken as nat, max_messages as nat, max_tokens as nat) == kept_count(
                history@,
                max_messages as nat,
                max_tokens as nat,
            ),
        decreases total - taken,
    {
        let content = history[total - 1 - taken].content.as_str();
        let cost = content.len() / 3;
        tokens = tokens + cost as u128;
        taken = taken + 1;
    }
    proof {
        lemma_kept_count(history@, max_messages as nat, max_tokens as nat);
    }
    let first = total - taken;
    let mut context: Vec<Message> = Vec::new();
    let mut next = first;
    while next < total
        invariant
            total == history@.len(),
            first <= next <= total,
            context@.len() == next - first,
            forall|k: int|
                0 <= k < context@.len() ==> (#[trigger] context@[k])@ == history@[first + k].message(),
        decreases total - next,
    {
        let saved = &history[next];
        context.push(Message { role: saved.role, content: saved.content.clone() });
        next = next + 1;
    }
    context.push(Message { role: MessageRole::User, content: new_prompt.to_owned() });
    assert(message_views(context@) =~= context_of(
        history@,
        new_prompt@,
        max_messages as nat,
        max_tokens as nat,
    ));
    context
}

} // verus!
