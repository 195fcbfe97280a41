//! Working memory: the conversation of the current session, which grows with
//! every turn and is compressed when it gets too long.

use vstd::prelude::*;
use crate::llm::provider::LlmMessage;
use crate::text::{utf8_len, utf8_len_of};
use crate::types::{plain_message, Message, MessageView, Role};

verus! {

/// The messages of the current session.
pub struct WorkingMemory {
    messages: Vec<Message>,
    max_tokens: usize,
}

/// The number of UTF-8 bytes of the contents of `msgs`.
pub open spec fn total_bytes(msgs: Seq<MessageView>) -> nat
    decreases msgs.len(),
{
    if msgs.len() == 0 {
        0
    } else {
        total_bytes(msgs.drop_last()) + utf8_len(msgs.last().content)
    }
}

/// `n`, or `cap` if `n` is larger.
pub open spec fn capped(n: nat, cap: nat) -> nat {
    if n <= cap {
        n
    } else {
        cap
    }
}

/// The estimated number of tokens of `msgs`: one token for every four bytes
/// (a total that no memory can hold counts as `usize::MAX` bytes).
pub open spec fn estimated_tokens(msgs: Seq<MessageView>) -> nat {
    capped(total_bytes(msgs), usize::MAX as nat) / 4
}

/// The text appended to working memory when it is compressed.
pub open spec fn compression_note() -> Seq<char> {
    "[Previous context compressed. Summary of dropped messages not shown.]"@
}

/// Working memory after compression to the `keep_recent` most recent messages:
/// the first (system) message, the `keep_recent` most recent ones, and a note.
pub open spec fn compressed(msgs: Seq<MessageView>, keep_recent: nat) -> Seq<MessageView> {
    if msgs.len() <= keep_recent {
        msgs
    } else {
        seq![msgs[0]] + msgs.subrange(msgs.len() - keep_recent, msgs.len() as int) + seq![
            plain_message(Role::Assistant, compression_note()),
        ]
    }
}

/// The role name the model expects for `role`.
pub open spec fn role_name(role: Role) -> Seq<char> {
    match role {
        Role::System => "system"@,
        Role::User => "user"@,
        Role::Assistant => "assistant"@,
        Role::Tool => "tool"@,
    }
}

/// The model message for `m`: its role name and content.
pub open spec fn llm_message_of(m: MessageView) -> (Seq<char>, Seq<char>) {
    (role_name(m.role), m.content)
}

impl View for WorkingMemory {
    type V = Seq<MessageView>;

    closed spec fn view(&self) -> Seq<MessageView> {
        self.messages@.map_values(|m: Message| m@)
    }
}

impl WorkingMemory {
    /// The token budget this memory was made with.
    pub closed spec fn spec_max_tokens(&self) -> usize {
        self.max_tokens
    }

    /// An empty working memory with a budget of `max_tokens` tokens.
    pub fn new(max_tokens: usize) -> (r: Self)
        ensures
            r@ == Seq::<MessageView>::empty(),
            r.spec_max_tokens() == max_tokens,
    {
        WorkingMemory { messages: Vec::new(), max_tokens }
    }

    /// Appends `msg`.
    pub fn push(&mut self, msg: Message)
        ensures
            final(self)@ == old(self)@.push(msg@),
            final(self).spec_max_tokens() == old(self).spec_max_tokens(),
    {
        let ghost v = msg@;
        self.messages.push(msg);
        assert(self.messages@.map_values(|m: Message| m@) =~= old(self)@.push(v));
    }

    /// The messages, oldest first.
    pub fn messages(&self) -> (r: &[Message])
        ensures
            r@.map_values(|m: Message| m@) == self@,
    {
        self.messages.as_slice()
    }

    /// The messages, for changes in place.
    pub fn messages_mut(&mut self) -> (r: &mut Vec<Message>)
        ensures
            r@.map_values(|m: Message| m@) == old(self)@,
            final(self)@ == final(r)@.map_values(|m: Message| m@),
            final(self).spec_max_tokens() == old(self).spec_max_tokens(),
    {
        &mut self.messages
    }

    /// The number of messages.
    pub fn len(&self) -> (r: usize)
        ensures
            r == self@.len(),
    {
        self.messages.len()
    }

    /// Whether there is no message.
    pub fn is_empty(&self) -> (r: bool)
        ensures
            r == (self@.len() == 0),
    {
        self.messages.len() == 0
    }

    /// The estimated number of tokens: the UTF-8 length of all contents over
    /// four. A total beyond `usize::MAX` bytes, which memory cannot hold,
    /// counts as `usize::MAX`.
    pub fn estimate_tokens(&self) -> (r: usize)
        ensures
            r == estimated_tokens(self@),
    {
        let ghost v = self@;
        let n = self.messages.len();
        let cap: u128 = (usize::MAX as u128) + 1;
        let mut acc: u128 = 0;
        assert(v.take(0) =~= Seq::<MessageView>::empty());
        for i in 0..n
            invariant
                n == v.len(),
                v == self@,
                cap == usize::MAX + 1,
                acc == capped(total_bytes(v.take(i as int)), cap as nat),
        {
            proof {
                assert(v.take(i + 1).drop_last() =~= v.take(i as int));
                assert(v[i as int] == self.messages@[i as int]@);
            }
            let b = utf8_len_of(self.messages[i].content.as_str());
            acc = if acc + b > cap { cap } else { acc + b };
        }
        assert(v.take(n as int) =~= v);
        if acc > usize::MAX as u128 {
            usize::MAX / 4
        } else {
            (acc as usize) / 4
        }
    }

    /// Whether the estimate exceeds 70% of the token budget.
    pub fn needs_compression(&self) -> (r: bool)
        ensures
            r == (estimated_tokens(self@) > self.spec_max_tokens() * 70 / 100),
    {
        let est = self.estimate_tokens();
        let limit: u128 = (self.max_tokens as u128) * 70 / 100;
        (est as u128) > limit
    }

    /// Keeps the first (system) message and the `keep_recent` most recent
    /// messages, and appends a note that older context was dropped; nothing
    /// changes when there are at most `keep_recent` messages.
    pub fn compress(&mut self, keep_recent: usize)
        ensures
            final(self)@ == compressed(old(self)@, keep_recent as nat),
            final(self).spec_max_tokens() == old(self).spec_max_tokens(),
    {
        let n = self.messages.len();
        if n <= keep_recent {
            return;
        }
        let ghost old_msgs = self.messages@;
        let mut recent = self.messages.split_off(n - keep_recent);
        self.messages.truncate(1);
        self.messages.append(&mut recent);
        self.messages.push(Message::assistant(
            "[Previous context compressed. Summary of dropped messages not shown.]",
        ));
        let ghost olds = old_msgs.map_values(|m: Message| m@);
        assert(self.messages@.map_values(|m: Message| m@) =~= seq![olds[0]] + olds.subrange(
            n - keep_recent,
            n as int,
        ) + seq![plain_message(Role::Assistant, compression_note())]);
    }

    /// The messages as the model expects them: role name and content.
    pub fn to_llm_messages(&self) -> (r: Vec<LlmMessage>)
        ensures
            r@.len() == self@.len(),
            forall|i: int|
                0 <= i < r@.len() ==> (#[trigger] r@[i].role@, r@[i].content@) == llm_message_of(
                    self@[i],
                ),
    {
        let n = self.messages.len();
        let mut out: Vec<LlmMessage> = Vec::new();
        for i in 0..n
            invariant
                n == self@.len(),
                out@.len() == i,
                forall|k: int|
                    0 <= k < i ==> (#[trigger] out@[k].role@, out@[k].content@) == llm_message_of(
                        self@[k],
                    ),
        {
            let m = &self.messages[i];
            let role = match m.role {
                Role::System => "system".to_owned(),
                Role::User => "user".to_owned(),
                Role::Assistant => "assistant".to_owned(),
                Role::Tool => "tool".to_owned(),
            };
            out.push(LlmMessage { role, content: m.content.clone() });
            assert(self@[i as int] == m@);
        }
        out
    }
}

impl Clone for WorkingMemory {
    /// A copy with the same messages and budget.
    fn clone(&self) -> (r: Self)
        ensures
            r@ == self@,
            r.spec_max_tokens() == self.spec_max_tokens(),
    {
        let mut messages: Vec<Message> = Vec::new();
        let n = self.messages.len();
        for i in 0..n
            invariant
                n == self.messages@.len(),
                messages@.len() == i,
                forall|k: int| 0 <= k < i ==> #[trigger] messages@[k]@ == self.messages@[k]@,
        {
            messages.push(self.messages[i].clone());
        }
        let r = WorkingMemory { messages, max_tokens: self.max_tokens };
        assert(r@ =~= self@);
        r
    }
}

// ---------------------------------------------------------------------------
// Laws
// ---------------------------------------------------------------------------

/// Working memory grows with the conversation: adding a message never lowers
/// the token estimate.
pub proof fn law_push_grows_estimate(msgs: Seq<MessageView>, m: MessageView)
    ensures
        estimated_tokens(msgs) <= estimated_tokens(msgs.push(m)),
{
    assert(msgs.push(m).drop_last() =~= msgs);
    assert(total_bytes(msgs) <= total_bytes(msgs.push(m)));
    let a = capped(total_bytes(msgs), usize::MAX as nat);
    let b = capped(total_bytes(msgs.push(m)), usize::MAX as nat);
    assert(a <= b);
    vstd::arithmetic::div_mod::lemma_div_is_ordered(a as int, b as int, 4);
}

/// Compression keeps the system prompt first, then the `keep_recent` most
/// recent messages in order, then the note; the rest is dropped.
pub proof fn law_compress_keeps_system_and_recent(msgs: Seq<MessageView>, keep_recent: nat)
    requires
        msgs.len() > keep_recent,
    ensures
        compressed(msgs, keep_recent).len() == keep_recent + 2,
        compressed(msgs, keep_recent)[0] == msgs[0],
        forall|j: int|
            0 <= j < keep_recent ==> #[trigger] compressed(msgs, keep_recent)[1 + j] == msgs[msgs.len()
                - keep_recent + j],
        compressed(msgs, keep_recent).last() == plain_message(Role::Assistant, compression_note()),
{
}

/// Compression never lengthens a long conversation by more than its note:
/// it holds at most `keep_recent + 2` messages once it compresses, and leaves
/// a short one as it is.
pub proof fn law_compress_bounded(msgs: Seq<MessageView>, keep_recent: nat)
    ensures
        msgs.len() <= keep_recent ==> compressed(msgs, keep_recent) == msgs,
        compressed(msgs, keep_recent).len() <= (if msgs.len() <= keep_recent {
            msgs.len()
        } else {
            keep_recent + 2
        }),
{
}

} // verus!
