use vstd::prelude::*;
use core::cmp::Ordering;
use vstd::std_specs::cmp::{PartialEqSpec, PartialOrdSpec};
use crate::json::JsonStrings;
use crate::plugin_pointer::GlobalPointer;
use crate::text::c_compatible;

verus! {

/// Hands out the tokens that tell group chats apart: 1, 2, 3, and so on,
/// wrapping around after the largest `usize`, as an atomic counter that
/// starts at 1 and is advanced with `fetch_add(1)` does.
#[derive(Debug)]
pub struct TokenSource {
    next: usize,
}

/// The token after `t`, wrapping around after the largest `usize`.
pub open spec fn next_token(t: usize) -> usize {
    if t == usize::MAX {
        0
    } else {
        (t + 1) as usize
    }
}

impl TokenSource {
    /// The token that the next call of `take` gives.
    pub closed spec fn upcoming(&self) -> usize {
        self.next
    }

    /// A source whose first token is 1.
    pub fn new() -> (res: TokenSource)
        ensures
            res.upcoming() == 1,
    {
        TokenSource { next: 1 }
    }

    /// Gives the upcoming token and advances by one.
    pub fn take(&mut self) -> (res: usize)
        ensures
            res == old(self).upcoming(),
            final(self).upcoming() == next_token(old(self).upcoming()),
            old(self).upcoming() < usize::MAX ==> final(self).upcoming() == old(self).upcoming() + 1,
            old(self).upcoming() == usize::MAX ==> final(self).upcoming() == 0,
    {
        let token = self.next;
        self.next = if self.next == usize::MAX {
            0
        } else {
            self.next + 1
        };
        token
    }
}

/// A group chat: its id, its shown name, the token that it was given when it
/// was read, and the address of the conversation window that shows it.
#[derive(Clone, Debug)]
pub struct ChatRoom {
    id: String,
    alias: String,
    token: usize,
    ptr: GlobalPointer,
}

impl ChatRoom {
    /// The id of the group.
    pub closed spec fn id_view(&self) -> Seq<char> {
        self.id@
    }

    /// The name shown for the group.
    pub closed spec fn alias_view(&self) -> Seq<char> {
        self.alias@
    }

    /// The token by which group chats are told apart and ordered.
    pub closed spec fn token_view(&self) -> usize {
        self.token
    }

    /// The address of the conversation window.
    pub closed spec fn chat_addr(&self) -> usize {
        self.ptr.addr()
    }

    /// Reads a group chat from the members `UserName` and `NickName` of a
    /// JSON object, which must both be strings, and gives it the next token
    /// of `tokens`. It has no conversation window yet.
    pub fn from_json(json: &JsonStrings, tokens: &mut TokenSource) -> (res: ChatRoom)
        requires
            json.wf(),
            json.lookup("UserName"@) is Some,
            json.lookup("NickName"@) is Some,
        ensures
            Some(res.id_view()) == json.lookup("UserName"@),
            Some(res.alias_view()) == json.lookup("NickName"@),
            res.token_view() == old(tokens).upcoming(),
            final(tokens).upcoming() == next_token(old(tokens).upcoming()),
            old(tokens).upcoming() < usize::MAX ==> final(tokens).upcoming() == old(tokens).upcoming() + 1,
            res.chat_addr() == 0,
    {
        let id = json.get_str("UserName");
        let alias = json.get_str("NickName");
        match (id, alias) {
            (Some(id), Some(alias)) => {
                let token = tokens.take();
                ChatRoom { id, alias, token, ptr: GlobalPointer::new() }
            },
            _ => {
                proof {
                    assert(false);
                }
                ChatRoom { id: String::new(), alias: String::new(), token: 0, ptr: GlobalPointer::new() }
            },
        }
    }

    /// The token.
    pub fn token(&self) -> (res: usize)
        ensures
            res == self.token_view(),
    {
        self.token
    }

    /// The text of the id for a C string; it must hold no NUL.
    pub fn id_cstring(&self) -> (res: String)
        requires
            c_compatible(self.id_view()),
        ensures
            res@ == self.id_view(),
    {
        self.id.clone()
    }

    /// The text of the shown name for a C string; it must hold no NUL.
    pub fn alias_cstring(&self) -> (res: String)
        requires
            c_compatible(self.alias_view()),
        ensures
            res@ == self.alias_view(),
    {
        self.alias.clone()
    }

    /// The shown name.
    pub fn alias(&self) -> (res: String)
        ensures
            res@ == self.alias_view(),
    {
        self.alias.clone()
    }

    /// The id.
    pub fn id(&self) -> (res: String)
        ensures
            res@ == self.id_view(),
    {
        self.id.clone()
    }

    /// Records the address of the conversation window; nothing else changes.
    pub fn set_chat_ptr(&mut self, chat: usize)
        ensures
            final(self).chat_addr() == chat,
            final(self).id_view() == old(self).id_view(),
            final(self).alias_view() == old(self).alias_view(),
            final(self).token_view() == old(self).token_view(),
    {
        self.ptr.set(chat);
    }

    /// The address of the conversation window.
    pub fn chat_ptr(&self) -> (res: usize)
        ensures
            res == self.chat_addr(),
    {
        self.ptr.as_ptr()
    }
}

impl PartialEq for ChatRoom {
    fn eq(&self, other: &ChatRoom) -> (res: bool) {
        self.token == other.token
    }
}

impl vstd::std_specs::cmp::PartialEqSpecImpl for ChatRoom {
    open spec fn obeys_eq_spec() -> bool {
        true
    }

    open spec fn eq_spec(&self, other: &ChatRoom) -> bool {
        self.token_view() == other.token_view()
    }
}

impl Eq for ChatRoom {}

/// The order of two tokens.
pub open spec fn token_order(a: usize, b: usize) -> Ordering {
    if a < b {
        Ordering::Less
    } else if a == b {
        Ordering::Equal
    } else {
        Ordering::Greater
    }
}

impl PartialOrd for ChatRoom {
    fn partial_cmp(&self, other: &ChatRoom) -> (res: Option<Ordering>) {
        if self.token < other.token {
            Some(Ordering::Less)
        } else if self.token == other.token {
            Some(Ordering::Equal)
        } else {
            Some(Ordering::Greater)
        }
    }
}

impl vstd::std_specs::cmp::PartialOrdSpecImpl for ChatRoom {
    open spec fn obeys_partial_cmp_spec() -> bool {
        true
    }

    open spec fn partial_cmp_spec(&self, other: &ChatRoom) -> Option<Ordering> {
        Some(token_order(self.token_view(), other.token_view()))
    }
}

/// Group chats compare equal exactly when they are in the order `Equal`.
pub proof fn lemma_chatroom_eq_matches_order(a: ChatRoom, b: ChatRoom)
    ensures
        a.eq_spec(&b) <==> a.partial_cmp_spec(&b) == Some(Ordering::Equal),
{
}

/// Group chats are totally ordered: `a` before `b` exactly when `b` is after
/// `a`, and the order is transitive.
pub proof fn lemma_chatroom_order_total(a: ChatRoom, b: ChatRoom, c: ChatRoom)
    ensures
        a.partial_cmp_spec(&b) is Some,
        a.partial_cmp_spec(&b) == Some(Ordering::Less) <==> b.partial_cmp_spec(&a) == Some(
            Ordering::Greater,
        ),
        a.partial_cmp_spec(&b) == Some(Ordering::Less) && b.partial_cmp_spec(&c) == Some(
            Ordering::Less,
        ) ==> a.partial_cmp_spec(&c) == Some(Ordering::Less),
{
}

/// Two group chats read one after the other from the same token source,
/// before it wraps around, are different and come in the order read.
pub proof fn lemma_successive_chatrooms_differ(
    first: ChatRoom,
    second: ChatRoom,
    source: TokenSource,
    later: TokenSource,
)
    requires
        first.token_view() == source.upcoming(),
        later.upcoming() == next_token(source.upcoming()),
        second.token_view() == later.upcoming(),
        source.upcoming() < usize::MAX,
    ensures
        !first.eq_spec(&second),
        first.partial_cmp_spec(&second) == Some(Ordering::Less),
{
}

/// Each token is one more than the one before it, until the largest
/// `usize`, after which the count starts again at 0.
pub proof fn lemma_next_token_counts_up(t: usize)
    ensures
        t < usize::MAX ==> next_token(t) == t + 1,
        t == usize::MAX ==> next_token(t) == 0,
{
}

/// A fresh source hands out `k + 1` as its token after `k` takes, for as
/// long as the count stays below the largest `usize`: 1, 2, 3, ...
pub open spec fn token_after(start: usize, k: nat) -> usize
    decreases k,
{
    if k == 0 {
        start
    } else {
        next_token(token_after(start, (k - 1) as nat))
    }
}

/// After `k` takes, a source that started at `start` stands at `start + k`
/// while that stays within `usize`; so the tokens of chats read one after the
/// other are all different and increasing until the count wraps around.
pub proof fn lemma_tokens_after_takes(start: usize, j: nat, k: nat)
    requires
        j < k,
        start + k <= usize::MAX,
    ensures
        token_after(start, k) == start + k,
        token_after(start, j) < token_after(start, k),
    decreases k,
{
    if k > 0 {
        if j < k - 1 {
            lemma_tokens_after_takes(start, j, (k - 1) as nat);
        } else {
            lemma_tokens_after_count(start, j);
        }
    }
}

proof fn lemma_tokens_after_count(start: usize, k: nat)
    requires
        start + k <= usize::MAX,
    ensures
        token_after(start, k) == start + k,
    decreases k,
{
    if k > 0 {
        lemma_tokens_after_count(start, (k - 1) as nat);
    }
}

/// Group chats are ordered as their tokens are: the one with the smaller
/// token comes first.
pub proof fn lemma_chatroom_order_by_token(a: ChatRoom, b: ChatRoom)
    ensures
        a.token_view() < b.token_view() ==> a.partial_cmp_spec(&b) == Some(Ordering::Less),
        a.token_view() > b.token_view() ==> a.partial_cmp_spec(&b) == Some(Ordering::Greater),
        a.token_view() == b.token_view() ==> a.partial_cmp_spec(&b) == Some(Ordering::Equal),
        a.eq_spec(&b) <==> a.token_view() == b.token_view(),
{
}

} // verus!
