//! The cooldown gate: one key per user and channel in an expiring-key cache.
//!
//! A key is put there when an invitation went out in a channel with slow
//! mode, and lapses by itself when the slow mode's seconds are over. While
//! it is there, the same user sends no other invitation to that channel.
//!
//! The policy is to fail open. A cache that cannot be reached holds nobody
//! back: an outage must not lock every user out, so an unanswered lookup
//! counts as "not on cooldown", and a cooldown that could not be armed is
//! let go.

use crate::protocol::{Action, ActionView, CacheReply};
use crate::text::{free_of, lemma_split_head, lemma_split_whole, split, split_spec};
use vstd::prelude::*;
use vstd::string::*;

verus! {

/// The key of a cooldown: who sent, and where.
#[derive(Clone, Debug, PartialEq, Eq)]
pub struct RedisKey {
    pub uid: String,
    pub cid: String,
}

/// The mathematical content of a [`RedisKey`].
pub struct RedisKeyView {
    pub uid: Seq<char>,
    pub cid: Seq<char>,
}

impl View for RedisKey {
    type V = RedisKeyView;

    open spec fn view(&self) -> RedisKeyView {
        RedisKeyView { uid: self.uid@, cid: self.cid@ }
    }
}

/// How a key is written in the cache: user, hyphen, channel.
pub open spec fn key_text(uid: Seq<char>, cid: Seq<char>) -> Seq<char> {
    uid + seq!['-'] + cid
}

/// The key that a text of the cache stands for: its two hyphen-separated
/// pieces. A text with one piece, or with three or more, stands for none.
pub open spec fn key_from_text(s: Seq<char>) -> Option<RedisKeyView> {
    let parts = split_spec(s, '-');
    if parts.len() == 2 {
        Some(RedisKeyView { uid: parts[0], cid: parts[1] })
    } else {
        None
    }
}

/// What [`RedisKey::from_str`] says of a text that is no key.
pub open spec fn invalid_format() -> Seq<char> {
    "Invalid format: Expected 'uid-cid'"@
}

impl RedisKey {
    /// Writes the key as the cache holds it.
    pub fn to_string(&self) -> (r: String)
        ensures
            r@ == key_text(self.uid@, self.cid@),
    {
        proof {
            reveal_strlit("-");
        }
        let mut out = String::from_str(self.uid.as_str());
        out.append("-");
        out.append(self.cid.as_str());
        out
    }

    /// Reads a key as the cache holds it.
    pub fn from_str(s: &str) -> (r: Result<RedisKey, String>)
        ensures
            match r {
                Ok(key) => key_from_text(s@) == Some(key@),
                Err(e) => key_from_text(s@) is None && e@ == invalid_format(),
            },
    {
        let mut parts = split(s, '-');
        if parts.len() != 2 {
            return Err(String::from_str("Invalid format: Expected 'uid-cid'"));
        }
        let cid = parts.pop().unwrap();
        let uid = parts.pop().unwrap();
        Ok(RedisKey { uid, cid })
    }
}

/// A key of a user and a channel whose ids hold no hyphen is read back from
/// its text as it was.
pub proof fn lemma_key_roundtrip(uid: Seq<char>, cid: Seq<char>)
    requires
        free_of(uid, '-'),
        free_of(cid, '-'),
    ensures
        key_from_text(key_text(uid, cid)) == Some(RedisKeyView { uid, cid }),
{
    lemma_split_whole(cid, '-');
    lemma_split_head(uid, cid, '-');
}

/// Two keys are written alike only where user and channel are the same,
/// as long as no id holds a hyphen: no user's cooldown holds another user
/// back, nor the same user in another channel.
pub proof fn lemma_key_text_tells_apart(
    uid: Seq<char>,
    cid: Seq<char>,
    other_uid: Seq<char>,
    other_cid: Seq<char>,
)
    requires
        free_of(uid, '-'),
        free_of(cid, '-'),
        free_of(other_uid, '-'),
        free_of(other_cid, '-'),
        key_text(uid, cid) == key_text(other_uid, other_cid),
    ensures
        uid == other_uid,
        cid == other_cid,
{
    lemma_key_roundtrip(uid, cid);
    lemma_key_roundtrip(other_uid, other_cid);
}

/// The slow mode of a channel in seconds, given what the chat platform says
/// of it; a channel of which it says nothing has none, which is 0.
pub fn slow_mode(rate_limit_per_user: Option<u16>) -> (r: u64)
    ensures
        r == match rate_limit_per_user {
            Some(seconds) => seconds as int,
            None => 0,
        },
{
    match rate_limit_per_user {
        Some(seconds) => seconds as u64,
        None => 0,
    }
}

/// Whether the cache's answer holds the user back. Only a key that is there
/// does; a cache that could not be reached holds nobody back.
pub fn is_blocked(reply: CacheReply) -> (r: bool)
    ensures
        r == (reply == CacheReply::Present),
{
    match reply {
        CacheReply::Present => true,
        CacheReply::Absent => false,
        CacheReply::Unreachable => false,
    }
}

/// The question to the cache whether a user is on cooldown in a channel.
pub fn lookup(user_id: &str, channel_id: &str) -> (r: Action)
    ensures
        r@ == (ActionView::LookupCooldown { key: key_text(user_id@, channel_id@) }),
{
    let key = RedisKey { uid: String::from_str(user_id), cid: String::from_str(channel_id) };
    Action::LookupCooldown { key: key.to_string() }
}

/// The order to the cache that puts a user on cooldown in a channel for
/// `seconds`, whatever the cache held for the two before.
pub fn arm(user_id: &str, channel_id: &str, seconds: u64) -> (r: Action)
    ensures
        r@ == (ActionView::ArmCooldown {
            key: key_text(user_id@, channel_id@),
            seconds: seconds as int,
        }),
{
    let key = RedisKey { uid: String::from_str(user_id), cid: String::from_str(channel_id) };
    Action::ArmCooldown { key: key.to_string(), seconds }
}

} // verus!
