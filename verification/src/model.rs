//! What the lifecycle takes its two stateful collaborators to be, and what
//! then holds of the lifecycle together with them.
//!
//! The cache and the store are not part of this library. Their models here
//! say only what the lifecycle relies on: a key that was set with a lifetime
//! is there until the lifetime is over and gone from then on, and the store
//! keeps every answer it is handed, in the order it came.

use crate::cooldown::key_text;
use crate::flow::{
    announce_spec, get_invite_link_spec, send_spec, step_spec, FlowView, SendRequestView,
};
use crate::protocol::{ActionView, CacheReply, EventView, InviteView, NoticeView};
use crate::room::geturl_spec;
use vstd::prelude::*;

verus! {

/// An expiring-key cache: for each key that was set, the instant at which it
/// lapses.
pub struct CacheModel {
    pub lapses: Map<Seq<char>, int>,
}

impl CacheModel {
    /// Whether `key` is there at the instant `now`.
    pub open spec fn holds(self, key: Seq<char>, now: int) -> bool {
        self.lapses.dom().contains(key) && now < self.lapses[key]
    }

    /// What the cache says when it is asked for `key` at the instant `now`.
    pub open spec fn reply(self, key: Seq<char>, now: int) -> CacheReply {
        if self.holds(key, now) {
            CacheReply::Present
        } else {
            CacheReply::Absent
        }
    }

    /// The cache after `action` was performed at the instant `now`. Arming
    /// sets the key anew, whatever was there; no other action touches the
    /// cache.
    pub open spec fn perform(self, action: ActionView, now: int) -> CacheModel {
        match action {
            ActionView::ArmCooldown { key, seconds } => CacheModel {
                lapses: self.lapses.insert(key, now + seconds),
            },
            _ => self,
        }
    }
}

/// One stored answer.
pub struct RsvpRow {
    pub invitation_id: int,
    pub user_id: Seq<char>,
    pub unix: int,
}

/// The answers that the store holds, oldest first.
pub struct StoreModel {
    pub rsvps: Seq<RsvpRow>,
}

impl StoreModel {
    /// The store after `action` was performed. Recording an answer adds a
    /// row at the end; nothing is ever merged, changed or taken away.
    pub open spec fn perform(self, action: ActionView) -> StoreModel {
        match action {
            ActionView::RecordRsvp { invitation_id, user_id, unix } => StoreModel {
                rsvps: self.rsvps.push(RsvpRow { invitation_id, user_id, unix }),
            },
            _ => self,
        }
    }
}

/// Slow mode holds a sender back for its seconds and no longer.
///
/// Once an invitation is stored in a channel with a slow mode of `n` seconds,
/// the flow arms the cooldown of sender and channel for `n` seconds. Let that
/// be performed at `armed_at`. A later request of the same sender for the
/// same channel asks for the same key; answered at an instant before
/// `armed_at + n` it ends with the cooldown notice and nothing else, and
/// answered at that instant or after it goes on as a request that was never
/// held back.
pub proof fn lemma_slow_mode_window(
    first: SendRequestView,
    second: SendRequestView,
    cache: CacheModel,
    armed_at: int,
    asked_at: int,
)
    requires
        first.slowmode > 0,
        second.user_id == first.user_id,
        second.channel_id == first.channel_id,
        second.slowmode == first.slowmode,
        armed_at <= asked_at,
    ensures
        ({
            let key = key_text(first.user_id, first.channel_id);
            let armed = step_spec(FlowView::SendAwaitingStore { req: first }, EventView::Stored);
            let after = cache.perform(armed.1, armed_at);
            let waiting = FlowView::SendAwaitingCooldown { req: second };
            let answered = step_spec(
                waiting,
                EventView::Cooldown { reply: after.reply(key, asked_at) },
            );
            &&& armed.1 == (ActionView::ArmCooldown { key, seconds: first.slowmode })
            &&& send_spec(second) == (waiting, ActionView::LookupCooldown { key })
            &&& asked_at < armed_at + first.slowmode ==> answered == (
                FlowView::Done,
                ActionView::Respond { notice: NoticeView::Cooldown },
            )
            &&& asked_at >= armed_at + first.slowmode ==> answered == announce_spec(
                second,
                geturl_spec(second.url),
            )
        }),
{
}

/// Answers are only ever added: every click on "get link" on an invitation
/// that the store holds records a row of its own, also a second click by the
/// same user on the same invitation. After two such clicks the store holds
/// two rows more than before, and the rows it held are still there, in front.
pub proof fn lemma_every_click_is_recorded(
    store: StoreModel,
    invite: InviteView,
    user_id: Seq<char>,
    first_at: int,
    second_at: int,
)
    ensures
        ({
            let one = step_spec(
                get_invite_link_spec(invite.user_id, invite.unix, user_id, first_at).0,
                EventView::Found { invite },
            );
            let two = step_spec(
                get_invite_link_spec(invite.user_id, invite.unix, user_id, second_at).0,
                EventView::Found { invite },
            );
            let after = store.perform(one.1).perform(two.1);
            &&& after.rsvps.len() == store.rsvps.len() + 2
            &&& after.rsvps.subrange(0, store.rsvps.len() as int) == store.rsvps
            &&& after.rsvps[store.rsvps.len() as int] == (RsvpRow {
                invitation_id: invite.id,
                user_id,
                unix: first_at,
            })
            &&& after.rsvps[store.rsvps.len() as int + 1] == (RsvpRow {
                invitation_id: invite.id,
                user_id,
                unix: second_at,
            })
        }),
{
}

} // verus!
