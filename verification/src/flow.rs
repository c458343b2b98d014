//! The invitation lifecycle: sending an invitation, answering a click on one
//! of its controls, and exporting the answers.
//!
//! Nothing is kept in memory between two inbound events. Each event opens a
//! [`Flow`] of its own, which lives as long as it takes to handle that event:
//! a start function gives the first [`Action`], and [`Flow::step`] takes what
//! came of each action and gives the next, until the flow is [`Flow::Done`].
//! The action that comes with `Done` is the last one; nothing comes back
//! from it.

use crate::codec::{
    decode, decode_spec, encode, encode_spec, lemma_decode_encode, separator, ActionTag,
    ControlIntent, IntentView,
};
use crate::cooldown::{arm, is_blocked, key_text, lookup};
use crate::export::{attachment_name, csv, file_name, render_csv};
use crate::protocol::{
    Action, ActionView, CacheReply, Event, EventView, Failure, Notice, NoticeView,
};
use crate::room::{geturl, geturl_spec};
use crate::text::{free_of, option_text, same_text};
use vstd::prelude::*;
use vstd::string::*;

verus! {

/// A user's wish to invite others to a room.
#[derive(Clone, Debug, PartialEq, Eq)]
pub struct SendRequest {
    /// Who sends.
    pub user_id: String,
    /// The channel that the invitation goes to.
    pub channel_id: String,
    /// The time of the request, in seconds since the Unix epoch.
    pub now: i64,
    /// The slow mode of the channel in seconds; 0 where it has none.
    pub slowmode: u64,
    /// The room code or room link as the user typed it.
    pub url: String,
    /// What the user says about the room.
    pub content: Option<String>,
    /// The sender's name.
    pub author_name: String,
    /// How the chat platform writes a mention of the sender.
    pub author_mention: String,
}

/// The mathematical content of a [`SendRequest`].
pub struct SendRequestView {
    pub user_id: Seq<char>,
    pub channel_id: Seq<char>,
    pub now: int,
    pub slowmode: int,
    pub url: Seq<char>,
    pub content: Option<Seq<char>>,
    pub author_name: Seq<char>,
    pub author_mention: Seq<char>,
}

impl View for SendRequest {
    type V = SendRequestView;

    open spec fn view(&self) -> SendRequestView {
        SendRequestView {
            user_id: self.user_id@,
            channel_id: self.channel_id@,
            now: self.now as int,
            slowmode: self.slowmode as int,
            url: self.url@,
            content: option_text(self.content),
            author_name: self.author_name@,
            author_mention: self.author_mention@,
        }
    }
}

/// How far the handling of one inbound event has come.
#[derive(Clone, Debug, PartialEq, Eq)]
pub enum Flow {
    /// Sending: the cache was asked whether the sender is on cooldown.
    SendAwaitingCooldown { req: SendRequest },
    /// Sending: the invitation message was handed to the chat platform.
    SendAwaitingPost { req: SendRequest, url: String },
    /// Sending: the invitation was handed to the store.
    SendAwaitingStore { req: SendRequest },
    /// Sending: the cache was asked to arm the cooldown.
    SendAwaitingArm,
    /// Fetching a link: the store was asked for the invitation.
    LinkAwaitingInvite { user_id: String, now: i64 },
    /// Fetching a link: the answer was handed to the store.
    LinkAwaitingRsvp { link: String },
    /// Exporting: the store was asked for the answers.
    InspectAwaitingRsvps { msg_id: String },
    /// Nothing more is expected.
    Done,
}

/// The mathematical content of a [`Flow`].
pub enum FlowView {
    SendAwaitingCooldown { req: SendRequestView },
    SendAwaitingPost { req: SendRequestView, url: Seq<char> },
    SendAwaitingStore { req: SendRequestView },
    SendAwaitingArm,
    LinkAwaitingInvite { user_id: Seq<char>, now: int },
    LinkAwaitingRsvp { link: Seq<char> },
    InspectAwaitingRsvps { msg_id: Seq<char> },
    Done,
}

impl View for Flow {
    type V = FlowView;

    open spec fn view(&self) -> FlowView {
        match *self {
            Flow::SendAwaitingCooldown { req } => FlowView::SendAwaitingCooldown { req: req@ },
            Flow::SendAwaitingPost { req, url } => FlowView::SendAwaitingPost {
                req: req@,
                url: url@,
            },
            Flow::SendAwaitingStore { req } => FlowView::SendAwaitingStore { req: req@ },
            Flow::SendAwaitingArm => FlowView::SendAwaitingArm,
            Flow::LinkAwaitingInvite { user_id, now } => FlowView::LinkAwaitingInvite {
                user_id: user_id@,
                now: now as int,
            },
            Flow::LinkAwaitingRsvp { link } => FlowView::LinkAwaitingRsvp { link: link@ },
            Flow::InspectAwaitingRsvps { msg_id } => FlowView::InspectAwaitingRsvps {
                msg_id: msg_id@,
            },
            Flow::Done => FlowView::Done,
        }
    }
}

/// The title of an invitation message.
pub open spec fn title_spec(author_name: Seq<char>) -> Seq<char> {
    author_name + " is looking for more players!"@
}

/// The body of an invitation message: who invites, what they say about the
/// room, and a hint at the control below.
pub open spec fn description_spec(author_mention: Seq<char>, content: Option<Seq<char>>) -> Seq<
    char,
> {
    "From: "@ + author_mention + "\nRoom description: "@ + (match content {
        Some(c) => c,
        None => "_The host does not disclose anything_"@,
    }) + "\n-# Press the button below to get the room link"@
}

/// The invitation message for a request.
pub open spec fn post_spec(req: SendRequestView) -> ActionView {
    ActionView::PostInvitation {
        title: title_spec(req.author_name),
        description: description_spec(req.author_mention, req.content),
        link_control: encode_spec(req.user_id, req.now, None),
        delete_control: encode_spec(req.user_id, req.now, Some(ActionTag::Delete)),
    }
}

/// What happens to a request that is not on cooldown, given the room link
/// that its input stands for: without a link the user is told so and nothing
/// else is done; with one the invitation message goes out.
pub open spec fn announce_spec(req: SendRequestView, url: Option<Seq<char>>) -> (
    FlowView,
    ActionView,
) {
    match url {
        None => (FlowView::Done, ActionView::Respond { notice: NoticeView::InvalidRoom }),
        Some(link) => (FlowView::SendAwaitingPost { req, url: link }, post_spec(req)),
    }
}

/// How a send begins: in a channel with slow mode with the question to the
/// cache, in any other with the invitation itself.
pub open spec fn send_spec(req: SendRequestView) -> (FlowView, ActionView) {
    if req.slowmode > 0 {
        (
            FlowView::SendAwaitingCooldown { req },
            ActionView::LookupCooldown { key: key_text(req.user_id, req.channel_id) },
        )
    } else {
        announce_spec(req, geturl_spec(req.url))
    }
}

/// The end of a flow with one last action.
pub open spec fn finish(action: ActionView) -> (FlowView, ActionView) {
    (FlowView::Done, action)
}

/// The failure that an event reports; an event that reports none, where
/// another was expected, counts as unexpected.
pub open spec fn failure_of(event: EventView) -> Failure {
    match event {
        EventView::Failed { failure } => failure,
        _ => Failure::UnexpectedEvent,
    }
}

/// The next state and action of a flow, given what came of its last action.
pub open spec fn step_spec(flow: FlowView, event: EventView) -> (FlowView, ActionView) {
    match flow {
        FlowView::SendAwaitingCooldown { req } => match event {
            EventView::Cooldown { reply } => if reply == CacheReply::Present {
                finish(ActionView::Respond { notice: NoticeView::Cooldown })
            } else {
                announce_spec(req, geturl_spec(req.url))
            },
            _ => finish(ActionView::Abort { failure: failure_of(event) }),
        },
        FlowView::SendAwaitingPost { req, url } => match event {
            EventView::Posted { msg_id } => (
                FlowView::SendAwaitingStore { req },
                ActionView::CreateInvitation {
                    creator_id: req.user_id,
                    unix: req.now,
                    msg_id,
                    invite: url,
                },
            ),
            _ => finish(ActionView::Abort { failure: failure_of(event) }),
        },
        FlowView::SendAwaitingStore { req } => match event {
            EventView::Stored => if req.slowmode > 0 {
                (
                    FlowView::SendAwaitingArm,
                    ActionView::ArmCooldown {
                        key: key_text(req.user_id, req.channel_id),
                        seconds: req.slowmode,
                    },
                )
            } else {
                finish(ActionView::Respond { notice: NoticeView::Sent })
            },
            _ => finish(ActionView::Abort { failure: failure_of(event) }),
        },
        FlowView::SendAwaitingArm => finish(ActionView::Respond { notice: NoticeView::Sent }),
        FlowView::LinkAwaitingInvite { user_id, now } => match event {
            EventView::Found { invite } => (
                FlowView::LinkAwaitingRsvp { link: invite.invite },
                ActionView::RecordRsvp { invitation_id: invite.id, user_id, unix: now },
            ),
            EventView::Missing => finish(ActionView::Respond { notice: NoticeView::Unavailable }),
            _ => finish(ActionView::Abort { failure: failure_of(event) }),
        },
        FlowView::LinkAwaitingRsvp { link } => match event {
            EventView::Stored => finish(
                ActionView::Respond { notice: NoticeView::InviteLink { link } },
            ),
            _ => finish(ActionView::Abort { failure: failure_of(event) }),
        },
        FlowView::InspectAwaitingRsvps { msg_id } => match event {
            EventView::Listed { rsvps } => finish(
                ActionView::RespondWithFile {
                    content: "Here are the RSVPs"@,
                    file_name: file_name(msg_id),
                    file: csv(rsvps),
                },
            ),
            _ => finish(ActionView::Abort { failure: failure_of(event) }),
        },
        FlowView::Done => finish(ActionView::Nothing),
    }
}

/// How a click on a control is handled, given what its identifier means.
pub open spec fn click_spec(
    intent: Option<IntentView>,
    presser_id: Seq<char>,
    author_id: Seq<char>,
    now: int,
) -> (FlowView, ActionView) {
    match intent {
        None => finish(ActionView::Nothing),
        Some(IntentView::FetchLink { creator_id, timestamp }) => get_invite_link_spec(
            creator_id,
            timestamp,
            presser_id,
            now,
        ),
        Some(IntentView::DeleteRequest { .. }) => finish(delete_spec(author_id, presser_id)),
    }
}

/// How fetching a link begins: with the question to the store.
pub open spec fn get_invite_link_spec(
    creator_id: Seq<char>,
    unix: int,
    presser_id: Seq<char>,
    now: int,
) -> (FlowView, ActionView) {
    (
        FlowView::LinkAwaitingInvite { user_id: presser_id, now },
        ActionView::FindInvitation { creator_id, unix },
    )
}

/// What a click on the delete control leads to: the author's own click
/// deletes the message, anyone else's is turned down.
pub open spec fn delete_spec(author_id: Seq<char>, presser_id: Seq<char>) -> ActionView {
    if author_id == presser_id {
        ActionView::DeleteMessage
    } else {
        ActionView::Respond { notice: NoticeView::NotAuthor }
    }
}

/// How an export begins: with the question to the store for a moderator, with
/// a refusal for anyone else.
pub open spec fn inspect_spec(msg_id: Seq<char>, allowed: bool) -> (FlowView, ActionView) {
    if allowed {
        (FlowView::InspectAwaitingRsvps { msg_id }, ActionView::ListRsvps { msg_id })
    } else {
        finish(ActionView::Respond { notice: NoticeView::NoPermission })
    }
}

/// Writes the invitation message for a request.
fn compose(req: &SendRequest) -> (r: Action)
    ensures
        r@ == post_spec(req@),
{
    let mut title = String::from_str(req.author_name.as_str());
    title.append(" is looking for more players!");
    let mut description = String::from_str("From: ");
    description.append(req.author_mention.as_str());
    description.append("\nRoom description: ");
    match &req.content {
        Some(c) => description.append(c.as_str()),
        None => description.append("_The host does not disclose anything_"),
    }
    description.append("\n-# Press the button below to get the room link");
    let link_control = encode(req.user_id.as_str(), req.now, None);
    let delete_control = encode(req.user_id.as_str(), req.now, Some(ActionTag::Delete));
    Action::PostInvitation { title, description, link_control, delete_control }
}

/// Carries on with a request that is not on cooldown, given the room link
/// that its input stands for.
pub fn announce(req: SendRequest, url: Option<String>) -> (r: (Flow, Action))
    ensures
        (r.0@, r.1@) == announce_spec(req@, option_text(url)),
{
    match url {
        None => (Flow::Done, Action::Respond { notice: Notice::InvalidRoom }),
        Some(link) => {
            let post = compose(&req);
            (Flow::SendAwaitingPost { req, url: link }, post)
        },
    }
}

/// Begins to send an invitation.
pub fn send(req: SendRequest) -> (r: (Flow, Action))
    ensures
        (r.0@, r.1@) == send_spec(req@),
{
    if req.slowmode > 0 {
        let ask = lookup(req.user_id.as_str(), req.channel_id.as_str());
        (Flow::SendAwaitingCooldown { req }, ask)
    } else {
        let url = geturl(req.url.as_str());
        announce(req, url)
    }
}

/// The failure that an event reports.
fn failure(event: &Event) -> (r: Failure)
    ensures
        r == failure_of(event@),
{
    match event {
        Event::Failed { failure } => *failure,
        _ => Failure::UnexpectedEvent,
    }
}

impl Flow {
    /// Whether nothing more is expected.
    pub fn is_done(&self) -> (r: bool)
        ensures
            r == (self@ is Done),
    {
        match self {
            Flow::Done => true,
            _ => false,
        }
    }

    /// Takes what came of the last action and gives the next one.
    ///
    /// An event that does not answer the last action ends the flow with
    /// [`Failure::UnexpectedEvent`]; a failure that a collaborator reports
    /// ends it with that failure. The one exception is the arming of the
    /// cooldown, where any answer counts: the invitation is out and stored,
    /// and the sender is told so.
    pub fn step(self, event: Event) -> (r: (Flow, Action))
        ensures
            (r.0@, r.1@) == step_spec(self@, event@),
    {
        match self {
            Flow::SendAwaitingCooldown { req } => match event {
                Event::Cooldown { reply } => {
                    if is_blocked(reply) {
                        (Flow::Done, Action::Respond { notice: Notice::Cooldown })
                    } else {
                        let url = geturl(req.url.as_str());
                        announce(req, url)
                    }
                },
                other => (Flow::Done, Action::Abort { failure: failure(&other) }),
            },
            Flow::SendAwaitingPost { req, url } => match event {
                Event::Posted { msg_id } => {
                    let store = Action::CreateInvitation {
                        creator_id: String::from_str(req.user_id.as_str()),
                        unix: req.now,
                        msg_id,
                        invite: url,
                    };
                    (Flow::SendAwaitingStore { req }, store)
                },
                other => (Flow::Done, Action::Abort { failure: failure(&other) }),
            },
            Flow::SendAwaitingStore { req } => match event {
                Event::Stored => {
                    if req.slowmode > 0 {
                        let order = arm(
                            req.user_id.as_str(),
                            req.channel_id.as_str(),
                            req.slowmode,
                        );
                        (Flow::SendAwaitingArm, order)
                    } else {
                        (Flow::Done, Action::Respond { notice: Notice::Sent })
                    }
                },
                other => (Flow::Done, Action::Abort { failure: failure(&other) }),
            },
            Flow::SendAwaitingArm => (Flow::Done, Action::Respond { notice: Notice::Sent }),
            Flow::LinkAwaitingInvite { user_id, now } => match event {
                Event::Found { invite } => (
                    Flow::LinkAwaitingRsvp { link: invite.invite },
                    Action::RecordRsvp { invitation_id: invite.id, user_id, unix: now },
                ),
                Event::Missing => (Flow::Done, Action::Respond { notice: Notice::Unavailable }),
                other => (Flow::Done, Action::Abort { failure: failure(&other) }),
            },
            Flow::LinkAwaitingRsvp { link } => match event {
                Event::Stored => (
                    Flow::Done,
                    Action::Respond { notice: Notice::InviteLink { link } },
                ),
                other => (Flow::Done, Action::Abort { failure: failure(&other) }),
            },
            Flow::InspectAwaitingRsvps { msg_id } => match event {
                Event::Listed { rsvps } => {
                    let file = render_csv(&rsvps);
                    let file_name = attachment_name(msg_id.as_str());
                    (
                        Flow::Done,
                        Action::RespondWithFile {
                            content: String::from_str("Here are the RSVPs"),
                            file_name,
                            file,
                        },
                    )
                },
                other => (Flow::Done, Action::Abort { failure: failure(&other) }),
            },
            Flow::Done => (Flow::Done, Action::Nothing),
        }
    }
}

/// Begins to fetch the room link of the invitation that `uid` created at
/// `unix`, for the user who clicked at `now`.
pub fn get_invite_link(uid: &str, unix: i64, presser_id: &str, now: i64) -> (r: (Flow, Action))
    ensures
        (r.0@, r.1@) == get_invite_link_spec(uid@, unix as int, presser_id@, now as int),
{
    (
        Flow::LinkAwaitingInvite { user_id: String::from_str(presser_id), now },
        Action::FindInvitation { creator_id: String::from_str(uid), unix },
    )
}

/// Decides on a click on the delete control of a message by `author_id`:
/// the message is deleted if and only if the author clicked. Anyone else is
/// told that they are not the author, and the message stays.
pub fn delete(author_id: &str, presser_id: &str) -> (r: Action)
    ensures
        r@ == delete_spec(author_id@, presser_id@),
        r@ is DeleteMessage <==> author_id@ == presser_id@,
{
    if same_text(author_id, presser_id) {
        Action::DeleteMessage
    } else {
        Action::Respond { notice: Notice::NotAuthor }
    }
}

/// Handles a click on a control, given the control's identifier, who
/// clicked, who wrote the message that carries the control, and the time.
///
/// An identifier of two pieces fetches the link, one of three deletes the
/// message, and any other is passed over without a word.
pub fn event_handler(custom_id: &str, presser_id: &str, author_id: &str, now: i64) -> (r: (
    Flow,
    Action,
))
    ensures
        (r.0@, r.1@) == click_spec(decode_spec(custom_id@), presser_id@, author_id@, now as int),
{
    match decode(custom_id) {
        Err(_) => (Flow::Done, Action::Nothing),
        Ok(ControlIntent::FetchLink { creator_id, timestamp }) => get_invite_link(
            creator_id.as_str(),
            timestamp,
            presser_id,
            now,
        ),
        Ok(ControlIntent::DeleteRequest { .. }) => (Flow::Done, delete(author_id, presser_id)),
    }
}

/// Whether a member may inspect answers, given whether they may ban members;
/// `None` where the chat platform does not tell. Only a plain yes counts.
pub fn check(may_ban: Option<bool>) -> (r: bool)
    ensures
        r == (may_ban == Some(true)),
{
    match may_ban {
        Some(b) => b,
        None => false,
    }
}

/// Begins to export the answers to the invitation that the message `msg_id`
/// carries. Without the right to inspect nothing is asked of the store.
pub fn inspect(msg_id: &str, allowed: bool) -> (r: (Flow, Action))
    ensures
        (r.0@, r.1@) == inspect_spec(msg_id@, allowed),
{
    if allowed {
        (
            Flow::InspectAwaitingRsvps { msg_id: String::from_str(msg_id) },
            Action::ListRsvps { msg_id: String::from_str(msg_id) },
        )
    } else {
        (Flow::Done, Action::Respond { notice: Notice::NoPermission })
    }
}

/// The actions that a flow hands out, one for each of `events` in turn.
pub open spec fn actions_of(flow: FlowView, events: Seq<EventView>) -> Seq<ActionView>
    decreases events.len(),
{
    if events.len() == 0 {
        Seq::empty()
    } else {
        let next = step_spec(flow, events[0]);
        seq![next.1] + actions_of(next.0, events.skip(1))
    }
}

/// Every action of a flow from its start on: the first one, then one for
/// each of `events` in turn.
pub open spec fn run(start: (FlowView, ActionView), events: Seq<EventView>) -> Seq<ActionView> {
    seq![start.1] + actions_of(start.0, events)
}

/// Whether an action has to do with the cooldown: asking the cache, arming
/// it, or turning a sender away because of it.
pub open spec fn concerns_cooldown(action: ActionView) -> bool {
    ||| action is LookupCooldown
    ||| action is ArmCooldown
    ||| action == (ActionView::Respond { notice: NoticeView::Cooldown })
}

/// How many events a flow takes at most before it is done.
pub open spec fn events_left(flow: FlowView) -> nat {
    match flow {
        FlowView::SendAwaitingCooldown { .. } => 4,
        FlowView::SendAwaitingPost { .. } => 3,
        FlowView::SendAwaitingStore { .. } => 2,
        FlowView::SendAwaitingArm => 1,
        FlowView::LinkAwaitingInvite { .. } => 2,
        FlowView::LinkAwaitingRsvp { .. } => 1,
        FlowView::InspectAwaitingRsvps { .. } => 1,
        FlowView::Done => 0,
    }
}

/// Whether a send flow in this state belongs to a channel without slow mode
/// and has not asked the cache anything.
spec fn past_the_gate(flow: FlowView) -> bool {
    match flow {
        FlowView::SendAwaitingPost { req, .. } => req.slowmode <= 0,
        FlowView::SendAwaitingStore { req } => req.slowmode <= 0,
        FlowView::Done => true,
        _ => false,
    }
}

proof fn lemma_past_the_gate_stays(flow: FlowView, events: Seq<EventView>)
    requires
        past_the_gate(flow),
    ensures
        forall|i: int|
            0 <= i < actions_of(flow, events).len() ==> !concerns_cooldown(
                #[trigger] actions_of(flow, events)[i],
            ),
        actions_of(flow, events).len() == events.len(),
    decreases events.len(),
{
    if events.len() > 0 {
        let next = step_spec(flow, events[0]);
        lemma_past_the_gate_stays(next.0, events.skip(1));
    }
}

/// Without slow mode there is no cooldown: a send in a channel whose slow
/// mode is 0 never asks the cache, never arms it, and is never turned away
/// because of it, whatever came before and whatever the collaborators answer.
pub proof fn lemma_no_slow_mode_no_cooldown(req: SendRequestView, events: Seq<EventView>)
    requires
        req.slowmode == 0,
    ensures
        forall|i: int|
            0 <= i < run(send_spec(req), events).len() ==> !concerns_cooldown(
                #[trigger] run(send_spec(req), events)[i],
            ),
{
    let start = send_spec(req);
    lemma_past_the_gate_stays(start.0, events);
}

/// The store hears of an invitation only when its message is in the chat:
/// an invitation is handed to the store in answer to the chat platform's
/// word that the message was sent, and under the id which that word gave.
pub proof fn lemma_store_follows_post(flow: FlowView, event: EventView)
    requires
        step_spec(flow, event).1 is CreateInvitation,
    ensures
        flow is SendAwaitingPost,
        event is Posted,
        step_spec(flow, event).1->CreateInvitation_msg_id == event->Posted_msg_id,
{
}

/// Every flow ends: each event brings a flow that is not done nearer to its
/// end, so none takes more than four, and a flow that is done stays done and
/// does nothing.
pub proof fn lemma_flow_ends(flow: FlowView, event: EventView)
    ensures
        !(flow is Done) ==> events_left(step_spec(flow, event).0) < events_left(flow),
        flow is Done ==> step_spec(flow, event) == (FlowView::Done, ActionView::Nothing),
        events_left(flow) <= 4,
{
}

/// Whether an action changes anything outside: a message in the chat, a row
/// in the store, a key in the cache.
pub open spec fn changes_something(action: ActionView) -> bool {
    ||| action is PostInvitation
    ||| action is CreateInvitation
    ||| action is ArmCooldown
    ||| action is RecordRsvp
    ||| action is DeleteMessage
}

proof fn lemma_done_does_nothing(events: Seq<EventView>)
    ensures
        actions_of(FlowView::Done, events).len() == events.len(),
        forall|i: int|
            0 <= i < events.len() ==> #[trigger] actions_of(FlowView::Done, events)[i]
                == ActionView::Nothing,
    decreases events.len(),
{
    if events.len() > 0 {
        lemma_done_does_nothing(events.skip(1));
    }
}

/// A request whose input names no room changes nothing: whatever the
/// collaborators answer, no message is sent, no row written and no cooldown
/// armed.
pub proof fn lemma_bad_room_changes_nothing(req: SendRequestView, events: Seq<EventView>)
    requires
        geturl_spec(req.url) is None,
    ensures
        forall|i: int|
            0 <= i < run(send_spec(req), events).len() ==> !changes_something(
                #[trigger] run(send_spec(req), events)[i],
            ),
{
    if events.len() > 0 {
        lemma_done_does_nothing(events.skip(1));
    }
}

/// A sender on cooldown changes nothing: once the cache has said that the
/// key is there, the sender is told so, and no message is sent, no row
/// written and no cooldown armed.
pub proof fn lemma_cooldown_changes_nothing(req: SendRequestView, events: Seq<EventView>)
    requires
        req.slowmode > 0,
        events.len() > 0,
        events[0] == (EventView::Cooldown { reply: CacheReply::Present }),
    ensures
        run(send_spec(req), events)[1] == (ActionView::Respond { notice: NoticeView::Cooldown }),
        forall|i: int|
            0 <= i < run(send_spec(req), events).len() ==> !changes_something(
                #[trigger] run(send_spec(req), events)[i],
            ),
{
    lemma_done_does_nothing(events.skip(1));
}

/// Who may not inspect is told so, and the store is asked nothing.
pub proof fn lemma_refused_inspect_asks_nothing(msg_id: Seq<char>, events: Seq<EventView>)
    ensures
        run(inspect_spec(msg_id, false), events)[0] == (ActionView::Respond {
            notice: NoticeView::NoPermission,
        }),
        forall|i: int|
            0 <= i < run(inspect_spec(msg_id, false), events).len() ==> !(#[trigger] run(
                inspect_spec(msg_id, false),
                events,
            )[i] is ListRsvps),
{
    lemma_done_does_nothing(events);
}

/// A failure is reported once and never retried: when a collaborator fails,
/// the flow ends at once with that failure. The one exception is the arming
/// of the cooldown, whose failure is let go.
pub proof fn lemma_failure_ends_the_flow(flow: FlowView, failure: Failure)
    requires
        !(flow is Done),
    ensures
        !(flow is SendAwaitingArm) ==> step_spec(flow, EventView::Failed { failure }) == finish(
            ActionView::Abort { failure },
        ),
        flow is SendAwaitingArm ==> step_spec(flow, EventView::Failed { failure }) == finish(
            ActionView::Respond { notice: NoticeView::Sent },
        ),
{
}

/// The controls of an invitation lead back to it. For a sender whose id holds
/// no hyphen, at a time that is not negative: a click on the first control
/// asks the store for the very creator and time under which the invitation
/// is stored once its message is sent, and a click on the second is decided
/// as a deletion.
pub proof fn lemma_controls_lead_back(
    req: SendRequestView,
    url: Seq<char>,
    msg_id: Seq<char>,
    presser_id: Seq<char>,
    author_id: Seq<char>,
    now: int,
)
    requires
        free_of(req.user_id, separator()),
        0 <= req.now <= i64::MAX,
    ensures
        ({
            let post = post_spec(req);
            let stored = step_spec(
                FlowView::SendAwaitingPost { req, url },
                EventView::Posted { msg_id },
            ).1;
            let fetch = click_spec(
                decode_spec(post->PostInvitation_link_control),
                presser_id,
                author_id,
                now,
            );
            let remove = click_spec(
                decode_spec(post->PostInvitation_delete_control),
                presser_id,
                author_id,
                now,
            );
            &&& stored == (ActionView::CreateInvitation {
                creator_id: req.user_id,
                unix: req.now,
                msg_id,
                invite: url,
            })
            &&& fetch.1 == (ActionView::FindInvitation { creator_id: req.user_id, unix: req.now })
            &&& remove == finish(delete_spec(author_id, presser_id))
        }),
{
    lemma_decode_encode(req.user_id, req.now as i64, None);
    lemma_decode_encode(req.user_id, req.now as i64, Some(ActionTag::Delete));
}

} // verus!
