//! What the lifecycle asks of its collaborators, and what they answer.
//!
//! The lifecycle never talks to the chat platform, the store or the cache
//! itself. It hands out an [`Action`], whoever runs it performs the action and
//! hands back an [`Event`], and so on until the flow is done.

use vstd::prelude::*;
use vstd::string::*;

verus! {

/// A stored invitation.
#[derive(Clone, Debug, PartialEq, Eq)]
pub struct Invite {
    pub id: i32,
    pub user_id: String,
    pub unix: i64,
    pub msg_id: String,
    pub invite: String,
}

/// The mathematical content of an [`Invite`].
pub struct InviteView {
    pub id: int,
    pub user_id: Seq<char>,
    pub unix: int,
    pub msg_id: Seq<char>,
    pub invite: Seq<char>,
}

impl View for Invite {
    type V = InviteView;

    open spec fn view(&self) -> InviteView {
        InviteView {
            id: self.id as int,
            user_id: self.user_id@,
            unix: self.unix as int,
            msg_id: self.msg_id@,
            invite: self.invite@,
        }
    }
}

/// One answer to an invitation: who asked for the link, and when.
#[derive(Clone, Debug, PartialEq, Eq)]
pub struct RSVP {
    pub user_id: String,
    pub unix: i64,
}

/// The mathematical content of an [`RSVP`].
pub struct RsvpView {
    pub user_id: Seq<char>,
    pub unix: int,
}

impl View for RSVP {
    type V = RsvpView;

    open spec fn view(&self) -> RsvpView {
        RsvpView { user_id: self.user_id@, unix: self.unix as int }
    }
}

/// What each answer of `v` holds.
pub open spec fn rsvp_views(v: Seq<RSVP>) -> Seq<RsvpView> {
    Seq::new(v.len(), |i: int| v[i]@)
}

/// What the cache said when asked for a key.
#[derive(Clone, Copy, Debug, PartialEq, Eq, Structural)]
pub enum CacheReply {
    /// The key is there.
    Present,
    /// The key is not there, or has lapsed.
    Absent,
    /// The cache could not be reached.
    Unreachable,
}

/// Why a collaborator could not do what it was asked.
#[derive(Clone, Copy, Debug, PartialEq, Eq, Structural)]
pub enum Failure {
    /// The store refused the row or could not be reached.
    PersistenceError,
    /// The chat platform did not take the message.
    TransportError,
    /// The answer belongs to no question that was asked.
    UnexpectedEvent,
}

/// What a user is told, to their eyes only.
#[derive(Clone, Debug, PartialEq, Eq)]
pub enum Notice {
    /// The slow mode of the channel holds the invitation back.
    Cooldown,
    /// What was typed is neither a room code nor a room link.
    InvalidRoom,
    /// The invitation is in the chat.
    Sent,
    /// Only the author of an invitation deletes it.
    NotAuthor,
    /// Only moderators inspect answers.
    NoPermission,
    /// The invitation is no longer there.
    Unavailable,
    /// The room link that was asked for.
    InviteLink { link: String },
}

/// The mathematical content of a [`Notice`].
pub enum NoticeView {
    Cooldown,
    InvalidRoom,
    Sent,
    NotAuthor,
    NoPermission,
    Unavailable,
    InviteLink { link: Seq<char> },
}

impl View for Notice {
    type V = NoticeView;

    open spec fn view(&self) -> NoticeView {
        match *self {
            Notice::Cooldown => NoticeView::Cooldown,
            Notice::InvalidRoom => NoticeView::InvalidRoom,
            Notice::Sent => NoticeView::Sent,
            Notice::NotAuthor => NoticeView::NotAuthor,
            Notice::NoPermission => NoticeView::NoPermission,
            Notice::Unavailable => NoticeView::Unavailable,
            Notice::InviteLink { link } => NoticeView::InviteLink { link: link@ },
        }
    }
}

/// The words of a notice.
pub open spec fn notice_text(notice: NoticeView) -> Seq<char> {
    match notice {
        NoticeView::Cooldown =>
            "You are on cooldown! Please wait a bit before sending another message."@,
        NoticeView::InvalidRoom =>
            "Invalid room code or room link! Please make sure it's a valid code or link."@,
        NoticeView::Sent => "We sent your invitation to the chat!"@,
        NoticeView::NotAuthor => "You are not the author of this message!"@,
        NoticeView::NoPermission => "You don't have permission to use this command!"@,
        NoticeView::Unavailable => "This invitation is no longer available."@,
        NoticeView::InviteLink { link } => "Invite link: "@ + link,
    }
}

impl Notice {
    /// Writes the notice out for the user.
    pub fn text(&self) -> (r: String)
        ensures
            r@ == notice_text(self@),
    {
        match self {
            Notice::Cooldown => String::from_str(
                "You are on cooldown! Please wait a bit before sending another message.",
            ),
            Notice::InvalidRoom => String::from_str(
                "Invalid room code or room link! Please make sure it's a valid code or link.",
            ),
            Notice::Sent => String::from_str("We sent your invitation to the chat!"),
            Notice::NotAuthor => String::from_str("You are not the author of this message!"),
            Notice::NoPermission => String::from_str(
                "You don't have permission to use this command!",
            ),
            Notice::Unavailable => String::from_str("This invitation is no longer available."),
            Notice::InviteLink { link } => {
                let mut out = String::from_str("Invite link: ");
                out.append(link.as_str());
                out
            },
        }
    }
}

/// One thing for a collaborator to do.
#[derive(Clone, Debug, PartialEq, Eq)]
pub enum Action {
    /// Ask the cache whether `key` is there.
    LookupCooldown { key: String },
    /// Put `key` into the cache, to lapse after `seconds`.
    ArmCooldown { key: String, seconds: u64 },
    /// Send the invitation message with its two controls.
    PostInvitation {
        title: String,
        description: String,
        link_control: String,
        delete_control: String,
    },
    /// Store a new invitation.
    CreateInvitation { creator_id: String, unix: i64, msg_id: String, invite: String },
    /// Look an invitation up by creator and creation time.
    FindInvitation { creator_id: String, unix: i64 },
    /// Store one more answer to an invitation.
    RecordRsvp { invitation_id: i32, user_id: String, unix: i64 },
    /// List the answers to the invitation that a message carries.
    ListRsvps { msg_id: String },
    /// Delete the message whose control was clicked.
    DeleteMessage,
    /// Tell the user something.
    Respond { notice: Notice },
    /// Hand the user a file.
    RespondWithFile { content: String, file_name: String, file: String },
    /// Report the failure as it is; nothing else was or will be done about it.
    Abort { failure: Failure },
    /// Do nothing and say nothing.
    Nothing,
}

/// The mathematical content of an [`Action`].
pub enum ActionView {
    LookupCooldown { key: Seq<char> },
    ArmCooldown { key: Seq<char>, seconds: int },
    PostInvitation {
        title: Seq<char>,
        description: Seq<char>,
        link_control: Seq<char>,
        delete_control: Seq<char>,
    },
    CreateInvitation { creator_id: Seq<char>, unix: int, msg_id: Seq<char>, invite: Seq<char> },
    FindInvitation { creator_id: Seq<char>, unix: int },
    RecordRsvp { invitation_id: int, user_id: Seq<char>, unix: int },
    ListRsvps { msg_id: Seq<char> },
    DeleteMessage,
    Respond { notice: NoticeView },
    RespondWithFile { content: Seq<char>, file_name: Seq<char>, file: Seq<char> },
    Abort { failure: Failure },
    Nothing,
}

impl View for Action {
    type V = ActionView;

    open spec fn view(&self) -> ActionView {
        match *self {
            Action::LookupCooldown { key } => ActionView::LookupCooldown { key: key@ },
            Action::ArmCooldown { key, seconds } => ActionView::ArmCooldown {
                key: key@,
                seconds: seconds as int,
            },
            Action::PostInvitation {
                title,
                description,
                link_control,
                delete_control,
            } => ActionView::PostInvitation {
                title: title@,
                description: description@,
                link_control: link_control@,
                delete_control: delete_control@,
            },
            Action::CreateInvitation {
                creator_id,
                unix,
                msg_id,
                invite,
            } => ActionView::CreateInvitation {
                creator_id: creator_id@,
                unix: unix as int,
                msg_id: msg_id@,
                invite: invite@,
            },
            Action::FindInvitation { creator_id, unix } => ActionView::FindInvitation {
                creator_id: creator_id@,
                unix: unix as int,
            },
            Action::RecordRsvp { invitation_id, user_id, unix } => ActionView::RecordRsvp {
                invitation_id: invitation_id as int,
                user_id: user_id@,
                unix: unix as int,
            },
            Action::ListRsvps { msg_id } => ActionView::ListRsvps { msg_id: msg_id@ },
            Action::DeleteMessage => ActionView::DeleteMessage,
            Action::Respond { notice } => ActionView::Respond { notice: notice@ },
            Action::RespondWithFile { content, file_name, file } => ActionView::RespondWithFile {
                content: content@,
                file_name: file_name@,
                file: file@,
            },
            Action::Abort { failure } => ActionView::Abort { failure },
            Action::Nothing => ActionView::Nothing,
        }
    }
}

/// What came of the last action.
#[derive(Clone, Debug, PartialEq, Eq)]
pub enum Event {
    /// The cache answered a lookup, or could not.
    Cooldown { reply: CacheReply },
    /// The invitation message is in the chat under `msg_id`.
    Posted { msg_id: String },
    /// The store wrote the row.
    Stored,
    /// The store holds the invitation that was looked for.
    Found { invite: Invite },
    /// The store holds no such invitation.
    Missing,
    /// The cache was asked to arm a cooldown, whether or not it did.
    Armed,
    /// The answers that the store holds, in the order it took them.
    Listed { rsvps: Vec<RSVP> },
    /// The collaborator failed.
    Failed { failure: Failure },
}

/// The mathematical content of an [`Event`].
pub enum EventView {
    Cooldown { reply: CacheReply },
    Posted { msg_id: Seq<char> },
    Stored,
    Found { invite: InviteView },
    Missing,
    Armed,
    Listed { rsvps: Seq<RsvpView> },
    Failed { failure: Failure },
}

impl View for Event {
    type V = EventView;

    open spec fn view(&self) -> EventView {
        match *self {
            Event::Cooldown { reply } => EventView::Cooldown { reply },
            Event::Posted { msg_id } => EventView::Posted { msg_id: msg_id@ },
            Event::Stored => EventView::Stored,
            Event::Found { invite } => EventView::Found { invite: invite@ },
            Event::Missing => EventView::Missing,
            Event::Armed => EventView::Armed,
            Event::Listed { rsvps } => EventView::Listed { rsvps: rsvp_views(rsvps@) },
            Event::Failed { failure } => EventView::Failed { failure },
        }
    }
}

} // verus!
