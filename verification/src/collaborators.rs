//! What the coordinator asks of its collaborators, and what they answer.
//!
//! The transport, the entitlement check, the policy store and the
//! notification target live outside this library. A `Request` names the next
//! thing to ask of one of them, or to have one of them do; a `Reply` carries
//! the answer back.

use crate::snapshot::{seen, Membership, MembershipSnapshot};
use vstd::prelude::*;

verus! {

/// The policy record of a session.
#[derive(Clone, Copy, Debug, PartialEq, Eq)]
pub struct Policy {
    pub enabled: bool,
    pub auto_join: bool,
    /// Where a failed join is reported.
    pub notify_target: u64,
}

/// What the transport answered to a request to join a channel.
#[derive(Debug, PartialEq, Eq)]
pub enum JoinReply {
    Joined,
    /// The join failed, for the reason given.
    Failed(String),
}

/// What the transport answered to a request to leave.
#[derive(Debug, PartialEq, Eq)]
pub enum LeaveReply {
    Left,
    /// The automated participant was in no channel of the session.
    NotConnected,
    /// The leave failed, for the reason given.
    Failed(String),
}

/// The answer to a request.
pub enum Reply {
    /// The channel of the session that the automated participant is in.
    OwnChannel(Option<u64>),
    /// The membership of the session; `None` where the session's state could
    /// not be had.
    Membership(Option<MembershipSnapshot>),
    /// Whether the session's owner is entitled to automatic joins.
    Entitlement(bool),
    /// The policy record of the session, if it has one.
    Policy(Option<Policy>),
    /// How the join went.
    Join(JoinReply),
}

/// The next thing to do for the event at hand.
#[derive(Debug, PartialEq, Eq)]
pub enum Request {
    /// Ask the transport which channel the automated participant is in.
    OwnChannel { session: u64 },
    /// Ask the transport for the session's current membership.
    Membership { session: u64 },
    /// Ask whether the session's owner is entitled.
    Entitlement { session: u64 },
    /// Ask for the session's policy record.
    Policy { session: u64 },
    /// Disconnect the automated participant from the session.
    Disconnect { session: u64 },
    /// Have the transport join `channel`; failures go to `notify_target`.
    Join { session: u64, channel: u64, notify_target: u64 },
    /// Send `message` to `target`; whether it arrives does not matter.
    Notify { target: u64, message: String },
    /// Nothing is left to do.
    Nothing,
}

/// A `JoinReply` as a mathematical value.
pub enum JoinReplyView {
    Joined,
    Failed(Seq<char>),
}

/// A `Reply` as a mathematical value.
pub enum ReplyView {
    OwnChannel(Option<u64>),
    Membership(Option<Membership>),
    Entitlement(bool),
    Policy(Option<Policy>),
    Join(JoinReplyView),
}

/// A `Request` as a mathematical value.
pub enum RequestView {
    OwnChannel { session: u64 },
    Membership { session: u64 },
    Entitlement { session: u64 },
    Policy { session: u64 },
    Disconnect { session: u64 },
    Join { session: u64, channel: u64, notify_target: u64 },
    Notify { target: u64, message: Seq<char> },
    Nothing,
}

impl View for JoinReply {
    type V = JoinReplyView;

    open spec fn view(&self) -> JoinReplyView {
        match self {
            JoinReply::Joined => JoinReplyView::Joined,
            JoinReply::Failed(reason) => JoinReplyView::Failed(reason@),
        }
    }
}

impl View for Reply {
    type V = ReplyView;

    open spec fn view(&self) -> ReplyView {
        match self {
            Reply::OwnChannel(channel) => ReplyView::OwnChannel(*channel),
            Reply::Membership(snapshot) => ReplyView::Membership(seen(*snapshot)),
            Reply::Entitlement(entitled) => ReplyView::Entitlement(*entitled),
            Reply::Policy(policy) => ReplyView::Policy(*policy),
            Reply::Join(reply) => ReplyView::Join(reply@),
        }
    }
}

impl View for Request {
    type V = RequestView;

    open spec fn view(&self) -> RequestView {
        match self {
            Request::OwnChannel { session } => RequestView::OwnChannel { session: *session },
            Request::Membership { session } => RequestView::Membership { session: *session },
            Request::Entitlement { session } => RequestView::Entitlement { session: *session },
            Request::Policy { session } => RequestView::Policy { session: *session },
            Request::Disconnect { session } => RequestView::Disconnect { session: *session },
            Request::Join { session, channel, notify_target } => RequestView::Join {
                session: *session,
                channel: *channel,
                notify_target: *notify_target,
            },
            Request::Notify { target, message } => RequestView::Notify {
                target: *target,
                message: message@,
            },
            Request::Nothing => RequestView::Nothing,
        }
    }
}

impl RequestView {
    /// The request only asks something: it changes nothing outside.
    pub open spec fn is_question(self) -> bool {
        self is OwnChannel || self is Membership || self is Entitlement || self is Policy
    }
}

} // verus!
