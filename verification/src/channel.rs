//! Channel daemon workflows: the state machines that propose a channel to a
//! remote peer or accept one proposed by it, and the decisions the daemon
//! takes on each message it receives.
//!
//! The work that a transition requires (composing BOLT messages, signing,
//! sending over the message bus, writing the state to disk) is not done here:
//! `plan` names it as a [`ChannelAction`], the daemon performs it and hands the
//! outcome back to `finish`, and `process_outcome` says what the daemon reports
//! and keeps afterwards.
use vstd::prelude::*;
use crate::service::ServiceId;
use crate::rpc::{Failure, FailureCode, RpcMsg};
use crate::hex::{lower_hex, to_hex};

verus! {

/// Stages of a channel's life.
#[derive(Copy, Clone, PartialEq, Eq, Structural, Hash, Debug)]
pub enum Lifecycle {
    Initial,
    Proposed,
    Accepted,
    Signing,
    Funding,
    Signed,
    Funded,
    Locked,
    Active,
    Reestablishing,
    Closing { round: usize },
    Aborting,
    Penalize,
}

/// Position of a stage on the way from a new channel to an active one; the
/// stages past `Active` come after it.
pub open spec fn lifecycle_rank(l: Lifecycle) -> nat {
    match l {
        Lifecycle::Initial => 0,
        Lifecycle::Proposed => 1,
        Lifecycle::Accepted => 2,
        Lifecycle::Signing => 3,
        Lifecycle::Funding => 4,
        Lifecycle::Signed => 5,
        Lifecycle::Funded => 6,
        Lifecycle::Locked => 7,
        Lifecycle::Active => 8,
        Lifecycle::Reestablishing => 9,
        Lifecycle::Closing { .. } => 10,
        Lifecycle::Aborting => 11,
        Lifecycle::Penalize => 12,
    }
}

/// Name of a stage.
pub open spec fn lifecycle_name(l: Lifecycle) -> Seq<char> {
    match l {
        Lifecycle::Initial => "initial"@,
        Lifecycle::Proposed => "proposed"@,
        Lifecycle::Accepted => "accepted"@,
        Lifecycle::Signing => "signing"@,
        Lifecycle::Funding => "funding"@,
        Lifecycle::Signed => "signed"@,
        Lifecycle::Funded => "funded"@,
        Lifecycle::Locked => "locked"@,
        Lifecycle::Active => "active"@,
        Lifecycle::Reestablishing => "reestablishing"@,
        Lifecycle::Closing { .. } => "closing"@,
        Lifecycle::Aborting => "aborting"@,
        Lifecycle::Penalize => "penalize"@,
    }
}

impl Lifecycle {
    /// Name of the stage.
    pub fn to_display_string(&self) -> (r: String)
        ensures
            r@ == lifecycle_name(*self),
    {
        match self {
            Lifecycle::Initial => String::from_str("initial"),
            Lifecycle::Proposed => String::from_str("proposed"),
            Lifecycle::Accepted => String::from_str("accepted"),
            Lifecycle::Signing => String::from_str("signing"),
            Lifecycle::Funding => String::from_str("funding"),
            Lifecycle::Signed => String::from_str("signed"),
            Lifecycle::Funded => String::from_str("funded"),
            Lifecycle::Locked => String::from_str("locked"),
            Lifecycle::Active => String::from_str("active"),
            Lifecycle::Reestablishing => String::from_str("reestablishing"),
            Lifecycle::Closing { .. } => String::from_str("closing"),
            Lifecycle::Aborting => String::from_str("aborting"),
            Lifecycle::Penalize => String::from_str("penalize"),
        }
    }
}

/// Channel proposal workflow
#[derive(Copy, Clone, Ord, PartialOrd, Eq, PartialEq, Structural, Hash, Debug)]
pub enum ChannelPropose {
    /// asked remote peer to accept a new channel
    Proposed,
    /// remote peer accepted our channel proposal
    Accepted,
    /// signing refund transaction on our side
    Signing,
    /// sent funding txid and commitment signature to the remote peer
    Funding,
    /// received signed commitment from the remote peer; awaiting funding transaction to be mined
    Published,
    /// funding transaction is mined, awaiting for the other peer confirmation of this fact
    Locked,
}

/// Channel lifecycle stage of each proposal workflow stage.
pub open spec fn propose_lifecycle(p: ChannelPropose) -> Lifecycle {
    match p {
        ChannelPropose::Proposed => Lifecycle::Proposed,
        ChannelPropose::Accepted => Lifecycle::Accepted,
        ChannelPropose::Signing => Lifecycle::Signing,
        ChannelPropose::Funding => Lifecycle::Funding,
        ChannelPropose::Published => Lifecycle::Funded,
        ChannelPropose::Locked => Lifecycle::Locked,
    }
}

/// Name of each proposal workflow stage.
pub open spec fn propose_name(p: ChannelPropose) -> Seq<char> {
    match p {
        ChannelPropose::Proposed => "PROPOSED"@,
        ChannelPropose::Accepted => "ACCEPTED"@,
        ChannelPropose::Signing => "SIGNING"@,
        ChannelPropose::Funding => "FUNDING"@,
        ChannelPropose::Published => "PUBLISHED"@,
        ChannelPropose::Locked => "LOCKED"@,
    }
}

/// Report text of each proposal workflow stage for the channel with the given
/// identifier text.
pub open spec fn propose_info(p: ChannelPropose, id: Seq<char>) -> Seq<char> {
    match p {
        ChannelPropose::Proposed => "Proposing channel to remote peer (using temp id "@ + id + ")"@,
        ChannelPropose::Accepted => "Remote peer accepted channel with temp id "@ + id
            + ". Constructing refund transaction."@,
        ChannelPropose::Signing => "Signing refund transaction locally for channel "@ + id,
        ChannelPropose::Funding => "Awaiting for the remote peer to sign refund transaction for channel "@
            + id,
        ChannelPropose::Published => "Publishing fully signed funding transaction for channel "@ + id,
        ChannelPropose::Locked => "Activating channel "@ + id,
    }
}

impl ChannelPropose {
    /// Computes channel lifecycle stage for the current channel proposal workflow stage
    pub fn lifecycle(&self) -> (r: Lifecycle)
        ensures
            r == propose_lifecycle(*self),
    {
        match self {
            ChannelPropose::Proposed => Lifecycle::Proposed,
            ChannelPropose::Accepted => Lifecycle::Accepted,
            ChannelPropose::Signing => Lifecycle::Signing,
            ChannelPropose::Funding => Lifecycle::Funding,
            ChannelPropose::Published => Lifecycle::Funded,
            ChannelPropose::Locked => Lifecycle::Locked,
        }
    }

    /// Name of the stage.
    pub fn to_display_string(&self) -> (r: String)
        ensures
            r@ == propose_name(*self),
    {
        match self {
            ChannelPropose::Proposed => String::from_str("PROPOSED"),
            ChannelPropose::Accepted => String::from_str("ACCEPTED"),
            ChannelPropose::Signing => String::from_str("SIGNING"),
            ChannelPropose::Funding => String::from_str("FUNDING"),
            ChannelPropose::Published => String::from_str("PUBLISHED"),
            ChannelPropose::Locked => String::from_str("LOCKED"),
        }
    }

    /// Construct information message for error and client reporting
    pub fn info_message(&self, channel_id: &str) -> (r: String)
        ensures
            r@ == propose_info(*self, channel_id@),
    {
        match self {
            ChannelPropose::Proposed => {
                let mut s = String::from_str("Proposing channel to remote peer (using temp id ");
                s.append(channel_id);
                s.append(")");
                s
            }
            ChannelPropose::Accepted => {
                let mut s = String::from_str("Remote peer accepted channel with temp id ");
                s.append(channel_id);
                s.append(". Constructing refund transaction.");
                s
            }
            ChannelPropose::Signing => {
                let mut s = String::from_str("Signing refund transaction locally for channel ");
                s.append(channel_id);
                s
            }
            ChannelPropose::Funding => {
                let mut s = String::from_str(
                    "Awaiting for the remote peer to sign refund transaction for channel ",
                );
                s.append(channel_id);
                s
            }
            ChannelPropose::Published => {
                let mut s = String::from_str("Publishing fully signed funding transaction for channel ");
                s.append(channel_id);
                s
            }
            ChannelPropose::Locked => {
                let mut s = String::from_str("Activating channel ");
                s.append(channel_id);
                s
            }
        }
    }
}

/// Channel acceptance workflow
#[derive(Copy, Clone, Ord, PartialOrd, Eq, PartialEq, Structural, Hash, Debug)]
pub enum ChannelAccept {
    /// remote peer proposed a new channel to accept
    Accepted,
    /// signed commitment and sent it to the remote peer
    Signed,
    /// awaiting funding transaction to be mined
    Funded,
    /// funding transaction is mined, awaiting for the other peer confirmation of this fact
    Locked,
}

/// Channel lifecycle stage of each acceptance workflow stage.
pub open spec fn accept_lifecycle(a: ChannelAccept) -> Lifecycle {
    match a {
        ChannelAccept::Accepted => Lifecycle::Accepted,
        ChannelAccept::Signed => Lifecycle::Signed,
        ChannelAccept::Funded => Lifecycle::Funded,
        ChannelAccept::Locked => Lifecycle::Locked,
    }
}

/// Name of each acceptance workflow stage.
pub open spec fn accept_name(a: ChannelAccept) -> Seq<char> {
    match a {
        ChannelAccept::Accepted => "ACCEPTED"@,
        ChannelAccept::Signed => "SIGNED"@,
        ChannelAccept::Funded => "FUNDED"@,
        ChannelAccept::Locked => "LOCKED"@,
    }
}

/// The verb of the report text of each acceptance workflow stage.
pub open spec fn accept_verb(a: ChannelAccept) -> Seq<char> {
    match a {
        ChannelAccept::Accepted => "Accepted"@,
        ChannelAccept::Signed => "Signed"@,
        ChannelAccept::Funded => "Funded"@,
        ChannelAccept::Locked => "Locked"@,
    }
}

/// Report text of each acceptance workflow stage for the channel with the
/// given identifier text.
pub open spec fn accept_info(a: ChannelAccept, id: Seq<char>) -> Seq<char> {
    accept_verb(a) + " channel "@ + id + " from a remote peer"@
}

impl ChannelAccept {
    /// Computes channel lifecycle stage for the current channel acceptance workflow stage
    pub fn lifecycle(&self) -> (r: Lifecycle)
        ensures
            r == accept_lifecycle(*self),
    {
        match self {
            ChannelAccept::Accepted => Lifecycle::Accepted,
            ChannelAccept::Signed => Lifecycle::Signed,
            ChannelAccept::Funded => Lifecycle::Funded,
            ChannelAccept::Locked => Lifecycle::Locked,
        }
    }

    /// Name of the stage.
    pub fn to_display_string(&self) -> (r: String)
        ensures
            r@ == accept_name(*self),
    {
        match self {
            ChannelAccept::Accepted => String::from_str("ACCEPTED"),
            ChannelAccept::Signed => String::from_str("SIGNED"),
            ChannelAccept::Funded => String::from_str("FUNDED"),
            ChannelAccept::Locked => String::from_str("LOCKED"),
        }
    }

    /// Construct information message for error and client reporting
    pub fn info_message(&self, channel_id: &str) -> (r: String)
        ensures
            r@ == accept_info(*self, channel_id@),
    {
        let mut s = match self {
            ChannelAccept::Accepted => String::from_str("Accepted"),
            ChannelAccept::Signed => String::from_str("Signed"),
            ChannelAccept::Funded => String::from_str("Funded"),
            ChannelAccept::Locked => String::from_str("Locked"),
        };
        s.append(" channel ");
        s.append(channel_id);
        s.append(" from a remote peer");
        s
    }
}


/// The workflow a channel daemon runs.
#[derive(Copy, Clone, PartialEq, Eq, Structural, Hash, Debug)]
pub enum ChannelStateMachine {
    /// launching channel daemon
    Launch,
    /// proposing remote peer to open channel
    Propose(ChannelPropose),
    /// accepting channel proposed by a remote peer
    Accept(ChannelAccept),
    /// active channel operations
    Active,
    /// reestablishing channel
    Reestablishing,
    /// cooperatively closing channel
    Closing,
    /// uncooperative channel closing initiated by thyself
    Abort,
    /// reacting to an uncooperative channel close from remote
    Penalize,
}

impl Default for ChannelStateMachine {
    fn default() -> (r: Self)
        ensures
            r == ChannelStateMachine::Launch,
    {
        ChannelStateMachine::Launch
    }
}

/// Channel lifecycle stage of each workflow state.
pub open spec fn machine_lifecycle(m: ChannelStateMachine) -> Lifecycle {
    match m {
        ChannelStateMachine::Launch => Lifecycle::Initial,
        ChannelStateMachine::Propose(p) => propose_lifecycle(p),
        ChannelStateMachine::Accept(a) => accept_lifecycle(a),
        ChannelStateMachine::Active => Lifecycle::Active,
        ChannelStateMachine::Reestablishing => Lifecycle::Reestablishing,
        ChannelStateMachine::Closing => Lifecycle::Closing { round: 0 },
        ChannelStateMachine::Abort => Lifecycle::Aborting,
        ChannelStateMachine::Penalize => Lifecycle::Penalize,
    }
}

/// Name of each workflow state; a proposal is named by its stage.
pub open spec fn machine_name(m: ChannelStateMachine) -> Seq<char> {
    match m {
        ChannelStateMachine::Launch => "LAUNCH"@,
        ChannelStateMachine::Propose(p) => propose_name(p),
        ChannelStateMachine::Accept(_) => "ACCEPT"@,
        ChannelStateMachine::Active => "ACTIVE"@,
        ChannelStateMachine::Reestablishing => "REESTABLISHING"@,
        ChannelStateMachine::Closing => "CLOSING"@,
        ChannelStateMachine::Abort => "ABORT"@,
        ChannelStateMachine::Penalize => "PENALIZE"@,
    }
}

/// Report text of each workflow state for the channel with the given
/// identifier text.
pub open spec fn machine_info(m: ChannelStateMachine, id: Seq<char>) -> Seq<char> {
    match m {
        ChannelStateMachine::Launch => "Launching channel daemon"@,
        ChannelStateMachine::Propose(p) => propose_info(p, id),
        ChannelStateMachine::Accept(a) => accept_info(a, id),
        ChannelStateMachine::Active => "Channel is active"@,
        ChannelStateMachine::Reestablishing => "Reestablishing channel"@,
        ChannelStateMachine::Closing => "Closing channel"@,
        ChannelStateMachine::Abort => "Unilaterally closing the channel"@,
        ChannelStateMachine::Penalize => "Penalizing incorrect channel"@,
    }
}

impl ChannelStateMachine {
    /// Computes channel lifecycle stage for the current workflow state
    pub fn lifecycle(&self) -> (r: Lifecycle)
        ensures
            r == machine_lifecycle(*self),
    {
        match self {
            ChannelStateMachine::Launch => Lifecycle::Initial,
            ChannelStateMachine::Propose(p) => p.lifecycle(),
            ChannelStateMachine::Accept(a) => a.lifecycle(),
            ChannelStateMachine::Active => Lifecycle::Active,
            ChannelStateMachine::Reestablishing => Lifecycle::Reestablishing,
            ChannelStateMachine::Closing => Lifecycle::Closing { round: 0 },
            ChannelStateMachine::Abort => Lifecycle::Aborting,
            ChannelStateMachine::Penalize => Lifecycle::Penalize,
        }
    }

    /// Name of the state.
    pub fn to_display_string(&self) -> (r: String)
        ensures
            r@ == machine_name(*self),
    {
        match self {
            ChannelStateMachine::Launch => String::from_str("LAUNCH"),
            ChannelStateMachine::Propose(p) => p.to_display_string(),
            ChannelStateMachine::Accept(_) => String::from_str("ACCEPT"),
            ChannelStateMachine::Active => String::from_str("ACTIVE"),
            ChannelStateMachine::Reestablishing => String::from_str("REESTABLISHING"),
            ChannelStateMachine::Closing => String::from_str("CLOSING"),
            ChannelStateMachine::Abort => String::from_str("ABORT"),
            ChannelStateMachine::Penalize => String::from_str("PENALIZE"),
        }
    }

    /// Construct information message for error and client reporting
    pub fn info_message(&self, channel_id: &str) -> (r: String)
        ensures
            r@ == machine_info(*self, channel_id@),
    {
        match self {
            ChannelStateMachine::Launch => String::from_str("Launching channel daemon"),
            ChannelStateMachine::Propose(p) => p.info_message(channel_id),
            ChannelStateMachine::Accept(a) => a.info_message(channel_id),
            ChannelStateMachine::Active => String::from_str("Channel is active"),
            ChannelStateMachine::Reestablishing => String::from_str("Reestablishing channel"),
            ChannelStateMachine::Closing => String::from_str("Closing channel"),
            ChannelStateMachine::Abort => String::from_str("Unilaterally closing the channel"),
            ChannelStateMachine::Penalize => String::from_str("Penalizing incorrect channel"),
        }
    }
}

/// Messages a channel daemon acts on, by their kind: control messages from
/// other daemons and BOLT messages from the remote peer.
#[derive(Clone, PartialEq, Eq, Hash, Debug)]
pub enum ChannelMsg {
    /// `OpenChannelWith` control request
    OpenChannelWith,
    /// `AcceptChannelFrom` control request
    AcceptChannelFrom,
    /// `FundingConstructed` control message
    FundingConstructed,
    /// `Signed` control message
    Signed,
    /// `TxFound` control message
    TxFound,
    /// `Keyset` control message
    Keyset,
    /// `Hello` control message
    Hello,
    /// message bus failure to deliver a message to the given service
    EsbError(ServiceId),
    /// BOLT `accept_channel`
    AcceptChannel,
    /// BOLT `funding_created`
    FundingCreated,
    /// BOLT `funding_signed`
    FundingSigned,
    /// BOLT `funding_locked`
    FundingLocked,
    /// BOLT `channel_reestablish`
    ChannelReestablish,
    /// any other message
    Other,
}

/// Name of each message kind.
pub open spec fn msg_name(m: ChannelMsg) -> Seq<char> {
    match m {
        ChannelMsg::OpenChannelWith => "open_channel_with"@,
        ChannelMsg::AcceptChannelFrom => "accept_channel_from"@,
        ChannelMsg::FundingConstructed => "funding_constructed"@,
        ChannelMsg::Signed => "signed"@,
        ChannelMsg::TxFound => "tx_found"@,
        ChannelMsg::Keyset => "keyset"@,
        ChannelMsg::Hello => "hello"@,
        ChannelMsg::EsbError(_) => "esb_error"@,
        ChannelMsg::AcceptChannel => "accept_channel"@,
        ChannelMsg::FundingCreated => "funding_created"@,
        ChannelMsg::FundingSigned => "funding_signed"@,
        ChannelMsg::FundingLocked => "funding_locked"@,
        ChannelMsg::ChannelReestablish => "channel_reestablish"@,
        ChannelMsg::Other => "other"@,
    }
}

impl ChannelMsg {
    /// Name of the message kind.
    pub fn to_display_string(&self) -> (r: String)
        ensures
            r@ == msg_name(*self),
    {
        match self {
            ChannelMsg::OpenChannelWith => String::from_str("open_channel_with"),
            ChannelMsg::AcceptChannelFrom => String::from_str("accept_channel_from"),
            ChannelMsg::FundingConstructed => String::from_str("funding_constructed"),
            ChannelMsg::Signed => String::from_str("signed"),
            ChannelMsg::TxFound => String::from_str("tx_found"),
            ChannelMsg::Keyset => String::from_str("keyset"),
            ChannelMsg::Hello => String::from_str("hello"),
            ChannelMsg::EsbError(_) => String::from_str("esb_error"),
            ChannelMsg::AcceptChannel => String::from_str("accept_channel"),
            ChannelMsg::FundingCreated => String::from_str("funding_created"),
            ChannelMsg::FundingSigned => String::from_str("funding_signed"),
            ChannelMsg::FundingLocked => String::from_str("funding_locked"),
            ChannelMsg::ChannelReestablish => String::from_str("channel_reestablish"),
            ChannelMsg::Other => String::from_str("other"),
        }
    }
}

/// Kinds of errors of the BOLT channel logic.
#[derive(Copy, Clone, PartialEq, Eq, Structural, Hash, Debug)]
pub enum BoltErrorKind {
    ChannelReestablish,
    Htlc,
    Policy,
    LifecycleMismatch,
    Funding,
    Route,
    NoChanelId,
    NoTemporaryId,
}

/// Errors for channel workflows
#[derive(Clone, PartialEq, Eq, Debug)]
pub enum ChannelError {
    /// unexpected message from a service for a channel state
    UnexpectedMessage(ChannelMsg, Lifecycle, ServiceId),
    /// generic LNP channel error, by its kind and description
    Channel(BoltErrorKind, String),
    /// error sending RPC request during state transition, by its description
    Esb(String),
    /// unable to do an operation during a channel state
    InvalidState { operation: String, current_state: Lifecycle },
    /// channel was not persisted on a disk, so unable to reestablish
    NoPersistantData,
    /// sign daemon was unable to sign funding transaction for our public key
    FundingPsbtUnsigned([u8; 33]),
    /// sign daemon produced invalid signature, by its description
    InvalidSig(String),
    /// failed to save channel state, by its description
    Persistence(String),
}

/// Error number of each error, sent to the client alongside the text.
pub open spec fn channel_errno(e: ChannelError) -> u16 {
    match e {
        ChannelError::UnexpectedMessage(..) => 1001,
        ChannelError::Channel(kind, _) => match kind {
            BoltErrorKind::ChannelReestablish => 2001,
            BoltErrorKind::Htlc => 2002,
            BoltErrorKind::Policy => 2003,
            BoltErrorKind::LifecycleMismatch => 2004,
            BoltErrorKind::Funding => 2005,
            BoltErrorKind::Route => 2006,
            BoltErrorKind::NoChanelId => 2007,
            BoltErrorKind::NoTemporaryId => 2008,
        },
        ChannelError::Esb(_) => 3001,
        ChannelError::InvalidState { .. } => 4001,
        ChannelError::FundingPsbtUnsigned(_) => 5001,
        ChannelError::InvalidSig(_) => 5002,
        ChannelError::Persistence(_) => 6000,
        ChannelError::NoPersistantData => 6001,
    }
}

/// Description of each error.
pub open spec fn channel_error_text(e: ChannelError) -> Seq<char> {
    match e {
        ChannelError::UnexpectedMessage(m, l, s) => "unexpected message from "@
            + crate::service::service_id_text(s) + " for a channel state "@ + lifecycle_name(l)
            + ". Message details: "@ + msg_name(m),
        ChannelError::Channel(_, d) => d@,
        ChannelError::Esb(d) => "error sending RPC request during state transition. Details: "@ + d@,
        ChannelError::InvalidState { operation, current_state } => "unable to "@ + operation@
            + " during "@ + lifecycle_name(current_state) + " channel state"@,
        ChannelError::NoPersistantData => "channel was not persisted on a disk, so unable to reestablish"@,
        ChannelError::FundingPsbtUnsigned(k) =>
            "sign daemon was unable to sign funding transaction for our public key "@ + lower_hex(k@),
        ChannelError::InvalidSig(d) => "sign daemon produced invalid signature. "@ + d@,
        ChannelError::Persistence(d) => "failed to save channel state. Details: "@ + d@,
    }
}

impl ChannelError {
    /// Returns unique error number sent to the client alongside text message to help run
    /// client-side diagnostics
    pub fn errno(&self) -> (r: u16)
        ensures
            r == channel_errno(*self),
    {
        match self {
            ChannelError::UnexpectedMessage(..) => 1001,
            ChannelError::Channel(kind, _) => match kind {
                BoltErrorKind::ChannelReestablish => 2001,
                BoltErrorKind::Htlc => 2002,
                BoltErrorKind::Policy => 2003,
                BoltErrorKind::LifecycleMismatch => 2004,
                BoltErrorKind::Funding => 2005,
                BoltErrorKind::Route => 2006,
                BoltErrorKind::NoChanelId => 2007,
                BoltErrorKind::NoTemporaryId => 2008,
            },
            ChannelError::Esb(_) => 3001,
            ChannelError::InvalidState { .. } => 4001,
            ChannelError::FundingPsbtUnsigned(_) => 5001,
            ChannelError::InvalidSig(_) => 5002,
            ChannelError::Persistence(_) => 6000,
            ChannelError::NoPersistantData => 6001,
        }
    }

    /// Description of the error.
    pub fn to_display_string(&self) -> (r: String)
        ensures
            r@ == channel_error_text(*self),
    {
        match self {
            ChannelError::UnexpectedMessage(m, l, s) => {
                let mut out = String::from_str("unexpected message from ");
                let st = s.to_display_string();
                out.append(st.as_str());
                out.append(" for a channel state ");
                let lt = l.to_display_string();
                out.append(lt.as_str());
                out.append(". Message details: ");
                let mt = m.to_display_string();
                out.append(mt.as_str());
                out
            }
            ChannelError::Channel(_, d) => d.clone(),
            ChannelError::Esb(d) => {
                let mut out = String::from_str("error sending RPC request during state transition. Details: ");
                out.append(d.as_str());
                out
            }
            ChannelError::InvalidState { operation, current_state } => {
                let mut out = String::from_str("unable to ");
                out.append(operation.as_str());
                out.append(" during ");
                let lt = current_state.to_display_string();
                out.append(lt.as_str());
                out.append(" channel state");
                out
            }
            ChannelError::NoPersistantData => String::from_str(
                "channel was not persisted on a disk, so unable to reestablish",
            ),
            ChannelError::FundingPsbtUnsigned(k) => {
                let mut out = String::from_str(
                    "sign daemon was unable to sign funding transaction for our public key ",
                );
                let kt = to_hex(k);
                out.append(kt.as_str());
                out
            }
            ChannelError::InvalidSig(d) => {
                let mut out = String::from_str("sign daemon produced invalid signature. ");
                out.append(d.as_str());
                out
            }
            ChannelError::Persistence(d) => {
                let mut out = String::from_str("failed to save channel state. Details: ");
                out.append(d.as_str());
                out
            }
        }
    }
}


/// Work a transition asks the channel daemon to perform before the new state
/// takes effect.
#[derive(Copy, Clone, PartialEq, Eq, Structural, Hash, Debug)]
pub enum ChannelAction {
    /// compose `channel_reestablish` from the remote one, send it to the
    /// remote peer and notify the router
    Reestablish,
    /// compose `open_channel` from the request and send it to the remote peer
    ProposeChannel,
    /// record the remote `open_channel` and ask the signer for a keyset
    AcceptProposal,
    /// record `accept_channel` and ask lnpd to construct the funding
    ConstructFunding,
    /// construct the refund transaction and send it to the signer
    SignRefund,
    /// take our signature from the signed refund transaction, switch to the
    /// permanent channel id and send `funding_created` to the remote peer
    SendFundingCreated,
    /// record `funding_signed`, ask lnpd to publish the funding and the
    /// watcher to track it
    PublishFunding,
    /// compose `funding_locked` and send it to the remote peer
    SendFundingLocked,
    /// notify the router and record the remote `funding_locked`
    CompleteLocked,
    /// set the local keyset and send `accept_channel` to the remote peer
    SendAcceptChannel,
    /// switch to the permanent channel id, record `funding_created`, notify
    /// lnpd and send `funding_signed` to the remote peer
    SignFunding,
    /// record the remote `funding_locked` and notify the router
    ConfirmLocked,
    /// nothing to do
    Nothing,
}

/// A planned transition: the work to perform and the state that follows it.
#[derive(Copy, Clone, PartialEq, Eq, Structural, Hash, Debug)]
pub struct Step {
    pub action: ChannelAction,
    pub next: ChannelStateMachine,
}

/// The states in which the daemon has a workflow for the message: any state
/// for a reestablishment request, and for other messages every state but the
/// reestablishing, closing, aborting and penalizing ones, whose workflows do
/// not exist.
pub open spec fn handles(m: ChannelStateMachine, msg: ChannelMsg) -> bool {
    msg == ChannelMsg::ChannelReestablish || !(m is Reestablishing || m is Closing || m is Abort
        || m is Penalize)
}

/// A message rejected at a workflow stage.
pub open spec fn unexpected(msg: ChannelMsg, l: Lifecycle, source: ServiceId) -> Result<Step, ChannelError> {
    Err(ChannelError::UnexpectedMessage(msg, l, source))
}

/// Transition of the channel proposal workflow.
pub open spec fn propose_plan(p: ChannelPropose, msg: ChannelMsg, source: ServiceId) -> Result<Step, ChannelError> {
    match p {
        ChannelPropose::Proposed => if msg == ChannelMsg::AcceptChannel {
            Ok(Step { action: ChannelAction::ConstructFunding, next: ChannelStateMachine::Propose(ChannelPropose::Accepted) })
        } else {
            unexpected(msg, Lifecycle::Proposed, source)
        },
        ChannelPropose::Accepted => if msg == ChannelMsg::FundingConstructed {
            Ok(Step { action: ChannelAction::SignRefund, next: ChannelStateMachine::Propose(ChannelPropose::Signing) })
        } else {
            unexpected(msg, Lifecycle::Accepted, source)
        },
        ChannelPropose::Signing => if msg == ChannelMsg::Signed {
            Ok(Step { action: ChannelAction::SendFundingCreated, next: ChannelStateMachine::Propose(ChannelPropose::Funding) })
        } else {
            unexpected(msg, Lifecycle::Signing, source)
        },
        ChannelPropose::Funding => if msg == ChannelMsg::FundingSigned {
            Ok(Step { action: ChannelAction::PublishFunding, next: ChannelStateMachine::Propose(ChannelPropose::Published) })
        } else {
            unexpected(msg, Lifecycle::Funding, source)
        },
        ChannelPropose::Published => if msg == ChannelMsg::TxFound {
            Ok(Step { action: ChannelAction::SendFundingLocked, next: ChannelStateMachine::Propose(ChannelPropose::Locked) })
        } else {
            unexpected(msg, Lifecycle::Funded, source)
        },
        ChannelPropose::Locked => if msg == ChannelMsg::FundingLocked {
            Ok(Step { action: ChannelAction::CompleteLocked, next: ChannelStateMachine::Active })
        } else {
            unexpected(msg, Lifecycle::Locked, source)
        },
    }
}

/// Transition of the channel acceptance workflow.
pub open spec fn accept_plan(a: ChannelAccept, msg: ChannelMsg, source: ServiceId) -> Result<Step, ChannelError> {
    match a {
        ChannelAccept::Accepted => if msg == ChannelMsg::Keyset {
            Ok(Step { action: ChannelAction::SendAcceptChannel, next: ChannelStateMachine::Accept(ChannelAccept::Signed) })
        } else {
            unexpected(msg, Lifecycle::Accepted, source)
        },
        ChannelAccept::Signed => if msg == ChannelMsg::FundingCreated {
            Ok(Step { action: ChannelAction::SignFunding, next: ChannelStateMachine::Accept(ChannelAccept::Funded) })
        } else {
            unexpected(msg, Lifecycle::Signed, source)
        },
        ChannelAccept::Funded => if msg == ChannelMsg::FundingLocked {
            Ok(Step { action: ChannelAction::ConfirmLocked, next: ChannelStateMachine::Accept(ChannelAccept::Locked) })
        } else {
            unexpected(msg, Lifecycle::Funded, source)
        },
        ChannelAccept::Locked => if msg == ChannelMsg::Hello {
            Ok(Step { action: ChannelAction::SendFundingLocked, next: ChannelStateMachine::Active })
        } else {
            unexpected(msg, Lifecycle::Locked, source)
        },
    }
}

/// Transition of the channel daemon for a message from a service.
pub open spec fn plan_spec(m: ChannelStateMachine, msg: ChannelMsg, source: ServiceId) -> Result<Step, ChannelError>
    recommends
        handles(m, msg),
{
    if msg == ChannelMsg::ChannelReestablish {
        Ok(Step { action: ChannelAction::Reestablish, next: ChannelStateMachine::Active })
    } else {
        match m {
            ChannelStateMachine::Launch => if msg == ChannelMsg::OpenChannelWith {
                Ok(Step { action: ChannelAction::ProposeChannel, next: ChannelStateMachine::Propose(ChannelPropose::Proposed) })
            } else if msg == ChannelMsg::AcceptChannelFrom {
                Ok(Step { action: ChannelAction::AcceptProposal, next: ChannelStateMachine::Accept(ChannelAccept::Accepted) })
            } else {
                unexpected(msg, Lifecycle::Initial, source)
            },
            ChannelStateMachine::Propose(p) => propose_plan(p, msg, source),
            ChannelStateMachine::Accept(a) => accept_plan(a, msg, source),
            _ => Ok(Step { action: ChannelAction::Nothing, next: m }),
        }
    }
}

/// The step of a planned transition once its work is done.
pub open spec fn finish_spec(step: Step, work: Result<(), ChannelError>) -> Result<ChannelStateMachine, ChannelError> {
    match work {
        Ok(()) => Ok(step.next),
        Err(e) => Err(e),
    }
}

impl ChannelStateMachine {
    /// Plans the transition for a message from a service: the work to do and
    /// the next state, or the error rejecting the message.
    pub fn plan(&self, msg: ChannelMsg, source: ServiceId) -> (r: Result<Step, ChannelError>)
        requires
            handles(*self, msg),
        ensures
            r == plan_spec(*self, msg, source),
    {
        if let ChannelMsg::ChannelReestablish = msg {
            return Ok(Step { action: ChannelAction::Reestablish, next: ChannelStateMachine::Active });
        }
        match self {
            ChannelStateMachine::Launch => match msg {
                ChannelMsg::OpenChannelWith => Ok(Step {
                    action: ChannelAction::ProposeChannel,
                    next: ChannelStateMachine::Propose(ChannelPropose::Proposed),
                }),
                ChannelMsg::AcceptChannelFrom => Ok(Step {
                    action: ChannelAction::AcceptProposal,
                    next: ChannelStateMachine::Accept(ChannelAccept::Accepted),
                }),
                wrong => Err(ChannelError::UnexpectedMessage(wrong, Lifecycle::Initial, source)),
            },
            ChannelStateMachine::Propose(p) => match (p, msg) {
                (ChannelPropose::Proposed, ChannelMsg::AcceptChannel) => Ok(Step {
                    action: ChannelAction::ConstructFunding,
                    next: ChannelStateMachine::Propose(ChannelPropose::Accepted),
                }),
                (ChannelPropose::Accepted, ChannelMsg::FundingConstructed) => Ok(Step {
                    action: ChannelAction::SignRefund,
                    next: ChannelStateMachine::Propose(ChannelPropose::Signing),
                }),
                (ChannelPropose::Signing, ChannelMsg::Signed) => Ok(Step {
                    action: ChannelAction::SendFundingCreated,
                    next: ChannelStateMachine::Propose(ChannelPropose::Funding),
                }),
                (ChannelPropose::Funding, ChannelMsg::FundingSigned) => Ok(Step {
                    action: ChannelAction::PublishFunding,
                    next: ChannelStateMachine::Propose(ChannelPropose::Published),
                }),
                (ChannelPropose::Published, ChannelMsg::TxFound) => Ok(Step {
                    action: ChannelAction::SendFundingLocked,
                    next: ChannelStateMachine::Propose(ChannelPropose::Locked),
                }),
                (ChannelPropose::Locked, ChannelMsg::FundingLocked) => Ok(Step {
                    action: ChannelAction::CompleteLocked,
                    next: ChannelStateMachine::Active,
                }),
                (stage, wrong) => Err(ChannelError::UnexpectedMessage(wrong, stage.lifecycle(), source)),
            },
            ChannelStateMachine::Accept(a) => match (a, msg) {
                (ChannelAccept::Accepted, ChannelMsg::Keyset) => Ok(Step {
                    action: ChannelAction::SendAcceptChannel,
                    next: ChannelStateMachine::Accept(ChannelAccept::Signed),
                }),
                (ChannelAccept::Signed, ChannelMsg::FundingCreated) => Ok(Step {
                    action: ChannelAction::SignFunding,
                    next: ChannelStateMachine::Accept(ChannelAccept::Funded),
                }),
                (ChannelAccept::Funded, ChannelMsg::FundingLocked) => Ok(Step {
                    action: ChannelAction::ConfirmLocked,
                    next: ChannelStateMachine::Accept(ChannelAccept::Locked),
                }),
                (ChannelAccept::Locked, ChannelMsg::Hello) => Ok(Step {
                    action: ChannelAction::SendFundingLocked,
                    next: ChannelStateMachine::Active,
                }),
                (ChannelAccept::Accepted, wrong) => Err(ChannelError::UnexpectedMessage(wrong, Lifecycle::Accepted, source)),
                (ChannelAccept::Signed, wrong) => Err(ChannelError::UnexpectedMessage(wrong, Lifecycle::Signed, source)),
                (ChannelAccept::Funded, wrong) => Err(ChannelError::UnexpectedMessage(wrong, Lifecycle::Funded, source)),
                (ChannelAccept::Locked, wrong) => Err(ChannelError::UnexpectedMessage(wrong, Lifecycle::Locked, source)),
            },
            _ => Ok(Step { action: ChannelAction::Nothing, next: *self }),
        }
    }
}

impl Step {
    /// The next state once the work of the step is done, or the error of the
    /// work.
    pub fn finish(self, work: Result<(), ChannelError>) -> (r: Result<ChannelStateMachine, ChannelError>)
        ensures
            r == finish_spec(self, work),
    {
        match work {
            Ok(()) => Ok(self.next),
            Err(e) => Err(e),
        }
    }
}


/// Text of the failure reported when the message bus could not deliver a
/// message to a service.
pub open spec fn esb_failure_info(dest: ServiceId) -> Seq<char> {
    match dest {
        ServiceId::PeerBolt(n) => "There is no connection with the remote peer "@
            + crate::service::node_addr_text(n) + "; you have to `connect` to it first"@,
        _ => "Unable to complete: daemon "@ + crate::service::service_id_text(dest)
            + " is offline or crashed"@,
    }
}

/// The failure reported when the message bus could not deliver a message to a
/// service.
pub fn esb_failure(dest: &ServiceId) -> (r: Failure)
    ensures
        r.code == FailureCode::Channel,
        r.info@ == esb_failure_info(*dest),
{
    match dest {
        ServiceId::PeerBolt(remote_peer) => {
            let mut info = String::from_str("There is no connection with the remote peer ");
            let t = remote_peer.to_display_string();
            info.append(t.as_str());
            info.append("; you have to `connect` to it first");
            Failure { code: FailureCode::Channel, info }
        }
        _ => {
            let mut info = String::from_str("Unable to complete: daemon ");
            let t = dest.to_display_string();
            info.append(t.as_str());
            info.append(" is offline or crashed");
            Failure { code: FailureCode::Channel, info }
        }
    }
}

/// What processing a message did to the channel.
#[derive(Clone, PartialEq, Eq, Debug)]
pub enum Verdict {
    /// the state was updated and has to be saved
    Updated,
    /// the message was rejected and the state is unchanged
    Unchanged,
    /// a message bus failure happened: the channel fails with the error
    Failed(ChannelError),
}

/// The result of processing a message: the reports for the client that asked
/// for the workflow, in order, the state the channel keeps, and the verdict.
#[derive(Clone, PartialEq, Eq, Debug)]
pub struct ProcessOutcome {
    pub reports: Vec<RpcMsg>,
    pub state: ChannelStateMachine,
    pub verdict: Verdict,
}

/// A channel failure report with the given text.
pub open spec fn is_channel_failure(r: RpcMsg, info: Seq<char>) -> bool {
    r matches RpcMsg::Failure(f) && f.code == FailureCode::Channel && f.info@ == info
}

/// A progress report with the given text.
pub open spec fn is_progress(r: RpcMsg, text: Seq<char>) -> bool {
    r matches RpcMsg::Progress(t) && t@ == text
}

/// Number of reports that precede the report on the outcome: one for a
/// message bus failure, none otherwise.
pub open spec fn pre_reports(msg: ChannelMsg) -> nat {
    if msg is EsbError { 1 } else { 0 }
}

/// Decides what the channel daemon reports and keeps after processing `msg`
/// in state `state`, given the result of the transition (`Step::finish`).
/// A message bus failure is first reported to the client; then a new state
/// is reported with its description, and an error with its text. The state
/// changes only on success; only message bus errors fail the channel.
pub fn process_outcome(
    state: ChannelStateMachine,
    msg: &ChannelMsg,
    result: Result<ChannelStateMachine, ChannelError>,
    channel_id: &str,
) -> (r: ProcessOutcome)
    ensures
        r.reports@.len() == pre_reports(*msg) + 1,
        (*msg matches ChannelMsg::EsbError(d) ==> is_channel_failure(r.reports@[0], esb_failure_info(d))),
        match result {
            Ok(next) => {
                &&& r.state == next
                &&& r.verdict == Verdict::Updated
                &&& is_progress(r.reports@[pre_reports(*msg) as int], machine_info(next, channel_id@))
            },
            Err(e) => {
                &&& r.state == state
                &&& (e is Esb ==> r.verdict == Verdict::Failed(e))
                &&& (!(e is Esb) ==> r.verdict == Verdict::Unchanged)
                &&& is_channel_failure(r.reports@[pre_reports(*msg) as int], channel_error_text(e))
            },
        },
{
    let mut reports: Vec<RpcMsg> = Vec::new();
    if let ChannelMsg::EsbError(destination) = msg {
        reports.push(RpcMsg::Failure(esb_failure(destination)));
    }
    match result {
        Ok(next) => {
            let info = next.info_message(channel_id);
            reports.push(RpcMsg::Progress(info));
            ProcessOutcome { reports, state: next, verdict: Verdict::Updated }
        }
        Err(err) => {
            let info = err.to_display_string();
            reports.push(RpcMsg::Failure(Failure { code: FailureCode::Channel, info }));
            let verdict = match err {
                ChannelError::Esb(_) => Verdict::Failed(err),
                _ => Verdict::Unchanged,
            };
            ProcessOutcome { reports, state, verdict }
        }
    }
}

/// A message rejected by a workflow is rejected with itself, its source and
/// the lifecycle stage of the current state; the only rejection is that of an
/// unexpected message.
pub proof fn law_rejection_names_stage(m: ChannelStateMachine, msg: ChannelMsg, source: ServiceId)
    requires
        handles(m, msg),
    ensures
        plan_spec(m, msg, source) is Err ==> plan_spec(m, msg, source) == unexpected(msg, machine_lifecycle(m), source),
{
}

/// A reestablishment request makes any channel active.
pub proof fn law_reestablish_activates(m: ChannelStateMachine, source: ServiceId)
    ensures
        plan_spec(m, ChannelMsg::ChannelReestablish, source) == Ok::<Step, ChannelError>(
            Step { action: ChannelAction::Reestablish, next: ChannelStateMachine::Active },
        ),
{
}

/// An active channel stays active, whatever it receives, with no work to do
/// but for a reestablishment.
pub proof fn law_active_absorbs(msg: ChannelMsg, source: ServiceId)
    ensures
        plan_spec(ChannelStateMachine::Active, msg, source) matches Ok(step)
            && step.next == ChannelStateMachine::Active
            && (msg != ChannelMsg::ChannelReestablish ==> step.action == ChannelAction::Nothing),
{
}

/// Every accepted message other than a reestablishment moves a channel that
/// is not yet active strictly forward in its lifecycle, and never past
/// `Active`: a workflow reaches the active channel in a bounded number of
/// steps and never goes back.
pub proof fn law_workflow_progress(m: ChannelStateMachine, msg: ChannelMsg, source: ServiceId)
    requires
        handles(m, msg),
        msg != ChannelMsg::ChannelReestablish,
        m != ChannelStateMachine::Active,
        plan_spec(m, msg, source) is Ok,
    ensures
        lifecycle_rank(machine_lifecycle(m)) < lifecycle_rank(machine_lifecycle(plan_spec(m, msg, source)->Ok_0.next)),
        lifecycle_rank(machine_lifecycle(plan_spec(m, msg, source)->Ok_0.next)) <= lifecycle_rank(Lifecycle::Active),
{
}

/// The daemon plans the work `a` for the message in the state.
pub open spec fn plans_work(m: ChannelStateMachine, msg: ChannelMsg, source: ServiceId, a: ChannelAction) -> bool {
    plan_spec(m, msg, source) matches Ok(step) && step.action == a
}

/// The work of every transition, by the stage and the message it answers:
/// proposing answers `OpenChannelWith` at launch; the funding is
/// constructed on `accept_channel`, the refund signed once the funding is
/// constructed, `funding_created` sent once the refund is signed, the
/// funding published on `funding_signed` and nowhere else, `funding_locked`
/// sent only once the funding transaction is found on chain (proposer) or
/// the accepted channel's daemon is up (acceptor), and so on; an active
/// channel does nothing, and a reestablishment always reestablishes.
pub proof fn law_transition_work(m: ChannelStateMachine, msg: ChannelMsg, source: ServiceId)
    requires
        handles(m, msg),
    ensures
        plans_work(m, msg, source, ChannelAction::Reestablish) <==> msg == ChannelMsg::ChannelReestablish,
        plans_work(m, msg, source, ChannelAction::ProposeChannel)
            <==> (m == ChannelStateMachine::Launch && msg == ChannelMsg::OpenChannelWith),
        plans_work(m, msg, source, ChannelAction::AcceptProposal)
            <==> (m == ChannelStateMachine::Launch && msg == ChannelMsg::AcceptChannelFrom),
        plans_work(m, msg, source, ChannelAction::ConstructFunding)
            <==> (m == ChannelStateMachine::Propose(ChannelPropose::Proposed) && msg == ChannelMsg::AcceptChannel),
        plans_work(m, msg, source, ChannelAction::SignRefund)
            <==> (m == ChannelStateMachine::Propose(ChannelPropose::Accepted) && msg == ChannelMsg::FundingConstructed),
        plans_work(m, msg, source, ChannelAction::SendFundingCreated)
            <==> (m == ChannelStateMachine::Propose(ChannelPropose::Signing) && msg == ChannelMsg::Signed),
        plans_work(m, msg, source, ChannelAction::PublishFunding)
            <==> (m == ChannelStateMachine::Propose(ChannelPropose::Funding) && msg == ChannelMsg::FundingSigned),
        plans_work(m, msg, source, ChannelAction::SendFundingLocked)
            <==> ((m == ChannelStateMachine::Propose(ChannelPropose::Published) && msg == ChannelMsg::TxFound)
                || (m == ChannelStateMachine::Accept(ChannelAccept::Locked) && msg == ChannelMsg::Hello)),
        plans_work(m, msg, source, ChannelAction::CompleteLocked)
            <==> (m == ChannelStateMachine::Propose(ChannelPropose::Locked) && msg == ChannelMsg::FundingLocked),
        plans_work(m, msg, source, ChannelAction::SendAcceptChannel)
            <==> (m == ChannelStateMachine::Accept(ChannelAccept::Accepted) && msg == ChannelMsg::Keyset),
        plans_work(m, msg, source, ChannelAction::SignFunding)
            <==> (m == ChannelStateMachine::Accept(ChannelAccept::Signed) && msg == ChannelMsg::FundingCreated),
        plans_work(m, msg, source, ChannelAction::ConfirmLocked)
            <==> (m == ChannelStateMachine::Accept(ChannelAccept::Funded) && msg == ChannelMsg::FundingLocked),
        plans_work(m, msg, source, ChannelAction::Nothing)
            <==> (m == ChannelStateMachine::Active && msg != ChannelMsg::ChannelReestablish),
{
}

/// The stage a transition enters fixes the work done on the way there: a
/// channel is proposed before it is `Proposed`, its funding constructed
/// before it is `Accepted`, the refund signed before `Signing` ends,
/// `funding_created` sent before `Funding`, the funding published before
/// `Published`, `funding_locked` sent before `Locked`; an accepted channel
/// sends `accept_channel` before `Signed`, signs the funding before
/// `Funded` and confirms the remote `funding_locked` before `Locked`. A
/// channel becomes active by completing or sending `funding_locked`, or by
/// a reestablishment.
pub proof fn law_stage_entry_work(m: ChannelStateMachine, msg: ChannelMsg, source: ServiceId)
    requires
        handles(m, msg),
    ensures
        plan_spec(m, msg, source) matches Ok(step) ==> {
            &&& step.next == ChannelStateMachine::Propose(ChannelPropose::Proposed) ==> step.action == ChannelAction::ProposeChannel
            &&& step.next == ChannelStateMachine::Propose(ChannelPropose::Accepted) ==> step.action == ChannelAction::ConstructFunding
            &&& step.next == ChannelStateMachine::Propose(ChannelPropose::Signing) ==> step.action == ChannelAction::SignRefund
            &&& step.next == ChannelStateMachine::Propose(ChannelPropose::Funding) ==> step.action == ChannelAction::SendFundingCreated
            &&& step.next == ChannelStateMachine::Propose(ChannelPropose::Published) ==> step.action == ChannelAction::PublishFunding
            &&& step.next == ChannelStateMachine::Propose(ChannelPropose::Locked) ==> step.action == ChannelAction::SendFundingLocked
            &&& step.next == ChannelStateMachine::Accept(ChannelAccept::Accepted) ==> step.action == ChannelAction::AcceptProposal
            &&& step.next == ChannelStateMachine::Accept(ChannelAccept::Signed) ==> step.action == ChannelAction::SendAcceptChannel
            &&& step.next == ChannelStateMachine::Accept(ChannelAccept::Funded) ==> step.action == ChannelAction::SignFunding
            &&& step.next == ChannelStateMachine::Accept(ChannelAccept::Locked) ==> step.action == ChannelAction::ConfirmLocked
            &&& (step.next == ChannelStateMachine::Active && m != ChannelStateMachine::Active) ==> (
                step.action == ChannelAction::CompleteLocked || step.action == ChannelAction::SendFundingLocked
                    || step.action == ChannelAction::Reestablish)
            &&& step.next == ChannelStateMachine::Active || step.next is Propose || step.next is Accept
        },
{
}

/// A step whose work failed leaves the state as it was and passes the error
/// on; a step whose work succeeded moves to the planned state.
pub proof fn law_failed_work_keeps_state(step: Step, e: ChannelError)
    ensures
        finish_spec(step, Err(e)) == Err::<ChannelStateMachine, ChannelError>(e),
        finish_spec(step, Ok(())) == Ok::<ChannelStateMachine, ChannelError>(step.next),
{
}


/// BOLT messages a channel daemon receives from its remote peer, by kind.
#[derive(Copy, Clone, PartialEq, Eq, Structural, Hash, Debug)]
pub enum PeerMsgKind {
    OpenChannel,
    ChannelReestablish,
    AcceptChannel,
    FundingCreated,
    FundingSigned,
    FundingLocked,
    Other,
}

/// What the channel daemon does with a message from its remote peer.
#[derive(Clone, PartialEq, Eq, Debug)]
pub enum PeerRoute {
    /// warn that the channel was already requested and do nothing
    Warn,
    /// hand the message to the workflow
    Process(ChannelMsg),
    /// ignore the message
    Ignore,
}

/// Routing of each peer message: a repeated `open_channel` is warned about;
/// reestablishment, `accept_channel`, `funding_signed` and `funding_locked`
/// go to the workflow; the rest is ignored.
pub open spec fn peer_route_spec(k: PeerMsgKind) -> PeerRoute {
    match k {
        PeerMsgKind::OpenChannel => PeerRoute::Warn,
        PeerMsgKind::ChannelReestablish => PeerRoute::Process(ChannelMsg::ChannelReestablish),
        PeerMsgKind::AcceptChannel => PeerRoute::Process(ChannelMsg::AcceptChannel),
        PeerMsgKind::FundingSigned => PeerRoute::Process(ChannelMsg::FundingSigned),
        PeerMsgKind::FundingLocked => PeerRoute::Process(ChannelMsg::FundingLocked),
        _ => PeerRoute::Ignore,
    }
}

/// What the channel daemon does with a message from its remote peer.
pub fn peer_route(k: PeerMsgKind) -> (r: PeerRoute)
    ensures
        r == peer_route_spec(k),
{
    match k {
        PeerMsgKind::OpenChannel => PeerRoute::Warn,
        PeerMsgKind::ChannelReestablish => PeerRoute::Process(ChannelMsg::ChannelReestablish),
        PeerMsgKind::AcceptChannel => PeerRoute::Process(ChannelMsg::AcceptChannel),
        PeerMsgKind::FundingSigned => PeerRoute::Process(ChannelMsg::FundingSigned),
        PeerMsgKind::FundingLocked => PeerRoute::Process(ChannelMsg::FundingLocked),
        _ => PeerRoute::Ignore,
    }
}

/// Every message the remote peer sends that a workflow consumes reaches the
/// workflow as that very message: a reestablishment, `accept_channel`,
/// `funding_signed` and `funding_locked`; a repeated `open_channel` is only
/// warned about, and nothing else reaches the workflow. Each message handed
/// on is one that some stage of the workflows acts on.
pub proof fn law_peer_messages_reach_workflow(k: PeerMsgKind, source: ServiceId)
    ensures
        k == PeerMsgKind::ChannelReestablish ==> peer_route_spec(k) == PeerRoute::Process(ChannelMsg::ChannelReestablish),
        k == PeerMsgKind::AcceptChannel ==> peer_route_spec(k) == PeerRoute::Process(ChannelMsg::AcceptChannel),
        k == PeerMsgKind::FundingSigned ==> peer_route_spec(k) == PeerRoute::Process(ChannelMsg::FundingSigned),
        k == PeerMsgKind::FundingLocked ==> peer_route_spec(k) == PeerRoute::Process(ChannelMsg::FundingLocked),
        k == PeerMsgKind::OpenChannel ==> peer_route_spec(k) == PeerRoute::Warn,
        peer_route_spec(k) is Process <==> (k == PeerMsgKind::ChannelReestablish || k == PeerMsgKind::AcceptChannel
            || k == PeerMsgKind::FundingSigned || k == PeerMsgKind::FundingLocked),
        peer_route_spec(k) matches PeerRoute::Process(c) ==> exists|m: ChannelStateMachine|
            #[trigger] handles(m, c) && m != ChannelStateMachine::Active
                && (plan_spec(m, c, source) matches Ok(step) && step.next != m),
{
    if k == PeerMsgKind::ChannelReestablish {
        assert(handles(ChannelStateMachine::Launch, ChannelMsg::ChannelReestablish));
    } else if k == PeerMsgKind::AcceptChannel {
        assert(handles(ChannelStateMachine::Propose(ChannelPropose::Proposed), ChannelMsg::AcceptChannel));
    } else if k == PeerMsgKind::FundingSigned {
        assert(handles(ChannelStateMachine::Propose(ChannelPropose::Funding), ChannelMsg::FundingSigned));
    } else if k == PeerMsgKind::FundingLocked {
        assert(handles(ChannelStateMachine::Propose(ChannelPropose::Locked), ChannelMsg::FundingLocked));
    }
}

/// Control messages a channel daemon receives, with what their routing
/// reads.
#[derive(Clone, PartialEq, Eq, Debug)]
pub enum CtlMsgKind {
    /// request to propose a channel to a remote peer, reporting to a client
    OpenChannelWith { report_to: Option<crate::service::ClientId>, remote_peer: crate::service::NodeAddr },
    /// request to accept a channel proposed by a remote peer
    AcceptChannelFrom { remote_peer: crate::service::NodeAddr },
    FundingConstructed,
    TxFound,
    Signed,
    /// an error reported by another daemon
    Error,
    /// the message bus failed to deliver a message to the service
    EsbError(ServiceId),
    /// request to pay through the channel, reporting to a client
    Payment { enquirer: crate::service::ClientId },
    Keyset,
    Hello,
    Other,
}

/// What the channel daemon does with a control message.
#[derive(Clone, PartialEq, Eq, Debug)]
pub enum CtlRoute {
    /// hand the message to the workflow
    Process(ChannelMsg),
    /// add an HTLC for the payment and report success to the client
    Payment,
    /// the control interface does not support the message
    Unsupported,
}

/// The channel daemon's memory around its workflow: the client that asked
/// for the current workflow, the remote peer and the workflow state.
#[derive(Clone, PartialEq, Eq, Debug)]
pub struct ChannelDaemon {
    pub enquirer: Option<crate::service::ClientId>,
    pub remote_peer: Option<crate::service::NodeAddr>,
    pub state: ChannelStateMachine,
}

impl ChannelDaemon {
    /// Routes a control message. A channel proposal records the client to
    /// report to and the remote peer before the workflow runs; a channel
    /// acceptance forgets the client (the remote peer is recorded by
    /// `accepted` once the workflow took the request); a payment makes its
    /// client the one to report to. `Keyset` and `Hello` are not supported
    /// by the control interface.
    pub fn route_ctl(&mut self, msg: CtlMsgKind) -> (r: CtlRoute)
        ensures
            final(self).state == old(self).state,
            match msg {
                CtlMsgKind::OpenChannelWith { report_to, remote_peer } => {
                    &&& r == CtlRoute::Process(ChannelMsg::OpenChannelWith)
                    &&& final(self).enquirer == report_to
                    &&& final(self).remote_peer == Some(remote_peer)
                },
                CtlMsgKind::AcceptChannelFrom { .. } => {
                    &&& r == CtlRoute::Process(ChannelMsg::AcceptChannelFrom)
                    &&& final(self).enquirer is None
                    &&& final(self).remote_peer == old(self).remote_peer
                },
                CtlMsgKind::Payment { enquirer } => {
                    &&& r == CtlRoute::Payment
                    &&& final(self).enquirer == Some(enquirer)
                    &&& final(self).remote_peer == old(self).remote_peer
                },
                _ => {
                    &&& final(self).enquirer == old(self).enquirer
                    &&& final(self).remote_peer == old(self).remote_peer
                    &&& r == match msg {
                        CtlMsgKind::FundingConstructed => CtlRoute::Process(ChannelMsg::FundingConstructed),
                        CtlMsgKind::TxFound => CtlRoute::Process(ChannelMsg::TxFound),
                        CtlMsgKind::Signed => CtlRoute::Process(ChannelMsg::Signed),
                        CtlMsgKind::Error => CtlRoute::Process(ChannelMsg::Other),
                        CtlMsgKind::EsbError(d) => CtlRoute::Process(ChannelMsg::EsbError(d)),
                        _ => CtlRoute::Unsupported,
                    }
                },
            },
    {
        match msg {
            CtlMsgKind::OpenChannelWith { report_to, remote_peer } => {
                self.enquirer = report_to;
                self.remote_peer = Some(remote_peer);
                CtlRoute::Process(ChannelMsg::OpenChannelWith)
            }
            CtlMsgKind::AcceptChannelFrom { .. } => {
                self.enquirer = None;
                CtlRoute::Process(ChannelMsg::AcceptChannelFrom)
            }
            CtlMsgKind::Payment { enquirer } => {
                self.enquirer = Some(enquirer);
                CtlRoute::Payment
            }
            CtlMsgKind::FundingConstructed => CtlRoute::Process(ChannelMsg::FundingConstructed),
            CtlMsgKind::TxFound => CtlRoute::Process(ChannelMsg::TxFound),
            CtlMsgKind::Signed => CtlRoute::Process(ChannelMsg::Signed),
            CtlMsgKind::Error => CtlRoute::Process(ChannelMsg::Other),
            CtlMsgKind::EsbError(d) => CtlRoute::Process(ChannelMsg::EsbError(d)),
            _ => CtlRoute::Unsupported,
        }
    }

    /// After the workflow processed a channel acceptance request: the remote
    /// peer is recorded only if the state was updated.
    pub fn accepted(&mut self, updated: bool, remote_peer: crate::service::NodeAddr)
        ensures
            final(self).state == old(self).state,
            final(self).enquirer == old(self).enquirer,
            final(self).remote_peer == if updated { Some(remote_peer) } else { old(self).remote_peer },
    {
        if updated {
            self.remote_peer = Some(remote_peer);
        }
    }

    /// After a payment was added to the channel and reported: the client is
    /// forgotten.
    pub fn payment_done(&mut self)
        ensures
            final(self).state == old(self).state,
            final(self).remote_peer == old(self).remote_peer,
            final(self).enquirer is None,
    {
        self.enquirer = None;
    }

    /// Keeps the state and verdict of a processed message.
    pub fn apply(&mut self, outcome: &ProcessOutcome)
        ensures
            final(self).state == outcome.state,
            final(self).enquirer == old(self).enquirer,
            final(self).remote_peer == old(self).remote_peer,
    {
        self.state = outcome.state;
    }
}


/// How a channel daemon starts.
#[derive(Copy, Clone, PartialEq, Eq, Hash, Debug)]
pub enum Startup {
    /// restore the channel state from its file
    Restore,
    /// establish a new channel with the given temporary id
    Fresh([u8; 32]),
}

/// How a channel daemon starts: from its channel file when it can be opened;
/// otherwise a channel known by a temporary id is established anew, and a
/// channel known by its permanent id cannot be reestablished.
pub fn startup(file_opened: bool, temp_channel_id: Option<[u8; 32]>) -> (r: Result<Startup, ChannelError>)
    ensures
        file_opened ==> r == Ok::<Startup, ChannelError>(Startup::Restore),
        !file_opened ==> r == match temp_channel_id {
            Some(t) => Ok::<Startup, ChannelError>(Startup::Fresh(t)),
            None => Err(ChannelError::NoPersistantData),
        },
{
    if file_opened {
        Ok(Startup::Restore)
    } else {
        match temp_channel_id {
            Some(t) => Ok(Startup::Fresh(t)),
            None => Err(ChannelError::NoPersistantData),
        }
    }
}

/// Families of messages on the node buses.
#[derive(Copy, Clone, PartialEq, Eq, Structural, Hash, Debug)]
pub enum MsgFamily {
    /// BOLT peer messages
    Bolt,
    /// control messages
    Ctl,
    /// RPC messages
    Rpc,
}

/// Which handler of the channel daemon takes a message.
#[derive(Clone, PartialEq, Eq, Debug)]
pub enum BusRoute {
    /// a message of the remote peer
    Peer(crate::service::NodeAddr),
    /// a control message from the source
    Ctl(ServiceId),
    /// a request of a client
    Rpc(crate::service::ClientId),
    /// the bus does not carry this family of messages
    WrongMessage(crate::service::ServiceBus),
}

/// Whether a message can reach the channel daemon: peer messages come from
/// peer daemons and RPC requests from clients.
pub open spec fn deliverable(bus: crate::service::ServiceBus, family: MsgFamily, source: ServiceId) -> bool {
    &&& (bus == crate::service::ServiceBus::Msg && family == MsgFamily::Bolt) ==> source is PeerBolt
    &&& (bus == crate::service::ServiceBus::Rpc && family == MsgFamily::Rpc) ==> source is Client
}

/// Which handler of the channel daemon takes a message arriving on `bus`
/// from `source`: peer messages on the message bus, control messages on the
/// control bus, RPC requests on the RPC bus; any other combination is a
/// wrong message for the bus.
pub fn route_bus(bus: crate::service::ServiceBus, family: MsgFamily, source: ServiceId) -> (r: BusRoute)
    requires
        deliverable(bus, family, source),
    ensures
        r == match (bus, family) {
            (crate::service::ServiceBus::Msg, MsgFamily::Bolt) => BusRoute::Peer(source->PeerBolt_0),
            (crate::service::ServiceBus::Ctl, MsgFamily::Ctl) => BusRoute::Ctl(source),
            (crate::service::ServiceBus::Rpc, MsgFamily::Rpc) => BusRoute::Rpc(source->Client_0),
            _ => BusRoute::WrongMessage(bus),
        },
{
    match (bus, family) {
        (crate::service::ServiceBus::Msg, MsgFamily::Bolt) => match source {
            ServiceId::PeerBolt(remote_peer) => BusRoute::Peer(remote_peer),
            _ => {
                proof { assert(false); }
                BusRoute::WrongMessage(bus)
            }
        },
        (crate::service::ServiceBus::Ctl, MsgFamily::Ctl) => BusRoute::Ctl(source),
        (crate::service::ServiceBus::Rpc, MsgFamily::Rpc) => match source {
            ServiceId::Client(id) => BusRoute::Rpc(id),
            _ => {
                proof { assert(false); }
                BusRoute::WrongMessage(bus)
            }
        },
        _ => BusRoute::WrongMessage(bus),
    }
}

/// Why a payment could not be added to the channel.
#[derive(Clone, Copy, PartialEq, Eq, Debug)]
pub enum PaymentError {
    /// the payment route has no hop
    RouteNotFound,
}

/// The first hop of a payment route, whose payload the channel forwards;
/// an empty route is refused with `RouteNotFound`.
pub fn payment_hop<H>(route: &Vec<H>) -> (r: Result<&H, PaymentError>)
    ensures
        route@.len() == 0 <==> r == Err::<&H, PaymentError>(PaymentError::RouteNotFound),
        route@.len() > 0 ==> r == Ok::<&H, PaymentError>(&route@[0]),
{
    if route.len() == 0 {
        Err(PaymentError::RouteNotFound)
    } else {
        Ok(&route[0])
    }
}

} // verus!
