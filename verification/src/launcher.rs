//! Workflow of launching a channel daemon by the node broker in response to a
//! client request for opening a new channel with a remote peer.
//!
//! ```text
//!           START
//!             |
//!        +---------+
//!        V         V
//!    LAUNCHING  DERIVING
//!        |         |
//!        +---------+
//!             V
//!        NEGOTIATING
//!             |
//!             V
//!        COMMITTING
//!             |
//!             V
//!          SIGNING
//!             |
//!             V
//!           DONE
//! ```
//!
//! `ChannelLauncher::next` decides on a message: it gives the reports for the
//! client, and either the new state, the error ending the workflow, or work
//! for the broker (sending a message, constructing or publishing the funding
//! transaction). `complete` decides on the outcome of that work.
use vstd::prelude::*;
use crate::service::{ClientId, ServiceId, node_addr_text};
use crate::rpc::{ApiFailure, CommonParams, CreateChannel, PeerParams, applied_common, applied_local, customised};
use crate::hex::{lower_hex, same_bytes32, to_hex, txid_text};
use crate::text::{dec_chars, push_decimal};

verus! {

/// State machine for launching new channeld by lnpd in response to user
/// channel opening requests. Channel ids and transaction ids are kept as 32
/// bytes; `K` is the channel keyset derived by the signer.
#[derive(Clone, PartialEq, Eq, Debug)]
pub enum ChannelLauncher<K> {
    /// Awaiting for channeld to come online and report back to lnpd + for signd to derive keyset
    /// in parallel.
    Init([u8; 32], CreateChannel, ClientId),
    /// Keyset for channel is derived. Still awaiting for channeld to come online and report back
    /// to lnpd.
    Launching([u8; 32], CreateChannel, ClientId, K),
    /// Channel daemon is launched, awaiting for keyset to be derived.
    Deriving([u8; 32], CreateChannel, ClientId),
    /// Awaiting for channeld to complete negotiations on channel structure with the remote peer.
    Negotiating([u8; 32], ClientId),
    /// Awaiting for channeld to sign the commitment transaction with the remote peer.
    Committing([u8; 32], [u8; 32], ClientId),
    /// Awaiting signd to sign the funding transaction.
    Signing([u8; 32], [u8; 32], ClientId),
}

/// Channel id of each state: the temporary one until signing, the permanent
/// one after.
pub open spec fn launcher_channel_id<K>(l: ChannelLauncher<K>) -> [u8; 32] {
    match l {
        ChannelLauncher::Init(id, ..) => id,
        ChannelLauncher::Launching(id, ..) => id,
        ChannelLauncher::Deriving(id, ..) => id,
        ChannelLauncher::Negotiating(id, ..) => id,
        ChannelLauncher::Committing(id, ..) => id,
        ChannelLauncher::Signing(id, ..) => id,
    }
}

/// Name of each state.
pub open spec fn launcher_name<K>(l: ChannelLauncher<K>) -> Seq<char> {
    match l {
        ChannelLauncher::Init(..) => "INIT"@,
        ChannelLauncher::Launching(..) => "LAUNCHING"@,
        ChannelLauncher::Deriving(..) => "DERIVING"@,
        ChannelLauncher::Negotiating(..) => "NEGOTIATING"@,
        ChannelLauncher::Committing(..) => "COMMITTING"@,
        ChannelLauncher::Signing(..) => "SIGNING"@,
    }
}

impl<K> ChannelLauncher<K> {
    /// Computes current channel id for the daemon being launched
    pub fn channel_id(&self) -> (r: [u8; 32])
        ensures
            r == launcher_channel_id(*self),
    {
        match self {
            ChannelLauncher::Init(id, ..) => *id,
            ChannelLauncher::Launching(id, ..) => *id,
            ChannelLauncher::Deriving(id, ..) => *id,
            ChannelLauncher::Negotiating(id, ..) => *id,
            ChannelLauncher::Committing(id, ..) => *id,
            ChannelLauncher::Signing(id, ..) => *id,
        }
    }

    /// Name of the state.
    pub fn to_display_string(&self) -> (r: String)
        ensures
            r@ == launcher_name(*self),
    {
        match self {
            ChannelLauncher::Init(..) => String::from_str("INIT"),
            ChannelLauncher::Launching(..) => String::from_str("LAUNCHING"),
            ChannelLauncher::Deriving(..) => String::from_str("DERIVING"),
            ChannelLauncher::Negotiating(..) => String::from_str("NEGOTIATING"),
            ChannelLauncher::Committing(..) => String::from_str("COMMITTING"),
            ChannelLauncher::Signing(..) => String::from_str("SIGNING"),
        }
    }
}

/// Control messages the workflow acts on.
#[derive(Clone, PartialEq, Eq, Debug)]
pub enum LauncherMsg<K> {
    /// a daemon came online
    Hello,
    /// the signer derived a keyset
    Keyset(K),
    /// the channel daemon asks for the funding of the given amount, paid to
    /// the output script `address`, with the given fee
    ConstructFunding { amount: u64, address: Vec<u8>, fee: u64 },
    /// the channel daemon asks to publish the funding
    PublishFunding,
    /// the signer signed a transaction with the given id
    Signed { txid: [u8; 32] },
    /// any other message
    Other,
}

/// Kinds of control messages.
#[derive(Copy, Clone, PartialEq, Eq, Structural, Hash, Debug)]
pub enum MsgKind {
    Hello,
    Keyset,
    ConstructFunding,
    PublishFunding,
    Signed,
    Other,
}

/// Kind of each message.
pub open spec fn msg_kind<K>(m: LauncherMsg<K>) -> MsgKind {
    match m {
        LauncherMsg::Hello => MsgKind::Hello,
        LauncherMsg::Keyset(_) => MsgKind::Keyset,
        LauncherMsg::ConstructFunding { .. } => MsgKind::ConstructFunding,
        LauncherMsg::PublishFunding => MsgKind::PublishFunding,
        LauncherMsg::Signed { .. } => MsgKind::Signed,
        LauncherMsg::Other => MsgKind::Other,
    }
}

/// Name of each message kind.
pub open spec fn kind_name(k: MsgKind) -> Seq<char> {
    match k {
        MsgKind::Hello => "hello"@,
        MsgKind::Keyset => "keyset"@,
        MsgKind::ConstructFunding => "construct_funding"@,
        MsgKind::PublishFunding => "publish_funding"@,
        MsgKind::Signed => "signed"@,
        MsgKind::Other => "other"@,
    }
}

impl<K> LauncherMsg<K> {
    /// Kind of the message.
    pub fn kind(&self) -> (r: MsgKind)
        ensures
            r == msg_kind(*self),
    {
        match self {
            LauncherMsg::Hello => MsgKind::Hello,
            LauncherMsg::Keyset(_) => MsgKind::Keyset,
            LauncherMsg::ConstructFunding { .. } => MsgKind::ConstructFunding,
            LauncherMsg::PublishFunding => MsgKind::PublishFunding,
            LauncherMsg::Signed { .. } => MsgKind::Signed,
            LauncherMsg::Other => MsgKind::Other,
        }
    }
}

impl MsgKind {
    /// Name of the kind.
    pub fn to_display_string(&self) -> (r: String)
        ensures
            r@ == kind_name(*self),
    {
        match self {
            MsgKind::Hello => String::from_str("hello"),
            MsgKind::Keyset => String::from_str("keyset"),
            MsgKind::ConstructFunding => String::from_str("construct_funding"),
            MsgKind::PublishFunding => String::from_str("publish_funding"),
            MsgKind::Signed => String::from_str("signed"),
            MsgKind::Other => String::from_str("other"),
        }
    }
}

/// Errors for channel launching workflow
#[derive(Clone, PartialEq, Eq, Debug)]
pub enum LauncherError {
    /// the received message was not expected at the named stage of the workflow
    UnexpectedMessage(MsgKind, LauncherStageName),
    /// transaction id changed after signing
    SignedTxidChanged { unsigned_txid: [u8; 32], signed_txid: [u8; 32] },
    /// failure sending RPC request during state transition, by its description
    Esb(String),
    /// unable to launch channel daemon, by the description of the failure
    DaemonLaunch(String),
    /// failure during channel funding, by its description
    Funding(String),
}

/// Stage names used when rejecting a message.
#[derive(Copy, Clone, PartialEq, Eq, Structural, Hash, Debug)]
pub enum LauncherStageName {
    Init,
    Launching,
    Deriving,
    Negotiating,
    Committing,
    Signing,
}

/// Text of each stage name.
pub open spec fn stage_text(s: LauncherStageName) -> Seq<char> {
    match s {
        LauncherStageName::Init => "INIT"@,
        LauncherStageName::Launching => "LAUNCHING"@,
        LauncherStageName::Deriving => "DERIVING"@,
        LauncherStageName::Negotiating => "NEGOTIATING"@,
        LauncherStageName::Committing => "COMMITTING"@,
        LauncherStageName::Signing => "SIGNING"@,
    }
}

/// Text form of a transaction id: its bytes reversed, in lower-case hex.
pub open spec fn txid_hex(txid: [u8; 32]) -> Seq<char> {
    lower_hex(txid@.reverse())
}

/// Description of each error.
pub open spec fn launcher_error_text(e: LauncherError) -> Seq<char> {
    match e {
        LauncherError::UnexpectedMessage(k, s) => "the received message "@ + kind_name(k)
            + " was not expected at the "@ + stage_text(s)
            + " stage of the channel launch workflow"@,
        LauncherError::SignedTxidChanged { unsigned_txid, signed_txid } =>
            "transaction id changed after signing from "@ + txid_hex(unsigned_txid) + " to "@
            + txid_hex(signed_txid) + "; may be signd is hacked"@,
        LauncherError::Esb(d) => "failure sending RPC request during state transition. Details: "@ + d@,
        LauncherError::DaemonLaunch(d) => "unable to launch channel daemon. Details: "@ + d@,
        LauncherError::Funding(d) => d@,
    }
}

impl LauncherError {
    /// Description of the error.
    pub fn to_display_string(&self) -> (r: String)
        ensures
            r@ == launcher_error_text(*self),
    {
        match self {
            LauncherError::UnexpectedMessage(k, s) => {
                let mut out = String::from_str("the received message ");
                let kt = k.to_display_string();
                out.append(kt.as_str());
                out.append(" was not expected at the ");
                let st = match s {
                    LauncherStageName::Init => "INIT",
                    LauncherStageName::Launching => "LAUNCHING",
                    LauncherStageName::Deriving => "DERIVING",
                    LauncherStageName::Negotiating => "NEGOTIATING",
                    LauncherStageName::Committing => "COMMITTING",
                    LauncherStageName::Signing => "SIGNING",
                };
                out.append(st);
                out.append(" stage of the channel launch workflow");
                out
            }
            LauncherError::SignedTxidChanged { unsigned_txid, signed_txid } => {
                let mut out = String::from_str("transaction id changed after signing from ");
                let u = txid_text(unsigned_txid);
                out.append(u.as_str());
                out.append(" to ");
                let t = txid_text(signed_txid);
                out.append(t.as_str());
                out.append("; may be signd is hacked");
                out
            }
            LauncherError::Esb(d) => {
                let mut out = String::from_str("failure sending RPC request during state transition. Details: ");
                out.append(d.as_str());
                out
            }
            LauncherError::DaemonLaunch(d) => {
                let mut out = String::from_str("unable to launch channel daemon. Details: ");
                out.append(d.as_str());
                out
            }
            LauncherError::Funding(d) => d.clone(),
        }
    }

    /// The failure reported to the client for the error: code 6000 and the
    /// description.
    pub fn to_failure(&self) -> (r: ApiFailure)
        ensures
            r.code == 6000,
            r.info@ == launcher_error_text(*self),
    {
        ApiFailure { code: 6000, info: self.to_display_string() }
    }
}


/// A report as the client reads it.
pub enum ReportView {
    Progress(Seq<char>),
    Success(Seq<char>),
    Failure(u16, Seq<char>),
}

/// A report to the client that requested the channel.
#[derive(Clone, PartialEq, Eq, Debug)]
pub enum LauncherReport {
    Progress(String),
    Success(String),
    Failure(ApiFailure),
}

impl View for LauncherReport {
    type V = ReportView;

    open spec fn view(&self) -> ReportView {
        match self {
            LauncherReport::Progress(t) => ReportView::Progress(t@),
            LauncherReport::Success(t) => ReportView::Success(t@),
            LauncherReport::Failure(f) => ReportView::Failure(f.code, f.info@),
        }
    }
}

/// The report of an error ending the workflow.
pub open spec fn failure_view(e: LauncherError) -> ReportView {
    ReportView::Failure(6000, launcher_error_text(e))
}

/// Work the broker has to do for the workflow to go on.
#[derive(Clone, PartialEq, Eq, Debug)]
pub enum LauncherAction<K> {
    /// send `OpenChannelWith` to the channel daemon, built from the request,
    /// the channel parameters with the request's customisations applied and
    /// the keyset
    OpenChannel { request: CreateChannel, common: CommonParams, local: PeerParams, keyset: K },
    /// construct the funding transaction from the funding wallet, paying the
    /// amount to the output script `address`, and send `FundingConstructed`
    /// to the channel daemon
    ConstructFunding { temp_channel_id: [u8; 32], address: Vec<u8>, amount: u64, fee: u64 },
    /// send the funding transaction with the given id to the signer
    SignFunding { txid: [u8; 32] },
    /// publish the signed funding transaction
    Publish,
}

/// What follows the work.
#[derive(Copy, Clone, PartialEq, Eq, Hash, Debug)]
pub enum Pending {
    /// negotiating with the given temporary channel id, for the given client
    Negotiating([u8; 32], ClientId),
    /// committing, once the funding is constructed
    Committing([u8; 32], ClientId),
    /// signing by the channel with the given id the funding with the given id
    Signing([u8; 32], [u8; 32], ClientId),
    /// the workflow is done
    Done,
}

/// The decision of the workflow on a message, with the reports for the
/// client, in order.
#[derive(Clone, PartialEq, Eq, Debug)]
pub enum LauncherDecision<K> {
    /// the workflow moves to a new state
    Moved { reports: Vec<LauncherReport>, next: ChannelLauncher<K> },
    /// the workflow ends with an error
    Failed { reports: Vec<LauncherReport>, error: LauncherError },
    /// the broker has to do the work; `complete` decides on its outcome
    Work { reports: Vec<LauncherReport>, action: LauncherAction<K>, pending: Pending },
}

/// A decision as specified: reports by their view.
pub enum DecisionView<K> {
    Moved(Seq<ReportView>, ChannelLauncher<K>),
    Failed(Seq<ReportView>, LauncherError),
    Work(Seq<ReportView>, LauncherAction<K>, Pending),
}

/// Views of a list of reports.
pub open spec fn reports_view(v: Seq<LauncherReport>) -> Seq<ReportView> {
    v.map_values(|r: LauncherReport| r@)
}

impl<K> View for LauncherDecision<K> {
    type V = DecisionView<K>;

    open spec fn view(&self) -> DecisionView<K> {
        match self {
            LauncherDecision::Moved { reports, next } => DecisionView::Moved(reports_view(reports@), *next),
            LauncherDecision::Failed { reports, error } => DecisionView::Failed(reports_view(reports@), *error),
            LauncherDecision::Work { reports, action, pending } => DecisionView::Work(
                reports_view(reports@),
                *action,
                *pending,
            ),
        }
    }
}

/// Progress text once the channel daemon is up.
pub open spec fn launched_text(c: CreateChannel) -> Seq<char> {
    "Channel daemon connecting to remote peer "@ + node_addr_text(c.remote_peer) + " is launched"@
}

/// The decision that ends the workflow with an error.
pub open spec fn fail_with<K>(e: LauncherError) -> DecisionView<K> {
    DecisionView::Failed(seq![failure_view(e)], e)
}

/// The work of opening the channel.
pub open spec fn open_channel<K>(c: CreateChannel, common: CommonParams, local: PeerParams, k: K) -> LauncherAction<K> {
    LauncherAction::OpenChannel {
        request: c,
        common: applied_common(c, common),
        local: applied_local(c, local),
        keyset: k,
    }
}

/// Whether a state can act on a message from a source: a request to publish
/// the funding must come from a channel daemon.
pub open spec fn accepts_source<K>(l: ChannelLauncher<K>, msg: LauncherMsg<K>, source: ServiceId) -> bool {
    (l is Committing && msg is PublishFunding) ==> source is Channel
}

/// Decision of each state on a message from a source, with the node's
/// default channel parameters.
pub open spec fn next_spec<K>(
    l: ChannelLauncher<K>,
    msg: LauncherMsg<K>,
    source: ServiceId,
    common: CommonParams,
    local: PeerParams,
) -> DecisionView<K> {
    match l {
        ChannelLauncher::Init(t, c, e) => match msg {
            LauncherMsg::Hello => DecisionView::Moved(
                seq![ReportView::Progress(launched_text(c))],
                ChannelLauncher::Deriving(t, c, e),
            ),
            LauncherMsg::Keyset(k) => DecisionView::Moved(
                seq![ReportView::Progress("Key derivation complete"@)],
                ChannelLauncher::Launching(t, c, e, k),
            ),
            _ => fail_with(LauncherError::UnexpectedMessage(msg_kind(msg), LauncherStageName::Init)),
        },
        ChannelLauncher::Deriving(t, c, e) => match msg {
            LauncherMsg::Keyset(k) => DecisionView::Work(
                seq![ReportView::Progress("Key derivation complete"@)],
                open_channel(c, common, local, k),
                Pending::Negotiating(t, e),
            ),
            _ => fail_with(LauncherError::UnexpectedMessage(msg_kind(msg), LauncherStageName::Deriving)),
        },
        ChannelLauncher::Launching(t, c, e, k) => match msg {
            LauncherMsg::Hello => DecisionView::Work(
                seq![ReportView::Progress(launched_text(c))],
                open_channel(c, common, local, k),
                Pending::Negotiating(t, e),
            ),
            _ => fail_with(LauncherError::UnexpectedMessage(msg_kind(msg), LauncherStageName::Launching)),
        },
        ChannelLauncher::Negotiating(t, e) => match msg {
            LauncherMsg::ConstructFunding { amount, address, fee } => DecisionView::Work(
                seq![ReportView::Progress("Remote peer accepted the channel"@)],
                LauncherAction::ConstructFunding { temp_channel_id: t, address, amount, fee },
                Pending::Committing(t, e),
            ),
            _ => fail_with(LauncherError::UnexpectedMessage(msg_kind(msg), LauncherStageName::Negotiating)),
        },
        ChannelLauncher::Committing(_, txid, e) => match msg {
            LauncherMsg::PublishFunding => DecisionView::Work(
                Seq::empty(),
                LauncherAction::SignFunding { txid },
                Pending::Signing(source->Channel_0, txid, e),
            ),
            _ => fail_with(LauncherError::UnexpectedMessage(msg_kind(msg), LauncherStageName::Committing)),
        },
        ChannelLauncher::Signing(_, txid, _) => match msg {
            LauncherMsg::Signed { txid: signed } => if signed != txid {
                fail_with(LauncherError::SignedTxidChanged { unsigned_txid: txid, signed_txid: signed })
            } else {
                DecisionView::Work(
                    seq![ReportView::Progress("Funding transaction is signed, publishing to bitcoin network"@)],
                    LauncherAction::Publish,
                    Pending::Done,
                )
            },
            _ => fail_with(LauncherError::UnexpectedMessage(msg_kind(msg), LauncherStageName::Signing)),
        },
    }
}

/// The client to which the workflow reports.
pub open spec fn launcher_client<K>(l: ChannelLauncher<K>) -> ClientId {
    match l {
        ChannelLauncher::Init(_, _, e) => e,
        ChannelLauncher::Launching(_, _, e, _) => e,
        ChannelLauncher::Deriving(_, _, e) => e,
        ChannelLauncher::Negotiating(_, e) => e,
        ChannelLauncher::Committing(_, _, e) => e,
        ChannelLauncher::Signing(_, _, e) => e,
    }
}

/// The report of an error ending the workflow.
fn failure_report(e: &LauncherError) -> (r: LauncherReport)
    ensures
        r@ == failure_view(*e),
{
    LauncherReport::Failure(e.to_failure())
}

/// A decision ending the workflow with an error.
fn fail<K>(e: LauncherError) -> (r: LauncherDecision<K>)
    ensures
        r@ == fail_with::<K>(e),
{
    let report = failure_report(&e);
    let mut reports: Vec<LauncherReport> = Vec::new();
    reports.push(report);
    proof {
        assert(reports_view(reports@) =~= seq![failure_view(e)]);
    }
    LauncherDecision::Failed { reports, error: e }
}

/// A list of one progress report.
fn one_progress(text: String) -> (r: Vec<LauncherReport>)
    ensures
        reports_view(r@) == seq![ReportView::Progress(text@)],
{
    let mut reports: Vec<LauncherReport> = Vec::new();
    reports.push(LauncherReport::Progress(text));
    proof {
        assert(reports_view(reports@) =~= seq![ReportView::Progress(text@)]);
    }
    reports
}

/// Progress text once the channel daemon is up.
fn launched_report(c: &CreateChannel) -> (r: String)
    ensures
        r@ == launched_text(*c),
{
    let mut out = String::from_str("Channel daemon connecting to remote peer ");
    let t = c.remote_peer.to_display_string();
    out.append(t.as_str());
    out.append(" is launched");
    out
}

impl<K> ChannelLauncher<K> {
    /// The client to which the workflow reports.
    pub fn client(&self) -> (r: ClientId)
        ensures
            r == launcher_client(*self),
    {
        match self {
            ChannelLauncher::Init(_, _, e) => *e,
            ChannelLauncher::Launching(_, _, e, _) => *e,
            ChannelLauncher::Deriving(_, _, e) => *e,
            ChannelLauncher::Negotiating(_, e) => *e,
            ChannelLauncher::Committing(_, _, e) => *e,
            ChannelLauncher::Signing(_, _, e) => *e,
        }
    }

    /// Move state machine to a next step in response to the provided message
    /// from `source`, given the node's default channel parameters.
    pub fn next(self, msg: LauncherMsg<K>, source: &ServiceId, common: CommonParams, local: PeerParams) -> (r: LauncherDecision<K>)
        requires
            accepts_source(self, msg, *source),
        ensures
            r@ == next_spec(self, msg, *source, common, local),
    {
        let kind = msg.kind();
        match self {
            ChannelLauncher::Init(t, c, e) => match msg {
                LauncherMsg::Hello => {
                    let text = launched_report(&c);
                    LauncherDecision::Moved { reports: one_progress(text), next: ChannelLauncher::Deriving(t, c, e) }
                }
                LauncherMsg::Keyset(k) => LauncherDecision::Moved {
                    reports: one_progress(String::from_str("Key derivation complete")),
                    next: ChannelLauncher::Launching(t, c, e, k),
                },
                _ => fail(LauncherError::UnexpectedMessage(kind, LauncherStageName::Init)),
            },
            ChannelLauncher::Deriving(t, c, e) => match msg {
                LauncherMsg::Keyset(k) => {
                    let mut common = common;
                    let mut local = local;
                    c.apply_params(&mut common, &mut local);
                    LauncherDecision::Work {
                        reports: one_progress(String::from_str("Key derivation complete")),
                        action: LauncherAction::OpenChannel { request: c, common, local, keyset: k },
                        pending: Pending::Negotiating(t, e),
                    }
                }
                _ => fail(LauncherError::UnexpectedMessage(kind, LauncherStageName::Deriving)),
            },
            ChannelLauncher::Launching(t, c, e, k) => match msg {
                LauncherMsg::Hello => {
                    let text = launched_report(&c);
                    let mut common = common;
                    let mut local = local;
                    c.apply_params(&mut common, &mut local);
                    LauncherDecision::Work {
                        reports: one_progress(text),
                        action: LauncherAction::OpenChannel { request: c, common, local, keyset: k },
                        pending: Pending::Negotiating(t, e),
                    }
                }
                _ => fail(LauncherError::UnexpectedMessage(kind, LauncherStageName::Launching)),
            },
            ChannelLauncher::Negotiating(t, e) => match msg {
                LauncherMsg::ConstructFunding { amount, address, fee } => LauncherDecision::Work {
                    reports: one_progress(String::from_str("Remote peer accepted the channel")),
                    action: LauncherAction::ConstructFunding { temp_channel_id: t, address, amount, fee },
                    pending: Pending::Committing(t, e),
                },
                _ => fail(LauncherError::UnexpectedMessage(kind, LauncherStageName::Negotiating)),
            },
            ChannelLauncher::Committing(_, txid, e) => match msg {
                LauncherMsg::PublishFunding => {
                    let channel_id = match source {
                        ServiceId::Channel(id) => *id,
                        _ => {
                            proof { assert(false); }
                            [0u8; 32]
                        }
                    };
                    let reports: Vec<LauncherReport> = Vec::new();
                    proof {
                        assert(reports_view(reports@) =~= Seq::empty());
                    }
                    LauncherDecision::Work {
                        reports,
                        action: LauncherAction::SignFunding { txid },
                        pending: Pending::Signing(channel_id, txid, e),
                    }
                }
                _ => fail(LauncherError::UnexpectedMessage(kind, LauncherStageName::Committing)),
            },
            ChannelLauncher::Signing(_, txid, _) => match msg {
                LauncherMsg::Signed { txid: signed } => {
                    if !same_bytes32(&signed, &txid) {
                        fail(LauncherError::SignedTxidChanged { unsigned_txid: txid, signed_txid: signed })
                    } else {
                        LauncherDecision::Work {
                            reports: one_progress(String::from_str(
                                "Funding transaction is signed, publishing to bitcoin network",
                            )),
                            action: LauncherAction::Publish,
                            pending: Pending::Done,
                        }
                    }
                }
                _ => fail(LauncherError::UnexpectedMessage(kind, LauncherStageName::Signing)),
            },
        }
    }
}


/// Outcome of the work the broker did for the workflow.
#[derive(Clone, PartialEq, Eq, Debug)]
pub enum LauncherWork {
    /// the message was sent or the transaction published
    Sent,
    /// the funding transaction with the given id was constructed, its output
    /// `vout` funds the channel, and `FundingConstructed` was sent to the
    /// channel daemon
    Funded { txid: [u8; 32], vout: u32 },
    /// the work failed with the error
    Failed(LauncherError),
}

/// Whether a work outcome is one the pending step can have: constructing the
/// funding gives the funding, the other work is sent or published.
pub open spec fn work_fits(p: Pending, w: LauncherWork) -> bool {
    w is Failed || ((p is Committing) == (w is Funded))
}

/// The decision on the outcome of work, with the reports for the client.
#[derive(PartialEq, Eq, Debug)]
pub struct Completion<K> {
    pub reports: Vec<LauncherReport>,
    /// the next state, `None` once the workflow is done, or the error ending
    /// it
    pub result: Result<Option<ChannelLauncher<K>>, LauncherError>,
    /// the channel id for the broker to record, once: the temporary id and the
    /// permanent one replacing it
    pub id_update: Option<([u8; 32], [u8; 32])>,
}

/// The permanent id of a channel funded by output `index` of the transaction
/// `txid` (BOLT-2): the transaction id with the index, big-endian, XORed into
/// its last two bytes.
pub open spec fn channel_id_bytes(txid: Seq<u8>, index: u16) -> Seq<u8> {
    txid.update(30, txid[30] ^ ((index >> 8u16) as u8)).update(31, txid[31] ^ (index as u8))
}

/// The permanent id of a channel funded by output `index` of the transaction
/// `txid`.
pub fn channel_id_with(txid: &[u8; 32], index: u16) -> (r: [u8; 32])
    ensures
        r@ == channel_id_bytes(txid@, index),
{
    let mut id = *txid;
    let hi: u8 = (index >> 8u16) as u8;
    let lo: u8 = index as u8;
    id[30] = id[30] ^ hi;
    id[31] = id[31] ^ lo;
    proof {
        assert(id@ =~= channel_id_bytes(txid@, index));
    }
    id
}

/// The id update a work outcome asks the broker to record: the temporary id
/// and the permanent one derived from the funding output, once the funding
/// is constructed; none otherwise.
pub open spec fn id_update_spec(p: Pending, w: LauncherWork) -> Option<(Seq<u8>, Seq<u8>)> {
    match (p, w) {
        (Pending::Committing(t, _), LauncherWork::Funded { txid, vout }) => Some((t@, channel_id_bytes(txid@, vout as u16))),
        _ => None,
    }
}

/// Progress text once the funding is constructed.
pub open spec fn funding_text(txid: [u8; 32], vout: u32) -> Seq<char> {
    "Constructed funding transaction with funding outpoint is "@ + txid_hex(txid) + ":"@
        + dec_chars(vout as nat)
}

/// Progress text once the channel id is permanent.
pub open spec fn id_change_text(temp: [u8; 32], permanent: Seq<u8>) -> Seq<char> {
    "Channel changed id from temporary "@ + lower_hex(temp@) + " to permanent "@ + lower_hex(permanent)
}

/// Decision on the outcome of the work of a pending step: the reports and the
/// result.
pub open spec fn complete_spec<K>(p: Pending, w: LauncherWork) -> (Seq<ReportView>, Result<Option<ChannelLauncher<K>>, LauncherError>) {
    match w {
        LauncherWork::Failed(e) => match p {
            Pending::Done => (Seq::empty(), Err(e)),
            _ => (seq![failure_view(e)], Err(e)),
        },
        LauncherWork::Sent => match p {
            Pending::Negotiating(t, e) => (Seq::empty(), Ok(Some(ChannelLauncher::Negotiating(t, e)))),
            Pending::Signing(c, txid, e) => (
                seq![ReportView::Progress("Signing funding transaction "@ + txid_hex(txid))],
                Ok(Some(ChannelLauncher::Signing(c, txid, e))),
            ),
            _ => (seq![ReportView::Success("Channel created and active"@)], Ok(None)),
        },
        LauncherWork::Funded { txid, vout } => match p {
            Pending::Committing(t, e) => (
                seq![
                    ReportView::Progress(funding_text(txid, vout)),
                    ReportView::Progress(id_change_text(t, channel_id_bytes(txid@, vout as u16))),
                ],
                Ok(Some(ChannelLauncher::Committing(t, txid, e))),
            ),
            _ => (Seq::empty(), Ok(None)),
        },
    }
}

/// Decides on the outcome of the work of a pending step.
pub fn complete<K>(pending: Pending, work: LauncherWork) -> (r: Completion<K>)
    requires
        work_fits(pending, work),
    ensures
        (reports_view(r.reports@), r.result) == complete_spec::<K>(pending, work),
        match r.id_update {
            Some((t, c)) => id_update_spec(pending, work) == Some((t@, c@)),
            None => id_update_spec(pending, work) is None,
        },
{
    match work {
        LauncherWork::Failed(err) => match pending {
            Pending::Done => {
                let reports: Vec<LauncherReport> = Vec::new();
                proof {
                    assert(reports_view(reports@) =~= Seq::empty());
                }
                Completion { reports, result: Err(err), id_update: None }
            }
            _ => {
                let report = failure_report(&err);
                let mut reports: Vec<LauncherReport> = Vec::new();
                reports.push(report);
                proof {
                    assert(reports_view(reports@) =~= seq![failure_view(err)]);
                }
                Completion { reports, result: Err(err), id_update: None }
            }
        },
        LauncherWork::Sent => match pending {
            Pending::Negotiating(t, e) => {
                let reports: Vec<LauncherReport> = Vec::new();
                proof {
                    assert(reports_view(reports@) =~= Seq::empty());
                }
                Completion { reports, result: Ok(Some(ChannelLauncher::Negotiating(t, e))), id_update: None }
            }
            Pending::Signing(c, txid, e) => {
                let mut text = String::from_str("Signing funding transaction ");
                let t = txid_text(&txid);
                text.append(t.as_str());
                Completion {
                    reports: one_progress(text),
                    result: Ok(Some(ChannelLauncher::Signing(c, txid, e))),
                    id_update: None,
                }
            }
            _ => {
                let mut reports: Vec<LauncherReport> = Vec::new();
                reports.push(LauncherReport::Success(String::from_str("Channel created and active")));
                proof {
                    assert(reports_view(reports@) =~= seq![ReportView::Success("Channel created and active"@)]);
                }
                Completion { reports, result: Ok(None), id_update: None }
            }
        },
        LauncherWork::Funded { txid, vout } => {
            let (t, e) = match pending {
                Pending::Committing(t, e) => (t, e),
                _ => {
                    proof { assert(false); }
                    return Completion { reports: Vec::new(), result: Ok(None), id_update: None };
                }
            };
            let channel_id = channel_id_with(&txid, vout as u16);
            let mut first = String::from_str("Constructed funding transaction with funding outpoint is ");
            let tt = txid_text(&txid);
            first.append(tt.as_str());
            first.append(":");
            push_decimal(&mut first, vout as u64);
            let mut second = String::from_str("Channel changed id from temporary ");
            let th = to_hex(&t);
            second.append(th.as_str());
            second.append(" to permanent ");
            let ch = to_hex(&channel_id);
            second.append(ch.as_str());
            let mut reports: Vec<LauncherReport> = Vec::new();
            reports.push(LauncherReport::Progress(first));
            reports.push(LauncherReport::Progress(second));
            proof {
                assert(reports_view(reports@) =~= seq![
                    ReportView::Progress(funding_text(txid, vout)),
                    ReportView::Progress(id_change_text(t, channel_id@)),
                ]);
            }
            Completion {
                reports,
                result: Ok(Some(ChannelLauncher::Committing(t, txid, e))),
                id_update: Some((t, channel_id)),
            }
        }
    }
}

/// Report on an outcome that is either a progress text or an error, and the
/// outcome without its text.
pub fn progress_or_failure(result: Result<String, LauncherError>) -> (r: (LauncherReport, Result<(), LauncherError>))
    ensures
        match result {
            Ok(text) => r.0@ == ReportView::Progress(text@) && r.1 is Ok,
            Err(e) => r.0@ == failure_view(e) && r.1 == Err::<(), LauncherError>(e),
        },
{
    match result {
        Ok(text) => (LauncherReport::Progress(text), Ok(())),
        Err(e) => (failure_report(&e), Err(e)),
    }
}

/// Report on launching the channel daemon, given the text of its handle or
/// the description of the launch failure.
pub fn launch_report(launched: Result<String, String>) -> (r: (LauncherReport, Result<(), LauncherError>))
    ensures
        match launched {
            Ok(handle) => r.0@ == ReportView::Progress("Launched new instance of "@ + handle@) && r.1 is Ok,
            Err(d) => r.0@ == failure_view(LauncherError::DaemonLaunch(d))
                && r.1 == Err::<(), LauncherError>(LauncherError::DaemonLaunch(d)),
        },
{
    match launched {
        Ok(handle) => {
            let mut text = String::from_str("Launched new instance of ");
            text.append(handle.as_str());
            progress_or_failure(Ok(text))
        }
        Err(d) => progress_or_failure(Err(LauncherError::DaemonLaunch(d))),
    }
}

/// Report on asking the signer for the channel keyset, given the description
/// of the failure to send the request, if any.
pub fn derivation_report(sent: Result<(), String>) -> (r: (LauncherReport, Result<(), LauncherError>))
    ensures
        match sent {
            Ok(()) => r.0@ == ReportView::Progress("Deriving basepoint keys for the channel"@) && r.1 is Ok,
            Err(d) => r.0@ == failure_view(LauncherError::Esb(d))
                && r.1 == Err::<(), LauncherError>(LauncherError::Esb(d)),
        },
{
    match sent {
        Ok(()) => progress_or_failure(Ok(String::from_str("Deriving basepoint keys for the channel"))),
        Err(d) => progress_or_failure(Err(LauncherError::Esb(d))),
    }
}

impl<K> ChannelLauncher<K> {
    /// A random temporary channel id for a new workflow.
    pub fn temp_channel_id() -> (r: [u8; 32]) {
        crate::hex::random_bytes32()
    }

    /// Constructs channel launcher state machine, once the channel daemon is
    /// launched and the keyset requested: it awaits both.
    pub fn with(temp_channel_id: [u8; 32], create_channel: CreateChannel, enquirer: ClientId) -> (r: ChannelLauncher<K>)
        ensures
            r == ChannelLauncher::<K>::Init(temp_channel_id, create_channel, enquirer),
    {
        ChannelLauncher::Init(temp_channel_id, create_channel, enquirer)
    }
}

/// Position of each state in the workflow.
pub open spec fn launcher_rank<K>(l: ChannelLauncher<K>) -> nat {
    match l {
        ChannelLauncher::Init(..) => 0,
        ChannelLauncher::Launching(..) => 1,
        ChannelLauncher::Deriving(..) => 1,
        ChannelLauncher::Negotiating(..) => 2,
        ChannelLauncher::Committing(..) => 3,
        ChannelLauncher::Signing(..) => 4,
    }
}

/// Position of the state that follows pending work.
pub open spec fn pending_rank(p: Pending) -> nat {
    match p {
        Pending::Negotiating(..) => 2,
        Pending::Committing(..) => 3,
        Pending::Signing(..) => 4,
        Pending::Done => 5,
    }
}

/// Every message either ends the workflow with an error, reported to the
/// client as its last report with code 6000, or moves it strictly forward;
/// the client stays the same, and the channel id stays the temporary one
/// until the funding is signed.
pub proof fn law_launcher_progress<K>(
    l: ChannelLauncher<K>,
    msg: LauncherMsg<K>,
    source: ServiceId,
    common: CommonParams,
    local: PeerParams,
)
    requires
        accepts_source(l, msg, source),
    ensures
        match next_spec(l, msg, source, common, local) {
            DecisionView::Moved(_, n) => launcher_rank(l) < launcher_rank(n)
                && launcher_client(n) == launcher_client(l)
                && launcher_channel_id(n) == launcher_channel_id(l),
            DecisionView::Work(_, _, p) => launcher_rank(l) < pending_rank(p) && match p {
                Pending::Negotiating(t, e) => e == launcher_client(l) && t == launcher_channel_id(l),
                Pending::Committing(t, e) => e == launcher_client(l) && t == launcher_channel_id(l),
                Pending::Signing(_, _, e) => e == launcher_client(l),
                Pending::Done => true,
            },
            DecisionView::Failed(reports, e) => reports.len() > 0 && reports.last() == failure_view(e),
        },
{
}

/// Failed work ends the workflow with its error, reported to the client
/// except when publishing; work that succeeded moves to the pending state;
/// only a constructed funding gives a channel id for the broker to record.
pub proof fn law_work_outcome<K>(p: Pending, w: LauncherWork)
    requires
        work_fits(p, w),
    ensures
        match w {
            LauncherWork::Failed(e) => complete_spec::<K>(p, w).1 == Err::<Option<ChannelLauncher<K>>, LauncherError>(e)
                && (p != Pending::Done ==> complete_spec::<K>(p, w).0 == seq![failure_view(e)]),
            _ => complete_spec::<K>(p, w).1 is Ok && (complete_spec::<K>(p, w).1->Ok_0 is None <==> p == Pending::Done),
        },
        id_update_spec(p, w) is Some <==> (p is Committing && w is Funded),
{
}

/// A message the workflow does not expect is rejected naming the current
/// stage and the message's kind.
pub proof fn law_rejection_names_current_stage<K>(
    l: ChannelLauncher<K>,
    msg: LauncherMsg<K>,
    source: ServiceId,
    common: CommonParams,
    local: PeerParams,
)
    requires
        accepts_source(l, msg, source),
    ensures
        next_spec(l, msg, source, common, local) matches DecisionView::Failed(_, LauncherError::UnexpectedMessage(k, st))
            ==> k == msg_kind(msg) && stage_text(st) == launcher_name(l),
{
}

/// The documented workflow: `Init` goes to `Deriving` or `Launching`, both
/// go to `Negotiating`, then `Committing`, then `Signing`, which ends it.
pub open spec fn workflow_step<K>(from: ChannelLauncher<K>, to: Option<ChannelLauncher<K>>) -> bool {
    match from {
        ChannelLauncher::Init(..) => to matches Some(n) && (n is Deriving || n is Launching),
        ChannelLauncher::Deriving(..) => to matches Some(n) && n is Negotiating,
        ChannelLauncher::Launching(..) => to matches Some(n) && n is Negotiating,
        ChannelLauncher::Negotiating(..) => to matches Some(n) && n is Committing,
        ChannelLauncher::Committing(..) => to matches Some(n) && n is Signing,
        ChannelLauncher::Signing(..) => to is None,
    }
}

/// Every state the workflow reaches from a state, by a message directly or
/// through the work it asks for once that work succeeded, is the state's
/// successor in the documented workflow, and reports to the same client. In
/// `Init`, a `Hello` leads to `Deriving` and a keyset to `Launching`.
pub proof fn law_launcher_workflow<K>(
    l: ChannelLauncher<K>,
    msg: LauncherMsg<K>,
    source: ServiceId,
    common: CommonParams,
    local: PeerParams,
    work: LauncherWork,
)
    requires
        accepts_source(l, msg, source),
    ensures
        match next_spec(l, msg, source, common, local) {
            DecisionView::Moved(_, n) => {
                &&& workflow_step(l, Some(n))
                &&& launcher_client(n) == launcher_client(l)
                &&& l is Init ==> (msg is Hello <==> n is Deriving) && (msg is Keyset <==> n is Launching)
            },
            DecisionView::Work(_, _, p) => work_fits(p, work) ==> match complete_spec::<K>(p, work).1 {
                Ok(n) => {
                    &&& workflow_step(l, n)
                    &&& n matches Some(s) ==> launcher_client(s) == launcher_client(l)
                },
                Err(_) => true,
            },
            DecisionView::Failed(..) => true,
        },
{
}

/// The channel daemon is always asked to open the channel the client
/// requested, with the node's default parameters customised by that request
/// (each parameter the request gives replaces the default, the others
/// stay), and with the keyset the signer derived: whether the keyset came
/// before the daemon's `Hello` or after it.
pub proof fn law_open_channel_uses_request<K>(
    l: ChannelLauncher<K>,
    msg: LauncherMsg<K>,
    source: ServiceId,
    common: CommonParams,
    local: PeerParams,
)
    requires
        accepts_source(l, msg, source),
    ensures
        next_spec(l, msg, source, common, local) matches DecisionView::Work(
            _,
            LauncherAction::OpenChannel { request, common: c2, local: p2, keyset },
            _,
        ) ==> {
            &&& customised(request, common, local, c2, p2)
            &&& l matches ChannelLauncher::Deriving(_, c, _) ==> request == c && msg == LauncherMsg::Keyset(keyset)
            &&& l matches ChannelLauncher::Launching(_, c, _, k) ==> request == c && keyset == k && msg == LauncherMsg::<K>::Hello
            &&& l is Deriving || l is Launching
        },
{
    match l {
        ChannelLauncher::Deriving(_, c, _) => {
            crate::rpc::law_apply_params_fields(c, common, local);
        },
        ChannelLauncher::Launching(_, c, _, _) => {
            crate::rpc::law_apply_params_fields(c, common, local);
        },
        _ => {},
    }
}

/// The work the broker is asked for follows from the message and the state:
/// the funding is constructed, while negotiating, for the amount, output
/// script and fee the channel daemon asked, under the temporary channel id;
/// the funding transaction recorded when committing is the one sent for
/// signing, for the channel daemon that asked to publish; and the funding is
/// published only when the signer signed that very transaction; a signed
/// transaction with another id ends the workflow, naming both ids.
pub proof fn law_launcher_work_follows_messages<K>(
    l: ChannelLauncher<K>,
    msg: LauncherMsg<K>,
    source: ServiceId,
    common: CommonParams,
    local: PeerParams,
)
    requires
        accepts_source(l, msg, source),
    ensures
        next_spec(l, msg, source, common, local) matches DecisionView::Work(
            _,
            LauncherAction::ConstructFunding { temp_channel_id, address, amount, fee },
            p,
        ) ==> {
            &&& l is Negotiating
            &&& msg == LauncherMsg::<K>::ConstructFunding { amount, address, fee }
            &&& temp_channel_id == launcher_channel_id(l)
            &&& p == Pending::Committing(temp_channel_id, launcher_client(l))
        },
        next_spec(l, msg, source, common, local) matches DecisionView::Work(_, LauncherAction::SignFunding { txid }, p) ==> {
            &&& l matches ChannelLauncher::Committing(_, t, _) && t == txid
            &&& msg == LauncherMsg::<K>::PublishFunding
            &&& source matches ServiceId::Channel(c) && p == Pending::Signing(c, txid, launcher_client(l))
        },
        next_spec(l, msg, source, common, local) matches DecisionView::Work(_, LauncherAction::Publish, p) ==> {
            &&& l matches ChannelLauncher::Signing(_, t, _) && msg == LauncherMsg::<K>::Signed { txid: t }
            &&& p == Pending::Done
        },
        l matches ChannelLauncher::Signing(_, t, _) ==> (msg matches LauncherMsg::Signed { txid: s } ==> (s != t ==> (
            next_spec(l, msg, source, common, local) matches DecisionView::Failed(_, e)
                && e == LauncherError::SignedTxidChanged { unsigned_txid: t, signed_txid: s }))),
{
}

/// Work that succeeded moves to the state it was done for, keeping what the
/// workflow knew: the temporary id and client after sending the open
/// request; the constructed funding transaction after constructing it,
/// together with the permanent channel id, which is that transaction's id
/// with the funding output's index (big-endian, 16 bits) XORed into its last
/// two bytes (BOLT-2); the signing channel and transaction after sending it
/// for signing. Publishing ends the workflow with the channel active.
pub proof fn law_work_outcome_keeps_data<K>(p: Pending, w: LauncherWork)
    requires
        work_fits(p, w),
    ensures
        p matches Pending::Negotiating(t, e) ==> w == LauncherWork::Sent
            ==> complete_spec::<K>(p, w).1 == Ok::<Option<ChannelLauncher<K>>, LauncherError>(Some(ChannelLauncher::Negotiating(t, e))),
        p matches Pending::Committing(t, e) ==> (w matches LauncherWork::Funded { txid, vout } ==> {
            &&& complete_spec::<K>(p, w).1 == Ok::<Option<ChannelLauncher<K>>, LauncherError>(Some(ChannelLauncher::Committing(t, txid, e)))
            &&& id_update_spec(p, w) matches Some((temp, id)) && temp == t@ && id.len() == 32
                && (forall|k: int| 0 <= k < 30 ==> id[k] == txid@[k])
                && id[30] == txid@[30] ^ (((vout as u16) >> 8u16) as u8)
                && id[31] == txid@[31] ^ ((vout as u16) as u8)
        }),
        p matches Pending::Signing(c, txid, e) ==> w == LauncherWork::Sent
            ==> complete_spec::<K>(p, w).1 == Ok::<Option<ChannelLauncher<K>>, LauncherError>(Some(ChannelLauncher::Signing(c, txid, e))),
        (p == Pending::Done && w == LauncherWork::Sent) ==> {
            &&& complete_spec::<K>(p, w).1 == Ok::<Option<ChannelLauncher<K>>, LauncherError>(None)
            &&& complete_spec::<K>(p, w).0 == seq![ReportView::Success("Channel created and active"@)]
        },
{
}

} // verus!
