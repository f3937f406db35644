//! Client side of the RPC API: the queue of responses received from the node
//! and what the command-line client does with each report of a workflow.
use vstd::prelude::*;
use crate::rpc::{Failure, OptionDetails, RpcMsg};

verus! {

/// Responses received from the node and not yet read. The most recently
/// received response is read first.
#[derive(Clone, PartialEq, Eq, Debug)]
pub struct ResponseQueue {
    queue: Vec<RpcMsg>,
}

impl View for ResponseQueue {
    type V = Seq<RpcMsg>;

    closed spec fn view(&self) -> Seq<RpcMsg> {
        self.queue@
    }
}

impl ResponseQueue {
    /// An empty queue.
    pub fn new() -> (r: ResponseQueue)
        ensures
            r@ == Seq::<RpcMsg>::empty(),
    {
        ResponseQueue { queue: Vec::new() }
    }

    /// Whether the queue must be filled from the bus before a response can be
    /// read.
    pub fn needs_poll(&self) -> (r: bool)
        ensures
            r == (self@.len() == 0),
    {
        self.queue.len() == 0
    }

    /// Appends the responses received in one poll of the bus, in the order
    /// received.
    pub fn fill(&mut self, received: Vec<RpcMsg>)
        ensures
            final(self)@ == old(self)@ + received@,
    {
        let mut received = received;
        self.queue.append(&mut received);
    }

    /// Reads the most recently received response, if any.
    pub fn next(&mut self) -> (r: Option<RpcMsg>)
        ensures
            old(self)@.len() == 0 ==> r is None && final(self)@ == old(self)@,
            old(self)@.len() > 0 ==> r == Some(old(self)@.last()) && final(self)@ == old(self)@.drop_last(),
    {
        self.queue.pop()
    }
}

/// Filling the queue and reading a response gives back the last response
/// received, and the others stay queued in order.
pub proof fn law_queue_reads_last(q: Seq<RpcMsg>, received: Seq<RpcMsg>)
    requires
        received.len() > 0,
    ensures
        (q + received).last() == received.last(),
        (q + received).drop_last() == q + received.drop_last(),
{
    assert((q + received).drop_last() =~= q + received.drop_last());
}

/// What the client does with a report of a workflow it follows.
#[derive(Clone, PartialEq, Eq, Debug)]
pub enum ProgressStep {
    /// print the line and wait for the next report
    Continue(String),
    /// print the line: the workflow succeeded
    Finish(String),
    /// the workflow failed with the failure
    Fail(Failure),
    /// the node sent a message that is no report
    Unexpected,
}

/// The decision of the client on a report of a workflow it follows.
pub fn progress_step(msg: RpcMsg) -> (r: ProgressStep)
    ensures
        match msg {
            RpcMsg::Progress(info) => r matches ProgressStep::Continue(line) && line@ == info@,
            RpcMsg::Success(OptionDetails(Some(info))) => r matches ProgressStep::Finish(line)
                && line@ == "Success: "@ + info@,
            RpcMsg::Success(OptionDetails(None)) => r matches ProgressStep::Finish(line) && line@ == "Success"@,
            RpcMsg::Failure(f) => r == ProgressStep::Fail(f),
            _ => r == ProgressStep::Unexpected,
        },
{
    match msg {
        RpcMsg::Progress(info) => ProgressStep::Continue(info),
        RpcMsg::Success(OptionDetails(Some(info))) => {
            let mut line = String::from_str("Success: ");
            line.append(info.as_str());
            ProgressStep::Finish(line)
        }
        RpcMsg::Success(OptionDetails(None)) => ProgressStep::Finish(String::from_str("Success")),
        RpcMsg::Failure(f) => ProgressStep::Fail(f),
        _ => ProgressStep::Unexpected,
    }
}

/// A response that is a failure is reported as such; any other is passed on.
pub fn check_failure(msg: RpcMsg) -> (r: Result<RpcMsg, Failure>)
    ensures
        match msg {
            RpcMsg::Failure(f) => r == Err::<RpcMsg, Failure>(f),
            _ => r == Ok::<RpcMsg, Failure>(msg),
        },
{
    match msg {
        RpcMsg::Failure(f) => Err(f),
        other => Ok(other),
    }
}


/// Text of the error of an answer to an information request that carries
/// no information.
pub open spec fn unrecognizable_text() -> Seq<char> {
    "Server returned unrecognizable response"@
}

/// The answer to an information request: the node, peer or channel
/// information, to be printed; any other answer is an unrecognizable
/// response.
pub fn check_info_answer(msg: RpcMsg) -> (r: Result<String, String>)
    ensures
        match msg {
            RpcMsg::NodeInfo(t) => r == Ok::<String, String>(t),
            RpcMsg::PeerInfo(t) => r == Ok::<String, String>(t),
            RpcMsg::ChannelInfo(t) => r == Ok::<String, String>(t),
            _ => r matches Err(e) && e@ == unrecognizable_text(),
        },
{
    match msg {
        RpcMsg::NodeInfo(t) => Ok(t),
        RpcMsg::PeerInfo(t) => Ok(t),
        RpcMsg::ChannelInfo(t) => Ok(t),
        _ => Err(String::from_str("Server returned unrecognizable response")),
    }
}


/// A client following the reports of a workflow: the number of reports read
/// so far.
#[derive(Copy, Clone, PartialEq, Eq, Structural, Debug, Hash, Default)]
pub struct ProgressFollower {
    pub count: usize,
}

impl ProgressFollower {
    /// Reads one more report and decides on it (`progress_step`); the count
    /// of reports read goes up by one. The client reads on after a
    /// `Continue`, and ends with the count after a `Finish`.
    pub fn read(&mut self, msg: RpcMsg) -> (r: ProgressStep)
        requires
            old(self).count < usize::MAX,
        ensures
            final(self).count == old(self).count + 1,
            match msg {
                RpcMsg::Progress(info) => r matches ProgressStep::Continue(line) && line@ == info@,
                RpcMsg::Success(OptionDetails(Some(info))) => r matches ProgressStep::Finish(line)
                    && line@ == "Success: "@ + info@,
                RpcMsg::Success(OptionDetails(None)) => r matches ProgressStep::Finish(line) && line@ == "Success"@,
                RpcMsg::Failure(f) => r == ProgressStep::Fail(f),
                _ => r == ProgressStep::Unexpected,
            },
    {
        self.count = self.count + 1;
        progress_step(msg)
    }
}

/// Whether a message ends the reading of reports: a failure, or a message
/// that is no report at all.
pub open spec fn stops_reading(m: RpcMsg) -> bool {
    !(m is Progress || m is Success)
}

/// The line printed for a progress or success report.
pub open spec fn report_line(m: RpcMsg) -> Seq<char> {
    match m {
        RpcMsg::Progress(info) => info@,
        RpcMsg::Success(OptionDetails(Some(info))) => "Success: "@ + info@,
        RpcMsg::Success(OptionDetails(None)) => "Success"@,
        _ => Seq::empty(),
    }
}

/// `k` is the position of the first message of `batch` that ends the reading.
pub open spec fn first_stop(batch: Seq<RpcMsg>, k: int) -> bool {
    &&& 0 <= k < batch.len()
    &&& stops_reading(batch[k])
    &&& forall|j: int| 0 <= j < k ==> !stops_reading(#[trigger] batch[j])
}

/// No message of `batch` ends the reading.
pub open spec fn reads_through(batch: Seq<RpcMsg>) -> bool {
    forall|j: int| 0 <= j < batch.len() ==> !stops_reading(#[trigger] batch[j])
}

/// Some message of `batch` is a progress report.
pub open spec fn has_progress(batch: Seq<RpcMsg>) -> bool {
    exists|j: int| 0 <= j < batch.len() && (#[trigger] batch[j]) is Progress
}

/// Text of the error on a message that is no report.
pub open spec fn unexpected_text() -> Seq<char> {
    "Unexpected server response"@
}

/// What the command-line tool does after a batch of reports.
#[derive(Clone, PartialEq, Eq, Debug)]
pub enum BatchVerdict {
    /// some report was a progress report: read the next batch
    Continue,
    /// the workflow ended; the number of reports read in all batches
    Done(usize),
    /// a report was a failure
    Fail(Failure),
    /// a message was no report; the error text
    Unexpected(String),
}

/// The lines printed for the reports of a batch, and the verdict on it.
#[derive(Clone, PartialEq, Eq, Debug)]
pub struct BatchReport {
    pub lines: Vec<String>,
    pub verdict: BatchVerdict,
}

impl ProgressFollower {
    /// Reads a batch of reports received in one poll, in order, counting
    /// each message read. A failure, or a message that is no report, ends
    /// the reading at once; otherwise the reading goes on with the next
    /// batch while the batch held a progress report, and ends with the
    /// count when it held none.
    pub fn read_batch(&mut self, batch: &Vec<RpcMsg>) -> (r: BatchReport)
        requires
            old(self).count + batch@.len() <= usize::MAX,
        ensures
            reads_through(batch@) ==> {
                &&& final(self).count == old(self).count + batch@.len()
                &&& r.lines@.len() == batch@.len()
                &&& forall|j: int| 0 <= j < batch@.len() ==> (#[trigger] r.lines@[j])@ == report_line(batch@[j])
                &&& r.verdict == if has_progress(batch@) {
                    BatchVerdict::Continue
                } else {
                    BatchVerdict::Done(final(self).count)
                }
            },
            forall|k: int| #[trigger] first_stop(batch@, k) ==> {
                &&& final(self).count == old(self).count + k + 1
                &&& r.lines@.len() == k
                &&& forall|j: int| 0 <= j < k ==> (#[trigger] r.lines@[j])@ == report_line(batch@[j])
                &&& match batch@[k] {
                    RpcMsg::Failure(f) => r.verdict == BatchVerdict::Fail(f),
                    _ => r.verdict matches BatchVerdict::Unexpected(e) && e@ == unexpected_text(),
                }
            },
    {
        let ghost all = batch@;
        let mut lines: Vec<String> = Vec::new();
        let mut progressed = false;
        let mut i: usize = 0;
        while i < batch.len()
            invariant
                batch@ == all,
                i <= all.len(),
                self.count == old(self).count + i,
                old(self).count + all.len() <= usize::MAX,
                lines@.len() == i,
                forall|j: int| 0 <= j < i ==> (#[trigger] lines@[j])@ == report_line(all[j]),
                forall|j: int| 0 <= j < i ==> !stops_reading(#[trigger] all[j]),
                progressed == exists|j: int| 0 <= j < i && (#[trigger] all[j]) is Progress,
            decreases all.len() - i,
        {
            self.count = self.count + 1;
            let stop = match &batch[i] {
                RpcMsg::Progress(_) => false,
                RpcMsg::Success(_) => false,
                _ => true,
            };
            if stop {
                proof {
                    assert(stops_reading(all[i as int]));
                    assert(!reads_through(all));
                    assert(first_stop(all, i as int));
                    assert forall|k: int| #[trigger] first_stop(all, k) implies k == i by {
                        if k < i {
                            assert(!stops_reading(all[k]));
                        }
                        if k > i {
                            assert(!stops_reading(all[i as int]));
                        }
                    }
                }
                let verdict = match &batch[i] {
                    RpcMsg::Failure(f) => BatchVerdict::Fail(Failure { code: f.code, info: f.info.clone() }),
                    _ => BatchVerdict::Unexpected(String::from_str("Unexpected server response")),
                };
                return BatchReport { lines, verdict };
            }
            let line = match &batch[i] {
                RpcMsg::Progress(info) => {
                    progressed = true;
                    info.clone()
                }
                RpcMsg::Success(OptionDetails(Some(info))) => {
                    let mut l = String::from_str("Success: ");
                    l.append(info.as_str());
                    l
                }
                _ => String::from_str("Success"),
            };
            lines.push(line);
            proof {
                assert(lines@[i as int] == line);
                assert(progressed == exists|j: int| 0 <= j < i + 1 && (#[trigger] all[j]) is Progress);
            }
            i = i + 1;
        }
        proof {
            assert forall|k: int| !#[trigger] first_stop(all, k) by {
                if 0 <= k < all.len() {
                    assert(!stops_reading(all[k]));
                }
            }
        }
        let verdict = if progressed { BatchVerdict::Continue } else { BatchVerdict::Done(self.count) };
        BatchReport { lines, verdict }
    }
}

} // verus!
