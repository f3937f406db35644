use lnp_node::client::{check_failure, progress_step, ProgressStep, ResponseQueue};
use lnp_node::rpc::{Failure, FailureCode, OptionDetails, RpcMsg};

#[test]
fn queue_reads_latest_first() {
    let mut q = ResponseQueue::new();
    assert!(q.needs_poll());
    assert_eq!(q.next(), None);
    q.fill(vec![RpcMsg::Progress("a".to_string()), RpcMsg::Progress("b".to_string())]);
    assert!(!q.needs_poll());
    assert_eq!(q.next(), Some(RpcMsg::Progress("b".to_string())));
    assert_eq!(q.next(), Some(RpcMsg::Progress("a".to_string())));
    assert_eq!(q.next(), None);
}

#[test]
fn progress_steps() {
    assert_eq!(progress_step(RpcMsg::Progress("x".to_string())), ProgressStep::Continue("x".to_string()));
    assert_eq!(
        progress_step(RpcMsg::Success(OptionDetails(Some("done".to_string())))),
        ProgressStep::Finish("Success: done".to_string())
    );
    assert_eq!(progress_step(RpcMsg::Success(OptionDetails(None))), ProgressStep::Finish("Success".to_string()));
    let f = Failure { code: FailureCode::Channel, info: "no".to_string() };
    assert_eq!(progress_step(RpcMsg::Failure(f.clone())), ProgressStep::Fail(f));
    assert_eq!(progress_step(RpcMsg::ListPeers), ProgressStep::Unexpected);
}

#[test]
fn failures_are_separated() {
    let f = Failure { code: FailureCode::Lnpd, info: "bad".to_string() };
    assert_eq!(check_failure(RpcMsg::Failure(f.clone())), Err(f));
    assert_eq!(check_failure(RpcMsg::GetInfo), Ok(RpcMsg::GetInfo));
}

use lnp_node::client::{check_info_answer, ProgressFollower};

#[test]
fn info_answers() {
    assert_eq!(check_info_answer(RpcMsg::NodeInfo("n".to_string())), Ok("n".to_string()));
    assert_eq!(check_info_answer(RpcMsg::PeerInfo("p".to_string())), Ok("p".to_string()));
    assert_eq!(check_info_answer(RpcMsg::ChannelInfo("c".to_string())), Ok("c".to_string()));
    assert_eq!(check_info_answer(RpcMsg::ListPeers), Err("Server returned unrecognizable response".to_string()));
}

#[test]
fn follower_counts_reports() {
    let mut f = ProgressFollower::default();
    assert_eq!(f.read(RpcMsg::Progress("a".to_string())), ProgressStep::Continue("a".to_string()));
    assert_eq!(f.read(RpcMsg::Success(OptionDetails(None))), ProgressStep::Finish("Success".to_string()));
    assert_eq!(f.count, 2);
}

use lnp_node::client::{BatchReport, BatchVerdict};

#[test]
fn batch_with_progress_continues() {
    let mut f = ProgressFollower { count: 2 };
    let r = f.read_batch(&vec![RpcMsg::Progress("a".to_string()), RpcMsg::Success(OptionDetails(None))]);
    assert_eq!(r, BatchReport { lines: vec!["a".to_string(), "Success".to_string()], verdict: BatchVerdict::Continue });
    assert_eq!(f.count, 4);
}

#[test]
fn batch_without_progress_is_done_with_count() {
    let mut f = ProgressFollower { count: 4 };
    let r = f.read_batch(&vec![RpcMsg::Success(OptionDetails(Some("ok".to_string())))]);
    assert_eq!(r.lines, vec!["Success: ok".to_string()]);
    assert_eq!(r.verdict, BatchVerdict::Done(5));
    let mut g = ProgressFollower { count: 0 };
    assert_eq!(g.read_batch(&vec![]).verdict, BatchVerdict::Done(0));
}

#[test]
fn batch_stops_at_failure() {
    let mut f = ProgressFollower { count: 0 };
    let failure = Failure { code: FailureCode::Channel, info: "bad".to_string() };
    let r = f.read_batch(&vec![
        RpcMsg::Progress("a".to_string()),
        RpcMsg::Failure(failure.clone()),
        RpcMsg::Progress("b".to_string()),
    ]);
    assert_eq!(r.lines, vec!["a".to_string()]);
    assert_eq!(r.verdict, BatchVerdict::Fail(failure));
    assert_eq!(f.count, 2);
}

#[test]
fn batch_stops_at_unexpected_message() {
    let mut f = ProgressFollower { count: 0 };
    let r = f.read_batch(&vec![RpcMsg::GetInfo, RpcMsg::Progress("b".to_string())]);
    assert!(r.lines.is_empty());
    assert_eq!(r.verdict, BatchVerdict::Unexpected("Unexpected server response".to_string()));
    assert_eq!(f.count, 1);
}
