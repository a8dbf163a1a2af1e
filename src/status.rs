use vstd::prelude::*;
use crate::platform::PlatformCodes;

verus! {

/// What one kernel status query reported.
///
/// `ret` is the call's return value; `errno` the error number read right after
/// a failing call (zero after a successful one); `signo` the signal-number
/// field of the status record, which the caller zeroed before the call.
#[derive(Clone, Copy, Debug, PartialEq, Eq)]
pub struct QueryReport {
    pub ret: i32,
    pub errno: i32,
    pub signo: i32,
}

/// Why a non-reaping wait failed.
#[derive(Clone, Copy, Debug, PartialEq, Eq)]
pub enum WaitError {
    /// The kernel call failed with this error number (no such process,
    /// permission denied, ...).
    Os(i32),
    /// The non-blocking query succeeded but left a signal number in the
    /// status record that means neither "exited" nor "not exited".
    UnexpectedSigno(i32),
}

/// What the blocking wait does after one query.
#[derive(Clone, Copy, Debug, PartialEq, Eq)]
pub enum BlockingStep {
    /// A signal interrupted the query: issue it again.
    Retry,
    /// The wait is over, with this result for the caller.
    Finished(Result<(), WaitError>),
}

/// Whether a report is a call that a signal interrupted.
pub open spec fn is_interrupted(codes: PlatformCodes, q: QueryReport) -> bool {
    q.ret != 0 && q.errno == codes.interrupted
}

/// The step the blocking wait takes after the query `q`.
pub open spec fn blocking_step(codes: PlatformCodes, q: QueryReport) -> BlockingStep {
    if q.ret == 0 {
        BlockingStep::Finished(Ok(()))
    } else if q.errno == codes.interrupted {
        BlockingStep::Retry
    } else {
        BlockingStep::Finished(Err(WaitError::Os(q.errno)))
    }
}

/// What a blocking wait returns when its queries report `qs` in turn:
/// `None` while every report so far asked for a retry.
pub open spec fn blocking_outcome(codes: PlatformCodes, qs: Seq<QueryReport>) -> Option<
    Result<(), WaitError>,
>
    decreases qs.len(),
{
    if qs.len() == 0 {
        None
    } else {
        match blocking_step(codes, qs[0]) {
            BlockingStep::Retry => blocking_outcome(codes, qs.drop_first()),
            BlockingStep::Finished(r) => Some(r),
        }
    }
}

/// What the non-blocking poll returns for the single query `q`:
/// `Ok(true)` for "exited", `Ok(false)` for "still running".
pub open spec fn poll_result(codes: PlatformCodes, q: QueryReport) -> Result<bool, WaitError> {
    if q.ret != 0 {
        Err(WaitError::Os(q.errno))
    } else if q.signo == codes.child_exited {
        Ok(true)
    } else if q.signo == 0 {
        Ok(false)
    } else {
        Err(WaitError::UnexpectedSigno(q.signo))
    }
}

/// Decides what the blocking wait does after one query: a successful query
/// means the child has exited; an interrupted one is issued again; any other
/// failure ends the wait with the kernel's error number.
pub fn next_blocking_step(codes: &PlatformCodes, q: &QueryReport) -> (r: BlockingStep)
    ensures
        r == blocking_step(*codes, *q),
        q.ret == 0 ==> r == BlockingStep::Finished(Ok(())),
        is_interrupted(*codes, *q) <==> r == BlockingStep::Retry,
        q.ret != 0 && q.errno != codes.interrupted ==> r == BlockingStep::Finished(
            Err(WaitError::Os(q.errno)),
        ),
{
    if q.ret == 0 {
        BlockingStep::Finished(Ok(()))
    } else if q.errno == codes.interrupted {
        BlockingStep::Retry
    } else {
        BlockingStep::Finished(Err(WaitError::Os(q.errno)))
    }
}

/// Judges the single query of a non-blocking poll. A failed call is an OS
/// error (never retried); otherwise the status record decides: the
/// child-exited signal means the child has exited, a zero record means it is
/// still running, and anything else is reported as an unexpected value.
pub fn judge_poll(codes: &PlatformCodes, q: &QueryReport) -> (r: Result<bool, WaitError>)
    ensures
        r == poll_result(*codes, *q),
        q.ret != 0 ==> r == Err::<bool, WaitError>(WaitError::Os(q.errno)),
        q.ret == 0 && q.signo == codes.child_exited ==> r == Ok::<bool, WaitError>(true),
        q.ret == 0 && q.signo == 0 && codes.child_exited != 0 ==> r == Ok::<bool, WaitError>(
            false,
        ),
        q.ret == 0 && q.signo != 0 && q.signo != codes.child_exited ==> r == Err::<
            bool,
            WaitError,
        >(WaitError::UnexpectedSigno(q.signo)),
{
    if q.ret != 0 {
        Err(WaitError::Os(q.errno))
    } else if q.signo == codes.child_exited {
        Ok(true)
    } else if q.signo == 0 {
        Ok(false)
    } else {
        Err(WaitError::UnexpectedSigno(q.signo))
    }
}

/// Interrupted queries in front of the others change nothing the caller of
/// the blocking wait sees: its outcome is that of the queries that follow.
pub proof fn lemma_interruptions_unseen(
    codes: PlatformCodes,
    pre: Seq<QueryReport>,
    rest: Seq<QueryReport>,
)
    requires
        forall|i: int| 0 <= i < pre.len() ==> is_interrupted(codes, #[trigger] pre[i]),
    ensures
        blocking_outcome(codes, pre + rest) == blocking_outcome(codes, rest),
    decreases pre.len(),
{
    if pre.len() > 0 {
        let tail = pre.drop_first();
        assert((pre + rest)[0] == pre[0]);
        assert((pre + rest).drop_first() =~= tail + rest);
        assert forall|i: int| 0 <= i < tail.len() implies is_interrupted(codes, #[trigger] tail[i]) by {
            assert(tail[i] == pre[i + 1]);
        }
        lemma_interruptions_unseen(codes, tail, rest);
    } else {
        assert(pre + rest =~= rest);
    }
}

/// However many interrupted queries come before the one that sees the child
/// exit, the blocking wait ends in success.
pub proof fn lemma_success_after_interruptions(
    codes: PlatformCodes,
    pre: Seq<QueryReport>,
    done: QueryReport,
)
    requires
        forall|i: int| 0 <= i < pre.len() ==> is_interrupted(codes, #[trigger] pre[i]),
        done.ret == 0,
    ensures
        blocking_outcome(codes, pre.push(done)) == Some(Ok::<(), WaitError>(())),
{
    assert(pre.push(done) =~= pre + seq![done]);
    lemma_interruptions_unseen(codes, pre, seq![done]);
    assert(seq![done][0] == done);
}

/// The blocking wait never hands an interruption to its caller: whatever the
/// queries report, its outcome is not the interrupted call's error.
pub proof fn lemma_interruption_never_surfaces(codes: PlatformCodes, qs: Seq<QueryReport>)
    ensures
        blocking_outcome(codes, qs) != Some(Err::<(), WaitError>(WaitError::Os(codes.interrupted))),
    decreases qs.len(),
{
    if qs.len() > 0 {
        lemma_interruption_never_surfaces(codes, qs.drop_first());
    }
}

} // verus!
