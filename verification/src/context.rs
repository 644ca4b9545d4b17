//! The match-reporting protocol: what a handler may answer, how an answer
//! becomes the one integer that the native engine accepts from a callback,
//! and how a handler's failure survives the trip back through the engine.

use crate::error::{as_result, status_result, Error, HyperscanErrorCode};
use vstd::prelude::*;

verus! {

/// What a match handler asks of the scan that called it, and what a scan
/// reports once it is over.
#[derive(Clone, Copy, Debug, PartialEq, Eq)]
pub enum Scan {
    /// Go on; for a finished scan: the input was read to its end.
    Continue,
    /// Stop; for a finished scan: the handler stopped it early.
    Terminate,
}

impl Default for Scan {
    fn default() -> (scan: Scan)
        ensures
            scan == Scan::Continue,
    {
        Scan::Continue
    }
}

/// The callback's answer that lets the native engine go on.
pub const CALLBACK_CONTINUE: i32 = 0;

/// The callback's answer that stops the native engine at the handler's wish.
pub const CALLBACK_TERMINATE: i32 = 1;

/// The callback's answer that stops the native engine because the handler
/// failed.
pub const CALLBACK_FAILED: i32 = -1;

/// Receives each match of a scan, together with the caller's own state, and
/// decides whether the scan goes on.
pub trait MatchEventHandler<T> {
    /// What the handler fails with.
    type Error;

    /// Whether the handler, shown the match `id` from `from` to `to` with
    /// the caller's state as it was `before`, may leave that state as it is
    /// `after` and answer `outcome`. A handler that says nothing of itself
    /// may do anything.
    open spec fn answers(
        &self,
        before: T,
        id: u32,
        from: u64,
        to: u64,
        after: T,
        outcome: Result<Scan, Self::Error>,
    ) -> bool {
        true
    }

    /// Called once for each match: `id` is the pattern's number, `from` and
    /// `to` are the offsets at which the match starts and ends.
    fn handle(&self, user_data: &mut T, id: u32, from: u64, to: u64) -> (outcome: Result<
        Scan,
        Self::Error,
    >)
        ensures
            self.answers(*old(user_data), id, from, to, *final(user_data), outcome),
    ;
}

/// The integer that tells the native engine what a handler answered.
pub open spec fn signal_of<E>(outcome: Result<Scan, E>) -> i32 {
    match outcome {
        Ok(Scan::Continue) => CALLBACK_CONTINUE,
        Ok(Scan::Terminate) => CALLBACK_TERMINATE,
        Err(_) => CALLBACK_FAILED,
    }
}

/// Whether a callback's answer stops the native engine: every answer but
/// zero does.
pub open spec fn halts(signal: i32) -> bool {
    signal != 0
}

/// What is kept of a handler's answer beside the signal: a failure replaces
/// whatever was kept before, any other answer leaves it alone.
pub open spec fn kept_after<E>(kept: Option<E>, outcome: Result<Scan, E>) -> Option<E> {
    match outcome {
        Err(error) => Some(error),
        Ok(_) => kept,
    }
}

/// What a scan reports, given the status that the native call returned and
/// the failure, if any, that a handler left behind during the call.
///
/// A handler's failure comes first, whatever the status. Without one, success
/// reads as `Continue`, the status by which the engine says that a callback
/// stopped it reads as `Terminate`, and any other error is handed on.
pub open spec fn scan_result<E>(native: Result<(), Error<E>>, inner: Option<E>) -> Result<
    Scan,
    Error<E>,
> {
    match inner {
        Some(failure) => Err(Error::HandlerFailed(failure)),
        None => match native {
            Ok(_) => Ok(Scan::Continue),
            Err(Error::EngineStatus(HyperscanErrorCode::ScanTerminated, _)) => Ok(Scan::Terminate),
            Err(error) => Err(error),
        },
    }
}

/// Decides what a scan reports; see `scan_result`.
pub fn to_scan_result<E>(native: Result<(), Error<E>>, inner_err: Option<E>) -> (result: Result<
    Scan,
    Error<E>,
>)
    ensures
        result == scan_result(native, inner_err),
{
    match inner_err {
        Some(inner) => Err(Error::HandlerFailed(inner)),
        None => match native {
            Ok(_) => Ok(Scan::Continue),
            Err(error) => match error {
                Error::EngineStatus(HyperscanErrorCode::ScanTerminated, _) => Ok(Scan::Terminate),
                error => Err(error),
            },
        },
    }
}

/// The caller's state, the handler that is shown every match, and the place
/// where a handler's failure waits while the native engine unwinds.
pub struct Context<U, H: MatchEventHandler<U>> {
    user_data: U,
    match_error: Option<H::Error>,
    match_event_handler: H,
}

impl<U, H: MatchEventHandler<U>> Context<U, H> {
    /// The caller's state.
    pub closed spec fn data(self) -> U {
        self.user_data
    }

    /// The failure that a handler left behind, if any.
    pub closed spec fn pending(self) -> Option<H::Error> {
        self.match_error
    }

    /// The handler.
    pub closed spec fn handler(self) -> H {
        self.match_event_handler
    }

    /// A context of this state and this handler, with no failure pending.
    pub fn new(user_data: U, match_event_handler: H) -> (context: Self)
        ensures
            context.data() == user_data,
            context.handler() == match_event_handler,
            context.pending() is None,
    {
        Context { user_data, match_error: None, match_event_handler }
    }

    /// The caller's state.
    pub fn user_data(&self) -> (user_data: &U)
        ensures
            *user_data == self.data(),
    {
        &self.user_data
    }

    /// Gives the caller's state back and drops the rest.
    pub fn into_user_data(self) -> (user_data: U)
        ensures
            user_data == self.data(),
    {
        self.user_data
    }

    /// Forgets a failure left behind by an earlier scan, so that the scan
    /// about to start reports only its own.
    pub fn begin(&mut self)
        ensures
            final(self).pending() is None,
            final(self).data() == old(self).data(),
            final(self).handler() == old(self).handler(),
    {
        self.match_error = None;
    }

    /// Turns a handler's answer into the callback's answer to the native
    /// engine. A failure is kept for `finish` and stops the engine.
    pub fn record(&mut self, outcome: Result<Scan, H::Error>) -> (signal: i32)
        ensures
            signal == signal_of(outcome),
            final(self).pending() == kept_after(old(self).pending(), outcome),
            final(self).data() == old(self).data(),
            final(self).handler() == old(self).handler(),
    {
        match outcome {
            Ok(Scan::Continue) => CALLBACK_CONTINUE,
            Ok(Scan::Terminate) => CALLBACK_TERMINATE,
            Err(error) => {
                self.match_error = Some(error);
                CALLBACK_FAILED
            },
        }
    }

    /// The callback that the native engine runs for each match: shows the
    /// match to the handler, together with the caller's state, and answers
    /// the engine for it.
    ///
    /// The handler is shown this match and the state as it stands, and the
    /// state is afterwards as the handler left it. The signal is that of
    /// what the handler answered: the engine goes on only if the handler
    /// said so and did not fail. A failure of the handler is kept for
    /// `finish`; any other answer leaves what was kept alone.
    pub fn on_match(&mut self, id: u32, from: u64, to: u64) -> (signal: i32)
        ensures
            exists|outcome: Result<Scan, H::Error>|
                {
                    &&& #[trigger] old(self).handler().answers(
                        old(self).data(),
                        id,
                        from,
                        to,
                        final(self).data(),
                        outcome,
                    )
                    &&& signal == signal_of(outcome)
                    &&& final(self).pending() == kept_after(old(self).pending(), outcome)
                },
            signal == CALLBACK_CONTINUE || signal == CALLBACK_TERMINATE || signal
                == CALLBACK_FAILED,
            signal == CALLBACK_FAILED ==> final(self).pending() is Some,
            signal != CALLBACK_FAILED ==> final(self).pending() == old(self).pending(),
            final(self).handler() == old(self).handler(),
    {
        let outcome = self.match_event_handler.handle(&mut self.user_data, id, from, to);
        let ghost answered = outcome;
        let signal = self.record(outcome);
        assert(old(self).handler().answers(
            old(self).data(),
            id,
            from,
            to,
            self.data(),
            answered,
        ));
        signal
    }

    /// Reports a scan, given the status that the native call returned. A
    /// pending failure is taken out and reported; none is pending
    /// afterwards.
    pub fn finish(&mut self, status: i32) -> (result: Result<Scan, Error<H::Error>>)
        ensures
            result == scan_result(status_result::<H::Error>(status), old(self).pending()),
            final(self).pending() is None,
            final(self).data() == old(self).data(),
            final(self).handler() == old(self).handler(),
    {
        let inner = self.match_error.take();
        to_scan_result(as_result(status), inner)
    }
}

/// A handler's failure is what the scan reports, as it was handed in and
/// whatever status the native call returned; no engine status takes its
/// place, and no failure kept from before.
pub proof fn lemma_handler_failure_is_reported<E>(kept: Option<E>, failure: E, status: i32)
    ensures
        halts(signal_of::<E>(Err(failure))),
        scan_result(status_result::<E>(status), kept_after(kept, Err(failure))) == Err::<
            Scan,
            Error<E>,
        >(Error::HandlerFailed(failure)),
{
}

/// A failure that is kept outlives every later answer that is no failure:
/// should the engine show the handler more matches before it stops, the
/// first failure is still the one reported.
pub proof fn lemma_kept_failure_outlives_answers<E>(failure: E, later: Scan, status: i32)
    ensures
        kept_after(Some(failure), Ok(later)) == Some(failure),
        scan_result(status_result::<E>(status), kept_after(Some(failure), Ok(later))) == Err::<
            Scan,
            Error<E>,
        >(Error::HandlerFailed(failure)),
{
}

/// A handler that asks to stop stops the engine and leaves nothing behind;
/// the status with which the engine then says that it was stopped is the
/// scan's `Terminate`, not an error. A handler that asks to go on does not
/// stop the engine.
pub proof fn lemma_terminate_is_reported<E>(kept: Option<E>)
    ensures
        halts(signal_of::<E>(Ok(Scan::Terminate))),
        !halts(signal_of::<E>(Ok(Scan::Continue))),
        kept_after(kept, Ok(Scan::Terminate)) == kept,
        scan_result(status_result::<E>(crate::error::HS_SCAN_TERMINATED), None) == Ok::<
            Scan,
            Error<E>,
        >(Scan::Terminate),
{
}

/// With no failure of a handler pending, a scan reports `Continue` exactly
/// for the status of success, `Terminate` exactly for the status of a scan
/// that a callback stopped, and for every other status an `EngineStatus`
/// error with that status and its name. The status of a stopped scan never
/// comes out as an error, whatever was pending.
pub proof fn lemma_status_decides_report<E>(status: i32, kept: Option<E>)
    ensures
        scan_result(status_result::<E>(status), None) == if status == crate::error::HS_SUCCESS {
            Ok::<Scan, Error<E>>(Scan::Continue)
        } else if status == crate::error::HS_SCAN_TERMINATED {
            Ok(Scan::Terminate)
        } else {
            Err(Error::EngineStatus(HyperscanErrorCode::of(status), status))
        },
        !(scan_result(status_result::<E>(status), kept) matches Err(
            Error::EngineStatus(HyperscanErrorCode::ScanTerminated, _),
        )),
{
}

/// Where the first answer that halts the engine stands in `answers`, or the
/// length of `answers` if none does. `answers[i]` is what the handler would
/// answer to the match at position `i` of a scan, were it shown every match.
pub open spec fn first_halt<E>(answers: Seq<Result<Scan, E>>) -> int
    decreases answers.len(),
{
    if answers.len() == 0 {
        0
    } else if halts(signal_of(answers[0])) {
        0
    } else {
        1 + first_halt(answers.drop_first())
    }
}

/// How many matches an engine shows the handler if it honours the callback's
/// answer: every match up to and including the first whose answer halts it.
pub open spec fn calls_made<E>(answers: Seq<Result<Scan, E>>) -> int {
    if first_halt(answers) < answers.len() {
        first_halt(answers) + 1
    } else {
        answers.len() as int
    }
}

/// The status with which such an engine returns: that of a stopped scan if
/// an answer halted it, else success.
pub open spec fn status_made<E>(answers: Seq<Result<Scan, E>>) -> i32 {
    if first_halt(answers) < answers.len() {
        crate::error::HS_SCAN_TERMINATED
    } else {
        crate::error::HS_SUCCESS
    }
}

/// What is kept once the callback has answered for each of `answers` in
/// turn.
pub open spec fn kept_through<E>(kept: Option<E>, answers: Seq<Result<Scan, E>>) -> Option<E>
    decreases answers.len(),
{
    if answers.len() == 0 {
        kept
    } else {
        kept_after(kept_through(kept, answers.drop_last()), answers.last())
    }
}

/// What a scan reports when the engine honours the callback's answer and
/// nothing else goes wrong: the report for the status the engine returns
/// with and for what the callback kept on the way.
pub open spec fn report_made<E>(answers: Seq<Result<Scan, E>>) -> Result<Scan, Error<E>> {
    scan_result(
        status_result::<E>(status_made(answers)),
        kept_through(None, answers.take(calls_made(answers))),
    )
}

/// No answer before the first that halts halts, and the first that halts
/// does.
pub proof fn lemma_first_halt<E>(answers: Seq<Result<Scan, E>>)
    ensures
        0 <= first_halt(answers) <= answers.len(),
        forall|i: int|
            0 <= i < first_halt(answers) ==> #[trigger] answers[i] == Ok::<Scan, E>(Scan::Continue),
        first_halt(answers) < answers.len() ==> halts(signal_of(answers[first_halt(answers)])),
    decreases answers.len(),
{
    if answers.len() > 0 && !halts(signal_of(answers[0])) {
        let rest = answers.drop_first();
        lemma_first_halt(rest);
        assert forall|i: int| 0 <= i < first_halt(answers) implies #[trigger] answers[i] == Ok::<
            Scan,
            E,
        >(Scan::Continue) by {
            if i > 0 {
                assert(answers[i] == rest[i - 1]);
            }
        }
        assert(first_halt(rest) < rest.len() ==> answers[first_halt(answers)] == rest[first_halt(
            rest,
        )]);
    }
}

/// Answers that are no failures leave what is kept as it was.
pub proof fn lemma_kept_through_answers<E>(kept: Option<E>, answers: Seq<Result<Scan, E>>)
    requires
        forall|i: int| 0 <= i < answers.len() ==> (#[trigger] answers[i]) is Ok,
    ensures
        kept_through(kept, answers) == kept,
    decreases answers.len(),
{
    if answers.len() > 0 {
        lemma_kept_through_answers(kept, answers.drop_last());
    }
}

/// The first answer that halts the engine decides the scan: the handler is
/// shown no match after it; if it asked to stop, the scan reports
/// `Terminate`; if it failed, the scan reports that failure and no other
/// error. If no answer halts, the handler is shown every match and the scan
/// reports `Continue`.
pub proof fn lemma_first_halt_decides<E>(answers: Seq<Result<Scan, E>>)
    ensures
        first_halt(answers) < answers.len() ==> calls_made(answers) == first_halt(answers) + 1,
        first_halt(answers) >= answers.len() ==> calls_made(answers) == answers.len()
            && report_made(answers) == Ok::<Scan, Error<E>>(Scan::Continue),
        first_halt(answers) < answers.len() ==> report_made(answers) == match answers[first_halt(
            answers,
        )] {
            Ok(_) => Ok::<Scan, Error<E>>(Scan::Terminate),
            Err(failure) => Err(Error::HandlerFailed(failure)),
        },
{
    lemma_first_halt(answers);
    let halt = first_halt(answers);
    let shown = answers.take(calls_made(answers));
    if halt < answers.len() {
        let before = shown.drop_last();
        assert(shown.last() == answers[halt]);
        assert forall|i: int| 0 <= i < before.len() implies (#[trigger] before[i]) is Ok by {
            assert(before[i] == answers[i]);
        }
        lemma_kept_through_answers(None::<E>, before);
    } else {
        assert forall|i: int| 0 <= i < shown.len() implies (#[trigger] shown[i]) is Ok by {
            assert(shown[i] == answers[i]);
        }
        lemma_kept_through_answers(None::<E>, shown);
    }
}

/// A handler that asks to stop at the first match is shown that match and no
/// other, however many there are, and the scan reports `Terminate`.
pub proof fn lemma_terminate_at_first_match<E>(answers: Seq<Result<Scan, E>>)
    requires
        answers.len() > 0,
        answers[0] == Ok::<Scan, E>(Scan::Terminate),
    ensures
        calls_made(answers) == 1,
        report_made(answers) == Ok::<Scan, Error<E>>(Scan::Terminate),
{
    lemma_first_halt_decides(answers);
}

/// A handler that fails at the first match is shown that match and no other,
/// and the scan reports that very failure, not an engine status.
pub proof fn lemma_failure_at_first_match<E>(answers: Seq<Result<Scan, E>>, failure: E)
    requires
        answers.len() > 0,
        answers[0] == Err::<Scan, E>(failure),
    ensures
        calls_made(answers) == 1,
        report_made(answers) == Err::<Scan, Error<E>>(Error::HandlerFailed(failure)),
{
    lemma_first_halt_decides(answers);
}

} // verus!
