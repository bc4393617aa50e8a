//! Reports, and effects that fail closed.
use crate::capabilities::recovery::{Recovery, RestoreOutcome};
use crate::driver::board::{BoardCapabilities, Report, ReportSink};
use crate::driver::calls::{called, went_through, Call};
use crate::driver::state::DriverState;
use crate::driver::steps::{execute_step, session_closed};
use crate::platform::{ComponentId, Effect, EffectError, Event};
use vstd::prelude::*;

verus! {

/// The report that an effect asks for.
pub open spec fn report_of(effect: Effect) -> Option<Report> {
    match effect {
        Effect::ReportIsolated(id) => Some(Report::Isolated(id)),
        Effect::ReportRecoveryFailed(id) => Some(Report::RecoveryFailed(id)),
        Effect::ReportBootFailed { id, checkpoint, kind } => Some(
            Report::BootFailed { id, checkpoint, kind },
        ),
        Effect::ReportUpdateDeferred => Some(Report::UpdateDeferred),
        Effect::ReportUpdateAborted => Some(Report::UpdateAborted),
        _ => None,
    }
}

/// Reporting cannot fail, so that it stays off the fail-closed path: an
/// effect that asks for a report hands it to the sink and answers no error.
/// Nothing but the sink changes, and the update in flight where the report
/// tells of its end: its job is gone and its session is closed.
pub proof fn law_reporting_never_fails<B: BoardCapabilities>(
    pre: DriverState<B>,
    effect: Effect,
    report: Report,
    answer: Result<Option<Event>, EffectError>,
    post: DriverState<B>,
)
    requires
        report_of(effect) == Some(report),
        execute_step(pre, effect, answer, post),
    ensures
        answer == Ok::<_, EffectError>(None::<Event>),
        B::ReportSink::takes(pre.report_sink, report, post.report_sink),
        if report is UpdateDeferred || report is UpdateAborted {
            &&& session_closed(pre, post)
            &&& post == (DriverState {
                pending_update: None,
                verify_session: post.verify_session,
                update_verifier: post.update_verifier,
                report_sink: post.report_sink,
                ..pre
            })
        } else {
            post == (DriverState { report_sink: post.report_sink, ..pre })
        },
{
}

/// The sink `S` keeps what it is handed, in order; `log` reads it.
pub open spec fn keeps_log<S: ReportSink>(log: spec_fn(S) -> Seq<Report>) -> bool {
    forall|pre: S, report: Report, post: S| #[trigger]
        S::takes(pre, report, post) ==> log(post) == log(pre).push(report)
}

/// The reports that the calls hand over, in order.
pub open spec fn reports_of(calls: Seq<Call>) -> Seq<Report>
    decreases calls.len(),
{
    if calls.len() == 0 {
        Seq::empty()
    } else {
        let earlier = reports_of(calls.drop_last());
        match calls.last() {
            Call::Execute(effect) => match report_of(effect) {
                Some(report) => earlier.push(report),
                None => earlier,
            },
            Call::Tell(report) => earlier.push(report),
            _ => earlier,
        }
    }
}

/// Reports arrive in the order they were asked for, each once, and nothing
/// else arrives: with a sink that keeps what it is handed, what it holds
/// after some calls is what it held before them and then their reports.
pub proof fn law_reports_arrive_in_order<B: BoardCapabilities>(
    log: spec_fn(B::ReportSink) -> Seq<Report>,
    states: Seq<DriverState<B>>,
    calls: Seq<Call>,
)
    requires
        keeps_log(log),
        went_through(states, calls),
    ensures
        log(states.last().report_sink) == log(states[0].report_sink) + reports_of(calls),
    decreases calls.len(),
{
    let held = log(states[0].report_sink);
    if calls.len() == 0 {
        assert(held + reports_of(calls) =~= held);
    } else {
        let n = calls.len() - 1;
        let fewer = states.drop_last();
        assert forall|k: int| #![trigger calls.drop_last()[k]] 0 <= k < n implies called(
            fewer[k],
            calls.drop_last()[k],
            fewer[k + 1],
        ) by {
            assert(called(states[k], calls[k], states[k + 1]));
        }
        law_reports_arrive_in_order(log, fewer, calls.drop_last());
        assert(called(states[n], calls[n], states[n + 1]));
        let earlier = reports_of(calls.drop_last());
        let before = states[n].report_sink;
        let after = states[n + 1].report_sink;
        assert(log(before) == held + earlier);
        match calls.last() {
            Call::Execute(effect) => {
                match report_of(effect) {
                    Some(report) => {
                        assert(B::ReportSink::takes(before, report, after));
                        assert((held + earlier).push(report) =~= held + earlier.push(report));
                    },
                    None => {
                        assert(after == before);
                    },
                }
            },
            Call::Tell(report) => {
                assert(B::ReportSink::takes(before, report, after));
                assert((held + earlier).push(report) =~= held + earlier.push(report));
            },
            _ => {
                assert(after == before);
            },
        }
    }
}

/// What the board cannot do fails closed: signing, locking down and the state
/// machine's own channel are refused, and change nothing.
pub proof fn law_unserved_effects_fail_closed<B: BoardCapabilities>(
    pre: DriverState<B>,
    effect: Effect,
    answer: Result<Option<Event>, EffectError>,
    post: DriverState<B>,
)
    requires
        effect is SignAttestation || effect is LatchLockdown || effect is Emit,
        execute_step(pre, effect, answer, post),
    ensures
        answer == Err::<Option<Event>, _>(EffectError),
        post == pre,
{
}

/// The component that an effect acts on.
pub open spec fn acts_on(effect: Effect) -> Option<ComponentId> {
    match effect {
        Effect::ReadFirmware(id) => Some(id),
        Effect::VerifyFirmware(id) => Some(id),
        Effect::ReleaseReset(id) => Some(id),
        Effect::AssertReset(id) => Some(id),
        Effect::CommitSvnFloor(id) => Some(id),
        Effect::RecoverComponent { id, attempt: _ } => Some(id),
        _ => None,
    }
}

/// A component that the board does not have is refused, and no device is
/// touched. Nothing changes, but that staging drops what was staged.
pub proof fn law_unknown_components_are_refused<B: BoardCapabilities>(
    pre: DriverState<B>,
    effect: Effect,
    id: ComponentId,
    answer: Result<Option<Event>, EffectError>,
    post: DriverState<B>,
)
    requires
        acts_on(effect) == Some(id),
        !pre.knows(id),
        execute_step(pre, effect, answer, post),
    ensures
        answer == Err::<Option<Event>, _>(EffectError),
        post == (DriverState {
            staged: if effect is ReadFirmware {
                None
            } else {
                pre.staged
            },
            ..pre
        }),
{
}

/// Running out of recovery sources is a verdict and not a fault: for a
/// component that the board has, the state machine sees an error exactly when
/// the mechanism faulted.
pub proof fn law_exhaustion_is_no_fault<B: BoardCapabilities>(
    pre: DriverState<B>,
    id: ComponentId,
    attempt: u8,
    answer: Result<Option<Event>, EffectError>,
    post: DriverState<B>,
)
    requires
        execute_step(pre, Effect::RecoverComponent { id, attempt }, answer, post),
        pre.knows(id),
    ensures
        exists|restored: Result<RestoreOutcome, <B::Recovery as Recovery>::Error>| #[trigger]
            B::Recovery::restores(
                pre.recovery[id.index()],
                attempt,
                restored,
                post.recovery[id.index()],
            ) && (restored is Err <==> answer is Err) && (restored == Ok::<
                _,
                <B::Recovery as Recovery>::Error,
            >(RestoreOutcome::SourceExhausted) <==> answer == Ok::<_, EffectError>(
                Some(Event::RecoveryUnavailable(id)),
            )),
{
}

} // verus!
