//! What holds of every detection run, in whatever order its tasks finish.
//!
//! A host decides which probes identify their provider; the scheduler
//! decides in which order the tasks finish, when the deadline passes and
//! when the caller polls. The laws below hold for every schedule.

use crate::detection::{Event, Phase, Run};
use crate::host::{identifies, lemma_bare_host_matches_nothing, matches_on, Host};
use crate::provider_id::ProviderId;
use crate::providers::Probe;
use vstd::prelude::*;

verus! {

/// The event reports of its task what the host holds for it: if a task of
/// the run finishes, it does so with a match exactly when `matches` says
/// that its probe identifies its provider.
pub open spec fn reports_as_the_host_has_it(event: Event, matches: Seq<bool>) -> bool {
    event matches Event::Finished { task, matched } ==> (0 <= task < matches.len() ==> matched
        == matches[task])
}

/// The trace reports of each task what the host holds for it: a task of
/// the run finishes with a match exactly when `matches` says that its
/// probe identifies its provider.
pub open spec fn faithful(trace: Seq<Event>, matches: Seq<bool>) -> bool {
    forall|i: int|
        0 <= i < trace.len() ==> reports_as_the_host_has_it(#[trigger] trace[i], matches)
}

/// The run agrees with the host: what it holds in its slot and what it has
/// settled on came from tasks that finished as the host has it.
pub open spec fn consistent(run: Run, matches: Seq<bool>) -> bool {
    &&& run.well_formed()
    &&& matches.len() == run.probes.len()
    &&& run.slot is None ==> forall|task: int|
        0 <= task < run.finished.len() && run.finished[task] ==> !matches[task]
    &&& run.slot matches Some(id) ==> exists|task: int|
        0 <= task < run.finished.len() && run.finished[task] && matches[task]
            && run.probes[task].id() == id
    &&& run.phase matches Phase::Resolved(id) ==> run.slot == Some(id)
    &&& run.phase is AllFinishedEmpty ==> run.slot is None && run.all_finished()
    &&& run.phase is TimedOut ==> run.slot is None && run.expired
}

/// The run after the first `m + 1` events of a trace is the run after the
/// first `m`, taken one event further.
pub proof fn lemma_run_prefix(run: Run, trace: Seq<Event>, m: int)
    requires
        0 <= m < trace.len(),
    ensures
        run.run(trace.take(m + 1)) == run.run(trace.take(m)).apply(trace[m]),
        run.run(trace.take(trace.len() as int)) == run.run(trace),
        run.run(trace.take(0)) == run,
{
    assert(trace.take(m + 1).drop_last() =~= trace.take(m));
    assert(trace.take(trace.len() as int) =~= trace);
    assert(trace.take(0).len() == 0);
}

/// The run of an empty trace is the run itself.
pub proof fn lemma_run_nothing(run: Run, trace: Seq<Event>)
    requires
        trace.len() == 0,
    ensures
        run.run(trace) == run,
{
}

/// A run that is settled stays as it is, whatever happens afterwards:
/// what finishes late is dropped, and the verdict is never taken back.
pub proof fn lemma_settled_run_stays(run: Run, trace: Seq<Event>)
    requires
        run.verdict() is Some,
    ensures
        run.run(trace) == run,
    decreases trace.len(),
{
    if trace.len() > 0 {
        lemma_settled_run_stays(run, trace.drop_last());
    }
}

/// One event that agrees with the host leaves the run in agreement with
/// the host.
pub proof fn lemma_event_keeps_consistent(run: Run, event: Event, matches: Seq<bool>)
    requires
        consistent(run, matches),
        reports_as_the_host_has_it(event, matches),
    ensures
        consistent(run.apply(event), matches),
{
    let after = run.apply(event);
    if run.phase is FannedOut {
        match event {
            Event::Finished { task, matched } => {
                if 0 <= task < run.finished.len() && !run.finished[task] {
                    if run.slot is None && matched {
                        assert(after.finished[task] && matches[task] && after.probes[task].id()
                            == after.slot->0);
                    } else if run.slot is Some {
                        let witness = choose|t: int|
                            0 <= t < run.finished.len() && run.finished[t] && matches[t]
                                && run.probes[t].id() == run.slot->0;
                        assert(after.finished[witness]);
                    }
                }
            },
            _ => {},
        }
    }
}

/// A trace that agrees with the host leaves the run in agreement with the
/// host.
pub proof fn lemma_trace_keeps_consistent(run: Run, trace: Seq<Event>, matches: Seq<bool>)
    requires
        consistent(run, matches),
        faithful(trace, matches),
    ensures
        consistent(run.run(trace), matches),
    decreases trace.len(),
{
    if trace.len() > 0 {
        let front = trace.drop_last();
        assert forall|i: int| 0 <= i < front.len() implies reports_as_the_host_has_it(
            #[trigger] front[i],
            matches,
        ) by {
            assert(front[i] == trace[i]);
        }
        lemma_trace_keeps_consistent(run, front, matches);
        lemma_event_keeps_consistent(run.run(front), trace.last(), matches);
    }
}

/// A run that has only taken its snapshot agrees with every host.
pub proof fn lemma_idle_run_is_consistent(timeout: u64, probes: Seq<Probe>, matches: Seq<bool>)
    requires
        matches.len() == probes.len(),
    ensures
        consistent(Run::idle(timeout, probes), matches),
{
}

/// A run names a provider only if a probe of its snapshot identified that
/// provider on the host: whatever it returns besides the unknown provider
/// is the identifier of a probe that matched.
pub proof fn lemma_verdict_is_a_match(
    timeout: u64,
    probes: Seq<Probe>,
    matches: Seq<bool>,
    trace: Seq<Event>,
)
    requires
        matches.len() == probes.len(),
        faithful(trace, matches),
    ensures
        Run::idle(timeout, probes).run(trace).verdict() matches Some(id) ==> id
            == ProviderId::Unknown || exists|task: int|
            0 <= task < probes.len() && matches[task] && probes[task].id() == id,
{
    let idle = Run::idle(timeout, probes);
    lemma_idle_run_is_consistent(timeout, probes, matches);
    lemma_trace_keeps_consistent(idle, trace, matches);
    lemma_run_keeps_snapshot(idle, trace);
    let end = idle.run(trace);
    if let Phase::Resolved(id) = end.phase {
        let task = choose|task: int|
            0 <= task < end.finished.len() && end.finished[task] && matches[task]
                && end.probes[task].id() == id;
        assert(0 <= task < probes.len() && matches[task] && probes[task].id() == id);
    }
}

/// A run keeps its snapshot and its timeout to the end.
pub proof fn lemma_run_keeps_snapshot(run: Run, trace: Seq<Event>)
    ensures
        run.run(trace).probes == run.probes,
        run.run(trace).timeout == run.timeout,
        run.run(trace).finished.len() == run.finished.len(),
    decreases trace.len(),
{
    if trace.len() > 0 {
        lemma_run_keeps_snapshot(run, trace.drop_last());
    }
}

/// Where no probe matches, a run never names a provider: as long as it is
/// not settled it returns nothing, and once it is settled it returns the
/// unknown provider, for every timeout and every set of probes.
pub proof fn lemma_no_match_yields_unknown(
    timeout: u64,
    probes: Seq<Probe>,
    matches: Seq<bool>,
    trace: Seq<Event>,
)
    requires
        matches.len() == probes.len(),
        faithful(trace, matches),
        forall|task: int| 0 <= task < matches.len() ==> !matches[task],
    ensures
        Run::idle(timeout, probes).run(trace).verdict() matches Some(id) ==> id
            == ProviderId::Unknown,
{
    lemma_verdict_is_a_match(timeout, probes, matches, trace);
}

/// A detection names only what the host shows: whatever a run returns
/// besides the unknown provider is the identifier of a probe of its
/// snapshot that identifies its provider on the host.
pub proof fn lemma_detection_names_what_the_host_shows(
    timeout: u64,
    probes: Seq<Probe>,
    host: Host,
    trace: Seq<Event>,
)
    requires
        faithful(trace, matches_on(probes, timeout, host)),
    ensures
        Run::idle(timeout, probes).run(trace).verdict() matches Some(id) ==> id
            == ProviderId::Unknown || exists|task: int|
            0 <= task < probes.len() && identifies(#[trigger] probes[task], timeout, host)
                && probes[task].id() == id,
{
    let matches = matches_on(probes, timeout, host);
    lemma_verdict_is_a_match(timeout, probes, matches, trace);
    if let Some(id) = Run::idle(timeout, probes).run(trace).verdict() {
        if id != ProviderId::Unknown {
            let task = choose|task: int|
                0 <= task < probes.len() && matches[task] && probes[task].id() == id;
            assert(identifies(probes[task], timeout, host));
        }
    }
}

/// On a bare host, with no vendor file to read and no metadata server in
/// reach, a detection never names a provider: once it is settled it
/// returns the unknown provider.
pub proof fn lemma_bare_host_yields_unknown(
    timeout: u64,
    probes: Seq<Probe>,
    host: Host,
    trace: Seq<Event>,
)
    requires
        host.bare(),
        faithful(trace, matches_on(probes, timeout, host)),
    ensures
        Run::idle(timeout, probes).run(trace).verdict() matches Some(id) ==> id
            == ProviderId::Unknown,
{
    let matches = matches_on(probes, timeout, host);
    assert forall|task: int| 0 <= task < matches.len() implies !matches[task] by {
        lemma_bare_host_matches_nothing(probes[task], timeout, host);
    }
    lemma_no_match_yields_unknown(timeout, probes, matches, trace);
}

/// The state of a run whose deadline has been reached at event `expiry`
/// and that was polled at event `poll`, after `m` events.
spec fn deadline_reached(run: Run, launch: int, expiry: int, poll: int, m: int) -> bool {
    &&& m > launch ==> !(run.phase is Idle)
    &&& m > expiry ==> run.verdict() is Some || run.expired
    &&& m > poll ==> run.verdict() is Some
}

proof fn lemma_deadline_upto(
    start: Run,
    trace: Seq<Event>,
    launch: int,
    expiry: int,
    poll: int,
    m: int,
)
    requires
        start.phase is Idle,
        0 <= launch < expiry < poll < trace.len(),
        trace[launch] is FanOut,
        trace[expiry] is Expired,
        trace[poll] is Poll,
        0 <= m <= trace.len(),
    ensures
        deadline_reached(start.run(trace.take(m)), launch, expiry, poll, m),
    decreases m,
{
    if m > 0 {
        lemma_deadline_upto(start, trace, launch, expiry, poll, m - 1);
        lemma_run_prefix(start, trace, m - 1);
    } else {
        lemma_run_nothing(start, trace.take(0));
    }
}

/// A run is settled no later than the first poll after its deadline: once
/// the tasks are out and the time is up, the next poll returns a verdict,
/// whether or not any task has finished.
pub proof fn lemma_deadline_settles_the_run(
    timeout: u64,
    probes: Seq<Probe>,
    trace: Seq<Event>,
    launch: int,
    expiry: int,
    poll: int,
)
    requires
        0 <= launch < expiry < poll < trace.len(),
        trace[launch] is FanOut,
        trace[expiry] is Expired,
        trace[poll] is Poll,
    ensures
        Run::idle(timeout, probes).run(trace).verdict() is Some,
{
    let idle = Run::idle(timeout, probes);
    lemma_deadline_upto(idle, trace, launch, expiry, poll, trace.len() as int);
    lemma_run_prefix(idle, trace, 0);
}

/// The state of a run that reaches its deadline at event `expiry` and is
/// polled at event `poll`, with no match reported before that poll, after
/// `m` events.
spec fn expired_without_match(run: Run, launch: int, expiry: int, poll: int, m: int) -> bool {
    &&& m <= poll ==> run.slot is None && !(run.phase is Resolved)
    &&& m > launch ==> !(run.phase is Idle)
    &&& m > expiry ==> run.verdict() is Some || run.expired
    &&& m > poll ==> run.verdict() == Some(ProviderId::Unknown)
}

proof fn lemma_expired_without_match_upto(
    start: Run,
    trace: Seq<Event>,
    launch: int,
    expiry: int,
    poll: int,
    m: int,
)
    requires
        start.phase is Idle,
        start.slot is None,
        0 <= launch < expiry < poll < trace.len(),
        trace[launch] is FanOut,
        trace[expiry] is Expired,
        trace[poll] is Poll,
        forall|i: int|
            0 <= i < poll ==> !(#[trigger] trace[i] matches Event::Finished { matched, .. }
                && matched),
        0 <= m <= trace.len(),
    ensures
        expired_without_match(start.run(trace.take(m)), launch, expiry, poll, m),
    decreases m,
{
    if m > 0 {
        lemma_expired_without_match_upto(start, trace, launch, expiry, poll, m - 1);
        lemma_run_prefix(start, trace, m - 1);
        if m - 1 < poll {
            assert(!(trace[m - 1] matches Event::Finished { matched, .. } && matched));
        }
    } else {
        lemma_run_nothing(start, trace.take(0));
    }
}

/// A run whose time is up before any task has reported a match returns
/// the unknown provider, whatever the probes would have found later. With
/// a timeout of zero the deadline is reached as soon as the tasks are
/// out, so that the next poll settles the run.
pub proof fn lemma_expired_before_any_match_yields_unknown(
    timeout: u64,
    probes: Seq<Probe>,
    trace: Seq<Event>,
    launch: int,
    expiry: int,
    poll: int,
)
    requires
        0 <= launch < expiry < poll < trace.len(),
        trace[launch] is FanOut,
        trace[expiry] is Expired,
        trace[poll] is Poll,
        forall|i: int|
            0 <= i < poll ==> !(#[trigger] trace[i] matches Event::Finished { matched, .. }
                && matched),
    ensures
        Run::idle(timeout, probes).run(trace).verdict() == Some(ProviderId::Unknown),
{
    let idle = Run::idle(timeout, probes);
    lemma_expired_without_match_upto(idle, trace, launch, expiry, poll, trace.len() as int);
    lemma_run_prefix(idle, trace, 0);
}

/// The event reports that the task number `task` has finished.
pub open spec fn reports_on(event: Event, task: int) -> bool {
    event matches Event::Finished { task: finished, .. } && finished == task
}

/// The state of a run in which the task `winner` is the first to report a
/// match, at event `report`, after `m` events.
spec fn winner_reported(
    run: Run,
    winner: int,
    launch: int,
    report: int,
    poll: int,
    m: int,
) -> bool {
    &&& run.well_formed()
    &&& 0 <= winner < run.finished.len()
    &&& m <= report ==> {
        &&& run.phase is Idle || run.phase is FannedOut
        &&& m > launch ==> run.phase is FannedOut
        &&& run.slot is None
        &&& !run.expired
        &&& !run.finished[winner]
    }
    &&& m > report ==> {
        &&& run.slot == Some(run.probes[winner].id())
        &&& run.phase is FannedOut || run.phase == Phase::Resolved(run.probes[winner].id())
        &&& m > poll ==> run.phase == Phase::Resolved(run.probes[winner].id())
    }
}

proof fn lemma_winner_upto(
    start: Run,
    matches: Seq<bool>,
    trace: Seq<Event>,
    winner: int,
    launch: int,
    report: int,
    poll: int,
    m: int,
)
    requires
        start.phase is Idle,
        start.slot is None,
        !start.expired,
        start.well_formed(),
        matches.len() == start.probes.len(),
        forall|task: int| 0 <= task < start.finished.len() ==> !start.finished[task],
        faithful(trace, matches),
        0 <= winner < matches.len(),
        forall|task: int| 0 <= task < matches.len() && task != winner ==> !matches[task],
        0 <= launch < report < poll < trace.len(),
        trace[launch] is FanOut,
        trace[report] == (Event::Finished { task: winner, matched: true }),
        trace[poll] is Poll,
        forall|i: int| 0 <= i < report ==> !(#[trigger] trace[i] is Expired),
        forall|i: int| 0 <= i < report ==> !reports_on(#[trigger] trace[i], winner),
        0 <= m <= trace.len(),
    ensures
        winner_reported(start.run(trace.take(m)), winner, launch, report, poll, m),
        start.run(trace.take(m)).probes == start.probes,
    decreases m,
{
    if m > 0 {
        lemma_winner_upto(start, matches, trace, winner, launch, report, poll, m - 1);
        lemma_run_prefix(start, trace, m - 1);
        let before = start.run(trace.take(m - 1));
        let event = trace[m - 1];
        let after = before.apply(event);
        if m - 1 < report {
            assert(!(event is Expired));
            if before.phase is FannedOut {
                match event {
                    Event::Finished { task, matched } => {
                        assert(task != winner);
                        if 0 <= task < before.finished.len() {
                            assert(matched == matches[task]);
                        }
                    },
                    Event::Poll => {
                        assert(!before.all_finished());
                    },
                    _ => {},
                }
            }
        }
    } else {
        lemma_run_nothing(start, trace.take(0));
    }
}

/// Where exactly one probe matches and its task reports before the time
/// is up, the run returns that probe's provider, however many other
/// probes are registered and in whatever order their tasks finish. The
/// match wins even where the deadline passes, or the last task finishes,
/// between the report and the poll.
pub proof fn lemma_single_match_wins(
    timeout: u64,
    probes: Seq<Probe>,
    matches: Seq<bool>,
    trace: Seq<Event>,
    winner: int,
    launch: int,
    report: int,
    poll: int,
)
    requires
        matches.len() == probes.len(),
        faithful(trace, matches),
        0 <= winner < matches.len(),
        matches[winner],
        forall|task: int| 0 <= task < matches.len() && task != winner ==> !matches[task],
        0 <= launch < report < poll < trace.len(),
        trace[launch] is FanOut,
        trace[report] == (Event::Finished { task: winner, matched: true }),
        trace[poll] is Poll,
        forall|i: int| 0 <= i < report ==> !(#[trigger] trace[i] is Expired),
        forall|i: int| 0 <= i < report ==> !reports_on(#[trigger] trace[i], winner),
    ensures
        Run::idle(timeout, probes).run(trace).verdict() == Some(probes[winner].id()),
{
    let idle = Run::idle(timeout, probes);
    lemma_winner_upto(idle, matches, trace, winner, launch, report, poll, trace.len() as int);
    lemma_run_prefix(idle, trace, 0);
}

/// Where exactly one probe matches, a run never returns another
/// provider's identifier, and it returns the unknown provider only when
/// it has timed out: the end of all tasks cannot come before the match.
pub proof fn lemma_single_match_is_never_missed(
    timeout: u64,
    probes: Seq<Probe>,
    matches: Seq<bool>,
    trace: Seq<Event>,
    winner: int,
)
    requires
        matches.len() == probes.len(),
        faithful(trace, matches),
        0 <= winner < matches.len(),
        matches[winner],
        forall|task: int| 0 <= task < matches.len() && task != winner ==> !matches[task],
    ensures
        ({
            let end = Run::idle(timeout, probes).run(trace);
            ||| end.phase is Idle
            ||| end.phase is FannedOut
            ||| end.phase == Phase::Resolved(probes[winner].id())
            ||| end.phase is TimedOut
        }),
{
    let idle = Run::idle(timeout, probes);
    lemma_idle_run_is_consistent(timeout, probes, matches);
    lemma_trace_keeps_consistent(idle, trace, matches);
    lemma_run_keeps_snapshot(idle, trace);
    let end = idle.run(trace);
    if end.phase is AllFinishedEmpty {
        assert(end.finished[winner]);
    }
    if let Phase::Resolved(id) = end.phase {
        let task = choose|task: int|
            0 <= task < end.finished.len() && end.finished[task] && matches[task]
                && end.probes[task].id() == id;
        assert(task == winner);
    }
}

/// Two runs on the same host agree. Where no two providers match, two
/// runs over the same snapshot that are settled before their deadlines
/// return the same provider, in whatever order their tasks finished: a run
/// carries nothing over to the next.
pub proof fn lemma_runs_agree(
    timeout: u64,
    probes: Seq<Probe>,
    matches: Seq<bool>,
    first: Seq<Event>,
    second: Seq<Event>,
)
    requires
        matches.len() == probes.len(),
        faithful(first, matches),
        faithful(second, matches),
        forall|a: int, b: int|
            0 <= a < matches.len() && 0 <= b < matches.len() && matches[a] && matches[b]
                ==> probes[a].id() == probes[b].id(),
        Run::idle(timeout, probes).run(first).verdict() is Some,
        Run::idle(timeout, probes).run(second).verdict() is Some,
        !(Run::idle(timeout, probes).run(first).phase is TimedOut),
        !(Run::idle(timeout, probes).run(second).phase is TimedOut),
    ensures
        Run::idle(timeout, probes).run(first).verdict() == Run::idle(timeout, probes).run(
            second,
        ).verdict(),
{
    let idle = Run::idle(timeout, probes);
    lemma_idle_run_is_consistent(timeout, probes, matches);
    lemma_trace_keeps_consistent(idle, first, matches);
    lemma_trace_keeps_consistent(idle, second, matches);
    lemma_run_keeps_snapshot(idle, first);
    lemma_run_keeps_snapshot(idle, second);
    let one = idle.run(first);
    let two = idle.run(second);
    if let Phase::Resolved(a) = one.phase {
        let s = choose|task: int|
            0 <= task < one.finished.len() && one.finished[task] && matches[task]
                && one.probes[task].id() == a;
        if let Phase::Resolved(b) = two.phase {
            let t = choose|task: int|
                0 <= task < two.finished.len() && two.finished[task] && matches[task]
                    && two.probes[task].id() == b;
            assert(probes[s].id() == probes[t].id());
        } else {
            assert(two.finished[s]);
        }
    } else {
        if let Phase::Resolved(b) = two.phase {
            let t = choose|task: int|
                0 <= task < two.finished.len() && two.finished[task] && matches[task]
                    && two.probes[task].id() == b;
            assert(one.finished[t]);
        }
    }
}

/// A run is a function of what happens to it: the same snapshot, the same
/// timeout and the same events give the same verdict, every time.
pub proof fn lemma_same_events_same_verdict(
    timeout: u64,
    probes: Seq<Probe>,
    first: Seq<Event>,
    second: Seq<Event>,
)
    requires
        first =~= second,
    ensures
        Run::idle(timeout, probes).run(first).verdict() == Run::idle(timeout, probes).run(
            second,
        ).verdict(),
{
}

/// A run whose every task has finished without a match is settled by the
/// next poll, without waiting for the deadline.
pub proof fn lemma_all_finished_settles_the_run(run: Run)
    requires
        run.phase is FannedOut,
        run.slot is None,
        run.all_finished(),
    ensures
        run.apply(Event::Poll).verdict() == Some(ProviderId::Unknown),
        run.apply(Event::Poll).phase is AllFinishedEmpty,
{
}

/// A match in the slot comes before everything else: the next poll
/// returns it even if every task has finished and the time is up.
pub proof fn lemma_match_comes_first(run: Run, id: ProviderId)
    requires
        run.phase is FannedOut,
        run.slot == Some(id),
    ensures
        run.apply(Event::Poll).verdict() == Some(id),
{
}

/// Only the first match is kept: a task that finishes with a match while
/// the slot is taken does not change what the run will return.
pub proof fn lemma_first_match_is_kept(run: Run, id: ProviderId, task: int, matched: bool)
    requires
        run.slot == Some(id),
    ensures
        run.apply(Event::Finished { task, matched }).slot == Some(id),
{
}

} // verus!
