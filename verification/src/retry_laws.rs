//! What holds of every run of the retry controller.

use crate::backoff::backoff_delay_spec;
use crate::config::effective_max_retries_spec;
use crate::item::{lemma_apply_keeps_wf, ItemView, UpdateView};
use crate::retry::{ActionView, ControllerView, InputView, Outcome, Phase};
use crate::event::EventView;
use crate::status::DownloadStatus;
use vstd::arithmetic::power2::pow2;
use vstd::prelude::*;

verus! {

/// The number of Downloader invocations among `actions`.
pub open spec fn runs_in(actions: Seq<ActionView>) -> nat
    decreases actions.len(),
{
    if actions.len() == 0 {
        0
    } else {
        runs_in(actions.drop_last()) + if actions.last() is RunDownloader {
            1nat
        } else {
            0nat
        }
    }
}

/// The row `item` after the writes among `actions`, made in order.
pub open spec fn after_writes(item: ItemView, actions: Seq<ActionView>) -> ItemView
    decreases actions.len(),
{
    if actions.len() == 0 {
        item
    } else {
        let before = after_writes(item, actions.drop_last());
        match actions.last() {
            ActionView::Write(u) => before.apply(u),
            _ => before,
        }
    }
}

/// The controller after the Downloader has failed once for each message of
/// `errors`, in turn.
pub open spec fn after_failures(c: ControllerView, errors: Seq<Seq<char>>, now: i64) -> ControllerView
    decreases errors.len(),
{
    if errors.len() == 0 {
        c
    } else {
        after_failures(c, errors.drop_last(), now).step(
            InputView::Attempt(Err(errors.last())),
            now,
        ).0
    }
}

/// The Downloader invocations that the controller asks for while the
/// Downloader fails once for each message of `errors`.
pub open spec fn runs_during_failures(c: ControllerView, errors: Seq<Seq<char>>, now: i64) -> nat
    decreases errors.len(),
{
    if errors.len() == 0 {
        0
    } else {
        runs_during_failures(c, errors.drop_last(), now) + runs_in(
            after_failures(c, errors.drop_last(), now).step(
                InputView::Attempt(Err(errors.last())),
                now,
            ).1,
        )
    }
}

/// Every step keeps the retries made within the ceiling.
pub proof fn lemma_step_keeps_ceiling(c: ControllerView, input: InputView, now: i64)
    requires
        c.wf(),
    ensures
        c.step(input, now).0.wf(),
        c.step(input, now).0.id == c.id,
{
}

/// Of the actions of one step only the last can be one that the caller owes an
/// answer for, and a step that ends the run asks for none.
pub proof fn lemma_one_answer_per_step(c: ControllerView, input: InputView, now: i64)
    ensures
        ({
            let (next, actions) = c.step(input, now);
            &&& forall|i: int| 0 <= i < actions.len() - 1 ==> !(#[trigger] actions[i]).wants_answer()
            &&& next.phase is Finished ==> forall|i: int|
                0 <= i < actions.len() ==> !(#[trigger] actions[i]).wants_answer()
            &&& !(next.phase is Finished) && next != c ==> actions.len() > 0
                && actions.last().wants_answer()
        }),
{
}

/// While fewer failures have come than the ceiling allows, the run goes on:
/// after `k` failures it is in its attempt number `k`, and has asked for one
/// more Downloader invocation per failure.
proof fn lemma_failures_below_ceiling(c: ControllerView, errors: Seq<Seq<char>>, now: i64)
    requires
        c.phase == Phase::Running,
        c.attempt == 0,
        errors.len() <= c.max_retries,
    ensures
        after_failures(c, errors, now) == (ControllerView { attempt: errors.len() as u32, ..c }),
        runs_during_failures(c, errors, now) == errors.len(),
    decreases errors.len(),
{
    if errors.len() > 0 {
        lemma_failures_below_ceiling(c, errors.drop_last(), now);
        let before = after_failures(c, errors.drop_last(), now);
        let (next, actions) = before.step(InputView::Attempt(Err(errors.last())), now);
        assert(actions.len() == 6);
        reveal_with_fuel(runs_in, 7);
        assert(runs_in(actions) == 1);
    }
}

/// A job whose Downloader always fails is attempted exactly `max_retries + 1`
/// times: the run is still going after each of the first `max_retries`
/// failures, and ends as failed with the next.
pub proof fn lemma_always_failing_run(
    c: ControllerView,
    setting: Option<Seq<char>>,
    errors: Seq<Seq<char>>,
    now: i64,
)
    requires
        c.phase == Phase::ReadingCeiling,
        errors.len() == effective_max_retries_spec(setting, c.fallback_retries) + 1,
    ensures
        ({
            let (started, first) = c.step(InputView::Setting(setting), now);
            &&& started.max_retries == effective_max_retries_spec(setting, c.fallback_retries)
            &&& runs_in(first) + runs_during_failures(started, errors, now) == started.max_retries
                + 1
            &&& after_failures(started, errors, now).phase == Phase::Finished(Outcome::Failed)
            &&& forall|k: int|
                0 <= k < errors.len() ==> (#[trigger] after_failures(
                    started,
                    errors.take(k),
                    now,
                )).phase == Phase::Running
        }),
{
    let (started, first) = c.step(InputView::Setting(setting), now);
    reveal_with_fuel(runs_in, 2);
    assert(runs_in(first) == 1);
    lemma_failures_below_ceiling(started, errors.drop_last(), now);
    let before = after_failures(started, errors.drop_last(), now);
    let (last, actions) = before.step(InputView::Attempt(Err(errors.last())), now);
    assert(actions.len() == 3);
    reveal_with_fuel(runs_in, 4);
    assert(runs_in(actions) == 0);
    assert forall|k: int| 0 <= k < errors.len() implies (#[trigger] after_failures(
        started,
        errors.take(k),
        now,
    )).phase == Phase::Running by {
        lemma_failures_below_ceiling(started, errors.take(k), now);
    }
}

/// The wait before attempt `n + 1` of a run, that is after its failure
/// number `n`, is `2^n` seconds, and it is the only wait of that step.
pub proof fn lemma_backoff_before_retry(c: ControllerView, message: Seq<char>, now: i64)
    requires
        c.phase == Phase::Running,
        c.attempt < c.max_retries,
        c.attempt + 1 < 64,
    ensures
        ({
            let (next, actions) = c.step(InputView::Attempt(Err(message)), now);
            let n = (c.attempt + 1) as nat;
            &&& next.phase == Phase::Running
            &&& next.attempt == n
            &&& actions.len() == 6
            &&& actions[2] == ActionView::Sleep { seconds: pow2(n) as u64 }
            &&& actions[5] == ActionView::RunDownloader
            &&& forall|i: int| 0 <= i < 6 && #[trigger] actions[i] is Sleep ==> i == 2
        }),
{
    assert(backoff_delay_spec((c.attempt + 1) as u32) == pow2((c.attempt + 1) as nat) as u64);
}

/// Whether a write is one that only changes rows that are queued or
/// downloading.
pub open spec fn is_run_write(u: UpdateView) -> bool {
    !(u is Retry) && !(u is SetPriority)
}

/// The writes of a step are writes of a run, and each is well-formed.
pub proof fn lemma_step_writes(c: ControllerView, input: InputView, now: i64)
    ensures
        forall|i: int|
            0 <= i < c.step(input, now).1.len() ==> match #[trigger] c.step(input, now).1[i] {
                ActionView::Write(u) => is_run_write(u) && u.wf(),
                _ => true,
            },
{
}

proof fn lemma_run_writes(item: ItemView, actions: Seq<ActionView>)
    requires
        forall|i: int|
            0 <= i < actions.len() ==> match #[trigger] actions[i] {
                ActionView::Write(u) => is_run_write(u) && u.wf(),
                _ => true,
            },
    ensures
        item.wf() ==> after_writes(item, actions).wf(),
        item.status.is_terminal() ==> after_writes(item, actions) == item,
    decreases actions.len(),
{
    if actions.len() > 0 {
        lemma_run_writes(item, actions.drop_last());
        let before = after_writes(item, actions.drop_last());
        assert(actions[actions.len() - 1] == actions.last());
        match actions.last() {
            ActionView::Write(u) => {
                if item.wf() {
                    lemma_apply_keeps_wf(before, u);
                }
            },
            _ => {},
        }
    }
}

/// No step of any run changes a row whose status is terminal: what was
/// cancelled stays cancelled, whatever the Downloader does afterwards.
pub proof fn lemma_terminal_row_untouched(
    c: ControllerView,
    input: InputView,
    now: i64,
    item: ItemView,
)
    requires
        item.status.is_terminal(),
    ensures
        after_writes(item, c.step(input, now).1) == item,
{
    lemma_step_writes(c, input, now);
    lemma_run_writes(item, c.step(input, now).1);
}

/// The writes of a step keep a well-formed row well-formed.
pub proof fn lemma_step_keeps_row_wf(c: ControllerView, input: InputView, now: i64, item: ItemView)
    requires
        item.wf(),
    ensures
        after_writes(item, c.step(input, now).1).wf(),
{
    lemma_step_writes(c, input, now);
    lemma_run_writes(item, c.step(input, now).1);
}

/// A download that succeeds on an item cancelled meanwhile is discarded: the
/// artifact is deleted, nothing is written, and the item stays `cancelled`.
pub proof fn lemma_cancelled_run_is_discarded(
    c: ControllerView,
    path: Seq<char>,
    finished_at: i64,
    checked_at: i64,
    item: ItemView,
)
    requires
        c.phase == Phase::Running,
        item.status == DownloadStatus::Cancelled,
    ensures
        ({
            let (checking, first) = c.step(InputView::Attempt(Ok(path)), finished_at);
            let (ended, second) = checking.step(
                InputView::Status(Some(DownloadStatus::Cancelled)),
                checked_at,
            );
            &&& first == seq![ActionView::LoadStatus]
            &&& ended.phase == Phase::Finished(Outcome::Discarded)
            &&& path.len() > 0 ==> second == seq![ActionView::DeleteArtifact { path }]
            &&& path.len() == 0 ==> second.len() == 0
            &&& after_writes(item, first + second) == item
            &&& after_writes(item, first + second).status == DownloadStatus::Cancelled
        }),
{
    reveal_with_fuel(after_writes, 4);
    let (checking, first) = c.step(InputView::Attempt(Ok(path)), finished_at);
    let (ended, second) = checking.step(
        InputView::Status(Some(DownloadStatus::Cancelled)),
        checked_at,
    );
    if path.len() > 0 {
        assert(first + second =~= seq![
            ActionView::LoadStatus,
            ActionView::DeleteArtifact { path },
        ]);
    } else {
        assert(first + second =~= seq![ActionView::LoadStatus]);
    }
}

/// The seconds that the caller waits while performing `actions`.
pub open spec fn waits_in(actions: Seq<ActionView>) -> nat
    decreases actions.len(),
{
    if actions.len() == 0 {
        0
    } else {
        waits_in(actions.drop_last()) + match actions.last() {
            ActionView::Sleep { seconds } => seconds as nat,
            _ => 0nat,
        }
    }
}

/// The events of the given kind that the caller publishes while performing
/// `actions`: failure messages, or changes to `status`.
pub open spec fn published_in(actions: Seq<ActionView>, status: Option<DownloadStatus>) -> nat
    decreases actions.len(),
{
    if actions.len() == 0 {
        0
    } else {
        published_in(actions.drop_last(), status) + match (actions.last(), status) {
            (ActionView::Publish(EventView::Error { .. }), None) => 1nat,
            (ActionView::Publish(EventView::StatusChange { status: s, .. }), Some(wanted)) => if s
                == wanted {
                1nat
            } else {
                0nat
            },
            _ => 0nat,
        }
    }
}

/// The seconds waited while the Downloader fails once for each message of
/// `errors`.
pub open spec fn waits_during_failures(c: ControllerView, errors: Seq<Seq<char>>, now: i64) -> nat
    decreases errors.len(),
{
    if errors.len() == 0 {
        0
    } else {
        waits_during_failures(c, errors.drop_last(), now) + waits_in(
            after_failures(c, errors.drop_last(), now).step(
                InputView::Attempt(Err(errors.last())),
                now,
            ).1,
        )
    }
}

/// The events of a kind published while the Downloader fails once for each
/// message of `errors`.
pub open spec fn published_during_failures(
    c: ControllerView,
    errors: Seq<Seq<char>>,
    now: i64,
    status: Option<DownloadStatus>,
) -> nat
    decreases errors.len(),
{
    if errors.len() == 0 {
        0
    } else {
        published_during_failures(c, errors.drop_last(), now, status) + published_in(
            after_failures(c, errors.drop_last(), now).step(
                InputView::Attempt(Err(errors.last())),
                now,
            ).1,
            status,
        )
    }
}

/// A job whose Downloader fails `k` times, within the ceiling, and then
/// succeeds: each failure is followed by one failure message, one wait and
/// one signal that the download goes on; the waits add up to
/// `2 + 4 + ... + 2^k` seconds; and the success marks the item done, unless
/// it was cancelled meanwhile.
pub proof fn lemma_fails_then_succeeds(
    c: ControllerView,
    errors: Seq<Seq<char>>,
    path: Seq<char>,
    now: i64,
)
    requires
        c.phase == Phase::Running,
        c.attempt == 0,
        errors.len() <= c.max_retries,
        errors.len() < 64,
    ensures
        ({
            let retried = after_failures(c, errors, now);
            let (checking, _) = retried.step(InputView::Attempt(Ok(path)), now);
            let (ended, last) = checking.step(
                InputView::Status(Some(DownloadStatus::Downloading)),
                now,
            );
            &&& retried.phase == Phase::Running
            &&& runs_during_failures(c, errors, now) == errors.len()
            &&& published_during_failures(c, errors, now, None) == errors.len()
            &&& published_during_failures(c, errors, now, Some(DownloadStatus::Downloading))
                == errors.len()
            &&& published_during_failures(c, errors, now, Some(DownloadStatus::Failed)) == 0
            &&& waits_during_failures(c, errors, now) == pow2((errors.len() + 1) as nat) - 2
            &&& ended.phase == Phase::Finished(Outcome::Done)
            &&& published_in(last, Some(DownloadStatus::Done)) == 1
            &&& published_in(last, None) == 0
        }),
    decreases errors.len(),
{
    vstd::arithmetic::power2::lemma2_to64();
    lemma_failures_below_ceiling(c, errors, now);
    if errors.len() > 0 {
        lemma_fails_then_succeeds(c, errors.drop_last(), path, now);
        lemma_failures_below_ceiling(c, errors.drop_last(), now);
        let before = after_failures(c, errors.drop_last(), now);
        let (next, actions) = before.step(InputView::Attempt(Err(errors.last())), now);
        assert(actions.len() == 6);
        reveal_with_fuel(waits_in, 7);
        reveal_with_fuel(published_in, 7);
        let n = errors.len();
        assert(actions[2] == ActionView::Sleep { seconds: backoff_delay_spec(n as u32) });
        vstd::arithmetic::power2::lemma_pow2_unfold((n + 1) as nat);
        crate::backoff::lemma_pow2_fits(n as nat);
        assert(waits_in(actions) == pow2(n as nat));
        assert(published_in(actions, None) == 1);
        assert(published_in(actions, Some(DownloadStatus::Downloading)) == 1);
        assert(published_in(actions, Some(DownloadStatus::Failed)) == 0);
    }
    let retried = after_failures(c, errors, now);
    let (checking, _) = retried.step(InputView::Attempt(Ok(path)), now);
    let (ended, last) = checking.step(InputView::Status(Some(DownloadStatus::Downloading)), now);
    assert(last.len() == 2);
    reveal_with_fuel(published_in, 3);
}

/// A change of status is published only behind the write that makes it:
/// `done` behind the completing write and `failed` behind the failing one, in
/// the same step.
pub proof fn lemma_write_precedes_publish(c: ControllerView, input: InputView, now: i64, i: int)
    requires
        0 <= i < c.step(input, now).1.len(),
    ensures
        ({
            let actions = c.step(input, now).1;
            &&& actions[i] matches ActionView::Publish(
                EventView::StatusChange { status: DownloadStatus::Done, .. },
            ) ==> i > 0 && actions[i - 1] is Write && actions[i - 1]->Write_0 is Complete
            &&& actions[i] matches ActionView::Publish(
                EventView::StatusChange { status: DownloadStatus::Failed, .. },
            ) ==> i > 1 && actions[i - 2] is Write && actions[i - 2]->Write_0 is Fail
            &&& actions[i] matches ActionView::Publish(
                EventView::StatusChange { status: DownloadStatus::Downloading, .. },
            ) ==> c.phase == Phase::Marking || (i > 0 && actions[i - 1] is Write)
            &&& !(actions[i] matches ActionView::Publish(
                EventView::StatusChange { status: DownloadStatus::Queued, .. },
            ))
            &&& !(actions[i] matches ActionView::Publish(
                EventView::StatusChange { status: DownloadStatus::Cancelled, .. },
            ))
        }),
{
}

} // verus!
