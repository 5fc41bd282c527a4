//! Debouncing: a raw sample that disagrees with the confirmed status only
//! counts; the status flips once enough of them have come in a row.

use crate::data::{AppData, ResourceStatus};
use vstd::prelude::*;

verus! {

/// The part of the runtime state that debouncing reads and writes.
pub struct Debounce {
    /// The confirmed status.
    pub status: ResourceStatus,
    /// How many samples in a row have disagreed with it.
    pub counter: nat,
    /// When it was last confirmed, in seconds since the Unix epoch.
    pub last_change: int,
}

/// A raw sample and the time at which it was taken.
pub struct Sample {
    pub status: ResourceStatus,
    pub at: int,
}

impl AppData {
    pub open spec fn debounce(&self) -> Debounce {
        Debounce {
            status: self.status,
            counter: self.attempts_before_notification as nat,
            last_change: self.last_status_change as int,
        }
    }

    /// How many disagreeing samples in a row confirm a change.
    pub open spec fn threshold(&self) -> nat {
        self.config.ping_config.required_attempts_before_notification as nat
    }
}

/// Whether `sample` confirms a change of status: it disagrees with the
/// confirmed status, and with it the disagreeing samples in a row number
/// at least `threshold`.
pub open spec fn confirms(state: Debounce, threshold: nat, sample: ResourceStatus) -> bool {
    sample != state.status && state.counter + 1 >= threshold
}

/// The state after one observation. An agreeing sample sets the counter
/// back to nought. A disagreeing one either confirms the change, which
/// makes it the status, stamps the time and sets the counter back, or
/// adds one to the counter.
pub open spec fn observe(state: Debounce, threshold: nat, sample: ResourceStatus, now: int) -> Debounce {
    if sample == state.status {
        Debounce { counter: 0, ..state }
    } else if confirms(state, threshold, sample) {
        Debounce { status: sample, counter: 0, last_change: now }
    } else {
        Debounce { counter: state.counter + 1, ..state }
    }
}

/// Takes one raw sample into account. Returns the old and the new status
/// when the sample confirms a change, and nothing otherwise. The caller
/// notifies the destinations and saves the state after a change, before it
/// takes the next sample.
pub fn update_status(status: ResourceStatus, data: &mut AppData, now: i64) -> (change: Option<
    (ResourceStatus, ResourceStatus),
>)
    ensures
        final(data).debounce() == observe(
            old(data).debounce(),
            old(data).threshold(),
            status,
            now as int,
        ),
        change == if confirms(old(data).debounce(), old(data).threshold(), status) {
            Some((old(data).status, status))
        } else {
            None
        },
        final(data).used_messages == old(data).used_messages,
        final(data).config == old(data).config,
{
    let old_status = data.status;
    if status == old_status {
        data.attempts_before_notification = 0;
        return None;
    }
    let required = data.config.ping_config.required_attempts_before_notification;
    if required == 0 || data.attempts_before_notification >= required - 1 {
        data.attempts_before_notification = 0;
        data.status = status;
        data.last_status_change = now;
        Some((old_status, status))
    } else {
        data.attempts_before_notification = data.attempts_before_notification + 1;
        None
    }
}

/// The state after a run of observations, oldest first.
pub open spec fn run(state: Debounce, threshold: nat, samples: Seq<Sample>) -> Debounce
    decreases samples.len(),
{
    if samples.len() == 0 {
        state
    } else {
        observe(
            run(state, threshold, samples.drop_last()),
            threshold,
            samples.last().status,
            samples.last().at,
        )
    }
}

/// How many changes of status a run of observations confirms.
pub open spec fn changes(state: Debounce, threshold: nat, samples: Seq<Sample>) -> nat
    decreases samples.len(),
{
    if samples.len() == 0 {
        0
    } else {
        let before = run(state, threshold, samples.drop_last());
        let earlier = changes(state, threshold, samples.drop_last());
        if confirms(before, threshold, samples.last().status) {
            earlier + 1
        } else {
            earlier
        }
    }
}

/// One agreeing sample sets the counter back to nought, however close to
/// the threshold it was, and leaves the status and its time as they were.
pub proof fn lemma_agreeing_sample_resets(state: Debounce, threshold: nat, now: int)
    ensures
        observe(state, threshold, state.status, now) == (Debounce { counter: 0, ..state }),
        !confirms(state, threshold, state.status),
{
}

/// A change of status is confirmed at most once per `threshold` samples:
/// over any run, the changes times the threshold, together with the
/// disagreeing samples counted at its end, never exceed the samples taken
/// plus those counted at its start.
pub proof fn lemma_changes_bounded(state: Debounce, threshold: nat, samples: Seq<Sample>)
    requires
        threshold >= 1,
    ensures
        changes(state, threshold, samples) * threshold + run(state, threshold, samples).counter
            <= samples.len() + state.counter,
    decreases samples.len(),
{
    if samples.len() > 0 {
        let earlier = samples.drop_last();
        lemma_changes_bounded(state, threshold, earlier);
        let before = run(state, threshold, earlier);
        let count = changes(state, threshold, earlier);
        if confirms(before, threshold, samples.last().status) {
            assert((count + 1) * threshold == count * threshold + threshold) by (nonlinear_arith);
        }
    } else {
        assert(0 * threshold == 0) by (nonlinear_arith);
    }
}

/// The counter counts a streak. After a run that began with the counter at
/// nought, the samples that the counter stands for are the last ones
/// taken, each of them disagrees with the confirmed status, and that
/// status did not change while they came in.
pub proof fn lemma_counter_counts_streak(state: Debounce, threshold: nat, samples: Seq<Sample>)
    requires
        state.counter == 0,
    ensures
        run(state, threshold, samples).counter <= samples.len(),
        forall|j: int|
            samples.len() - run(state, threshold, samples).counter <= j < samples.len() ==> {
                &&& (#[trigger] samples[j]).status != run(state, threshold, samples).status
                &&& run(state, threshold, samples.take(j)).status == run(
                    state,
                    threshold,
                    samples,
                ).status
            },
    decreases samples.len(),
{
    if samples.len() > 0 {
        let earlier = samples.drop_last();
        let before = run(state, threshold, earlier);
        let end = run(state, threshold, samples);
        lemma_counter_counts_streak(state, threshold, earlier);
        assert forall|j: int| samples.len() - end.counter <= j < samples.len() implies {
            &&& (#[trigger] samples[j]).status != end.status
            &&& run(state, threshold, samples.take(j)).status == end.status
        } by {
            if j == samples.len() - 1 {
                assert(samples.take(j) =~= earlier);
            } else {
                assert(samples.take(j) =~= earlier.take(j));
                assert(earlier[j] == samples[j]);
            }
        }
    }
}

/// A change of status takes `threshold` disagreeing samples in a row. In a
/// run that began with the counter at nought, the sample that confirms a
/// change is the last of at least `threshold` samples, each of which
/// disagrees with the status confirmed until then, and that status held
/// throughout them.
pub proof fn lemma_change_needs_streak(state: Debounce, threshold: nat, samples: Seq<Sample>)
    requires
        state.counter == 0,
        threshold >= 1,
        samples.len() > 0,
        confirms(run(state, threshold, samples.drop_last()), threshold, samples.last().status),
    ensures
        samples.len() >= threshold,
        forall|j: int|
            samples.len() - threshold <= j < samples.len() ==> {
                &&& (#[trigger] samples[j]).status != run(
                    state,
                    threshold,
                    samples.drop_last(),
                ).status
                &&& run(state, threshold, samples.take(j)).status == run(
                    state,
                    threshold,
                    samples.drop_last(),
                ).status
            },
{
    let earlier = samples.drop_last();
    let before = run(state, threshold, earlier);
    lemma_counter_counts_streak(state, threshold, earlier);
    assert forall|j: int| samples.len() - threshold <= j < samples.len() implies {
        &&& (#[trigger] samples[j]).status != before.status
        &&& run(state, threshold, samples.take(j)).status == before.status
    } by {
        if j == samples.len() - 1 {
            assert(samples.take(j) =~= earlier);
        } else {
            assert(samples.take(j) =~= earlier.take(j));
            assert(earlier[j] == samples[j]);
        }
    }
}

/// Samples that all agree with the confirmed status change nothing: no
/// change is confirmed, and the status and the time of its last change
/// stay as they were.
pub proof fn lemma_agreeing_run_is_silent(state: Debounce, threshold: nat, samples: Seq<Sample>)
    requires
        forall|i: int| 0 <= i < samples.len() ==> (#[trigger] samples[i]).status == state.status,
    ensures
        changes(state, threshold, samples) == 0,
        run(state, threshold, samples).status == state.status,
        run(state, threshold, samples).last_change == state.last_change,
        samples.len() > 0 ==> run(state, threshold, samples).counter == 0,
    decreases samples.len(),
{
    if samples.len() > 0 {
        let earlier = samples.drop_last();
        assert forall|i: int| 0 <= i < earlier.len() implies (#[trigger] earlier[i]).status
            == state.status by {
            assert(earlier[i] == samples[i]);
        }
        lemma_agreeing_run_is_silent(state, threshold, earlier);
        assert(samples.last() == samples[samples.len() - 1]);
    }
}

} // verus!
