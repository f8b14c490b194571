use vstd::prelude::*;
use crate::errors::ConfigError;
use crate::pin::Level;

verus! {

/// Where the debouncer stands in the press/release protocol.
#[derive(Clone, Copy, Debug, PartialEq, Eq, Structural)]
pub enum DebouncePhase {
    /// Stable at the idle level, waiting for activity.
    Idle,
    /// Activity seen; counting consecutive active samples toward the
    /// settle time.
    PressSettle { held: u32 },
    /// The active level has held for a full settle time: a press is
    /// underway, waiting for release.
    Pressed,
    /// Idle seen after a qualified press; counting consecutive idle
    /// samples toward the settle time.
    ReleaseSettle { held: u32 },
}

/// A policy that converts noisy mechanical transitions on a sampled
/// line into single logical events. One event is committed per press
/// whose active level holds for at least `settle_time` consecutive
/// samples and which is then followed by at least `settle_time`
/// consecutive idle samples; any shorter burst of activity or of
/// bounce during release is absorbed.
#[derive(Debug)]
pub struct DebounceGate {
    /// Consecutive samples a level must hold to count as settled.
    pub settle_time: u32,
    /// The level that means "pressed" on this line.
    pub active_level: Level,
    /// Current protocol phase.
    pub phase: DebouncePhase,
}

impl DebounceGate {
    /// Internal consistency: a positive settle time, with any partial
    /// settle count strictly below it.
    pub open spec fn wf(self) -> bool {
        &&& self.settle_time >= 1
        &&& match self.phase {
            DebouncePhase::PressSettle { held } => 1 <= held < self.settle_time,
            DebouncePhase::ReleaseSettle { held } => 1 <= held < self.settle_time,
            _ => true,
        }
    }

    /// A debouncer for a line with the given active level, starting idle.
    /// A zero settle time would commit on raw noise and is a
    /// configuration error.
    pub fn new(settle_time: u32, active_level: Level) -> (r: Result<Self, ConfigError>)
        ensures
            r is Ok <==> settle_time >= 1,
            r matches Ok(g) ==> {
                &&& g.wf()
                &&& g.settle_time == settle_time
                &&& g.active_level == active_level
                &&& g.phase == DebouncePhase::Idle
            },
            r matches Err(e) ==> e == ConfigError::InvalidSettleTime,
    {
        if settle_time >= 1 {
            Result::Ok(DebounceGate { settle_time, active_level, phase: DebouncePhase::Idle })
        } else {
            Result::Err(ConfigError::InvalidSettleTime)
        }
    }

    /// Feed one raw sample; the result is whether this sample
    /// committed a press.
    pub fn step(&mut self, raw: Level) -> (committed: bool)
        requires
            old(self).wf(),
        ensures
            final(self).wf(),
            *final(self) == next_gate(*old(self), raw),
            committed == commits(*old(self), raw),
    {
        let active = raw == self.active_level;
        let settle = self.settle_time;
        match self.phase {
            DebouncePhase::Idle => {
                if active {
                    if settle <= 1 {
                        self.phase = DebouncePhase::Pressed;
                    } else {
                        self.phase = DebouncePhase::PressSettle { held: 1 };
                    }
                }
                false
            },
            DebouncePhase::PressSettle { held } => {
                if active {
                    if held + 1 >= settle {
                        self.phase = DebouncePhase::Pressed;
                    } else {
                        self.phase = DebouncePhase::PressSettle { held: held + 1 };
                    }
                } else {
                    self.phase = DebouncePhase::Idle;
                }
                false
            },
            DebouncePhase::Pressed => {
                if active {
                    false
                } else {
                    if settle <= 1 {
                        self.phase = DebouncePhase::Idle;
                        true
                    } else {
                        self.phase = DebouncePhase::ReleaseSettle { held: 1 };
                        false
                    }
                }
            },
            DebouncePhase::ReleaseSettle { held } => {
                if active {
                    self.phase = DebouncePhase::Pressed;
                    false
                } else {
                    if held + 1 >= settle {
                        self.phase = DebouncePhase::Idle;
                        true
                    } else {
                        self.phase = DebouncePhase::ReleaseSettle { held: held + 1 };
                        false
                    }
                }
            },
        }
    }

    /// Feed a whole sample stream and count the committed presses.
    pub fn run(&mut self, samples: &Vec<Level>) -> (count: usize)
        requires
            old(self).wf(),
        ensures
            final(self).wf(),
            *final(self) == gate_after(*old(self), samples@),
            count == commit_count(*old(self), samples@),
    {
        let ghost g0 = *self;
        let mut count: usize = 0;
        let mut i: usize = 0;
        proof {
            assert(samples@.take(0) =~= Seq::<Level>::empty());
        }
        while i < samples.len()
            invariant
                self.wf(),
                i <= samples.len(),
                g0.wf(),
                *self == gate_after(g0, samples@.take(i as int)),
                count == commit_count(g0, samples@.take(i as int)),
                count <= i,
            decreases samples.len() - i,
        {
            let ghost taken = samples@.take(i as int);
            let c = self.step(samples[i]);
            proof {
                lemma_fold_snoc(g0, taken, samples@[i as int]);
                assert(taken.push(samples@[i as int]) =~= samples@.take(i as int + 1));
            }
            if c {
                count = count + 1;
            }
            i = i + 1;
        }
        proof {
            assert(samples@.take(samples@.len() as int) =~= samples@);
        }
        count
    }

    /// Feed samples until the first committed press, reporting whether
    /// one was found. The stream commits somewhere iff the full run
    /// would count at least one press.
    pub fn wait_for_event(&mut self, samples: &Vec<Level>) -> (found: bool)
        requires
            old(self).wf(),
        ensures
            final(self).wf(),
            found == (commit_count(*old(self), samples@) >= 1),
    {
        let ghost g0 = *self;
        let mut i: usize = 0;
        proof {
            assert(samples@.skip(0) =~= samples@);
        }
        while i < samples.len()
            invariant
                self.wf(),
                i <= samples.len(),
                g0 == *old(self),
                commit_count(g0, samples@) == commit_count(*self, samples@.skip(i as int)),
            decreases samples.len() - i,
        {
            let ghost before = *self;
            let ghost rest = samples@.skip(i as int);
            let c = self.step(samples[i]);
            proof {
                assert(rest[0] == samples@[i as int]);
                assert(rest.drop_first() =~= samples@.skip(i as int + 1));
            }
            if c {
                proof {
                    assert(commit_count(before, rest) == 1 + commit_count(
                        next_gate(before, rest[0]),
                        rest.drop_first(),
                    ));
                }
                return true;
            }
            i = i + 1;
        }
        proof {
            assert(samples@.skip(samples@.len() as int) =~= Seq::<Level>::empty());
        }
        false
    }
}

/// The debouncer's state after one raw sample.
pub open spec fn next_gate(g: DebounceGate, raw: Level) -> DebounceGate {
    let active = raw == g.active_level;
    let phase = match g.phase {
        DebouncePhase::Idle => if active {
            if g.settle_time <= 1 {
                DebouncePhase::Pressed
            } else {
                DebouncePhase::PressSettle { held: 1 }
            }
        } else {
            DebouncePhase::Idle
        },
        DebouncePhase::PressSettle { held } => if active {
            if held + 1 >= g.settle_time {
                DebouncePhase::Pressed
            } else {
                DebouncePhase::PressSettle { held: (held + 1) as u32 }
            }
        } else {
            DebouncePhase::Idle
        },
        DebouncePhase::Pressed => if active {
            DebouncePhase::Pressed
        } else {
            if g.settle_time <= 1 {
                DebouncePhase::Idle
            } else {
                DebouncePhase::ReleaseSettle { held: 1 }
            }
        },
        DebouncePhase::ReleaseSettle { held } => if active {
            DebouncePhase::Pressed
        } else {
            if held + 1 >= g.settle_time {
                DebouncePhase::Idle
            } else {
                DebouncePhase::ReleaseSettle { held: (held + 1) as u32 }
            }
        },
    };
    DebounceGate { phase, ..g }
}

/// Whether one raw sample commits a press: only the sample that
/// completes the release settle does.
pub open spec fn commits(g: DebounceGate, raw: Level) -> bool {
    let active = raw == g.active_level;
    match g.phase {
        DebouncePhase::Pressed => !active && g.settle_time <= 1,
        DebouncePhase::ReleaseSettle { held } => !active && held + 1 >= g.settle_time,
        _ => false,
    }
}

/// The debouncer's state after a whole sample stream.
pub open spec fn gate_after(g: DebounceGate, samples: Seq<Level>) -> DebounceGate
    decreases samples.len(),
{
    if samples.len() == 0 {
        g
    } else {
        gate_after(next_gate(g, samples[0]), samples.drop_first())
    }
}

/// How many presses a sample stream commits.
pub open spec fn commit_count(g: DebounceGate, samples: Seq<Level>) -> nat
    decreases samples.len(),
{
    if samples.len() == 0 {
        0
    } else {
        (if commits(g, samples[0]) {
            1nat
        } else {
            0nat
        }) + commit_count(next_gate(g, samples[0]), samples.drop_first())
    }
}

/// One step preserves consistency.
pub proof fn lemma_step_wf(g: DebounceGate, raw: Level)
    requires
        g.wf(),
    ensures
        next_gate(g, raw).wf(),
{
}

/// Folding one more sample onto the end of a stream.
pub proof fn lemma_fold_snoc(g: DebounceGate, samples: Seq<Level>, raw: Level)
    ensures
        gate_after(g, samples.push(raw)) == next_gate(gate_after(g, samples), raw),
        commit_count(g, samples.push(raw)) == commit_count(g, samples) + (if commits(
            gate_after(g, samples),
            raw,
        ) {
            1nat
        } else {
            0nat
        }),
    decreases samples.len(),
{
    if samples.len() == 0 {
        assert(samples.push(raw)[0] == raw);
        assert(samples.push(raw).drop_first() =~= Seq::<Level>::empty());
        assert(gate_after(g, samples) == g);
        assert(commit_count(g, samples) == 0);
        assert(gate_after(next_gate(g, raw), Seq::<Level>::empty()) == next_gate(g, raw));
        assert(commit_count(next_gate(g, raw), Seq::<Level>::empty()) == 0);
    } else {
        assert(samples.push(raw)[0] == samples[0]);
        assert(samples.push(raw).drop_first() =~= samples.drop_first().push(raw));
        lemma_fold_snoc(next_gate(g, samples[0]), samples.drop_first(), raw);
    }
}

/// Splitting a stream: the count over a concatenation is the count
/// over the first part plus the count over the second from where the
/// first part left the debouncer.
pub proof fn lemma_count_append(g: DebounceGate, a: Seq<Level>, b: Seq<Level>)
    ensures
        gate_after(g, a + b) == gate_after(gate_after(g, a), b),
        commit_count(g, a + b) == commit_count(g, a) + commit_count(gate_after(g, a), b),
    decreases a.len(),
{
    if a.len() == 0 {
        assert(a + b =~= b);
    } else {
        assert((a + b)[0] == a[0]);
        assert((a + b).drop_first() =~= a.drop_first() + b);
        lemma_count_append(next_gate(g, a[0]), a.drop_first(), b);
    }
}

/// Every sample in the stream is the active level.
pub open spec fn all_active(samples: Seq<Level>, active: Level) -> bool {
    forall|i: int| 0 <= i < samples.len() ==> samples[i] == active
}

/// No sample in the stream is the active level.
pub open spec fn all_idle(samples: Seq<Level>, active: Level) -> bool {
    forall|i: int| 0 <= i < samples.len() ==> samples[i] != active
}

/// The `k` samples starting at `i` are all active.
pub open spec fn active_run_at(samples: Seq<Level>, active: Level, i: int, k: int) -> bool {
    forall|j: int| i <= j < i + k ==> samples[j] == active
}

/// Somewhere in the stream, `k` consecutive samples are active.
pub open spec fn has_active_run(samples: Seq<Level>, active: Level, k: int) -> bool {
    exists|i: int|
        0 <= i && i + k <= samples.len() && #[trigger] active_run_at(samples, active, i, k)
}

/// The number of active samples at the head of the stream.
pub open spec fn leading_actives(samples: Seq<Level>, active: Level) -> int
    decreases samples.len(),
{
    if samples.len() == 0 {
        0
    } else if samples[0] == active {
        1 + leading_actives(samples.drop_first(), active)
    } else {
        0
    }
}

/// The leading actives are themselves a run at the head.
proof fn lemma_leading_is_run(samples: Seq<Level>, active: Level)
    ensures
        0 <= leading_actives(samples, active) <= samples.len(),
        active_run_at(samples, active, 0, leading_actives(samples, active)),
    decreases samples.len(),
{
    if samples.len() > 0 && samples[0] == active {
        lemma_leading_is_run(samples.drop_first(), active);
        let l = leading_actives(samples, active);
        assert forall|j: int| 0 <= j < l implies samples[j] == active by {
            if j > 0 {
                assert(samples.drop_first()[j - 1] == active);
            }
        }
    }
}

/// A stream with no long active run keeps that property when its
/// first sample is dropped.
proof fn lemma_no_run_tail(samples: Seq<Level>, active: Level, k: int)
    requires
        samples.len() >= 1,
        k >= 1,
        !has_active_run(samples, active, k),
    ensures
        !has_active_run(samples.drop_first(), active, k),
{
    let t = samples.drop_first();
    if has_active_run(t, active, k) {
        let i = choose|i: int|
            0 <= i && i + k <= t.len() && #[trigger] active_run_at(t, active, i, k);
        assert forall|j: int| i + 1 <= j < i + 1 + k implies samples[j] == active by {
            assert(t[j - 1] == active);
        }
        assert(active_run_at(samples, active, i + 1, k));
        assert(false);
    }
}

/// When no long-enough active run exists, the head run is short.
proof fn lemma_no_run_short_leading(samples: Seq<Level>, active: Level, k: int)
    requires
        k >= 1,
        !has_active_run(samples, active, k),
    ensures
        leading_actives(samples, active) < k,
{
    lemma_leading_is_run(samples, active);
    let l = leading_actives(samples, active);
    if l >= k {
        assert(active_run_at(samples, active, 0, k));
        assert(has_active_run(samples, active, k));
        assert(false);
    }
}

/// Active samples already swallowed by the current phase.
pub open spec fn press_progress(g: DebounceGate) -> int {
    match g.phase {
        DebouncePhase::Idle => 0,
        DebouncePhase::PressSettle { held } => held as int,
        _ => g.settle_time as int,
    }
}

/// From a phase short of `Pressed`, a stream whose activity — counting
/// the activity already swallowed — never sustains a full settle time
/// commits nothing.
proof fn lemma_no_commit_partial(g: DebounceGate, samples: Seq<Level>)
    requires
        g.wf(),
        g.phase is Idle || g.phase is PressSettle,
        press_progress(g) + leading_actives(samples, g.active_level) < g.settle_time,
        !has_active_run(samples, g.active_level, g.settle_time as int),
    ensures
        commit_count(g, samples) == 0,
    decreases samples.len(),
{
    if samples.len() > 0 {
        let s0 = samples[0];
        let tail = samples.drop_first();
        let next = next_gate(g, s0);
        lemma_step_wf(g, s0);
        lemma_no_run_tail(samples, g.active_level, g.settle_time as int);
        if s0 == g.active_level {
            lemma_leading_is_run(tail, g.active_level);
            assert(leading_actives(samples, g.active_level) == 1 + leading_actives(
                tail,
                g.active_level,
            ));
            assert(press_progress(next) == press_progress(g) + 1);
            lemma_no_commit_partial(next, tail);
        } else {
            lemma_no_run_short_leading(tail, g.active_level, g.settle_time as int);
            lemma_no_commit_partial(next, tail);
        }
    }
}

/// From rest, a stream of bursts each shorter than the settle time
/// never commits a press: coarse noise is filtered out entirely.
pub proof fn lemma_short_bursts_never_commit(g: DebounceGate, samples: Seq<Level>)
    requires
        g.wf(),
        g.phase is Idle,
        !has_active_run(samples, g.active_level, g.settle_time as int),
    ensures
        commit_count(g, samples) == 0,
{
    lemma_no_run_short_leading(samples, g.active_level, g.settle_time as int);
    lemma_no_commit_partial(g, samples);
}

/// From an idle debouncer, idle samples change nothing and commit nothing.
proof fn lemma_idle_stays(g: DebounceGate, samples: Seq<Level>)
    requires
        g.wf(),
        g.phase is Idle,
        all_idle(samples, g.active_level),
    ensures
        commit_count(g, samples) == 0,
        gate_after(g, samples) == g,
    decreases samples.len(),
{
    if samples.len() > 0 {
        assert(samples[0] != g.active_level);
        lemma_idle_stays(g, samples.drop_first());
    }
}

/// Feeding active samples drives the debouncer toward `Pressed` without
/// committing: it reaches `Pressed` exactly when the swallowed
/// activity totals the settle time.
proof fn lemma_actives_advance(g: DebounceGate, samples: Seq<Level>)
    requires
        g.wf(),
        all_active(samples, g.active_level),
        g.phase is Idle || g.phase is PressSettle || g.phase is Pressed,
    ensures
        commit_count(g, samples) == 0,
        gate_after(g, samples).wf(),
        gate_after(g, samples).settle_time == g.settle_time,
        gate_after(g, samples).active_level == g.active_level,
        press_progress(g) + samples.len() >= g.settle_time ==> gate_after(g, samples).phase
            is Pressed,
        press_progress(g) + samples.len() < g.settle_time ==> (gate_after(g, samples).phase
            is Idle || gate_after(g, samples).phase is PressSettle) && press_progress(
            gate_after(g, samples),
        ) == press_progress(g) + samples.len(),
    decreases samples.len(),
{
    if samples.len() > 0 {
        assert(samples[0] == g.active_level);
        let next = next_gate(g, samples[0]);
        assert(all_active(samples.drop_first(), g.active_level)) by {
            assert forall|i: int|
                0 <= i < samples.drop_first().len() implies samples.drop_first()[i]
                == g.active_level by {
                assert(samples[i + 1] == g.active_level);
            }
        }
        lemma_actives_advance(next, samples.drop_first());
    }
}

/// Idle samples already swallowed by the current phase after a press.
pub open spec fn release_progress(g: DebounceGate) -> int {
    match g.phase {
        DebouncePhase::Pressed => 0,
        DebouncePhase::ReleaseSettle { held } => held as int,
        _ => g.settle_time as int,
    }
}

/// Feeding idle samples to a debouncer inside a qualified press commits
/// exactly one press, at the sample where the swallowed idle time
/// totals the settle time, and never commits again afterwards.
proof fn lemma_release_commits(g: DebounceGate, samples: Seq<Level>)
    requires
        g.wf(),
        all_idle(samples, g.active_level),
        g.phase is Pressed || g.phase is ReleaseSettle,
    ensures
        release_progress(g) + samples.len() >= g.settle_time ==> commit_count(g, samples) == 1
            && gate_after(g, samples).phase is Idle,
        release_progress(g) + samples.len() < g.settle_time ==> commit_count(g, samples) == 0
            && (gate_after(g, samples).phase is Pressed || gate_after(g, samples).phase
            is ReleaseSettle) && release_progress(gate_after(g, samples)) == release_progress(g)
            + samples.len(),
        gate_after(g, samples).wf(),
        gate_after(g, samples).settle_time == g.settle_time,
        gate_after(g, samples).active_level == g.active_level,
    decreases samples.len(),
{
    if samples.len() > 0 {
        assert(samples[0] != g.active_level);
        let next = next_gate(g, samples[0]);
        let tail = samples.drop_first();
        assert(all_idle(tail, g.active_level)) by {
            assert forall|i: int| 0 <= i < tail.len() implies tail[i] != g.active_level by {
                assert(samples[i + 1] != g.active_level);
            }
        }
        if release_progress(g) + 1 >= g.settle_time {
            assert(commits(g, samples[0]));
            assert(next.phase is Idle);
            lemma_idle_stays(next, tail);
        } else {
            lemma_release_commits(next, tail);
        }
    }
}

/// The committed-press law: a sustained press — at least a settle time
/// of active samples, then at least a settle time of idle samples —
/// commits exactly one event.
pub proof fn lemma_sustained_press_commits_once(
    g: DebounceGate,
    press: Seq<Level>,
    release: Seq<Level>,
)
    requires
        g.wf(),
        g.phase is Idle,
        all_active(press, g.active_level),
        press.len() >= g.settle_time,
        all_idle(release, g.active_level),
        release.len() >= g.settle_time,
    ensures
        commit_count(g, press + release) == 1,
{
    lemma_count_append(g, press, release);
    lemma_actives_advance(g, press);
    lemma_release_commits(gate_after(g, press), release);
}

} // verus!
