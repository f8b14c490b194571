use vstd::prelude::*;
use vstd::arithmetic::div_mod::{lemma_small_mod, lemma_add_mod_noop_right, lemma_sub_mod_noop};
use crate::alarm::AlarmTimer;
use crate::counter::{EventCounter, wrapping_inc, lemma_wrapping_inc_is_mod};
use crate::cs::{InterruptMask, SharedCell};

verus! {

/// One step of a simulated interleaving between the foreground loop
/// and an interrupt handler sharing a counter cell.
#[derive(Clone, Copy, Debug, PartialEq, Eq, Structural)]
pub enum SimEvent {
    /// The handler preempts and increments the shared counter.
    Interrupt,
    /// The foreground loop reads the shared counter.
    Read,
}

/// The counter value after an event sequence, starting from `c`.
pub open spec fn final_count(events: Seq<SimEvent>, c: u32) -> u32
    decreases events.len(),
{
    if events.len() == 0 {
        c
    } else {
        match events[0] {
            SimEvent::Interrupt => final_count(events.drop_first(), wrapping_inc(c)),
            SimEvent::Read => final_count(events.drop_first(), c),
        }
    }
}

/// The values the foreground reads see, in order, starting from `c`.
pub open spec fn expected_reads(events: Seq<SimEvent>, c: u32) -> Seq<u32>
    decreases events.len(),
{
    if events.len() == 0 {
        Seq::empty()
    } else {
        match events[0] {
            SimEvent::Interrupt => expected_reads(events.drop_first(), wrapping_inc(c)),
            SimEvent::Read => seq![c] + expected_reads(events.drop_first(), c),
        }
    }
}

/// How many interrupts the sequence delivers in total.
pub open spec fn interrupt_total(events: Seq<SimEvent>) -> int
    decreases events.len(),
{
    if events.len() == 0 {
        0
    } else {
        (match events[0] {
            SimEvent::Interrupt => 1int,
            SimEvent::Read => 0int,
        }) + interrupt_total(events.drop_first())
    }
}

/// How many interrupts the sequence delivers before its read number
/// `k` (counting reads from zero).
pub open spec fn interrupts_before_read(events: Seq<SimEvent>, k: int) -> int
    decreases events.len(),
{
    if events.len() == 0 {
        0
    } else {
        match events[0] {
            SimEvent::Interrupt => 1 + interrupts_before_read(events.drop_first(), k),
            SimEvent::Read => if k == 0 {
                0
            } else {
                interrupts_before_read(events.drop_first(), k - 1)
            },
        }
    }
}

/// Run an event sequence against a freshly published shared counter
/// cell: the handler and the foreground each take the critical
/// section around every access, so each step sees exactly the count
/// the previous steps left — never a torn or stale value. The result
/// is the final count and everything the foreground read.
pub fn run_shared_counter(events: &Vec<SimEvent>) -> (r: (u32, Vec<u32>))
    ensures
        r.0 == final_count(events@, 0),
        r.1@ == expected_reads(events@, 0),
{
    let mut mask = InterruptMask::startup();
    let mut cell: SharedCell<u32> = SharedCell::new();
    let _published = cell.publish(0);
    let mut reads: Vec<u32> = Vec::new();
    let mut i: usize = 0;
    proof {
        assert(events@.skip(0) =~= events@);
        assert(reads@ + expected_reads(events@, 0) =~= expected_reads(events@, 0));
    }
    while i < events.len()
        invariant
            i <= events.len(),
            mask.interrupts_enabled(),
            cell.is_published(),
            final_count(events@, 0) == final_count(
                events@.skip(i as int),
                cell.contents().unwrap(),
            ),
            expected_reads(events@, 0) == reads@ + expected_reads(
                events@.skip(i as int),
                cell.contents().unwrap(),
            ),
        decreases events.len() - i,
    {
        let ghost rest = events@.skip(i as int);
        let ghost cur = cell.contents().unwrap();
        proof {
            assert(rest[0] == events@[i as int]);
            assert(rest.drop_first() =~= events@.skip(i as int + 1));
        }
        match events[i] {
            SimEvent::Interrupt => {
                let tok = mask.enter();
                let v = cell.read(&tok);
                let next: u32 = if v == u32::MAX {
                    0
                } else {
                    v + 1
                };
                cell.write(&tok, next);
                mask.exit(tok);
            },
            SimEvent::Read => {
                let ghost reads0 = reads@;
                let tok = mask.enter();
                let v = cell.read(&tok);
                mask.exit(tok);
                reads.push(v);
                proof {
                    assert(reads0 + (seq![v] + expected_reads(rest.drop_first(), cur)) =~= reads@
                        + expected_reads(rest.drop_first(), cur));
                }
            },
        }
        i = i + 1;
    }
    proof {
        assert(events@.skip(events@.len() as int) =~= Seq::<SimEvent>::empty());
        assert(reads@ + Seq::<u32>::empty() =~= reads@);
    }
    let tok = mask.enter();
    let count = cell.read(&tok);
    mask.exit(tok);
    (count, reads)
}

/// Drive a serviced, armed alarm through `laps` full periods, the
/// handler servicing each fire on the spot: rearm one period ahead,
/// then acknowledge. Every period ends in exactly one fire, the alarm
/// never degenerates to a single shot, nothing is missed, and the
/// event count advances by exactly one per period, modulo the counter
/// width.
pub fn run_alarm_periods(
    alarm: &mut AlarmTimer,
    mask: &mut InterruptMask,
    events: &mut EventCounter,
    period: u32,
    laps: u32,
)
    requires
        old(alarm).wf(),
        old(alarm).armed(),
        !old(alarm).match_pending(),
        1 <= period < old(alarm).modulus(),
        old(alarm).ticks_to_match() == period,
        old(mask).interrupts_enabled(),
    ensures
        final(alarm).wf(),
        final(alarm).armed(),
        !final(alarm).match_pending(),
        final(alarm).modulus() == old(alarm).modulus(),
        final(alarm).ticks_to_match() == period,
        final(mask).interrupts_enabled(),
        final(events).events() as int == (old(events).events() + laps) % 0x1_0000_0000,
        final(events).missed_events() == old(events).missed_events(),
{
    let ghost e0 = events.events() as int;
    let ghost m = alarm.modulus() as int;
    proof {
        lemma_small_mod(e0 as nat, 0x1_0000_0000nat);
    }
    let mut j: u32 = 0;
    while j < laps
        invariant
            alarm.wf(),
            alarm.armed(),
            !alarm.match_pending(),
            alarm.modulus() as int == m,
            alarm.ticks_to_match() == period,
            1 <= period < m,
            m == old(alarm).modulus() as int,
            mask.interrupts_enabled(),
            j <= laps,
            e0 == old(events).events() as int,
            events.events() as int == (e0 + j) % 0x1_0000_0000,
            events.missed_events() == old(events).missed_events(),
        decreases laps - j,
    {
        let ghost a0 = *alarm;
        let ghost c0 = events.events();
        proof {
            a0.lemma_ticks_to_match();
        }
        let _fires = alarm.run_ticks(period);
        let tok = mask.enter();
        let _handled = alarm.service(&tok, events, period);
        mask.exit(tok);
        proof {
            lemma_wrapping_inc_is_mod(c0);
            lemma_add_mod_noop_right(1, e0 + j, 0x1_0000_0000);
            let cmp0 = a0.compare() as int;
            lemma_sub_mod_noop(cmp0 + period, cmp0, m);
            lemma_small_mod(cmp0 as nat, m as nat);
            lemma_small_mod(period as nat, m as nat);
        }
        j = j + 1;
    }
}

/// The counter law, whole-run form: after any interleaving, the
/// shared counter holds the initial value plus the number of
/// delivered interrupts, modulo the counter width — no increment is
/// ever lost to the interleaving.
pub proof fn lemma_final_count_is_total(events: Seq<SimEvent>, c: u32)
    ensures
        final_count(events, c) as int == (c + interrupt_total(events)) % 0x1_0000_0000,
    decreases events.len(),
{
    if events.len() == 0 {
        lemma_small_mod(c as nat, 0x1_0000_0000nat);
    } else {
        let tail = events.drop_first();
        match events[0] {
            SimEvent::Interrupt => {
                lemma_final_count_is_total(tail, wrapping_inc(c));
                lemma_wrapping_inc_is_mod(c);
                lemma_add_mod_noop_right(interrupt_total(tail), c + 1, 0x1_0000_0000);
            },
            SimEvent::Read => {
                lemma_final_count_is_total(tail, c);
            },
        }
    }
}

/// Each value the foreground reads is the initial value plus the
/// number of interrupts delivered before that read, modulo the
/// counter width.
pub proof fn lemma_read_is_prefix_count(events: Seq<SimEvent>, c: u32, k: int)
    requires
        0 <= k < expected_reads(events, c).len(),
    ensures
        expected_reads(events, c)[k] as int == (c + interrupts_before_read(events, k))
            % 0x1_0000_0000,
    decreases events.len(),
{
    let tail = events.drop_first();
    match events[0] {
        SimEvent::Interrupt => {
            lemma_read_is_prefix_count(tail, wrapping_inc(c), k);
            lemma_wrapping_inc_is_mod(c);
            lemma_add_mod_noop_right(interrupts_before_read(tail, k), c + 1, 0x1_0000_0000);
        },
        SimEvent::Read => {
            if k == 0 {
                lemma_small_mod(c as nat, 0x1_0000_0000nat);
            } else {
                assert((seq![c] + expected_reads(tail, c))[k] == expected_reads(tail, c)[k - 1]);
                lemma_read_is_prefix_count(tail, c, k - 1);
            }
        },
    }
}

/// The monotonicity law behind wrap-aware reads: the number of
/// interrupts delivered before a read never decreases from one read
/// to the next, so the values the foreground sees are the images,
/// modulo the counter width, of a non-decreasing event count.
pub proof fn lemma_prefix_counts_monotonic(events: Seq<SimEvent>, k1: int, k2: int)
    requires
        0 <= k1 <= k2,
    ensures
        0 <= interrupts_before_read(events, k1) <= interrupts_before_read(events, k2),
    decreases events.len(),
{
    if events.len() > 0 {
        let tail = events.drop_first();
        match events[0] {
            SimEvent::Interrupt => {
                lemma_prefix_counts_monotonic(tail, k1, k2);
            },
            SimEvent::Read => {
                if k1 == 0 {
                    if k2 > 0 {
                        lemma_prefix_counts_monotonic(tail, 0, k2 - 1);
                    }
                } else {
                    lemma_prefix_counts_monotonic(tail, k1 - 1, k2 - 1);
                }
            },
        }
    }
}

} // verus!
