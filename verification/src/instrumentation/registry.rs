//! All metrics of the loop in one place.

use vstd::prelude::*;

use crate::instrumentation::histogram::{LatencyHistogram, SAMPLE_LIMIT};
use crate::instrumentation::recorder::MetricsRecorder;
use crate::instrumentation::tick::{capped_sum, ActionKindTag, TickFlags, TickMetrics, ACTION_KINDS};
use crate::instrumentation::window::{is_root, mean_of, pushed, variance_of, CircularU32};
use crate::loop_::dispatch::one_more;
use crate::units::Ppm;

verus! {

/// The width of the short windows, in ticks.
pub const JITTER_WINDOW_TICKS: usize = 30;

/// The width of the long window, in ticks.
pub const FPS_WINDOW_TICKS: usize = 300;

/// How the reading of an inventory slot was found.
#[derive(Clone, Copy, Debug, PartialEq, Eq, Structural)]
pub enum SlotStage {
    Empty,
    CachedHit,
    FullSweep,
    MlClassified,
    Unknown,
}

/// What was read from one inventory slot.
#[derive(Clone, Debug)]
pub struct SlotReading {
    pub stage: SlotStage,
    pub item: Option<String>,
    pub confidence: Ppm,
    pub stable_item: Option<String>,
}

/// Whether a reading recognised an item.
pub open spec fn is_match(s: SlotReading) -> bool {
    s.stage != SlotStage::Empty && s.stage != SlotStage::Unknown && s.item is Some
}

/// Whether a reading saw an item that it did not recognise.
pub open spec fn is_miss(s: SlotReading) -> bool {
    s.stage != SlotStage::Empty && s.stage != SlotStage::Unknown && s.item is None
}

/// A confidence in hundredths of a percent, at most all of it.
pub open spec fn basis_points(confidence: Ppm) -> u32 {
    if confidence / 100 > 10_000 {
        10_000
    } else {
        confidence / 100
    }
}

/// How many of the readings are of an empty slot.
pub open spec fn empties(slots: Seq<SlotReading>) -> int
    decreases slots.len(),
{
    if slots.len() == 0 {
        0
    } else {
        empties(slots.drop_last()) + if slots.last().stage == SlotStage::Empty {
            1int
        } else {
            0
        }
    }
}

/// How many of the readings saw an item that they did not recognise.
pub open spec fn misses(slots: Seq<SlotReading>) -> int
    decreases slots.len(),
{
    if slots.len() == 0 {
        0
    } else {
        misses(slots.drop_last()) + if is_miss(slots.last()) {
            1int
        } else {
            0
        }
    }
}

/// How many of the readings name an item that stayed the same for a while.
pub open spec fn stables(slots: Seq<SlotReading>) -> int
    decreases slots.len(),
{
    if slots.len() == 0 {
        0
    } else {
        stables(slots.drop_last()) + if slots.last().stable_item is Some {
            1int
        } else {
            0
        }
    }
}

/// The confidences of the readings that recognised an item.
pub open spec fn confidences(slots: Seq<SlotReading>) -> Seq<u32>
    decreases slots.len(),
{
    if slots.len() == 0 {
        Seq::empty()
    } else if is_match(slots.last()) {
        confidences(slots.drop_last()).push(basis_points(slots.last().confidence))
    } else {
        confidences(slots.drop_last())
    }
}

/// The state of a recording, as shown to the operator.
#[derive(Clone, Debug)]
pub struct RecordingStatus {
    pub active: bool,
    pub path: Option<String>,
    pub written_lines: u64,
}

/// The statistics of the windows.
#[derive(Clone, Copy, Debug, PartialEq, Eq, Structural)]
pub struct WindowsSnapshot {
    pub jitter_us: u32,
    pub tick_mean_us_short: u32,
    pub tick_mean_us_long: u32,
    pub tick_max_us_long: u32,
    pub vision_mean_us: u32,
    pub vision_jitter_us: u32,
    pub samples_short: usize,
    pub samples_long: usize,
}

/// All metrics of the loop.
#[derive(Debug)]
pub struct MetricsRegistry {
    pub frame_age: LatencyHistogram,
    pub vision_total: LatencyHistogram,
    pub filter: LatencyHistogram,
    pub fsm: LatencyHistogram,
    pub dispatch: LatencyHistogram,
    pub state_write: LatencyHistogram,
    pub tick_total: LatencyHistogram,
    pub action_rtt: LatencyHistogram,
    pub e2e_capture_emit: LatencyHistogram,
    pub vision_readers: Vec<LatencyHistogram>,
    pub ticks_total: u64,
    pub ticks_overrun: u64,
    pub frame_seq_gaps: u64,
    pub inventory_slots_observed: u64,
    pub inventory_slots_empty: u64,
    pub inventory_slots_matched: u64,
    pub inventory_slots_unmatched: u64,
    pub inventory_slots_with_stable: u64,
    pub inventory_slot_confidence: LatencyHistogram,
    pub actions_emitted: Vec<u64>,
    pub actions_acked: Vec<u64>,
    pub actions_failed: Vec<u64>,
    pub last_tick: TickMetrics,
    pub tick_jitter: CircularU32<30>,
    pub tick_long: CircularU32<300>,
    pub vision_jitter: CircularU32<30>,
    pub last_frame_seq: u64,
    pub recorder: Option<MetricsRecorder>,
}

/// Whether a histogram is sound and holds no more samples than there were occasions.
pub open spec fn fits(h: &LatencyHistogram, occasions: u64) -> bool {
    h.wf() && h.samples() <= occasions
}

impl MetricsRegistry {
    pub open spec fn wf(&self) -> bool {
        &&& self.ticks_total <= SAMPLE_LIMIT
        &&& fits(&self.frame_age, self.ticks_total)
        &&& fits(&self.vision_total, self.ticks_total)
        &&& fits(&self.filter, self.ticks_total)
        &&& fits(&self.fsm, self.ticks_total)
        &&& fits(&self.dispatch, self.ticks_total)
        &&& fits(&self.state_write, self.ticks_total)
        &&& fits(&self.tick_total, self.ticks_total)
        &&& fits(&self.e2e_capture_emit, self.ticks_total)
        &&& self.vision_readers@.len() == 12
        &&& forall|i: int| 0 <= i < 12 ==> fits(&#[trigger] self.vision_readers@[i], self.ticks_total)
        &&& self.ticks_overrun <= self.ticks_total
        &&& self.frame_seq_gaps <= self.ticks_total
        &&& self.actions_emitted@.len() == ACTION_KINDS
        &&& forall|i: int|
            0 <= i < ACTION_KINDS ==> #[trigger] self.actions_emitted@[i] <= self.ticks_total
        &&& self.action_rtt.wf()
        &&& self.actions_acked@.len() == ACTION_KINDS
        &&& forall|i: int|
            0 <= i < ACTION_KINDS ==> #[trigger] self.actions_acked@[i] <= self.action_rtt.samples()
        &&& self.actions_failed@.len() == ACTION_KINDS
        &&& self.inventory_slots_observed <= SAMPLE_LIMIT
        &&& self.inventory_slots_empty <= self.inventory_slots_observed
        &&& self.inventory_slots_matched <= self.inventory_slots_observed
        &&& self.inventory_slots_unmatched <= self.inventory_slots_observed
        &&& self.inventory_slots_with_stable <= self.inventory_slots_observed
        &&& self.inventory_slot_confidence.wf()
        &&& self.inventory_slot_confidence.samples() == self.inventory_slots_matched
        &&& self.tick_jitter.wf()
        &&& self.tick_long.wf()
        &&& self.vision_jitter.wf()
        &&& self.recorder matches Some(rec) ==> rec.wf()
    }

    /// Whether nothing was recorded.
    pub open spec fn is_blank(&self) -> bool {
        &&& self.frame_age.is_empty()
        &&& self.vision_total.is_empty()
        &&& self.filter.is_empty()
        &&& self.fsm.is_empty()
        &&& self.dispatch.is_empty()
        &&& self.state_write.is_empty()
        &&& self.tick_total.is_empty()
        &&& self.action_rtt.is_empty()
        &&& self.e2e_capture_emit.is_empty()
        &&& forall|i: int| 0 <= i < 12 ==> (#[trigger] self.vision_readers@[i]).is_empty()
        &&& self.inventory_slot_confidence.is_empty()
        &&& self.ticks_total == 0
        &&& self.ticks_overrun == 0
        &&& self.frame_seq_gaps == 0
        &&& self.inventory_slots_observed == 0
        &&& self.inventory_slots_empty == 0
        &&& self.inventory_slots_matched == 0
        &&& self.inventory_slots_unmatched == 0
        &&& self.inventory_slots_with_stable == 0
        &&& self.actions_emitted@ == Seq::new(ACTION_KINDS as nat, |i: int| 0u64)
        &&& self.actions_acked@ == Seq::new(ACTION_KINDS as nat, |i: int| 0u64)
        &&& self.actions_failed@ == Seq::new(ACTION_KINDS as nat, |i: int| 0u64)
        &&& self.tick_jitter.samples() == Seq::<u32>::empty()
        &&& self.tick_long.samples() == Seq::<u32>::empty()
        &&& self.vision_jitter.samples() == Seq::<u32>::empty()
        &&& self.last_frame_seq == 0
        &&& self.recorder is None
    }

    /// A registry that has seen nothing.
    pub fn new() -> (r: MetricsRegistry)
        ensures
            r.wf(),
            r.is_blank(),
            r.last_tick.is_zero(),
    {
        let mut readers: Vec<LatencyHistogram> = Vec::new();
        let mut i: usize = 0;
        while i < 12
            invariant
                i <= 12,
                readers@.len() == i,
                forall|j: int|
                    0 <= j < i ==> (#[trigger] readers@[j]).is_empty() && readers@[j].wf(),
            decreases 12 - i,
        {
            readers.push(LatencyHistogram::new());
            i = i + 1;
        }
        MetricsRegistry {
            frame_age: LatencyHistogram::new(),
            vision_total: LatencyHistogram::new(),
            filter: LatencyHistogram::new(),
            fsm: LatencyHistogram::new(),
            dispatch: LatencyHistogram::new(),
            state_write: LatencyHistogram::new(),
            tick_total: LatencyHistogram::new(),
            action_rtt: LatencyHistogram::new(),
            e2e_capture_emit: LatencyHistogram::new(),
            vision_readers: readers,
            ticks_total: 0,
            ticks_overrun: 0,
            frame_seq_gaps: 0,
            inventory_slots_observed: 0,
            inventory_slots_empty: 0,
            inventory_slots_matched: 0,
            inventory_slots_unmatched: 0,
            inventory_slots_with_stable: 0,
            inventory_slot_confidence: LatencyHistogram::new(),
            actions_emitted: zeros(),
            actions_acked: zeros(),
            actions_failed: zeros(),
            last_tick: TickMetrics::default(),
            tick_jitter: CircularU32::new(),
            tick_long: CircularU32::new(),
            vision_jitter: CircularU32::new(),
            last_frame_seq: 0,
            recorder: None,
        }
    }
}

/// A count of nothing for each kind of action.
fn zeros() -> (r: Vec<u64>)
    ensures
        r@ == Seq::new(ACTION_KINDS as nat, |i: int| 0u64),
{
    let mut v: Vec<u64> = Vec::new();
    let mut i: usize = 0;
    while i < ACTION_KINDS
        invariant
            i <= ACTION_KINDS,
            v@ == Seq::new(i as nat, |i: int| 0u64),
        decreases ACTION_KINDS - i,
    {
        v.push(0);
        i = i + 1;
        assert(v@ =~= Seq::new(i as nat, |i: int| 0u64));
    }
    v
}

/// Whether the sequence number of a frame skips at least one frame.
pub open spec fn skips(last: u64, seq: u64) -> bool {
    last > 0 && seq > last + 1
}

/// Whether `next` is `now` after the tick `m`.
pub open spec fn ticked(now: &MetricsRegistry, m: TickMetrics, next: &MetricsRegistry) -> bool {
    &&& now.frame_age.after(m.frame_age_us, &next.frame_age)
    &&& now.vision_total.after(m.vision_total_us, &next.vision_total)
    &&& now.filter.after(m.filter_us, &next.filter)
    &&& now.fsm.after(m.fsm_us, &next.fsm)
    &&& now.dispatch.after(m.dispatch_us, &next.dispatch)
    &&& now.state_write.after(m.state_write_us, &next.state_write)
    &&& now.tick_total.after(m.tick_total_us, &next.tick_total)
    &&& now.e2e_capture_emit.after(
        capped_sum(m.frame_age_us as int, m.tick_total_us as int) as u32,
        &next.e2e_capture_emit,
    )
    &&& forall|i: int|
        0 <= i < 12 ==> reader_ticked(
            &now.vision_readers@[i],
            m.vision_per_reader_us@[i],
            &#[trigger] next.vision_readers@[i],
        )
    &&& next.ticks_total == now.ticks_total + 1
    &&& next.ticks_overrun == now.ticks_overrun + if m.flags.contains(TickFlags::tick_overrun()) {
        1int
    } else {
        0
    }
    &&& next.frame_seq_gaps == now.frame_seq_gaps + if skips(now.last_frame_seq, m.frame_seq) {
        1int
    } else {
        0
    }
    &&& next.last_frame_seq == if m.frame_seq > 0 {
        m.frame_seq
    } else {
        now.last_frame_seq
    }
    &&& next.actions_emitted@ == emitted_after(now.actions_emitted@, m.last_action_kind)
    &&& next.tick_jitter.samples() == pushed(now.tick_jitter.samples(), m.tick_total_us, 30)
    &&& next.tick_long.samples() == pushed(now.tick_long.samples(), m.tick_total_us, 300)
    &&& next.vision_jitter.samples() == pushed(now.vision_jitter.samples(), m.vision_total_us, 30)
    &&& next.last_tick == m
    &&& next.action_rtt == now.action_rtt
    &&& next.actions_acked == now.actions_acked
    &&& next.actions_failed == now.actions_failed
    &&& next.inventory_slots_observed == now.inventory_slots_observed
    &&& next.inventory_slots_empty == now.inventory_slots_empty
    &&& next.inventory_slots_matched == now.inventory_slots_matched
    &&& next.inventory_slots_unmatched == now.inventory_slots_unmatched
    &&& next.inventory_slots_with_stable == now.inventory_slots_with_stable
    &&& next.inventory_slot_confidence == now.inventory_slot_confidence
    &&& next.recorder == now.recorder
}

/// A reader that did not run leaves no sample.
pub open spec fn reader_ticked(now: &LatencyHistogram, us: u16, next: &LatencyHistogram) -> bool {
    if us > 0 {
        now.after(us as u32, next)
    } else {
        next == now
    }
}

/// The emitted actions after one more, of the given kind.
pub open spec fn emitted_after(emitted: Seq<u64>, kind: ActionKindTag) -> Seq<u64> {
    if kind == ActionKindTag::Nothing {
        emitted
    } else {
        emitted.update(kind.place(), (emitted[kind.place()] + 1) as u64)
    }
}

impl MetricsRegistry {
    /// Takes in the metrics of a tick; returns whether a recording wants them too.
    pub fn record_tick(&mut self, m: TickMetrics) -> (line_due: bool)
        requires
            old(self).wf(),
            old(self).ticks_total < SAMPLE_LIMIT,
        ensures
            final(self).wf(),
            ticked(old(self), m, final(self)),
            line_due == (old(self).recorder is Some),
    {
        self.frame_age.record_us(m.frame_age_us);
        self.vision_total.record_us(m.vision_total_us);
        self.filter.record_us(m.filter_us);
        self.fsm.record_us(m.fsm_us);
        self.dispatch.record_us(m.dispatch_us);
        self.state_write.record_us(m.state_write_us);
        self.tick_total.record_us(m.tick_total_us);
        self.e2e_capture_emit.record_us(m.e2e_capture_to_emit_us());
        record_readers(&mut self.vision_readers, &m.vision_per_reader_us, self.ticks_total);
        self.ticks_total = self.ticks_total + 1;
        if m.flags.contains(TickFlags::tick_overrun()) {
            self.ticks_overrun = self.ticks_overrun + 1;
        }
        if m.frame_seq > 0 {
            let last: u64 = self.last_frame_seq;
            self.last_frame_seq = m.frame_seq;
            if last > 0 && m.frame_seq > last && m.frame_seq - last > 1 {
                self.frame_seq_gaps = self.frame_seq_gaps + 1;
            }
        }
        let kind: usize = m.last_action_kind.index();
        if kind != 0 {
            let emitted: u64 = self.actions_emitted[kind];
            self.actions_emitted.set(kind, emitted + 1);
        }
        self.tick_jitter.push(m.tick_total_us);
        self.tick_long.push(m.tick_total_us);
        self.vision_jitter.push(m.vision_total_us);
        self.last_tick = m;
        self.recorder.is_some()
    }
}

fn record_readers(readers: &mut Vec<LatencyHistogram>, times: &[u16; 12], ticks: u64)
    requires
        old(readers)@.len() == 12,
        ticks < SAMPLE_LIMIT,
        forall|i: int| 0 <= i < 12 ==> fits(&#[trigger] old(readers)@[i], ticks),
    ensures
        final(readers)@.len() == 12,
        forall|i: int|
            0 <= i < 12 ==> reader_ticked(
                &old(readers)@[i],
                times@[i],
                &#[trigger] final(readers)@[i],
            ),
        forall|i: int|
            0 <= i < 12 ==> fits(&#[trigger] final(readers)@[i], (ticks + 1) as u64),
{
    let mut i: usize = 0;
    while i < 12
        invariant
            i <= 12,
            readers@.len() == 12,
            old(readers)@.len() == 12,
            ticks < SAMPLE_LIMIT,
            forall|j: int| 0 <= j < 12 ==> fits(&#[trigger] old(readers)@[j], ticks),
            forall|j: int| i <= j < 12 ==> #[trigger] readers@[j] == old(readers)@[j],
            forall|j: int|
                0 <= j < i ==> reader_ticked(&old(readers)@[j], times@[j], &#[trigger] readers@[j]),
            forall|j: int| 0 <= j < i ==> fits(&#[trigger] readers@[j], (ticks + 1) as u64),
        decreases 12 - i,
    {
        let us: u16 = times[i];
        assert(fits(&old(readers)@[i as int], ticks));
        if us > 0 {
            readers[i].record_us(us as u32);
        }
        i = i + 1;
    }
}

impl MetricsRegistry {
    /// Takes in the answer to an action.
    pub fn record_action_ack(&mut self, kind: ActionKindTag, rtt_us: u32, ok: bool)
        requires
            old(self).wf(),
            ok ==> old(self).action_rtt.samples() < SAMPLE_LIMIT,
        ensures
            final(self).wf(),
            ok ==> {
                &&& old(self).action_rtt.after(rtt_us, &final(self).action_rtt)
                &&& final(self).actions_acked@ == old(self).actions_acked@.update(
                    kind.place(),
                    (old(self).actions_acked@[kind.place()] + 1) as u64,
                )
                &&& final(self).actions_failed == old(self).actions_failed
            },
            !ok ==> {
                &&& final(self).action_rtt == old(self).action_rtt
                &&& final(self).actions_acked == old(self).actions_acked
                &&& final(self).actions_failed@ == old(self).actions_failed@.update(
                    kind.place(),
                    one_more(old(self).actions_failed@[kind.place()]),
                )
            },
            *final(self) == (MetricsRegistry {
                action_rtt: final(self).action_rtt,
                actions_acked: final(self).actions_acked,
                actions_failed: final(self).actions_failed,
                ..*old(self)
            }),
    {
        let i: usize = kind.index();
        if ok {
            let acked: u64 = self.actions_acked[i];
            self.actions_acked.set(i, acked + 1);
            self.action_rtt.record_us(rtt_us);
        } else {
            let failed: u64 = self.actions_failed[i];
            if failed < u64::MAX {
                self.actions_failed.set(i, failed + 1);
            }
            assert(self.actions_failed@ =~= old(self).actions_failed@.update(
                kind.place(),
                one_more(old(self).actions_failed@[kind.place()]),
            ));
        }
    }

    /// The metrics of the last tick.
    pub fn last_tick_snapshot(&self) -> (r: TickMetrics)
        ensures
            r == self.last_tick,
    {
        self.last_tick
    }

    /// Takes in the readings of the inventory slots.
    pub fn ingest_inventory_slots(&mut self, slots: &[SlotReading])
        requires
            old(self).wf(),
            old(self).inventory_slots_observed + slots@.len() <= SAMPLE_LIMIT,
        ensures
            final(self).wf(),
            old(self).inventory_slot_confidence.after_all(
                confidences(slots@),
                &final(self).inventory_slot_confidence,
            ),
            *final(self) == (MetricsRegistry {
                inventory_slots_observed: (old(self).inventory_slots_observed
                    + slots@.len()) as u64,
                inventory_slots_empty: (old(self).inventory_slots_empty
                    + empties(slots@)) as u64,
                inventory_slots_matched: (old(self).inventory_slots_matched
                    + confidences(slots@).len()) as u64,
                inventory_slots_unmatched: (old(self).inventory_slots_unmatched
                    + misses(slots@)) as u64,
                inventory_slots_with_stable: (old(self).inventory_slots_with_stable
                    + stables(slots@)) as u64,
                inventory_slot_confidence: final(self).inventory_slot_confidence,
                ..*old(self)
            }),
    {
        let ghost first = *self;
        let mut i: usize = 0;
        assert(first.inventory_slot_confidence.after_all(
            confidences(slots@.take(0)),
            &self.inventory_slot_confidence,
        ));
        while i < slots.len()
            invariant
                i <= slots@.len(),
                self.wf(),
                first.wf(),
                first.inventory_slots_observed + slots@.len() <= SAMPLE_LIMIT,
                first.inventory_slot_confidence.after_all(
                    confidences(slots@.take(i as int)),
                    &self.inventory_slot_confidence,
                ),
                0 <= empties(slots@.take(i as int)) <= i,
                0 <= misses(slots@.take(i as int)) <= i,
                0 <= stables(slots@.take(i as int)) <= i,
                confidences(slots@.take(i as int)).len() <= i,
                *self == (MetricsRegistry {
                    inventory_slots_observed: (first.inventory_slots_observed + i) as u64,
                    inventory_slots_empty: (first.inventory_slots_empty
                        + empties(slots@.take(i as int))) as u64,
                    inventory_slots_matched: (first.inventory_slots_matched
                        + confidences(slots@.take(i as int)).len()) as u64,
                    inventory_slots_unmatched: (first.inventory_slots_unmatched
                        + misses(slots@.take(i as int))) as u64,
                    inventory_slots_with_stable: (first.inventory_slots_with_stable
                        + stables(slots@.take(i as int))) as u64,
                    inventory_slot_confidence: self.inventory_slot_confidence,
                    ..first
                }),
            decreases slots@.len() - i,
        {
            let s = &slots[i];
            let ghost before = *self;
            assert(slots@.take(i + 1).drop_last() =~= slots@.take(i as int));
            self.inventory_slots_observed = self.inventory_slots_observed + 1;
            match s.stage {
                SlotStage::Empty => {
                    self.inventory_slots_empty = self.inventory_slots_empty + 1;
                },
                SlotStage::CachedHit | SlotStage::FullSweep | SlotStage::MlClassified => {
                    if s.item.is_some() {
                        self.inventory_slots_matched = self.inventory_slots_matched + 1;
                        let bp: u32 = if s.confidence / 100 > 10_000 {
                            10_000
                        } else {
                            s.confidence / 100
                        };
                        self.inventory_slot_confidence.record_us(bp);
                        proof {
                            crate::instrumentation::histogram::samples_add_up(
                                first.inventory_slot_confidence,
                                confidences(slots@.take(i as int)),
                                before.inventory_slot_confidence,
                                bp,
                                self.inventory_slot_confidence,
                            );
                        }
                    } else {
                        self.inventory_slots_unmatched = self.inventory_slots_unmatched + 1;
                    }
                },
                SlotStage::Unknown => {},
            }
            if s.stable_item.is_some() {
                self.inventory_slots_with_stable = self.inventory_slots_with_stable + 1;
            }
            i = i + 1;
        }
        assert(slots@.take(i as int) =~= slots@);
    }

    /// The statistics of the windows.
    pub fn windows_snapshot(&self) -> (r: WindowsSnapshot)
        requires
            self.wf(),
        ensures
            deviates(r.jitter_us, self.tick_jitter.samples()),
            r.tick_mean_us_short == mean_of(self.tick_jitter.samples()),
            r.tick_mean_us_long == mean_of(self.tick_long.samples()),
            is_max(r.tick_max_us_long, self.tick_long.samples()),
            r.vision_mean_us == mean_of(self.vision_jitter.samples()),
            deviates(r.vision_jitter_us, self.vision_jitter.samples()),
            r.samples_short == self.tick_jitter.samples().len(),
            r.samples_long == self.tick_long.samples().len(),
    {
        WindowsSnapshot {
            jitter_us: self.tick_jitter.stddev(),
            tick_mean_us_short: self.tick_jitter.mean(),
            tick_mean_us_long: self.tick_long.mean(),
            tick_max_us_long: self.tick_long.max(),
            vision_mean_us: self.vision_jitter.mean(),
            vision_jitter_us: self.vision_jitter.stddev(),
            samples_short: self.tick_jitter.len(),
            samples_long: self.tick_long.len(),
        }
    }

    /// The share of the actions of a kind that were acknowledged, in parts per million, where
    /// any was emitted; at most the largest number there is.
    pub fn action_success_rate(&self, kind: ActionKindTag) -> (r: Option<u64>)
        requires
            self.wf(),
        ensures
            r == self.success_rate(kind),
    {
        let i: usize = kind.index();
        let emitted: u64 = self.actions_emitted[i];
        if emitted == 0 {
            return None;
        }
        let acked: u64 = self.actions_acked[i];
        let rate: u128 = acked as u128 * 1_000_000 / emitted as u128;
        if rate > u64::MAX as u128 {
            Some(u64::MAX)
        } else {
            Some(rate as u64)
        }
    }

    /// See `action_success_rate`.
    pub open spec fn success_rate(&self, kind: ActionKindTag) -> Option<u64> {
        let emitted = self.actions_emitted@[kind.place()];
        if emitted == 0 {
            None
        } else {
            let rate = (self.actions_acked@[kind.place()] * 1_000_000) / (emitted as int);
            Some(
                if rate > u64::MAX {
                    u64::MAX
                } else {
                    rate as u64
                },
            )
        }
    }

    /// How many ticks a second the mean tick of the long window leaves room for, in
    /// thousandths.
    pub fn measured_fps(&self) -> (r: u32)
        requires
            self.wf(),
        ensures
            r == if mean_of(self.tick_long.samples()) == 0 {
                0
            } else {
                1_000_000_000int / mean_of(self.tick_long.samples())
            },
            mean_of(self.tick_long.samples()) > 0 ==> r * mean_of(self.tick_long.samples())
                <= 1_000_000_000 < (r + 1) * mean_of(self.tick_long.samples()),
    {
        let mean: u32 = self.tick_long.mean();
        if self.tick_long.is_empty() || mean == 0 {
            return 0;
        }
        let r: u32 = 1_000_000_000 / mean;
        assert(r * mean <= 1_000_000_000 < (r + 1) * mean) by (nonlinear_arith)
            requires
                r == 1_000_000_000u32 / mean,
                mean > 0,
        ;
        r
    }

    /// Begins a recording in place of any other.
    pub fn start_recording(&mut self, path: String, flush_every: u32)
        requires
            old(self).wf(),
        ensures
            final(self).wf(),
            *final(self) == (MetricsRegistry { recorder: final(self).recorder, ..*old(self) }),
            final(self).recorder matches Some(rec) && rec.file() == path@ && rec.lines() == 0
                && rec.waiting() == 0 && rec.period() == if flush_every == 0 {
                1
            } else {
                flush_every
            },
    {
        self.recorder = Some(MetricsRecorder::start(path, flush_every));
    }

    /// Ends the recording; returns how many lines it wrote.
    pub fn stop_recording(&mut self) -> (lines: u64)
        requires
            old(self).wf(),
        ensures
            final(self).wf(),
            *final(self) == (MetricsRegistry { recorder: None, ..*old(self) }),
            lines == recorded_lines(old(self).recorder),
    {
        let lines: u64 = match &self.recorder {
            Some(rec) => rec.written_lines(),
            None => 0,
        };
        self.recorder = None;
        lines
    }

    /// Counts a line that was written; returns whether the lines are to be pushed out now.
    pub fn line_written(&mut self) -> (flush: bool)
        requires
            old(self).wf(),
        ensures
            final(self).wf(),
            *final(self) == (MetricsRegistry { recorder: final(self).recorder, ..*old(self) }),
            (final(self).recorder is Some) == (old(self).recorder is Some),
            recorded_lines(final(self).recorder) == if old(self).recorder is Some {
                one_more(recorded_lines(old(self).recorder))
            } else {
                0
            },
            flush == (old(self).recorder matches Some(rec) && rec.waiting() + 1 == rec.period()),
            old(self).recorder matches Some(rec) ==> {
                &&& final(self).recorder->Some_0.file() == rec.file()
                &&& final(self).recorder->Some_0.period() == rec.period()
                &&& final(self).recorder->Some_0.waiting() == if flush {
                    0
                } else {
                    rec.waiting() + 1
                }
            },
    {
        match &mut self.recorder {
            Some(rec) => rec.write_line(),
            None => false,
        }
    }

    /// What is known of the recording.
    pub fn recording_status(&self) -> (r: RecordingStatus)
        ensures
            r.active == (self.recorder is Some),
            r.written_lines == recorded_lines(self.recorder),
            (r.path is Some) == (self.recorder is Some),
            self.recorder matches Some(rec) ==> r.path->Some_0@ == rec.file(),
    {
        match &self.recorder {
            Some(rec) => RecordingStatus {
                active: true,
                path: Some(rec.path().to_owned()),
                written_lines: rec.written_lines(),
            },
            None => RecordingStatus { active: false, path: None, written_lines: 0 },
        }
    }
}

/// How many lines a recording wrote.
pub open spec fn recorded_lines(rec: Option<MetricsRecorder>) -> u64 {
    match rec {
        Some(rec) => rec.lines(),
        None => 0,
    }
}

/// Whether `d` is the whole part of the standard deviation of the values.
pub open spec fn deviates(d: u32, values: Seq<u32>) -> bool {
    if values.len() < 2 {
        d == 0
    } else {
        is_root(d as int, variance_of(values))
    }
}

/// Whether `m` is the largest of the values, and 0 if there are none.
pub open spec fn is_max(m: u32, values: Seq<u32>) -> bool {
    &&& values.len() == 0 ==> m == 0
    &&& values.len() > 0 ==> values.contains(m)
    &&& forall|i: int| 0 <= i < values.len() ==> values[i] <= m
}

/// However many frames are skipped at once, a tick counts one gap at most, and a frame
/// without a number never counts as one.
pub proof fn gaps_count_once(now: MetricsRegistry, m: TickMetrics, next: MetricsRegistry)
    requires
        ticked(&now, m, &next),
    ensures
        now.frame_seq_gaps <= next.frame_seq_gaps <= now.frame_seq_gaps + 1,
        m.frame_seq == 0 ==> next.frame_seq_gaps == now.frame_seq_gaps
            && next.last_frame_seq == now.last_frame_seq,
        m.frame_seq == now.last_frame_seq + 1 ==> next.frame_seq_gaps == now.frame_seq_gaps,
{
}

impl Default for MetricsRegistry {
    fn default() -> (r: MetricsRegistry)
        ensures
            r.wf(),
            r.is_blank(),
            r.last_tick.is_zero(),
    {
        MetricsRegistry::new()
    }
}

/// Whether a histogram has taken in one more sample.
pub open spec fn took_in(now: LatencyHistogram, us: u32, next: LatencyHistogram) -> bool {
    &&& next.samples() == now.samples() + 1
    &&& next.sum() == now.sum() + us
    &&& next.largest() == now.largest() || next.largest() == us
}

/// Each time of a tick goes into its own histogram: the age of the frame, the phases of the tick,
/// the tick as a whole, and the time from the frame's capture to the end of the tick. A reader's
/// time goes into that reader's, unless it took none.
pub proof fn each_time_goes_into_its_own_histogram(
    now: MetricsRegistry,
    m: TickMetrics,
    next: MetricsRegistry,
    i: int,
)
    requires
        ticked(&now, m, &next),
        0 <= i < 12,
    ensures
        took_in(now.frame_age, m.frame_age_us, next.frame_age),
        took_in(now.vision_total, m.vision_total_us, next.vision_total),
        took_in(now.filter, m.filter_us, next.filter),
        took_in(now.fsm, m.fsm_us, next.fsm),
        took_in(now.dispatch, m.dispatch_us, next.dispatch),
        took_in(now.state_write, m.state_write_us, next.state_write),
        took_in(now.tick_total, m.tick_total_us, next.tick_total),
        m.frame_age_us + m.tick_total_us <= u32::MAX ==> took_in(
            now.e2e_capture_emit,
            (m.frame_age_us + m.tick_total_us) as u32,
            next.e2e_capture_emit,
        ),
        m.frame_age_us + m.tick_total_us > u32::MAX ==> took_in(
            now.e2e_capture_emit,
            u32::MAX,
            next.e2e_capture_emit,
        ),
        m.vision_per_reader_us@[i] > 0 ==> took_in(
            now.vision_readers@[i],
            m.vision_per_reader_us@[i] as u32,
            next.vision_readers@[i],
        ),
        m.vision_per_reader_us@[i] == 0 ==> next.vision_readers@[i] == now.vision_readers@[i],
{
    assert(reader_ticked(
        &now.vision_readers@[i],
        m.vision_per_reader_us@[i],
        &next.vision_readers@[i],
    ));
}

/// A tick counts once. It counts as an overrun if it is flagged as one, and as a gap if its frame
/// is not the one after the last that was seen. Its action counts under its own kind, unless
/// there was none.
pub proof fn a_tick_counts_under_its_own_heads(
    now: MetricsRegistry,
    m: TickMetrics,
    next: MetricsRegistry,
    kind: ActionKindTag,
)
    requires
        now.wf(),
        now.ticks_total < u64::MAX,
        ticked(&now, m, &next),
    ensures
        next.ticks_total == now.ticks_total + 1,
        m.flags.0 & 0x0001 == 0x0001 ==> next.ticks_overrun == now.ticks_overrun + 1,
        m.flags.0 & 0x0001 != 0x0001 ==> next.ticks_overrun == now.ticks_overrun,
        now.last_frame_seq > 0 && m.frame_seq > now.last_frame_seq + 1 ==> next.frame_seq_gaps
            == now.frame_seq_gaps + 1,
        now.last_frame_seq == 0 || m.frame_seq <= now.last_frame_seq + 1 ==> next.frame_seq_gaps
            == now.frame_seq_gaps,
        m.frame_seq > 0 ==> next.last_frame_seq == m.frame_seq,
        m.last_action_kind == kind && kind != ActionKindTag::Nothing
            ==> next.actions_emitted@[kind.place()] == now.actions_emitted@[kind.place()] + 1,
        m.last_action_kind != kind || kind == ActionKindTag::Nothing
            ==> next.actions_emitted@[kind.place()] == now.actions_emitted@[kind.place()],
        next.last_tick == m,
{
}

/// The success rate of a kind is the share of its actions that were acknowledged, in millionths and
/// rounded down; there is none where no action of the kind went out.
pub proof fn a_success_rate_is_a_share(r: MetricsRegistry, kind: ActionKindTag)
    requires
        r.wf(),
    ensures
        (r.success_rate(kind) is None) == (r.actions_emitted@[kind.place()] == 0),
        r.success_rate(kind) matches Some(rate) ==> (rate < u64::MAX ==> r.actions_emitted@[kind.place()]
            * rate <= 1_000_000 * r.actions_acked@[kind.place()] < r.actions_emitted@[kind.place()]
            * (rate + 1)),
        r.success_rate(kind) matches Some(rate) ==> (r.actions_acked@[kind.place()]
            == r.actions_emitted@[kind.place()] ==> rate == 1_000_000),
{
    let e: int = r.actions_emitted@[kind.place()] as int;
    let n: int = r.actions_acked@[kind.place()] * 1_000_000;
    if e > 0 {
        vstd::arithmetic::div_mod::lemma_fundamental_div_mod(n, e);
        let q: int = n / e;
        let rest: int = n % e;
        assert(0 <= rest < e) by (nonlinear_arith)
            requires
                rest == n % e,
                e > 0,
        ;
        assert(q >= 0) by (nonlinear_arith)
            requires
                q == n / e,
                n >= 0,
                e > 0,
        ;
        assert(e * (q + 1) == e * q + e) by (nonlinear_arith);
        if n == e * 1_000_000 {
            assert(q == 1_000_000) by (nonlinear_arith)
                requires
                    n == e * 1_000_000,
                    n == e * q + rest,
                    0 <= rest < e,
            ;
        }
    }
}

/// One more slot counts once under each head that applies to it: as empty by its stage; as
/// matched, with its confidence in basis points, where it was looked at and shows an item; as
/// unmatched where it was looked at and shows none; and as stable where a stable item is known.
pub proof fn a_slot_counts_by_what_it_shows(slots: Seq<SlotReading>, s: SlotReading)
    ensures
        empties(slots.push(s)) == empties(slots) + (if s.stage == SlotStage::Empty {
            1int
        } else {
            0
        }),
        misses(slots.push(s)) == misses(slots) + (if s.stage != SlotStage::Empty && s.stage
            != SlotStage::Unknown && s.item is None {
            1int
        } else {
            0
        }),
        stables(slots.push(s)) == stables(slots) + (if s.stable_item is Some {
            1int
        } else {
            0
        }),
        s.stage != SlotStage::Empty && s.stage != SlotStage::Unknown && s.item is Some
            && s.confidence <= 1_000_000 ==> confidences(slots.push(s)) == confidences(slots).push(
            s.confidence / 100,
        ),
        s.stage != SlotStage::Empty && s.stage != SlotStage::Unknown && s.item is Some
            && s.confidence > 1_000_000 ==> confidences(slots.push(s)) == confidences(slots).push(
            10_000u32,
        ),
        s.stage == SlotStage::Empty || s.stage == SlotStage::Unknown || s.item is None
            ==> confidences(slots.push(s)) == confidences(slots),
        empties(Seq::empty()) == 0,
        misses(Seq::empty()) == 0,
        stables(Seq::empty()) == 0,
        confidences(Seq::empty()) == Seq::<u32>::empty(),
{
    assert(slots.push(s).drop_last() =~= slots);
}

/// A deviation is the whole root of the mean squared distance; of fewer than two values there is
/// none.
pub proof fn a_deviation_is_a_root(d: u32, values: Seq<u32>)
    requires
        deviates(d, values),
    ensures
        values.len() < 2 ==> d == 0,
        values.len() >= 2 ==> d * d <= variance_of(values) && variance_of(values) < (d + 1) * (d + 1),
{
}

/// The windows take in a tick's time and let the oldest go once they are full: the short ones after
/// thirty ticks, the long one after three hundred.
pub proof fn windows_take_in_the_latest_tick(
    now: MetricsRegistry,
    m: TickMetrics,
    next: MetricsRegistry,
)
    requires
        ticked(&now, m, &next),
    ensures
        now.tick_jitter.samples().len() < 30 ==> next.tick_jitter.samples()
            == now.tick_jitter.samples().push(m.tick_total_us),
        now.tick_jitter.samples().len() == 30 ==> next.tick_jitter.samples()
            == now.tick_jitter.samples().drop_first().push(m.tick_total_us),
        now.vision_jitter.samples().len() < 30 ==> next.vision_jitter.samples()
            == now.vision_jitter.samples().push(m.vision_total_us),
        now.vision_jitter.samples().len() == 30 ==> next.vision_jitter.samples()
            == now.vision_jitter.samples().drop_first().push(m.vision_total_us),
        now.tick_long.samples().len() < 300 ==> next.tick_long.samples()
            == now.tick_long.samples().push(m.tick_total_us),
        now.tick_long.samples().len() == 300 ==> next.tick_long.samples()
            == now.tick_long.samples().drop_first().push(m.tick_total_us),
{
}

} // verus!
