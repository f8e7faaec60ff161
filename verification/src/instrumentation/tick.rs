//! The timings, counts and flags of one tick.

use vstd::prelude::*;
use vstd::std_specs::ops::BitOrSpecImpl;

verus! {

/// What kind of action a tick sent out.
#[derive(Clone, Copy, Debug, PartialEq, Eq, Structural)]
pub enum ActionKindTag {
    Nothing,
    Heal,
    Attack,
    Click,
    Key,
    MouseMove,
    NodeWalk,
    Verify,
}

/// The number of action kinds.
pub const ACTION_KINDS: usize = 8;

impl ActionKindTag {
    /// The place of the kind in a table of all kinds.
    pub open spec fn place(self) -> int {
        match self {
            ActionKindTag::Nothing => 0,
            ActionKindTag::Heal => 1,
            ActionKindTag::Attack => 2,
            ActionKindTag::Click => 3,
            ActionKindTag::Key => 4,
            ActionKindTag::MouseMove => 5,
            ActionKindTag::NodeWalk => 6,
            ActionKindTag::Verify => 7,
        }
    }

    /// The name of the kind.
    pub open spec fn name(self) -> Seq<char> {
        match self {
            ActionKindTag::Nothing => "none"@,
            ActionKindTag::Heal => "heal"@,
            ActionKindTag::Attack => "attack"@,
            ActionKindTag::Click => "click"@,
            ActionKindTag::Key => "key"@,
            ActionKindTag::MouseMove => "mouse_move"@,
            ActionKindTag::NodeWalk => "node_walk"@,
            ActionKindTag::Verify => "verify"@,
        }
    }

    /// The place among the kinds.
    pub fn index(self) -> (r: usize)
        ensures
            r == self.place(),
            r < ACTION_KINDS,
    {
        match self {
            ActionKindTag::Nothing => 0,
            ActionKindTag::Heal => 1,
            ActionKindTag::Attack => 2,
            ActionKindTag::Click => 3,
            ActionKindTag::Key => 4,
            ActionKindTag::MouseMove => 5,
            ActionKindTag::NodeWalk => 6,
            ActionKindTag::Verify => 7,
        }
    }

    /// The name, in lower case.
    pub fn label(self) -> (r: &'static str)
        ensures
            r@ == self.name(),
    {
        match self {
            ActionKindTag::Nothing => "none",
            ActionKindTag::Heal => "heal",
            ActionKindTag::Attack => "attack",
            ActionKindTag::Click => "click",
            ActionKindTag::Key => "key",
            ActionKindTag::MouseMove => "mouse_move",
            ActionKindTag::NodeWalk => "node_walk",
            ActionKindTag::Verify => "verify",
        }
    }
}

impl Default for ActionKindTag {
    fn default() -> (r: ActionKindTag)
        ensures
            r == ActionKindTag::Nothing,
    {
        ActionKindTag::Nothing
    }
}

/// A reader of the vision pipeline whose time is taken.
#[derive(Clone, Copy, Debug, PartialEq, Eq, Structural)]
pub enum ReaderId {
    Anchors,
    HpMana,
    Battle,
    Status,
    Minimap,
    Loot,
    Target,
    UiMatch,
    Inventory,
    GameCoords,
    Prompts,
    Other,
}

impl ReaderId {
    /// The number of readers.
    pub const COUNT: usize = 12;

    /// The readers, each at its own place.
    pub open spec fn listed() -> Seq<ReaderId> {
        seq![
            ReaderId::Anchors,
            ReaderId::HpMana,
            ReaderId::Battle,
            ReaderId::Status,
            ReaderId::Minimap,
            ReaderId::Loot,
            ReaderId::Target,
            ReaderId::UiMatch,
            ReaderId::Inventory,
            ReaderId::GameCoords,
            ReaderId::Prompts,
            ReaderId::Other,
        ]
    }

    /// The name of the reader.
    pub open spec fn name(self) -> Seq<char> {
        match self {
            ReaderId::Anchors => "anchors"@,
            ReaderId::HpMana => "hp_mana"@,
            ReaderId::Battle => "battle"@,
            ReaderId::Status => "status"@,
            ReaderId::Minimap => "minimap"@,
            ReaderId::Loot => "loot"@,
            ReaderId::Target => "target"@,
            ReaderId::UiMatch => "ui_match"@,
            ReaderId::Inventory => "inventory"@,
            ReaderId::GameCoords => "game_coords"@,
            ReaderId::Prompts => "prompts"@,
            ReaderId::Other => "other"@,
        }
    }

    /// The name, in lower case.
    pub fn label(self) -> (r: &'static str)
        ensures
            r@ == self.name(),
    {
        match self {
            ReaderId::Anchors => "anchors",
            ReaderId::HpMana => "hp_mana",
            ReaderId::Battle => "battle",
            ReaderId::Status => "status",
            ReaderId::Minimap => "minimap",
            ReaderId::Loot => "loot",
            ReaderId::Target => "target",
            ReaderId::UiMatch => "ui_match",
            ReaderId::Inventory => "inventory",
            ReaderId::GameCoords => "game_coords",
            ReaderId::Prompts => "prompts",
            ReaderId::Other => "other",
        }
    }

    /// All readers, in order.
    pub fn all() -> (r: [ReaderId; 12])
        ensures
            r@ == Self::listed(),
    {
        [
            ReaderId::Anchors,
            ReaderId::HpMana,
            ReaderId::Battle,
            ReaderId::Status,
            ReaderId::Minimap,
            ReaderId::Loot,
            ReaderId::Target,
            ReaderId::UiMatch,
            ReaderId::Inventory,
            ReaderId::GameCoords,
            ReaderId::Prompts,
            ReaderId::Other,
        ]
    }
}

/// Every reader stands in the list of readers, at one place only.
pub proof fn every_reader_is_listed_once(reader: ReaderId)
    ensures
        ReaderId::listed().len() == ReaderId::COUNT,
        exists|i: int| 0 <= i < ReaderId::COUNT && ReaderId::listed()[i] == reader,
        forall|i: int, j: int|
            0 <= i < j < ReaderId::COUNT ==> ReaderId::listed()[i] != ReaderId::listed()[j],
{
    let all = ReaderId::listed();
    let i: int = match reader {
        ReaderId::Anchors => 0,
        ReaderId::HpMana => 1,
        ReaderId::Battle => 2,
        ReaderId::Status => 3,
        ReaderId::Minimap => 4,
        ReaderId::Loot => 5,
        ReaderId::Target => 6,
        ReaderId::UiMatch => 7,
        ReaderId::Inventory => 8,
        ReaderId::GameCoords => 9,
        ReaderId::Prompts => 10,
        ReaderId::Other => 11,
    };
    assert(all[i] == reader);
}

/// Conditions of a tick, one bit each.
#[derive(Clone, Copy, Debug, PartialEq, Eq, Structural)]
pub struct TickFlags(pub u16);

impl TickFlags {
    pub const TICK_OVERRUN_BIT: u16 = 0x0001;
    pub const FRAME_STALE_BIT: u16 = 0x0002;
    pub const ANCHOR_DRIFT_WARN_BIT: u16 = 0x0004;
    pub const ANCHOR_LOST_BIT: u16 = 0x0008;
    pub const VISION_SLOW_BIT: u16 = 0x0010;
    pub const ACTION_FAILED_BIT: u16 = 0x0020;
    pub const BRIDGE_RTT_HIGH_BIT: u16 = 0x0040;
    pub const FRAME_SEQ_GAP_BIT: u16 = 0x0080;
    pub const HEALTH_DEGRADED_BIT: u16 = 0x0100;
    pub const SAFETY_PAUSED_BIT: u16 = 0x0200;
    pub const RECORDER_ACTIVE_BIT: u16 = 0x0400;

    #[verifier::allow_in_spec]
    pub fn none() -> TickFlags
        returns
            TickFlags(0),
    {
        TickFlags(0)
    }

    #[verifier::allow_in_spec]
    pub fn tick_overrun() -> TickFlags
        returns
            TickFlags(Self::TICK_OVERRUN_BIT),
    {
        TickFlags(Self::TICK_OVERRUN_BIT)
    }

    #[verifier::allow_in_spec]
    pub fn frame_stale() -> TickFlags
        returns
            TickFlags(Self::FRAME_STALE_BIT),
    {
        TickFlags(Self::FRAME_STALE_BIT)
    }

    #[verifier::allow_in_spec]
    pub fn anchor_drift_warn() -> TickFlags
        returns
            TickFlags(Self::ANCHOR_DRIFT_WARN_BIT),
    {
        TickFlags(Self::ANCHOR_DRIFT_WARN_BIT)
    }

    #[verifier::allow_in_spec]
    pub fn anchor_lost() -> TickFlags
        returns
            TickFlags(Self::ANCHOR_LOST_BIT),
    {
        TickFlags(Self::ANCHOR_LOST_BIT)
    }

    #[verifier::allow_in_spec]
    pub fn vision_slow() -> TickFlags
        returns
            TickFlags(Self::VISION_SLOW_BIT),
    {
        TickFlags(Self::VISION_SLOW_BIT)
    }

    #[verifier::allow_in_spec]
    pub fn action_failed() -> TickFlags
        returns
            TickFlags(Self::ACTION_FAILED_BIT),
    {
        TickFlags(Self::ACTION_FAILED_BIT)
    }

    #[verifier::allow_in_spec]
    pub fn bridge_rtt_high() -> TickFlags
        returns
            TickFlags(Self::BRIDGE_RTT_HIGH_BIT),
    {
        TickFlags(Self::BRIDGE_RTT_HIGH_BIT)
    }

    #[verifier::allow_in_spec]
    pub fn frame_seq_gap() -> TickFlags
        returns
            TickFlags(Self::FRAME_SEQ_GAP_BIT),
    {
        TickFlags(Self::FRAME_SEQ_GAP_BIT)
    }

    #[verifier::allow_in_spec]
    pub fn health_degraded() -> TickFlags
        returns
            TickFlags(Self::HEALTH_DEGRADED_BIT),
    {
        TickFlags(Self::HEALTH_DEGRADED_BIT)
    }

    #[verifier::allow_in_spec]
    pub fn safety_paused() -> TickFlags
        returns
            TickFlags(Self::SAFETY_PAUSED_BIT),
    {
        TickFlags(Self::SAFETY_PAUSED_BIT)
    }

    #[verifier::allow_in_spec]
    pub fn recorder_active() -> TickFlags
        returns
            TickFlags(Self::RECORDER_ACTIVE_BIT),
    {
        TickFlags(Self::RECORDER_ACTIVE_BIT)
    }

    /// Whether every bit of `other` is set.
    #[verifier::allow_in_spec]
    pub fn contains(self, other: TickFlags) -> bool
        returns
            (self.0 & other.0) == other.0,
    {
        (self.0 & other.0) == other.0
    }

    /// Sets every bit of `other`.
    pub fn insert(&mut self, other: TickFlags)
        ensures
            *final(self) == TickFlags(old(self).0 | other.0),
    {
        self.0 = self.0 | other.0;
    }

    /// Clears every bit of `other`.
    pub fn remove(&mut self, other: TickFlags)
        ensures
            *final(self) == TickFlags(old(self).0 & !other.0),
    {
        self.0 = self.0 & !other.0;
    }

    /// Whether no flag is set.
    pub fn is_empty(self) -> (r: bool)
        ensures
            r == (self.0 == 0),
    {
        self.0 == 0
    }

    /// The names of the flags that are set, from the lowest bit up.
    pub open spec fn set_names(self) -> Seq<Seq<char>> {
        Seq::empty()
            + named(self.contains(TickFlags::tick_overrun()), "tick_overrun"@)
            + named(self.contains(TickFlags::frame_stale()), "frame_stale"@)
            + named(self.contains(TickFlags::anchor_drift_warn()), "anchor_drift_warn"@)
            + named(self.contains(TickFlags::anchor_lost()), "anchor_lost"@)
            + named(self.contains(TickFlags::vision_slow()), "vision_slow"@)
            + named(self.contains(TickFlags::action_failed()), "action_failed"@)
            + named(self.contains(TickFlags::bridge_rtt_high()), "bridge_rtt_high"@)
            + named(self.contains(TickFlags::frame_seq_gap()), "frame_seq_gap"@)
            + named(self.contains(TickFlags::health_degraded()), "health_degraded"@)
            + named(self.contains(TickFlags::safety_paused()), "safety_paused"@)
            + named(self.contains(TickFlags::recorder_active()), "recorder_active"@)
    }

    /// The names of the flags that are set, from the lowest bit up.
    pub fn labels(self) -> (r: Vec<&'static str>)
        ensures
            views(r@) == self.set_names(),
    {
        let mut out: Vec<&'static str> = Vec::new();
        assert(views(out@) =~= Seq::<Seq<char>>::empty());
        push_named(&mut out, self.contains(Self::tick_overrun()), "tick_overrun");
        push_named(&mut out, self.contains(Self::frame_stale()), "frame_stale");
        push_named(&mut out, self.contains(Self::anchor_drift_warn()), "anchor_drift_warn");
        push_named(&mut out, self.contains(Self::anchor_lost()), "anchor_lost");
        push_named(&mut out, self.contains(Self::vision_slow()), "vision_slow");
        push_named(&mut out, self.contains(Self::action_failed()), "action_failed");
        push_named(&mut out, self.contains(Self::bridge_rtt_high()), "bridge_rtt_high");
        push_named(&mut out, self.contains(Self::frame_seq_gap()), "frame_seq_gap");
        push_named(&mut out, self.contains(Self::health_degraded()), "health_degraded");
        push_named(&mut out, self.contains(Self::safety_paused()), "safety_paused");
        push_named(&mut out, self.contains(Self::recorder_active()), "recorder_active");
        out
    }
}

/// `name` where it applies.
pub open spec fn named(applies: bool, name: Seq<char>) -> Seq<Seq<char>> {
    if applies {
        seq![name]
    } else {
        Seq::empty()
    }
}

/// The texts that a list of string slices holds.
pub open spec fn views(texts: Seq<&'static str>) -> Seq<Seq<char>> {
    Seq::new(texts.len(), |i: int| texts[i]@)
}

fn push_named(out: &mut Vec<&'static str>, applies: bool, name: &'static str)
    ensures
        views(final(out)@) == views(old(out)@) + named(applies, name@),
{
    if applies {
        out.push(name);
    }
    assert(views(out@) =~= views(old(out)@) + named(applies, name@));
}

impl Default for TickFlags {
    fn default() -> (r: TickFlags)
        ensures
            r == TickFlags::none(),
    {
        TickFlags(0)
    }
}

impl std::ops::BitOr for TickFlags {
    type Output = TickFlags;

    fn bitor(self, rhs: TickFlags) -> (r: TickFlags) {
        TickFlags(self.0 | rhs.0)
    }
}

impl BitOrSpecImpl for TickFlags {
    open spec fn obeys_bitor_spec() -> bool {
        true
    }

    open spec fn bitor_req(self, rhs: TickFlags) -> bool {
        true
    }

    open spec fn bitor_spec(self, rhs: TickFlags) -> TickFlags {
        TickFlags(self.0 | rhs.0)
    }
}

/// Inserted flags are contained, removed flags are not, and neither operation touches
/// any other flag.
pub proof fn flags_form_a_set(flags: TickFlags, some: TickFlags, other: TickFlags)
    ensures
        TickFlags(flags.0 | some.0).contains(some),
        flags.contains(other) ==> TickFlags(flags.0 | some.0).contains(other),
        some.0 != 0 ==> !TickFlags(flags.0 & !some.0).contains(some),
        other.0 & some.0 == 0 ==> (TickFlags(flags.0 | some.0).contains(other)
            == flags.contains(other)),
        other.0 & some.0 == 0 ==> (TickFlags(flags.0 & !some.0).contains(other)
            == flags.contains(other)),
{
    let f = flags.0;
    let s = some.0;
    let o = other.0;
    assert((f | s) & s == s) by (bit_vector);
    assert(f & o == o ==> (f | s) & o == o) by (bit_vector);
    assert(s != 0 ==> (f & !s) & s != s) by (bit_vector);
    assert(o & s == 0 ==> (f | s) & o == f & o) by (bit_vector);
    assert(o & s == 0 ==> (f & !s) & o == f & o) by (bit_vector);
}

/// The timings in microseconds, the counts and the flags of one tick.
#[derive(Clone, Copy, Debug)]
pub struct TickMetrics {
    pub tick: u64,
    pub frame_seq: u64,
    pub ts_unix_ms: u64,
    pub frame_age_us: u32,
    pub acquire_us: u32,
    pub vision_total_us: u32,
    pub filter_us: u32,
    pub fsm_us: u32,
    pub dispatch_us: u32,
    pub state_write_us: u32,
    pub tick_total_us: u32,
    pub vision_per_reader_us: [u16; 12],
    pub last_action_kind: ActionKindTag,
    pub last_action_rtt_us: u32,
    pub valid_anchors: u8,
    pub total_anchors: u8,
    pub anchor_confidence_bp: u16,
    pub vitals_confidence_bp: u16,
    pub target_confidence_bp: u16,
    pub enemies_visible: u8,
    pub inventory_items: u8,
    pub flags: TickFlags,
}

impl Default for TickMetrics {
    fn default() -> (r: TickMetrics)
        ensures
            r.is_zero(),
    {
        let zeros: [u16; 12] = [0; 12];
        assert(zeros@ =~= Seq::new(12, |i: int| 0u16));
        TickMetrics {
            tick: 0,
            frame_seq: 0,
            ts_unix_ms: 0,
            frame_age_us: 0,
            acquire_us: 0,
            vision_total_us: 0,
            filter_us: 0,
            fsm_us: 0,
            dispatch_us: 0,
            state_write_us: 0,
            tick_total_us: 0,
            vision_per_reader_us: zeros,
            last_action_kind: ActionKindTag::Nothing,
            last_action_rtt_us: 0,
            valid_anchors: 0,
            total_anchors: 0,
            anchor_confidence_bp: 0,
            vitals_confidence_bp: 0,
            target_confidence_bp: 0,
            enemies_visible: 0,
            inventory_items: 0,
            flags: TickFlags(0),
        }
    }
}

/// The sum of two durations, held at the largest that can be written.
pub open spec fn capped_sum(a: int, b: int) -> int {
    if a + b > u32::MAX {
        u32::MAX as int
    } else {
        a + b
    }
}

impl TickMetrics {
    /// The metrics of no tick at all.
    pub open spec fn is_zero(&self) -> bool {
        &&& self.vision_per_reader_us@ == Seq::new(12, |i: int| 0u16)
        &&& *self == (TickMetrics {
            tick: 0,
            frame_seq: 0,
            ts_unix_ms: 0,
            frame_age_us: 0,
            acquire_us: 0,
            vision_total_us: 0,
            filter_us: 0,
            fsm_us: 0,
            dispatch_us: 0,
            state_write_us: 0,
            tick_total_us: 0,
            vision_per_reader_us: self.vision_per_reader_us,
            last_action_kind: ActionKindTag::Nothing,
            last_action_rtt_us: 0,
            valid_anchors: 0,
            total_anchors: 0,
            anchor_confidence_bp: 0,
            vitals_confidence_bp: 0,
            target_confidence_bp: 0,
            enemies_visible: 0,
            inventory_items: 0,
            flags: TickFlags::none(),
        })
    }

    /// From the capture of the frame to the emission of the action.
    pub fn e2e_capture_to_emit_us(&self) -> (r: u32)
        ensures
            r == capped_sum(self.frame_age_us as int, self.tick_total_us as int),
    {
        self.frame_age_us.saturating_add(self.tick_total_us)
    }

    /// From the capture of the frame to the acknowledgement of the action.
    pub fn e2e_capture_to_ack_us(&self) -> (r: u32)
        ensures
            r == capped_sum(
                capped_sum(self.frame_age_us as int, self.tick_total_us as int),
                self.last_action_rtt_us as int,
            ),
    {
        self.e2e_capture_to_emit_us().saturating_add(self.last_action_rtt_us)
    }

    /// The reader that took longest, with its time; the last of several that took as long.
    pub fn dominant_reader(&self) -> (r: Option<(ReaderId, u16)>)
        ensures
            (r is None) == (forall|i: int| 0 <= i < 12 ==> self.vision_per_reader_us@[i] == 0),
            r matches Some(found) ==> exists|i: int|
                0 <= i < 12 && found.0 == ReaderId::listed()[i] && found.1
                    == #[trigger] self.vision_per_reader_us@[i] && is_last_largest(
                    self.vision_per_reader_us@,
                    i,
                ),
    {
        let times = self.vision_per_reader_us;
        let mut best: usize = 0;
        let mut i: usize = 1;
        while i < 12
            invariant
                1 <= i <= 12,
                best < i,
                times == self.vision_per_reader_us,
                forall|j: int| 0 <= j < i ==> times@[j] <= times@[best as int],
                forall|j: int| best < j < i ==> times@[j] < times@[best as int],
            decreases 12 - i,
        {
            if times[i] >= times[best] {
                best = i;
            }
            i = i + 1;
        }
        if times[best] == 0 {
            None
        } else {
            let all = ReaderId::all();
            let found = (all[best], times[best]);
            assert(is_last_largest(self.vision_per_reader_us@, best as int));
            Some(found)
        }
    }
}

/// Whether `s[i]` is the largest of `s`, and larger than all that follow it.
pub open spec fn is_last_largest(s: Seq<u16>, i: int) -> bool {
    &&& forall|j: int| 0 <= j < s.len() ==> s[j] <= s[i]
    &&& forall|j: int| i < j < s.len() ==> s[j] < s[i]
}

/// Every kind of action has a place of its own among the eight.
pub proof fn every_kind_has_its_own_place(a: ActionKindTag, b: ActionKindTag)
    ensures
        0 <= a.place() < 8,
        a.place() == b.place() ==> a == b,
{
}

/// The flags that are set are named from the lowest bit up, each by its own bit.
pub proof fn each_bit_has_its_own_name(flags: TickFlags)
    ensures
        flags.set_names() == Seq::empty() + named(flags.0 & 0x0001 != 0, "tick_overrun"@) + named(
            flags.0 & 0x0002 != 0,
            "frame_stale"@,
        ) + named(flags.0 & 0x0004 != 0, "anchor_drift_warn"@) + named(
            flags.0 & 0x0008 != 0,
            "anchor_lost"@,
        ) + named(flags.0 & 0x0010 != 0, "vision_slow"@) + named(
            flags.0 & 0x0020 != 0,
            "action_failed"@,
        ) + named(flags.0 & 0x0040 != 0, "bridge_rtt_high"@) + named(
            flags.0 & 0x0080 != 0,
            "frame_seq_gap"@,
        ) + named(flags.0 & 0x0100 != 0, "health_degraded"@) + named(
            flags.0 & 0x0200 != 0,
            "safety_paused"@,
        ) + named(flags.0 & 0x0400 != 0, "recorder_active"@),
{
    let f: u16 = flags.0;
    assert((f & 0x0001 == 0x0001) == (f & 0x0001 != 0) && (f & 0x0002 == 0x0002) == (f & 0x0002
        != 0) && (f & 0x0004 == 0x0004) == (f & 0x0004 != 0) && (f & 0x0008 == 0x0008) == (f
        & 0x0008 != 0) && (f & 0x0010 == 0x0010) == (f & 0x0010 != 0) && (f & 0x0020 == 0x0020)
        == (f & 0x0020 != 0) && (f & 0x0040 == 0x0040) == (f & 0x0040 != 0) && (f & 0x0080
        == 0x0080) == (f & 0x0080 != 0) && (f & 0x0100 == 0x0100) == (f & 0x0100 != 0) && (f
        & 0x0200 == 0x0200) == (f & 0x0200 != 0) && (f & 0x0400 == 0x0400) == (f & 0x0400 != 0))
        by (bit_vector);
}

/// A name applies or does not.
pub proof fn a_name_stands_where_it_applies(name: Seq<char>)
    ensures
        named(true, name) == seq![name],
        named(false, name).len() == 0,
{
}

/// Two durations add up, as long as their sum can be written.
pub proof fn durations_add_up(a: int, b: int)
    ensures
        a + b <= 0xFFFF_FFFF ==> capped_sum(a, b) == a + b,
        a + b > 0xFFFF_FFFF ==> capped_sum(a, b) == 0xFFFF_FFFF,
{
}

/// Kinds of actions are named by what they do.
pub proof fn kinds_are_named_by_what_they_do(kind: ActionKindTag)
    ensures
        kind == ActionKindTag::Nothing ==> kind.name() == "none"@ && kind.place() == 0,
        kind == ActionKindTag::Heal ==> kind.name() == "heal"@ && kind.place() == 1,
        kind == ActionKindTag::Attack ==> kind.name() == "attack"@ && kind.place() == 2,
        kind == ActionKindTag::Click ==> kind.name() == "click"@ && kind.place() == 3,
        kind == ActionKindTag::Key ==> kind.name() == "key"@ && kind.place() == 4,
        kind == ActionKindTag::MouseMove ==> kind.name() == "mouse_move"@ && kind.place() == 5,
        kind == ActionKindTag::NodeWalk ==> kind.name() == "node_walk"@ && kind.place() == 6,
        kind == ActionKindTag::Verify ==> kind.name() == "verify"@ && kind.place() == 7,
{
}

/// Readers are named by what they read.
pub proof fn readers_are_named_by_what_they_read(reader: ReaderId)
    ensures
        reader == ReaderId::Anchors ==> reader.name() == "anchors"@,
        reader == ReaderId::HpMana ==> reader.name() == "hp_mana"@,
        reader == ReaderId::Battle ==> reader.name() == "battle"@,
        reader == ReaderId::Status ==> reader.name() == "status"@,
        reader == ReaderId::Minimap ==> reader.name() == "minimap"@,
        reader == ReaderId::Loot ==> reader.name() == "loot"@,
        reader == ReaderId::Target ==> reader.name() == "target"@,
        reader == ReaderId::UiMatch ==> reader.name() == "ui_match"@,
        reader == ReaderId::Inventory ==> reader.name() == "inventory"@,
        reader == ReaderId::GameCoords ==> reader.name() == "game_coords"@,
        reader == ReaderId::Prompts ==> reader.name() == "prompts"@,
        reader == ReaderId::Other ==> reader.name() == "other"@,
{
}

} // verus!
