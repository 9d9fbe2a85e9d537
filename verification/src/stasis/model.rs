//! The stasis configuration: lectern terminals, chamber definitions and occupants.

use vstd::prelude::*;
use vstd::string::*;
use crate::blockpos::BlockPos;
use crate::text::str_eq;

verus! {

/// A lectern whose pages select a chamber, and the button that triggers the selected one.
#[derive(Debug, Clone)]
pub struct LecternRedcoderTerminal {
    pub id: String,
    pub lectern: BlockPos,
    pub button: BlockPos,
}

/// One chamber of a lectern terminal.
#[derive(Debug, Clone)]
pub struct LecternRedcoderEndpoint {
    pub lectern_redcoder_terminal_id: String,
    pub chamber_index: usize,
}

/// How a stasis chamber is triggered.
#[derive(Debug, Clone)]
pub enum StasisChamberDefinition {
    FlippableTrapdoor { trapdoor_pos: BlockPos },
    SecuredFlippableTrapdoor { security_trapdoor_pos: BlockPos, trigger_trapdoor_pos: BlockPos },
    RedcoderTrapdoor { trapdoor_pos: BlockPos, endpoint: LecternRedcoderEndpoint },
    RedcoderShay { base_pos: BlockPos, endpoint: LecternRedcoderEndpoint },
    RedstoneSingleTrigger { base_pos: BlockPos, trigger_pos: BlockPos },
    RedstoneDoubleTrigger { base_pos: BlockPos, trigger_pos: BlockPos, delay_ticks: u32 },
}

/// A pearl in a chamber: when it was thrown (nanoseconds since the Unix epoch), by whom
/// and which pearl entity it is, where known.
#[derive(Debug, Copy, Clone, PartialEq, Eq, Structural)]
pub struct ChamberOccupant {
    pub thrown_at: i64,
    pub player_uuid: Option<u128>,
    pub pearl_uuid: Option<u128>,
}

/// A chamber and the pearls in it.
#[derive(Debug, Clone)]
pub struct StasisChamberEntry {
    pub definition: StasisChamberDefinition,
    pub occupants: Vec<ChamberOccupant>,
}

/// Everything the stasis module remembers.
#[derive(Debug, Clone)]
pub struct StasisConfig {
    pub lectern_redcoder_terminals: Vec<LecternRedcoderTerminal>,
    pub chambers: Vec<StasisChamberEntry>,
}

/// An endpoint with its terminal id as characters.
pub struct EndpointView {
    pub terminal: Seq<char>,
    pub index: usize,
}

/// A chamber definition with terminal ids as characters.
pub enum DefView {
    Flippable(BlockPos),
    Secured(BlockPos, BlockPos),
    RedcoderTrapdoor(BlockPos, EndpointView),
    RedcoderShay(BlockPos, EndpointView),
    SingleTrigger(BlockPos, BlockPos),
    DoubleTrigger(BlockPos, BlockPos, u32),
}

/// A chamber entry as values.
pub struct EntryView {
    pub def: DefView,
    pub occupants: Seq<ChamberOccupant>,
}

/// A terminal as values.
pub struct TerminalView {
    pub id: Seq<char>,
    pub lectern: BlockPos,
    pub button: BlockPos,
}

impl View for LecternRedcoderEndpoint {
    type V = EndpointView;

    open spec fn view(&self) -> EndpointView {
        EndpointView { terminal: self.lectern_redcoder_terminal_id@, index: self.chamber_index }
    }
}

impl View for StasisChamberDefinition {
    type V = DefView;

    open spec fn view(&self) -> DefView {
        match self {
            StasisChamberDefinition::FlippableTrapdoor { trapdoor_pos } => DefView::Flippable(*trapdoor_pos),
            StasisChamberDefinition::SecuredFlippableTrapdoor { security_trapdoor_pos, trigger_trapdoor_pos } =>
                DefView::Secured(*security_trapdoor_pos, *trigger_trapdoor_pos),
            StasisChamberDefinition::RedcoderTrapdoor { trapdoor_pos, endpoint } =>
                DefView::RedcoderTrapdoor(*trapdoor_pos, endpoint@),
            StasisChamberDefinition::RedcoderShay { base_pos, endpoint } => DefView::RedcoderShay(*base_pos, endpoint@),
            StasisChamberDefinition::RedstoneSingleTrigger { base_pos, trigger_pos } =>
                DefView::SingleTrigger(*base_pos, *trigger_pos),
            StasisChamberDefinition::RedstoneDoubleTrigger { base_pos, trigger_pos, delay_ticks } =>
                DefView::DoubleTrigger(*base_pos, *trigger_pos, *delay_ticks),
        }
    }
}

impl View for StasisChamberEntry {
    type V = EntryView;

    open spec fn view(&self) -> EntryView {
        EntryView { def: self.definition@, occupants: self.occupants@ }
    }
}

impl View for LecternRedcoderTerminal {
    type V = TerminalView;

    open spec fn view(&self) -> TerminalView {
        TerminalView { id: self.id@, lectern: self.lectern, button: self.button }
    }
}

/// The chambers of a configuration as values.
pub open spec fn entries_view(chambers: Seq<StasisChamberEntry>) -> Seq<EntryView> {
    chambers.map_values(|c: StasisChamberEntry| c@)
}

/// The terminals of a configuration as values.
pub open spec fn terminals_view(terminals: Seq<LecternRedcoderTerminal>) -> Seq<TerminalView> {
    terminals.map_values(|t: LecternRedcoderTerminal| t@)
}

/// The name of a definition's kind.
pub open spec fn spec_kind_name(d: DefView) -> Seq<char> {
    match d {
        DefView::Flippable(..) => "FlippableTrapdoor"@,
        DefView::Secured(..) => "SecuredFlippableTrapdoor"@,
        DefView::RedcoderTrapdoor(..) => "RedcoderTrapdoor"@,
        DefView::RedcoderShay(..) => "RedcoderShay"@,
        DefView::SingleTrigger(..) => "RedstoneSingleTrigger"@,
        DefView::DoubleTrigger(..) => "RedstoneDoubleTrigger"@,
    }
}

/// Where a chamber roughly is: its (trigger) trapdoor or its base.
pub open spec fn spec_rough_pos(d: DefView) -> BlockPos {
    match d {
        DefView::Flippable(p) => p,
        DefView::Secured(_, trigger) => trigger,
        DefView::RedcoderTrapdoor(p, _) => p,
        DefView::RedcoderShay(p, _) => p,
        DefView::SingleTrigger(p, _) => p,
        DefView::DoubleTrigger(p, _, _) => p,
    }
}

/// Whether a chamber is flipped by hand at a trapdoor (one or two trapdoors).
pub open spec fn is_trapdoor_kind(d: DefView) -> bool {
    d is Flippable || d is Secured
}

impl LecternRedcoderEndpoint {
    /// A copy of this endpoint.
    pub fn duplicate(&self) -> (r: LecternRedcoderEndpoint)
        ensures
            r@ == self@,
    {
        LecternRedcoderEndpoint {
            lectern_redcoder_terminal_id: String::from_str(self.lectern_redcoder_terminal_id.as_str()),
            chamber_index: self.chamber_index,
        }
    }

    /// Whether two endpoints name the same terminal and index.
    pub fn same_as(&self, other: &LecternRedcoderEndpoint) -> (r: bool)
        ensures
            r == (self@ == other@),
    {
        str_eq(self.lectern_redcoder_terminal_id.as_str(), other.lectern_redcoder_terminal_id.as_str())
            && self.chamber_index == other.chamber_index
    }
}

impl LecternRedcoderTerminal {
    /// A copy of this terminal.
    pub fn duplicate(&self) -> (r: LecternRedcoderTerminal)
        ensures
            r@ == self@,
    {
        LecternRedcoderTerminal { id: String::from_str(self.id.as_str()), lectern: self.lectern, button: self.button }
    }
}

impl StasisChamberDefinition {
    /// The name of this definition's kind.
    pub fn kind_name(&self) -> (r: &'static str)
        ensures
            r@ == spec_kind_name(self@),
    {
        match self {
            StasisChamberDefinition::FlippableTrapdoor { .. } => "FlippableTrapdoor",
            StasisChamberDefinition::SecuredFlippableTrapdoor { .. } => "SecuredFlippableTrapdoor",
            StasisChamberDefinition::RedcoderTrapdoor { .. } => "RedcoderTrapdoor",
            StasisChamberDefinition::RedcoderShay { .. } => "RedcoderShay",
            StasisChamberDefinition::RedstoneSingleTrigger { .. } => "RedstoneSingleTrigger",
            StasisChamberDefinition::RedstoneDoubleTrigger { .. } => "RedstoneDoubleTrigger",
        }
    }

    /// Where this chamber roughly is.
    pub fn rough_pos(&self) -> (r: BlockPos)
        ensures
            r == spec_rough_pos(self@),
    {
        match self {
            StasisChamberDefinition::FlippableTrapdoor { trapdoor_pos } => *trapdoor_pos,
            StasisChamberDefinition::SecuredFlippableTrapdoor { trigger_trapdoor_pos, .. } => *trigger_trapdoor_pos,
            StasisChamberDefinition::RedcoderTrapdoor { trapdoor_pos, .. } => *trapdoor_pos,
            StasisChamberDefinition::RedcoderShay { base_pos, .. } => *base_pos,
            StasisChamberDefinition::RedstoneSingleTrigger { base_pos, .. } => *base_pos,
            StasisChamberDefinition::RedstoneDoubleTrigger { base_pos, .. } => *base_pos,
        }
    }

    /// Whether this is a hand-flipped trapdoor chamber.
    pub fn is_trapdoor(&self) -> (r: bool)
        ensures
            r == is_trapdoor_kind(self@),
    {
        match self {
            StasisChamberDefinition::FlippableTrapdoor { .. } => true,
            StasisChamberDefinition::SecuredFlippableTrapdoor { .. } => true,
            _ => false,
        }
    }

    /// A copy of this definition.
    pub fn duplicate(&self) -> (r: StasisChamberDefinition)
        ensures
            r@ == self@,
    {
        match self {
            StasisChamberDefinition::FlippableTrapdoor { trapdoor_pos } =>
                StasisChamberDefinition::FlippableTrapdoor { trapdoor_pos: *trapdoor_pos },
            StasisChamberDefinition::SecuredFlippableTrapdoor { security_trapdoor_pos, trigger_trapdoor_pos } =>
                StasisChamberDefinition::SecuredFlippableTrapdoor {
                    security_trapdoor_pos: *security_trapdoor_pos,
                    trigger_trapdoor_pos: *trigger_trapdoor_pos,
                },
            StasisChamberDefinition::RedcoderTrapdoor { trapdoor_pos, endpoint } =>
                StasisChamberDefinition::RedcoderTrapdoor { trapdoor_pos: *trapdoor_pos, endpoint: endpoint.duplicate() },
            StasisChamberDefinition::RedcoderShay { base_pos, endpoint } =>
                StasisChamberDefinition::RedcoderShay { base_pos: *base_pos, endpoint: endpoint.duplicate() },
            StasisChamberDefinition::RedstoneSingleTrigger { base_pos, trigger_pos } =>
                StasisChamberDefinition::RedstoneSingleTrigger { base_pos: *base_pos, trigger_pos: *trigger_pos },
            StasisChamberDefinition::RedstoneDoubleTrigger { base_pos, trigger_pos, delay_ticks } =>
                StasisChamberDefinition::RedstoneDoubleTrigger {
                    base_pos: *base_pos,
                    trigger_pos: *trigger_pos,
                    delay_ticks: *delay_ticks,
                },
        }
    }

    /// Whether two definitions are equal.
    pub fn same_as(&self, other: &StasisChamberDefinition) -> (r: bool)
        ensures
            r == (self@ == other@),
    {
        match (self, other) {
            (
                StasisChamberDefinition::FlippableTrapdoor { trapdoor_pos: a },
                StasisChamberDefinition::FlippableTrapdoor { trapdoor_pos: b },
            ) => *a == *b,
            (
                StasisChamberDefinition::SecuredFlippableTrapdoor { security_trapdoor_pos: a1, trigger_trapdoor_pos: a2 },
                StasisChamberDefinition::SecuredFlippableTrapdoor { security_trapdoor_pos: b1, trigger_trapdoor_pos: b2 },
            ) => *a1 == *b1 && *a2 == *b2,
            (
                StasisChamberDefinition::RedcoderTrapdoor { trapdoor_pos: a, endpoint: ea },
                StasisChamberDefinition::RedcoderTrapdoor { trapdoor_pos: b, endpoint: eb },
            ) => *a == *b && ea.same_as(eb),
            (
                StasisChamberDefinition::RedcoderShay { base_pos: a, endpoint: ea },
                StasisChamberDefinition::RedcoderShay { base_pos: b, endpoint: eb },
            ) => *a == *b && ea.same_as(eb),
            (
                StasisChamberDefinition::RedstoneSingleTrigger { base_pos: a1, trigger_pos: a2 },
                StasisChamberDefinition::RedstoneSingleTrigger { base_pos: b1, trigger_pos: b2 },
            ) => *a1 == *b1 && *a2 == *b2,
            (
                StasisChamberDefinition::RedstoneDoubleTrigger { base_pos: a1, trigger_pos: a2, delay_ticks: ad },
                StasisChamberDefinition::RedstoneDoubleTrigger { base_pos: b1, trigger_pos: b2, delay_ticks: bd },
            ) => *a1 == *b1 && *a2 == *b2 && *ad == *bd,
            _ => false,
        }
    }
}

impl StasisChamberEntry {
    /// A copy of this entry.
    pub fn duplicate(&self) -> (r: StasisChamberEntry)
        ensures
            r@ == self@,
    {
        let mut occupants: Vec<ChamberOccupant> = Vec::new();
        let mut i: usize = 0;
        while i < self.occupants.len()
            invariant
                i <= self.occupants@.len(),
                occupants@ == self.occupants@.subrange(0, i as int),
            decreases self.occupants@.len() - i,
        {
            occupants.push(self.occupants[i]);
            i = i + 1;
            assert(occupants@ =~= self.occupants@.subrange(0, i as int));
        }
        assert(occupants@ =~= self.occupants@);
        StasisChamberEntry { definition: self.definition.duplicate(), occupants }
    }
}

impl StasisConfig {
    /// No terminals and no chambers.
    pub fn new() -> (r: StasisConfig)
        ensures
            r.lectern_redcoder_terminals@.len() == 0,
            r.chambers@.len() == 0,
    {
        StasisConfig { lectern_redcoder_terminals: Vec::new(), chambers: Vec::new() }
    }
}

impl Default for StasisConfig {
    fn default() -> (r: StasisConfig)
        ensures
            r.lectern_redcoder_terminals@.len() == 0,
            r.chambers@.len() == 0,
    {
        StasisConfig::new()
    }
}

} // verus!
