//! Reading the column of blocks below a thrown pearl: trapdoors over a bubble column
//! over soul sand make a hand-flipped stasis chamber.

use vstd::prelude::*;
use vstd::string::*;
use crate::blockpos::BlockPos;
use crate::text::{ends_with, is_suffix};
use crate::stasis::model::{StasisChamberDefinition, DefView};

verus! {

/// What a block of the column is, as far as the detection cares.
#[derive(Debug, Copy, Clone, PartialEq, Eq, Structural)]
pub enum ColumnBlock {
    Unknown,
    Trapdoor,
    BubbleColumn,
    SoulSand,
}

/// How many blocks are read, from 8 above the pearl downwards.
pub const COLUMN_DEPTH: usize = 32;

/// The kind of a block by its id: a non-iron trapdoor, a bubble column, soul sand, or other.
pub open spec fn spec_classify(id: Seq<char>) -> ColumnBlock {
    if is_suffix("_trapdoor"@, id) && !is_suffix("iron_trapdoor"@, id) {
        ColumnBlock::Trapdoor
    } else if is_suffix("bubble_column"@, id) {
        ColumnBlock::BubbleColumn
    } else if is_suffix("soul_sand"@, id) {
        ColumnBlock::SoulSand
    } else {
        ColumnBlock::Unknown
    }
}

/// The kind of a block by its id.
pub fn classify_block(id: &str) -> (r: ColumnBlock)
    ensures
        r == spec_classify(id@),
{
    if ends_with(id, "_trapdoor") && !ends_with(id, "iron_trapdoor") {
        ColumnBlock::Trapdoor
    } else if ends_with(id, "bubble_column") {
        ColumnBlock::BubbleColumn
    } else if ends_with(id, "soul_sand") {
        ColumnBlock::SoulSand
    } else {
        ColumnBlock::Unknown
    }
}

/// Where the scan of a column stands.
#[derive(Debug, Copy, Clone, PartialEq, Eq, Structural)]
pub struct ColumnScan {
    pub last: ColumnBlock,
    pub trapdoor_1: Option<BlockPos>,
    pub trapdoor_2: Option<BlockPos>,
    pub found_soul_sand: bool,
    pub column_blocks: u32,
    /// Soul sand under the bubble column ended the scan.
    pub done: bool,
}

/// The scan before the first block.
pub open spec fn scan_start() -> ColumnScan {
    ColumnScan {
        last: ColumnBlock::Unknown,
        trapdoor_1: None,
        trapdoor_2: None,
        found_soul_sand: false,
        column_blocks: 0,
        done: false,
    }
}

/// The scan after one more block at `pos` (`None`: not loaded, skipped). Trapdoors
/// start a chamber (a second trapdoor right below the first is its trigger), bubble
/// column blocks below them are counted, and soul sand under the column completes it;
/// anything else starts over.
pub open spec fn scan_step(st: ColumnScan, block: Option<ColumnBlock>, pos: BlockPos) -> ColumnScan {
    if st.done {
        st
    } else {
        match block {
            None => st,
            Some(b) => {
                let reset = ColumnScan {
                    last: b,
                    trapdoor_1: None,
                    trapdoor_2: None,
                    found_soul_sand: false,
                    column_blocks: 0,
                    done: false,
                };
                match b {
                    ColumnBlock::Trapdoor => if st.last == ColumnBlock::Unknown {
                        ColumnScan { last: b, trapdoor_1: Some(pos), column_blocks: 0, found_soul_sand: false, ..st }
                    } else if st.last == ColumnBlock::Trapdoor && st.trapdoor_1 is Some {
                        ColumnScan { last: b, trapdoor_2: Some(pos), column_blocks: 0, found_soul_sand: false, ..st }
                    } else {
                        reset
                    },
                    ColumnBlock::BubbleColumn => if st.last == ColumnBlock::BubbleColumn || st.last == ColumnBlock::Trapdoor {
                        ColumnScan { last: b, column_blocks: (st.column_blocks + 1) as u32, ..st }
                    } else {
                        reset
                    },
                    ColumnBlock::SoulSand => if st.last == ColumnBlock::BubbleColumn {
                        ColumnScan { found_soul_sand: true, done: true, ..st }
                    } else {
                        ColumnScan { last: b, ..st }
                    },
                    ColumnBlock::Unknown => reset,
                }
            },
        }
    }
}

/// The position `k` blocks below `base`.
pub open spec fn below(base: BlockPos, k: int) -> BlockPos {
    BlockPos { x: base.x, y: (base.y - k) as i32, z: base.z }
}

/// The scan after the first `k` blocks of the column below `base`.
pub open spec fn scan_prefix(column: Seq<Option<ColumnBlock>>, base: BlockPos, k: nat) -> ColumnScan
    decreases k,
{
    if k == 0 {
        scan_start()
    } else {
        let j = (k - 1) as nat;
        scan_step(scan_prefix(column, base, j), column[j as int], below(base, j as int))
    }
}

/// The chamber that a completed scan shows: a trapdoor over at least 4 bubble column
/// blocks over soul sand; with a second trapdoor it is a secured chamber whose lower
/// trapdoor triggers it.
pub open spec fn detected_definition(st: ColumnScan) -> Option<DefView> {
    if st.trapdoor_1 is Some && st.found_soul_sand && st.column_blocks >= 4 {
        match st.trapdoor_2 {
            Some(trigger) => Some(DefView::Secured(st.trapdoor_1->0, trigger)),
            None => Some(DefView::Flippable(st.trapdoor_1->0)),
        }
    } else {
        None
    }
}

/// The top of the column read for a pearl in block `pearl`: 8 blocks above it.
pub open spec fn column_base(pearl: BlockPos) -> BlockPos {
    BlockPos { x: pearl.x, y: (pearl.y + 8) as i32, z: pearl.z }
}

/// Whether the column for a pearl in this block stays within 32-bit coordinates.
pub open spec fn column_fits(pearl: BlockPos) -> bool {
    pearl.y + 8 <= i32::MAX && pearl.y + 8 - (COLUMN_DEPTH - 1) >= i32::MIN
}

/// The chamber shown by the column below a pearl, read from 8 blocks above it downwards.
pub open spec fn column_definition(column: Seq<Option<ColumnBlock>>, pearl: BlockPos) -> Option<DefView> {
    detected_definition(scan_prefix(column, column_base(pearl), column.len()))
}

proof fn lemma_scan_done_stays(column: Seq<Option<ColumnBlock>>, base: BlockPos, k: nat, m: nat)
    requires
        k <= m,
        scan_prefix(column, base, k).done,
    ensures
        scan_prefix(column, base, m) == scan_prefix(column, base, k),
    decreases m - k,
{
    if k < m {
        lemma_scan_done_stays(column, base, k, (m - 1) as nat);
    }
}

/// Reads the column below a pearl in block `pearl_block_pos` (one entry per block, from
/// 8 above the pearl downwards; `None` where the world is not loaded) and returns the
/// chamber it shows, if any.
pub fn detect_chamber(column: &Vec<Option<ColumnBlock>>, pearl_block_pos: BlockPos) -> (r: Option<StasisChamberDefinition>)
    requires
        column@.len() == COLUMN_DEPTH,
        column_fits(pearl_block_pos),
    ensures
        match column_definition(column@, pearl_block_pos) {
            Some(d) => r matches Some(def) && def@ == d,
            None => r is None,
        },
{
    let base = BlockPos { x: pearl_block_pos.x, y: pearl_block_pos.y + 8, z: pearl_block_pos.z };
    let mut last = ColumnBlock::Unknown;
    let mut trapdoor_1: Option<BlockPos> = None;
    let mut trapdoor_2: Option<BlockPos> = None;
    let mut found_soul_sand = false;
    let mut column_blocks: u32 = 0;
    let mut i: usize = 0;
    while i < COLUMN_DEPTH
        invariant_except_break
            i <= COLUMN_DEPTH,
            base == column_base(pearl_block_pos),
            column@.len() == COLUMN_DEPTH,
            column_fits(pearl_block_pos),
            column_blocks <= i,
            scan_prefix(column@, base, i as nat) == (ColumnScan {
                last, trapdoor_1, trapdoor_2, found_soul_sand, column_blocks, done: false,
            }),
        ensures
            scan_prefix(column@, base, COLUMN_DEPTH as nat) == (ColumnScan {
                last, trapdoor_1, trapdoor_2, found_soul_sand, column_blocks,
                done: scan_prefix(column@, base, COLUMN_DEPTH as nat).done,
            }),
        decreases COLUMN_DEPTH - i,
    {
        let pos = BlockPos { x: base.x, y: base.y - i as i32, z: base.z };
        assert(pos == below(base, i as int));
        let ghost before = scan_prefix(column@, base, i as nat);
        assert(scan_prefix(column@, base, (i + 1) as nat) == scan_step(before, column@[i as int], pos));
        match column[i] {
            None => {},
            Some(b) => {
                let mut reset = false;
                match b {
                    ColumnBlock::Trapdoor => {
                        if last == ColumnBlock::Unknown {
                            trapdoor_1 = Some(pos);
                            column_blocks = 0;
                            found_soul_sand = false;
                        } else if last == ColumnBlock::Trapdoor && trapdoor_1.is_some() {
                            trapdoor_2 = Some(pos);
                            column_blocks = 0;
                            found_soul_sand = false;
                        } else {
                            reset = true;
                        }
                    },
                    ColumnBlock::BubbleColumn => {
                        if last == ColumnBlock::BubbleColumn || last == ColumnBlock::Trapdoor {
                            column_blocks = column_blocks + 1;
                        } else {
                            reset = true;
                        }
                    },
                    ColumnBlock::SoulSand => {
                        if last == ColumnBlock::BubbleColumn {
                            found_soul_sand = true;
                            proof {
                                lemma_scan_done_stays(column@, base, (i + 1) as nat, COLUMN_DEPTH as nat);
                            }
                            break;
                        }
                    },
                    ColumnBlock::Unknown => {
                        reset = true;
                    },
                }
                if reset {
                    trapdoor_1 = None;
                    trapdoor_2 = None;
                    column_blocks = 0;
                    found_soul_sand = false;
                }
                last = b;
            },
        }
        i = i + 1;
    }
    if trapdoor_1.is_some() && found_soul_sand && column_blocks >= 4 {
        match (trapdoor_1, trapdoor_2) {
            (Some(security_trapdoor_pos), Some(trigger_trapdoor_pos)) =>
                Some(StasisChamberDefinition::SecuredFlippableTrapdoor { security_trapdoor_pos, trigger_trapdoor_pos }),
            (Some(trapdoor_pos), None) => Some(StasisChamberDefinition::FlippableTrapdoor { trapdoor_pos }),
            _ => None,
        }
    } else {
        None
    }
}

proof fn lemma_scan_over_bubbles(
    column: Seq<Option<ColumnBlock>>,
    base: BlockPos,
    s: nat,
    k: nat,
    first: ColumnScan,
)
    requires
        s <= k <= column.len() <= COLUMN_DEPTH,
        scan_prefix(column, base, s) == first,
        first.last == ColumnBlock::Trapdoor,
        first.column_blocks == 0,
        !first.done,
        !first.found_soul_sand,
        forall|j: int| s <= j < k ==> #[trigger] column[j] == Some(ColumnBlock::BubbleColumn),
    ensures
        scan_prefix(column, base, k) == (if k == s { first } else {
            ColumnScan { last: ColumnBlock::BubbleColumn, column_blocks: (k - s) as u32, ..first }
        }),
    decreases k - s,
{
    if k > s {
        lemma_scan_over_bubbles(column, base, s, (k - 1) as nat, first);
    }
}

proof fn lemma_scan_over_unknown(column: Seq<Option<ColumnBlock>>, base: BlockPos, k: nat)
    requires
        k <= column.len(),
        forall|j: int| 0 <= j < k ==> #[trigger] column[j] is None || column[j] == Some(ColumnBlock::Unknown),
    ensures
        scan_prefix(column, base, k).last == ColumnBlock::Unknown,
        scan_prefix(column, base, k).trapdoor_1 is None,
        scan_prefix(column, base, k).trapdoor_2 is None,
        !scan_prefix(column, base, k).done,
    decreases k,
{
    if k > 0 {
        lemma_scan_over_unknown(column, base, (k - 1) as nat);
    }
}

/// A column that shows, from the top, only air or unloaded blocks, then a trapdoor (or
/// two, one right below the other), then at least 4 blocks of bubble column, then soul
/// sand, is a hand-flipped chamber at the (upper) trapdoor: a secured one, triggered by
/// the lower trapdoor, where there are two. The column is read from 8 blocks above the
/// pearl, `t` blocks down to the trapdoor.
pub proof fn law_trapdoor_over_bubbles_is_chamber(
    column: Seq<Option<ColumnBlock>>,
    pearl: BlockPos,
    t: nat,
    two: bool,
    n: nat,
)
    requires
        column.len() == COLUMN_DEPTH,
        pearl.y + 8 <= i32::MAX,
        pearl.y + 8 - COLUMN_DEPTH >= i32::MIN,
        n >= 4,
        t + (if two { 2nat } else { 1nat }) + n < column.len(),
        forall|j: int| 0 <= j < t ==> #[trigger] column[j] is None || column[j] == Some(ColumnBlock::Unknown),
        column[t as int] == Some(ColumnBlock::Trapdoor),
        two ==> column[t + 1int] == Some(ColumnBlock::Trapdoor),
        forall|j: int| t + (if two { 2nat } else { 1nat }) <= j < t + (if two { 2nat } else { 1nat }) + n
            ==> #[trigger] column[j] == Some(ColumnBlock::BubbleColumn),
        column[(t + (if two { 2nat } else { 1nat }) + n) as int] == Some(ColumnBlock::SoulSand),
    ensures
        ({
            let top = BlockPos { x: pearl.x, y: (pearl.y + 8 - t) as i32, z: pearl.z };
            let lower = BlockPos { x: pearl.x, y: (pearl.y + 8 - t - 1) as i32, z: pearl.z };
            column_definition(column, pearl) == Some(if two { DefView::Secured(top, lower) } else { DefView::Flippable(top) })
        }),
{
    let base = column_base(pearl);
    let d: nat = if two { 2 } else { 1 };
    lemma_scan_over_unknown(column, base, t);
    let after_t = scan_prefix(column, base, t + 1);
    assert(after_t.trapdoor_1 == Some(below(base, t as int)));
    assert(after_t.trapdoor_2 is None);
    if two {
        assert(scan_prefix(column, base, t + 2).trapdoor_2 == Some(below(base, t + 1int)));
    }
    let first = scan_prefix(column, base, t + d);
    assert(first.last == ColumnBlock::Trapdoor && first.column_blocks == 0 && !first.done && !first.found_soul_sand);
    lemma_scan_over_bubbles(column, base, t + d, t + d + n, first);
    let end = (t + d + n + 1) as nat;
    assert(scan_prefix(column, base, end).done);
    assert(scan_prefix(column, base, end).found_soul_sand);
    assert(scan_prefix(column, base, end).column_blocks == n);
    lemma_scan_done_stays(column, base, end, column.len());
}

proof fn lemma_scan_needs(column: Seq<Option<ColumnBlock>>, base: BlockPos, k: nat)
    requires
        k <= column.len(),
    ensures
        (forall|j: int| 0 <= j < k ==> #[trigger] column[j] != Some(ColumnBlock::SoulSand))
            ==> !scan_prefix(column, base, k).found_soul_sand,
        (forall|j: int| 0 <= j < k ==> #[trigger] column[j] != Some(ColumnBlock::Trapdoor))
            ==> scan_prefix(column, base, k).trapdoor_1 is None,
    decreases k,
{
    if k > 0 {
        lemma_scan_needs(column, base, (k - 1) as nat);
    }
}

/// No chamber is seen in a column without soul sand, or without a trapdoor.
pub proof fn law_chamber_needs_trapdoor_and_soul_sand(column: Seq<Option<ColumnBlock>>, pearl: BlockPos)
    requires
        (forall|j: int| 0 <= j < column.len() ==> #[trigger] column[j] != Some(ColumnBlock::SoulSand))
        || (forall|j: int| 0 <= j < column.len() ==> #[trigger] column[j] != Some(ColumnBlock::Trapdoor)),
    ensures
        column_definition(column, pearl) is None,
{
    lemma_scan_needs(column, column_base(pearl), column.len());
}

} // verus!
