//! Adding lectern chambers one after the other: each time the player interacts where
//! they stand, the next page of the terminal becomes a chamber there.

use vstd::prelude::*;
use vstd::string::*;
use crate::blockpos::BlockPos;
use crate::text::{dec, push_dec, str_eq};
use crate::stasis::model::{
    StasisChamberEntry, StasisChamberDefinition, LecternRedcoderEndpoint, DefView, EntryView, EndpointView,
    entries_view, terminals_view,
};
use crate::stasis::chambers::{StasisModule, MassAdding};

verus! {

/// A mass adding's progress as values.
pub struct MassAddingView {
    pub terminal: Seq<char>,
    pub is_shay: bool,
    pub next_index: usize,
}

impl View for MassAdding {
    type V = MassAddingView;

    open spec fn view(&self) -> MassAddingView {
        MassAddingView { terminal: self.terminal_id@, is_shay: self.is_shay, next_index: self.next_index }
    }
}

/// What an interaction did to a mass adding.
#[derive(Debug, Copy, Clone, PartialEq, Eq, Structural)]
pub enum MassAddOutcome {
    /// The player is not mass adding.
    NotAdding,
    /// A chamber with this terminal index already existed; the index was skipped.
    SkippedExisting(usize),
    /// A chamber with this terminal index was added where the player stands.
    Added(usize),
}

/// Whether a chamber is a lectern chamber of this terminal and index.
pub open spec fn is_endpoint(d: DefView, terminal: Seq<char>, index: usize) -> bool {
    match d {
        DefView::RedcoderTrapdoor(_, e) => e.terminal == terminal && e.index == index,
        DefView::RedcoderShay(_, e) => e.terminal == terminal && e.index == index,
        _ => false,
    }
}

/// Whether some chamber is a lectern chamber of this terminal and index.
pub open spec fn endpoint_exists(chambers: Seq<EntryView>, terminal: Seq<char>, index: usize) -> bool {
    exists|i: int| 0 <= i < chambers.len() && #[trigger] is_endpoint(chambers[i].def, terminal, index)
}

/// The chamber a mass adding adds at `pos`: a shay chamber or a lectern trapdoor chamber.
pub open spec fn mass_added_chamber(m: MassAddingView, pos: BlockPos) -> EntryView {
    let e = EndpointView { terminal: m.terminal, index: m.next_index };
    EntryView {
        def: if m.is_shay { DefView::RedcoderShay(pos, e) } else { DefView::RedcoderTrapdoor(pos, e) },
        occupants: Seq::empty(),
    }
}

/// What a player is told when their mass adding ends.
pub open spec fn mass_adding_finished(next_index: usize) -> Seq<char> {
    "Mass adding finished! Last added index was "@ + dec((next_index - 1) as nat)
}

/// The text of `mass_adding_finished`.
pub fn mass_adding_finished_message(next_index: usize) -> (r: String)
    requires
        next_index > 0,
    ensures
        r@ == mass_adding_finished(next_index),
{
    let mut r = String::from_str("Mass adding finished! Last added index was ");
    push_dec(&mut r, (next_index - 1) as u64);
    r
}

impl StasisModule {
    /// A player who is mass adding interacted while standing in block `player_block_pos`:
    /// the next index of their terminal becomes a chamber there, unless a chamber with it
    /// exists; either way they move on to the following index.
    pub fn on_player_interacting(&mut self, player_uuid: u128, player_block_pos: BlockPos) -> (r: MassAddOutcome)
        requires
            old(self).mass_adding@.contains_key(player_uuid) ==> old(self).mass_adding@[player_uuid].next_index < usize::MAX,
        ensures
            terminals_view(final(self).config.lectern_redcoder_terminals@)
                == terminals_view(old(self).config.lectern_redcoder_terminals@),
            final(self).mass_adding@.dom() == old(self).mass_adding@.dom(),
            forall|q: u128| q != player_uuid && #[trigger] old(self).mass_adding@.contains_key(q)
                ==> final(self).mass_adding@[q] == old(self).mass_adding@[q],
            if !old(self).mass_adding@.contains_key(player_uuid) {
                r == MassAddOutcome::NotAdding && final(self).config.chambers@ == old(self).config.chambers@
            } else {
                let m = old(self).mass_adding@[player_uuid]@;
                let cs = entries_view(old(self).config.chambers@);
                &&& final(self).mass_adding@[player_uuid]@ == MassAddingView { next_index: (m.next_index + 1) as usize, ..m }
                &&& if endpoint_exists(cs, m.terminal, m.next_index) {
                    r == MassAddOutcome::SkippedExisting(m.next_index) && final(self).config.chambers@ == old(self).config.chambers@
                } else {
                    r == MassAddOutcome::Added(m.next_index)
                        && entries_view(final(self).config.chambers@) == cs.push(mass_added_chamber(m, player_block_pos))
                }
            },
    {
        let (terminal, is_shay, index) = match self.mass_adding.get(&player_uuid) {
            None => return MassAddOutcome::NotAdding,
            Some(m) => (String::from_str(m.terminal_id.as_str()), m.is_shay, m.next_index),
        };
        let ghost cs = entries_view(self.config.chambers@);
        let mut exists = false;
        let mut i: usize = 0;
        while i < self.config.chambers.len()
            invariant_except_break
                i <= self.config.chambers@.len(),
                cs == entries_view(self.config.chambers@),
                !exists,
                forall|k: int| 0 <= k < i ==> !#[trigger] is_endpoint(cs[k].def, terminal@, index),
            ensures
                cs == entries_view(self.config.chambers@),
                exists == endpoint_exists(cs, terminal@, index),
            decreases self.config.chambers@.len() - i,
        {
            assert(cs[i as int].def == self.config.chambers@[i as int].definition@);
            match &self.config.chambers[i].definition {
                StasisChamberDefinition::RedcoderShay { endpoint, .. }
                | StasisChamberDefinition::RedcoderTrapdoor { endpoint, .. } => {
                    if str_eq(endpoint.lectern_redcoder_terminal_id.as_str(), terminal.as_str())
                        && endpoint.chamber_index == index {
                        exists = true;
                        assert(is_endpoint(cs[i as int].def, terminal@, index));
                        break;
                    }
                },
                _ => {},
            }
            i = i + 1;
        }
        let next = MassAdding { terminal_id: String::from_str(terminal.as_str()), is_shay, next_index: index + 1 };
        self.mass_adding.insert(player_uuid, next);
        proof {
            assert(self.mass_adding@.dom() =~= old(self).mass_adding@.dom());
        }
        if exists {
            return MassAddOutcome::SkippedExisting(index);
        }
        let endpoint = LecternRedcoderEndpoint { lectern_redcoder_terminal_id: terminal, chamber_index: index };
        let definition = if is_shay {
            StasisChamberDefinition::RedcoderShay { base_pos: player_block_pos, endpoint }
        } else {
            StasisChamberDefinition::RedcoderTrapdoor { trapdoor_pos: player_block_pos, endpoint }
        };
        let entry = StasisChamberEntry { definition, occupants: Vec::new() };
        let ghost e = entry@;
        self.config.chambers.push(entry);
        proof {
            assert(entries_view(self.config.chambers@) =~= cs.push(e));
        }
        MassAddOutcome::Added(index)
    }

    /// A player swung their arm: their mass adding ends. Returns its progress, if they
    /// were mass adding.
    pub fn on_player_swing(&mut self, player_uuid: u128) -> (r: Option<MassAdding>)
        ensures
            final(self).mass_adding@ == old(self).mass_adding@.remove(player_uuid),
            final(self).config == old(self).config,
            match r {
                Some(m) => old(self).mass_adding@.contains_key(player_uuid) && m == old(self).mass_adding@[player_uuid],
                None => !old(self).mass_adding@.contains_key(player_uuid),
            },
    {
        self.mass_adding.remove(&player_uuid)
    }

    /// Where to walk back to after a pull: the last idle position, else where the bot is.
    pub fn return_pos(&self, current: Option<BlockPos>) -> (r: Option<BlockPos>)
        ensures
            r == if self.last_idle_pos is Some { self.last_idle_pos } else { current },
    {
        match self.last_idle_pos {
            Some(p) => Some(p),
            None => current,
        }
    }

    /// Forgets the idle position.
    pub fn clear_idle_pos(&mut self)
        ensures
            final(self).last_idle_pos is None,
            final(self).config == old(self).config,
    {
        self.last_idle_pos = None;
    }

    /// Remembers where the bot idles now.
    pub fn update_idle_pos(&mut self, current: Option<BlockPos>)
        ensures
            final(self).last_idle_pos == current,
            final(self).config == old(self).config,
    {
        self.last_idle_pos = current;
    }
}

/// A mass-added chamber stands where the player stood, has no occupants yet, and is the
/// terminal's page being added: a shay chamber when adding shay chambers, else a lectern
/// trapdoor chamber. Once added, that page of the terminal is taken.
pub proof fn law_mass_add_places_page_at_player(m: MassAddingView, pos: BlockPos, chambers: Seq<EntryView>)
    ensures
        ({
            let c = mass_added_chamber(m, pos);
            &&& c.occupants.len() == 0
            &&& if m.is_shay {
                c.def matches DefView::RedcoderShay(p, e) && p == pos && e.terminal == m.terminal && e.index == m.next_index
            } else {
                c.def matches DefView::RedcoderTrapdoor(p, e) && p == pos && e.terminal == m.terminal && e.index == m.next_index
            }
            &&& endpoint_exists(chambers.push(c), m.terminal, m.next_index)
        }),
{
    let c = mass_added_chamber(m, pos);
    assert(chambers.push(c)[chambers.len() as int] == c);
    assert(is_endpoint(chambers.push(c)[chambers.len() as int].def, m.terminal, m.next_index));
}

} // verus!
