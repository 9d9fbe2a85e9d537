//! Who comes into and leaves the bot's visual range, and whether they were seen before.

use vstd::prelude::*;
use vstd::string::*;
use std::collections::{HashMap, HashSet};
use crate::text::{uuid_text, uuid_hyphenated, dec_signed, push_i32, strings_view};
use crate::stasis::model::{StasisConfig, entries_view};
use crate::stasis::chambers::spec_has_player_pearl;

verus! {

/// A player's name and uuid, as the tab list shows them.
#[derive(Debug, Clone)]
pub struct PlayerProfile {
    pub name: String,
    pub uuid: u128,
}

/// What to report of a player that came into view: the message, and whether it is an
/// alert (a stranger) rather than a plain notice.
#[derive(Debug, Clone)]
pub struct VisualRangeReport {
    pub message: String,
    pub alert: bool,
}

/// The players in view (by entity id) and every player uuid ever seen.
pub struct VisualRangeModule {
    pub visual_range_cache: HashMap<i32, PlayerProfile>,
    pub seen: HashSet<u128>,
}

/// The link to a player's profile page.
pub open spec fn profile_link(name: Seq<char>, uuid: u128) -> Seq<char> {
    "["@ + name + "](<https://namemc.com/profile/"@ + uuid_hyphenated(uuid) + ">)"@
}

/// The message for a player coming into view: with their profile where the tab list
/// has one, else with the entity id and uuid of the unknown player.
pub open spec fn entered_message(entity_id: i32, uuid: u128, profile: Option<(Seq<char>, u128)>, stranger: bool) -> Seq<char> {
    match profile {
        Some((name, u)) => "`🔷` "@ + profile_link(name, u) + " entered visual range"@
            + if stranger { " for the first time!"@ } else { "."@ },
        None => "An unknown player (id: "@ + dec_signed(entity_id as int) + ", uuid: ["@ + uuid_hyphenated(uuid)
            + "](<https://namemc.com/profile/"@ + uuid_hyphenated(uuid) + ">)) entered visual range"@
            + if stranger { " **for the first time**!"@ } else { "."@ },
    }
}

/// The message for a player leaving view.
pub open spec fn left_message(name: Seq<char>, uuid: u128) -> Seq<char> {
    "`🔶` "@ + profile_link(name, uuid) + " left visual range."@
}

/// The messages for the entities `ids` leaving, in order, with `cache` the players in
/// view before: one for each id that was a player in view at that point.
pub open spec fn left_messages(cache: Map<i32, PlayerProfile>, ids: Seq<i32>) -> Seq<Seq<char>>
    decreases ids.len(),
{
    if ids.len() == 0 {
        Seq::empty()
    } else {
        let rest = left_messages(cache, ids.drop_last());
        let now = cache.remove_keys(ids.drop_last().to_set());
        if now.contains_key(ids.last()) {
            rest.push(left_message(now[ids.last()].name@, now[ids.last()].uuid))
        } else {
            rest
        }
    }
}

fn append_profile_link(m: &mut String, name: &str, uuid: u128)
    ensures
        final(m)@ == old(m)@ + profile_link(name@, uuid),
{
    m.append("[");
    m.append(name);
    m.append("](<https://namemc.com/profile/");
    let u = uuid_text(uuid);
    m.append(u.as_str());
    m.append(">)");
}

impl VisualRangeModule {
    /// Nobody in view, nobody seen.
    pub fn new() -> (r: VisualRangeModule)
        ensures
            r.visual_range_cache@ == Map::<i32, PlayerProfile>::empty(),
            r.seen@ == Set::<u128>::empty(),
    {
        VisualRangeModule { visual_range_cache: HashMap::new(), seen: HashSet::new() }
    }

    /// Forgets who is in view (on login, disconnect and respawn).
    pub fn clear_cache(&mut self)
        ensures
            final(self).visual_range_cache@ == Map::<i32, PlayerProfile>::empty(),
            final(self).seen@ == old(self).seen@,
    {
        self.visual_range_cache.clear();
    }

    /// A player entity came into view. A uuid not seen before is remembered (the caller
    /// saves the seen uuids then). Its report is an alert where the player was never seen
    /// and has no pearl in any of the `stasis` chambers; the tab list `profile`, where
    /// there is one, is kept for the player's entity.
    pub fn on_player_added(
        &mut self,
        entity_id: i32,
        uuid: u128,
        profile: Option<PlayerProfile>,
        stasis: Option<&StasisConfig>,
    ) -> (r: VisualRangeReport)
        ensures
            final(self).seen@ == old(self).seen@.insert(uuid),
            final(self).visual_range_cache@ == match profile {
                Some(p) => old(self).visual_range_cache@.insert(entity_id, p),
                None => old(self).visual_range_cache@,
            },
            r.alert == (!old(self).seen@.contains(uuid) && match stasis {
                Some(c) => !spec_has_player_pearl(entries_view(c.chambers@), uuid),
                None => true,
            }),
            r.message@ == entered_message(entity_id, uuid, match profile {
                Some(p) => Some((p.name@, p.uuid)),
                None => None,
            }, r.alert),
    {
        let first_time = !self.seen.contains(&uuid);
        if first_time {
            self.seen.insert(uuid);
        }
        let mut stranger = first_time;
        if stranger {
            if let Some(c) = stasis {
                if c.has_player_pearl(uuid) {
                    stranger = false;
                }
            }
        }
        let message = match profile {
            Some(p) => {
                let mut m = String::from_str("`🔷` ");
                append_profile_link(&mut m, p.name.as_str(), p.uuid);
                m.append(" entered visual range");
                m.append(if stranger { " for the first time!" } else { "." });
                self.visual_range_cache.insert(entity_id, p);
                m
            },
            None => {
                let mut m = String::from_str("An unknown player (id: ");
                push_i32(&mut m, entity_id);
                m.append(", uuid: [");
                let u = uuid_text(uuid);
                m.append(u.as_str());
                m.append("](<https://namemc.com/profile/");
                m.append(u.as_str());
                m.append(">)) entered visual range");
                m.append(if stranger { " **for the first time**!" } else { "." });
                m
            },
        };
        VisualRangeReport { message, alert: stranger }
    }

    /// Entities left the world: for each one that was a player in view, in order, the
    /// message that they left; they are no longer in view.
    pub fn on_entities_removed(&mut self, entity_ids: &Vec<i32>) -> (r: Vec<String>)
        ensures
            final(self).seen@ == old(self).seen@,
            final(self).visual_range_cache@ == old(self).visual_range_cache@.remove_keys(entity_ids@.to_set()),
            strings_view(r@) == left_messages(old(self).visual_range_cache@, entity_ids@),
    {
        let mut out: Vec<String> = Vec::new();
        let mut i: usize = 0;
        while i < entity_ids.len()
            invariant
                i <= entity_ids@.len(),
                self.seen@ == old(self).seen@,
                self.visual_range_cache@ == old(self).visual_range_cache@.remove_keys(entity_ids@.subrange(0, i as int).to_set()),
                strings_view(out@) == left_messages(old(self).visual_range_cache@, entity_ids@.subrange(0, i as int)),
            decreases entity_ids@.len() - i,
        {
            let id = entity_ids[i];
            let ghost pre_out = out@;
            proof {
                assert(entity_ids@.subrange(0, i + 1).drop_last() =~= entity_ids@.subrange(0, i as int));
            }
            if let Some(p) = self.visual_range_cache.remove(&id) {
                let mut m = String::from_str("`🔶` ");
                append_profile_link(&mut m, p.name.as_str(), p.uuid);
                m.append(" left visual range.");
                out.push(m);
                proof {
                    assert(strings_view(out@) =~= strings_view(pre_out).push(m@));
                }
            }
            proof {
                let pre = entity_ids@.subrange(0, i as int);
                assert(entity_ids@.subrange(0, i + 1) =~= pre.push(id));
                assert(pre.push(id).to_set() =~= pre.to_set().insert(id)) by {
                    assert forall|x: i32| pre.push(id).to_set().contains(x) <==> pre.to_set().insert(id).contains(x) by {
                        if pre.push(id).to_set().contains(x) {
                            let k = choose|k: int| 0 <= k < pre.push(id).len() && pre.push(id)[k] == x;
                            if k < pre.len() {
                                assert(pre[k] == x);
                            }
                        }
                        if pre.to_set().contains(x) && x != id {
                            let k = choose|k: int| 0 <= k < pre.len() && pre[k] == x;
                            assert(pre.push(id)[k] == x);
                        }
                        if x == id {
                            assert(pre.push(id)[pre.len() as int] == id);
                        }
                    }
                }
                assert(self.visual_range_cache@ =~= old(self).visual_range_cache@.remove_keys(entity_ids@.subrange(0, i + 1).to_set()));
            }
            i = i + 1;
        }
        proof {
            assert(entity_ids@.subrange(0, entity_ids@.len() as int) =~= entity_ids@);
        }
        out
    }
}

/// Entities leaving that were not players in view leave no message; a player in view
/// who leaves gets exactly one message, with their name and profile.
pub proof fn law_only_players_in_view_are_reported(cache: Map<i32, PlayerProfile>, ids: Seq<i32>, id: i32)
    ensures
        (forall|k: int| 0 <= k < ids.len() ==> !cache.contains_key(#[trigger] ids[k]))
            ==> left_messages(cache, ids).len() == 0,
        left_messages(cache, seq![id]) == if cache.contains_key(id) {
            seq![left_message(cache[id].name@, cache[id].uuid)]
        } else {
            Seq::<Seq<char>>::empty()
        },
    decreases ids.len(),
{
    if ids.len() > 0 && (forall|k: int| 0 <= k < ids.len() ==> !cache.contains_key(#[trigger] ids[k])) {
        let init = ids.drop_last();
        assert forall|k: int| 0 <= k < init.len() implies !cache.contains_key(#[trigger] init[k]) by {
            assert(init[k] == ids[k]);
        }
        law_only_players_in_view_are_reported(cache, init, id);
        assert(!cache.contains_key(ids[ids.len() - 1]));
    }
    let one = seq![id];
    assert(one.drop_last() =~= Seq::<i32>::empty());
    assert(one.drop_last().to_set() =~= Set::<i32>::empty());
    assert(cache.remove_keys(Set::<i32>::empty()) =~= cache);
    assert(left_messages(cache, Seq::<i32>::empty()) == Seq::<Seq<char>>::empty());
    if cache.contains_key(id) {
        assert(Seq::<Seq<char>>::empty().push(left_message(cache[id].name@, cache[id].uuid))
            =~= seq![left_message(cache[id].name@, cache[id].uuid)]);
    }
}

} // verus!
