//! Which entities the bot attacks on its own: those likely to hurt someone.

use vstd::prelude::*;

verus! {

/// The kinds of entity the decision tells apart.
#[derive(Debug, Copy, Clone, PartialEq, Eq, Structural)]
pub enum MobKind {
    ShulkerBullet,
    Fireball,
    DragonFireball,
    Bee,
    Wolf,
    Axolotl,
    Goat,
    IronGolem,
    Llama,
    TraderLlama,
    PolarBear,
    Panda,
    Dolphin,
    Enderman,
    Piglin,
    ZombifiedPiglin,
    Other,
}

/// What the decision reads of an entity.
#[derive(Debug, Copy, Clone, PartialEq, Eq, Structural)]
pub struct EntityTraits {
    pub kind: MobKind,
    /// It has a custom name that is not empty.
    pub has_custom_name: bool,
    pub dead: bool,
    /// It is a monster.
    pub monster: bool,
    /// Its aggressive flag.
    pub aggressive: bool,
    pub tamed: bool,
    /// An enderman's "creepy" flag.
    pub creepy: bool,
    /// An enderman's "stared at" flag.
    pub stared_at: bool,
    /// A piglin charging its crossbow.
    pub charging_crossbow: bool,
}

/// Projectiles that can be hit back.
pub open spec fn is_repellable(k: MobKind) -> bool {
    k == MobKind::ShulkerBullet || k == MobKind::Fireball || k == MobKind::DragonFireball
}

/// Animals that can turn on someone.
pub open spec fn can_turn_aggressive(k: MobKind) -> bool {
    ||| k == MobKind::Bee
    ||| k == MobKind::Wolf
    ||| k == MobKind::Axolotl
    ||| k == MobKind::Goat
    ||| k == MobKind::IronGolem
    ||| k == MobKind::Llama
    ||| k == MobKind::TraderLlama
    ||| k == MobKind::PolarBear
    ||| k == MobKind::Panda
    ||| k == MobKind::Dolphin
}

/// Whether an entity is likely to hurt someone: never one with a custom name or a dead
/// one; always a repellable projectile; an animal that turned aggressive and is not
/// tamed; and any monster but a calm enderman, a piglin neither charging its crossbow
/// nor aggressive, or a zombified piglin that is not aggressive.
pub open spec fn likely_to_hurt(t: EntityTraits) -> bool {
    if t.has_custom_name || t.dead {
        false
    } else if is_repellable(t.kind) {
        true
    } else if can_turn_aggressive(t.kind) && t.aggressive && !t.tamed {
        true
    } else if !t.monster {
        false
    } else if t.kind == MobKind::Enderman && !t.creepy && !t.stared_at {
        false
    } else if t.kind == MobKind::Piglin && !t.charging_crossbow && !t.aggressive {
        false
    } else if t.kind == MobKind::ZombifiedPiglin && !t.aggressive {
        false
    } else {
        true
    }
}

/// Whether the entity is worth attacking (see `likely_to_hurt`).
pub fn is_entity_likely_to_hurt_someone(t: &EntityTraits) -> (r: bool)
    ensures
        r == likely_to_hurt(*t),
{
    if t.has_custom_name {
        return false;
    }
    if t.dead {
        return false;
    }
    let k = t.kind;
    if k == MobKind::ShulkerBullet || k == MobKind::Fireball || k == MobKind::DragonFireball {
        return true;
    }
    let turns = match k {
        MobKind::Bee | MobKind::Wolf | MobKind::Axolotl | MobKind::Goat | MobKind::IronGolem
        | MobKind::Llama | MobKind::TraderLlama | MobKind::PolarBear | MobKind::Panda
        | MobKind::Dolphin => true,
        _ => false,
    };
    if turns && t.aggressive && !t.tamed {
        return true;
    }
    if !t.monster {
        return false;
    }
    if k == MobKind::Enderman && !t.creepy && !t.stared_at {
        return false;
    }
    if k == MobKind::Piglin && !t.charging_crossbow && !t.aggressive {
        return false;
    }
    if k == MobKind::ZombifiedPiglin && !t.aggressive {
        return false;
    }
    true
}

/// An entity with a custom name, or a dead one, is never attacked.
pub proof fn law_named_or_dead_spared(t: EntityTraits)
    requires
        t.has_custom_name || t.dead,
    ensures
        !likely_to_hurt(t),
{
}

/// An aggressive monster, neither named nor dead, is attacked whatever its kind (angry
/// piglins and zombified piglins included), but for an enderman, whose anger shows in
/// its own flags.
pub proof fn law_aggressive_monster_attacked(t: EntityTraits)
    requires
        t.monster,
        t.aggressive,
        !t.has_custom_name,
        !t.dead,
        t.kind != MobKind::Enderman,
    ensures
        likely_to_hurt(t),
{
}

/// A monster, neither named nor dead, is attacked unless it is in a calm stance: an
/// enderman neither creepy nor stared at, a piglin neither charging its crossbow nor
/// aggressive, or a zombified piglin that is not aggressive. Those three are spared.
pub proof fn law_monster_attacked_unless_calm(t: EntityTraits)
    requires
        t.monster,
        !t.has_custom_name,
        !t.dead,
    ensures
        likely_to_hurt(t) <== !(
            (t.kind == MobKind::Enderman && !t.creepy && !t.stared_at)
            || (t.kind == MobKind::Piglin && !t.charging_crossbow && !t.aggressive)
            || (t.kind == MobKind::ZombifiedPiglin && !t.aggressive)
        ),
        (t.kind == MobKind::Enderman && !t.creepy && !t.stared_at) ==> !likely_to_hurt(t),
        (t.kind == MobKind::Piglin && !t.charging_crossbow && !t.aggressive) ==> !likely_to_hurt(t),
        (t.kind == MobKind::ZombifiedPiglin && !t.aggressive) ==> !likely_to_hurt(t),
{
}

/// Shulker bullets and (dragon) fireballs, neither named nor dead, are always hit back.
pub proof fn law_projectiles_hit_back(t: EntityTraits)
    requires
        t.kind == MobKind::ShulkerBullet || t.kind == MobKind::Fireball || t.kind == MobKind::DragonFireball,
        !t.has_custom_name,
        !t.dead,
    ensures
        likely_to_hurt(t),
{
}

/// An entity that is not a monster is attacked only when it is a projectile that can be
/// hit back, or an untamed aggressive bee, wolf, axolotl, goat, iron golem, llama, trader
/// llama, polar bear, panda or dolphin.
pub proof fn law_non_monster_attacked_only_when_angry(t: EntityTraits)
    requires
        !t.monster,
        !t.has_custom_name,
        !t.dead,
    ensures
        likely_to_hurt(t) <==> (
            t.kind == MobKind::ShulkerBullet || t.kind == MobKind::Fireball || t.kind == MobKind::DragonFireball
            || (t.aggressive && !t.tamed && (t.kind == MobKind::Bee || t.kind == MobKind::Wolf
                || t.kind == MobKind::Axolotl || t.kind == MobKind::Goat || t.kind == MobKind::IronGolem
                || t.kind == MobKind::Llama || t.kind == MobKind::TraderLlama || t.kind == MobKind::PolarBear
                || t.kind == MobKind::Panda || t.kind == MobKind::Dolphin))
        ),
{
}

} // verus!
