//! The bot's soundness: whether it is in game, in limbo or disconnected, what the
//! webhook is told about it, and how damage to the bot is described.

use vstd::prelude::*;
use vstd::string::*;
use crate::text::{dec, dec_signed, push_dec, push_i32, str_eq, contains_text, uuid_hyphenated, uuid_text};
use crate::chat::{spec_piece_after_first, piece_after_first};

verus! {

/// Where the bot is.
#[derive(Debug)]
pub enum InGameStatus {
    Disconnected,
    InLimbo { title: Option<String>, subtitle: Option<String> },
    /// In game since this time (milliseconds on the module's clock).
    InGame { since_millis: u64 },
}

/// A status with texts as characters.
pub enum StatusView {
    Disconnected,
    InLimbo(Option<Seq<char>>, Option<Seq<char>>),
    InGame(u64),
}

/// An optional text as characters.
pub open spec fn opt_text(o: Option<String>) -> Option<Seq<char>> {
    match o {
        Some(s) => Some(s@),
        None => None,
    }
}

impl View for InGameStatus {
    type V = StatusView;

    open spec fn view(&self) -> StatusView {
        match self {
            InGameStatus::Disconnected => StatusView::Disconnected,
            InGameStatus::InLimbo { title, subtitle } => StatusView::InLimbo(opt_text(*title), opt_text(*subtitle)),
            InGameStatus::InGame { since_millis } => StatusView::InGame(*since_millis),
        }
    }
}

/// What the webhook is told when the status becomes `s`.
pub open spec fn status_message(s: StatusView) -> Seq<char> {
    match s {
        StatusView::Disconnected => "`🔴` Disconnected!"@,
        StatusView::InLimbo(Some(title), _) => "`🟣` In Limbo: "@ + title,
        StatusView::InLimbo(None, Some(subtitle)) => "`🟣` In Limbo: "@ + subtitle,
        StatusView::InLimbo(None, None) => "`🟣` In Limbo!"@,
        StatusView::InGame(_) => "`🟢` In Game!"@,
    }
}

/// The webhook message when the bot initializes.
pub open spec fn init_message() -> Seq<char> { "`👋` Initializing..."@ }
/// The webhook message when the bot logged in.
pub open spec fn login_message() -> Seq<char> { "`🔵` Logged in!"@ }
/// The webhook message when the bot spawned.
pub open spec fn spawn_message() -> Seq<char> { "`🎮`️ Spawned!"@ }
/// The webhook message when tasks are dropped after the bot got back.
pub open spec fn interrupt_message() -> Seq<char> { "`✋` Interrupted. Cleaning all tasks..."@ }

/// A moment in the bot's life that the webhook is told about.
#[derive(Debug, Copy, Clone, PartialEq, Eq, Structural)]
pub enum LifecycleEvent {
    Init,
    Login,
    Spawn,
    Interrupted,
}

/// The webhook message for a moment in the bot's life.
pub open spec fn spec_lifecycle_message(e: LifecycleEvent) -> Seq<char> {
    match e {
        LifecycleEvent::Init => init_message(),
        LifecycleEvent::Login => login_message(),
        LifecycleEvent::Spawn => spawn_message(),
        LifecycleEvent::Interrupted => interrupt_message(),
    }
}

/// The webhook message for a moment in the bot's life.
pub fn lifecycle_message(e: LifecycleEvent) -> (r: String)
    ensures
        r@ == spec_lifecycle_message(e),
{
    match e {
        LifecycleEvent::Init => String::from_str("`👋` Initializing..."),
        LifecycleEvent::Login => String::from_str("`🔵` Logged in!"),
        LifecycleEvent::Spawn => String::from_str("`🎮`️ Spawned!"),
        LifecycleEvent::Interrupted => String::from_str("`✋` Interrupted. Cleaning all tasks..."),
    }
}

/// A text that may be empty, as an option.
pub open spec fn non_empty(t: Seq<char>) -> Option<Seq<char>> {
    if t.len() == 0 { None } else { Some(t) }
}

fn opt_copy(o: &Option<String>) -> (r: Option<String>)
    ensures
        opt_text(r) == opt_text(*o),
{
    match o {
        Some(s) => Some(String::from_str(s.as_str())),
        None => None,
    }
}

fn opt_same(a: &Option<String>, b: &Option<String>) -> (r: bool)
    ensures
        r == (opt_text(*a) == opt_text(*b)),
{
    match (a, b) {
        (Some(x), Some(y)) => str_eq(x.as_str(), y.as_str()),
        (None, None) => true,
        _ => false,
    }
}

impl InGameStatus {
    /// Whether two statuses are equal.
    pub fn same_as(&self, other: &InGameStatus) -> (r: bool)
        ensures
            r == (self@ == other@),
    {
        match (self, other) {
            (InGameStatus::Disconnected, InGameStatus::Disconnected) => true,
            (InGameStatus::InLimbo { title: t1, subtitle: s1 }, InGameStatus::InLimbo { title: t2, subtitle: s2 }) =>
                opt_same(t1, t2) && opt_same(s1, s2),
            (InGameStatus::InGame { since_millis: a }, InGameStatus::InGame { since_millis: b }) => *a == *b,
            _ => false,
        }
    }

    /// The webhook message for becoming this status.
    pub fn message(&self) -> (r: String)
        ensures
            r@ == status_message(self@),
    {
        match self {
            InGameStatus::Disconnected => String::from_str("`🔴` Disconnected!"),
            InGameStatus::InLimbo { title: Some(title), .. } => {
                let mut r = String::from_str("`🟣` In Limbo: ");
                r.append(title.as_str());
                r
            },
            InGameStatus::InLimbo { title: None, subtitle: Some(subtitle) } => {
                let mut r = String::from_str("`🟣` In Limbo: ");
                r.append(subtitle.as_str());
                r
            },
            InGameStatus::InLimbo { title: None, subtitle: None } => String::from_str("`🟣` In Limbo!"),
            InGameStatus::InGame { .. } => String::from_str("`🟢` In Game!"),
        }
    }
}

/// Watches whether the bot is in game.
#[derive(Debug)]
pub struct SoundnessModule {
    pub status: InGameStatus,
    /// When the bot was last damaged (milliseconds on the module's clock), and how.
    pub last_damage_event: Option<(u64, String)>,
    /// Drop all tasks at the next tick (the bot got back after being away).
    pub interrupt_next_tick: bool,
}

/// The messages as characters.
pub open spec fn messages_of(v: Seq<String>) -> Seq<Seq<char>> {
    v.map_values(|s: String| s@)
}

impl SoundnessModule {
    /// Disconnected, with nothing pending.
    pub fn new() -> (r: SoundnessModule)
        ensures
            r.status@ == StatusView::Disconnected,
            r.last_damage_event is None,
            !r.interrupt_next_tick,
    {
        SoundnessModule { status: InGameStatus::Disconnected, last_damage_event: None, interrupt_next_tick: false }
    }

    /// Moves to `new_status`; where it differs from the current one, the webhook is told
    /// (the message is appended to `messages`).
    pub fn update_status(&mut self, new_status: InGameStatus, messages: &mut Vec<String>)
        ensures
            final(self).status@ == new_status@,
            final(self).interrupt_next_tick == old(self).interrupt_next_tick,
            messages_of(final(messages)@) == if old(self).status@ == new_status@ {
                messages_of(old(messages)@)
            } else {
                messages_of(old(messages)@).push(status_message(new_status@))
            },
    {
        if !self.status.same_as(&new_status) {
            let m = new_status.message();
            let ghost before = messages_of(messages@);
            messages.push(m);
            assert(messages_of(messages@) =~= before.push(status_message(new_status@)));
        }
        self.status = new_status;
    }

    /// The bot was disconnected (`reason`: the kick message, if any): the webhook is told
    /// the kick and the new status; where the bot was disconnected already, tasks are
    /// dropped at the next tick.
    pub fn on_disconnect(&mut self, reason: Option<&str>) -> (r: Vec<String>)
        ensures
            final(self).status@ == StatusView::Disconnected,
            final(self).interrupt_next_tick == (old(self).interrupt_next_tick || old(self).status@ is Disconnected),
            messages_of(r@) == (match reason {
                Some(k) => seq!["`👞` Kick: "@ + k@],
                None => Seq::<Seq<char>>::empty(),
            }) + (if old(self).status@ is Disconnected { Seq::<Seq<char>>::empty() } else { seq![status_message(StatusView::Disconnected)] }),
    {
        let mut r: Vec<String> = Vec::new();
        match reason {
            Some(k) => {
                let mut m = String::from_str("`👞` Kick: ");
                m.append(k);
                r.push(m);
            },
            None => {},
        }
        let ghost first = messages_of(r@);
        if matches!(self.status, InGameStatus::Disconnected) {
            self.interrupt_next_tick = true;
        }
        self.update_status(InGameStatus::Disconnected, &mut r);
        proof {
            assert(messages_of(r@) =~= (match reason {
                Some(k) => seq!["`👞` Kick: "@ + k@],
                None => Seq::<Seq<char>>::empty(),
            }) + (if old(self).status@ is Disconnected { Seq::<Seq<char>>::empty() } else { seq![status_message(StatusView::Disconnected)] }));
        }
        r
    }

    /// The server placed the bot in the world (a join or a respawn) at `now_millis`, in
    /// spectator mode or not. As a spectator the bot is in limbo (where it was
    /// disconnected, tasks are dropped at the next tick); else it is in game (on a
    /// respawn only where it was not in game already).
    pub fn on_placed(&mut self, spectator: bool, respawn: bool, now_millis: u64) -> (r: Vec<String>)
        ensures
            final(self).interrupt_next_tick == (old(self).interrupt_next_tick || (spectator && old(self).status@ is Disconnected)),
            ({
                let new_status = if spectator {
                    Some(StatusView::InLimbo(None, None))
                } else if respawn && old(self).status@ is InGame {
                    None
                } else {
                    Some(StatusView::InGame(now_millis))
                };
                match new_status {
                    None => final(self).status@ == old(self).status@ && r@.len() == 0,
                    Some(s) => final(self).status@ == s && messages_of(r@) ==
                        if old(self).status@ == s { Seq::<Seq<char>>::empty() } else { seq![status_message(s)] },
                }
            }),
    {
        let mut r: Vec<String> = Vec::new();
        if spectator {
            if matches!(self.status, InGameStatus::Disconnected) {
                self.interrupt_next_tick = true;
            }
            self.update_status(InGameStatus::InLimbo { title: None, subtitle: None }, &mut r);
        } else if !(respawn && matches!(self.status, InGameStatus::InGame { .. })) {
            self.update_status(InGameStatus::InGame { since_millis: now_millis }, &mut r);
        }
        proof {
            assert(messages_of(Seq::<String>::empty()) =~= Seq::<Seq<char>>::empty());
        }
        r
    }

    /// A title was shown: in limbo, it becomes the limbo title (an empty one none).
    pub fn on_title(&mut self, text: &str) -> (r: Vec<String>)
        ensures
            final(self).interrupt_next_tick == old(self).interrupt_next_tick,
            match old(self).status@ {
                StatusView::InLimbo(_, subtitle) => {
                    let s = StatusView::InLimbo(non_empty(text@), subtitle);
                    final(self).status@ == s && messages_of(r@) ==
                        if old(self).status@ == s { Seq::<Seq<char>>::empty() } else { seq![status_message(s)] }
                },
                _ => final(self).status@ == old(self).status@ && r@.len() == 0,
            },
    {
        let mut r: Vec<String> = Vec::new();
        let subtitle = match &self.status {
            InGameStatus::InLimbo { subtitle, .. } => Some(opt_copy(subtitle)),
            _ => None,
        };
        if let Some(subtitle) = subtitle {
            let title = if text.unicode_len() == 0 { None } else { Some(String::from_str(text)) };
            self.update_status(InGameStatus::InLimbo { title, subtitle }, &mut r);
        }
        proof {
            assert(messages_of(Seq::<String>::empty()) =~= Seq::<Seq<char>>::empty());
        }
        r
    }

    /// A subtitle was shown: in limbo, it becomes the limbo subtitle (an empty one none).
    pub fn on_subtitle(&mut self, text: &str) -> (r: Vec<String>)
        ensures
            final(self).interrupt_next_tick == old(self).interrupt_next_tick,
            match old(self).status@ {
                StatusView::InLimbo(title, _) => {
                    let s = StatusView::InLimbo(title, non_empty(text@));
                    final(self).status@ == s && messages_of(r@) ==
                        if old(self).status@ == s { Seq::<Seq<char>>::empty() } else { seq![status_message(s)] }
                },
                _ => final(self).status@ == old(self).status@ && r@.len() == 0,
            },
    {
        let mut r: Vec<String> = Vec::new();
        let title = match &self.status {
            InGameStatus::InLimbo { title, .. } => Some(opt_copy(title)),
            _ => None,
        };
        if let Some(title) = title {
            let subtitle = if text.unicode_len() == 0 { None } else { Some(String::from_str(text)) };
            self.update_status(InGameStatus::InLimbo { title, subtitle }, &mut r);
        }
        proof {
            assert(messages_of(Seq::<String>::empty()) =~= Seq::<Seq<char>>::empty());
        }
        r
    }

    /// A tick: returns whether tasks are to be dropped now (the flag is cleared).
    pub fn on_tick(&mut self) -> (r: bool)
        ensures
            r == old(self).interrupt_next_tick,
            !final(self).interrupt_next_tick,
            final(self).status@ == old(self).status@,
    {
        let r = self.interrupt_next_tick;
        self.interrupt_next_tick = false;
        r
    }

    /// Whether the bot is in game.
    pub fn is_ingame(&self) -> (r: bool)
        ensures
            r == (self.status@ is InGame),
    {
        matches!(self.status, InGameStatus::InGame { .. })
    }

    /// Whether the bot has been in game for at least `min_millis` at `now_millis`.
    pub fn is_ingame_for(&self, min_millis: u64, now_millis: u64) -> (r: bool)
        ensures
            r == match self.status@ {
                StatusView::InGame(since) => (if now_millis >= since { now_millis - since } else { 0 }) >= min_millis,
                _ => false,
            },
    {
        match self.status {
            InGameStatus::InGame { since_millis } => {
                let elapsed = if now_millis >= since_millis { now_millis - since_millis } else { 0 };
                elapsed >= min_millis
            },
            _ => false,
        }
    }

    /// Remembers a damage message at `now_nanos` (nanoseconds on the caller's clock).
    pub fn record_damage(&mut self, now_nanos: u64, message: String)
        ensures
            final(self).last_damage_event matches Some((t, m)) && t == now_nanos && m@ == message@,
            final(self).status@ == old(self).status@,
    {
        self.last_damage_event = Some((now_nanos, message));
    }
}

/// The damage types a server numbers in its registry, in order (used where the
/// registry is not read).
pub open spec fn damage_types() -> Seq<Seq<char>> {
    seq!["arrow"@, "bad_respawn_point"@, "cactus"@, "campfire"@, "cramming"@, "dragon_breath"@, "drown"@, "dry_out"@, "ender_pearl"@, "explosion"@, "fall"@, "falling_anvil"@, "falling_block"@, "falling_stalactite"@, "fireball"@, "fireworks"@, "fly_into_wall"@, "freeze"@, "generic"@, "generic_kill"@, "hot_floor"@, "in_fire"@, "in_wall"@, "indirect_magic"@, "lava"@, "lightning_bolt"@, "mace_smash"@, "magic"@, "mob_attack"@, "mob_attack_no_aggro"@, "mob_projectile"@, "on_fire"@, "out_of_world"@, "outside_border"@, "player_attack"@, "player_explosion"@, "sonic_boom"@, "spit"@, "stalagmite"@, "starve"@, "sting"@, "sweet_berry_bush"@, "thorns"@, "thrown"@, "trident"@, "unattributed_fireball"@, "wind_charge"@, "wither"@, "wither_skull"@]
}

/// The damage type with this number in the built-in list.
pub fn hardcoded_damage_type(id: u32) -> (r: Option<String>)
    ensures
        match r {
            Some(t) => id < damage_types().len() && t@ == damage_types()[id as int],
            None => id >= damage_types().len(),
        },
{
    let mut v: Vec<&str> = Vec::new();
    v.push("arrow");
    v.push("bad_respawn_point");
    v.push("cactus");
    v.push("campfire");
    v.push("cramming");
    v.push("dragon_breath");
    v.push("drown");
    v.push("dry_out");
    v.push("ender_pearl");
    v.push("explosion");
    v.push("fall");
    v.push("falling_anvil");
    v.push("falling_block");
    v.push("falling_stalactite");
    v.push("fireball");
    v.push("fireworks");
    v.push("fly_into_wall");
    v.push("freeze");
    v.push("generic");
    v.push("generic_kill");
    v.push("hot_floor");
    v.push("in_fire");
    v.push("in_wall");
    v.push("indirect_magic");
    v.push("lava");
    v.push("lightning_bolt");
    v.push("mace_smash");
    v.push("magic");
    v.push("mob_attack");
    v.push("mob_attack_no_aggro");
    v.push("mob_projectile");
    v.push("on_fire");
    v.push("out_of_world");
    v.push("outside_border");
    v.push("player_attack");
    v.push("player_explosion");
    v.push("sonic_boom");
    v.push("spit");
    v.push("stalagmite");
    v.push("starve");
    v.push("sting");
    v.push("sweet_berry_bush");
    v.push("thorns");
    v.push("thrown");
    v.push("trident");
    v.push("unattributed_fireball");
    v.push("wind_charge");
    v.push("wither");
    v.push("wither_skull");
    assert(v@.map_values(|s: &str| s@) =~= damage_types());
    if (id as usize) < v.len() {
        assert(v@.map_values(|s: &str| s@)[id as int] == v@[id as int]@);
        Some(String::from_str(v[id as usize]))
    } else {
        None
    }
}

/// The name of a damage type (namespace and path): its path in the `minecraft`
/// namespace, else `namespace:path`; an unknown type by its number.
pub open spec fn spec_attack_type(id: u32, location: Option<(Seq<char>, Seq<char>)>) -> Seq<char> {
    match location {
        Some((namespace, path)) => if namespace == "minecraft"@ { path } else { namespace + ":"@ + path },
        None => "TypeId "@ + dec(id as nat),
    }
}

/// The name of damage type number `id`, found as `location` (namespace and path).
pub fn attack_type_name(id: u32, location: Option<(&str, &str)>) -> (r: String)
    ensures
        r@ == spec_attack_type(id, match location {
            Some((n, p)) => Some((n@, p@)),
            None => None,
        }),
{
    match location {
        Some((namespace, path)) => {
            if str_eq(namespace, "minecraft") {
                String::from_str(path)
            } else {
                let mut r = String::from_str(namespace);
                r.append(":");
                r.append(path);
                r
            }
        },
        None => {
            let mut r = String::from_str("TypeId ");
            push_dec(&mut r, id as u64);
            r
        },
    }
}

/// How damage to the bot is described: the type, who caused it and what directly
/// dealt it (not named again where it is the cause; given as entity id and description).
pub open spec fn spec_damage_message(
    attack_type: Seq<char>,
    cause: Option<(u32, Seq<char>)>,
    direct: Option<(u32, Seq<char>)>,
) -> Seq<char> {
    let same = match (cause, direct) {
        (Some(c), Some(d)) => c.0 == d.0,
        (None, None) => true,
        _ => false,
    };
    let direct = if same { None } else { direct };
    match (cause, direct) {
        (Some(c), Some(d)) => "Received "@ + attack_type + " damage by "@ + c.1 + " using "@ + d.1,
        (Some(c), None) => "Received "@ + attack_type + " damage by "@ + c.1,
        _ => "Received "@ + attack_type + " damage"@,
    }
}

/// The description of damage to the bot.
pub fn damage_message(attack_type: &str, cause: Option<(u32, &str)>, direct: Option<(u32, &str)>) -> (r: String)
    ensures
        r@ == spec_damage_message(
            attack_type@,
            match cause { Some((i, d)) => Some((i, d@)), None => None },
            match direct { Some((i, d)) => Some((i, d@)), None => None },
        ),
{
    let same = match (cause, direct) {
        (Some(c), Some(d)) => c.0 == d.0,
        (None, None) => true,
        _ => false,
    };
    let direct = if same { None } else { direct };
    let mut r = String::from_str("Received ");
    r.append(attack_type);
    match (cause, direct) {
        (Some(c), Some(d)) => {
            r.append(" damage by ");
            r.append(c.1);
            r.append(" using ");
            r.append(d.1);
        },
        (Some(c), None) => {
            r.append(" damage by ");
            r.append(c.1);
        },
        _ => {
            r.append(" damage");
        },
    }
    r
}

/// What is known of an entity: its kind's id (such as `minecraft:zombie`), the profile
/// of a player (name and uuid) and its custom name.
#[derive(Debug, Clone)]
pub struct EntityInfo {
    pub kind_id: String,
    pub profile: Option<(String, u128)>,
    pub custom_name: Option<String>,
}

/// How an entity is named in messages: a player by name, uuid and id; a named entity by
/// its name, kind and id; any other by kind and id (the kind is the part of its id after
/// the first `:`); an unknown one as such.
pub open spec fn spec_describe_entity(
    id: i32,
    info: Option<(Seq<char>, Option<(Seq<char>, u128)>, Option<Seq<char>>)>,
) -> Seq<char> {
    match info {
        None => "<Unknown entity "@ + dec_signed(id as int) + ">"@,
        Some((kind_id, profile, custom_name)) => {
            let kind = spec_piece_after_first(kind_id, ":"@);
            match profile {
                Some((name, uuid)) => name + " (uuid: "@ + uuid_hyphenated(uuid) + ", id: "@ + dec_signed(id as int) + ")"@,
                None => match custom_name {
                    Some(c) => c + " (type: "@ + kind + ", id: "@ + dec_signed(id as int) + ")"@,
                    None => kind + " ("@ + dec_signed(id as int) + ")"@,
                },
            }
        },
    }
}

/// The entity info as values.
pub open spec fn entity_info_view(info: Option<EntityInfo>) -> Option<(Seq<char>, Option<(Seq<char>, u128)>, Option<Seq<char>>)> {
    match info {
        Some(i) => Some((
            i.kind_id@,
            match i.profile { Some((n, u)) => Some((n@, u)), None => None },
            match i.custom_name { Some(c) => Some(c@), None => None },
        )),
        None => None,
    }
}

/// Names an entity for messages (see `spec_describe_entity`). The kind's id must hold a
/// `:`.
pub fn describe_entity(id: i32, info: &Option<EntityInfo>) -> (r: String)
    requires
        info matches Some(i) ==> contains_text(i.kind_id@, ":"@),
    ensures
        r@ == spec_describe_entity(id, entity_info_view(*info)),
{
    match info {
        None => {
            let mut r = String::from_str("<Unknown entity ");
            push_i32(&mut r, id);
            r.append(">");
            r
        },
        Some(i) => {
            let kind = piece_after_first(i.kind_id.as_str(), ":");
            match &i.profile {
                Some((name, uuid)) => {
                    let mut r = String::from_str(name.as_str());
                    r.append(" (uuid: ");
                    let u = uuid_text(*uuid);
                    r.append(u.as_str());
                    r.append(", id: ");
                    push_i32(&mut r, id);
                    r.append(")");
                    r
                },
                None => match &i.custom_name {
                    Some(c) => {
                        let mut r = String::from_str(c.as_str());
                        r.append(" (type: ");
                        r.append(kind.as_str());
                        r.append(", id: ");
                        push_i32(&mut r, id);
                        r.append(")");
                        r
                    },
                    None => {
                        let mut r = kind;
                        r.append(" (");
                        push_i32(&mut r, id);
                        r.append(")");
                        r
                    },
                },
            }
        },
    }
}

} // verus!
