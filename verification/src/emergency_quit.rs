//! Quitting when the bot pops a totem, unless harm is expected just now, and telling of
//! deaths.

use vstd::prelude::*;
use vstd::string::*;
use crate::text::{find_text, contains_text};
use crate::clock::{duration_debug, duration_debug_text};

verus! {

/// When harm is not a reason to quit: until `ignore_until_millis` (the caller's clock).
/// `strict`: quit on any low health reading, not only on one lower than the last.
#[derive(Debug, Copy, Clone, PartialEq, Eq, Structural)]
pub struct EmergencyQuitModule {
    pub strict: bool,
    pub ignore_until_millis: Option<u64>,
}

/// How the bot answers a sign of harm.
#[derive(Debug)]
pub enum HarmReaction {
    /// Not about the bot, or the bot is a spectator.
    Ignore,
    /// Harm is expected right now.
    Allowed,
    /// Disconnect and quit, after sending this alert.
    Quit(String),
}

/// A harm reaction with its alert as text.
pub enum ReactionView {
    Ignore,
    Allowed,
    Quit(Seq<char>),
}

impl View for HarmReaction {
    type V = ReactionView;

    open spec fn view(&self) -> ReactionView {
        match self {
            HarmReaction::Ignore => ReactionView::Ignore,
            HarmReaction::Allowed => ReactionView::Allowed,
            HarmReaction::Quit(m) => ReactionView::Quit(m@),
        }
    }
}

/// The entity event of a totem popping.
pub const TOTEM_EVENT_ID: u8 = 35;

/// The line about the last damage the bot took, for an alert: how long ago (in
/// nanoseconds) and what it was (nothing where none is known).
pub open spec fn damage_suffix(last_damage: Option<(u64, Seq<char>)>) -> Seq<char> {
    match last_damage {
        Some((ago, message)) => "\n"@ + duration_debug(ago) + " ago: "@ + message,
        None => Seq::empty(),
    }
}

/// The alert for a popped totem.
pub open spec fn totem_alert(last_damage: Option<(u64, Seq<char>)>) -> Seq<char> {
    "`💔` Popped a totem! Disconnecting and quitting..."@ + damage_suffix(last_damage)
}

/// The alert for the bot's death, with the death message where the server sent one.
pub open spec fn death_alert(message: Option<Seq<char>>) -> Seq<char> {
    match message {
        Some(m) => "`💀` You died: "@ + m,
        None => "`💀` You died"@,
    }
}

/// Whether harm is expected at `now`: a suicide is the current task (which extends the
/// window to 3 seconds from `now`), or the window has not passed yet.
pub open spec fn spec_allowing_harm(q: EmergencyQuitModule, first_task: Option<Seq<char>>, now: u64) -> (EmergencyQuitModule, bool) {
    if first_task matches Some(t) && contains_text(t, "Suicide"@) {
        (EmergencyQuitModule { ignore_until_millis: Some((now + 3000) as u64), ..q }, true)
    } else {
        (q, match q.ignore_until_millis { Some(u) => u >= now, None => false })
    }
}

/// The text of the last damage event, given how many nanoseconds ago it was.
pub fn damage_suffix_text(last_damage: Option<(u64, &str)>) -> (r: String)
    ensures
        r@ == damage_suffix(match last_damage { Some((a, m)) => Some((a, m@)), None => None }),
{
    match last_damage {
        Some((ago, message)) => {
            let mut s = String::from_str("\n");
            let d = duration_debug_text(ago);
            s.append(d.as_str());
            s.append(" ago: ");
            s.append(message);
            s
        },
        None => String::new(),
    }
}

/// The alert for the bot's death.
pub fn death_message(message: Option<&str>) -> (r: String)
    ensures
        r@ == death_alert(match message { Some(m) => Some(m@), None => None }),
{
    match message {
        Some(m) => {
            let mut s = String::from_str("`💀` You died: ");
            s.append(m);
            s
        },
        None => String::from_str("`💀` You died"),
    }
}

impl EmergencyQuitModule {
    /// A module that ignores nothing yet.
    pub fn new(strict: bool) -> (r: EmergencyQuitModule)
        ensures
            r == (EmergencyQuitModule { strict, ignore_until_millis: None }),
    {
        EmergencyQuitModule { strict, ignore_until_millis: None }
    }

    /// Ignores harm for `duration_millis` from `now_millis`.
    pub fn ignore_harm_for(&mut self, now_millis: u64, duration_millis: u64)
        requires
            now_millis + duration_millis <= u64::MAX,
        ensures
            *final(self) == (EmergencyQuitModule { ignore_until_millis: Some((now_millis + duration_millis) as u64), ..*old(self) }),
    {
        self.ignore_until_millis = Some(now_millis + duration_millis);
    }

    /// The bot (re)joined the world: harm is ignored for 2 seconds.
    pub fn on_spawn(&mut self, now_millis: u64)
        requires
            now_millis + 2000 <= u64::MAX,
        ensures
            *final(self) == (EmergencyQuitModule { ignore_until_millis: Some((now_millis + 2000) as u64), ..*old(self) }),
    {
        self.ignore_harm_for(now_millis, 2000);
    }

    /// The bot respawned: harm is ignored for 3 seconds.
    pub fn on_respawn(&mut self, now_millis: u64)
        requires
            now_millis + 3000 <= u64::MAX,
        ensures
            *final(self) == (EmergencyQuitModule { ignore_until_millis: Some((now_millis + 3000) as u64), ..*old(self) }),
    {
        self.ignore_harm_for(now_millis, 3000);
    }

    /// Whether harm is expected now (see `spec_allowing_harm`); `first_task`: the
    /// description of the task the bot works on.
    pub fn allowing_harm(&mut self, first_task: Option<&str>, now_millis: u64) -> (r: bool)
        requires
            now_millis + 3000 <= u64::MAX,
        ensures
            (*final(self), r) == spec_allowing_harm(*old(self), match first_task { Some(t) => Some(t@), None => None }, now_millis),
    {
        let suicide = match first_task {
            Some(t) => find_text(t, "Suicide", 0).is_some(),
            None => false,
        };
        if suicide {
            self.ignore_harm_for(now_millis, 3000);
            true
        } else {
            match self.ignore_until_millis {
                Some(u) => u >= now_millis,
                None => false,
            }
        }
    }

    /// An entity event: where it is the bot's own totem popping, the bot quits, unless
    /// it is a spectator or harm is allowed now. `last_damage`: how long ago the last
    /// damage was (in nanoseconds), and what it was.
    pub fn on_entity_event(
        &mut self,
        entity_id: i32,
        own_entity_id: i32,
        event_id: u8,
        spectator: bool,
        first_task: Option<&str>,
        now_millis: u64,
        last_damage: Option<(u64, &str)>,
    ) -> (r: HarmReaction)
        requires
            now_millis + 3000 <= u64::MAX,
        ensures
            if entity_id != own_entity_id || event_id != TOTEM_EVENT_ID || spectator {
                *final(self) == *old(self) && r@ == ReactionView::Ignore
            } else {
                let (q, allowed) = spec_allowing_harm(*old(self), match first_task { Some(t) => Some(t@), None => None }, now_millis);
                *final(self) == q && r@ == if allowed {
                    ReactionView::Allowed
                } else {
                    ReactionView::Quit(totem_alert(match last_damage { Some((a, m)) => Some((a, m@)), None => None }))
                }
            },
    {
        if entity_id != own_entity_id || event_id != TOTEM_EVENT_ID || spectator {
            return HarmReaction::Ignore;
        }
        if self.allowing_harm(first_task, now_millis) {
            return HarmReaction::Allowed;
        }
        let mut m = String::from_str("`💔` Popped a totem! Disconnecting and quitting...");
        let suffix = damage_suffix_text(last_damage);
        m.append(suffix.as_str());
        HarmReaction::Quit(m)
    }
}

/// Popping a totem is a reason to quit unless harm is expected: with no task mentioning
/// "Suicide" and no window of expected harm still open at `now` (none set, or one that
/// ended before `now`), harm is not allowed.
pub proof fn law_unexpected_harm_not_allowed(q: EmergencyQuitModule, first_task: Option<Seq<char>>, now: u64)
    requires
        first_task matches Some(t) ==> !contains_text(t, "Suicide"@),
        q.ignore_until_millis matches Some(u) ==> u < now,
    ensures
        spec_allowing_harm(q, first_task, now) == (q, false),
{
}

/// A task mentioning "Suicide" allows harm at once and keeps allowing it for three
/// seconds after, whatever the later task is; a window still open also allows harm.
pub proof fn law_suicide_allows_three_seconds(
    q: EmergencyQuitModule,
    task: Seq<char>,
    now: u64,
    later_task: Option<Seq<char>>,
    later: u64,
)
    requires
        contains_text(task, "Suicide"@),
        now + 3000 <= u64::MAX,
        now <= later <= now + 3000,
    ensures
        spec_allowing_harm(q, Some(task), now).1,
        spec_allowing_harm(spec_allowing_harm(q, Some(task), now).0, later_task, later).1,
        q.ignore_until_millis matches Some(u) && now <= u ==> spec_allowing_harm(q, later_task, now).1,
{
}

} // verus!
