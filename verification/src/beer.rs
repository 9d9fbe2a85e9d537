//! The beertender: who had how much beer, how a request is answered, and when the bot
//! sips or wanders on its own.

use vstd::prelude::*;
use vstd::string::*;
use std::collections::HashSet;
use crate::blockpos::BlockPos;
use crate::text::{str_eq, to_lowercase, lowercase};
use crate::random::{random_index, random_u64_between};

verus! {

/// The beertender's settings and records (the throw pitch is kept by the caller).
#[derive(Debug, Clone)]
pub struct BeerConfig {
    pub max_beer: u32,
    pub jump_before_throw: bool,
    /// Beer handed out, by lowercase player name.
    pub beer_handed_out: Vec<(String, u32)>,
    pub sip_random_min_secs: u64,
    pub sip_random_max_secs: u64,
    pub sip_when_others_sip: bool,
    pub prost_when_others_prost: bool,
    pub messages_come_closer: Vec<String>,
    pub messages_denied_beer: Vec<String>,
    pub messages_gave_beer: Vec<String>,
    pub messages_gave_last_beer: Vec<String>,
    pub messages_out_of_beer: Vec<String>,
    pub random_positions: Vec<BlockPos>,
    pub random_positions_min_secs: u64,
    pub random_positions_max_secs: u64,
}

impl Default for BeerConfig {
    /// Ten beers each, sipping every 5 to 15 seconds, moving every 30 to 120 seconds
    /// (with no positions), joining others' sips and toasts, and the stock messages.
    fn default() -> (r: BeerConfig)
        ensures
            r.max_beer == 10,
            !r.jump_before_throw,
            r.beer_handed_out@.len() == 0,
            r.sip_random_min_secs == 5,
            r.sip_random_max_secs == 15,
            r.sip_when_others_sip,
            r.prost_when_others_prost,
            texts_view(r.messages_come_closer@) == seq!["Come closer"@],
            texts_view(r.messages_denied_beer@) == seq!["You had enough buddy"@],
            r.messages_gave_beer@.len() == 0,
            texts_view(r.messages_gave_last_beer@) == seq!["This was your last one"@],
            texts_view(r.messages_out_of_beer@) == seq!["Uhm... This is akward... I'm out of beer!"@],
            r.random_positions@.len() == 0,
            r.random_positions_min_secs == 30,
            r.random_positions_max_secs == 120,
    {
        let r = BeerConfig {
            max_beer: 10,
            jump_before_throw: false,
            beer_handed_out: Vec::new(),
            sip_random_min_secs: 5,
            sip_random_max_secs: 15,
            sip_when_others_sip: true,
            prost_when_others_prost: true,
            messages_come_closer: vec![String::from_str("Come closer")],
            messages_denied_beer: vec![String::from_str("You had enough buddy")],
            messages_gave_beer: Vec::new(),
            messages_gave_last_beer: vec![String::from_str("This was your last one")],
            messages_out_of_beer: vec![String::from_str("Uhm... This is akward... I'm out of beer!")],
            random_positions: Vec::new(),
            random_positions_min_secs: 30,
            random_positions_max_secs: 120,
        };
        assert(texts_view(r.messages_come_closer@) =~= seq!["Come closer"@]);
        assert(texts_view(r.messages_denied_beer@) =~= seq!["You had enough buddy"@]);
        assert(texts_view(r.messages_gave_last_beer@) =~= seq!["This was your last one"@]);
        assert(texts_view(r.messages_out_of_beer@) =~= seq!["Uhm... This is akward... I'm out of beer!"@]);
        r
    }
}

/// Texts as character sequences.
pub open spec fn texts_view(v: Seq<String>) -> Seq<Seq<char>> {
    v.map_values(|s: String| s@)
}

/// Handed-out counts as values.
pub open spec fn counts_view(v: Seq<(String, u32)>) -> Seq<(Seq<char>, u32)> {
    v.map_values(|p: (String, u32)| (p.0@, p.1))
}

/// The count recorded for `name` (the first record of it), if any.
pub open spec fn count_of(counts: Seq<(Seq<char>, u32)>, name: Seq<char>) -> Option<u32>
    decreases counts.len(),
{
    if counts.len() == 0 {
        None
    } else if counts[0].0 == name {
        Some(counts[0].1)
    } else {
        count_of(counts.drop_first(), name)
    }
}

/// The count recorded for `name`, zero where there is none.
pub open spec fn handed_out(counts: Seq<(Seq<char>, u32)>, name: Seq<char>) -> u32 {
    match count_of(counts, name) {
        Some(c) => c,
        None => 0,
    }
}

/// The records with the first record of `name` set to `value`, or one for it added.
pub open spec fn set_count(counts: Seq<(Seq<char>, u32)>, name: Seq<char>, value: u32) -> Seq<(Seq<char>, u32)>
    decreases counts.len(),
{
    if counts.len() == 0 {
        seq![(name, value)]
    } else if counts[0].0 == name {
        counts.update(0, (name, value))
    } else {
        seq![counts[0]] + set_count(counts.drop_first(), name, value)
    }
}

/// The records with a zero record for `name` added where there is none.
pub open spec fn touch_count(counts: Seq<(Seq<char>, u32)>, name: Seq<char>) -> Seq<(Seq<char>, u32)> {
    if count_of(counts, name) is Some { counts } else { counts.push((name, 0)) }
}

proof fn lemma_count_of_push_new(counts: Seq<(Seq<char>, u32)>, name: Seq<char>, value: u32)
    requires
        count_of(counts, name) is None,
    ensures
        count_of(counts.push((name, value)), name) == Some(value),
    decreases counts.len(),
{
    if counts.len() > 0 {
        assert(counts.push((name, value)).drop_first() =~= counts.drop_first().push((name, value)));
        lemma_count_of_push_new(counts.drop_first(), name, value);
    }
}

proof fn lemma_set_count(counts: Seq<(Seq<char>, u32)>, name: Seq<char>, value: u32, other: Seq<char>)
    ensures
        count_of(set_count(counts, name, value), name) == Some(value),
        other != name ==> count_of(set_count(counts, name, value), other) == count_of(counts, other),
    decreases counts.len(),
{
    let s = set_count(counts, name, value);
    if counts.len() == 0 {
        assert(s.drop_first() =~= Seq::<(Seq<char>, u32)>::empty());
        if other != name {
            assert(count_of(s.drop_first(), other) is None);
            assert(count_of(s, other) == count_of(s.drop_first(), other));
        }
    } else if counts[0].0 != name {
        lemma_set_count(counts.drop_first(), name, value, other);
        assert(s[0] == counts[0]);
        assert(s.drop_first() =~= set_count(counts.drop_first(), name, value));
    } else {
        assert(s[0] == (name, value));
        assert(s.drop_first() =~= counts.drop_first());
        if other != name {
            assert(count_of(s, other) == count_of(s.drop_first(), other));
            assert(count_of(counts, other) == count_of(counts.drop_first(), other));
        }
    }
}

/// Where a record of `name` is, if any.
fn find_count(counts: &Vec<(String, u32)>, name: &str) -> (r: Option<usize>)
    ensures
        match r {
            Some(i) => i < counts@.len() && counts@[i as int].0@ == name@
                && forall|k: int| 0 <= k < i ==> #[trigger] counts_view(counts@)[k].0 != name@,
            None => count_of(counts_view(counts@), name@) is None,
        },
{
    let ghost cv = counts_view(counts@);
    assert(cv.subrange(0, cv.len() as int) =~= cv);
    let mut i: usize = 0;
    while i < counts.len()
        invariant
            i <= counts@.len(),
            cv == counts_view(counts@),
            count_of(cv, name@) == count_of(cv.subrange(i as int, cv.len() as int), name@),
            forall|k: int| 0 <= k < i ==> #[trigger] cv[k].0 != name@,
        decreases counts@.len() - i,
    {
        let ghost rest = cv.subrange(i as int, cv.len() as int);
        assert(rest.drop_first() =~= cv.subrange(i + 1, cv.len() as int));
        if str_eq(counts[i].0.as_str(), name) {
            return Some(i);
        }
        i = i + 1;
    }
    None
}

proof fn lemma_count_of_at(counts: Seq<(Seq<char>, u32)>, name: Seq<char>, i: int)
    requires
        0 <= i < counts.len(),
        counts[i].0 == name,
        forall|k: int| 0 <= k < i ==> #[trigger] counts[k].0 != name,
    ensures
        count_of(counts, name) == Some(counts[i].1),
    decreases i,
{
    if i > 0 {
        lemma_count_of_at(counts.drop_first(), name, i - 1);
    }
}

proof fn lemma_set_count_at(counts: Seq<(Seq<char>, u32)>, name: Seq<char>, value: u32, i: int)
    requires
        0 <= i < counts.len(),
        counts[i].0 == name,
        forall|k: int| 0 <= k < i ==> #[trigger] counts[k].0 != name,
    ensures
        set_count(counts, name, value) =~= counts.update(i, (name, value)),
    decreases i,
{
    if i > 0 {
        lemma_set_count_at(counts.drop_first(), name, value, i - 1);
        assert(seq![counts[0]] + counts.drop_first().update(i - 1, (name, value)) =~= counts.update(i, (name, value)));
    }
}

/// A random message from a list (`None` for an empty list).
fn random_message(messages: &Vec<String>) -> (r: Option<String>)
    ensures
        match r {
            Some(m) => texts_view(messages@).contains(m@),
            None => messages@.len() == 0,
        },
{
    if messages.len() == 0 {
        return None;
    }
    let i = random_index(messages.len());
    assert(texts_view(messages@)[i as int] == messages@[i as int]@);
    Some(String::from_str(messages[i].as_str()))
}

/// Where the bot looks during a request (the caller turns this into a direction).
#[derive(Debug, Copy, Clone, PartialEq, Eq, Structural)]
pub enum BeerLook {
    /// At the requester's eyes.
    AtUser,
    /// Towards the requester, nearly straight down.
    AlmostDown,
    /// 30 degrees left of the requester.
    NoLeft,
    /// 30 degrees right of the requester.
    NoRight,
    /// At the requester, 15 degrees lower (at most straight down).
    NodDown,
}

/// One step of answering a beer request.
#[derive(Debug)]
pub enum BeerStep {
    DelayTicks(u32),
    Look(BeerLook),
    Jump,
    /// Tell the requester this (as an error), if there is a message.
    Tell(Option<String>),
    /// Check again and throw a beer (see `BeertenderModule::recheck_and_throw`), telling
    /// one of these messages: denied, out of beer, gave beer, gave the last beer.
    RecheckAndThrow { denied: Option<String>, out_of_beer: Option<String>, gave: Option<String>, gave_last: Option<String> },
}

/// A step as values.
pub enum BeerStepView {
    DelayTicks(u32),
    Look(BeerLook),
    Jump,
    Tell(Option<Seq<char>>),
    RecheckAndThrow(Option<Seq<char>>, Option<Seq<char>>, Option<Seq<char>>, Option<Seq<char>>),
}

/// An optional message as characters.
pub open spec fn opt_view(o: Option<String>) -> Option<Seq<char>> {
    match o {
        Some(s) => Some(s@),
        None => None,
    }
}

impl View for BeerStep {
    type V = BeerStepView;

    open spec fn view(&self) -> BeerStepView {
        match self {
            BeerStep::DelayTicks(t) => BeerStepView::DelayTicks(*t),
            BeerStep::Look(l) => BeerStepView::Look(*l),
            BeerStep::Jump => BeerStepView::Jump,
            BeerStep::Tell(m) => BeerStepView::Tell(opt_view(*m)),
            BeerStep::RecheckAndThrow { denied, out_of_beer, gave, gave_last } =>
                BeerStepView::RecheckAndThrow(opt_view(*denied), opt_view(*out_of_beer), opt_view(*gave), opt_view(*gave_last)),
        }
    }
}

/// Steps as values.
pub open spec fn beer_steps_view(v: Seq<BeerStep>) -> Seq<BeerStepView> {
    v.map_values(|s: BeerStep| s@)
}

/// How a beer request is answered.
#[derive(Debug)]
pub enum BeerRequest {
    /// The requester is not in sight: they are told this.
    Unseen(String),
    /// A task group with this name runs these steps.
    Plan { name: String, steps: Vec<BeerStep> },
}

/// The steps that urge a requester who stands too far away to come closer.
pub open spec fn come_closer_steps(message: Option<Seq<char>>) -> Seq<BeerStepView> {
    seq![
        BeerStepView::DelayTicks(4), BeerStepView::Look(BeerLook::AtUser),
        BeerStepView::DelayTicks(8), BeerStepView::Look(BeerLook::AlmostDown),
        BeerStepView::DelayTicks(4), BeerStepView::Look(BeerLook::AlmostDown),
        BeerStepView::DelayTicks(4), BeerStepView::Look(BeerLook::AlmostDown),
        BeerStepView::DelayTicks(4), BeerStepView::Look(BeerLook::AlmostDown),
        BeerStepView::DelayTicks(4), BeerStepView::Look(BeerLook::AlmostDown),
        BeerStepView::DelayTicks(4), BeerStepView::Look(BeerLook::AtUser),
        BeerStepView::DelayTicks(4), BeerStepView::Tell(message),
        BeerStepView::DelayTicks(20)
    ]
}

/// The steps that deny a requester more beer: a head shake.
pub open spec fn deny_steps(message: Option<Seq<char>>) -> Seq<BeerStepView> {
    seq![
        BeerStepView::DelayTicks(4), BeerStepView::Look(BeerLook::AtUser),
        BeerStepView::DelayTicks(8), BeerStepView::Look(BeerLook::NoLeft),
        BeerStepView::DelayTicks(4), BeerStepView::Look(BeerLook::NoRight),
        BeerStepView::DelayTicks(4), BeerStepView::Look(BeerLook::NoLeft),
        BeerStepView::DelayTicks(4), BeerStepView::Look(BeerLook::AtUser),
        BeerStepView::DelayTicks(4), BeerStepView::Tell(message),
        BeerStepView::DelayTicks(20)
    ]
}

/// The steps that give a requester a beer: a nod, a jump if configured, the throw.
pub open spec fn give_steps(
    jump: bool,
    denied: Option<Seq<char>>,
    out_of_beer: Option<Seq<char>>,
    gave: Option<Seq<char>>,
    gave_last: Option<Seq<char>>,
) -> Seq<BeerStepView> {
    seq![
        BeerStepView::DelayTicks(4), BeerStepView::Look(BeerLook::AtUser),
        BeerStepView::DelayTicks(8), BeerStepView::Look(BeerLook::NodDown),
        BeerStepView::DelayTicks(4), BeerStepView::Look(BeerLook::AtUser),
        BeerStepView::DelayTicks(8)
    ] + (if jump { seq![BeerStepView::Jump, BeerStepView::DelayTicks(4)] } else { Seq::empty() })
        + seq![BeerStepView::RecheckAndThrow(denied, out_of_beer, gave, gave_last), BeerStepView::DelayTicks(8)]
}

/// Whether an optional message is one of a list, or the list is empty and there is none.
pub open spec fn picked_from(m: Option<Seq<char>>, messages: Seq<String>) -> bool {
    match m {
        Some(s) => texts_view(messages).contains(s),
        None => messages.len() == 0,
    }
}

/// What a throw attempt does.
#[derive(Debug)]
pub struct ThrowOutcome {
    /// The inventory slot of the beer thrown, if one was.
    pub thrown_from: Option<u16>,
    /// What the requester is told.
    pub tell: Option<String>,
}

/// The bot's own beer habits at one tick.
#[derive(Debug, Copy, Clone, PartialEq, Eq, Structural)]
pub struct TickActions {
    pub sip: bool,
    pub walk_to: Option<BlockPos>,
}

/// Whether a timer (ticks counted, target) can count one more tick.
pub open spec fn timer_ok(t: Option<(u64, u64)>) -> bool {
    match t {
        Some((ticks, target)) => ticks < target || ticks == 0,
        None => true,
    }
}

/// A timer after one tick: started with `drawn` as its target if it was not running
/// and may start; it runs out (and stops) when the counted ticks reach the target.
pub open spec fn timer_step(t: Option<(u64, u64)>, may_start: bool, drawn: u64) -> (Option<(u64, u64)>, bool) {
    let running = if t is None && may_start { Some((0u64, drawn)) } else { t };
    match running {
        Some((ticks, target)) => if ticks + 1 >= target {
            (None, true)
        } else {
            (Some(((ticks + 1) as u64, target)), false)
        },
        None => (None, false),
    }
}

/// Whether the sipping timer may start: its range is valid.
pub open spec fn sip_may_start(c: BeerConfig) -> bool {
    c.sip_random_min_secs <= c.sip_random_max_secs
}

/// Whether the walking timer may start: its range is valid and there are positions.
pub open spec fn walk_may_start(c: BeerConfig) -> bool {
    c.random_positions_min_secs <= c.random_positions_max_secs && c.random_positions@.len() > 0
}

/// The beertender: its configuration, its timers and who holds a beer.
#[derive(Debug)]
pub struct BeertenderModule {
    pub config: BeerConfig,
    /// Ticks counted towards the next sip, and after how many ticks it comes.
    pub random_sipping: Option<(u64, u64)>,
    /// Ticks counted towards the next walk, and after how many ticks it comes.
    pub random_positions: Option<(u64, u64)>,
    /// Entity ids of players holding a beer in their main hand.
    pub holds_beer: HashSet<i32>,
}

/// Whether configuration `a` is `b` apart from the beer counts.
pub open spec fn same_but_counts(a: BeerConfig, b: BeerConfig) -> bool {
    a == BeerConfig { beer_handed_out: a.beer_handed_out, ..b }
}

impl BeerConfig {
    /// Whether the configured ranges fit in ticks.
    pub open spec fn ranges_fit(&self) -> bool {
        self.sip_random_max_secs * 20 <= u64::MAX && self.random_positions_max_secs * 20 <= u64::MAX
    }
}

impl BeertenderModule {
    /// Whether the timers can count on.
    pub open spec fn wf(&self) -> bool {
        timer_ok(self.random_sipping) && timer_ok(self.random_positions)
    }

    /// A beertender with this configuration, no timers running and no beer seen.
    pub fn new(config: BeerConfig) -> (r: BeertenderModule)
        ensures
            r.wf(),
            r.random_sipping is None,
            r.random_positions is None,
            r.holds_beer@ == Set::<i32>::empty(),
    {
        BeertenderModule { config, random_sipping: None, random_positions: None, holds_beer: HashSet::new() }
    }

    /// Whether `username` had their maximum of beer (a zero record for them is added
    /// where there is none).
    pub fn had_enough_beer(&mut self, username: &str) -> (r: bool)
        ensures
            r == (handed_out(counts_view(old(self).config.beer_handed_out@), lowercase(username@)) >= old(self).config.max_beer),
            counts_view(final(self).config.beer_handed_out@)
                == touch_count(counts_view(old(self).config.beer_handed_out@), lowercase(username@)),
            final(self).config.max_beer == old(self).config.max_beer,
            same_but_counts(final(self).config, old(self).config),
            final(self).random_sipping == old(self).random_sipping,
            final(self).random_positions == old(self).random_positions,
            final(self).holds_beer == old(self).holds_beer,
    {
        let key = to_lowercase(username);
        match find_count(&self.config.beer_handed_out, key.as_str()) {
            Some(i) => {
                proof {
                    lemma_count_of_at(counts_view(self.config.beer_handed_out@), lowercase(username@), i as int);
                }
                self.config.beer_handed_out[i].1 >= self.config.max_beer
            },
            None => {
                let ghost before = counts_view(self.config.beer_handed_out@);
                self.config.beer_handed_out.push((key, 0));
                proof {
                    assert(counts_view(self.config.beer_handed_out@) =~= before.push((lowercase(username@), 0)));
                }
                0 >= self.config.max_beer
            },
        }
    }

    /// Counts one more beer for `username`.
    pub fn gave_beer(&mut self, username: &str)
        requires
            handed_out(counts_view(old(self).config.beer_handed_out@), lowercase(username@)) < u32::MAX,
        ensures
            counts_view(final(self).config.beer_handed_out@) == set_count(counts_view(old(self).config.beer_handed_out@),
                lowercase(username@), (handed_out(counts_view(old(self).config.beer_handed_out@), lowercase(username@)) + 1) as u32),
            final(self).config.max_beer == old(self).config.max_beer,
            same_but_counts(final(self).config, old(self).config),
            final(self).random_sipping == old(self).random_sipping,
            final(self).random_positions == old(self).random_positions,
            final(self).holds_beer == old(self).holds_beer,
    {
        let key = to_lowercase(username);
        let ghost before = counts_view(self.config.beer_handed_out@);
        match find_count(&self.config.beer_handed_out, key.as_str()) {
            Some(i) => {
                proof {
                    lemma_count_of_at(before, lowercase(username@), i as int);
                }
                let count = self.config.beer_handed_out[i].1;
                let entry = (key, count + 1);
                self.config.beer_handed_out.set(i, entry);
                proof {
                    lemma_set_count_at(before, lowercase(username@), (count + 1) as u32, i as int);
                    assert(counts_view(self.config.beer_handed_out@) =~= before.update(i as int, (lowercase(username@), (count + 1) as u32)));
                }
            },
            None => {
                self.config.beer_handed_out.push((key, 1));
                proof {
                    lemma_set_count_absent(before, lowercase(username@), 1);
                    assert(counts_view(self.config.beer_handed_out@) =~= before.push((lowercase(username@), 1)));
                }
            },
        }
    }

    /// Forgets the beer count of `username` (`!resetBeerFor`).
    pub fn reset_beer_for(&mut self, username: &str)
        ensures
            count_of(counts_view(final(self).config.beer_handed_out@), lowercase(username@)) is None,
            final(self).config.max_beer == old(self).config.max_beer,
    {
        let key = to_lowercase(username);
        let mut kept: Vec<(String, u32)> = Vec::new();
        let mut i: usize = 0;
        while i < self.config.beer_handed_out.len()
            invariant
                i <= self.config.beer_handed_out@.len(),
                forall|k: int| 0 <= k < kept@.len() ==> #[trigger] kept@[k].0@ != key@,
                self.config.max_beer == old(self).config.max_beer,
            decreases self.config.beer_handed_out@.len() - i,
        {
            if !str_eq(self.config.beer_handed_out[i].0.as_str(), key.as_str()) {
                let name = String::from_str(self.config.beer_handed_out[i].0.as_str());
                let count = self.config.beer_handed_out[i].1;
                kept.push((name, count));
            }
            i = i + 1;
        }
        proof {
            lemma_count_of_absent(counts_view(kept@), key@);
        }
        self.config.beer_handed_out = kept;
    }

    /// Forgets all beer counts (`!resetBeerForAll`).
    pub fn reset_beer_for_all(&mut self)
        ensures
            final(self).config.beer_handed_out@.len() == 0,
            final(self).config.max_beer == old(self).config.max_beer,
    {
        self.config.beer_handed_out = Vec::new();
    }

    /// Answers `username`'s request for beer (`user_seen`: they are in sight;
    /// `user_close`: less than 5 blocks away). A seen requester restarts the wait for
    /// the next walk; one too far away is urged to come closer, one who had enough is
    /// denied, and anyone else is given a beer. Each message is picked at random from
    /// its list.
    pub fn request_beer(&mut self, username: &str, user_seen: bool, user_close: bool) -> (r: BeerRequest)
        ensures
            final(self).config.max_beer == old(self).config.max_beer,
            final(self).random_sipping == old(self).random_sipping,
            same_but_counts(final(self).config, old(self).config),
            final(self).holds_beer == old(self).holds_beer,
            !user_seen ==> *final(self) == *old(self),
            old(self).wf() ==> final(self).wf(),
            !user_seen ==> (r matches BeerRequest::Unseen(m) && m@ == "Is it the beer or why can't I see you?"@
                && final(self).random_positions == old(self).random_positions
                && counts_view(final(self).config.beer_handed_out@) == counts_view(old(self).config.beer_handed_out@)),
            user_seen ==> final(self).random_positions is None,
            user_seen && !user_close ==> counts_view(final(self).config.beer_handed_out@) == counts_view(old(self).config.beer_handed_out@),
            user_seen && user_close ==> counts_view(final(self).config.beer_handed_out@)
                == touch_count(counts_view(old(self).config.beer_handed_out@), lowercase(username@)),
            user_seen ==> (r matches BeerRequest::Plan { name, steps } && ({
                let enough = handed_out(counts_view(old(self).config.beer_handed_out@), lowercase(username@)) >= old(self).config.max_beer;
                let c = old(self).config;
                exists|closer: Option<Seq<char>>, denied: Option<Seq<char>>, out: Option<Seq<char>>,
                    gave: Option<Seq<char>>, last: Option<Seq<char>>|
                    #![trigger picked_from(closer, c.messages_come_closer@), picked_from(denied, c.messages_denied_beer@),
                        picked_from(out, c.messages_out_of_beer@), picked_from(gave, c.messages_gave_beer@),
                        picked_from(last, c.messages_gave_last_beer@)]
                    picked_from(closer, c.messages_come_closer@) && picked_from(denied, c.messages_denied_beer@)
                    && picked_from(out, c.messages_out_of_beer@) && picked_from(gave, c.messages_gave_beer@)
                    && picked_from(last, c.messages_gave_last_beer@) && if !user_close {
                        name@ == "Urge "@ + username@ + " to come closer for beer"@
                            && beer_steps_view(steps@) == come_closer_steps(closer)
                    } else if enough {
                        name@ == "Deny "@ + username@ + "'s Beer"@ && beer_steps_view(steps@) == deny_steps(denied)
                    } else {
                        name@ == "Give "@ + username@ + "'s Beer"@
                            && beer_steps_view(steps@) == give_steps(c.jump_before_throw, denied, out, gave, last)
                    }
            })),
    {
        if !user_seen {
            return BeerRequest::Unseen(String::from_str("Is it the beer or why can't I see you?"));
        }
        self.random_positions = None;
        let closer = random_message(&self.config.messages_come_closer);
        let denied = random_message(&self.config.messages_denied_beer);
        let gave = random_message(&self.config.messages_gave_beer);
        let last = random_message(&self.config.messages_gave_last_beer);
        let out = random_message(&self.config.messages_out_of_beer);
        let ghost (vc, vd, vo, vg, vl) = (opt_view(closer), opt_view(denied), opt_view(out), opt_view(gave), opt_view(last));
        let ghost c = old(self).config;
        assert(picked_from(vc, c.messages_come_closer@) && picked_from(vd, c.messages_denied_beer@)
            && picked_from(vo, c.messages_out_of_beer@) && picked_from(vg, c.messages_gave_beer@)
            && picked_from(vl, c.messages_gave_last_beer@));
        let jump = self.config.jump_before_throw;
        let mut steps: Vec<BeerStep> = Vec::new();
        if !user_close {
            let mut name = String::from_str("Urge ");
            name.append(username);
            name.append(" to come closer for beer");
            push_beer_step(&mut steps, BeerStep::DelayTicks(4));
            push_beer_step(&mut steps, BeerStep::Look(BeerLook::AtUser));
            push_beer_step(&mut steps, BeerStep::DelayTicks(8));
            push_beer_step(&mut steps, BeerStep::Look(BeerLook::AlmostDown));
            let mut k: usize = 0;
            while k < 4
                invariant
                    k <= 4,
                    beer_steps_view(steps@) == come_closer_steps(vc).subrange(0, 4 + 2 * k as int),
                decreases 4 - k,
            {
                push_beer_step(&mut steps, BeerStep::DelayTicks(4));
                push_beer_step(&mut steps, BeerStep::Look(BeerLook::AlmostDown));
                k = k + 1;
                assert(beer_steps_view(steps@) =~= come_closer_steps(vc).subrange(0, 4 + 2 * k as int));
            }
            push_beer_step(&mut steps, BeerStep::DelayTicks(4));
            push_beer_step(&mut steps, BeerStep::Look(BeerLook::AtUser));
            push_beer_step(&mut steps, BeerStep::DelayTicks(4));
            push_beer_step(&mut steps, BeerStep::Tell(closer));
            push_beer_step(&mut steps, BeerStep::DelayTicks(20));
            assert(beer_steps_view(steps@) =~= come_closer_steps(vc));
            return BeerRequest::Plan { name, steps };
        }
        if self.had_enough_beer(username) {
            let mut name = String::from_str("Deny ");
            name.append(username);
            name.append("'s Beer");
            push_beer_step(&mut steps, BeerStep::DelayTicks(4));
            push_beer_step(&mut steps, BeerStep::Look(BeerLook::AtUser));
            push_beer_step(&mut steps, BeerStep::DelayTicks(8));
            push_beer_step(&mut steps, BeerStep::Look(BeerLook::NoLeft));
            push_beer_step(&mut steps, BeerStep::DelayTicks(4));
            push_beer_step(&mut steps, BeerStep::Look(BeerLook::NoRight));
            push_beer_step(&mut steps, BeerStep::DelayTicks(4));
            push_beer_step(&mut steps, BeerStep::Look(BeerLook::NoLeft));
            push_beer_step(&mut steps, BeerStep::DelayTicks(4));
            push_beer_step(&mut steps, BeerStep::Look(BeerLook::AtUser));
            push_beer_step(&mut steps, BeerStep::DelayTicks(4));
            push_beer_step(&mut steps, BeerStep::Tell(denied));
            push_beer_step(&mut steps, BeerStep::DelayTicks(20));
            assert(beer_steps_view(steps@) =~= deny_steps(vd));
            return BeerRequest::Plan { name, steps };
        }
        let mut name = String::from_str("Give ");
        name.append(username);
        name.append("'s Beer");
        push_beer_step(&mut steps, BeerStep::DelayTicks(4));
        push_beer_step(&mut steps, BeerStep::Look(BeerLook::AtUser));
        push_beer_step(&mut steps, BeerStep::DelayTicks(8));
        push_beer_step(&mut steps, BeerStep::Look(BeerLook::NodDown));
        push_beer_step(&mut steps, BeerStep::DelayTicks(4));
        push_beer_step(&mut steps, BeerStep::Look(BeerLook::AtUser));
        push_beer_step(&mut steps, BeerStep::DelayTicks(8));
        if jump {
            push_beer_step(&mut steps, BeerStep::Jump);
            push_beer_step(&mut steps, BeerStep::DelayTicks(4));
        }
        push_beer_step(&mut steps, BeerStep::RecheckAndThrow { denied, out_of_beer: out, gave, gave_last: last });
        push_beer_step(&mut steps, BeerStep::DelayTicks(8));
        assert(beer_steps_view(steps@) =~= give_steps(jump, vd, vo, vg, vl));
        BeerRequest::Plan { name, steps }
    }

    /// The throw at the end of giving a beer (`beer_slot`: the first inventory slot with
    /// a beer, if any): a requester who had enough meanwhile is denied, without beer the
    /// bot says it is out, else the beer is thrown, counted, and the requester is told it
    /// was their last or that they got one.
    pub fn recheck_and_throw(
        &mut self,
        username: &str,
        beer_slot: Option<u16>,
        denied: Option<String>,
        out_of_beer: Option<String>,
        gave: Option<String>,
        gave_last: Option<String>,
    ) -> (r: ThrowOutcome)
        ensures
            ({
                let counts = counts_view(old(self).config.beer_handed_out@);
                let name = lowercase(username@);
                let had = handed_out(counts, name);
                let max = old(self).config.max_beer;
                if had >= max {
                    r.thrown_from is None && opt_view(r.tell) == opt_view(denied)
                        && counts_view(final(self).config.beer_handed_out@) == touch_count(counts, name)
                } else if beer_slot is None {
                    r.thrown_from is None && opt_view(r.tell) == opt_view(out_of_beer)
                        && counts_view(final(self).config.beer_handed_out@) == touch_count(counts, name)
                } else {
                    &&& r.thrown_from == beer_slot
                    &&& counts_view(final(self).config.beer_handed_out@) == set_count(touch_count(counts, name), name, (had + 1) as u32)
                    &&& opt_view(r.tell) == if had + 1 >= max { opt_view(gave_last) } else { opt_view(gave) }
                }
            }),
            final(self).config.max_beer == old(self).config.max_beer,
            final(self).random_sipping == old(self).random_sipping,
            final(self).random_positions == old(self).random_positions,
    {
        let ghost counts = counts_view(self.config.beer_handed_out@);
        let ghost name = lowercase(username@);
        if self.had_enough_beer(username) {
            return ThrowOutcome { thrown_from: None, tell: denied };
        }
        let slot = match beer_slot {
            None => return ThrowOutcome { thrown_from: None, tell: out_of_beer },
            Some(s) => s,
        };
        proof {
            lemma_touch_keeps_count(counts, name);
        }
        self.gave_beer(username);
        proof {
            lemma_set_count(touch_count(counts, name), name, (handed_out(counts, name) + 1) as u32, name);
        }
        let last = self.had_enough_beer(username);
        proof {
            lemma_touch_present(counts_view(self.config.beer_handed_out@), name);
        }
        let tell = if last { gave_last } else { gave };
        ThrowOutcome { thrown_from: Some(slot), tell }
    }

    /// A player's main hand changed: they hold a beer or not.
    pub fn set_holds_beer(&mut self, entity_id: i32, holds: bool)
        ensures
            final(self).holds_beer@ == if holds { old(self).holds_beer@.insert(entity_id) } else { old(self).holds_beer@.remove(entity_id) },
            final(self).config.max_beer == old(self).config.max_beer,
    {
        if holds {
            self.holds_beer.insert(entity_id);
        } else {
            self.holds_beer.remove(&entity_id);
        }
    }

    /// Whether to sip along with a player who uses their beer (`close`: within 12
    /// blocks): only when sipping along is on, the bot is idle and they hold a beer.
    pub fn should_sip_along(&self, entity_id: i32, close: bool, tasks_pending: bool) -> (r: bool)
        ensures
            r == (self.config.sip_when_others_sip && !tasks_pending && close && self.holds_beer@.contains(entity_id)),
    {
        self.config.sip_when_others_sip && !tasks_pending && close && self.holds_beer.contains(&entity_id)
    }

    /// Whether to swing along with a player who swings their beer (`close`: within 12
    /// blocks): only when that is on, the bot is idle and they hold a beer.
    pub fn should_prost_along(&self, entity_id: i32, close: bool, tasks_pending: bool) -> (r: bool)
        ensures
            r == (self.config.prost_when_others_prost && !tasks_pending && close && self.holds_beer@.contains(entity_id)),
    {
        self.config.prost_when_others_prost && !tasks_pending && close && self.holds_beer.contains(&entity_id)
    }

    /// A tick. While the bot is busy the sipping timer stops. Idle, each timer is set
    /// (to a random number of ticks within its configured range of seconds) if it is not
    /// running and its range is valid (and, for walking, positions exist), counts the
    /// tick, and when it runs out the bot sips or walks to a random position.
    pub fn on_tick(&mut self, tasks_pending: bool) -> (r: TickActions)
        requires
            old(self).wf(),
            old(self).config.ranges_fit(),
        ensures
            final(self).wf(),
            final(self).config == old(self).config,
            tasks_pending ==> final(self).random_sipping is None && !r.sip && r.walk_to is None
                && final(self).random_positions == old(self).random_positions,
            !tasks_pending ==> ({
                let c = old(self).config;
                exists|drawn: u64| #![trigger timer_step(old(self).random_sipping, sip_may_start(c), drawn)]
                    (old(self).random_sipping is None && sip_may_start(c) ==> c.sip_random_min_secs * 20 <= drawn <= c.sip_random_max_secs * 20)
                    && (final(self).random_sipping, r.sip)
                        == timer_step(old(self).random_sipping, sip_may_start(c), drawn)
            }),
            !tasks_pending ==> ({
                let c = old(self).config;
                let start_ok = walk_may_start(c);
                exists|drawn: u64| #![trigger timer_step(old(self).random_positions, walk_may_start(c), drawn)]
                    (old(self).random_positions is None && walk_may_start(c) ==> c.random_positions_min_secs * 20 <= drawn <= c.random_positions_max_secs * 20)
                    && final(self).random_positions == timer_step(old(self).random_positions, start_ok, drawn).0
                    && if timer_step(old(self).random_positions, start_ok, drawn).1 && c.random_positions@.len() > 0 {
                        r.walk_to matches Some(p) && c.random_positions@.contains(p)
                    } else {
                        r.walk_to is None
                    }
            }),
    {
        if tasks_pending {
            self.random_sipping = None;
            return TickActions { sip: false, walk_to: None };
        }
        let ghost c = self.config;
        let ghost mut drawn_sip: u64 = (c.sip_random_min_secs * 20) as u64;
        if self.random_sipping.is_none() && self.config.sip_random_min_secs <= self.config.sip_random_max_secs {
            let target = random_u64_between(self.config.sip_random_min_secs * 20, self.config.sip_random_max_secs * 20);
            proof { drawn_sip = target; }
            self.random_sipping = Some((0, target));
        }
        let mut sip = false;
        match self.random_sipping {
            Some((ticks, target)) => {
                let ticks = ticks + 1;
                if ticks >= target {
                    sip = true;
                    self.random_sipping = None;
                } else {
                    self.random_sipping = Some((ticks, target));
                }
            },
            None => {},
        }
        proof {
            assert((self.random_sipping, sip) == timer_step(old(self).random_sipping, sip_may_start(c), drawn_sip));
        }
        let ghost mut drawn_walk: u64 = (c.random_positions_min_secs * 20) as u64;
        if self.random_positions.is_none() && self.config.random_positions_min_secs <= self.config.random_positions_max_secs
            && self.config.random_positions.len() > 0 {
            let target = random_u64_between(self.config.random_positions_min_secs * 20, self.config.random_positions_max_secs * 20);
            proof { drawn_walk = target; }
            self.random_positions = Some((0, target));
        }
        let mut walk_to: Option<BlockPos> = None;
        match self.random_positions {
            Some((ticks, target)) => {
                let ticks = ticks + 1;
                if ticks >= target {
                    if self.config.random_positions.len() > 0 {
                        let i = random_index(self.config.random_positions.len());
                        walk_to = Some(self.config.random_positions[i]);
                    }
                    self.random_positions = None;
                } else {
                    self.random_positions = Some((ticks, target));
                }
            },
            None => {},
        }
        proof {
            assert(self.random_positions == timer_step(old(self).random_positions, walk_may_start(c), drawn_walk).0);
            if let Some(p) = walk_to {
                let i = choose|i: int| 0 <= i < c.random_positions@.len() && c.random_positions@[i] == p;
            }
        }
        TickActions { sip, walk_to }
    }
}

fn push_beer_step(steps: &mut Vec<BeerStep>, step: BeerStep)
    ensures
        beer_steps_view(final(steps)@) == beer_steps_view(old(steps)@).push(step@),
{
    let ghost s = step@;
    steps.push(step);
    assert(beer_steps_view(steps@) =~= beer_steps_view(old(steps)@).push(s));
}

/// Nobody is handed more than the maximum: a beer is thrown only to a player below it,
/// and afterwards their count is one more, at most the maximum.
pub proof fn law_beer_limit(counts: Seq<(Seq<char>, u32)>, name: Seq<char>, max: u32)
    requires
        handed_out(counts, name) < max,
    ensures
        handed_out(set_count(touch_count(counts, name), name, (handed_out(counts, name) + 1) as u32), name)
            == handed_out(counts, name) + 1,
        handed_out(set_count(touch_count(counts, name), name, (handed_out(counts, name) + 1) as u32), name) <= max,
{
    lemma_touch_keeps_count(counts, name);
    lemma_set_count(touch_count(counts, name), name, (handed_out(counts, name) + 1) as u32, name);
}

/// The counts after `k` beers were counted for `name`, one after the other (as
/// `gave_beer` counts each).
pub open spec fn after_gifts(counts: Seq<(Seq<char>, u32)>, name: Seq<char>, k: nat) -> Seq<(Seq<char>, u32)>
    decreases k,
{
    if k == 0 {
        counts
    } else {
        let c = after_gifts(counts, name, (k - 1) as nat);
        set_count(c, name, (handed_out(c, name) + 1) as u32)
    }
}

/// Counting `k` beers for a player without any gives them exactly `k`, so they had
/// enough exactly when `k` reached the maximum; every other player keeps their count.
/// (Counts are kept by lowercase name, so any spelling of the name counts alike.)
pub proof fn law_gifts_add_up(counts: Seq<(Seq<char>, u32)>, name: Seq<char>, k: nat, max: u32, other: Seq<char>)
    requires
        handed_out(counts, name) == 0,
        k <= u32::MAX,
    ensures
        handed_out(after_gifts(counts, name, k), name) == k,
        (handed_out(after_gifts(counts, name, k), name) >= max) == (k >= max),
        other != name ==> handed_out(after_gifts(counts, name, k), other) == handed_out(counts, other),
    decreases k,
{
    if k > 0 {
        law_gifts_add_up(counts, name, (k - 1) as nat, max, other);
        let c = after_gifts(counts, name, (k - 1) as nat);
        lemma_set_count(c, name, (handed_out(c, name) + 1) as u32, other);
    }
}

/// Counting a beer for one player leaves every other player's count as it was.
pub proof fn law_count_is_per_player(counts: Seq<(Seq<char>, u32)>, name: Seq<char>, other: Seq<char>, value: u32)
    requires
        other != name,
    ensures
        handed_out(set_count(counts, name, value), other) == handed_out(counts, other),
        handed_out(touch_count(counts, name), other) == handed_out(counts, other),
{
    lemma_set_count(counts, name, value, other);
    if count_of(counts, name) is None {
        lemma_count_of_push_other(counts, name, other);
    }
}

proof fn lemma_count_of_push_other(counts: Seq<(Seq<char>, u32)>, name: Seq<char>, other: Seq<char>)
    requires
        other != name,
    ensures
        count_of(counts.push((name, 0)), other) == count_of(counts, other),
    decreases counts.len(),
{
    if counts.len() == 0 {
        assert(counts.push((name, 0)).drop_first() =~= Seq::<(Seq<char>, u32)>::empty());
    } else if counts[0].0 != other {
        assert(counts.push((name, 0)).drop_first() =~= counts.drop_first().push((name, 0)));
        lemma_count_of_push_other(counts.drop_first(), name, other);
    }
}

proof fn lemma_count_of_absent(counts: Seq<(Seq<char>, u32)>, name: Seq<char>)
    requires
        forall|k: int| 0 <= k < counts.len() ==> #[trigger] counts[k].0 != name,
    ensures
        count_of(counts, name) is None,
    decreases counts.len(),
{
    if counts.len() > 0 {
        assert forall|k: int| 0 <= k < counts.drop_first().len() implies #[trigger] counts.drop_first()[k].0 != name by {
            assert(counts.drop_first()[k] == counts[k + 1]);
        }
        lemma_count_of_absent(counts.drop_first(), name);
    }
}

proof fn lemma_set_count_absent(counts: Seq<(Seq<char>, u32)>, name: Seq<char>, value: u32)
    requires
        count_of(counts, name) is None,
    ensures
        set_count(counts, name, value) =~= counts.push((name, value)),
    decreases counts.len(),
{
    if counts.len() > 0 {
        lemma_set_count_absent(counts.drop_first(), name, value);
        assert(seq![counts[0]] + counts.drop_first().push((name, value)) =~= counts.push((name, value)));
    }
}

proof fn lemma_touch_keeps_count(counts: Seq<(Seq<char>, u32)>, name: Seq<char>)
    ensures
        handed_out(touch_count(counts, name), name) == handed_out(counts, name),
{
    if count_of(counts, name) is None {
        lemma_count_of_push_new(counts, name, 0);
    }
}

proof fn lemma_touch_present(counts: Seq<(Seq<char>, u32)>, name: Seq<char>)
    requires
        count_of(counts, name) is Some,
    ensures
        touch_count(counts, name) == counts,
{
}

/// The honey bottles ("beer") in inventory slots: each slot as whether it holds honey
/// bottles and how many items it holds.
pub open spec fn beer_in(slots: Seq<(bool, i32)>) -> int
    decreases slots.len(),
{
    if slots.len() == 0 {
        0
    } else {
        let s = slots.last();
        beer_in(slots.drop_last()) + if s.0 && s.1 > 0 { s.1 as int } else { 0 }
    }
}

/// The number of honey bottles in the inventory (negative counts taken as none).
pub fn beer_count(slots: &Vec<(bool, i32)>) -> (r: u32)
    requires
        beer_in(slots@) <= u32::MAX,
    ensures
        r == beer_in(slots@),
{
    let mut total: u32 = 0;
    let mut i: usize = 0;
    while i < slots.len()
        invariant
            i <= slots@.len(),
            total == beer_in(slots@.subrange(0, i as int)),
            beer_in(slots@) <= u32::MAX,
        decreases slots@.len() - i,
    {
        proof {
            assert(slots@.subrange(0, i + 1).drop_last() =~= slots@.subrange(0, i as int));
            lemma_beer_in_prefix(slots@, i + 1);
        }
        let (honey, count) = slots[i];
        if honey && count > 0 {
            total = total + count as u32;
        }
        i = i + 1;
    }
    proof {
        assert(slots@.subrange(0, slots@.len() as int) =~= slots@);
    }
    total
}

/// The beer in a prefix of the slots is at most the beer in all of them.
proof fn lemma_beer_in_prefix(slots: Seq<(bool, i32)>, n: int)
    requires
        0 <= n <= slots.len(),
    ensures
        beer_in(slots.subrange(0, n)) <= beer_in(slots),
    decreases slots.len() - n,
{
    if n < slots.len() {
        lemma_beer_in_prefix(slots, n + 1);
        assert(slots.subrange(0, n + 1).drop_last() =~= slots.subrange(0, n));
    } else {
        assert(slots.subrange(0, n) =~= slots);
    }
}

/// The first inventory slot holding honey bottles (`honey[i]`: slot `i` does).
pub fn find_beer_slot(honey: &Vec<bool>) -> (r: Option<u16>)
    requires
        honey@.len() <= 65536,
    ensures
        match r {
            Some(i) => i < honey@.len() && honey@[i as int] && forall|j: int| 0 <= j < i ==> !#[trigger] honey@[j],
            None => forall|j: int| 0 <= j < honey@.len() ==> !#[trigger] honey@[j],
        },
{
    let mut i: usize = 0;
    while i < honey.len()
        invariant
            i <= honey@.len(),
            honey@.len() <= 65536,
            forall|j: int| 0 <= j < i ==> !#[trigger] honey@[j],
        decreases honey@.len() - i,
    {
        if honey[i] {
            return Some(i as u16);
        }
        i = i + 1;
    }
    None
}

/// Only the steps that give a beer throw one: giving throws exactly once, as the second
/// to last step, after a nod and (where configured) a jump, and always faces the user
/// first; denying and urging to come closer throw nothing and end by telling the user.
pub proof fn law_only_givers_throw(
    jump: bool,
    closer: Option<Seq<char>>,
    denied: Option<Seq<char>>,
    out_of_beer: Option<Seq<char>>,
    gave: Option<Seq<char>>,
    gave_last: Option<Seq<char>>,
)
    ensures
        ({
            let g = give_steps(jump, denied, out_of_beer, gave, gave_last);
            &&& g.len() >= 2
            &&& g[g.len() - 2] == BeerStepView::RecheckAndThrow(denied, out_of_beer, gave, gave_last)
            &&& forall|k: int| 0 <= k < g.len() - 2 ==> !(#[trigger] g[k] is RecheckAndThrow)
            &&& g[1] == BeerStepView::Look(BeerLook::AtUser)
            &&& g[3] == BeerStepView::Look(BeerLook::NodDown)
            &&& (exists|k: int| 0 <= k < g.len() && #[trigger] g[k] == BeerStepView::Jump) == jump
        }),
        forall|k: int| 0 <= k < deny_steps(denied).len() ==> !(#[trigger] deny_steps(denied)[k] is RecheckAndThrow),
        forall|k: int| 0 <= k < come_closer_steps(closer).len() ==> !(#[trigger] come_closer_steps(closer)[k] is RecheckAndThrow),
        deny_steps(denied)[deny_steps(denied).len() - 2] == BeerStepView::Tell(denied),
        come_closer_steps(closer)[come_closer_steps(closer).len() - 2] == BeerStepView::Tell(closer),
{
    let g = give_steps(jump, denied, out_of_beer, gave, gave_last);
    let head = seq![
        BeerStepView::DelayTicks(4), BeerStepView::Look(BeerLook::AtUser),
        BeerStepView::DelayTicks(8), BeerStepView::Look(BeerLook::NodDown),
        BeerStepView::DelayTicks(4), BeerStepView::Look(BeerLook::AtUser),
        BeerStepView::DelayTicks(8)
    ];
    let mid: Seq<BeerStepView> = if jump { seq![BeerStepView::Jump, BeerStepView::DelayTicks(4)] } else { Seq::empty() };
    assert(g == head + mid + seq![BeerStepView::RecheckAndThrow(denied, out_of_beer, gave, gave_last), BeerStepView::DelayTicks(8)]);
    assert forall|k: int| 0 <= k < g.len() - 2 implies !(#[trigger] g[k] is RecheckAndThrow) by {
        if k < 7 {
            assert(g[k] == head[k]);
        } else {
            assert(g[k] == mid[k - 7]);
        }
    }
    if jump {
        assert(g[7] == BeerStepView::Jump);
    } else {
        assert forall|k: int| 0 <= k < g.len() implies #[trigger] g[k] != BeerStepView::Jump by {
            if k < 7 {
                assert(g[k] == head[k]);
            }
        }
    }
}

} // verus!
