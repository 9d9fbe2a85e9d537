//! Pulling a stasis chamber: which of a player's chambers is pulled, and the steps the
//! bot takes to trigger it.

use vstd::prelude::*;
use vstd::string::*;
use crate::blockpos::BlockPos;
use crate::text::{dec, push_dec, str_eq};
use crate::stasis::model::{
    StasisConfig, StasisChamberDefinition, ChamberOccupant, DefView, EntryView, TerminalView, EndpointView,
    entries_view, terminals_view,
};
use crate::stasis::chambers::{StasisModule, is_ordered_chambers, defs_view};

verus! {

/// One step of pulling a chamber.
#[derive(Debug)]
pub enum PullStep {
    /// Walk to where `target` can be interacted with.
    PathfindNear { target: BlockPos, description: String },
    /// Right-click a block (flip a trapdoor, press a button).
    AffectBlock(BlockPos),
    /// Open the container block (a lectern).
    OpenContainer(BlockPos),
    /// Click this button of the open container (a lectern page).
    SelectLecternPage { button_id: u32 },
    /// Close the open container.
    CloseInventory,
    /// Wait until the block is no longer powered.
    WaitForUnpower(BlockPos),
    /// Fail (and clear the chamber's occupants, telling `failure_message`) unless one of
    /// these pearls is present, or an occupant of unknown pearl is counted as present.
    CheckAnyPearl { pearl_uuids: Vec<u128>, count_unknown_pearl: bool, failure_message: String },
    /// Expect these pearls to despawn.
    ExpectDespawn(Vec<u128>),
    /// Tell the occupant this.
    Greet(String),
    /// Drop occupants of the chamber that are uncertain (`remove_uncertain_occupants`).
    CleanUncertain,
    /// Wait this many ticks.
    DelayTicks(u32),
    /// Walk back to this position.
    ReturnTo(BlockPos),
}

/// A step as values.
pub enum StepView {
    PathfindNear(BlockPos, Seq<char>),
    AffectBlock(BlockPos),
    OpenContainer(BlockPos),
    SelectLecternPage(u32),
    CloseInventory,
    WaitForUnpower(BlockPos),
    CheckAnyPearl(Seq<u128>, bool, Seq<char>),
    ExpectDespawn(Seq<u128>),
    Greet(Seq<char>),
    CleanUncertain,
    DelayTicks(u32),
    ReturnTo(BlockPos),
}

impl View for PullStep {
    type V = StepView;

    open spec fn view(&self) -> StepView {
        match self {
            PullStep::PathfindNear { target, description } => StepView::PathfindNear(*target, description@),
            PullStep::AffectBlock(p) => StepView::AffectBlock(*p),
            PullStep::OpenContainer(p) => StepView::OpenContainer(*p),
            PullStep::SelectLecternPage { button_id } => StepView::SelectLecternPage(*button_id),
            PullStep::CloseInventory => StepView::CloseInventory,
            PullStep::WaitForUnpower(p) => StepView::WaitForUnpower(*p),
            PullStep::CheckAnyPearl { pearl_uuids, count_unknown_pearl, failure_message } =>
                StepView::CheckAnyPearl(pearl_uuids@, *count_unknown_pearl, failure_message@),
            PullStep::ExpectDespawn(p) => StepView::ExpectDespawn(p@),
            PullStep::Greet(g) => StepView::Greet(g@),
            PullStep::CleanUncertain => StepView::CleanUncertain,
            PullStep::DelayTicks(t) => StepView::DelayTicks(*t),
            PullStep::ReturnTo(p) => StepView::ReturnTo(*p),
        }
    }
}

/// The steps of pulling a chamber: a task group named `name` that walks there
/// (`approach`), then a group that checks and triggers the chamber (`trigger`, its
/// failure not reported), then a walk back to `return_pos`.
#[derive(Debug)]
pub struct PullPlan {
    pub name: String,
    pub approach: Vec<PullStep>,
    pub trigger: Vec<PullStep>,
    pub return_pos: BlockPos,
}

/// Steps as values.
pub open spec fn steps_view(steps: Seq<PullStep>) -> Seq<StepView> {
    steps.map_values(|s: PullStep| s@)
}

/// A plan as values.
pub struct PlanView {
    pub name: Seq<char>,
    pub approach: Seq<StepView>,
    pub trigger: Seq<StepView>,
    pub return_pos: BlockPos,
}

impl View for PullPlan {
    type V = PlanView;

    open spec fn view(&self) -> PlanView {
        PlanView {
            name: self.name@,
            approach: steps_view(self.approach@),
            trigger: steps_view(self.trigger@),
            return_pos: self.return_pos,
        }
    }
}

/// The pearls in the chambers with definition `def`, in order.
pub open spec fn occupying_pearls(chambers: Seq<EntryView>, def: DefView) -> Seq<u128>
    decreases chambers.len(),
{
    if chambers.len() == 0 {
        Seq::empty()
    } else {
        let rest = occupying_pearls(chambers.drop_last(), def);
        if chambers.last().def == def { rest + pearls_of(chambers.last().occupants) } else { rest }
    }
}

/// The known pearls of some occupants, in order.
pub open spec fn pearls_of(occupants: Seq<ChamberOccupant>) -> Seq<u128>
    decreases occupants.len(),
{
    if occupants.len() == 0 {
        Seq::empty()
    } else {
        let rest = pearls_of(occupants.drop_last());
        match occupants.last().pearl_uuid {
            Some(p) => rest.push(p),
            None => rest,
        }
    }
}

/// Whether a chamber with definition `def` holds an occupant whose pearl is unknown.
pub open spec fn has_unknown_pearl(chambers: Seq<EntryView>, def: DefView) -> bool {
    exists|i: int, j: int| 0 <= i < chambers.len() && 0 <= j < chambers[i].occupants.len()
        && chambers[i].def == def && (#[trigger] chambers[i].occupants[j]).pearl_uuid is None
}

/// The last terminal with this id.
pub open spec fn find_terminal(terminals: Seq<TerminalView>, id: Seq<char>) -> Option<TerminalView>
    decreases terminals.len(),
{
    if terminals.len() == 0 {
        None
    } else if terminals.last().id == id {
        Some(terminals.last())
    } else {
        find_terminal(terminals.drop_last(), id)
    }
}

/// What the occupant is told when a chamber held none of its pearls.
pub open spec fn empty_chamber_message(redcoder: bool) -> Seq<char> {
    if redcoder {
        "Sorry, but it seems this redcoder stasis chamber has no pearls in it! I removed it. Try again to pull the next if you got one."@
    } else {
        "Sorry, but it seems this stasis chamber has no pearls in it! I removed it. Try again to pull the next if you got one."@
    }
}

/// Whether the page button of an endpoint index can be computed without overflow.
pub open spec fn button_fits(index: usize) -> bool {
    (index as u32) as int + 101 <= u32::MAX
}

/// Whether a definition's lectern page button can be computed without overflow.
pub open spec fn pull_fits(d: DefView) -> bool {
    match d {
        DefView::RedcoderTrapdoor(_, e) => button_fits(e.index),
        DefView::RedcoderShay(_, e) => button_fits(e.index),
        _ => true,
    }
}

/// Whether pulling `def` picks a page on a lectern: it is a lectern chamber whose
/// terminal is known.
pub open spec fn picks_page(d: DefView, terminals: Seq<TerminalView>) -> bool {
    match d {
        DefView::RedcoderTrapdoor(_, e) => find_terminal(terminals, e.terminal) is Some,
        DefView::RedcoderShay(_, e) => find_terminal(terminals, e.terminal) is Some,
        _ => false,
    }
}

/// The plan for pulling chamber `def` for `occupant` (see `StasisModule::pull_chamber`),
/// or the error told to the occupant.
pub open spec fn spec_pull_plan(
    def: DefView,
    occupant: Seq<char>,
    terminals: Seq<TerminalView>,
    pearls: Seq<u128>,
    unknown_pearl: bool,
    do_reopen_trapdoor: bool,
    closed_trapdoor_ticks: u32,
    security_trapdoor_closed: bool,
    return_pos: BlockPos,
) -> Result<PlanView, Seq<char>> {
    let greet = StepView::Greet("Welcome back, "@ + occupant + "!"@);
    match def {
        DefView::Flippable(trapdoor) | DefView::Secured(_, trapdoor) => {
            let open_security: Seq<StepView> = match def {
                DefView::Secured(security, _) => if security_trapdoor_closed {
                    seq![StepView::AffectBlock(security)]
                } else {
                    Seq::empty()
                },
                _ => Seq::empty(),
            };
            let reopen: Seq<StepView> = if do_reopen_trapdoor {
                seq![StepView::DelayTicks(closed_trapdoor_ticks), StepView::AffectBlock(trapdoor)]
            } else {
                Seq::empty()
            };
            Ok(PlanView {
                name: "Pull "@ + occupant + "'s chamber"@,
                approach: seq![StepView::PathfindNear(trapdoor, "near "@ + occupant + "'s Pearl"@)] + open_security,
                trigger: seq![
                    StepView::CheckAnyPearl(pearls, unknown_pearl, empty_chamber_message(false)),
                    StepView::ExpectDespawn(pearls),
                    StepView::AffectBlock(trapdoor),
                    greet,
                    StepView::CleanUncertain,
                ] + reopen,
                return_pos,
            })
        },
        DefView::RedcoderTrapdoor(_, endpoint) | DefView::RedcoderShay(_, endpoint) => {
            match find_terminal(terminals, endpoint.terminal) {
                None => Err("Skill issue! I can't find details on LecternRedcoderTerminal \""@ + endpoint.terminal + "\"!"@),
                Some(terminal) => Ok(PlanView {
                    name: "Pull "@ + occupant + "'s redcoder chamber ("@ + terminal.id + ", idx: "@
                        + dec(endpoint.index as nat) + ")"@,
                    approach: seq![
                        StepView::PathfindNear(terminal.lectern, "Near Lectern"@),
                        StepView::OpenContainer(terminal.lectern),
                        StepView::SelectLecternPage(((endpoint.index as u32) + 101) as u32),
                        StepView::CloseInventory,
                    ],
                    trigger: seq![
                        StepView::CheckAnyPearl(pearls, unknown_pearl, empty_chamber_message(true)),
                        StepView::ExpectDespawn(pearls),
                        StepView::PathfindNear(terminal.button, "Near Button"@),
                        StepView::AffectBlock(terminal.button),
                        StepView::WaitForUnpower(terminal.button),
                        greet,
                        StepView::CleanUncertain,
                    ],
                    return_pos,
                }),
            }
        },
        DefView::SingleTrigger(_, trigger) | DefView::DoubleTrigger(_, trigger, _) => {
            let again: Seq<StepView> = match def {
                DefView::DoubleTrigger(_, _, delay) => seq![StepView::DelayTicks(delay), StepView::AffectBlock(trigger)],
                _ => Seq::empty(),
            };
            Ok(PlanView {
                name: "Pull "@ + occupant + "'s chamber"@,
                approach: seq![StepView::PathfindNear(trigger, "near trigger Block for "@ + occupant + "'s Chamber"@)],
                trigger: seq![
                    StepView::CheckAnyPearl(pearls, false, empty_chamber_message(false)),
                    StepView::ExpectDespawn(pearls),
                    StepView::AffectBlock(trigger),
                ] + again + seq![greet, StepView::CleanUncertain],
                return_pos,
            })
        },
    }
}

/// Pulling a chamber acts on the chamber's trigger block before greeting the occupant:
/// the trapdoor of a flippable or secured chamber, the trigger block of a trigger
/// chamber, the terminal's button of a lectern chamber. The trigger steps first check for
/// one of the occupant's pearls and expect them to despawn, then right-click that block,
/// and only later say "Welcome back, <occupant>!". A plan exists for every chamber but a
/// lectern chamber whose terminal is unknown.
pub proof fn law_pull_triggers_before_greeting(
    def: DefView,
    occupant: Seq<char>,
    terminals: Seq<TerminalView>,
    pearls: Seq<u128>,
    unknown_pearl: bool,
    do_reopen_trapdoor: bool,
    closed_trapdoor_ticks: u32,
    security_trapdoor_closed: bool,
    return_pos: BlockPos,
)
    ensures
        ({
            let r = spec_pull_plan(def, occupant, terminals, pearls, unknown_pearl, do_reopen_trapdoor,
                closed_trapdoor_ticks, security_trapdoor_closed, return_pos);
            let block: Option<BlockPos> = match def {
                DefView::Flippable(t) => Some(t),
                DefView::Secured(_, t) => Some(t),
                DefView::SingleTrigger(_, t) => Some(t),
                DefView::DoubleTrigger(_, t, _) => Some(t),
                DefView::RedcoderTrapdoor(_, e) => match find_terminal(terminals, e.terminal) {
                    Some(term) => Some(term.button),
                    None => None,
                },
                DefView::RedcoderShay(_, e) => match find_terminal(terminals, e.terminal) {
                    Some(term) => Some(term.button),
                    None => None,
                },
            };
            &&& (r is Ok <==> block is Some)
            &&& r matches Ok(plan) ==> (plan.return_pos == return_pos && plan.trigger.len() >= 2
                && (plan.trigger[0] matches StepView::CheckAnyPearl(ps, _, _) && ps == pearls)
                && plan.trigger[1] == StepView::ExpectDespawn(pearls)
                && exists|a: int, g: int| #![trigger plan.trigger[a], plan.trigger[g]]
                    1 < a < g < plan.trigger.len()
                    && plan.trigger[a] == StepView::AffectBlock(block->Some_0)
                    && plan.trigger[g] == StepView::Greet("Welcome back, "@ + occupant + "!"@))
        }),
{
    let r = spec_pull_plan(def, occupant, terminals, pearls, unknown_pearl, do_reopen_trapdoor,
        closed_trapdoor_ticks, security_trapdoor_closed, return_pos);
    let greet = StepView::Greet("Welcome back, "@ + occupant + "!"@);
    match def {
        DefView::Flippable(t) | DefView::Secured(_, t) => {
            let plan = r->Ok_0;
            let head = seq![
                StepView::CheckAnyPearl(pearls, unknown_pearl, empty_chamber_message(false)),
                StepView::ExpectDespawn(pearls),
                StepView::AffectBlock(t),
                greet,
                StepView::CleanUncertain,
            ];
            assert(plan.trigger.subrange(0, 5) =~= head);
            assert(plan.trigger[2] == head[2] && plan.trigger[3] == head[3]);
        },
        DefView::RedcoderTrapdoor(_, e) | DefView::RedcoderShay(_, e) => {
            if let Some(term) = find_terminal(terminals, e.terminal) {
                let plan = r->Ok_0;
                assert(plan.trigger[3] == StepView::AffectBlock(term.button));
                assert(plan.trigger[5] == greet);
            }
        },
        DefView::SingleTrigger(_, t) => {
            let plan = r->Ok_0;
            assert(plan.trigger[2] == StepView::AffectBlock(t));
            assert(plan.trigger[3] == greet);
        },
        DefView::DoubleTrigger(_, t, _) => {
            let plan = r->Ok_0;
            assert(plan.trigger[2] == StepView::AffectBlock(t));
            assert(plan.trigger[5] == greet);
        },
    }
}

/// Appends a step, keeping the view of the list in step.
fn push_step(steps: &mut Vec<PullStep>, step: PullStep)
    ensures
        steps_view(final(steps)@) == steps_view(old(steps)@).push(step@),
{
    let ghost s = step@;
    steps.push(step);
    assert(steps_view(steps@) =~= steps_view(old(steps)@).push(s));
}

fn concat3(a: &str, b: &str, c: &str) -> (r: String)
    ensures
        r@ == a@ + b@ + c@,
{
    let mut r = String::from_str(a);
    r.append(b);
    r.append(c);
    r
}

fn copy_uuids(v: &Vec<u128>) -> (r: Vec<u128>)
    ensures
        r@ == v@,
{
    let mut r: Vec<u128> = Vec::new();
    let mut i: usize = 0;
    while i < v.len()
        invariant
            i <= v@.len(),
            r@ == v@.subrange(0, i as int),
        decreases v@.len() - i,
    {
        r.push(v[i]);
        i = i + 1;
        assert(r@ =~= v@.subrange(0, i as int));
    }
    assert(r@ =~= v@);
    r
}

impl StasisConfig {
    /// The known pearls in the chambers with this definition, and whether one of their
    /// occupants has no known pearl.
    pub fn occupying_pearls(&self, definition: &StasisChamberDefinition) -> (r: (Vec<u128>, bool))
        ensures
            r.0@ == occupying_pearls(entries_view(self.chambers@), definition@),
            r.1 == has_unknown_pearl(entries_view(self.chambers@), definition@),
    {
        let ghost cs = entries_view(self.chambers@);
        let mut pearls: Vec<u128> = Vec::new();
        let mut unknown = false;
        let mut i: usize = 0;
        while i < self.chambers.len()
            invariant
                i <= self.chambers@.len(),
                cs == entries_view(self.chambers@),
                pearls@ == occupying_pearls(cs.subrange(0, i as int), definition@),
                unknown == exists|a: int, j: int| 0 <= a < i && 0 <= j < cs[a].occupants.len()
                    && cs[a].def == definition@ && (#[trigger] cs[a].occupants[j]).pearl_uuid is None,
            decreases self.chambers@.len() - i,
        {
            proof {
                assert(cs.subrange(0, i + 1).drop_last() =~= cs.subrange(0, i as int));
            }
            let entry = &self.chambers[i];
            assert(cs[i as int] == entry@);
            if entry.definition.same_as(definition) {
                let ghost start = pearls@;
                let mut j: usize = 0;
                while j < entry.occupants.len()
                    invariant
                        i < self.chambers@.len(),
                        cs == entries_view(self.chambers@),
                        entry == &self.chambers@[i as int],
                        cs[i as int] == entry@,
                        j <= entry.occupants@.len(),
                        pearls@ == start + pearls_of(entry.occupants@.subrange(0, j as int)),
                        unknown == ((exists|a: int, k: int| 0 <= a < i && 0 <= k < cs[a].occupants.len()
                            && cs[a].def == definition@ && (#[trigger] cs[a].occupants[k]).pearl_uuid is None)
                            || exists|k: int| 0 <= k < j && (#[trigger] entry.occupants@[k]).pearl_uuid is None),
                    decreases entry.occupants@.len() - j,
                {
                    proof {
                        assert(entry.occupants@.subrange(0, j + 1).drop_last() =~= entry.occupants@.subrange(0, j as int));
                    }
                    match entry.occupants[j].pearl_uuid {
                        Some(p) => {
                            pearls.push(p);
                        },
                        None => {
                            unknown = true;
                        },
                    }
                    proof {
                        assert(pearls@ =~= start + pearls_of(entry.occupants@.subrange(0, j + 1)));
                    }
                    j = j + 1;
                }
                proof {
                    assert(entry.occupants@.subrange(0, entry.occupants@.len() as int) =~= entry.occupants@);
                    assert forall|k: int| 0 <= k < entry.occupants@.len() implies
                        #[trigger] entry.occupants@[k] == cs[i as int].occupants[k] by {}
                }
            }
            i = i + 1;
        }
        proof {
            assert(cs.subrange(0, cs.len() as int) =~= cs);
        }
        (pearls, unknown)
    }

    /// The last terminal with this id.
    pub fn find_terminal(&self, id: &str) -> (r: Option<usize>)
        ensures
            match find_terminal(terminals_view(self.lectern_redcoder_terminals@), id@) {
                Some(t) => r matches Some(i) && i < self.lectern_redcoder_terminals@.len()
                    && self.lectern_redcoder_terminals@[i as int]@ == t,
                None => r is None,
            },
    {
        let ghost ts = terminals_view(self.lectern_redcoder_terminals@);
        let mut i: usize = self.lectern_redcoder_terminals.len();
        assert(ts.subrange(0, i as int) =~= ts);
        while i > 0
            invariant
                i <= self.lectern_redcoder_terminals@.len(),
                ts == terminals_view(self.lectern_redcoder_terminals@),
                find_terminal(ts, id@) == find_terminal(ts.subrange(0, i as int), id@),
            decreases i,
        {
            let ghost sub = ts.subrange(0, i as int);
            assert(sub.drop_last() =~= ts.subrange(0, i - 1));
            assert(sub.last() == self.lectern_redcoder_terminals@[i - 1]@);
            if str_eq(self.lectern_redcoder_terminals[i - 1].id.as_str(), id) {
                return Some(i - 1);
            }
            i = i - 1;
        }
        None
    }
}

impl StasisModule {
    /// The steps of pulling chamber `definition` for `occupant`, or the error to tell
    /// them. `closed_trapdoor_ticks`: how long a reopened trapdoor stays closed;
    /// `security_trapdoor_closed`: the security trapdoor of a secured chamber is seen
    /// closed; `return_pos`: where to walk back to.
    pub fn pull_chamber(
        &self,
        occupant: &str,
        definition: &StasisChamberDefinition,
        closed_trapdoor_ticks: u32,
        security_trapdoor_closed: bool,
        return_pos: BlockPos,
    ) -> (r: Result<PullPlan, String>)
        requires
            picks_page(definition@, terminals_view(self.config.lectern_redcoder_terminals@)) ==> pull_fits(definition@),
        ensures
            match spec_pull_plan(
                definition@,
                occupant@,
                terminals_view(self.config.lectern_redcoder_terminals@),
                occupying_pearls(entries_view(self.config.chambers@), definition@),
                has_unknown_pearl(entries_view(self.config.chambers@), definition@),
                self.do_reopen_trapdoor,
                closed_trapdoor_ticks,
                security_trapdoor_closed,
                return_pos,
            ) {
                Ok(p) => r matches Ok(plan) && plan@ == p,
                Err(e) => r matches Err(m) && m@ == e,
            },
    {
        proof {
            reveal_strlit("Welcome back, ");
            reveal_strlit("!");
        }
        let (pearls, unknown) = self.config.occupying_pearls(definition);
        let greeting = concat3("Welcome back, ", occupant, "!");
        let mut approach: Vec<PullStep> = Vec::new();
        let mut trigger: Vec<PullStep> = Vec::new();
        match definition {
            StasisChamberDefinition::FlippableTrapdoor { trapdoor_pos: trapdoor }
            | StasisChamberDefinition::SecuredFlippableTrapdoor { trigger_trapdoor_pos: trapdoor, .. } => {
                let trapdoor = *trapdoor;
                push_step(&mut approach, PullStep::PathfindNear {
                    target: trapdoor,
                    description: concat3("near ", occupant, "'s Pearl"),
                });
                match definition {
                    StasisChamberDefinition::SecuredFlippableTrapdoor { security_trapdoor_pos, .. } => {
                        if security_trapdoor_closed {
                            push_step(&mut approach, PullStep::AffectBlock(*security_trapdoor_pos));
                        }
                    },
                    _ => {},
                }
                push_step(&mut trigger, PullStep::CheckAnyPearl {
                    pearl_uuids: copy_uuids(&pearls),
                    count_unknown_pearl: unknown,
                    failure_message: String::from_str(
                        "Sorry, but it seems this stasis chamber has no pearls in it! I removed it. Try again to pull the next if you got one.",
                    ),
                });
                push_step(&mut trigger, PullStep::ExpectDespawn(pearls));
                push_step(&mut trigger, PullStep::AffectBlock(trapdoor));
                push_step(&mut trigger, PullStep::Greet(greeting));
                push_step(&mut trigger, PullStep::CleanUncertain);
                if self.do_reopen_trapdoor {
                    push_step(&mut trigger, PullStep::DelayTicks(closed_trapdoor_ticks));
                    push_step(&mut trigger, PullStep::AffectBlock(trapdoor));
                }
                let plan = PullPlan { name: concat3("Pull ", occupant, "'s chamber"), approach, trigger, return_pos };
                proof {
                    assert(plan@.approach =~= spec_pull_plan(definition@, occupant@,
                        terminals_view(self.config.lectern_redcoder_terminals@), pearls@, unknown,
                        self.do_reopen_trapdoor, closed_trapdoor_ticks, security_trapdoor_closed, return_pos)->Ok_0.approach);
                    assert(plan@.trigger =~= spec_pull_plan(definition@, occupant@,
                        terminals_view(self.config.lectern_redcoder_terminals@), pearls@, unknown,
                        self.do_reopen_trapdoor, closed_trapdoor_ticks, security_trapdoor_closed, return_pos)->Ok_0.trigger);
                }
                Ok(plan)
            },
            StasisChamberDefinition::RedcoderTrapdoor { endpoint, .. }
            | StasisChamberDefinition::RedcoderShay { endpoint, .. } => {
                let found = self.config.find_terminal(endpoint.lectern_redcoder_terminal_id.as_str());
                match found {
                    None => {
                        let mut m = String::from_str("Skill issue! I can't find details on LecternRedcoderTerminal \"");
                        m.append(endpoint.lectern_redcoder_terminal_id.as_str());
                        m.append("\"!");
                        Err(m)
                    },
                    Some(t) => {
                        let terminal = &self.config.lectern_redcoder_terminals[t];
                        let mut name = concat3("Pull ", occupant, "'s redcoder chamber (");
                        name.append(terminal.id.as_str());
                        name.append(", idx: ");
                        push_dec(&mut name, endpoint.chamber_index as u64);
                        name.append(")");
                        let page: u32 = endpoint.chamber_index as u32;
                        push_step(&mut approach, PullStep::PathfindNear {
                            target: terminal.lectern,
                            description: String::from_str("Near Lectern"),
                        });
                        push_step(&mut approach, PullStep::OpenContainer(terminal.lectern));
                        push_step(&mut approach, PullStep::SelectLecternPage { button_id: page + 101 });
                        push_step(&mut approach, PullStep::CloseInventory);
                        push_step(&mut trigger, PullStep::CheckAnyPearl {
                            pearl_uuids: copy_uuids(&pearls),
                            count_unknown_pearl: unknown,
                            failure_message: String::from_str(
                                "Sorry, but it seems this redcoder stasis chamber has no pearls in it! I removed it. Try again to pull the next if you got one.",
                            ),
                        });
                        push_step(&mut trigger, PullStep::ExpectDespawn(pearls));
                        push_step(&mut trigger, PullStep::PathfindNear {
                            target: terminal.button,
                            description: String::from_str("Near Button"),
                        });
                        push_step(&mut trigger, PullStep::AffectBlock(terminal.button));
                        push_step(&mut trigger, PullStep::WaitForUnpower(terminal.button));
                        push_step(&mut trigger, PullStep::Greet(greeting));
                        push_step(&mut trigger, PullStep::CleanUncertain);
                        let plan = PullPlan { name, approach, trigger, return_pos };
                        proof {
                            let expected = spec_pull_plan(definition@, occupant@,
                                terminals_view(self.config.lectern_redcoder_terminals@), pearls@, unknown,
                                self.do_reopen_trapdoor, closed_trapdoor_ticks, security_trapdoor_closed, return_pos)->Ok_0;
                            assert(terminals_view(self.config.lectern_redcoder_terminals@)[t as int] == terminal@);
                            assert(plan@.approach =~= expected.approach);
                            assert(plan@.trigger =~= expected.trigger);
                            assert(plan@.name =~= expected.name);
                        }
                        Ok(plan)
                    },
                }
            },
            StasisChamberDefinition::RedstoneSingleTrigger { trigger_pos, .. }
            | StasisChamberDefinition::RedstoneDoubleTrigger { trigger_pos, .. } => {
                let trigger_block = *trigger_pos;
                push_step(&mut approach, PullStep::PathfindNear {
                    target: trigger_block,
                    description: concat3("near trigger Block for ", occupant, "'s Chamber"),
                });
                push_step(&mut trigger, PullStep::CheckAnyPearl {
                    pearl_uuids: copy_uuids(&pearls),
                    count_unknown_pearl: false,
                    failure_message: String::from_str(
                        "Sorry, but it seems this stasis chamber has no pearls in it! I removed it. Try again to pull the next if you got one.",
                    ),
                });
                push_step(&mut trigger, PullStep::ExpectDespawn(pearls));
                push_step(&mut trigger, PullStep::AffectBlock(trigger_block));
                match definition {
                    StasisChamberDefinition::RedstoneDoubleTrigger { delay_ticks, .. } => {
                        push_step(&mut trigger, PullStep::DelayTicks(*delay_ticks));
                        push_step(&mut trigger, PullStep::AffectBlock(trigger_block));
                    },
                    _ => {},
                }
                push_step(&mut trigger, PullStep::Greet(greeting));
                push_step(&mut trigger, PullStep::CleanUncertain);
                let plan = PullPlan { name: concat3("Pull ", occupant, "'s chamber"), approach, trigger, return_pos };
                proof {
                    let expected = spec_pull_plan(definition@, occupant@,
                        terminals_view(self.config.lectern_redcoder_terminals@), pearls@, unknown,
                        self.do_reopen_trapdoor, closed_trapdoor_ticks, security_trapdoor_closed, return_pos)->Ok_0;
                    assert(plan@.approach =~= expected.approach);
                    assert(plan@.trigger =~= expected.trigger);
                }
                Ok(plan)
            },
        }
    }
}

/// What a request to pull a pearl comes to.
#[derive(Debug)]
pub enum PullRequest {
    /// Nothing is pulled; the requester is told this (as an error).
    Refused(String),
    /// This chamber is pulled, and the requester is told `feedback`.
    Pull { definition: StasisChamberDefinition, feedback: String },
}

/// What a requester who owns `count` chambers is told when a pull starts.
pub open spec fn pull_feedback(tasks_pending: bool, count: nat) -> Seq<char> {
    if tasks_pending {
        "Hang on, will walk to your stasis chamber in due time..."@
    } else {
        "Pulling your stasis chamber... (you got "@ + dec(count) + ")"@
    }
}

/// Whether a player owns any chamber.
pub open spec fn owns_any_chamber(chambers: Seq<EntryView>, player: u128) -> bool {
    exists|d: DefView| #[trigger] crate::stasis::chambers::owned_time(chambers, player, d) is Some
}

impl StasisModule {
    /// Which chamber to pull for `username` (`player_uuid`: their uuid, if the tab list
    /// knows it): their chamber at `chamber_index` in newest-first order, or their oldest
    /// one where the index is past the end. `tasks_pending`: the bot is busy.
    pub fn pull_pearl(
        &self,
        username: &str,
        player_uuid: Option<u128>,
        tasks_pending: bool,
        chamber_index: usize,
    ) -> (r: PullRequest)
        ensures
            match player_uuid {
                None => r matches PullRequest::Refused(m) && m@ == "Could not find UUID for username "@ + username@,
                Some(u) => if !owns_any_chamber(entries_view(self.config.chambers@), u) {
                    r matches PullRequest::Refused(m) && m@ == "No chamber found!"@
                } else {
                    r matches PullRequest::Pull { definition, feedback } && exists|ordered: Seq<DefView>| {
                        &&& #[trigger] is_ordered_chambers(entries_view(self.config.chambers@), u, ordered)
                        &&& ordered.len() > 0
                        &&& definition@ == ordered[if chamber_index < ordered.len() { chamber_index as int } else { ordered.len() - 1 }]
                        &&& feedback@ == pull_feedback(tasks_pending, ordered.len())
                    }
                },
            },
    {
        match player_uuid {
            None => {
                let mut m = String::from_str("Could not find UUID for username ");
                m.append(username);
                PullRequest::Refused(m)
            },
            Some(u) => {
                let ordered = self.get_ordered_chambers(u);
                let ghost cs = entries_view(self.config.chambers@);
                if ordered.len() == 0 {
                    proof {
                        assert forall|d: DefView| !(#[trigger] crate::stasis::chambers::owned_time(cs, u, d) is Some) by {
                            if crate::stasis::chambers::owned_time(cs, u, d) is Some {
                                let a = choose|a: int| 0 <= a < defs_view(ordered@).len() && defs_view(ordered@)[a] == d;
                            }
                        }
                    }
                    return PullRequest::Refused(String::from_str("No chamber found!"));
                }
                proof {
                    assert(crate::stasis::chambers::owned_time(cs, u, defs_view(ordered@)[0]) is Some);
                }
                let index = if chamber_index < ordered.len() { chamber_index } else { ordered.len() - 1 };
                let definition = ordered[index].duplicate();
                let feedback = if tasks_pending {
                    String::from_str("Hang on, will walk to your stasis chamber in due time...")
                } else {
                    let mut f = String::from_str("Pulling your stasis chamber... (you got ");
                    push_dec(&mut f, ordered.len() as u64);
                    f.append(")");
                    f
                };
                proof {
                    assert(is_ordered_chambers(cs, u, defs_view(ordered@)));
                }
                PullRequest::Pull { definition, feedback }
            },
        }
    }
}

/// How the server's tick rate stands: whether it seems to hang, and whether its ticks per
/// second are at most 15, 10 and 5.
#[derive(Debug, Copy, Clone, PartialEq, Eq, Structural)]
pub struct TpsLevel {
    pub hanging: bool,
    pub at_most_15: bool,
    pub at_most_10: bool,
    pub at_most_5: bool,
}

/// How many ticks a trapdoor is kept closed when pulling: 30 without a tick rate module;
/// else 12, plus 60 when the server seems to hang, 5 at 15 ticks per second or fewer,
/// 10 more at 10 or fewer and 10 more at 5 or fewer.
pub open spec fn closed_trapdoor_ticks(level: Option<TpsLevel>) -> int {
    match level {
        None => 30,
        Some(l) => 12 + (if l.hanging { 60int } else { 0 }) + (if l.at_most_15 { 5int } else { 0 })
            + (if l.at_most_10 { 10int } else { 0 }) + (if l.at_most_5 { 10int } else { 0 }),
    }
}

/// The ticks to keep a trapdoor closed (see `closed_trapdoor_ticks`).
pub fn recommended_closed_trapdoor_ticks(level: Option<TpsLevel>) -> (r: u32)
    ensures
        r == closed_trapdoor_ticks(level),
{
    match level {
        None => 30,
        Some(l) => {
            let mut ticks: u32 = 12;
            if l.hanging {
                ticks = ticks + 60;
            }
            if l.at_most_15 {
                ticks = ticks + 5;
            }
            if l.at_most_10 {
                ticks = ticks + 10;
            }
            if l.at_most_5 {
                ticks = ticks + 10;
            }
            ticks
        },
    }
}

} // verus!
