//! Commands sent to the bot by chat: who may use which, the help text, and what each
//! one asks the bot to do.

use vstd::prelude::*;
use vstd::string::*;
use crate::text::{
    str_eq, starts_with, is_prefix, to_lowercase, lowercase, ascii_lower, eq_ignore_ascii_case, str_eq_ignore_ascii_case, join,
    join_strings, strings_view, substring, parse_int, spec_parse_int, IntErrorKind, dec, push_dec,
};

verus! {

/// What the bot knows when it runs a command.
#[derive(Debug, Clone)]
pub struct CommandContext {
    /// Who may use the admin commands (`*`: everyone).
    pub admins: Vec<String>,
    pub stasis_enabled: bool,
    pub tps_enabled: bool,
    pub beertender_enabled: bool,
    pub enable_pos_command: bool,
    pub module_names: Vec<String>,
    pub version: String,
}

/// What a command asks the bot to do.
#[derive(Debug)]
pub enum CommandAction {
    /// Answer with this text.
    Reply(String),
    /// Not a command: nothing is done.
    Unknown,
    /// Pull the sender's pearl.
    PullPearl,
    /// Walk to the sender.
    ComeHere,
    /// Send this command (without its `/`).
    SendCommand(String),
    /// Send this chat message.
    SendChat(String),
    /// Exit.
    Stop,
    /// Tell where the bot is.
    ReportPos,
    /// Tell the server's ticks per second.
    ReportTps,
    /// Tell the current task.
    ReportTask,
    /// Stop and drop all tasks.
    CancelTasks,
    /// Eat now.
    Eat,
    /// Select this hotbar index (switching the selected slot only for 1 to 8), then
    /// answer `reply`.
    SelectHand { index: u8, select_slot: bool, reply: String },
    /// Drop the item in hand, then answer `reply`.
    DropHand { reply: String },
    /// Drop these inventory slots; where an argument was no slot number, stop there
    /// with that error, else answer `reply`.
    DropSlots { slots: Vec<i16>, error: Option<IntErrorKind>, reply: String },
    DropAll,
    /// Swap the items of main and off hand, then answer `reply`.
    Swap { reply: String },
    PrintInv,
    Equip,
    Unequip,
    RequestBeer,
    TotalBeer,
    /// Tell the beer limit, after setting it to the number given, if one was.
    MaxBeer(Option<u32>),
    ResetBeerFor(String),
    ResetBeerForAll,
    ReloadBeerConfig,
}

/// An action as values.
pub enum ActionView {
    Reply(Seq<char>),
    Unknown,
    PullPearl,
    ComeHere,
    SendCommand(Seq<char>),
    SendChat(Seq<char>),
    Stop,
    ReportPos,
    ReportTps,
    ReportTask,
    CancelTasks,
    Eat,
    SelectHand(u8, bool, Seq<char>),
    DropHand(Seq<char>),
    DropSlots(Seq<i16>, Option<IntErrorKind>, Seq<char>),
    DropAll,
    Swap(Seq<char>),
    PrintInv,
    Equip,
    Unequip,
    RequestBeer,
    TotalBeer,
    MaxBeer(Option<u32>),
    ResetBeerFor(Seq<char>),
    ResetBeerForAll,
    ReloadBeerConfig,
}

impl View for CommandAction {
    type V = ActionView;

    open spec fn view(&self) -> ActionView {
        match self {
            CommandAction::Reply(s) => ActionView::Reply(s@),
            CommandAction::Unknown => ActionView::Unknown,
            CommandAction::PullPearl => ActionView::PullPearl,
            CommandAction::ComeHere => ActionView::ComeHere,
            CommandAction::SendCommand(s) => ActionView::SendCommand(s@),
            CommandAction::SendChat(s) => ActionView::SendChat(s@),
            CommandAction::Stop => ActionView::Stop,
            CommandAction::ReportPos => ActionView::ReportPos,
            CommandAction::ReportTps => ActionView::ReportTps,
            CommandAction::ReportTask => ActionView::ReportTask,
            CommandAction::CancelTasks => ActionView::CancelTasks,
            CommandAction::Eat => ActionView::Eat,
            CommandAction::SelectHand { index, select_slot, reply } => ActionView::SelectHand(*index, *select_slot, reply@),
            CommandAction::DropHand { reply } => ActionView::DropHand(reply@),
            CommandAction::DropSlots { slots, error, reply } => ActionView::DropSlots(slots@, *error, reply@),
            CommandAction::DropAll => ActionView::DropAll,
            CommandAction::Swap { reply } => ActionView::Swap(reply@),
            CommandAction::PrintInv => ActionView::PrintInv,
            CommandAction::Equip => ActionView::Equip,
            CommandAction::Unequip => ActionView::Unequip,
            CommandAction::RequestBeer => ActionView::RequestBeer,
            CommandAction::TotalBeer => ActionView::TotalBeer,
            CommandAction::MaxBeer(m) => ActionView::MaxBeer(*m),
            CommandAction::ResetBeerFor(s) => ActionView::ResetBeerFor(s@),
            CommandAction::ResetBeerForAll => ActionView::ResetBeerForAll,
            CommandAction::ReloadBeerConfig => ActionView::ReloadBeerConfig,
        }
    }
}

/// The answer to a non-admin using an admin command.
pub open spec fn admin_only() -> Seq<char> {
    "Sorry, but you need to be specified as an admin to use this command!"@
}

/// The answer when the beertender is off.
pub open spec fn no_beertender() -> Seq<char> {
    "No beertender module active! :(..."@
}

/// A command's name: without a leading `!`, in lower case.
pub open spec fn spec_normalize(command: Seq<char>) -> Seq<char> {
    lowercase(if is_prefix("!"@, command) { command.drop_first() } else { command })
}

/// Whether a text is all ASCII.
pub open spec fn is_ascii_text(s: Seq<char>) -> bool {
    forall|i: int| 0 <= i < s.len() ==> (#[trigger] s[i] as u32) < 128
}

/// A command's name for ASCII text: without a leading `!`, with A to Z lowered.
pub open spec fn ascii_normalize(command: Seq<char>) -> Seq<char> {
    (if is_prefix("!"@, command) { command.drop_first() } else { command }).map_values(|c: char| ascii_lower(c))
}

/// Whether the sender may use admin commands: an admin entry equals their name without
/// regard to ASCII case, or is `*`.
pub open spec fn spec_is_admin(admins: Seq<Seq<char>>, sender: Seq<char>) -> bool {
    exists|i: int| 0 <= i < admins.len() && (eq_ignore_ascii_case(sender, #[trigger] admins[i]) || admins[i] == "*"@)
}

/// `Some(x)` as a one-element list, `None` as an empty one.
pub open spec fn only_if(c: bool, x: Seq<char>) -> Seq<Seq<char>> {
    if c { seq![x] } else { Seq::empty() }
}

/// The commands the help text lists, in sorted order: everyone's, those of enabled
/// modules, an admin's, and `!admins` where admins are set.
pub open spec fn help_entries(admin: bool, stasis: bool, tps: bool, beer: bool, pos: bool, has_admins: bool) -> Seq<Seq<char>> {
    seq!["!about"@] + only_if(has_admins, "!admins"@) + only_if(beer, "!beer"@) + only_if(admin, "!canceltasks"@)
        + only_if(admin, "!comehere"@) + only_if(admin, "!drop"@) + only_if(admin, "!dropall"@) + only_if(admin, "!eat"@)
        + only_if(admin, "!equip"@) + seq!["!help"@] + only_if(admin && beer, "!maxBeer"@) + seq!["!modules"@]
        + only_if(admin && pos, "!pos"@) + only_if(admin, "!printinv"@) + only_if(admin && beer, "!reloadBeerConfig"@)
        + only_if(admin && beer, "!resetBeerFor"@) + only_if(admin && beer, "!resetBeerForAll"@) + only_if(admin, "!say"@)
        + only_if(admin, "!selecthand"@) + only_if(admin, "!stop"@) + only_if(admin, "!swap"@) + only_if(admin, "!task"@)
        + only_if(admin && beer, "!totalBeer"@) + only_if(stasis, "!tp"@) + only_if(tps, "!tps"@) + only_if(admin, "!unequip"@)
}

/// The context as values: admins, module flags, module names and version.
pub struct ContextView {
    pub admins: Seq<Seq<char>>,
    pub stasis: bool,
    pub tps: bool,
    pub beer: bool,
    pub pos: bool,
    pub modules: Seq<Seq<char>>,
    pub version: Seq<char>,
}

impl View for CommandContext {
    type V = ContextView;

    open spec fn view(&self) -> ContextView {
        ContextView {
            admins: strings_view(self.admins@),
            stasis: self.stasis_enabled,
            tps: self.tps_enabled,
            beer: self.beertender_enabled,
            pos: self.enable_pos_command,
            modules: strings_view(self.module_names@),
            version: self.version@,
        }
    }
}

/// The help text for a sender.
pub open spec fn spec_help_text(ctx: ContextView, admin: bool) -> Seq<char> {
    "Commands: "@ + join(help_entries(admin, ctx.stasis, ctx.tps, ctx.beer, ctx.pos, ctx.admins.len() > 0), ", "@)
}

/// What `drop` with slot arguments does: the slots up to the first argument that is no
/// slot number, and that argument's error.
pub open spec fn drop_slots(args: Seq<Seq<char>>) -> (Seq<i16>, Option<IntErrorKind>)
    decreases args.len(),
{
    if args.len() == 0 {
        (Seq::empty(), None)
    } else {
        let (slots, error) = drop_slots(args.drop_last());
        if error is Some {
            (slots, error)
        } else {
            match spec_parse_int(args.last(), true, -32768, 32767) {
                Ok(v) => (slots.push(v as i16), None),
                Err(e) => (slots, Some(e)),
            }
        }
    }
}

/// What a command asks for (`command` already normalized), or the error of a number
/// argument it could not read.
pub open spec fn spec_command(ctx: ContextView, sender: Seq<char>, command: Seq<char>, args: Seq<Seq<char>>) -> Result<ActionView, IntErrorKind> {
    let admin = spec_is_admin(ctx.admins, sender);
    if command == "help"@ {
        Ok(ActionView::Reply(spec_help_text(ctx, admin)))
    } else if command == "about"@ {
        Ok(ActionView::Reply("Hi, I'm running EnderKill98's azalea-based stasis-bot "@ + ctx.version
            + ": github.com/EnderKill98/stasis-bot"@))
    } else if command == "modules"@ {
        Ok(ActionView::Reply("Active modules: "@ + join(ctx.modules, ", "@)))
    } else if command == "tp"@ {
        Ok(if ctx.stasis { ActionView::PullPearl } else { ActionView::Reply("I'm not allowed to do pearl duties :(..."@) })
    } else if command == "admins"@ {
        Ok(ActionView::Reply("Admins: "@ + join(ctx.admins, ", "@)))
    } else if command == "tps"@ {
        Ok(if ctx.tps { ActionView::ReportTps } else { ActionView::Reply("Sorry, but ServerTps is not active!"@) })
    } else if command == "beer"@ {
        Ok(if ctx.beer { ActionView::RequestBeer } else { ActionView::Reply(no_beertender()) })
    } else if command == "comehere"@ || command == "say"@ || command == "stop"@ || command == "pos"@
        || command == "task"@ || command == "canceltasks"@ || command == "eat"@ || command == "selecthand"@
        || command == "drop"@ || command == "dropall"@ || command == "swap"@ || command == "printinv"@
        || command == "equip"@ || command == "unequip"@ || command == "totalbeer"@ || command == "maxbeer"@
        || command == "resetbeerfor"@ || command == "resetbeerforall"@ || command == "reloadbeerconfig"@ {
        if !admin {
            Ok(ActionView::Reply(admin_only()))
        } else {
            spec_admin_command(ctx, command, args)
        }
    } else {
        Ok(ActionView::Unknown)
    }
}

/// What an admin command asks for, for an admin.
pub open spec fn spec_admin_command(ctx: ContextView, command: Seq<char>, args: Seq<Seq<char>>) -> Result<ActionView, IntErrorKind> {
    if command == "comehere"@ {
        Ok(ActionView::ComeHere)
    } else if command == "say"@ {
        let text = join(args, " "@);
        Ok(if is_prefix("/"@, text) { ActionView::SendCommand(text.drop_first()) } else { ActionView::SendChat(text) })
    } else if command == "stop"@ {
        Ok(ActionView::Stop)
    } else if command == "pos"@ {
        Ok(if ctx.pos {
            ActionView::ReportPos
        } else {
            ActionView::Reply("Sorry, but this command was not enabled. The owner needs to add the flag --enable-pos-command in order to do so!"@)
        })
    } else if command == "task"@ {
        Ok(ActionView::ReportTask)
    } else if command == "canceltasks"@ {
        Ok(ActionView::CancelTasks)
    } else if command == "eat"@ {
        Ok(ActionView::Eat)
    } else if command == "selecthand"@ {
        if args.len() != 1 {
            Ok(ActionView::Reply("Please specify hotbar index (0-8)."@))
        } else {
            match spec_parse_int(args[0], false, 0, 255) {
                Ok(v) => Ok(ActionView::SelectHand(v as u8, 0 < v < 9, "Selected index "@ + dec(v as nat) + "!"@)),
                Err(e) => Err(e),
            }
        }
    } else if command == "drop"@ {
        Ok(if args.len() == 0 {
            ActionView::DropHand("I dropped the item in my hand!"@)
        } else {
            ActionView::DropSlots(drop_slots(args).0, drop_slots(args).1, "Dropped specified indices!"@)
        })
    } else if command == "dropall"@ {
        Ok(ActionView::DropAll)
    } else if command == "swap"@ {
        Ok(ActionView::Swap("Swapped main- and off-hand items!"@))
    } else if command == "printinv"@ {
        Ok(ActionView::PrintInv)
    } else if command == "equip"@ {
        Ok(ActionView::Equip)
    } else if command == "unequip"@ {
        Ok(ActionView::Unequip)
    } else if command == "totalbeer"@ {
        Ok(ActionView::TotalBeer)
    } else if !ctx.beer {
        Ok(ActionView::Reply(no_beertender()))
    } else if command == "maxbeer"@ {
        if args.len() >= 1 {
            match spec_parse_int(args[0], false, 0, u32::MAX as int) {
                Ok(v) => Ok(ActionView::MaxBeer(Some(v as u32))),
                Err(e) => Err(e),
            }
        } else {
            Ok(ActionView::MaxBeer(None))
        }
    } else if command == "resetbeerfor"@ {
        Ok(if args.len() == 0 {
            ActionView::Reply("Specify who's handed out beer count to reset."@)
        } else {
            ActionView::ResetBeerFor(args[0])
        })
    } else if command == "resetbeerforall"@ {
        Ok(ActionView::ResetBeerForAll)
    } else {
        Ok(ActionView::ReloadBeerConfig)
    }
}

/// A command's name: without a leading `!`, in lower case.
pub fn normalize_command(command: &str) -> (r: String)
    ensures
        r@ == spec_normalize(command@),
        is_ascii_text(command@) ==> spec_normalize(command@) == ascii_normalize(command@),
{
    proof {
        reveal_strlit("!");
    }
    if starts_with(command, "!") {
        let n = command.unicode_len();
        let rest = substring(command, 1, n);
        proof {
            assert(command@.subrange(1, n as int) =~= command@.drop_first());
            assert forall|i: int| 0 <= i < rest@.len() implies #[trigger] rest@[i] == command@[i + 1] by {}
        }
        to_lowercase(rest.as_str())
    } else {
        to_lowercase(command)
    }
}

/// Whether the sender may use admin commands.
pub fn sender_is_admin(sender: &str, admins: &Vec<String>) -> (r: bool)
    ensures
        r == spec_is_admin(strings_view(admins@), sender@),
{
    let ghost v = strings_view(admins@);
    let mut i: usize = 0;
    while i < admins.len()
        invariant
            i <= admins@.len(),
            v == strings_view(admins@),
            forall|k: int| 0 <= k < i ==> !(eq_ignore_ascii_case(sender@, #[trigger] v[k]) || v[k] == "*"@),
        decreases admins@.len() - i,
    {
        assert(v[i as int] == admins@[i as int]@);
        if str_eq_ignore_ascii_case(sender, admins[i].as_str()) || str_eq(admins[i].as_str(), "*") {
            return true;
        }
        i = i + 1;
    }
    false
}

fn push_if(list: &mut Vec<String>, cond: bool, item: &str)
    ensures
        strings_view(final(list)@) == strings_view(old(list)@) + only_if(cond, item@),
{
    if cond {
        let ghost before = strings_view(list@);
        list.push(String::from_str(item));
        assert(strings_view(list@) =~= before + only_if(cond, item@));
    } else {
        assert(strings_view(list@) =~= strings_view(old(list)@) + only_if(cond, item@));
    }
}

/// The help text for a sender who is an admin or not.
pub fn help_text(ctx: &CommandContext, admin: bool) -> (r: String)
    ensures
        r@ == spec_help_text(ctx@, admin),
{
    let (stasis, tps, beer, pos, has_admins) =
        (ctx.stasis_enabled, ctx.tps_enabled, ctx.beertender_enabled, ctx.enable_pos_command, ctx.admins.len() > 0);
    let mut l: Vec<String> = Vec::new();
    push_if(&mut l, true, "!about");
    push_if(&mut l, has_admins, "!admins");
    push_if(&mut l, beer, "!beer");
    push_if(&mut l, admin, "!canceltasks");
    push_if(&mut l, admin, "!comehere");
    push_if(&mut l, admin, "!drop");
    push_if(&mut l, admin, "!dropall");
    push_if(&mut l, admin, "!eat");
    push_if(&mut l, admin, "!equip");
    push_if(&mut l, true, "!help");
    push_if(&mut l, admin && beer, "!maxBeer");
    push_if(&mut l, true, "!modules");
    push_if(&mut l, admin && pos, "!pos");
    push_if(&mut l, admin, "!printinv");
    push_if(&mut l, admin && beer, "!reloadBeerConfig");
    push_if(&mut l, admin && beer, "!resetBeerFor");
    push_if(&mut l, admin && beer, "!resetBeerForAll");
    push_if(&mut l, admin, "!say");
    push_if(&mut l, admin, "!selecthand");
    push_if(&mut l, admin, "!stop");
    push_if(&mut l, admin, "!swap");
    push_if(&mut l, admin, "!task");
    push_if(&mut l, admin && beer, "!totalBeer");
    push_if(&mut l, stasis, "!tp");
    push_if(&mut l, tps, "!tps");
    push_if(&mut l, admin, "!unequip");
    assert(strings_view(l@) =~= help_entries(admin, stasis, tps, beer, pos, has_admins));
    let mut r = String::from_str("Commands: ");
    let joined = join_strings(&l, ", ");
    r.append(joined.as_str());
    r
}

fn parse_drop_slots(args: &Vec<String>) -> (r: (Vec<i16>, Option<IntErrorKind>))
    ensures
        (r.0@, r.1) == drop_slots(strings_view(args@)),
{
    let ghost v = strings_view(args@);
    let mut slots: Vec<i16> = Vec::new();
    let mut error: Option<IntErrorKind> = None;
    let mut i: usize = 0;
    while i < args.len()
        invariant
            i <= args@.len(),
            v == strings_view(args@),
            (slots@, error) == drop_slots(v.subrange(0, i as int)),
        decreases args@.len() - i,
    {
        proof {
            assert(v.subrange(0, i + 1).drop_last() =~= v.subrange(0, i as int));
            assert(v.subrange(0, i + 1).last() == args@[i as int]@);
        }
        if error.is_none() {
            match parse_int(args[i].as_str(), true, -32768, 32767) {
                Ok(value) => {
                    slots.push(value as i16);
                },
                Err(e) => {
                    error = Some(e);
                },
            }
        }
        i = i + 1;
    }
    assert(v.subrange(0, v.len() as int) =~= v);
    (slots, error)
}

/// What `command` from `sender` with `args` asks the bot to do (see `spec_command`),
/// or the error of a number argument it could not read.
pub fn plan_command(ctx: &CommandContext, sender: &str, command: &str, args: &Vec<String>) -> (r: Result<CommandAction, IntErrorKind>)
    ensures
        is_ascii_text(command@) ==> spec_normalize(command@) == ascii_normalize(command@),
        match spec_command(ctx@, sender@, spec_normalize(command@), strings_view(args@)) {
            Ok(a) => r matches Ok(action) && action@ == a,
            Err(e) => r == Err::<CommandAction, IntErrorKind>(e),
        },
{
    let name = normalize_command(command);
    let c = name.as_str();
    let admin = sender_is_admin(sender, &ctx.admins);
    if str_eq(c, "help") {
        return Ok(CommandAction::Reply(help_text(ctx, admin)));
    } else if str_eq(c, "about") {
        let mut r = String::from_str("Hi, I'm running EnderKill98's azalea-based stasis-bot ");
        r.append(ctx.version.as_str());
        r.append(": github.com/EnderKill98/stasis-bot");
        return Ok(CommandAction::Reply(r));
    } else if str_eq(c, "modules") {
        let mut r = String::from_str("Active modules: ");
        let joined = join_strings(&ctx.module_names, ", ");
        r.append(joined.as_str());
        return Ok(CommandAction::Reply(r));
    } else if str_eq(c, "tp") {
        return Ok(if ctx.stasis_enabled {
            CommandAction::PullPearl
        } else {
            CommandAction::Reply(String::from_str("I'm not allowed to do pearl duties :(..."))
        });
    } else if str_eq(c, "admins") {
        let mut r = String::from_str("Admins: ");
        let joined = join_strings(&ctx.admins, ", ");
        r.append(joined.as_str());
        return Ok(CommandAction::Reply(r));
    } else if str_eq(c, "tps") {
        return Ok(if ctx.tps_enabled {
            CommandAction::ReportTps
        } else {
            CommandAction::Reply(String::from_str("Sorry, but ServerTps is not active!"))
        });
    } else if str_eq(c, "beer") {
        return Ok(if ctx.beertender_enabled {
            CommandAction::RequestBeer
        } else {
            CommandAction::Reply(String::from_str("No beertender module active! :(..."))
        });
    }
    let is_admin_command = str_eq(c, "comehere") || str_eq(c, "say") || str_eq(c, "stop") || str_eq(c, "pos")
        || str_eq(c, "task") || str_eq(c, "canceltasks") || str_eq(c, "eat") || str_eq(c, "selecthand")
        || str_eq(c, "drop") || str_eq(c, "dropall") || str_eq(c, "swap") || str_eq(c, "printinv")
        || str_eq(c, "equip") || str_eq(c, "unequip") || str_eq(c, "totalbeer") || str_eq(c, "maxbeer")
        || str_eq(c, "resetbeerfor") || str_eq(c, "resetbeerforall") || str_eq(c, "reloadbeerconfig");
    if !is_admin_command {
        return Ok(CommandAction::Unknown);
    }
    if !admin {
        return Ok(CommandAction::Reply(String::from_str(
            "Sorry, but you need to be specified as an admin to use this command!",
        )));
    }
    admin_command(ctx, c, args)
}

fn admin_command(ctx: &CommandContext, c: &str, args: &Vec<String>) -> (r: Result<CommandAction, IntErrorKind>)
    ensures
        match spec_admin_command(ctx@, c@, strings_view(args@)) {
            Ok(a) => r matches Ok(action) && action@ == a,
            Err(e) => r == Err::<CommandAction, IntErrorKind>(e),
        },
{
    proof {
        reveal_strlit("/");
    }
    if str_eq(c, "comehere") {
        Ok(CommandAction::ComeHere)
    } else if str_eq(c, "say") {
        let text = join_strings(args, " ");
        if starts_with(text.as_str(), "/") {
            let n = text.unicode_len();
            let rest = substring(text.as_str(), 1, n);
            assert(text@.subrange(1, n as int) =~= text@.drop_first());
            Ok(CommandAction::SendCommand(rest))
        } else {
            Ok(CommandAction::SendChat(text))
        }
    } else if str_eq(c, "stop") {
        Ok(CommandAction::Stop)
    } else if str_eq(c, "pos") {
        Ok(if ctx.enable_pos_command {
            CommandAction::ReportPos
        } else {
            CommandAction::Reply(String::from_str(
                "Sorry, but this command was not enabled. The owner needs to add the flag --enable-pos-command in order to do so!",
            ))
        })
    } else if str_eq(c, "task") {
        Ok(CommandAction::ReportTask)
    } else if str_eq(c, "canceltasks") {
        Ok(CommandAction::CancelTasks)
    } else if str_eq(c, "eat") {
        Ok(CommandAction::Eat)
    } else if str_eq(c, "selecthand") {
        if args.len() != 1 {
            Ok(CommandAction::Reply(String::from_str("Please specify hotbar index (0-8).")))
        } else {
            assert(strings_view(args@)[0] == args@[0]@);
            match parse_int(args[0].as_str(), false, 0, 255) {
                Ok(v) => {
                    let index = v as u8;
                    let mut reply = String::from_str("Selected index ");
                    push_dec(&mut reply, v as u64);
                    reply.append("!");
                    Ok(CommandAction::SelectHand { index, select_slot: 0 < v && v < 9, reply })
                },
                Err(e) => Err(e),
            }
        }
    } else if str_eq(c, "drop") {
        if args.len() == 0 {
            Ok(CommandAction::DropHand { reply: String::from_str("I dropped the item in my hand!") })
        } else {
            let (slots, error) = parse_drop_slots(args);
            Ok(CommandAction::DropSlots { slots, error, reply: String::from_str("Dropped specified indices!") })
        }
    } else if str_eq(c, "dropall") {
        Ok(CommandAction::DropAll)
    } else if str_eq(c, "swap") {
        Ok(CommandAction::Swap { reply: String::from_str("Swapped main- and off-hand items!") })
    } else if str_eq(c, "printinv") {
        Ok(CommandAction::PrintInv)
    } else if str_eq(c, "equip") {
        Ok(CommandAction::Equip)
    } else if str_eq(c, "unequip") {
        Ok(CommandAction::Unequip)
    } else if str_eq(c, "totalbeer") {
        Ok(CommandAction::TotalBeer)
    } else if !ctx.beertender_enabled {
        Ok(CommandAction::Reply(String::from_str("No beertender module active! :(...")))
    } else if str_eq(c, "maxbeer") {
        if args.len() >= 1 {
            assert(strings_view(args@)[0] == args@[0]@);
            match parse_int(args[0].as_str(), false, 0, 4294967295) {
                Ok(v) => Ok(CommandAction::MaxBeer(Some(v as u32))),
                Err(e) => Err(e),
            }
        } else {
            Ok(CommandAction::MaxBeer(None))
        }
    } else if str_eq(c, "resetbeerfor") {
        if args.len() == 0 {
            Ok(CommandAction::Reply(String::from_str("Specify who's handed out beer count to reset.")))
        } else {
            assert(strings_view(args@)[0] == args@[0]@);
            Ok(CommandAction::ResetBeerFor(String::from_str(args[0].as_str())))
        }
    } else if str_eq(c, "resetbeerforall") {
        Ok(CommandAction::ResetBeerForAll)
    } else {
        Ok(CommandAction::ReloadBeerConfig)
    }
}


/// Whether text `a` sorts before text `b` (character by character; a proper prefix
/// first), as `str`'s ordering sorts ASCII text.
pub open spec fn text_lt(a: Seq<char>, b: Seq<char>) -> bool
    decreases a.len(),
{
    if a.len() == 0 {
        b.len() > 0
    } else if b.len() == 0 {
        false
    } else if a[0] != b[0] {
        a[0] < b[0]
    } else {
        text_lt(a.drop_first(), b.drop_first())
    }
}

/// Whether each text sorts before all texts after it.
pub open spec fn sorted_texts(s: Seq<Seq<char>>) -> bool {
    forall|i: int, j: int| 0 <= i < j < s.len() ==> text_lt(#[trigger] s[i], #[trigger] s[j])
}

/// Every command the help text can list, in the order it lists them.
pub open spec fn all_help_commands() -> Seq<Seq<char>> {
    seq![
        "!about"@,
        "!admins"@,
        "!beer"@,
        "!canceltasks"@,
        "!comehere"@,
        "!drop"@,
        "!dropall"@,
        "!eat"@,
        "!equip"@,
        "!help"@,
        "!maxBeer"@,
        "!modules"@,
        "!pos"@,
        "!printinv"@,
        "!reloadBeerConfig"@,
        "!resetBeerFor"@,
        "!resetBeerForAll"@,
        "!say"@,
        "!selecthand"@,
        "!stop"@,
        "!swap"@,
        "!task"@,
        "!totalBeer"@,
        "!tp"@,
        "!tps"@,
        "!unequip"@,
    ]
}

/// Which of `all_help_commands` the help text lists.
pub open spec fn help_flags(admin: bool, stasis: bool, tps: bool, beer: bool, pos: bool, has_admins: bool) -> Seq<bool> {
    seq![
        true,
        has_admins,
        beer,
        admin,
        admin,
        admin,
        admin,
        admin,
        admin,
        true,
        admin && beer,
        true,
        admin && pos,
        admin,
        admin && beer,
        admin && beer,
        admin && beer,
        admin,
        admin,
        admin,
        admin,
        admin,
        admin && beer,
        stasis,
        tps,
        admin,
    ]
}

/// The first `n` of `all` whose flag is set.
pub open spec fn picked(all: Seq<Seq<char>>, flags: Seq<bool>, n: nat) -> Seq<Seq<char>>
    decreases n,
{
    if n == 0 {
        Seq::empty()
    } else {
        picked(all, flags, (n - 1) as nat) + only_if(flags[n - 1], all[n - 1])
    }
}

proof fn lemma_text_lt_trans(a: Seq<char>, b: Seq<char>, c: Seq<char>)
    requires
        text_lt(a, b),
        text_lt(b, c),
    ensures
        text_lt(a, c),
    decreases a.len(),
{
    if a.len() > 0 && b.len() > 0 && c.len() > 0 && a[0] == b[0] && b[0] == c[0] {
        lemma_text_lt_trans(a.drop_first(), b.drop_first(), c.drop_first());
    }
}

proof fn lemma_all_help_commands_adjacent()
    ensures
        forall|k: int| 0 <= k < 25 ==> text_lt(#[trigger] all_help_commands()[k], all_help_commands()[k + 1]),
{
    reveal_strlit("!about");
    reveal_strlit("!admins");
    reveal_strlit("!beer");
    reveal_strlit("!canceltasks");
    reveal_strlit("!comehere");
    reveal_strlit("!drop");
    reveal_strlit("!dropall");
    reveal_strlit("!eat");
    reveal_strlit("!equip");
    reveal_strlit("!help");
    reveal_strlit("!maxBeer");
    reveal_strlit("!modules");
    reveal_strlit("!pos");
    reveal_strlit("!printinv");
    reveal_strlit("!reloadBeerConfig");
    reveal_strlit("!resetBeerFor");
    reveal_strlit("!resetBeerForAll");
    reveal_strlit("!say");
    reveal_strlit("!selecthand");
    reveal_strlit("!stop");
    reveal_strlit("!swap");
    reveal_strlit("!task");
    reveal_strlit("!totalBeer");
    reveal_strlit("!tp");
    reveal_strlit("!tps");
    reveal_strlit("!unequip");
    reveal_with_fuel(text_lt, 18);
    assert(text_lt(all_help_commands()[0], all_help_commands()[1]));
    assert(text_lt(all_help_commands()[1], all_help_commands()[2]));
    assert(text_lt(all_help_commands()[2], all_help_commands()[3]));
    assert(text_lt(all_help_commands()[3], all_help_commands()[4]));
    assert(text_lt(all_help_commands()[4], all_help_commands()[5]));
    assert(text_lt(all_help_commands()[5], all_help_commands()[6]));
    assert(text_lt(all_help_commands()[6], all_help_commands()[7]));
    assert(text_lt(all_help_commands()[7], all_help_commands()[8]));
    assert(text_lt(all_help_commands()[8], all_help_commands()[9]));
    assert(text_lt(all_help_commands()[9], all_help_commands()[10]));
    assert(text_lt(all_help_commands()[10], all_help_commands()[11]));
    assert(text_lt(all_help_commands()[11], all_help_commands()[12]));
    assert(text_lt(all_help_commands()[12], all_help_commands()[13]));
    assert(text_lt(all_help_commands()[13], all_help_commands()[14]));
    assert(text_lt(all_help_commands()[14], all_help_commands()[15]));
    assert(text_lt(all_help_commands()[15], all_help_commands()[16]));
    assert(text_lt(all_help_commands()[16], all_help_commands()[17]));
    assert(text_lt(all_help_commands()[17], all_help_commands()[18]));
    assert(text_lt(all_help_commands()[18], all_help_commands()[19]));
    assert(text_lt(all_help_commands()[19], all_help_commands()[20]));
    assert(text_lt(all_help_commands()[20], all_help_commands()[21]));
    assert(text_lt(all_help_commands()[21], all_help_commands()[22]));
    assert(text_lt(all_help_commands()[22], all_help_commands()[23]));
    assert(text_lt(all_help_commands()[23], all_help_commands()[24]));
    assert(text_lt(all_help_commands()[24], all_help_commands()[25]));
    assert forall|k: int| 0 <= k < 25 implies text_lt(#[trigger] all_help_commands()[k], all_help_commands()[k + 1]) by {
        assert(0 <= k < 25);
    }
}

proof fn lemma_all_help_commands_increasing(i: int, j: int)
    requires
        0 <= i < j < 26,
    ensures
        text_lt(all_help_commands()[i], all_help_commands()[j]),
    decreases j - i,
{
    lemma_all_help_commands_adjacent();
    if j > i + 1 {
        lemma_all_help_commands_increasing(i, j - 1);
        lemma_text_lt_trans(all_help_commands()[i], all_help_commands()[j - 1], all_help_commands()[j]);
    }
}

proof fn lemma_picked_sorted(flags: Seq<bool>, n: nat)
    requires
        n <= 26,
        flags.len() == 26,
    ensures
        sorted_texts(picked(all_help_commands(), flags, n)),
        forall|k: int| 0 <= k < picked(all_help_commands(), flags, n).len() ==> exists|j: int| 0 <= j < n
            && #[trigger] picked(all_help_commands(), flags, n)[k] == all_help_commands()[j],
    decreases n,
{
    let all = all_help_commands();
    if n > 0 {
        let m = (n - 1) as nat;
        lemma_picked_sorted(flags, m);
        let prev = picked(all, flags, m);
        let cur = picked(all, flags, n);
        assert(cur == prev + only_if(flags[m as int], all[m as int]));
        assert forall|k: int| 0 <= k < cur.len() implies exists|j: int| 0 <= j < n && #[trigger] cur[k] == all[j] by {
            if k < prev.len() {
                assert(cur[k] == prev[k]);
                let j = choose|j: int| 0 <= j < m && prev[k] == all[j];
                assert(cur[k] == all[j]);
            } else {
                assert(cur[k] == all[m as int]);
            }
        }
        assert forall|a: int, b: int| 0 <= a < b < cur.len() implies text_lt(#[trigger] cur[a], #[trigger] cur[b]) by {
            if b < prev.len() {
                assert(cur[a] == prev[a] && cur[b] == prev[b]);
            } else {
                assert(cur[b] == all[m as int]);
                assert(cur[a] == prev[a]);
                let j = choose|j: int| 0 <= j < m && prev[a] == all[j];
                lemma_all_help_commands_increasing(j, m as int);
            }
        }
    }
}

#[verifier::spinoff_prover]
#[verifier::rlimit(40)]
proof fn lemma_help_entries_picked(admin: bool, stasis: bool, tps: bool, beer: bool, pos: bool, has_admins: bool)
    ensures
        help_entries(admin, stasis, tps, beer, pos, has_admins)
            == picked(all_help_commands(), help_flags(admin, stasis, tps, beer, pos, has_admins), 26),
{
    reveal_with_fuel(picked, 27);
    assert(help_entries(admin, stasis, tps, beer, pos, has_admins)
        =~= picked(all_help_commands(), help_flags(admin, stasis, tps, beer, pos, has_admins), 26));
}

/// The help text lists its commands in sorted order, whoever asks and whichever
/// modules are on.
pub proof fn law_help_is_sorted(admin: bool, stasis: bool, tps: bool, beer: bool, pos: bool, has_admins: bool)
    ensures
        sorted_texts(help_entries(admin, stasis, tps, beer, pos, has_admins)),
{
    lemma_help_entries_picked(admin, stasis, tps, beer, pos, has_admins);
    lemma_picked_sorted(help_flags(admin, stasis, tps, beer, pos, has_admins), 26);
}

/// The command names told apart by length and first letter.
proof fn lemma_command_names()
    ensures
        "help"@.len() == 4 && "help"@[0] == 'h',
        "about"@.len() == 5 && "about"@[0] == 'a',
        "modules"@.len() == 7 && "modules"@[0] == 'm',
        "tp"@.len() == 2 && "tp"@[0] == 't',
        "admins"@.len() == 6 && "admins"@[0] == 'a',
        "tps"@.len() == 3 && "tps"@[0] == 't',
        "beer"@.len() == 4 && "beer"@[0] == 'b',
        "comehere"@.len() == 8 && "comehere"@[0] == 'c',
        "say"@.len() == 3 && "say"@[0] == 's',
        "stop"@.len() == 4 && "stop"@[0] == 's',
        "pos"@.len() == 3 && "pos"@[0] == 'p',
        "task"@.len() == 4 && "task"@[0] == 't',
        "canceltasks"@.len() == 11 && "canceltasks"@[0] == 'c',
        "eat"@.len() == 3 && "eat"@[0] == 'e',
        "selecthand"@.len() == 10 && "selecthand"@[0] == 's',
        "drop"@.len() == 4 && "drop"@[0] == 'd',
        "dropall"@.len() == 7 && "dropall"@[0] == 'd',
        "swap"@.len() == 4 && "swap"@[0] == 's',
        "printinv"@.len() == 8 && "printinv"@[0] == 'p',
        "equip"@.len() == 5 && "equip"@[0] == 'e',
        "unequip"@.len() == 7 && "unequip"@[0] == 'u',
        "totalbeer"@.len() == 9 && "totalbeer"@[0] == 't',
        "maxbeer"@.len() == 7 && "maxbeer"@[0] == 'm',
        "resetbeerfor"@.len() == 12 && "resetbeerfor"@[0] == 'r',
        "resetbeerforall"@.len() == 15 && "resetbeerforall"@[0] == 'r',
        "reloadbeerconfig"@.len() == 16 && "reloadbeerconfig"@[0] == 'r',
{
    reveal_strlit("help");
    assert("help"@.len() == 4 && "help"@[0] == 'h');
    reveal_strlit("about");
    assert("about"@.len() == 5 && "about"@[0] == 'a');
    reveal_strlit("modules");
    assert("modules"@.len() == 7 && "modules"@[0] == 'm');
    reveal_strlit("tp");
    assert("tp"@.len() == 2 && "tp"@[0] == 't');
    reveal_strlit("admins");
    assert("admins"@.len() == 6 && "admins"@[0] == 'a');
    reveal_strlit("tps");
    assert("tps"@.len() == 3 && "tps"@[0] == 't');
    reveal_strlit("beer");
    assert("beer"@.len() == 4 && "beer"@[0] == 'b');
    reveal_strlit("comehere");
    assert("comehere"@.len() == 8 && "comehere"@[0] == 'c');
    reveal_strlit("say");
    assert("say"@.len() == 3 && "say"@[0] == 's');
    reveal_strlit("stop");
    assert("stop"@.len() == 4 && "stop"@[0] == 's');
    reveal_strlit("pos");
    assert("pos"@.len() == 3 && "pos"@[0] == 'p');
    reveal_strlit("task");
    assert("task"@.len() == 4 && "task"@[0] == 't');
    reveal_strlit("canceltasks");
    assert("canceltasks"@.len() == 11 && "canceltasks"@[0] == 'c');
    reveal_strlit("eat");
    assert("eat"@.len() == 3 && "eat"@[0] == 'e');
    reveal_strlit("selecthand");
    assert("selecthand"@.len() == 10 && "selecthand"@[0] == 's');
    reveal_strlit("drop");
    assert("drop"@.len() == 4 && "drop"@[0] == 'd');
    reveal_strlit("dropall");
    assert("dropall"@.len() == 7 && "dropall"@[0] == 'd');
    reveal_strlit("swap");
    assert("swap"@.len() == 4 && "swap"@[0] == 's');
    reveal_strlit("printinv");
    assert("printinv"@.len() == 8 && "printinv"@[0] == 'p');
    reveal_strlit("equip");
    assert("equip"@.len() == 5 && "equip"@[0] == 'e');
    reveal_strlit("unequip");
    assert("unequip"@.len() == 7 && "unequip"@[0] == 'u');
    reveal_strlit("totalbeer");
    assert("totalbeer"@.len() == 9 && "totalbeer"@[0] == 't');
    reveal_strlit("maxbeer");
    assert("maxbeer"@.len() == 7 && "maxbeer"@[0] == 'm');
    reveal_strlit("resetbeerfor");
    assert("resetbeerfor"@.len() == 12 && "resetbeerfor"@[0] == 'r');
    reveal_strlit("resetbeerforall");
    assert("resetbeerforall"@.len() == 15 && "resetbeerforall"@[0] == 'r');
    reveal_strlit("reloadbeerconfig");
    assert("reloadbeerconfig"@.len() == 16 && "reloadbeerconfig"@[0] == 'r');
}

/// A sender who is not an admin (by name, ignoring ASCII case, or through a `*` entry)
/// can only get a reply, a pearl pull, a TPS report or a beer: every other action needs
/// an admin, and asking for it is answered that an admin is needed. No command of a
/// non-admin fails.
pub proof fn law_non_admins_get_no_admin_actions(
    ctx: ContextView,
    sender: Seq<char>,
    command: Seq<char>,
    args: Seq<Seq<char>>,
)
    requires
        forall|i: int| 0 <= i < ctx.admins.len() ==>
            !eq_ignore_ascii_case(sender, #[trigger] ctx.admins[i]) && ctx.admins[i] != "*"@,
    ensures
        spec_command(ctx, sender, command, args) matches Ok(a) && (a is Reply || a is PullPearl
            || a is ReportTps || a is RequestBeer || a is Unknown),
        (command == "stop"@ || command == "say"@ || command == "comehere"@ || command == "drop"@
            || command == "dropall"@ || command == "canceltasks"@) ==>
            spec_command(ctx, sender, command, args) == Ok::<ActionView, IntErrorKind>(ActionView::Reply(
                "Sorry, but you need to be specified as an admin to use this command!"@)),
{
    lemma_command_names();
}

/// `!tp` pulls the sender's pearl when the stasis module is on, for anyone, whatever the
/// arguments; with it off the bot declines.
pub proof fn law_tp_pulls_for_anyone(ctx: ContextView, sender: Seq<char>, args: Seq<Seq<char>>)
    ensures
        ctx.stasis ==> spec_command(ctx, sender, "tp"@, args) == Ok::<ActionView, IntErrorKind>(ActionView::PullPearl),
        !ctx.stasis ==> spec_command(ctx, sender, "tp"@, args) matches Ok(ActionView::Reply(_)),
{
    reveal_strlit("tp");
    reveal_strlit("help");
    reveal_strlit("about");
    reveal_strlit("modules");
    lemma_command_names();
}

/// An admin's `!say` sends the arguments joined by spaces: as a command (without the
/// `/`) when the text starts with `/`, else as chat.
pub proof fn law_say_sends_text(ctx: ContextView, sender: Seq<char>, args: Seq<Seq<char>>)
    requires
        exists|i: int| 0 <= i < ctx.admins.len() && eq_ignore_ascii_case(sender, #[trigger] ctx.admins[i]),
    ensures
        ({
            let text = join(args, " "@);
            spec_command(ctx, sender, "say"@, args) == Ok::<ActionView, IntErrorKind>(
                if text.len() > 0 && text[0] == '/' { ActionView::SendCommand(text.subrange(1, text.len() as int)) }
                else { ActionView::SendChat(text) })
        }),
{
    reveal_strlit("say");
    reveal_strlit("/");
    reveal_strlit("help");
    reveal_strlit("about");
    reveal_strlit("modules");
    reveal_strlit("tp");
    reveal_strlit("admins");
    reveal_strlit("tps");
    reveal_strlit("beer");
    reveal_strlit("comehere");
    lemma_command_names();
    let text = join(args, " "@);
    if text.len() > 0 && text[0] == '/' {
        assert(text.subrange(0, 1) =~= "/"@);
        assert(text.drop_first() =~= text.subrange(1, text.len() as int));
    } else if text.len() > 0 {
        assert(text.subrange(0, 1)[0] == text[0]);
    }
}

} // verus!
