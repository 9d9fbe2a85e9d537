use stasis_bot::auto_tpa::{find_uuid, parse_tpa_request, tpa_request_panics, AutoTpaModule};
use stasis_bot::chat::{command_packet_text, ChatAction, ChatModule, InGameMessageKind};
use stasis_bot::commands::{help_text, normalize_command, plan_command, sender_is_admin, CommandAction, CommandContext};
use stasis_bot::text::IntErrorKind;
use stasis_bot::visual_range::PlayerProfile;

fn ctx(admins: &[&str]) -> CommandContext {
    CommandContext {
        admins: admins.iter().map(|s| s.to_string()).collect(),
        stasis_enabled: true,
        tps_enabled: false,
        beertender_enabled: false,
        enable_pos_command: false,
        module_names: vec!["Stasis".to_string(), "Chat".to_string()],
        version: "1.0".to_string(),
    }
}

fn args(a: &[&str]) -> Vec<String> {
    a.iter().map(|s| s.to_string()).collect()
}

#[test]
fn chat_queue_is_first_in_first_out() {
    let mut chat = ChatModule::new();
    chat.reset();
    chat.cmd("first");
    chat.chat("second");
    chat.msg("Steve", "third");
    assert!(matches!(chat.next_action(), Some(ChatAction::Command(c)) if c == "first"));
    assert!(matches!(chat.next_action(), Some(ChatAction::Chat(c)) if c == "second"));
    match chat.next_action() {
        Some(ChatAction::Message(m)) => {
            assert_eq!(m.kind, InGameMessageKind::Direct);
            assert_eq!(m.user, "Steve");
            assert_eq!(m.message, "third");
        }
        _ => panic!("expected a direct message"),
    }
    assert!(chat.next_action().is_none());
}

#[test]
fn chat_keeps_one_action_in_reserve() {
    let mut chat = ChatModule::new();
    chat.cmd("x");
    // Nothing is available before a reset.
    assert!(chat.next_action().is_none());
    chat.on_time_update();
    assert!(chat.next_action().is_none());
    chat.on_time_update();
    assert!(chat.next_action().is_some());
    assert_eq!(chat.available_actions, 1);
    for _ in 0..20 {
        chat.on_time_update();
    }
    assert_eq!(chat.available_actions, 9);
}

#[test]
fn typed_lines_starting_with_slash_are_commands() {
    let mut chat = ChatModule::new();
    chat.reset();
    chat.chat("/help");
    assert!(matches!(chat.next_action(), Some(ChatAction::Command(c)) if c == "/help"));
}

#[test]
fn parses_direct_messages() {
    assert_eq!(
        ChatModule::parse_direct_message("[Steve -> me] !help now"),
        Some(("Steve".to_string(), "!help now".to_string()))
    );
    assert_eq!(
        ChatModule::parse_direct_message("Alex whispers to you: !tp"),
        Some(("Alex".to_string(), "!tp".to_string()))
    );
    assert_eq!(ChatModule::parse_direct_message("<Alex> hello"), None);
}

#[test]
fn splits_commands() {
    let (cmd, rest) = ChatModule::split_command("!say hello  world");
    assert_eq!(cmd, "!say");
    assert_eq!(rest, vec!["hello".to_string(), "".to_string(), "world".to_string()]);
    let (cmd, rest) = ChatModule::split_command("!help");
    assert_eq!(cmd, "!help");
    assert!(rest.is_empty());
}

#[test]
fn direct_message_with_reply_and_without() {
    let mut chat = ChatModule::new();
    let plain = chat.direct_message_command("Steve", "hi", false, Some("r"), "msg");
    assert_eq!(plain, "msg Steve hi");
    chat.record_dm_sender("Steve");
    let reply = chat.direct_message_command("Steve", "hi", false, Some("r"), "msg");
    assert_eq!(reply, "r hi");
}

#[test]
fn anti_spam_suffix_shape() {
    let mut chat = ChatModule::new();
    for _ in 0..50 {
        let last = chat.last_anti_spam_word_count;
        let suffix = chat.anti_spam_suffix();
        let words: Vec<&str> = suffix.split(' ').collect();
        let count = chat.last_anti_spam_word_count as usize;
        assert_eq!(words.len(), count);
        assert!((1..=6).contains(&count));
        assert!((count as i64 - last as i64).abs() > 1);
        for w in words {
            assert!(w.chars().all(|c| c.is_ascii_lowercase()));
            if count > 3 {
                assert!((2..=4).contains(&w.len()));
            } else {
                assert!((4..=6).contains(&w.len()));
            }
        }
    }
}

#[test]
fn normalizes_command_names() {
    assert_eq!(normalize_command("!HeLp"), "help");
    assert_eq!(normalize_command("tp"), "tp");
}

#[test]
fn admin_matching() {
    assert!(sender_is_admin("steve", &args(&["Steve"])));
    assert!(sender_is_admin("anyone", &args(&["*"])));
    assert!(!sender_is_admin("alex", &args(&["Steve"])));
}

#[test]
fn help_lists_commands_in_order() {
    let c = ctx(&[]);
    assert_eq!(help_text(&c, false), "Commands: !about, !help, !modules, !tp");
    let all = CommandContext { tps_enabled: true, beertender_enabled: true, enable_pos_command: true, ..ctx(&["Steve"]) };
    let text = help_text(&all, true);
    let entries: Vec<&str> = text.trim_start_matches("Commands: ").split(", ").collect();
    let mut sorted = entries.clone();
    sorted.sort();
    assert_eq!(entries, sorted);
    assert_eq!(entries.len(), 26);
}

#[test]
fn plans_commands() {
    let c = ctx(&["Steve"]);
    assert!(matches!(plan_command(&c, "Alex", "tp", &args(&[])), Ok(CommandAction::PullPearl)));
    assert!(matches!(plan_command(&c, "Alex", "stop", &args(&[])),
        Ok(CommandAction::Reply(r)) if r == "Sorry, but you need to be specified as an admin to use this command!"));
    assert!(matches!(plan_command(&c, "steve", "stop", &args(&[])), Ok(CommandAction::Stop)));
    assert!(matches!(plan_command(&c, "Steve", "say", &args(&["/spawn", "now"])),
        Ok(CommandAction::SendCommand(s)) if s == "spawn now"));
    assert!(matches!(plan_command(&c, "Steve", "say", &args(&["hi", "all"])),
        Ok(CommandAction::SendChat(s)) if s == "hi all"));
    assert!(matches!(plan_command(&c, "Steve", "nonsense", &args(&[])), Ok(CommandAction::Unknown)));
    assert!(matches!(plan_command(&c, "Alex", "modules", &args(&[])),
        Ok(CommandAction::Reply(r)) if r == "Active modules: Stasis, Chat"));
    assert!(matches!(plan_command(&c, "Alex", "beer", &args(&[])),
        Ok(CommandAction::Reply(r)) if r == "No beertender module active! :(..."));
}

#[test]
fn select_hand_and_drop_slots() {
    let c = ctx(&["*"]);
    assert!(matches!(plan_command(&c, "x", "selecthand", &args(&["3"])),
        Ok(CommandAction::SelectHand { index: 3, select_slot: true, reply }) if reply == "Selected index 3!"));
    assert!(matches!(plan_command(&c, "x", "selecthand", &args(&["0"])),
        Ok(CommandAction::SelectHand { index: 0, select_slot: false, .. })));
    assert!(matches!(plan_command(&c, "x", "selecthand", &args(&["300"])), Err(IntErrorKind::PosOverflow)));
    match plan_command(&c, "x", "drop", &args(&["1", "-2", "z", "4"])) {
        Ok(CommandAction::DropSlots { slots, error, .. }) => {
            assert_eq!(slots, vec![1, -2]);
            assert_eq!(error, Some(IntErrorKind::InvalidDigit));
        }
        _ => panic!("expected drop slots"),
    }
}

#[test]
fn tpa_requests_are_recognized() {
    assert_eq!(parse_tpa_request("Steve has requested to teleport to you."), Some("Steve".to_string()));
    assert_eq!(parse_tpa_request("[Rank] Alex requested to teleport to you."), Some("Alex".to_string()));
    assert_eq!(
        parse_tpa_request("Received teleport request from Notch. Type /tpaccept"),
        Some("Notch".to_string())
    );
    assert_eq!(parse_tpa_request("Received teleport request from"), None);
    assert_eq!(parse_tpa_request("hello"), None);
    assert!(tpa_request_panics("Received teleport request from  x"));
    assert!(!tpa_request_panics("Received teleport request from Notch."));
}

#[test]
fn tpa_answers_by_trust() {
    let tab = vec![
        PlayerProfile { name: "Steve".to_string(), uuid: 1 },
        PlayerProfile { name: "Alex".to_string(), uuid: 2 },
    ];
    assert_eq!(find_uuid(&tab, "STEVE"), Some(1));
    assert_eq!(find_uuid(&tab, "Herobrine"), None);
    let mut tpa = AutoTpaModule::new();
    tpa.trusted.insert(1);
    assert_eq!(
        tpa.answer("Steve has requested to teleport to you.", &tab, "/tpaccept {NAME}", "/tpdeny {NAME}"),
        Some("/tpaccept Steve".to_string())
    );
    assert_eq!(
        tpa.answer("Alex has requested to teleport to you.", &tab, "/tpaccept {NAME}", "/tpdeny"),
        Some("/tpdeny".to_string())
    );
    assert_eq!(tpa.answer("nothing", &tab, "/tpaccept", "/tpdeny"), None);
}

#[test]
fn tps_command_needs_the_tps_module() {
    let off = ctx(&["Steve"]);
    assert!(matches!(plan_command(&off, "Alex", "tps", &args(&[])),
        Ok(CommandAction::Reply(r)) if r == "Sorry, but ServerTps is not active!"));
    let on = CommandContext { tps_enabled: true, ..ctx(&["Steve"]) };
    assert!(matches!(plan_command(&on, "Alex", "tps", &args(&[])), Ok(CommandAction::ReportTps)));
}

#[test]
fn command_packet_drops_one_leading_slash() {
    assert_eq!(command_packet_text("/tp Steve"), "tp Steve");
    assert_eq!(command_packet_text("//x"), "/x");
    assert_eq!(command_packet_text("msg Steve hi"), "msg Steve hi");
    assert_eq!(command_packet_text(""), "");
}

#[test]
fn command_packet_is_cut_to_255_bytes() {
    let long = format!("/{}", "a".repeat(300));
    assert_eq!(command_packet_text(&long), "a".repeat(255));
    let exact = "b".repeat(255);
    assert_eq!(command_packet_text(&exact), exact);
    // Two-byte characters: 255 bytes end after 127 of them and one ASCII letter.
    let mixed = format!("x{}", "é".repeat(200));
    assert_eq!(command_packet_text(&mixed), format!("x{}", "é".repeat(127)));
}
