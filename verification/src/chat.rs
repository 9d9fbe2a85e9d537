//! Chat: queued messages and commands, direct message detection and anti-spam suffixes.

use vstd::prelude::*;
use vstd::string::*;
use crate::text::{lemma_find_from_bounds, lemma_find_from_some, 
    str_eq, starts_with, is_prefix, push_char, find_text, find_from, contains_text, ends_with,
    is_suffix, occurs_at, substring, debug_text, debug_str, join, lemma_join_push,
};
use crate::random::{random_index, random_between};
use std::collections::VecDeque;
use vstd::utf8::{encode_utf8, is_char_boundary};

verus! {

/// Whether a message goes to one player or to public chat.
#[derive(Debug, Copy, Clone, PartialEq, Eq, Structural)]
pub enum InGameMessageKind {
    Direct,
    PublicChat,
}

/// A message for a player.
#[derive(Debug)]
pub struct InGameMessage {
    pub kind: InGameMessageKind,
    pub user: String,
    pub message: String,
}

/// Something to say in game.
#[derive(Debug)]
pub enum ChatAction {
    Message(InGameMessage),
    Command(String),
    Chat(String),
}

/// A chat action with texts as character sequences.
pub enum ActionView {
    Message(InGameMessageKind, Seq<char>, Seq<char>),
    Command(Seq<char>),
    Chat(Seq<char>),
}

impl View for ChatAction {
    type V = ActionView;

    open spec fn view(&self) -> ActionView {
        match self {
            ChatAction::Message(m) => ActionView::Message(m.kind, m.user@, m.message@),
            ChatAction::Command(c) => ActionView::Command(c@),
            ChatAction::Chat(c) => ActionView::Chat(c@),
        }
    }
}

/// The log line for an action (its `Display` text).
pub open spec fn spec_describe_action(a: ActionView) -> Seq<char> {
    match a {
        ActionView::Message(InGameMessageKind::Direct, user, message) =>
            "Direct message to "@ + debug_str(user) + ": "@ + debug_str(message),
        ActionView::Message(InGameMessageKind::PublicChat, user, message) =>
            "Message to "@ + debug_str(user) + " via public chat: "@ + debug_str(message),
        ActionView::Command(c) => "Command: "@ + debug_str(c),
        ActionView::Chat(c) => "Chat message: "@ + debug_str(c),
    }
}

impl ChatAction {
    /// The log line for this action.
    pub fn describe(&self) -> (r: String)
        ensures
            r@ == spec_describe_action(self@),
    {
        match self {
            ChatAction::Message(m) => {
                let mut r = match m.kind {
                    InGameMessageKind::Direct => String::from_str("Direct message to "),
                    InGameMessageKind::PublicChat => String::from_str("Message to "),
                };
                let user = debug_text(m.user.as_str());
                r.append(user.as_str());
                match m.kind {
                    InGameMessageKind::Direct => r.append(": "),
                    InGameMessageKind::PublicChat => r.append(" via public chat: "),
                }
                let message = debug_text(m.message.as_str());
                r.append(message.as_str());
                r
            },
            ChatAction::Command(c) => {
                let mut r = String::from_str("Command: ");
                let text = debug_text(c.as_str());
                r.append(text.as_str());
                r
            },
            ChatAction::Chat(c) => {
                let mut r = String::from_str("Chat message: ");
                let text = debug_text(c.as_str());
                r.append(text.as_str());
                r
            },
        }
    }
}

/// The action for a line typed for chat: a command when it starts with `/`.
pub open spec fn spec_chat_action(text: Seq<char>) -> ActionView {
    if is_prefix("/"@, text) { ActionView::Command(text) } else { ActionView::Chat(text) }
}

/// Queued chat actions and the allowance for sending them.
#[derive(Debug)]
pub struct ChatModule {
    pub queue: VecDeque<ChatAction>,
    /// Actions that may still be sent; one is regained with each time update, up to 9.
    pub available_actions: u32,
    pub last_dm_from: Option<String>,
    pub last_anti_spam_word_count: u32,
}

/// The actions of a queue.
pub open spec fn queue_view(q: Seq<ChatAction>) -> Seq<ActionView> {
    q.map_values(|a: ChatAction| a@)
}

/// One random lowercase letter.
fn random_letter() -> (c: char)
    ensures
        'a' <= c <= 'z',
{
    let i = random_index(26);
    let b: u8 = 97 + i as u8;
    b as char
}

/// Whether a text is `count` words of `len` lowercase letters separated by spaces.
pub open spec fn is_word_block(s: Seq<char>, count: nat, len: nat) -> bool {
    exists|words: Seq<Seq<char>>| #[trigger] join(words, " "@) == s && words.len() == count
        && forall|k: int| 0 <= k < words.len() ==> #[trigger] words[k].len() == len
            && forall|j: int| 0 <= j < len ==> 'a' <= #[trigger] words[k][j] <= 'z'
}

/// An anti-spam suffix of `count` words: 2 to 4 letters each for more than 3 words, else 4 to 6.
pub open spec fn is_anti_spam_suffix(s: Seq<char>, count: u32) -> bool {
    exists|len: nat| #![trigger is_word_block(s, count as nat, len)]
        (if count > 3 { 2 <= len <= 4 } else { 4 <= len <= 6 }) && is_word_block(s, count as nat, len)
}

/// A command without its leading `/`, if it has one.
pub open spec fn command_without_slash(c: Seq<char>) -> Seq<char> {
    if is_prefix("/"@, c) { c.drop_first() } else { c }
}

/// The bytes of a command packet: the UTF-8 encoding of the command without its leading
/// `/`, cut to its first 255 bytes.
pub open spec fn command_packet_bytes(c: Seq<char>) -> Seq<u8> {
    let b = encode_utf8(command_without_slash(c));
    if b.len() > 255 { b.take(255) } else { b }
}

/// The text sent in a command packet: the command without its leading `/`, cut to its
/// first 255 bytes, which must end on a character boundary.
pub fn command_packet_text(command: &str) -> (r: String)
    requires
        encode_utf8(command_without_slash(command@)).len() > 255
            ==> is_char_boundary(encode_utf8(command_without_slash(command@)), 255),
    ensures
        encode_utf8(r@) == command_packet_bytes(command@),
{
    proof {
        reveal_strlit("/");
    }
    let stripped = if starts_with(command, "/") {
        substring(command, 1, command.unicode_len())
    } else {
        String::from_str(command)
    };
    proof {
        assert(stripped@ =~= command_without_slash(command@));
    }
    let s = stripped.as_str();
    let n = s.as_bytes().len();
    if n > 255 {
        let (head, _) = s.split_at(255);
        let r = String::from_str(head);
        proof {
            assert(encode_utf8(r@) =~= encode_utf8(stripped@).take(255));
        }
        r
    } else {
        stripped
    }
}

/// The text of a direct message: the message, followed with anti-spam on by ` | ` and a suffix
/// of `count` words.
pub open spec fn is_dm_text(text: Seq<char>, message: Seq<char>, anti_anti_spam: bool, count: u32) -> bool {
    if anti_anti_spam {
        exists|suffix: Seq<char>| #![trigger is_anti_spam_suffix(suffix, count)]
            text == message + " | "@ + suffix && is_anti_spam_suffix(suffix, count)
    } else {
        text == message
    }
}

/// Word counts allowed for the next anti-spam suffix: 1 to 6, except within one of the last count.
pub open spec fn allowed_word_count(v: int, last: u32) -> bool {
    1 <= v <= 6 && (v - last > 1 || last - v > 1)
}

impl ChatModule {
    /// An empty queue with no actions available until the next reset.
    pub fn new() -> (r: ChatModule)
        ensures
            r.queue@.len() == 0,
            r.available_actions == 0,
            r.last_dm_from is None,
            r.last_anti_spam_word_count == 0,
    {
        ChatModule { queue: VecDeque::new(), available_actions: 0, last_dm_from: None, last_anti_spam_word_count: 0 }
    }

    /// Clears the queue and the last direct message sender; 9 actions are available.
    pub fn reset(&mut self)
        ensures
            final(self).queue@.len() == 0,
            final(self).available_actions == 9,
            final(self).last_dm_from is None,
            final(self).last_anti_spam_word_count == old(self).last_anti_spam_word_count,
    {
        self.available_actions = 9;
        self.queue.clear();
        self.last_dm_from = None;
    }

    /// Queues an action at the end.
    pub fn queue(&mut self, action: ChatAction)
        ensures
            queue_view(final(self).queue@) == queue_view(old(self).queue@).push(action@),
            final(self).available_actions == old(self).available_actions,
            final(self).last_dm_from == old(self).last_dm_from,
            final(self).last_anti_spam_word_count == old(self).last_anti_spam_word_count,
    {
        let ghost a = action@;
        self.queue.push_back(action);
        proof {
            assert(queue_view(self.queue@) =~= queue_view(old(self).queue@).push(a));
        }
    }

    /// Queues a direct message to a player.
    pub fn msg(&mut self, to_user: &str, message: &str)
        ensures
            queue_view(final(self).queue@) == queue_view(old(self).queue@).push(
                ActionView::Message(InGameMessageKind::Direct, to_user@, message@),
            ),
            final(self).available_actions == old(self).available_actions,
            final(self).last_dm_from == old(self).last_dm_from,
            final(self).last_anti_spam_word_count == old(self).last_anti_spam_word_count,
    {
        self.queue(ChatAction::Message(InGameMessage {
            kind: InGameMessageKind::Direct,
            user: String::from_str(to_user),
            message: String::from_str(message),
        }));
    }

    /// Queues a command.
    pub fn cmd(&mut self, command: &str)
        ensures
            queue_view(final(self).queue@) == queue_view(old(self).queue@).push(ActionView::Command(command@)),
            final(self).available_actions == old(self).available_actions,
            final(self).last_dm_from == old(self).last_dm_from,
            final(self).last_anti_spam_word_count == old(self).last_anti_spam_word_count,
    {
        self.queue(ChatAction::Command(String::from_str(command)));
    }

    /// Queues a typed line: as a command when it starts with `/`, else as chat.
    pub fn chat(&mut self, chat: &str)
        ensures
            queue_view(final(self).queue@) == queue_view(old(self).queue@).push(spec_chat_action(chat@)),
            final(self).available_actions == old(self).available_actions,
            final(self).last_dm_from == old(self).last_dm_from,
            final(self).last_anti_spam_word_count == old(self).last_anti_spam_word_count,
    {
        let text = String::from_str(chat);
        if starts_with(chat, "/") {
            self.queue(ChatAction::Command(text));
        } else {
            self.queue(ChatAction::Chat(text));
        }
    }

    /// A time update from the server regains one action, up to 9.
    pub fn on_time_update(&mut self)
        ensures
            final(self).available_actions == if old(self).available_actions < 9 {
                old(self).available_actions + 1
            } else {
                old(self).available_actions as int
            },
            final(self).queue@ == old(self).queue@,
            final(self).last_dm_from == old(self).last_dm_from,
            final(self).last_anti_spam_word_count == old(self).last_anti_spam_word_count,
    {
        if self.available_actions < 9 {
            self.available_actions = self.available_actions + 1;
        }
    }

    /// The next action to send, if one is queued and more than one action is
    /// available (sending uses one up).
    pub fn next_action(&mut self) -> (r: Option<ChatAction>)
        ensures
            final(self).last_dm_from == old(self).last_dm_from,
            final(self).last_anti_spam_word_count == old(self).last_anti_spam_word_count,
            if old(self).queue@.len() > 0 && old(self).available_actions > 1 {
                r matches Some(a) && a@ == old(self).queue@[0]@
                    && queue_view(final(self).queue@) == queue_view(old(self).queue@).drop_first()
                    && final(self).available_actions == old(self).available_actions - 1
            } else {
                r is None && final(self).queue@ == old(self).queue@
                    && final(self).available_actions == old(self).available_actions
            },
    {
        if self.queue.len() == 0 || self.available_actions <= 1 {
            return None;
        }
        self.available_actions = self.available_actions - 1;
        let action = self.queue.pop_front();
        proof {
            assert(queue_view(self.queue@) =~= queue_view(old(self).queue@).drop_first());
        }
        action
    }

    /// Remembers who sent the last direct message.
    pub fn record_dm_sender(&mut self, sender: &str)
        ensures
            final(self).last_dm_from matches Some(s) && s@ == sender@,
            final(self).queue@ == old(self).queue@,
            final(self).available_actions == old(self).available_actions,
            final(self).last_anti_spam_word_count == old(self).last_anti_spam_word_count,
    {
        self.last_dm_from = Some(String::from_str(sender));
    }

    /// A random anti-spam suffix: a word count from 1 to 6 not within one of the last
    /// count (remembered for next time), and that many words of random lowercase
    /// letters, 2 to 4 letters long for more than 3 words, else 4 to 6.
    pub fn anti_spam_suffix(&mut self) -> (r: String)
        ensures
            final(self).queue@ == old(self).queue@,
            final(self).available_actions == old(self).available_actions,
            final(self).last_dm_from == old(self).last_dm_from,
            allowed_word_count(final(self).last_anti_spam_word_count as int, old(self).last_anti_spam_word_count),
            is_anti_spam_suffix(r@, final(self).last_anti_spam_word_count),
    {
        let last = self.last_anti_spam_word_count;
        let mut words: Vec<u32> = Vec::new();
        let mut v: u32 = 1;
        while v <= 6
            invariant
                1 <= v <= 7,
                forall|k: int| 0 <= k < words@.len() ==> allowed_word_count(#[trigger] words@[k] as int, last),
                (v > 1 && allowed_word_count(1, last)) ==> words@.len() > 0,
                (v > 6 && allowed_word_count(6, last)) ==> words@.len() > 0,
            decreases 7 - v,
        {
            let diff: i64 = v as i64 - last as i64;
            if diff > 1 || diff < -1 {
                words.push(v);
            }
            v = v + 1;
        }
        assert(allowed_word_count(1, last) || allowed_word_count(6, last));
        let word_count = words[random_index(words.len())];
        self.last_anti_spam_word_count = word_count;
        let word_len = if word_count > 3 { random_between(2, 4) } else { random_between(4, 6) };
        let mut r = String::new();
        let ghost mut done: Seq<Seq<char>> = Seq::empty();
        let mut i: u32 = 0;
        while i < word_count
            invariant
                i <= word_count,
                done.len() == i,
                r@ == join(done, " "@),
                forall|k: int| 0 <= k < done.len() ==> #[trigger] done[k].len() == word_len
                    && forall|j: int| 0 <= j < word_len ==> 'a' <= #[trigger] done[k][j] <= 'z',
            decreases word_count - i,
        {
            let ghost before = r@;
            if i != 0 {
                push_char(&mut r, ' ');
            }
            proof { reveal_strlit(" "); }
            let ghost word_start = r@;
            let mut w: u32 = 0;
            while w < word_len
                invariant
                    w <= word_len,
                    r@.len() == word_start.len() + w,
                    r@.subrange(0, word_start.len() as int) == word_start,
                    forall|j: int| 0 <= j < w ==> 'a' <= #[trigger] r@[word_start.len() + j] <= 'z',
                decreases word_len - w,
            {
                let c = random_letter();
                let ghost prev = r@;
                push_char(&mut r, c);
                proof {
                    assert(r@.subrange(0, word_start.len() as int) =~= prev.subrange(0, word_start.len() as int));
                }
                w = w + 1;
            }
            let ghost word = r@.subrange(word_start.len() as int, r@.len() as int);
            proof {
                assert forall|j: int| 0 <= j < word_len implies 'a' <= #[trigger] word[j] <= 'z' by {
                    assert(word[j] == r@[word_start.len() + j]);
                }
                assert(r@ =~= word_start + word);
                lemma_join_push(done, " "@, word);
                if i != 0 {
                    assert(word_start =~= before + " "@);
                } else {
                    assert(word_start =~= before);
                }
                done = done.push(word);
                assert(r@ =~= join(done, " "@));
            }
            i = i + 1;
        }
        proof {
            let len = word_len as nat;
            assert(is_word_block(r@, word_count as nat, len));
            assert(self.last_anti_spam_word_count as nat == word_count as nat);
            assert(if word_count > 3 { 2 <= len <= 4 } else { 4 <= len <= 6 });
        }
        r
    }

    /// The command that sends a direct message: the reply command when the user was
    /// the last one to message the bot and a reply command is set, else the message
    /// command with the user; with anti-spam on, a random suffix follows the message.
    pub fn direct_message_command(
        &mut self,
        user: &str,
        message: &str,
        anti_anti_spam: bool,
        reply_command: Option<&str>,
        message_command: &str,
    ) -> (r: String)
        ensures
            final(self).queue@ == old(self).queue@,
            final(self).available_actions == old(self).available_actions,
            final(self).last_dm_from == old(self).last_dm_from,
            if anti_anti_spam {
                allowed_word_count(final(self).last_anti_spam_word_count as int, old(self).last_anti_spam_word_count)
            } else {
                final(self).last_anti_spam_word_count == old(self).last_anti_spam_word_count
            },
            exists|text: Seq<char>| #![trigger is_dm_text(text, message@, anti_anti_spam, final(self).last_anti_spam_word_count)]
                is_dm_text(text, message@, anti_anti_spam, final(self).last_anti_spam_word_count)
                && message_command_text(
                    reply_command_view(reply_command),
                    last_dm_view(old(self).last_dm_from),
                    message_command@,
                    user@,
                    text,
                ) == r@,
    {
        proof {
            reveal_strlit(" | ");
            reveal_strlit(" ");
        }
        let mut text = String::from_str(message);
        if anti_anti_spam {
            let suffix = self.anti_spam_suffix();
            text.append(" | ");
            text.append(suffix.as_str());
            assert(is_dm_text(text@, message@, anti_anti_spam, self.last_anti_spam_word_count));
        }
        assert(is_dm_text(text@, message@, anti_anti_spam, self.last_anti_spam_word_count));
        let use_reply = match (reply_command, &self.last_dm_from) {
            (Some(_), Some(last)) => str_eq(last.as_str(), user),
            _ => false,
        };
        match reply_command {
            Some(reply) if use_reply => {
                let mut r = String::from_str(reply);
                r.append(" ");
                r.append(text.as_str());
                r
            },
            _ => {
                let mut r = String::from_str(message_command);
                r.append(" ");
                r.append(user);
                r.append(" ");
                r.append(text.as_str());
                r
            },
        }
    }

    /// Reads a direct message from a chat line: `[<sender> -> me] <text>` (common
    /// plugins), `<sender> whispers to you: <text>` (vanilla) or
    /// `<sender> whispers: <text><sender>` (the trailing sender name is dropped).
    pub fn parse_direct_message(message: &str) -> (r: Option<(String, String)>)
        ensures
            match spec_parse_dm(message@) {
                Some((sender, content)) => r matches Some((s, c)) && s@ == sender && c@ == content,
                None => r is None,
            },
    {
        proof {
            reveal_strlit("[");
            reveal_strlit("-> me] ");
            reveal_strlit(" whispers to you: ");
            reveal_strlit("whispers to you: ");
            reveal_strlit(" whispers: ");
            reveal_strlit(" ");
        }
        let n = message.unicode_len();
        let first_token_end = match find_text(message, " ", 0) { Some(i) => i, None => n };
        proof { lemma_find_from_bounds(message@, " "@, 0); }
        if starts_with(message, "[") && find_text(message, "-> me] ", 0).is_some() {
            proof {
                if first_token_end == 0 {
                    assert(message@.subrange(0, 1)[0] == " "@[0]);
                }
            }
            let sender = substring(message, 1, first_token_end);
            let content = piece_after_first(message, "-> me] ");
            assert(message@.subrange(0, first_token_end as int).drop_first() =~= message@.subrange(1, first_token_end as int));
            Some((sender, content))
        } else if find_text(message, " whispers to you: ", 0).is_some() {
            proof {
                let m = message@;
                lemma_find_from_bounds(m, " whispers to you: "@, 0);
                let i = find_from(m, " whispers to you: "@, 0)->0;
                assert(m.subrange(i + 1, i + 18) =~= m.subrange(i, i + 18).subrange(1, 18));
                assert(" whispers to you: "@.subrange(1, 18) =~= "whispers to you: "@);
                lemma_find_from_some(m, "whispers to you: "@, 0, i + 1);
            }
            let sender = substring(message, 0, first_token_end);
            let content = piece_after_first(message, "whispers to you: ");
            Some((sender, content))
        } else if find_text(message, " whispers: ", 0).is_some() {
            let sender = substring(message, 0, first_token_end);
            let content = piece_after_first(message, " whispers: ");
            if ends_with(content.as_str(), sender.as_str()) {
                let len = content.unicode_len();
                let cut = sender.unicode_len();
                let shortened = substring(content.as_str(), 0, len - cut);
                Some((sender, shortened))
            } else {
                Some((sender, content))
            }
        } else {
            None
        }
    }

    /// Splits a command text at spaces into the command and its arguments
    /// (the whole text is the command when it holds no space).
    pub fn split_command(content: &str) -> (r: (String, Vec<String>))
        ensures
            r.0@ == split_spaces(content@)[0],
            r.1@.map_values(|a: String| a@) == split_spaces(content@).drop_first(),
    {
        let n = content.unicode_len();
        let mut parts: Vec<String> = Vec::new();
        let mut current = String::new();
        let mut i: usize = 0;
        while i < n
            invariant
                n == content@.len(),
                i <= n,
                parts@.map_values(|p: String| p@).push(current@) == split_spaces(content@.subrange(0, i as int)),
            decreases n - i,
        {
            let c = content.get_char(i);
            let ghost prev = content@.subrange(0, i as int);
            let ghost next = content@.subrange(0, i as int + 1);
            proof {
                assert(next.drop_last() =~= prev);
            }
            if c == ' ' {
                let ghost old_parts = parts@;
                let done = current;
                parts.push(done);
                current = String::new();
                proof {
                    assert(parts@.map_values(|p: String| p@) =~= old_parts.map_values(|p: String| p@).push(done@));
                    assert(parts@.map_values(|p: String| p@).push(current@) =~= split_spaces(next));
                }
            } else {
                let ghost old_current = current@;
                push_char(&mut current, c);
                proof {
                    let before = parts@.map_values(|p: String| p@).push(old_current);
                    assert(parts@.map_values(|p: String| p@).push(current@) =~= before.update(
                        before.len() - 1, before.last().push(c)));
                }
            }
            i = i + 1;
        }
        proof {
            assert(content@.subrange(0, n as int) =~= content@);
        }
        let ghost all = parts@.map_values(|p: String| p@).push(current@);
        if parts.len() == 0 {
            let rest: Vec<String> = Vec::new();
            proof {
                assert(all.drop_first() =~= Seq::<Seq<char>>::empty());
                assert(rest@.map_values(|a: String| a@) =~= Seq::<Seq<char>>::empty());
            }
            return (current, rest);
        }
        let command = parts.remove(0);
        parts.push(current);
        proof {
            assert(parts@.map_values(|a: String| a@) =~= all.drop_first());
        }
        (command, parts)
    }
}

/// The pieces of a text between spaces (`split(' ')`): one more piece than spaces.
pub open spec fn split_spaces(s: Seq<char>) -> Seq<Seq<char>>
    decreases s.len(),
{
    if s.len() == 0 {
        seq![Seq::<char>::empty()]
    } else {
        let parts = split_spaces(s.drop_last());
        if s.last() == ' ' {
            parts.push(Seq::empty())
        } else {
            parts.update(parts.len() - 1, parts.last().push(s.last()))
        }
    }
}

/// The text between the first occurrence of `pat` and the next one (or the end).
pub open spec fn spec_piece_after_first(s: Seq<char>, pat: Seq<char>) -> Seq<char> {
    let start = find_from(s, pat, 0)->0 + pat.len();
    let end = match find_from(s, pat, start) {
        Some(e) => e,
        None => s.len() as int,
    };
    s.subrange(start, end)
}

pub(crate) fn piece_after_first(s: &str, pat: &str) -> (r: String)
    requires
        find_from(s@, pat@, 0) is Some,
    ensures
        r@ == spec_piece_after_first(s@, pat@),
{
    proof { lemma_find_from_bounds(s@, pat@, 0); }
    let n = s.unicode_len();
    let found = find_text(s, pat, 0);
    let first: usize = match found { Some(i) => i, None => 0 };
    assert(first == find_from(s@, pat@, 0)->0);
    let start = first + pat.unicode_len();
    proof { lemma_find_from_bounds(s@, pat@, start as int); }
    let end = match find_text(s, pat, start) { Some(e) => e, None => n };
    substring(s, start, end)
}

/// Nothing found from `from` on when `pat` occurs nowhere from there.
proof fn lemma_find_from_none(s: Seq<char>, pat: Seq<char>, from: int)
    requires
        forall|i: int| from <= i ==> !#[trigger] occurs_at(s, pat, i),
    ensures
        find_from(s, pat, from) is None,
    decreases s.len() + 1 - from,
{
    if !(from < 0 || from + pat.len() > s.len()) {
        lemma_find_from_none(s, pat, from + 1);
    }
}

/// The first occurrence from `from` on is found.
proof fn lemma_find_from_first(s: Seq<char>, pat: Seq<char>, from: int, k: int)
    requires
        0 <= from <= k,
        occurs_at(s, pat, k),
        forall|i: int| from <= i < k ==> !#[trigger] occurs_at(s, pat, i),
    ensures
        find_from(s, pat, from) == Some(k),
    decreases k - from,
{
    if from < k {
        lemma_find_from_first(s, pat, from + 1, k);
    }
}

/// A whisper in the form `<name> whispers: <text>` (used on 2b2t) is a direct message
/// from `<name>`, whose content is `<text>` without a trailing copy of `<name>`. The name
/// is one word that does not start with `[`; the text does not repeat the marker, and
/// the line holds no vanilla ` whispers to you: ` marker.
pub proof fn law_whisper_is_direct_message(name: Seq<char>, text: Seq<char>)
    requires
        name.len() > 0,
        name[0] != '[',
        forall|i: int| 0 <= i < name.len() ==> name[i] != ' ',
        !contains_text(text, " whispers: "@),
        !contains_text(name + " whispers: "@ + text, " whispers to you: "@),
    ensures
        spec_parse_dm(name + " whispers: "@ + text) == Some((
            name,
            if text.len() >= name.len() && text.subrange(text.len() - name.len(), text.len() as int) == name {
                text.subrange(0, text.len() - name.len())
            } else {
                text
            },
        )),
{
    reveal_strlit(" whispers: ");
    reveal_strlit(" ");
    reveal_strlit("[");
    let pat = " whispers: "@;
    let m = name + pat + text;
    let n = name.len() as int;
    assert(m[0] == name[0]);
    assert(!is_prefix("["@, m)) by {
        if is_prefix("["@, m) {
            assert(m.subrange(0, 1)[0] == m[0]);
        }
    }
    assert forall|i: int| 0 <= i < n implies !#[trigger] occurs_at(m, " "@, i) by {
        if occurs_at(m, " "@, i) {
            assert(m.subrange(i, i + 1)[0] == m[i]);
        }
    }
    assert(m.subrange(n, n + 1) =~= " "@);
    lemma_find_from_first(m, " "@, 0, n);
    assert(m.subrange(0, n) =~= name);
    assert forall|i: int| 0 <= i < n implies !#[trigger] occurs_at(m, pat, i) by {
        if occurs_at(m, pat, i) {
            assert(m.subrange(i, i + pat.len())[0] == m[i]);
        }
    }
    assert(m.subrange(n, n + pat.len()) =~= pat);
    lemma_find_from_first(m, pat, 0, n);
    let start = n + pat.len();
    assert forall|i: int| start <= i implies !#[trigger] occurs_at(m, pat, i) by {
        if occurs_at(m, pat, i) {
            assert(text.subrange(i - start, i - start + pat.len()) =~= m.subrange(i, i + pat.len()));
            assert(occurs_at(text, pat, i - start));
            lemma_find_from_some(text, pat, 0, i - start);
        }
    }
    lemma_find_from_none(m, pat, start);
    assert(m.subrange(start, m.len() as int) =~= text);
}

/// A line `[<name> -> me] <text>` (the form common plugins use) is a direct message from
/// `<name>` whose content is `<text>`, for a one-word name and a text that does not
/// repeat the `-> me] ` marker.
pub proof fn law_plugin_message_is_direct_message(name: Seq<char>, text: Seq<char>)
    requires
        forall|i: int| 0 <= i < name.len() ==> name[i] != ' ',
        !contains_text(text, "-> me] "@),
    ensures
        spec_parse_dm("["@ + name + " -> me] "@ + text) == Some((name, text)),
{
    reveal_strlit("[");
    reveal_strlit(" -> me] ");
    reveal_strlit("-> me] ");
    reveal_strlit(" ");
    let pat = "-> me] "@;
    let m = "["@ + name + " -> me] "@ + text;
    let n = name.len() as int;
    assert(m.subrange(0, 1) =~= "["@);
    assert(is_prefix("["@, m));
    assert forall|i: int| 0 <= i < n + 1 implies !#[trigger] occurs_at(m, " "@, i) by {
        if occurs_at(m, " "@, i) {
            assert(m.subrange(i, i + 1)[0] == m[i]);
        }
    }
    assert(m.subrange(n + 1, n + 2) =~= " "@);
    lemma_find_from_first(m, " "@, 0, n + 1);
    assert(m.subrange(0, n + 1).drop_first() =~= name);
    assert forall|i: int| 0 <= i < n + 2 implies !#[trigger] occurs_at(m, pat, i) by {
        if occurs_at(m, pat, i) {
            let w = m.subrange(i, i + 7);
            if i + 2 <= n {
                assert(w[2] == m[i + 2]);
            } else if i == n - 1 {
                assert(w[3] == m[n + 2]);
            } else if i == n {
                assert(w[1] == m[n + 1]);
            } else {
                assert(w[0] == m[n + 1]);
            }
        }
    }
    assert(m.subrange(n + 2, n + 9) =~= pat);
    lemma_find_from_first(m, pat, 0, n + 2);
    let start = n + 9;
    assert forall|i: int| start <= i implies !#[trigger] occurs_at(m, pat, i) by {
        if occurs_at(m, pat, i) {
            assert(text.subrange(i - start, i - start + 7) =~= m.subrange(i, i + 7));
            lemma_find_from_some(text, pat, 0, i - start);
        }
    }
    lemma_find_from_none(m, pat, start);
    assert(m.subrange(start, m.len() as int) =~= text);
}

/// A line `<name> whispers to you: <text>` (vanilla whispers) is a direct message from
/// `<name>` whose content is `<text>`, for a one-word name that does not start with `[`
/// and a text that does not repeat the `whispers to you: ` marker.
pub proof fn law_vanilla_whisper_is_direct_message(name: Seq<char>, text: Seq<char>)
    requires
        name.len() > 0,
        name[0] != '[',
        forall|i: int| 0 <= i < name.len() ==> name[i] != ' ',
        !contains_text(text, "whispers to you: "@),
    ensures
        spec_parse_dm(name + " whispers to you: "@ + text) == Some((name, text)),
{
    reveal_strlit("[");
    reveal_strlit(" whispers to you: ");
    reveal_strlit("whispers to you: ");
    reveal_strlit(" ");
    let full = " whispers to you: "@;
    let pat = "whispers to you: "@;
    let m = name + full + text;
    let n = name.len() as int;
    assert(m[0] == name[0]);
    assert(!is_prefix("["@, m)) by {
        if is_prefix("["@, m) {
            assert(m.subrange(0, 1)[0] == m[0]);
        }
    }
    assert forall|i: int| 0 <= i < n implies !#[trigger] occurs_at(m, " "@, i) by {
        if occurs_at(m, " "@, i) {
            assert(m.subrange(i, i + 1)[0] == m[i]);
        }
    }
    assert(m.subrange(n, n + 1) =~= " "@);
    lemma_find_from_first(m, " "@, 0, n);
    assert(m.subrange(0, n) =~= name);
    assert(m.subrange(n, n + 18) =~= full);
    assert(occurs_at(m, full, n));
    lemma_find_from_some(m, full, 0, n);
    assert forall|i: int| 0 <= i < n + 1 implies !#[trigger] occurs_at(m, pat, i) by {
        if occurs_at(m, pat, i) {
            let w = m.subrange(i, i + 17);
            if i + 8 < n {
                assert(w[8] == m[i + 8]);
            } else if i + 8 == n {
                assert(w[9] == m[n + 1]);
            } else {
                assert(w[n - i] == m[n]);
            }
        }
    }
    assert(m.subrange(n + 1, n + 18) =~= pat);
    lemma_find_from_first(m, pat, 0, n + 1);
    let start = n + 18;
    assert forall|i: int| start <= i implies !#[trigger] occurs_at(m, pat, i) by {
        if occurs_at(m, pat, i) {
            assert(text.subrange(i - start, i - start + 17) =~= m.subrange(i, i + 17));
            lemma_find_from_some(text, pat, 0, i - start);
        }
    }
    lemma_find_from_none(m, pat, start);
    assert(m.subrange(start, m.len() as int) =~= text);
}

/// The sender and text of a direct message in a chat line, if it is one.
pub open spec fn spec_parse_dm(m: Seq<char>) -> Option<(Seq<char>, Seq<char>)> {
    let first_token = m.subrange(0, match find_from(m, " "@, 0) { Some(i) => i, None => m.len() as int });
    if is_prefix("["@, m) && contains_text(m, "-> me] "@) {
        Some((first_token.drop_first(), spec_piece_after_first(m, "-> me] "@)))
    } else if contains_text(m, " whispers to you: "@) {
        Some((first_token, spec_piece_after_first(m, "whispers to you: "@)))
    } else if contains_text(m, " whispers: "@) {
        let content = spec_piece_after_first(m, " whispers: "@);
        if is_suffix(first_token, content) {
            Some((first_token, content.subrange(0, content.len() - first_token.len())))
        } else {
            Some((first_token, content))
        }
    } else {
        None
    }
}

/// View of an optional reply command.
pub open spec fn reply_command_view(o: Option<&str>) -> Option<Seq<char>> {
    match o {
        Some(s) => Some(s@),
        None => None,
    }
}

/// View of the last direct message sender.
pub open spec fn last_dm_view(o: Option<String>) -> Option<Seq<char>> {
    match o {
        Some(s) => Some(s@),
        None => None,
    }
}

/// The command text for a direct message.
pub open spec fn message_command_text(
    reply_command: Option<Seq<char>>,
    last_dm_from: Option<Seq<char>>,
    message_command: Seq<char>,
    user: Seq<char>,
    text: Seq<char>,
) -> Seq<char> {
    match (reply_command, last_dm_from) {
        (Some(reply), Some(last)) if last == user => reply + " "@ + text,
        _ => message_command + " "@ + user + " "@ + text,
    }
}

} // verus!
