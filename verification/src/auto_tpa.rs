//! Answering teleport requests: trusted players are accepted, everyone else denied.

use vstd::prelude::*;
use vstd::string::*;
use std::collections::HashSet;
use crate::text::{
    is_suffix, is_prefix, ends_with, starts_with, substring, eq_ignore_ascii_case,
    str_eq_ignore_ascii_case, replace_text, replace_all,
};
use crate::chat::{ChatModule, split_spaces};
use crate::visual_range::PlayerProfile;

verus! {

/// The text between the last space of `s` and its end (the last piece of `split(' ')`).
pub open spec fn last_piece(s: Seq<char>) -> Seq<char> {
    split_spaces(s).last()
}

/// Whether a teleport request line has the third form and its name piece cannot be cut
/// (it is empty, or it ends in a character that is not ASCII).
pub open spec fn tpa_panics(m: Seq<char>) -> bool {
    &&& !is_suffix(" has requested to teleport to you."@, m)
    &&& !is_suffix(" requested to teleport to you."@, m)
    &&& is_prefix("Received teleport request from "@, m)
    &&& split_spaces(m).len() >= 5
    &&& (split_spaces(m)[4].len() == 0 || split_spaces(m)[4].last() as u32 >= 128)
}

/// Who asks to teleport to the bot in a chat line: the word before
/// " has requested to teleport to you." or " requested to teleport to you.", or, in
/// "Received teleport request from NAME. ...", the fifth word without its last character.
pub open spec fn tpa_requester(m: Seq<char>) -> Option<Seq<char>> {
    let e1 = " has requested to teleport to you."@;
    let e2 = " requested to teleport to you."@;
    if is_suffix(e1, m) {
        Some(last_piece(m.subrange(0, m.len() - e1.len())))
    } else if is_suffix(e2, m) {
        Some(last_piece(m.subrange(0, m.len() - e2.len())))
    } else if is_prefix("Received teleport request from "@, m) && split_spaces(m).len() >= 5 {
        Some(split_spaces(m)[4].drop_last())
    } else {
        None
    }
}

/// The uuid of the first tab list entry whose name equals `name`, ignoring ASCII case.
pub open spec fn lookup_uuid(tab: Seq<PlayerProfile>, name: Seq<char>) -> Option<u128>
    decreases tab.len(),
{
    if tab.len() == 0 {
        None
    } else if eq_ignore_ascii_case(tab[0].name@, name) {
        Some(tab[0].uuid)
    } else {
        lookup_uuid(tab.drop_first(), name)
    }
}

/// The command that answers a request by `name`: the accept command where the
/// requester is trusted, else the deny command, with `{NAME}` replaced by the name.
pub open spec fn tpa_answer(trusted: bool, accept: Seq<char>, deny: Seq<char>, name: Seq<char>) -> Seq<char> {
    replace_all(if trusted { accept } else { deny }, "{NAME}"@, name)
}

/// Every piece list has at least one piece.
pub proof fn lemma_split_spaces_nonempty(s: Seq<char>)
    ensures
        split_spaces(s).len() >= 1,
    decreases s.len(),
{
    if s.len() > 0 {
        lemma_split_spaces_nonempty(s.drop_last());
    }
}

fn last_piece_of(s: &str) -> (r: String)
    ensures
        r@ == last_piece(s@),
{
    let (first, rest) = ChatModule::split_command(s);
    let ghost sp = split_spaces(s@);
    proof {
        lemma_split_spaces_nonempty(s@);
        assert(rest@.map_values(|a: String| a@).len() == rest@.len());
        assert(sp.drop_first().len() == sp.len() - 1);
    }
    if rest.len() == 0 {
        first
    } else {
        let k = rest.len() - 1;
        assert(rest@.map_values(|a: String| a@)[k as int] == rest@[k as int]@);
        assert(sp.drop_first()[k as int] == sp[k + 1]);
        substring(rest[k].as_str(), 0, rest[k].unicode_len())
    }
}

/// Who asks to teleport to the bot in a chat line, if anyone.
pub fn parse_tpa_request(message: &str) -> (r: Option<String>)
    requires
        !tpa_panics(message@),
    ensures
        match tpa_requester(message@) {
            Some(name) => r matches Some(x) && x@ == name,
            None => r is None,
        },
{
    let n = message.unicode_len();
    if ends_with(message, " has requested to teleport to you.") {
        let head = substring(message, 0, n - " has requested to teleport to you.".unicode_len());
        return Some(last_piece_of(head.as_str()));
    }
    if ends_with(message, " requested to teleport to you.") {
        let head = substring(message, 0, n - " requested to teleport to you.".unicode_len());
        return Some(last_piece_of(head.as_str()));
    }
    if starts_with(message, "Received teleport request from ") {
        let (_first, rest) = ChatModule::split_command(message);
        let ghost sp = split_spaces(message@);
        proof {
            lemma_split_spaces_nonempty(message@);
            assert(rest@.map_values(|a: String| a@).len() == rest@.len());
            assert(sp.drop_first().len() == sp.len() - 1);
        }
        if rest.len() >= 4 {
            assert(sp.drop_first()[3] == sp[4]);
            let word = rest[3].as_str();
            assert(rest@.map_values(|a: String| a@)[3] == rest@[3]@);
            let len = word.unicode_len();
            let name = substring(word, 0, len - 1);
            return Some(name);
        }
    }
    None
}

/// Whether `parse_tpa_request` cannot take this line (see `tpa_panics`): callers that
/// meet such a line fail instead.
pub fn tpa_request_panics(message: &str) -> (r: bool)
    ensures
        r == tpa_panics(message@),
{
    if ends_with(message, " has requested to teleport to you.") || ends_with(message, " requested to teleport to you.")
        || !starts_with(message, "Received teleport request from ") {
        return false;
    }
    let (_first, rest) = ChatModule::split_command(message);
    let ghost sp = split_spaces(message@);
    proof {
        lemma_split_spaces_nonempty(message@);
        assert(rest@.map_values(|a: String| a@).len() == rest@.len());
        assert(sp.drop_first().len() == sp.len() - 1);
    }
    if rest.len() < 4 {
        return false;
    }
    assert(sp.drop_first()[3] == sp[4]);
    assert(rest@.map_values(|a: String| a@)[3] == rest@[3]@);
    let word = rest[3].as_str();
    let len = word.unicode_len();
    len == 0 || (word.get_char(len - 1) as u32) >= 128
}

/// The first tab list entry named `name` (ignoring ASCII case): its uuid.
pub fn find_uuid(tab: &Vec<PlayerProfile>, name: &str) -> (r: Option<u128>)
    ensures
        r == lookup_uuid(tab@, name@),
{
    let mut i: usize = 0;
    assert(tab@.subrange(0, tab@.len() as int) =~= tab@);
    while i < tab.len()
        invariant
            i <= tab@.len(),
            lookup_uuid(tab@.subrange(i as int, tab@.len() as int), name@) == lookup_uuid(tab@, name@),
        decreases tab@.len() - i,
    {
        let ghost rest = tab@.subrange(i as int, tab@.len() as int);
        assert(rest[0] == tab@[i as int]);
        if str_eq_ignore_ascii_case(tab[i].name.as_str(), name) {
            return Some(tab[i].uuid);
        }
        assert(rest.drop_first() =~= tab@.subrange(i + 1, tab@.len() as int));
        i = i + 1;
    }
    None
}

/// The uuids of the players whose teleport requests are accepted.
pub struct AutoTpaModule {
    pub trusted: HashSet<u128>,
}

impl AutoTpaModule {
    /// Nobody trusted.
    pub fn new() -> (r: AutoTpaModule)
        ensures
            r.trusted@ == Set::<u128>::empty(),
    {
        AutoTpaModule { trusted: HashSet::new() }
    }

    /// The command answering a chat line, if it is a teleport request: the requester is
    /// trusted where the tab list knows their uuid and it is among the trusted ones.
    pub fn answer(&self, message: &str, tab: &Vec<PlayerProfile>, accept_command: &str, deny_command: &str) -> (r: Option<String>)
        requires
            !tpa_panics(message@),
        ensures
            match tpa_requester(message@) {
                Some(name) => r matches Some(c) && c@ == tpa_answer(
                    match lookup_uuid(tab@, name) {
                        Some(u) => self.trusted@.contains(u),
                        None => false,
                    },
                    accept_command@,
                    deny_command@,
                    name,
                ),
                None => r is None,
            },
    {
        match parse_tpa_request(message) {
            None => None,
            Some(name) => {
                let trusted = match find_uuid(tab, name.as_str()) {
                    Some(u) => self.trusted.contains(&u),
                    None => false,
                };
                proof {
                    reveal_strlit("{NAME}");
                }
                let template = if trusted { accept_command } else { deny_command };
                Some(replace_text(template, "{NAME}", name.as_str()))
            },
        }
    }
}

proof fn lemma_last_word(before: Seq<char>, name: Seq<char>)
    requires
        before.len() == 0 || before.last() == ' ',
        forall|i: int| 0 <= i < name.len() ==> name[i] != ' ',
    ensures
        split_spaces(before + name).last() == name,
    decreases name.len(),
{
    if name.len() == 0 {
        assert(before + name =~= before);
        if before.len() > 0 {
            lemma_split_spaces_nonempty(before.drop_last());
        }
    } else {
        let shorter = name.drop_last();
        lemma_last_word(before, shorter);
        assert((before + name).drop_last() =~= before + shorter);
        assert((before + name).last() == name.last());
        lemma_split_spaces_nonempty(before + shorter);
        assert(shorter.push(name.last()) =~= name);
    }
}

/// In a line `... <name> has requested to teleport to you.` or
/// `... <name> requested to teleport to you.`, the requester is the word before the
/// phrase, whatever comes before it. (In `... has requested to teleport to you.` read as
/// the short phrase with the name `has`, the long phrase wins; that input is left out.)
pub proof fn law_requester_is_word_before_phrase(before: Seq<char>, name: Seq<char>, long_form: bool)
    requires
        before.len() == 0 || before.last() == ' ',
        forall|i: int| 0 <= i < name.len() ==> name[i] != ' ',
        !long_form ==> !(name == "has"@ && before.len() > 0),
    ensures
        tpa_requester(before + name + (if long_form { " has requested to teleport to you."@ } else {
            " requested to teleport to you."@ })) == Some(name),
{
    let e1 = " has requested to teleport to you."@;
    let e2 = " requested to teleport to you."@;
    reveal_strlit(" has requested to teleport to you.");
    reveal_strlit(" requested to teleport to you.");
    reveal_strlit("has");
    let e = if long_form { e1 } else { e2 };
    let bn = before + name;
    let m = bn + e;
    lemma_last_word(before, name);
    assert(m.subrange(m.len() - e.len(), m.len() as int) =~= e);
    assert(m.subrange(0, m.len() - e.len()) =~= bn);
    if !long_form && is_suffix(e1, m) {
        let k = m.len() - 34;
        assert(k >= 0);
        assert(m.subrange(k, m.len() as int) == e1);
        let w = m.subrange(k, m.len() as int);
        assert(w[0] == m[k] && w[1] == m[k + 1] && w[2] == m[k + 2] && w[3] == m[k + 3]);
        assert(m[k] == bn[bn.len() - 4] && m[k + 1] == bn[bn.len() - 3]);
        assert(m[k + 2] == bn[bn.len() - 2] && m[k + 3] == bn[bn.len() - 1]);
        assert(bn[bn.len() - 4] == ' ' && bn[bn.len() - 3] == 'h' && bn[bn.len() - 2] == 'a' && bn[bn.len() - 1] == 's');
        let n = name.len() as int;
        if n >= 4 {
            assert(bn[bn.len() - 4] == name[n - 4]);
        } else if n == 3 {
            assert(bn[bn.len() - 3] == name[0]);
            assert(bn[bn.len() - 2] == name[1]);
            assert(bn[bn.len() - 1] == name[2]);
            assert(name =~= "has"@);
            assert(before.len() > 0);
        } else {
            assert(bn.len() >= 4);
            assert(before.len() > 0);
            assert(bn[bn.len() - 1 - n] == before.last());
        }
    }
}

} // verus!
