//! Finding songs by name: exact matches first, then looser and looser ones.

use vstd::prelude::*;
use vstd::string::*;
use crate::text::{
    str_eq, str_eq_ignore_ascii_case, eq_ignore_ascii_case, starts_with, is_prefix, find_text, contains_text,
    to_lowercase, lowercase, push_char,
};
use crate::nbs::file::{NbsSong, spec_friendly_name, opt_string_view};
use crate::dj::task::{same_song, song_view, SongView};

verus! {

/// Characters that normalized names leave out.
pub open spec fn is_ignored_char(c: char) -> bool {
    c == ' ' || c == '_' || c == '-' || c == '.' || c == '(' || c == ')' || c == '\'' || c == '"'
}

/// A text without the ignored characters.
pub open spec fn strip_ignored(s: Seq<char>) -> Seq<char>
    decreases s.len(),
{
    if s.len() == 0 {
        s
    } else {
        let r = strip_ignored(s.drop_last());
        if is_ignored_char(s.last()) { r } else { r.push(s.last()) }
    }
}

/// A name as loosely compared: lowercase, without spaces, `_ - . ( ) ' "`.
pub open spec fn normalized(s: Seq<char>) -> Seq<char> {
    strip_ignored(lowercase(s))
}

/// Normalizing a name lowercases it and then removes exactly the characters space, `_`,
/// `-`, `.`, `(`, `)`, `'` and `"`: every other character stays, in order, and none of
/// those eight is left.
pub proof fn law_normalized_drops_exactly_punctuation(s: Seq<char>)
    ensures
        normalized(s) == lowercase(s).filter(|c: char| !(c == ' ' || c == '_' || c == '-' || c == '.' || c == '(' || c == ')' || c == '\'' || c == '"')),
        forall|i: int| 0 <= i < normalized(s).len() ==> {
            let c = #[trigger] normalized(s)[i];
            !(c == ' ' || c == '_' || c == '-' || c == '.' || c == '(' || c == ')' || c == '\'' || c == '"')
        },
{
    lemma_strip_is_filter(lowercase(s));
    broadcast use vstd::seq_lib::group_filter_ensures;
}

proof fn lemma_strip_is_filter(t: Seq<char>)
    ensures
        strip_ignored(t) == t.filter(|c: char| !(c == ' ' || c == '_' || c == '-' || c == '.' || c == '(' || c == ')' || c == '\'' || c == '"')),
    decreases t.len(),
{
    reveal_with_fuel(Seq::filter, 1);
    if t.len() > 0 {
        lemma_strip_is_filter(t.drop_last());
    }
}

/// Removing one of the eight left-out characters from a lowercased name changes nothing
/// in its normalized form.
pub proof fn law_punctuation_does_not_matter(t: Seq<char>, i: int)
    requires
        0 <= i < t.len(),
        ({
            let c = t[i];
            (c == ' ' || c == '_' || c == '-' || c == '.' || c == '(' || c == ')' || c == '\'' || c == '"')
        }),
    ensures
        strip_ignored(t) == strip_ignored(t.remove(i)),
{
    let f = |c: char| !(c == ' ' || c == '_' || c == '-' || c == '.' || c == '(' || c == ')' || c == '\'' || c == '"');
    lemma_strip_is_filter(t);
    lemma_strip_is_filter(t.remove(i));
    assert(t =~= t.subrange(0, i) + seq![t[i]] + t.subrange(i + 1, t.len() as int));
    assert(t.remove(i) =~= t.subrange(0, i) + t.subrange(i + 1, t.len() as int));
    Seq::filter_distributes_over_add(t.subrange(0, i) + seq![t[i]], t.subrange(i + 1, t.len() as int), f);
    Seq::filter_distributes_over_add(t.subrange(0, i), seq![t[i]], f);
    Seq::filter_distributes_over_add(t.subrange(0, i), t.subrange(i + 1, t.len() as int), f);
    reveal_with_fuel(Seq::filter, 2);
    assert(seq![t[i]].filter(f) =~= Seq::<char>::empty());
    assert(t.subrange(0, i).filter(f) + Seq::<char>::empty() =~= t.subrange(0, i).filter(f));
}

/// Whether a song's name matches the search term at a level of looseness: equal (0),
/// equal but for ASCII case (1), starting with (2) or containing (3) it in lowercase,
/// and starting with (4) or containing (5) it normalized.
pub open spec fn tier_matches(tier: nat, name: Seq<char>, term: Seq<char>) -> bool {
    if tier == 0 {
        name == term
    } else if tier == 1 {
        eq_ignore_ascii_case(name, term)
    } else if tier == 2 {
        is_prefix(lowercase(term), lowercase(name))
    } else if tier == 3 {
        contains_text(lowercase(name), lowercase(term))
    } else if tier == 4 {
        is_prefix(normalized(term), normalized(name))
    } else {
        contains_text(normalized(name), normalized(term))
    }
}

/// The names under which the songs are shown.
pub open spec fn song_names(songs: Seq<NbsSong>) -> Seq<Seq<char>> {
    songs.map_values(|s: NbsSong| spec_friendly_name(s.name@, opt_string_view(s.file_name), s.description@))
}

/// The songs as values.
pub open spec fn song_views(songs: Seq<NbsSong>) -> Seq<SongView> {
    songs.map_values(|s: NbsSong| song_view(s))
}

/// Whether a song equal to song `k` is among the results `acc` already.
pub open spec fn already_found(songs: Seq<SongView>, acc: Seq<int>, k: int) -> bool {
    exists|j: int| 0 <= j < acc.len() && #[trigger] songs[acc[j]] == songs[k]
}

/// The results after looking at the first `i` songs at one level of looseness.
pub open spec fn tier_pass(songs: Seq<SongView>, names: Seq<Seq<char>>, term: Seq<char>, tier: nat, acc: Seq<int>, i: nat) -> Seq<int>
    decreases i,
{
    if i == 0 {
        acc
    } else {
        let a = tier_pass(songs, names, term, tier, acc, (i - 1) as nat);
        let k = i - 1;
        if tier_matches(tier, names[k], term) && !already_found(songs, a, k) { a.push(k) } else { a }
    }
}

/// The results of the first `tiers` levels of looseness, the stricter ones first, each
/// song (or an equal one) at most once.
pub open spec fn search_result(songs: Seq<SongView>, names: Seq<Seq<char>>, term: Seq<char>, tiers: nat) -> Seq<int>
    decreases tiers,
{
    if tiers == 0 {
        Seq::empty()
    } else {
        let prev = search_result(songs, names, term, (tiers - 1) as nat);
        tier_pass(songs, names, term, (tiers - 1) as nat, prev, songs.len())
    }
}

/// `s` without the ignored characters.
fn strip_ignored_text(s: &str) -> (r: String)
    ensures
        r@ == strip_ignored(s@),
{
    let n = s.unicode_len();
    let mut r = String::new();
    let mut i: usize = 0;
    while i < n
        invariant
            n == s@.len(),
            i <= n,
            r@ == strip_ignored(s@.subrange(0, i as int)),
        decreases n - i,
    {
        let c = s.get_char(i);
        proof {
            assert(s@.subrange(0, i + 1).drop_last() =~= s@.subrange(0, i as int));
        }
        if !(c == ' ' || c == '_' || c == '-' || c == '.' || c == '(' || c == ')' || c == '\'' || c == '"') {
            push_char(&mut r, c);
        }
        i = i + 1;
    }
    proof {
        assert(s@.subrange(0, n as int) =~= s@);
    }
    r
}

/// Whether the song's name matches the term at this level (names given as they are,
/// lowercase and normalized).
fn matches_tier(tier: u8, name: &str, name_lc: &str, name_norm: &str, term: &str, term_lc: &str, term_norm: &str) -> (r: bool)
    requires
        tier < 6,
        name_lc@ == lowercase(name@),
        term_lc@ == lowercase(term@),
        name_norm@ == normalized(name@),
        term_norm@ == normalized(term@),
    ensures
        r == tier_matches(tier as nat, name@, term@),
{
    if tier == 0 {
        str_eq(name, term)
    } else if tier == 1 {
        str_eq_ignore_ascii_case(name, term)
    } else if tier == 2 {
        starts_with(name_lc, term_lc)
    } else if tier == 3 {
        find_text(name_lc, term_lc, 0).is_some()
    } else if tier == 4 {
        starts_with(name_norm, term_norm)
    } else {
        find_text(name_norm, term_norm, 0).is_some()
    }
}

/// Whether a song equal to `songs[k]` is among the results.
fn found_already(songs: &Vec<NbsSong>, acc: &Vec<usize>, k: usize) -> (r: bool)
    requires
        k < songs@.len(),
        forall|j: int| 0 <= j < acc@.len() ==> acc@[j] < songs@.len(),
    ensures
        r == already_found(song_views(songs@), acc@.map_values(|x: usize| x as int), k as int),
{
    let ghost views = song_views(songs@);
    let ghost av = acc@.map_values(|x: usize| x as int);
    let mut j: usize = 0;
    while j < acc.len()
        invariant
            j <= acc@.len(),
            k < songs@.len(),
            views == song_views(songs@),
            av == acc@.map_values(|x: usize| x as int),
            forall|m: int| 0 <= m < acc@.len() ==> acc@[m] < songs@.len(),
            forall|m: int| 0 <= m < j ==> views[#[trigger] av[m]] != views[k as int],
        decreases acc@.len() - j,
    {
        let same = same_song(&songs[acc[j]], &songs[k]);
        assert(views[av[j as int]] == song_view(songs@[acc@[j as int] as int]));
        if same {
            assert(views[av[j as int]] == views[k as int]);
            return true;
        }
        j = j + 1;
    }
    false
}

/// The songs matching a search term, by index, as `search_result` orders them over all six
/// levels of looseness.
#[verifier::spinoff_prover]
pub fn search(songs: &Vec<NbsSong>, term: &str) -> (r: Vec<usize>)
    ensures
        r@.map_values(|x: usize| x as int) == search_result(song_views(songs@), song_names(songs@), term@, 6),
        forall|j: int| 0 <= j < r@.len() ==> r@[j] < songs@.len(),
{
    let ghost views = song_views(songs@);
    let ghost names = song_names(songs@);
    let mut names_v: Vec<String> = Vec::new();
    let mut lc_v: Vec<String> = Vec::new();
    let mut norm_v: Vec<String> = Vec::new();
    let mut i: usize = 0;
    while i < songs.len()
        invariant
            i <= songs@.len(),
            names == song_names(songs@),
            names_v@.len() == i && lc_v@.len() == i && norm_v@.len() == i,
            forall|k: int| 0 <= k < i ==> #[trigger] names_v@[k]@ == names[k]
                && lc_v@[k]@ == lowercase(names[k]) && norm_v@[k]@ == normalized(names[k]),
        decreases songs@.len() - i,
    {
        let name = songs[i].friendly_name();
        let lc = to_lowercase(name.as_str());
        let norm = strip_ignored_text(lc.as_str());
        names_v.push(name);
        lc_v.push(lc);
        norm_v.push(norm);
        i = i + 1;
    }
    assert(i == songs@.len());
    let term_lc = to_lowercase(term);
    let term_norm = strip_ignored_text(term_lc.as_str());
    let mut acc: Vec<usize> = Vec::new();
    let mut tier: u8 = 0;
    while tier < 6
        invariant
            tier <= 6,
            views == song_views(songs@),
            names == song_names(songs@),
            names_v@.len() == songs@.len() && lc_v@.len() == songs@.len() && norm_v@.len() == songs@.len(),
            forall|k: int| 0 <= k < songs@.len() ==> #[trigger] names_v@[k]@ == names[k]
                && lc_v@[k]@ == lowercase(names[k]) && norm_v@[k]@ == normalized(names[k]),
            term_lc@ == lowercase(term@),
            term_norm@ == normalized(term@),
            acc@.map_values(|x: usize| x as int) == search_result(views, names, term@, tier as nat),
            forall|j: int| 0 <= j < acc@.len() ==> acc@[j] < songs@.len(),
        decreases 6 - tier,
    {
        let ghost before = acc@.map_values(|x: usize| x as int);
        let mut k: usize = 0;
        while k < songs.len()
            invariant
                tier < 6,
                k <= songs@.len(),
                views == song_views(songs@),
                names == song_names(songs@),
                names_v@.len() == songs@.len() && lc_v@.len() == songs@.len() && norm_v@.len() == songs@.len(),
                forall|m: int| 0 <= m < songs@.len() ==> #[trigger] names_v@[m]@ == names[m]
                    && lc_v@[m]@ == lowercase(names[m]) && norm_v@[m]@ == normalized(names[m]),
                term_lc@ == lowercase(term@),
                term_norm@ == normalized(term@),
                acc@.map_values(|x: usize| x as int) == tier_pass(views, names, term@, tier as nat, before, k as nat),
                forall|j: int| 0 <= j < acc@.len() ==> acc@[j] < songs@.len(),
            decreases songs@.len() - k,
        {
            assert(names_v@[k as int]@ == names[k as int]);
            let hit = matches_tier(tier, names_v[k].as_str(), lc_v[k].as_str(), norm_v[k].as_str(), term, term_lc.as_str(), term_norm.as_str());
            if hit {
                let dup = found_already(songs, &acc, k);
                if !dup {
                    let ghost a = acc@.map_values(|x: usize| x as int);
                    acc.push(k);
                    proof {
                        assert(acc@.map_values(|x: usize| x as int) =~= a.push(k as int));
                    }
                }
            }
            k = k + 1;
        }
        tier = tier + 1;
    }
    acc
}

proof fn lemma_tier_pass_extends(songs: Seq<SongView>, names: Seq<Seq<char>>, term: Seq<char>, tier: nat, acc: Seq<int>, i: nat)
    requires
        i <= songs.len(),
        forall|j: int| 0 <= j < acc.len() ==> 0 <= #[trigger] acc[j] < songs.len(),
        forall|j1: int, j2: int| 0 <= j1 < j2 < acc.len() ==> songs[#[trigger] acc[j1]] != songs[#[trigger] acc[j2]],
    ensures
        ({
            let r = tier_pass(songs, names, term, tier, acc, i);
            &&& r.len() >= acc.len()
            &&& r.subrange(0, acc.len() as int) == acc
            &&& forall|j: int| 0 <= j < r.len() ==> 0 <= #[trigger] r[j] < songs.len()
            &&& forall|j1: int, j2: int| 0 <= j1 < j2 < r.len() ==> songs[#[trigger] r[j1]] != songs[#[trigger] r[j2]]
        }),
    decreases i,
{
    if i > 0 {
        lemma_tier_pass_extends(songs, names, term, tier, acc, (i - 1) as nat);
        let a = tier_pass(songs, names, term, tier, acc, (i - 1) as nat);
        let k = i - 1;
        if tier_matches(tier, names[k], term) && !already_found(songs, a, k) {
            let r = a.push(k);
            assert(r.subrange(0, acc.len() as int) =~= a.subrange(0, acc.len() as int));
            assert forall|j1: int, j2: int| 0 <= j1 < j2 < r.len() implies songs[#[trigger] r[j1]] != songs[#[trigger] r[j2]] by {
                if j2 == a.len() {
                    assert(r[j1] == a[j1]);
                    if songs[a[j1]] == songs[k] {
                        assert(already_found(songs, a, k));
                    }
                } else {
                    assert(r[j1] == a[j1] && r[j2] == a[j2]);
                }
            }
        }
    }
}

proof fn lemma_search_result_shape(songs: Seq<SongView>, names: Seq<Seq<char>>, term: Seq<char>, t: nat)
    ensures
        forall|j: int| 0 <= j < search_result(songs, names, term, t).len()
            ==> 0 <= #[trigger] search_result(songs, names, term, t)[j] < songs.len(),
        forall|j1: int, j2: int| 0 <= j1 < j2 < search_result(songs, names, term, t).len()
            ==> songs[#[trigger] search_result(songs, names, term, t)[j1]] != songs[#[trigger] search_result(songs, names, term, t)[j2]],
    decreases t,
{
    if t > 0 {
        lemma_search_result_shape(songs, names, term, (t - 1) as nat);
        lemma_tier_pass_extends(songs, names, term, (t - 1) as nat, search_result(songs, names, term, (t - 1) as nat), songs.len());
    }
}

proof fn lemma_exact_pass(songs: Seq<SongView>, names: Seq<Seq<char>>, term: Seq<char>, i: nat)
    requires
        i <= songs.len(),
    ensures
        ({
            let r = tier_pass(songs, names, term, 0, Seq::empty(), i);
            &&& (exists|k: int| 0 <= k < i && #[trigger] names[k] == term) ==> (r.len() > 0 && names[r[0]] == term
                && forall|j: int| 0 <= j < r[0] ==> #[trigger] names[j] != term)
            &&& (forall|k: int| 0 <= k < i ==> #[trigger] names[k] != term) ==> r.len() == 0
        }),
    decreases i,
{
    if i > 0 {
        lemma_exact_pass(songs, names, term, (i - 1) as nat);
        let a = tier_pass(songs, names, term, 0, Seq::empty(), (i - 1) as nat);
        let k = i - 1;
        if exists|m: int| 0 <= m < k && #[trigger] names[m] == term {
            if tier_matches(0, names[k], term) && !already_found(songs, a, k) {
                assert(a.push(k)[0] == a[0]);
            }
        } else {
            assert(a.len() == 0);
            if names[k] == term {
                assert(!already_found(songs, a, k));
                assert(a.push(k)[0] == k);
            }
        }
    }
}

/// The search lists songs of the library, each (or an equal song) at most once, the
/// matches of a stricter level before those of a looser one; and a song whose name is
/// exactly the term comes first: the first such song.
pub proof fn law_search_exact_first(songs: Seq<SongView>, names: Seq<Seq<char>>, term: Seq<char>)
    requires
        names.len() == songs.len(),
    ensures
        ({
            let r = search_result(songs, names, term, 6);
            &&& forall|j: int| 0 <= j < r.len() ==> 0 <= #[trigger] r[j] < songs.len()
            &&& forall|j1: int, j2: int| 0 <= j1 < j2 < r.len() ==> songs[#[trigger] r[j1]] != songs[#[trigger] r[j2]]
            &&& (exists|k: int| 0 <= k < names.len() && #[trigger] names[k] == term) ==> (r.len() > 0
                && names[r[0]] == term && forall|j: int| 0 <= j < r[0] ==> #[trigger] names[j] != term)
            &&& forall|t: nat| t < 6 ==> #[trigger] search_result(songs, names, term, t).len() <= r.len()
                && r.subrange(0, search_result(songs, names, term, t).len() as int) == search_result(songs, names, term, t)
        }),
{
    lemma_search_result_shape(songs, names, term, 6);
    assert forall|t: nat| t <= 6 implies #[trigger] search_result(songs, names, term, t).len() <= search_result(songs, names, term, 6).len()
        && search_result(songs, names, term, 6).subrange(0, search_result(songs, names, term, t).len() as int) == search_result(songs, names, term, t) by {
        lemma_search_prefix(songs, names, term, t, 6);
    }
    lemma_exact_pass(songs, names, term, songs.len());
    let r1 = search_result(songs, names, term, 1);
    assert(search_result(songs, names, term, 0) == Seq::<int>::empty());
    assert(r1 == tier_pass(songs, names, term, 0, Seq::empty(), songs.len()));
    let r = search_result(songs, names, term, 6);
    if exists|k: int| 0 <= k < names.len() && #[trigger] names[k] == term {
        assert(r.subrange(0, r1.len() as int)[0] == r[0]);
    }
}

proof fn lemma_search_prefix(songs: Seq<SongView>, names: Seq<Seq<char>>, term: Seq<char>, t: nat, u: nat)
    requires
        t <= u,
    ensures
        search_result(songs, names, term, t).len() <= search_result(songs, names, term, u).len(),
        search_result(songs, names, term, u).subrange(0, search_result(songs, names, term, t).len() as int)
            == search_result(songs, names, term, t),
    decreases u - t,
{
    if t < u {
        lemma_search_prefix(songs, names, term, t, (u - 1) as nat);
        lemma_search_result_shape(songs, names, term, (u - 1) as nat);
        let prev = search_result(songs, names, term, (u - 1) as nat);
        lemma_tier_pass_extends(songs, names, term, (u - 1) as nat, prev, songs.len());
        let cur = search_result(songs, names, term, u);
        let st = search_result(songs, names, term, t);
        assert(cur.subrange(0, st.len() as int) =~= cur.subrange(0, prev.len() as int).subrange(0, st.len() as int));
    } else {
        assert(search_result(songs, names, term, u).subrange(0, search_result(songs, names, term, u).len() as int)
            =~= search_result(songs, names, term, u));
    }
}

} // verus!
