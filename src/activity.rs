//! The activity signal: a game session or a watched site open in a browser
//! tab. Either query may fail; a failed query contributes no signal.
use vstd::prelude::*;

verus! {

/// `needle` occurs in `hay` as a contiguous run of characters.
pub open spec fn contains_spec(hay: Seq<char>, needle: Seq<char>) -> bool {
    exists|i: int|
        0 <= i && i + needle.len() <= hay.len() && #[trigger] hay.subrange(i, i + needle.len())
            == needle
}

/// Relies on `str::contains` with a `&str` pattern, which is true exactly when
/// the pattern occurs in the string.
#[verifier::external_body]
fn str_contains(hay: &str, needle: &str) -> (r: bool)
    ensures
        r == contains_spec(hay@, needle@),
{
    hay.contains(needle)
}

pub open spec fn views(v: Seq<String>) -> Seq<Seq<char>> {
    v.map_values(|s: String| s@)
}

/// A tab title is watched when it contains one of the site names (case matters).
pub open spec fn title_matches_spec(title: Seq<char>, sites: Seq<Seq<char>>) -> bool {
    exists|j: int| 0 <= j < sites.len() && contains_spec(title, #[trigger] sites[j])
}

/// The watched titles among `titles`, in their order.
pub open spec fn matching_spec(titles: Seq<Seq<char>>, sites: Seq<Seq<char>>) -> Seq<Seq<char>>
    decreases titles.len(),
{
    if titles.len() == 0 {
        Seq::empty()
    } else {
        let rest = matching_spec(titles.drop_last(), sites);
        if title_matches_spec(titles.last(), sites) {
            rest.push(titles.last())
        } else {
            rest
        }
    }
}

/// Restricted activity: a non-empty game identifier, or a watched tab.
pub open spec fn activity_spec(
    game_id: Option<Seq<char>>,
    tabs: Option<Seq<Seq<char>>>,
    sites: Seq<Seq<char>>,
) -> bool {
    (game_id is Some && game_id->Some_0.len() > 0) || (tabs is Some && any_watched_spec(
        tabs->Some_0,
        sites,
    ))
}

/// Some title among `titles` is watched.
pub open spec fn any_watched_spec(titles: Seq<Seq<char>>, sites: Seq<Seq<char>>) -> bool {
    exists|i: int| 0 <= i < titles.len() && title_matches_spec(#[trigger] titles[i], sites)
}

/// The streaming sites whose open tabs count as restricted activity.
pub fn watch_list() -> (r: Vec<String>)
    ensures
        views(r@) == seq![
            "YouTube"@,
            "Twitch"@,
            "Disney+"@,
            "Netflix"@,
            "Prime Video"@,
        ],
{
    let mut v: Vec<String> = Vec::new();
    v.push("YouTube".to_owned());
    v.push("Twitch".to_owned());
    v.push("Disney+".to_owned());
    v.push("Netflix".to_owned());
    v.push("Prime Video".to_owned());
    assert(views(v@) =~= seq!["YouTube"@, "Twitch"@, "Disney+"@, "Netflix"@, "Prime Video"@]);
    v
}

/// Whether a tab title contains any of the site names.
pub fn title_matches(title: &str, sites: &Vec<String>) -> (r: bool)
    ensures
        r == title_matches_spec(title@, views(sites@)),
{
    let ghost sv = views(sites@);
    let mut j: usize = 0;
    while j < sites.len()
        invariant
            j <= sites.len(),
            sv == views(sites@),
            forall|k: int| 0 <= k < j ==> !contains_spec(title@, #[trigger] sv[k]),
        decreases sites.len() - j,
    {
        if str_contains(title, sites[j].as_str()) {
            assert(sv[j as int] == sites@[j as int]@);
            return true;
        }
        assert(sv[j as int] == sites@[j as int]@);
        j = j + 1;
    }
    false
}

/// The watched titles among the open tabs, in their order.
pub fn matching_tabs(titles: &Vec<String>, sites: &Vec<String>) -> (r: Vec<String>)
    ensures
        views(r@) == matching_spec(views(titles@), views(sites@)),
{
    let ghost tv = views(titles@);
    let mut out: Vec<String> = Vec::new();
    let mut i: usize = 0;
    while i < titles.len()
        invariant
            i <= titles.len(),
            tv == views(titles@),
            views(out@) == matching_spec(tv.take(i as int), views(sites@)),
        decreases titles.len() - i,
    {
        assert(tv.take(i as int + 1).drop_last() =~= tv.take(i as int));
        assert(tv.take(i as int + 1).last() == titles@[i as int]@);
        if title_matches(titles[i].as_str(), sites) {
            let t = titles[i].clone();
            out.push(t);
            assert(views(out@) =~= views(out@.drop_last()).push(t@));
        }
        i = i + 1;
    }
    assert(tv.take(i as int) =~= tv);
    out
}

/// Merges the two queries: `None` stands for a query that failed, which adds
/// no signal. Activity is present when the game identifier is non-empty or
/// some open tab is watched.
pub fn activity_present(
    game_id: &Option<String>,
    tabs: &Option<Vec<String>>,
    sites: &Vec<String>,
) -> (r: bool)
    ensures
        r == activity_spec(
            match game_id {
                Some(g) => Some(g@),
                None => None,
            },
            match tabs {
                Some(t) => Some(views(t@)),
                None => None,
            },
            views(sites@),
        ),
{
    if let Some(g) = game_id {
        if !g.as_str().is_empty() {
            return true;
        }
    }
    match tabs {
        Some(t) => any_watched(t, sites),
        None => false,
    }
}

/// Whether some title among `titles` is watched.
pub fn any_watched(titles: &Vec<String>, sites: &Vec<String>) -> (r: bool)
    ensures
        r == any_watched_spec(views(titles@), views(sites@)),
{
    let ghost tv = views(titles@);
    let mut i: usize = 0;
    while i < titles.len()
        invariant
            i <= titles.len(),
            tv == views(titles@),
            forall|k: int| 0 <= k < i ==> !title_matches_spec(#[trigger] tv[k], views(sites@)),
        decreases titles.len() - i,
    {
        assert(tv[i as int] == titles@[i as int]@);
        if title_matches(titles[i].as_str(), sites) {
            return true;
        }
        i = i + 1;
    }
    false
}

} // verus!
