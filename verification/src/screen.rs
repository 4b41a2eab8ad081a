use vstd::prelude::*;
use crate::model::{ActiveTab, SearchMode};
use crate::text::{
    chars_of, contains_chars, has_infix, lowercase_of, push_char, push_two_digits, to_lowercase,
    two_digits,
};

verus! {

broadcast use vstd::string::group_string_axioms;

/// `mm:ss` for a number of whole seconds; the minutes take as many digits as they need.
pub open spec fn time_text(secs: u32) -> Seq<char> {
    two_digits((secs / 60) as nat) + seq![':'] + two_digits((secs % 60) as nat)
}

/// Whole seconds of a time in milliseconds, capped at the largest `u32`.
pub open spec fn whole_seconds(ms: u64) -> u32 {
    if ms / 1000 <= u32::MAX as u64 {
        (ms / 1000) as u32
    } else {
        u32::MAX
    }
}

/// The `position / duration` label under the seek bar.
pub open spec fn time_label_text(position_ms: u64, duration_ms: u64) -> Seq<char> {
    time_text(whole_seconds(position_ms)) + " / "@ + time_text(whole_seconds(duration_ms))
}

/// Formats whole seconds as `mm:ss`.
pub fn format_time(secs: u32) -> (r: String)
    ensures
        r@ == time_text(secs),
{
    let mut out = String::new();
    push_two_digits(&mut out, secs / 60);
    push_char(&mut out, ':');
    push_two_digits(&mut out, secs % 60);
    out
}

fn seconds_of(ms: u64) -> (r: u32)
    ensures
        r == whole_seconds(ms),
{
    let s = ms / 1000;
    if s <= u32::MAX as u64 {
        s as u32
    } else {
        u32::MAX
    }
}

/// The label that shows the playback position and the song's duration.
pub fn time_label(position_ms: u64, duration_ms: u64) -> (r: String)
    ensures
        r@ == time_label_text(position_ms, duration_ms),
{
    let mut out = format_time(seconds_of(position_ms));
    out.append(" / ");
    let total = format_time(seconds_of(duration_ms));
    out.append(total.as_str());
    out
}

/// Whether the local list shows a song, from the lower-cased name and query:
/// always, unless a local search with a non-empty query is on, in which case the
/// name must contain the query.
pub open spec fn song_shown(lowered_name: Seq<char>, lowered_query: Seq<char>, mode: SearchMode) -> bool {
    mode == SearchMode::Local && lowered_query.len() > 0 ==> has_infix(lowered_name, lowered_query)
}

/// The indices of the first `n` songs that the list shows, in order, from the
/// lower-cased names and query.
pub open spec fn shown_indices(
    lowered_names: Seq<Seq<char>>,
    lowered_query: Seq<char>,
    mode: SearchMode,
    n: nat,
) -> Seq<usize>
    decreases n,
{
    if n == 0 {
        seq![]
    } else {
        let front = shown_indices(lowered_names, lowered_query, mode, (n - 1) as nat);
        if song_shown(lowered_names[n - 1], lowered_query, mode) {
            front.push((n - 1) as usize)
        } else {
            front
        }
    }
}

/// The lower-cased texts of a list of names.
pub open spec fn lowered_all(names: Seq<String>) -> Seq<Seq<char>> {
    names.map_values(|s: String| lowercase_of(s@))
}

/// The indices of the songs that the local list shows, given the names and the
/// query already in lower case.
pub fn visible_songs_lowered(lowered_names: &Vec<String>, lowered_query: &String, mode: SearchMode) -> (r: Vec<usize>)
    ensures
        r@ == shown_indices(
            lowered_names@.map_values(|s: String| s@),
            lowered_query@,
            mode,
            lowered_names@.len(),
        ),
{
    let ghost views = lowered_names@.map_values(|s: String| s@);
    let q = chars_of(lowered_query.as_str());
    let filtering = mode == SearchMode::Local && q.len() > 0;
    let mut shown: Vec<usize> = Vec::new();
    let mut i: usize = 0;
    while i < lowered_names.len()
        invariant
            i <= lowered_names@.len(),
            views == lowered_names@.map_values(|s: String| s@),
            q@ == lowered_query@,
            filtering == (mode == SearchMode::Local && q@.len() > 0),
            shown@ == shown_indices(views, lowered_query@, mode, i as nat),
        decreases lowered_names.len() - i,
    {
        let keep = if filtering {
            contains_chars(&chars_of(lowered_names[i].as_str()), &q)
        } else {
            true
        };
        assert(views[i as int] == lowered_names@[i as int]@);
        if keep {
            shown.push(i);
        }
        i = i + 1;
    }
    shown
}

/// The indices of the songs that the local list shows for a search query and
/// mode; names and query are compared in lower case.
pub fn visible_songs(names: &Vec<String>, query: &String, mode: SearchMode) -> (r: Vec<usize>)
    ensures
        r@ == shown_indices(lowered_all(names@), lowercase_of(query@), mode, names@.len()),
{
    let mut lowered: Vec<String> = Vec::new();
    let mut i: usize = 0;
    while i < names.len()
        invariant
            i <= names@.len(),
            lowered@.map_values(|s: String| s@) == lowered_all(names@).take(i as int),
        decreases names.len() - i,
    {
        let lo = to_lowercase(names[i].as_str());
        let ghost before = lowered@;
        lowered.push(lo);
        assert(lowered@.map_values(|s: String| s@) =~= before.map_values(|s: String| s@).push(
            lowercase_of(names@[i as int]@),
        ));
        assert(lowered@.map_values(|s: String| s@) =~= lowered_all(names@).take(i + 1));
        i = i + 1;
    }
    assert(lowered_all(names@).take(names@.len() as int) =~= lowered_all(names@));
    let query_lowered = to_lowercase(query.as_str());
    visible_songs_lowered(&lowered, &query_lowered, mode)
}

/// The icon of the settings button: a cross while the settings show, a menu sign otherwise.
pub fn settings_icon(tab: ActiveTab) -> (r: String)
    ensures
        r@ == (if tab == ActiveTab::Settings {
            "✕"@
        } else {
            "☰"@
        }),
{
    match tab {
        ActiveTab::Settings => String::from_str("✕"),
        ActiveTab::Player => String::from_str("☰"),
    }
}

/// The tab that the settings button switches to: the other one.
pub fn settings_target(tab: ActiveTab) -> (r: ActiveTab)
    ensures
        r == (if tab == ActiveTab::Settings {
            ActiveTab::Player
        } else {
            ActiveTab::Settings
        }),
{
    match tab {
        ActiveTab::Settings => ActiveTab::Player,
        ActiveTab::Player => ActiveTab::Settings,
    }
}

/// The label of the search-mode button.
pub fn mode_label(mode: SearchMode) -> (r: String)
    ensures
        r@ == (match mode {
            SearchMode::Local => "Local"@,
            SearchMode::Internet => "Internet"@,
        }),
{
    match mode {
        SearchMode::Local => String::from_str("Local"),
        SearchMode::Internet => String::from_str("Internet"),
    }
}

/// The hint in the empty search field: a search in progress comes first, then a download.
pub fn search_placeholder(is_searching: bool, is_downloading: bool) -> (r: String)
    ensures
        r@ == (if is_searching {
            "Net  search..."@
        } else if is_downloading {
            "Downloading song..."@
        } else {
            "Song search..."@
        }),
{
    if is_searching {
        String::from_str("Net  search...")
    } else if is_downloading {
        String::from_str("Downloading song...")
    } else {
        String::from_str("Song search...")
    }
}

/// The label of the play button: `Pause` while a song plays, `Play` otherwise.
pub fn play_button_label(is_playing: bool) -> (r: String)
    ensures
        r@ == (if is_playing {
            "Pause"@
        } else {
            "Play"@
        }),
{
    if is_playing {
        String::from_str("Pause")
    } else {
        String::from_str("Play")
    }
}

} // verus!
