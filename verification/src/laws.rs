use vstd::prelude::*;
use crate::json::JsonValue;
use crate::model::{ActiveTab, ApiProvider, SearchMode, SongView};
use crate::catalog::{
    answer_records, archive_file_outcome, encode_byte, entry_name, hex_digit, is_unreserved,
    percent_encoded, record_song, records_songs, saved_title, search_outcome, song_of,
};
use crate::json::{json_array, json_field, json_str_field};
use crate::player::{
    ActionView, EventView, PlayerView, WindowCommand, seek_reload, SongFileView, listed_names, listed_paths, next_index,
    prev_index, step,
};
use crate::screen::{shown_indices, song_shown};
use crate::text::{
    decimal, digit_char, has_infix, has_suffix, is_blank_text, lowercase_of, numeral_value, two_digits,
};
use crate::screen::whole_seconds;
use crate::screen::time_text;

verus! {

/// Switching the search mode twice gives back the state it started from, and asks for nothing.
pub proof fn law_search_mode_toggle_twice(s: PlayerView)
    ensures
        step(step(s, EventView::SetSearchMode).0, EventView::SetSearchMode).0 == s,
        step(s, EventView::SetSearchMode).1 == ActionView::Nothing,
{
}

/// Pausing the current song and pressing play again resumes it where it was,
/// without loading it afresh: the state is the one before the pause, playing.
pub proof fn law_pause_then_play_resumes(s: PlayerView)
    requires
        s.selected_song is Some,
        s.current_song == s.selected_song,
    ensures
        ({
            let paused = step(s, EventView::Pause);
            let resumed = step(paused.0, EventView::Play);
            &&& paused.1 == ActionView::PausePlayback
            &&& !paused.0.is_playing
            &&& resumed.1 == ActionView::ResumePlayback
            &&& resumed.0 == PlayerView { is_playing: true, ..s }
        }),
{
}

/// Every song load that an event asks for names a song of the list and carries its path.
pub proof fn law_loads_listed_songs(s: PlayerView, e: EventView)
    ensures
        step(s, e).1 matches ActionView::LoadSong { index, path } ==> index < s.path_list.len()
            && path == s.path_list[index as int],
{
    if s.path_list.len() > 0 {
        assert(0 <= next_index(s) < s.path_list.len()) by {
            vstd::arithmetic::div_mod::lemma_mod_bound(
                (match s.current_song {
                    Some(c) => c as int,
                    None => 0,
                }) + 1,
                s.path_list.len() as int,
            );
        }
    }
}

/// Skipping to the next song and, once it is loaded, back to the previous one
/// asks for the song that was current before, whatever the list's length.
pub proof fn law_next_then_prev_returns(s: PlayerView, duration_ms: Option<u64>)
    requires
        s.current_song matches Some(c) && c < s.path_list.len(),
        s.path_list.len() <= usize::MAX,
    ensures
        ({
            let forward = step(s, EventView::NextSong);
            let index = forward.1->LoadSong_index;
            let loaded = step(forward.0, EventView::SongLoaded { index, duration_ms });
            let back = step(loaded.0, EventView::PrevSong);
            &&& forward.1 is LoadSong
            &&& back.1 == ActionView::LoadSong {
                index: s.current_song->0,
                path: s.path_list[s.current_song->0 as int],
            }
        }),
{
    let c = s.current_song->0 as int;
    let len = s.path_list.len() as int;
    vstd::arithmetic::div_mod::lemma_mod_bound(c + 1, len);
    if c + 1 < len {
        vstd::arithmetic::div_mod::lemma_small_mod((c + 1) as nat, len as nat);
    } else {
        assert(c + 1 == len);
        vstd::arithmetic::div_mod::lemma_mod_self_0(len);
    }
    let n = next_index(s);
    assert(n == (if c + 1 < len { c + 1 } else { 0 }));
    let forward = step(s, EventView::NextSong);
    assert(forward.1 == ActionView::LoadSong { index: n as usize, path: s.path_list[n] });
    let loaded = step(forward.0, EventView::SongLoaded { index: n as usize, duration_ms });
    assert(loaded.0.current_song == Some(n as usize));
    assert(loaded.0.path_list == s.path_list);
    assert(prev_index(loaded.0) == c);
}

/// A clock tick while playing leaves the position inside the song, or stops
/// playback and rewinds to the start.
pub proof fn law_tick_stays_within_song(s: PlayerView)
    requires
        s.is_playing,
    ensures
        ({
            let t = step(s, EventView::Tick);
            ||| t.0.current_position_ms < t.0.song_duration_ms && t.0.is_playing
                && t.1 == ActionView::Nothing
            ||| t.0.current_position_ms == 0 && !t.0.is_playing && t.1 == ActionView::StopPlayback
        }),
{
}

/// A search that is under way blocks another: submitting again asks for nothing
/// and changes nothing.
pub proof fn law_one_search_at_a_time(s: PlayerView)
    ensures
        s.is_searching ==> step(s, EventView::SubmitSearch) == (s, ActionView::Nothing),
        step(s, EventView::SubmitSearch).1 is Search ==> step(
            step(s, EventView::SubmitSearch).0,
            EventView::SubmitSearch,
        ).1 == ActionView::Nothing,
{
}

/// The song list never holds more names than paths, and holds as many when every
/// file name is valid UTF-8, so that a name's index is its path's index.
pub proof fn law_song_lists_line_up(entries: Seq<SongFileView>)
    ensures
        listed_names(entries).len() <= listed_paths(entries).len(),
        (forall|i: int| 0 <= i < entries.len() ==> (#[trigger] entries[i]).file_name is Some)
            ==> listed_names(entries) == entries.map_values(|e: SongFileView| e.file_name->0),
    decreases entries.len(),
{
    if entries.len() > 0 {
        law_song_lists_line_up(entries.drop_last());
        if forall|i: int| 0 <= i < entries.len() ==> (#[trigger] entries[i]).file_name is Some {
            assert(forall|i: int| 0 <= i < entries.drop_last().len()
                ==> (#[trigger] entries.drop_last()[i]).file_name is Some) by {
                assert forall|i: int| 0 <= i < entries.drop_last().len() implies
                    (#[trigger] entries.drop_last()[i]).file_name is Some by {
                    assert(entries.drop_last()[i] == entries[i]);
                }
            }
            assert(entries.last() == entries[entries.len() - 1]);
            assert(listed_names(entries) =~= entries.map_values(|e: SongFileView| e.file_name->0));
        }
    } else {
        assert(listed_names(entries) =~= entries.map_values(|e: SongFileView| e.file_name->0));
    }
}

/// A successful Audius search shows between one and five songs.
pub proof fn law_audius_shows_one_to_five(answer: JsonValue)
    ensures
        search_outcome(ApiProvider::Audius, answer) matches Ok(songs) ==> 1 <= songs.len() <= 5,
{
}

/// Outside a local search with a non-empty query, the list shows every song, in order.
pub proof fn law_list_unfiltered(lowered_names: Seq<Seq<char>>, lowered_query: Seq<char>, mode: SearchMode, n: nat)
    requires
        mode == SearchMode::Internet || lowered_query.len() == 0,
        n <= lowered_names.len(),
    ensures
        shown_indices(lowered_names, lowered_query, mode, n) == Seq::new(n, |i: int| i as usize),
    decreases n,
{
    if n > 0 {
        law_list_unfiltered(lowered_names, lowered_query, mode, (n - 1) as nat);
        assert(song_shown(lowered_names[n - 1], lowered_query, mode));
    }
    assert(shown_indices(lowered_names, lowered_query, mode, n) =~= Seq::new(n, |i: int| i as usize));
}

proof fn lemma_decimal_reads_back(n: nat)
    ensures
        numeral_value(decimal(n)) == n,
        decimal(n).len() >= 1,
    decreases n,
{
    if n < 10 {
        assert(digit_char(n) as u32 == 48 + n);
        assert(decimal(n).drop_last() =~= Seq::<char>::empty());
        assert(decimal(n).last() == digit_char(n));
        assert(numeral_value(decimal(n)) == numeral_value(decimal(n).drop_last()) * 10 + ((
        decimal(n).last() as u32) - 48) as nat);
    } else {
        lemma_decimal_reads_back(n / 10);
        assert(digit_char(n % 10) as u32 == 48 + n % 10);
        assert(decimal(n).drop_last() =~= decimal(n / 10));
        assert(decimal(n).last() == digit_char(n % 10));
        assert(numeral_value(decimal(n)) == numeral_value(decimal(n / 10)) * 10 + n % 10);
        assert((n / 10) * 10 + n % 10 == n);
    }
}

proof fn lemma_two_digits_read_back(n: nat)
    ensures
        numeral_value(two_digits(n)) == n,
        two_digits(n).len() >= 2,
        n < 100 ==> two_digits(n).len() == 2,
{
    lemma_decimal_reads_back(n);
    if n < 10 {
        let t = two_digits(n);
        let z = seq!['0'];
        assert(z.drop_last() =~= Seq::<char>::empty());
        assert(z.last() == '0');
        assert(('0' as u32) == 48);
        assert(numeral_value(Seq::<char>::empty()) == 0);
        assert(numeral_value(z) == 0);
        assert(t.drop_last() =~= z);
        assert(t.last() == digit_char(n));
        assert(digit_char(n) as u32 == 48 + n);
        assert(numeral_value(t) == numeral_value(z) * 10 + n);
    } else {
        let q = n / 10;
        assert(decimal(n).drop_last() =~= decimal(q));
        if n < 100 {
            assert(decimal(q).len() == 1);
        } else {
            lemma_decimal_reads_back(q);
        }
    }
}

/// The time label loses nothing: the minutes before the colon and the two
/// seconds digits after it read back to the time it shows.
pub proof fn law_time_text_reads_back(secs: u32)
    ensures
        ({
            let t = time_text(secs);
            let k = t.len() - 3;
            &&& k >= 2
            &&& t[k] == ':'
            &&& numeral_value(t.subrange(k + 1, t.len() as int)) < 60
            &&& numeral_value(t.subrange(0, k)) * 60 + numeral_value(t.subrange(k + 1, t.len() as int))
                == secs
        }),
{
    let m = (secs / 60) as nat;
    let r = (secs % 60) as nat;
    lemma_two_digits_read_back(r);
    lemma_two_digits_read_back(m);
    let a = two_digits(m);
    let t = time_text(secs);
    assert(t.subrange(0, a.len() as int) =~= a);
    assert(t.subrange(a.len() + 1int, t.len() as int) =~= two_digits(r));
}


/// Events never touch the song lists: only a reload of the songs directory does.
pub proof fn law_events_keep_song_lists(s: PlayerView, e: EventView)
    ensures
        step(s, e).0.list == s.list,
        step(s, e).0.path_list == s.path_list,
{
}

/// Characters that may stand in a percent-encoded text.
pub open spec fn is_url_safe(c: char) -> bool {
    is_unreserved(c as u8) && (c as u32) < 128 || c == '%'
}

/// A percent-encoded text holds only ASCII letters, digits, `-` `_` `.` `~` and `%`,
/// so an encoded query never ends its parameter or its address early.
pub proof fn law_encoded_text_is_url_safe(bytes: Seq<u8>)
    ensures
        forall|i: int| 0 <= i < percent_encoded(bytes).len() ==> is_url_safe(
            #[trigger] percent_encoded(bytes)[i],
        ),
    decreases bytes.len(),
{
    if bytes.len() > 0 {
        law_encoded_text_is_url_safe(bytes.drop_first());
        let b = bytes[0];
        let head = encode_byte(b);
        assert forall|i: int| 0 <= i < head.len() implies is_url_safe(#[trigger] head[i]) by {
            if !is_unreserved(b) {
                assert(b / 16 < 16 && b % 16 < 16);
                assert(is_unreserved(hex_digit(b / 16) as u8));
                assert(is_unreserved(hex_digit(b % 16) as u8));
            }
        }
        let rest = percent_encoded(bytes.drop_first());
        assert(percent_encoded(bytes) == head + rest);
        assert forall|i: int| 0 <= i < percent_encoded(bytes).len() implies is_url_safe(
            #[trigger] percent_encoded(bytes)[i],
        ) by {
            if i < head.len() {
                assert(percent_encoded(bytes)[i] == head[i]);
            } else {
                assert(percent_encoded(bytes)[i] == rest[i - head.len()]);
            }
        }
    }
}


/// A loaded song starts from the beginning: whatever the position before, the
/// position is 0, the song is selected, current and playing, its duration is the
/// decoded one (three minutes when unknown), and the output is asked to start it.
pub proof fn law_loaded_song_starts_at_zero(s: PlayerView, index: usize, duration_ms: Option<u64>)
    ensures
        ({
            let (t, a) = step(s, EventView::SongLoaded { index, duration_ms });
            &&& t.current_position_ms == 0
            &&& t.selected_song == Some(index)
            &&& t.current_song == Some(index)
            &&& t.is_playing
            &&& t.song_duration_ms == (match duration_ms {
                Some(d) => d,
                None => 180_000u64,
            })
            &&& t.list == s.list && t.path_list == s.path_list
            &&& a == ActionView::StartLoadedSong
        }),
{
}

/// Only an online search sends a query: in local mode submitting changes nothing
/// and asks for nothing, and any search that is sent carries the state's query
/// and provider, which is a non-blank query in internet mode with no search under way.
pub proof fn law_submit_searches_only_online(s: PlayerView)
    ensures
        s.search_mode == SearchMode::Local ==> step(s, EventView::SubmitSearch) == (s, ActionView::Nothing),
        step(s, EventView::SubmitSearch).1 matches ActionView::Search { query, provider } ==> {
            &&& s.search_mode == SearchMode::Internet
            &&& !is_blank_text(s.search_query)
            &&& !s.is_searching
            &&& query == s.search_query
            &&& provider == s.api_provider
            &&& step(s, EventView::SubmitSearch).0.is_searching
            &&& step(s, EventView::SubmitSearch).0.search_results.len() == 0
        },
        s.search_mode == SearchMode::Internet && !is_blank_text(s.search_query) && !s.is_searching
            ==> step(s, EventView::SubmitSearch).1 is Search,
{
}

/// Choosing an online song downloads it, under its id and title, from the
/// provider that the state holds, and marks a download as under way.
pub proof fn law_download_uses_chosen_provider(s: PlayerView, song: SongView)
    ensures
        step(s, EventView::SelectOnlineSong(song)).1 == (ActionView::Download {
            id: song.id,
            title: song.title,
            provider: s.api_provider,
        }),
        step(s, EventView::SelectOnlineSong(song)).0.is_downloading,
        step(s, EventView::SelectOnlineSong(song)).0.api_provider == s.api_provider,
{
}

/// The settings choices take effect: after choosing a provider it is the state's
/// provider, and after choosing a tab it is the state's tab, whatever they were.
pub proof fn law_settings_choices_take_effect(s: PlayerView, p: ApiProvider, t: ActiveTab)
    ensures
        step(s, EventView::SelectApiProvider(p)).0.api_provider == p,
        step(s, EventView::SelectApiProvider(p)).0 == (PlayerView { api_provider: p, ..s }),
        step(s, EventView::SwitchTab(t)).0.active_tab == t,
        step(s, EventView::SwitchTab(t)).0 == (PlayerView { active_tab: t, ..s }),
{
}

/// A local search with a non-empty query shows exactly the songs whose lower-cased
/// names contain it: every index shown matches, and every matching index is shown,
/// in increasing order.
pub proof fn law_local_filter_shows_exactly_matches(
    lowered_names: Seq<Seq<char>>,
    lowered_query: Seq<char>,
    n: nat,
)
    requires
        lowered_query.len() > 0,
        n <= lowered_names.len(),
        n <= usize::MAX,
    ensures
        ({
            let shown = shown_indices(lowered_names, lowered_query, SearchMode::Local, n);
            &&& forall|j: int| 0 <= j < shown.len() ==> (#[trigger] shown[j]) < n
                && has_infix(lowered_names[shown[j] as int], lowered_query)
            &&& forall|i: int| 0 <= i < n && #[trigger] has_infix(lowered_names[i], lowered_query)
                ==> shown.contains(i as usize)
            &&& forall|j: int, k: int| 0 <= j < k < shown.len() ==> shown[j] < shown[k]
        }),
    decreases n,
{
    if n > 0 {
        law_local_filter_shows_exactly_matches(lowered_names, lowered_query, (n - 1) as nat);
        let front = shown_indices(lowered_names, lowered_query, SearchMode::Local, (n - 1) as nat);
        let shown = shown_indices(lowered_names, lowered_query, SearchMode::Local, n);
        if has_infix(lowered_names[n - 1], lowered_query) {
            assert(shown == front.push((n - 1) as usize));
            assert(((n - 1) as usize) as int == n - 1);
            assert forall|j: int| 0 <= j < shown.len() implies (#[trigger] shown[j]) < n
                && has_infix(lowered_names[shown[j] as int], lowered_query) by {
                if j < front.len() {
                    assert(shown[j] == front[j]);
                }
            }
            assert forall|j: int, k: int| 0 <= j < k < shown.len() implies shown[j] < shown[k] by {
                assert(shown[j] == front[j]);
                if k < front.len() {
                    assert(shown[k] == front[k]);
                }
            }
            assert forall|i: int| 0 <= i < n && #[trigger] has_infix(lowered_names[i], lowered_query)
                implies shown.contains(i as usize) by {
                if i < n - 1 {
                    let j = choose|j: int| 0 <= j < front.len() && front[j] == i as usize;
                    assert(shown[j] == i as usize);
                } else {
                    assert(shown[front.len() as int] == i as usize);
                }
            }
        } else {
            assert(shown == front);
        }
    }
}


/// Typing changes only the query; moving the seek bar changes only the position;
/// switching the search mode flips it and changes nothing else. None asks for work.
pub proof fn law_input_events_change_one_field(s: PlayerView, q: Seq<char>, p: u64)
    ensures
        step(s, EventView::SearchInputChanged(q)) == (PlayerView { search_query: q, ..s }, ActionView::Nothing),
        step(s, EventView::SeekChanged(p)) == (PlayerView { current_position_ms: p, ..s }, ActionView::Nothing),
        step(s, EventView::SetSearchMode).0.search_mode != s.search_mode,
        step(s, EventView::SetSearchMode).0 == (PlayerView {
            search_mode: step(s, EventView::SetSearchMode).0.search_mode,
            ..s
        }),
{
}

/// Window gestures leave the player as it is and ask for the matching window command.
pub proof fn law_window_events(s: PlayerView)
    ensures
        step(s, EventView::MinimizeWindow) == (s, ActionView::Window(WindowCommand::Minimize)),
        step(s, EventView::MaximizeWindow) == (s, ActionView::Window(WindowCommand::ToggleMaximize)),
        step(s, EventView::CloseWindow) == (s, ActionView::Window(WindowCommand::Close)),
        step(s, EventView::DragWindow) == (s, ActionView::Window(WindowCommand::Drag)),
{
}

/// Pausing stops playback wherever it is; a tick while paused changes nothing.
pub proof fn law_pause_and_idle_tick(s: PlayerView)
    ensures
        step(s, EventView::Pause) == (PlayerView { is_playing: false, ..s }, ActionView::PausePlayback),
        !s.is_playing ==> step(s, EventView::Tick) == (s, ActionView::Nothing),
        s.is_playing && s.current_position_ms + 250 < s.song_duration_ms ==> step(s, EventView::Tick)
            == (PlayerView { current_position_ms: (s.current_position_ms + 250) as u64, ..s }, ActionView::Nothing),
{
}

/// Selecting a song selects it whatever happens next, and asks to load exactly
/// that song when the list has it; pressing play loads the selected song unless it
/// is already the current one, and does nothing with no selection.
pub proof fn law_select_and_play(s: PlayerView, i: usize)
    ensures
        step(s, EventView::SelectSong(i)).0 == (PlayerView { selected_song: Some(i), ..s }),
        i < s.path_list.len() ==> step(s, EventView::SelectSong(i)).1 == (ActionView::LoadSong {
            index: i,
            path: s.path_list[i as int],
        }),
        i >= s.path_list.len() ==> step(s, EventView::SelectSong(i)).1 == ActionView::Nothing,
        s.selected_song is None ==> step(s, EventView::Play) == (s, ActionView::Nothing),
        s.selected_song == Some(i) && s.current_song != Some(i) && i < s.path_list.len() ==> step(
            s,
            EventView::Play,
        ) == (s, ActionView::LoadSong { index: i, path: s.path_list[i as int] }),
{
}

/// Releasing the seek bar changes nothing and asks to seek to the shown position,
/// keeping the playing state, with the selected song's path to reload from.
pub proof fn law_seek_release(s: PlayerView)
    ensures
        step(s, EventView::SeekReleased).0 == s,
        step(s, EventView::SeekReleased).1 == (ActionView::Seek {
            target_ms: s.current_position_ms,
            reload: seek_reload(s),
            keep_playing: s.is_playing,
        }),
        s.selected_song matches Some(i) && i < s.path_list.len() ==> seek_reload(s) == Some(
            s.path_list[s.selected_song->0 as int],
        ),
        s.selected_song is None ==> seek_reload(s) is None,
{
}

/// Search results end the search: found songs become the results; a failure
/// empties them and is reported with its message.
pub proof fn law_search_results_end_search(s: PlayerView, found: Seq<SongView>, e: Seq<char>)
    ensures
        step(s, EventView::SearchResultsReceived(Ok(found))) == (PlayerView {
            is_searching: false,
            search_results: found,
            ..s
        }, ActionView::Nothing),
        step(s, EventView::SearchResultsReceived(Err(e))) == (PlayerView {
            is_searching: false,
            search_results: seq![],
            ..s
        }, ActionView::ReportSearchError(e)),
{
}

/// A finished download ends the download: on success the query is emptied and the
/// songs are reloaded under the saved title; on failure the query stays and the
/// message is reported.
pub proof fn law_download_finished(s: PlayerView, t: Seq<char>, e: Seq<char>)
    ensures
        step(s, EventView::DownloadFinished(Ok(t))) == (PlayerView {
            is_downloading: false,
            search_query: seq![],
            ..s
        }, ActionView::ReloadSongs(t)),
        step(s, EventView::DownloadFinished(Err(e))) == (PlayerView { is_downloading: false, ..s }, ActionView::ReportDownloadError(e)),
{
}


proof fn lemma_songs_come_from_records(p: ApiProvider, records: Seq<JsonValue>)
    ensures
        forall|j: int| 0 <= j < records_songs(p, records).len() ==> exists|i: int|
            0 <= i < records.len() && record_song(p, #[trigger] records[i]) == Some(
                #[trigger] records_songs(p, records)[j],
            ),
    decreases records.len(),
{
    if records.len() > 0 {
        let front = records.drop_last();
        lemma_songs_come_from_records(p, front);
        let songs = records_songs(p, records);
        assert forall|j: int| 0 <= j < songs.len() implies exists|i: int|
            0 <= i < records.len() && record_song(p, #[trigger] records[i]) == Some(
                #[trigger] songs[j],
            ) by {
            if j < records_songs(p, front).len() {
                assert(songs[j] == records_songs(p, front)[j]);
                let i = choose|i: int| 0 <= i < front.len() && record_song(p, #[trigger] front[i])
                    == Some(records_songs(p, front)[j]);
                assert(records[i] == front[i]);
            } else {
                assert(records[records.len() - 1] == records.last());
            }
        }
    }
}

proof fn lemma_title_suffix(c: Seq<char>, t: Seq<char>)
    ensures
        has_suffix(c + " - "@ + t, " - "@ + t),
{
    let whole = c + " - "@ + t;
    assert(whole.subrange(whole.len() - (" - "@ + t).len(), whole.len() as int) =~= " - "@ + t);
}

/// Every song that a search shows comes from a record of the answer: its id is
/// the record's id (`id` for Audius, `identifier` for Archive.org), and its title
/// ends with ` - ` and the record's title.
pub proof fn law_shown_songs_come_from_records(p: ApiProvider, answer: JsonValue)
    ensures
        search_outcome(p, answer) matches Ok(songs) ==> forall|j: int| #![trigger songs[j]]
            0 <= j < songs.len() ==> exists|i: int|
            #![trigger answer_records(p, answer)->0[i]]
            0 <= i < answer_records(p, answer)->0.len() && {
                let rec = answer_records(p, answer)->0[i];
                &&& json_str_field(rec, if p == ApiProvider::Audius { "id"@ } else { "identifier"@ })
                    == Some(songs[j].id)
                &&& json_str_field(rec, "title"@) is Some
                &&& has_suffix(songs[j].title, " - "@ + json_str_field(rec, "title"@)->0)
            },
{
    if let Some(records) = answer_records(p, answer) {
        lemma_songs_come_from_records(p, records);
        let all = records_songs(p, records);
        if let Ok(songs) = search_outcome(p, answer) {
            assert forall|j: int| #![trigger songs[j]] 0 <= j < songs.len() implies exists|i: int|
                #![trigger answer_records(p, answer)->0[i]]
                0 <= i < answer_records(p, answer)->0.len() && {
                    let rec = answer_records(p, answer)->0[i];
                    &&& json_str_field(rec, if p == ApiProvider::Audius { "id"@ } else { "identifier"@ })
                        == Some(songs[j].id)
                    &&& json_str_field(rec, "title"@) is Some
                    &&& has_suffix(songs[j].title, " - "@ + json_str_field(rec, "title"@)->0)
                } by {
                assert(songs[j] == all[j]);
                let i = choose|i: int| 0 <= i < records.len() && record_song(p, #[trigger] records[i])
                    == Some(#[trigger] all[j]);
                let rec = records[i];
                let t = json_str_field(rec, "title"@)->0;
                let credit = match p {
                    ApiProvider::Audius => match json_str_field(json_field(rec, "user"@), "name"@) {
                        Some(c) => c,
                        None => "Unknown"@,
                    },
                    ApiProvider::ArchiveOrg => match json_str_field(rec, "creator"@) {
                        Some(c) => c,
                        None => "Archive Audio"@,
                    },
                };
                lemma_title_suffix(credit, t);
            }
        }
    }
}

/// The file chosen from an item's metadata is the name of one of its entries, that
/// name ends with `.mp3` in lower case, and no earlier entry's name does.
pub proof fn law_chosen_archive_file_is_first_mp3(metadata: JsonValue)
    ensures
        archive_file_outcome(metadata) matches Ok(name) ==> {
            let files = json_array(json_field(metadata, "files"@))->0;
            exists|i: int|
                0 <= i < files.len() && #[trigger] json_str_field(files[i], "name"@) == Some(name)
                    && has_suffix(lowercase_of(name), ".mp3"@) && forall|j: int|
                    0 <= j < i ==> !has_suffix(lowercase_of(entry_name(#[trigger] files[j])), ".mp3"@)
        },
{
    if let Some(files) = json_array(json_field(metadata, "files"@)) {
        if let Ok(name) = archive_file_outcome(metadata) {
            let lowered = crate::catalog::lowered_entry_names(files);
            let i = choose|i: int| crate::catalog::first_mp3_at(lowered, i);
            assert(lowered[i] == lowercase_of(entry_name(files[i])));
            assert forall|j: int| 0 <= j < i implies !has_suffix(
                lowercase_of(entry_name(#[trigger] files[j])),
                ".mp3"@,
            ) by {
                assert(lowered[j] == lowercase_of(entry_name(files[j])));
            }
        }
    }
}

/// A download is never saved under a blank title: the sanitized title when it is
/// not blank, else the fallback, which a non-blank prefix keeps from being blank.
pub proof fn law_saved_title_never_blank(clean: Seq<char>, prefix: Seq<char>, id: Seq<char>)
    requires
        !is_blank_text(prefix),
    ensures
        !is_blank_text(saved_title(clean, prefix, id)),
        !is_blank_text(clean) ==> saved_title(clean, prefix, id) == clean,
        is_blank_text(clean) ==> saved_title(clean, prefix, id).take(prefix.len() as int) == prefix,
{
    if is_blank_text(clean) {
        let t = prefix + id;
        let k = choose|k: int| 0 <= k < prefix.len() && !crate::text::is_white_space(prefix[k]);
        assert(t[k] == prefix[k]);
        assert(t.take(prefix.len() as int) =~= prefix);
    }
}

/// The whole seconds of a time are its milliseconds divided by a thousand, rounded
/// down, and capped at the largest `u32`.
pub proof fn law_whole_seconds(ms: u64)
    ensures
        ms < 1000 * (u32::MAX as int + 1) ==> whole_seconds(ms) * 1000 <= ms < whole_seconds(ms) * 1000 + 1000,
        ms >= 1000 * (u32::MAX as int + 1) ==> whole_seconds(ms) == u32::MAX,
{
}

} // verus!
