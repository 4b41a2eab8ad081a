use vstd::prelude::*;
use crate::model::{ActiveTab, ApiProvider, OnlineSong, SearchMode, SongView, songs_view};
use crate::text::{is_blank, is_blank_text};

verus! {

/// One entry of the songs directory: its file name, when that is valid UTF-8,
/// and its path, when that is valid UTF-8.
pub struct SongFile {
    pub file_name: Option<String>,
    pub path: Option<String>,
}

/// The duration assumed for a song whose decoder cannot tell it: three minutes.
pub const DEFAULT_DURATION_MS: u64 = 180_000;

/// How far a clock tick moves the playback position: a quarter of a second.
pub const TICK_MS: u64 = 250;

/// What the player shows and remembers between events. Times are in milliseconds.
pub struct PlayerState {
    /// The names of the songs, in directory order.
    pub list: Vec<String>,
    /// The paths of the songs, in directory order.
    pub path_list: Vec<String>,
    pub selected_song: Option<usize>,
    pub current_song: Option<usize>,
    pub is_playing: bool,
    pub current_position_ms: u64,
    pub song_duration_ms: u64,
    pub search_query: String,
    pub search_mode: SearchMode,
    pub search_results: Vec<OnlineSong>,
    pub is_searching: bool,
    pub is_downloading: bool,
    pub active_tab: ActiveTab,
    pub api_provider: ApiProvider,
}

/// A window command that the user asked for.
#[derive(Debug, Clone, Copy, PartialEq, Eq, Structural)]
pub enum WindowCommand {
    Minimize,
    ToggleMaximize,
    Close,
    Drag,
}

/// What happens to the player: a user's gesture, a clock tick, or the outcome of
/// work that the player asked for.
pub enum PlayerEvent {
    MinimizeWindow,
    MaximizeWindow,
    CloseWindow,
    DragWindow,
    Play,
    SelectSong(usize),
    Pause,
    SeekChanged(u64),
    SeekReleased,
    Tick,
    NextSong,
    PrevSong,
    SearchInputChanged(String),
    SetSearchMode,
    SubmitSearch,
    SearchResultsReceived(Result<Vec<OnlineSong>, String>),
    SelectOnlineSong(OnlineSong),
    DownloadFinished(Result<String, String>),
    SwitchTab(ActiveTab),
    SelectApiProvider(ApiProvider),
    /// The song at `index` was opened and decoded; `duration_ms` is its length when known.
    SongLoaded { index: usize, duration_ms: Option<u64> },
}

/// The work that an event asks of the world around the player.
pub enum PlayerAction {
    Nothing,
    Window(WindowCommand),
    /// Open and decode the file at `path`; on success report `SongLoaded` for `index`.
    LoadSong { index: usize, path: String },
    /// Stop the output, queue the song just decoded, play it and show its cover.
    StartLoadedSong,
    ResumePlayback,
    PausePlayback,
    StopPlayback,
    /// Move the output to `target_ms`; if the output cannot, decode `reload`
    /// afresh from there and queue it, playing or paused as `keep_playing` says.
    Seek { target_ms: u64, reload: Option<String>, keep_playing: bool },
    /// Search `provider` for `query` and report `SearchResultsReceived`.
    Search { query: String, provider: ApiProvider },
    ReportSearchError(String),
    /// Download song `id` titled `title` from `provider` and report `DownloadFinished`.
    Download { id: String, title: String, provider: ApiProvider },
    /// Report the downloaded `title`, read the songs directory again and hand it to `reload_songs`.
    ReloadSongs(String),
    ReportDownloadError(String),
}

// ---------------------------------------------------------------------------
// Views

/// The texts of a list of strings.
pub open spec fn strings_view(v: Seq<String>) -> Seq<Seq<char>> {
    v.map_values(|s: String| s@)
}

/// What a directory entry holds, as texts.
pub struct SongFileView {
    pub file_name: Option<Seq<char>>,
    pub path: Option<Seq<char>>,
}

impl View for SongFile {
    type V = SongFileView;

    open spec fn view(&self) -> SongFileView {
        SongFileView {
            file_name: match self.file_name {
                Some(n) => Some(n@),
                None => None,
            },
            path: match self.path {
                Some(p) => Some(p@),
                None => None,
            },
        }
    }
}

/// The player's state, as texts and numbers.
pub struct PlayerView {
    pub list: Seq<Seq<char>>,
    pub path_list: Seq<Seq<char>>,
    pub selected_song: Option<usize>,
    pub current_song: Option<usize>,
    pub is_playing: bool,
    pub current_position_ms: u64,
    pub song_duration_ms: u64,
    pub search_query: Seq<char>,
    pub search_mode: SearchMode,
    pub search_results: Seq<SongView>,
    pub is_searching: bool,
    pub is_downloading: bool,
    pub active_tab: ActiveTab,
    pub api_provider: ApiProvider,
}

impl View for PlayerState {
    type V = PlayerView;

    open spec fn view(&self) -> PlayerView {
        PlayerView {
            list: strings_view(self.list@),
            path_list: strings_view(self.path_list@),
            selected_song: self.selected_song,
            current_song: self.current_song,
            is_playing: self.is_playing,
            current_position_ms: self.current_position_ms,
            song_duration_ms: self.song_duration_ms,
            search_query: self.search_query@,
            search_mode: self.search_mode,
            search_results: songs_view(self.search_results@),
            is_searching: self.is_searching,
            is_downloading: self.is_downloading,
            active_tab: self.active_tab,
            api_provider: self.api_provider,
        }
    }
}

/// An event, as texts and numbers.
pub enum EventView {
    MinimizeWindow,
    MaximizeWindow,
    CloseWindow,
    DragWindow,
    Play,
    SelectSong(usize),
    Pause,
    SeekChanged(u64),
    SeekReleased,
    Tick,
    NextSong,
    PrevSong,
    SearchInputChanged(Seq<char>),
    SetSearchMode,
    SubmitSearch,
    SearchResultsReceived(Result<Seq<SongView>, Seq<char>>),
    SelectOnlineSong(SongView),
    DownloadFinished(Result<Seq<char>, Seq<char>>),
    SwitchTab(ActiveTab),
    SelectApiProvider(ApiProvider),
    SongLoaded { index: usize, duration_ms: Option<u64> },
}

impl View for PlayerEvent {
    type V = EventView;

    open spec fn view(&self) -> EventView {
        match self {
            PlayerEvent::MinimizeWindow => EventView::MinimizeWindow,
            PlayerEvent::MaximizeWindow => EventView::MaximizeWindow,
            PlayerEvent::CloseWindow => EventView::CloseWindow,
            PlayerEvent::DragWindow => EventView::DragWindow,
            PlayerEvent::Play => EventView::Play,
            PlayerEvent::SelectSong(i) => EventView::SelectSong(*i),
            PlayerEvent::Pause => EventView::Pause,
            PlayerEvent::SeekChanged(p) => EventView::SeekChanged(*p),
            PlayerEvent::SeekReleased => EventView::SeekReleased,
            PlayerEvent::Tick => EventView::Tick,
            PlayerEvent::NextSong => EventView::NextSong,
            PlayerEvent::PrevSong => EventView::PrevSong,
            PlayerEvent::SearchInputChanged(q) => EventView::SearchInputChanged(q@),
            PlayerEvent::SetSearchMode => EventView::SetSearchMode,
            PlayerEvent::SubmitSearch => EventView::SubmitSearch,
            PlayerEvent::SearchResultsReceived(r) => EventView::SearchResultsReceived(
                match r {
                    Ok(v) => Ok(songs_view(v@)),
                    Err(e) => Err(e@),
                },
            ),
            PlayerEvent::SelectOnlineSong(s) => EventView::SelectOnlineSong(s@),
            PlayerEvent::DownloadFinished(r) => EventView::DownloadFinished(
                match r {
                    Ok(t) => Ok(t@),
                    Err(e) => Err(e@),
                },
            ),
            PlayerEvent::SwitchTab(t) => EventView::SwitchTab(*t),
            PlayerEvent::SelectApiProvider(p) => EventView::SelectApiProvider(*p),
            PlayerEvent::SongLoaded { index, duration_ms } => EventView::SongLoaded {
                index: *index,
                duration_ms: *duration_ms,
            },
        }
    }
}

/// An action, as texts and numbers.
pub enum ActionView {
    Nothing,
    Window(WindowCommand),
    LoadSong { index: usize, path: Seq<char> },
    StartLoadedSong,
    ResumePlayback,
    PausePlayback,
    StopPlayback,
    Seek { target_ms: u64, reload: Option<Seq<char>>, keep_playing: bool },
    Search { query: Seq<char>, provider: ApiProvider },
    ReportSearchError(Seq<char>),
    Download { id: Seq<char>, title: Seq<char>, provider: ApiProvider },
    ReloadSongs(Seq<char>),
    ReportDownloadError(Seq<char>),
}

impl View for PlayerAction {
    type V = ActionView;

    open spec fn view(&self) -> ActionView {
        match self {
            PlayerAction::Nothing => ActionView::Nothing,
            PlayerAction::Window(c) => ActionView::Window(*c),
            PlayerAction::LoadSong { index, path } => ActionView::LoadSong { index: *index, path: path@ },
            PlayerAction::StartLoadedSong => ActionView::StartLoadedSong,
            PlayerAction::ResumePlayback => ActionView::ResumePlayback,
            PlayerAction::PausePlayback => ActionView::PausePlayback,
            PlayerAction::StopPlayback => ActionView::StopPlayback,
            PlayerAction::Seek { target_ms, reload, keep_playing } => ActionView::Seek {
                target_ms: *target_ms,
                reload: match reload {
                    Some(p) => Some(p@),
                    None => None,
                },
                keep_playing: *keep_playing,
            },
            PlayerAction::Search { query, provider } => ActionView::Search { query: query@, provider: *provider },
            PlayerAction::ReportSearchError(e) => ActionView::ReportSearchError(e@),
            PlayerAction::Download { id, title, provider } => ActionView::Download {
                id: id@,
                title: title@,
                provider: *provider,
            },
            PlayerAction::ReloadSongs(t) => ActionView::ReloadSongs(t@),
            PlayerAction::ReportDownloadError(e) => ActionView::ReportDownloadError(e@),
        }
    }
}

// ---------------------------------------------------------------------------
// The rules

/// The song names of a directory listing: the entries whose file name is valid UTF-8.
pub open spec fn listed_names(entries: Seq<SongFileView>) -> Seq<Seq<char>>
    decreases entries.len(),
{
    if entries.len() == 0 {
        seq![]
    } else {
        let front = listed_names(entries.drop_last());
        match entries.last().file_name {
            Some(n) => front.push(n),
            None => front,
        }
    }
}

/// The song paths of a directory listing: every entry's path, empty where it is not valid UTF-8.
pub open spec fn listed_paths(entries: Seq<SongFileView>) -> Seq<Seq<char>> {
    entries.map_values(
        |e: SongFileView|
            match e.path {
                Some(p) => p,
                None => seq![],
            },
    )
}

/// The views of directory entries.
pub open spec fn files_view(entries: Seq<SongFile>) -> Seq<SongFileView> {
    entries.map_values(|e: SongFile| e@)
}

/// Asking to play song `index`: load it when there is a path for it, else nothing.
pub open spec fn start_song(s: PlayerView, index: usize) -> (PlayerView, ActionView) {
    if index < s.path_list.len() {
        (s, ActionView::LoadSong { index, path: s.path_list[index as int] })
    } else {
        (s, ActionView::Nothing)
    }
}

/// The song after the current one (the first when none is current), wrapping round.
pub open spec fn next_index(s: PlayerView) -> int
    recommends
        s.path_list.len() > 0,
{
    let c = match s.current_song {
        Some(c) => c as int,
        None => 0,
    };
    (c + 1) % (s.path_list.len() as int)
}

/// The song before the current one (the first when none is current), wrapping round.
pub open spec fn prev_index(s: PlayerView) -> int
    recommends
        s.path_list.len() > 0,
{
    let c = match s.current_song {
        Some(c) => c as int,
        None => 0,
    };
    if c == 0 {
        s.path_list.len() - 1
    } else {
        c - 1
    }
}

/// The path that a seek reloads from when the output cannot seek: the selected song's.
pub open spec fn seek_reload(s: PlayerView) -> Option<Seq<char>> {
    match s.selected_song {
        Some(i) => if i < s.path_list.len() {
            Some(s.path_list[i as int])
        } else {
            None
        },
        None => None,
    }
}

/// The player's rules: the state after an event, and the work it asks for.
pub open spec fn step(s: PlayerView, e: EventView) -> (PlayerView, ActionView) {
    match e {
        EventView::SwitchTab(t) => (PlayerView { active_tab: t, ..s }, ActionView::Nothing),
        EventView::SelectApiProvider(p) => (PlayerView { api_provider: p, ..s }, ActionView::Nothing),
        EventView::MinimizeWindow => (s, ActionView::Window(WindowCommand::Minimize)),
        EventView::MaximizeWindow => (s, ActionView::Window(WindowCommand::ToggleMaximize)),
        EventView::CloseWindow => (s, ActionView::Window(WindowCommand::Close)),
        EventView::DragWindow => (s, ActionView::Window(WindowCommand::Drag)),
        EventView::SelectSong(i) => start_song(PlayerView { selected_song: Some(i), ..s }, i),
        EventView::Play => match s.selected_song {
            Some(i) => if s.current_song != Some(i) {
                start_song(s, i)
            } else {
                (PlayerView { is_playing: true, ..s }, ActionView::ResumePlayback)
            },
            None => (s, ActionView::Nothing),
        },
        EventView::Pause => (PlayerView { is_playing: false, ..s }, ActionView::PausePlayback),
        EventView::SeekChanged(p) => (PlayerView { current_position_ms: p, ..s }, ActionView::Nothing),
        EventView::SeekReleased => (
            s,
            ActionView::Seek {
                target_ms: s.current_position_ms,
                reload: seek_reload(s),
                keep_playing: s.is_playing,
            },
        ),
        EventView::Tick => if !s.is_playing {
            (s, ActionView::Nothing)
        } else if s.current_position_ms + TICK_MS >= s.song_duration_ms {
            (PlayerView { current_position_ms: 0, is_playing: false, ..s }, ActionView::StopPlayback)
        } else {
            (
                PlayerView { current_position_ms: (s.current_position_ms + TICK_MS) as u64, ..s },
                ActionView::Nothing,
            )
        },
        EventView::NextSong => if s.path_list.len() == 0 {
            (s, ActionView::Nothing)
        } else {
            start_song(s, next_index(s) as usize)
        },
        EventView::PrevSong => if s.path_list.len() == 0 {
            (s, ActionView::Nothing)
        } else {
            start_song(s, prev_index(s) as usize)
        },
        EventView::SearchInputChanged(q) => (PlayerView { search_query: q, ..s }, ActionView::Nothing),
        EventView::SetSearchMode => (
            PlayerView {
                search_mode: match s.search_mode {
                    SearchMode::Local => SearchMode::Internet,
                    SearchMode::Internet => SearchMode::Local,
                },
                ..s
            },
            ActionView::Nothing,
        ),
        EventView::SubmitSearch => if s.search_mode == SearchMode::Internet && !is_blank_text(
            s.search_query,
        ) && !s.is_searching {
            (
                PlayerView { is_searching: true, search_results: seq![], ..s },
                ActionView::Search { query: s.search_query, provider: s.api_provider },
            )
        } else {
            (s, ActionView::Nothing)
        },
        EventView::SearchResultsReceived(r) => match r {
            Ok(found) => (
                PlayerView { is_searching: false, search_results: found, ..s },
                ActionView::Nothing,
            ),
            Err(e) => (
                PlayerView { is_searching: false, search_results: seq![], ..s },
                ActionView::ReportSearchError(e),
            ),
        },
        EventView::SelectOnlineSong(song) => (
            PlayerView { is_downloading: true, search_results: seq![], ..s },
            ActionView::Download { id: song.id, title: song.title, provider: s.api_provider },
        ),
        EventView::DownloadFinished(r) => match r {
            Ok(title) => (
                PlayerView { is_downloading: false, search_query: seq![], ..s },
                ActionView::ReloadSongs(title),
            ),
            Err(e) => (PlayerView { is_downloading: false, ..s }, ActionView::ReportDownloadError(e)),
        },
        EventView::SongLoaded { index, duration_ms } => (
            PlayerView {
                song_duration_ms: match duration_ms {
                    Some(d) => d,
                    None => DEFAULT_DURATION_MS,
                },
                current_position_ms: 0,
                selected_song: Some(index),
                current_song: Some(index),
                is_playing: true,
                ..s
            },
            ActionView::StartLoadedSong,
        ),
    }
}


// ---------------------------------------------------------------------------
// The code

/// Builds the song names and paths of a directory listing, in its order.
pub fn song_lists(entries: Vec<SongFile>) -> (r: (Vec<String>, Vec<String>))
    ensures
        strings_view(r.0@) == listed_names(files_view(entries@)),
        strings_view(r.1@) == listed_paths(files_view(entries@)),
{
    let mut names: Vec<String> = Vec::new();
    let mut paths: Vec<String> = Vec::new();
    let ghost listing = entries@;
    let mut i: usize = 0;
    let n = entries.len();
    assert(listing.take(0) =~= Seq::<SongFile>::empty());
    while i < n
        invariant
            n == listing.len(),
            i <= n,
            strings_view(names@) == listed_names(files_view(listing.take(i as int))),
            strings_view(paths@) == listed_paths(files_view(listing.take(i as int))),
            listing == entries@,
        decreases n - i,
    {
        let entry = &entries[i];
        let ghost before = listing.take(i as int);
        assert(listing.take(i + 1).drop_last() =~= before);
        assert(files_view(listing.take(i + 1)).drop_last() =~= files_view(before));
        match &entry.file_name {
            Some(name) => {
                names.push(name.clone());
                assert(strings_view(names@) =~= strings_view(names@.drop_last()).push(names@.last()@));
            },
            None => {},
        }
        let path = match &entry.path {
            Some(p) => p.clone(),
            None => String::new(),
        };
        paths.push(path);
        assert(strings_view(paths@) =~= strings_view(paths@.drop_last()).push(paths@.last()@));
        assert(listed_paths(files_view(listing.take(i + 1))) =~= listed_paths(files_view(before)).push(
            listed_paths(files_view(listing.take(i + 1))).last(),
        ));
        i = i + 1;
    }
    assert(listing.take(n as int) =~= listing);
    (names, paths)
}

impl PlayerState {
    /// The player as it starts: the given songs, nothing selected or playing,
    /// a three-minute duration, an empty local search, the player tab and Audius.
    pub fn new(entries: Vec<SongFile>) -> (r: PlayerState)
        ensures
            r@.list == listed_names(files_view(entries@)),
            r@.path_list == listed_paths(files_view(entries@)),
            r.selected_song is None,
            r.current_song is None,
            !r.is_playing,
            r.current_position_ms == 0,
            r.song_duration_ms == DEFAULT_DURATION_MS,
            r.search_query@ == Seq::<char>::empty(),
            r.search_mode == SearchMode::Local,
            r.search_results@.len() == 0,
            !r.is_searching,
            !r.is_downloading,
            r.active_tab == ActiveTab::Player,
            r.api_provider == ApiProvider::Audius,
    {
        let (list, path_list) = song_lists(entries);
        PlayerState {
            list,
            path_list,
            selected_song: None,
            current_song: None,
            is_playing: false,
            current_position_ms: 0,
            song_duration_ms: DEFAULT_DURATION_MS,
            search_query: String::new(),
            search_mode: SearchMode::Local,
            search_results: Vec::new(),
            is_searching: false,
            is_downloading: false,
            active_tab: ActiveTab::Player,
            api_provider: ApiProvider::Audius,
        }
    }

    /// Replaces the song lists with those of a fresh directory listing; nothing else changes.
    pub fn reload_songs(&mut self, entries: Vec<SongFile>)
        ensures
            final(self)@ == (PlayerView {
                list: listed_names(files_view(entries@)),
                path_list: listed_paths(files_view(entries@)),
                ..old(self)@
            }),
    {
        let (list, path_list) = song_lists(entries);
        self.list = list;
        self.path_list = path_list;
    }

    /// Whether the clock should tick: only while a song plays.
    pub fn ticking(&self) -> (r: bool)
        ensures
            r == self.is_playing,
    {
        self.is_playing
    }

    fn start_song(&self, index: usize) -> (r: PlayerAction)
        ensures
            r@ == start_song(self@, index).1,
    {
        if index < self.path_list.len() {
            PlayerAction::LoadSong { index, path: self.path_list[index].clone() }
        } else {
            PlayerAction::Nothing
        }
    }

    fn on_play(&mut self) -> (r: PlayerAction)
        ensures
            (final(self)@, r@) == step(old(self)@, EventView::Play),
    {
        match self.selected_song {
            Some(index) => {
                if self.current_song != Some(index) {
                    self.start_song(index)
                } else {
                    self.is_playing = true;
                    PlayerAction::ResumePlayback
                }
            },
            None => PlayerAction::Nothing,
        }
    }

    fn on_seek_released(&self) -> (r: PlayerAction)
        ensures
            (self@, r@) == step(self@, EventView::SeekReleased),
    {
        let reload = match self.selected_song {
            Some(index) => if index < self.path_list.len() {
                Some(self.path_list[index].clone())
            } else {
                None
            },
            None => None,
        };
        PlayerAction::Seek { target_ms: self.current_position_ms, reload, keep_playing: self.is_playing }
    }

    fn on_tick(&mut self) -> (r: PlayerAction)
        ensures
            (final(self)@, r@) == step(old(self)@, EventView::Tick),
    {
        if self.is_playing {
            let next = self.current_position_ms.saturating_add(TICK_MS);
            if next >= self.song_duration_ms {
                self.current_position_ms = 0;
                self.is_playing = false;
                PlayerAction::StopPlayback
            } else {
                self.current_position_ms = next;
                PlayerAction::Nothing
            }
        } else {
            PlayerAction::Nothing
        }
    }

    fn on_next(&self) -> (r: PlayerAction)
        ensures
            (self@, r@) == step(self@, EventView::NextSong),
    {
        let len = self.path_list.len();
        if len == 0 {
            PlayerAction::Nothing
        } else {
            let current = match self.current_song {
                Some(c) => c,
                None => 0,
            };
            let next = (current % len + 1) % len;
            proof {
                vstd::arithmetic::div_mod::lemma_add_mod_noop_right(1, current as int, len as int);
            }
            self.start_song(next)
        }
    }

    fn on_prev(&self) -> (r: PlayerAction)
        ensures
            (self@, r@) == step(self@, EventView::PrevSong),
    {
        let len = self.path_list.len();
        if len == 0 {
            PlayerAction::Nothing
        } else {
            let current = match self.current_song {
                Some(c) => c,
                None => 0,
            };
            let prev = if current == 0 {
                len - 1
            } else {
                current - 1
            };
            self.start_song(prev)
        }
    }

    fn on_submit_search(&mut self) -> (r: PlayerAction)
        ensures
            (final(self)@, r@) == step(old(self)@, EventView::SubmitSearch),
    {
        if self.search_mode == SearchMode::Internet && !is_blank(self.search_query.as_str())
            && !self.is_searching {
            self.is_searching = true;
            self.search_results = Vec::new();
            assert(songs_view(self.search_results@) =~= Seq::<SongView>::empty());
            PlayerAction::Search { query: self.search_query.clone(), provider: self.api_provider }
        } else {
            PlayerAction::Nothing
        }
    }

    fn on_song_loaded(&mut self, index: usize, duration_ms: Option<u64>) -> (r: PlayerAction)
        ensures
            (final(self)@, r@) == step(old(self)@, EventView::SongLoaded { index, duration_ms }),
    {
        self.song_duration_ms = match duration_ms {
            Some(d) => d,
            None => DEFAULT_DURATION_MS,
        };
        self.current_position_ms = 0;
        self.selected_song = Some(index);
        self.current_song = Some(index);
        self.is_playing = true;
        PlayerAction::StartLoadedSong
    }

    fn on_search_results(&mut self, result: Result<Vec<OnlineSong>, String>) -> (r: PlayerAction)
        ensures
            (final(self)@, r@) == step(
                old(self)@,
                EventView::SearchResultsReceived(
                    match result {
                        Ok(v) => Ok(songs_view(v@)),
                        Err(e) => Err(e@),
                    },
                ),
            ),
    {
        self.is_searching = false;
        match result {
            Ok(results) => {
                self.search_results = results;
                PlayerAction::Nothing
            },
            Err(err) => {
                self.search_results = Vec::new();
                assert(songs_view(self.search_results@) =~= Seq::<SongView>::empty());
                PlayerAction::ReportSearchError(err)
            },
        }
    }

    fn on_download_finished(&mut self, result: Result<String, String>) -> (r: PlayerAction)
        ensures
            (final(self)@, r@) == step(
                old(self)@,
                EventView::DownloadFinished(
                    match result {
                        Ok(t) => Ok(t@),
                        Err(e) => Err(e@),
                    },
                ),
            ),
    {
        self.is_downloading = false;
        match result {
            Ok(title) => {
                self.search_query = String::new();
                PlayerAction::ReloadSongs(title)
            },
            Err(err) => PlayerAction::ReportDownloadError(err),
        }
    }

    /// Applies an event: the state changes as `step` says, and the returned
    /// action is the work that `step` asks for.
    pub fn update(&mut self, event: PlayerEvent) -> (r: PlayerAction)
        ensures
            (final(self)@, r@) == step(old(self)@, event@),
    {
        match event {
            PlayerEvent::SwitchTab(tab) => {
                self.active_tab = tab;
                PlayerAction::Nothing
            },
            PlayerEvent::SelectApiProvider(provider) => {
                self.api_provider = provider;
                PlayerAction::Nothing
            },
            PlayerEvent::MinimizeWindow => PlayerAction::Window(WindowCommand::Minimize),
            PlayerEvent::MaximizeWindow => PlayerAction::Window(WindowCommand::ToggleMaximize),
            PlayerEvent::CloseWindow => PlayerAction::Window(WindowCommand::Close),
            PlayerEvent::DragWindow => PlayerAction::Window(WindowCommand::Drag),
            PlayerEvent::SelectSong(index) => {
                self.selected_song = Some(index);
                self.start_song(index)
            },
            PlayerEvent::Play => self.on_play(),
            PlayerEvent::Pause => {
                self.is_playing = false;
                PlayerAction::PausePlayback
            },
            PlayerEvent::SeekChanged(position) => {
                self.current_position_ms = position;
                PlayerAction::Nothing
            },
            PlayerEvent::SeekReleased => self.on_seek_released(),
            PlayerEvent::Tick => self.on_tick(),
            PlayerEvent::NextSong => self.on_next(),
            PlayerEvent::PrevSong => self.on_prev(),
            PlayerEvent::SearchInputChanged(query) => {
                self.search_query = query;
                PlayerAction::Nothing
            },
            PlayerEvent::SetSearchMode => {
                self.search_mode = match self.search_mode {
                    SearchMode::Local => SearchMode::Internet,
                    SearchMode::Internet => SearchMode::Local,
                };
                PlayerAction::Nothing
            },
            PlayerEvent::SubmitSearch => self.on_submit_search(),
            PlayerEvent::SearchResultsReceived(result) => self.on_search_results(result),
            PlayerEvent::SelectOnlineSong(song) => {
                self.is_downloading = true;
                self.search_results = Vec::new();
                assert(songs_view(self.search_results@) =~= Seq::<SongView>::empty());
                PlayerAction::Download { id: song.id, title: song.title, provider: self.api_provider }
            },
            PlayerEvent::DownloadFinished(result) => self.on_download_finished(result),
            PlayerEvent::SongLoaded { index, duration_ms } => self.on_song_loaded(index, duration_ms),
        }
    }
}

} // verus!
