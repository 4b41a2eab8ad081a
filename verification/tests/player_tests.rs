use rplayer::model::{ActiveTab, ApiProvider, OnlineSong, SearchMode};
use rplayer::player::{PlayerAction, PlayerEvent, PlayerState, SongFile, WindowCommand, song_lists};

fn entry(name: Option<&str>, path: Option<&str>) -> SongFile {
    SongFile { file_name: name.map(|s| s.to_string()), path: path.map(|s| s.to_string()) }
}

fn three_songs() -> PlayerState {
    PlayerState::new(vec![
        entry(Some("a.mp3"), Some("./songs/a.mp3")),
        entry(Some("b.mp3"), Some("./songs/b.mp3")),
        entry(Some("c.mp3"), Some("./songs/c.mp3")),
    ])
}

fn load_path(a: &PlayerAction) -> Option<(usize, String)> {
    match a {
        PlayerAction::LoadSong { index, path } => Some((*index, path.clone())),
        _ => None,
    }
}

#[test]
fn new_player_defaults() {
    let p = three_songs();
    assert_eq!(p.list, vec!["a.mp3", "b.mp3", "c.mp3"]);
    assert_eq!(p.path_list.len(), 3);
    assert_eq!(p.selected_song, None);
    assert_eq!(p.current_song, None);
    assert!(!p.is_playing);
    assert_eq!(p.song_duration_ms, 180_000);
    assert_eq!(p.current_position_ms, 0);
    assert_eq!(p.search_mode, SearchMode::Local);
    assert_eq!(p.active_tab, ActiveTab::Player);
    assert_eq!(p.api_provider, ApiProvider::Audius);
    assert!(!p.ticking());
}

#[test]
fn song_lists_skip_bad_names_but_keep_paths() {
    let (names, paths) = song_lists(vec![entry(Some("a"), Some("p/a")), entry(None, Some("p/x")), entry(Some("b"), None)]);
    assert_eq!(names, vec!["a", "b"]);
    assert_eq!(paths, vec!["p/a", "p/x", ""]);
}

#[test]
fn select_song_loads_then_plays() {
    let mut p = three_songs();
    let a = p.update(PlayerEvent::SelectSong(1));
    assert_eq!(load_path(&a), Some((1, "./songs/b.mp3".to_string())));
    assert_eq!(p.selected_song, Some(1));
    assert!(!p.is_playing);
    let b = p.update(PlayerEvent::SongLoaded { index: 1, duration_ms: Some(200_000) });
    assert!(matches!(b, PlayerAction::StartLoadedSong));
    assert_eq!(p.current_song, Some(1));
    assert!(p.is_playing);
    assert!(p.ticking());
    assert_eq!(p.song_duration_ms, 200_000);
}

#[test]
fn select_missing_song_only_selects() {
    let mut p = three_songs();
    let a = p.update(PlayerEvent::SelectSong(7));
    assert!(matches!(a, PlayerAction::Nothing));
    assert_eq!(p.selected_song, Some(7));
}

#[test]
fn unknown_duration_defaults_to_three_minutes() {
    let mut p = three_songs();
    p.song_duration_ms = 5;
    p.update(PlayerEvent::SongLoaded { index: 0, duration_ms: None });
    assert_eq!(p.song_duration_ms, 180_000);
}

#[test]
fn next_and_prev_wrap() {
    let mut p = three_songs();
    assert_eq!(load_path(&p.update(PlayerEvent::NextSong)).unwrap().0, 1);
    assert_eq!(load_path(&p.update(PlayerEvent::PrevSong)).unwrap().0, 2);
    p.update(PlayerEvent::SongLoaded { index: 2, duration_ms: None });
    assert_eq!(load_path(&p.update(PlayerEvent::NextSong)).unwrap().0, 0);
    assert_eq!(load_path(&p.update(PlayerEvent::PrevSong)).unwrap().0, 1);
}

#[test]
fn next_after_list_shrank() {
    let mut p = three_songs();
    p.update(PlayerEvent::SongLoaded { index: 2, duration_ms: None });
    p.reload_songs(vec![entry(Some("a"), Some("pa")), entry(Some("b"), Some("pb"))]);
    assert_eq!(load_path(&p.update(PlayerEvent::NextSong)), Some((1, "pb".to_string())));
    assert!(matches!(p.update(PlayerEvent::PrevSong), PlayerAction::LoadSong { index: 1, .. }));
    p.update(PlayerEvent::SongLoaded { index: 5, duration_ms: None });
    assert!(matches!(p.update(PlayerEvent::PrevSong), PlayerAction::Nothing));
    assert_eq!(load_path(&p.update(PlayerEvent::NextSong)), Some((0, "pa".to_string())));
}

#[test]
fn next_on_empty_list_does_nothing() {
    let mut p = PlayerState::new(vec![]);
    assert!(matches!(p.update(PlayerEvent::NextSong), PlayerAction::Nothing));
    assert!(matches!(p.update(PlayerEvent::PrevSong), PlayerAction::Nothing));
}

#[test]
fn play_and_pause() {
    let mut p = three_songs();
    assert!(matches!(p.update(PlayerEvent::Play), PlayerAction::Nothing));
    p.update(PlayerEvent::SelectSong(0));
    assert!(matches!(p.update(PlayerEvent::Play), PlayerAction::LoadSong { index: 0, .. }));
    p.update(PlayerEvent::SongLoaded { index: 0, duration_ms: Some(1_000) });
    assert!(matches!(p.update(PlayerEvent::Pause), PlayerAction::PausePlayback));
    assert!(!p.is_playing);
    assert!(matches!(p.update(PlayerEvent::Play), PlayerAction::ResumePlayback));
    assert!(p.is_playing);
}

#[test]
fn ticks_advance_and_stop_at_the_end() {
    let mut p = three_songs();
    p.update(PlayerEvent::SongLoaded { index: 0, duration_ms: Some(600) });
    assert!(matches!(p.update(PlayerEvent::Tick), PlayerAction::Nothing));
    assert_eq!(p.current_position_ms, 250);
    assert!(matches!(p.update(PlayerEvent::Tick), PlayerAction::Nothing));
    assert_eq!(p.current_position_ms, 500);
    assert!(matches!(p.update(PlayerEvent::Tick), PlayerAction::StopPlayback));
    assert_eq!(p.current_position_ms, 0);
    assert!(!p.is_playing);
    assert!(matches!(p.update(PlayerEvent::Tick), PlayerAction::Nothing));
    assert_eq!(p.current_position_ms, 0);
}

#[test]
fn tick_near_the_largest_position_stops() {
    let mut p = three_songs();
    p.update(PlayerEvent::SongLoaded { index: 0, duration_ms: Some(u64::MAX) });
    p.update(PlayerEvent::SeekChanged(u64::MAX - 100));
    assert!(matches!(p.update(PlayerEvent::Tick), PlayerAction::StopPlayback));
}

#[test]
fn seek_release_names_the_selected_song() {
    let mut p = three_songs();
    p.update(PlayerEvent::SelectSong(2));
    p.update(PlayerEvent::SeekChanged(42_500));
    match p.update(PlayerEvent::SeekReleased) {
        PlayerAction::Seek { target_ms, reload, keep_playing } => {
            assert_eq!(target_ms, 42_500);
            assert_eq!(reload.as_deref(), Some("./songs/c.mp3"));
            assert!(!keep_playing);
        }
        _ => panic!("expected a seek"),
    }
    let mut q = three_songs();
    match q.update(PlayerEvent::SeekReleased) {
        PlayerAction::Seek { reload, .. } => assert_eq!(reload, None),
        _ => panic!("expected a seek"),
    }
}

#[test]
fn search_flow() {
    let mut p = three_songs();
    p.update(PlayerEvent::SearchInputChanged("  ".to_string()));
    assert!(matches!(p.update(PlayerEvent::SubmitSearch), PlayerAction::Nothing));
    p.update(PlayerEvent::SetSearchMode);
    assert_eq!(p.search_mode, SearchMode::Internet);
    assert!(matches!(p.update(PlayerEvent::SubmitSearch), PlayerAction::Nothing));
    p.update(PlayerEvent::SearchInputChanged("jazz".to_string()));
    p.update(PlayerEvent::SelectApiProvider(ApiProvider::ArchiveOrg));
    match p.update(PlayerEvent::SubmitSearch) {
        PlayerAction::Search { query, provider } => {
            assert_eq!(query, "jazz");
            assert_eq!(provider, ApiProvider::ArchiveOrg);
        }
        _ => panic!("expected a search"),
    }
    assert!(p.is_searching);
    assert!(matches!(p.update(PlayerEvent::SubmitSearch), PlayerAction::Nothing));
    let found = vec![OnlineSong { title: "A - B".to_string(), id: "1".to_string() }];
    assert!(matches!(p.update(PlayerEvent::SearchResultsReceived(Ok(found))), PlayerAction::Nothing));
    assert!(!p.is_searching);
    assert_eq!(p.search_results.len(), 1);
}

#[test]
fn search_error_clears_results() {
    let mut p = three_songs();
    p.search_results = vec![OnlineSong { title: "x".to_string(), id: "y".to_string() }];
    p.is_searching = true;
    match p.update(PlayerEvent::SearchResultsReceived(Err("boom".to_string()))) {
        PlayerAction::ReportSearchError(e) => assert_eq!(e, "boom"),
        _ => panic!("expected an error report"),
    }
    assert!(p.search_results.is_empty());
    assert!(!p.is_searching);
}

#[test]
fn download_flow() {
    let mut p = three_songs();
    p.update(PlayerEvent::SearchInputChanged("jazz".to_string()));
    p.search_results = vec![OnlineSong { title: "A - B".to_string(), id: "9".to_string() }];
    match p.update(PlayerEvent::SelectOnlineSong(OnlineSong { title: "A - B".to_string(), id: "9".to_string() })) {
        PlayerAction::Download { id, title, provider } => {
            assert_eq!(id, "9");
            assert_eq!(title, "A - B");
            assert_eq!(provider, ApiProvider::Audius);
        }
        _ => panic!("expected a download"),
    }
    assert!(p.is_downloading);
    assert!(p.search_results.is_empty());
    match p.update(PlayerEvent::DownloadFinished(Ok("A - B".to_string()))) {
        PlayerAction::ReloadSongs(t) => assert_eq!(t, "A - B"),
        _ => panic!("expected a reload"),
    }
    assert!(!p.is_downloading);
    assert_eq!(p.search_query, "");
    p.update(PlayerEvent::SearchInputChanged("q".to_string()));
    p.is_downloading = true;
    assert!(matches!(p.update(PlayerEvent::DownloadFinished(Err("e".to_string()))), PlayerAction::ReportDownloadError(_)));
    assert_eq!(p.search_query, "q");
    assert!(!p.is_downloading);
}

#[test]
fn reload_keeps_the_rest() {
    let mut p = three_songs();
    p.update(PlayerEvent::SongLoaded { index: 1, duration_ms: Some(9) });
    p.reload_songs(vec![entry(Some("z"), Some("pz"))]);
    assert_eq!(p.list, vec!["z"]);
    assert_eq!(p.path_list, vec!["pz"]);
    assert_eq!(p.current_song, Some(1));
    assert!(p.is_playing);
}

#[test]
fn window_and_tab_events() {
    let mut p = three_songs();
    assert!(matches!(p.update(PlayerEvent::MinimizeWindow), PlayerAction::Window(WindowCommand::Minimize)));
    assert!(matches!(p.update(PlayerEvent::MaximizeWindow), PlayerAction::Window(WindowCommand::ToggleMaximize)));
    assert!(matches!(p.update(PlayerEvent::CloseWindow), PlayerAction::Window(WindowCommand::Close)));
    assert!(matches!(p.update(PlayerEvent::DragWindow), PlayerAction::Window(WindowCommand::Drag)));
    p.update(PlayerEvent::SwitchTab(ActiveTab::Settings));
    assert_eq!(p.active_tab, ActiveTab::Settings);
}
