use rplayer::model::{ActiveTab, SearchMode};
use rplayer::screen::{
    format_time, mode_label, play_button_label, search_placeholder, settings_icon, settings_target,
    time_label, visible_songs, visible_songs_lowered,
};

fn label_of_float_seconds(seconds: f32) -> String {
    let secs = seconds as u32;
    format!("{:02}:{:02}", secs / 60, secs % 60)
}

#[test]
fn format_time_examples() {
    assert_eq!(format_time(0), "00:00");
    assert_eq!(format_time(65), "01:05");
    assert_eq!(format_time(180), "03:00");
    assert_eq!(format_time(3599), "59:59");
    assert_eq!(format_time(6000), "100:00");
}

#[test]
fn format_time_agrees_with_original_formula() {
    for secs in (0u32..20000).chain([u32::MAX - 1, u32::MAX]) {
        assert_eq!(format_time(secs), format!("{:02}:{:02}", secs / 60, secs % 60));
    }
    for seconds in [0.0f32, 0.25, 12.75, 59.99, 60.0, 3723.5] {
        assert_eq!(format_time(seconds as u32), label_of_float_seconds(seconds));
    }
}

#[test]
fn time_label_examples() {
    assert_eq!(time_label(0, 180_000), "00:00 / 03:00");
    assert_eq!(time_label(65_750, 212_345), "01:05 / 03:32");
    assert_eq!(time_label(999, 1_000), "00:00 / 00:01");
}

#[test]
fn time_label_caps_huge_times() {
    let max = format!("{:02}:{:02}", u32::MAX / 60, u32::MAX % 60);
    assert_eq!(time_label(u64::MAX, 0), format!("{} / 00:00", max));
}

fn names(v: &[&str]) -> Vec<String> {
    v.iter().map(|s| s.to_string()).collect()
}

#[test]
fn visible_songs_filters_local_search_case_insensitively() {
    let list = names(&["Rock Song.mp3", "jazz.mp3", "ROCKET.ogg", "pop.mp3"]);
    assert_eq!(visible_songs(&list, &"rock".to_string(), SearchMode::Local), vec![0, 2]);
    assert_eq!(visible_songs(&list, &"MP3".to_string(), SearchMode::Local), vec![0, 1, 3]);
    assert_eq!(visible_songs(&list, &"zzz".to_string(), SearchMode::Local), Vec::<usize>::new());
}

#[test]
fn visible_songs_unfiltered_cases() {
    let list = names(&["a", "b", "c"]);
    assert_eq!(visible_songs(&list, &String::new(), SearchMode::Local), vec![0, 1, 2]);
    assert_eq!(visible_songs(&list, &"zzz".to_string(), SearchMode::Internet), vec![0, 1, 2]);
    assert_eq!(visible_songs(&Vec::new(), &"a".to_string(), SearchMode::Local), Vec::<usize>::new());
}

#[test]
fn labels() {
    assert_eq!(settings_icon(ActiveTab::Settings), "✕");
    assert_eq!(settings_icon(ActiveTab::Player), "☰");
    assert_eq!(settings_target(ActiveTab::Settings), ActiveTab::Player);
    assert_eq!(settings_target(ActiveTab::Player), ActiveTab::Settings);
    assert_eq!(mode_label(SearchMode::Local), "Local");
    assert_eq!(mode_label(SearchMode::Internet), "Internet");
    assert_eq!(search_placeholder(true, true), "Net  search...");
    assert_eq!(search_placeholder(false, true), "Downloading song...");
    assert_eq!(search_placeholder(false, false), "Song search...");
    assert_eq!(play_button_label(true), "Pause");
    assert_eq!(play_button_label(false), "Play");
}

#[test]
fn visible_songs_lowered_compares_as_given() {
    let list = names(&["Rock", "rock", "ROCK and pop"]);
    assert_eq!(visible_songs_lowered(&list, &"rock".to_string(), SearchMode::Local), vec![1]);
    assert_eq!(visible_songs_lowered(&list, &"ROCK".to_string(), SearchMode::Local), vec![2]);
    assert_eq!(visible_songs_lowered(&list, &String::new(), SearchMode::Local), vec![0, 1, 2]);
}
