use rplayer::catalog::{
    archive_metadata_url, archive_target, archive_target_from_clean, audius_target,
    audius_target_from_clean, pick_archive_file, search_results, search_url, select_archive_file, song_from_record,
};
use rplayer::json::JsonValue;
use rplayer::model::{ApiProvider, OnlineSong};

fn s(v: &str) -> JsonValue {
    JsonValue::Str(v.to_string())
}

fn obj(members: Vec<(&str, JsonValue)>) -> JsonValue {
    JsonValue::Object(members.into_iter().map(|(k, v)| (k.to_string(), v)).collect())
}

fn arr(items: Vec<JsonValue>) -> JsonValue {
    JsonValue::Array(items)
}

fn pairs(songs: &[OnlineSong]) -> Vec<(String, String)> {
    songs.iter().map(|x| (x.title.clone(), x.id.clone())).collect()
}

#[test]
fn audius_search_url_encodes_query() {
    assert_eq!(
        search_url("daft punk & co", ApiProvider::Audius),
        "https://discoveryprovider.audius.co/v1/tracks/search?query=daft%20punk%20%26%20co&app_name=RustPlayer"
    );
}

#[test]
fn archive_search_url_encodes_query() {
    assert_eq!(
        search_url("Ночь-1.0_~", ApiProvider::ArchiveOrg),
        format!(
            "https://archive.org/advancedsearch.php?q=title:({})%20AND%20mediatype:(audio)&fl[]=identifier,title,creator&rows=5&page=1&output=json",
            "%D0%9D%D0%BE%D1%87%D1%8C-1.0_~"
        )
    );
}

fn audius_track(id: &str, title: &str, artist: Option<&str>) -> JsonValue {
    let mut members = vec![("id", s(id)), ("title", s(title))];
    if let Some(a) = artist {
        members.push(("user", obj(vec![("name", s(a))])));
    }
    obj(members)
}

#[test]
fn audius_results_are_cut_to_five() {
    let tracks: Vec<JsonValue> = (0..7).map(|i| audius_track(&format!("id{}", i), &format!("T{}", i), Some("A"))).collect();
    let answer = obj(vec![("data", arr(tracks))]);
    let songs = search_results(ApiProvider::Audius, &answer).unwrap();
    assert_eq!(songs.len(), 5);
    assert_eq!(pairs(&songs)[4], ("A - T4".to_string(), "id4".to_string()));
}

#[test]
fn audius_results_skip_incomplete_tracks_and_default_artist() {
    let answer = obj(vec![(
        "data",
        arr(vec![
            obj(vec![("title", s("no id"))]),
            audius_track("7", "Song", None),
            obj(vec![("id", JsonValue::Number("3".to_string())), ("title", s("numeric id"))]),
            audius_track("9", "Other", Some("Band")),
        ]),
    )]);
    let songs = search_results(ApiProvider::Audius, &answer).unwrap();
    assert_eq!(
        pairs(&songs),
        vec![("Unknown - Song".to_string(), "7".to_string()), ("Band - Other".to_string(), "9".to_string())]
    );
}

#[test]
fn audius_errors() {
    assert_eq!(search_results(ApiProvider::Audius, &obj(vec![])).unwrap_err(), "Ничего не найдено");
    assert_eq!(search_results(ApiProvider::Audius, &JsonValue::Null).unwrap_err(), "Ничего не найдено");
    assert_eq!(
        search_results(ApiProvider::Audius, &obj(vec![("data", arr(vec![obj(vec![])]))])).unwrap_err(),
        "По вашему запросу ничего не найдено"
    );
}

#[test]
fn archive_results() {
    let docs = arr(vec![
        obj(vec![("identifier", s("x1")), ("title", s("Live")), ("creator", s("Band"))]),
        obj(vec![("identifier", s("x2")), ("title", s("Tape")), ("creator", arr(vec![s("a"), s("b")]))]),
        obj(vec![("identifier", s("x3"))]),
    ]);
    let answer = obj(vec![("response", obj(vec![("docs", docs)]))]);
    let songs = search_results(ApiProvider::ArchiveOrg, &answer).unwrap();
    assert_eq!(
        pairs(&songs),
        vec![("Band - Live".to_string(), "x1".to_string()), ("Archive Audio - Tape".to_string(), "x2".to_string())]
    );
}

#[test]
fn archive_results_are_not_cut() {
    let docs: Vec<JsonValue> = (0..8)
        .map(|i| obj(vec![("identifier", s(&format!("i{}", i))), ("title", s("t"))]))
        .collect();
    let answer = obj(vec![("response", obj(vec![("docs", arr(docs))]))]);
    assert_eq!(search_results(ApiProvider::ArchiveOrg, &answer).unwrap().len(), 8);
}

#[test]
fn archive_errors() {
    assert_eq!(search_results(ApiProvider::ArchiveOrg, &obj(vec![("response", s("x"))])).unwrap_err(), "Ничего не найдено");
    let empty = obj(vec![("response", obj(vec![("docs", arr(vec![]))]))]);
    assert_eq!(search_results(ApiProvider::ArchiveOrg, &empty).unwrap_err(), "В архиве ничего не найдено");
}

#[test]
fn first_member_wins() {
    let rec = obj(vec![("id", s("first")), ("title", s("t")), ("id", s("second"))]);
    let song = song_from_record(ApiProvider::Audius, &rec).unwrap();
    assert_eq!(song.id, "first");
}

#[test]
fn archive_file_selection() {
    let meta = obj(vec![(
        "files",
        arr(vec![
            obj(vec![("name", s("cover.jpg"))]),
            obj(vec![("size", s("1"))]),
            obj(vec![("name", s("Track One.MP3"))]),
            obj(vec![("name", s("two.mp3"))]),
        ]),
    )]);
    assert_eq!(select_archive_file(&meta).unwrap(), "Track One.MP3");
}

#[test]
fn archive_file_errors() {
    assert_eq!(select_archive_file(&obj(vec![])).unwrap_err(), "Файлы в релизе не найдены");
    let no_mp3 = obj(vec![("files", arr(vec![obj(vec![("name", s("a.flac"))]), obj(vec![])]))]);
    assert_eq!(select_archive_file(&no_mp3).unwrap_err(), "В данном релизе не найден файл в формате MP3");
}

#[test]
fn audius_download_target() {
    let t = audius_target("abc", "Artist - My/Song?", false);
    assert_eq!(t.url, "https://discoveryprovider.audius.co/v1/tracks/abc/stream?app_name=RustPlayer");
    assert_eq!(t.title, "Artist - MySong");
    assert_eq!(t.file_path, "./songs/Artist - MySong.mp3");
}

#[test]
fn audius_download_falls_back_on_blank_title() {
    let t = audius_target("42", "///", false);
    assert_eq!(t.title, "track_42");
    assert_eq!(t.file_path, "./songs/track_42.mp3");
    let u = audius_target_from_clean("42", "  ".to_string());
    assert_eq!(u.title, "track_42");
}

#[test]
fn archive_download_target() {
    assert_eq!(archive_metadata_url("item-1"), "https://archive.org/metadata/item-1");
    let t = archive_target("item-1", "Live: 1999", "disc 1/Track One.mp3", false);
    assert_eq!(t.url, "https://archive.org/download/item-1/disc%201%2FTrack%20One.mp3");
    assert_eq!(t.title, "Live 1999");
    assert_eq!(t.file_path, "./songs/Live 1999.mp3");
    let u = archive_target_from_clean("item-1", "a.mp3", String::new());
    assert_eq!(u.title, "archive_item-1");
}

#[test]
fn windows_rules_apply_only_on_request() {
    assert_eq!(audius_target("1", "con", true).title, "track_1");
    assert_eq!(audius_target("1", "con", false).title, "con");
}

#[test]
fn pick_archive_file_uses_the_given_lowered_names() {
    let files = vec![obj(vec![("name", s("A.MP3"))]), obj(vec![("name", s("b.ogg"))]), obj(vec![])];
    let lowered = |v: &[&str]| v.iter().map(|x| x.to_string()).collect::<Vec<String>>();
    assert_eq!(pick_archive_file(&files, &lowered(&["a.mp3", "b.ogg", ""])).unwrap(), "A.MP3");
    assert_eq!(pick_archive_file(&files, &lowered(&["x", "b.mp3", ""])).unwrap(), "b.ogg");
    assert_eq!(pick_archive_file(&files, &lowered(&["x", "y", "z.mp3"])).unwrap_err(), "Имя файла отсутствует");
    assert_eq!(pick_archive_file(&files, &lowered(&["x", "y", "z", "w.mp3"])).unwrap_err(), "Имя файла отсутствует");
    assert_eq!(
        pick_archive_file(&files, &lowered(&["x"])).unwrap_err(),
        "В данном релизе не найден файл в формате MP3"
    );
}
