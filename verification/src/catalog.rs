use vstd::prelude::*;
use vstd::utf8::encode_utf8;
use crate::json::{JsonValue, json_field, json_str_field, json_array};
use crate::model::{ApiProvider, OnlineSong, SongView, songs_view};
use crate::text::{chars_of, ends_with_chars, has_suffix, is_blank, is_blank_text, lowercase_of, to_lowercase};

verus! {

broadcast use vstd::string::group_string_axioms;

// ---------------------------------------------------------------------------
// Percent-encoding of query texts and file names

/// Bytes that percent-encoding leaves as they are: ASCII letters, digits and `-` `_` `.` `~`.
pub open spec fn is_unreserved(b: u8) -> bool {
    ||| 48 <= b <= 57
    ||| 65 <= b <= 90
    ||| 97 <= b <= 122
    ||| b == 45 || b == 46 || b == 95 || b == 126
}

/// The upper-case hexadecimal digit of a value below 16.
pub open spec fn hex_digit(d: u8) -> char {
    if d < 10 {
        (48 + d) as char
    } else {
        (55 + d) as char
    }
}

/// How one byte is written in a percent-encoded text.
pub open spec fn encode_byte(b: u8) -> Seq<char> {
    if is_unreserved(b) {
        seq![b as char]
    } else {
        seq!['%', hex_digit(b / 16), hex_digit(b % 16)]
    }
}

/// Percent-encoding of a byte sequence, byte by byte.
pub open spec fn percent_encoded(bytes: Seq<u8>) -> Seq<char>
    decreases bytes.len(),
{
    if bytes.len() == 0 {
        seq![]
    } else {
        encode_byte(bytes[0]) + percent_encoded(bytes.drop_first())
    }
}

/// Calls `urlencoding::encode`, which percent-encodes every byte of the text's
/// UTF-8 encoding except ASCII letters, digits and `-` `_` `.` `~`, with upper-case
/// hexadecimal digits (as its source shows). The contract states exactly that.
#[verifier::external_body]
pub(crate) fn url_encode(s: &str) -> (r: String)
    ensures
        r@ == percent_encoded(encode_utf8(s@)),
{
    urlencoding::encode(s).into_owned()
}


// ---------------------------------------------------------------------------
// Searching

/// The request that searches a provider's catalogue for a query text.
pub open spec fn search_url_of(provider: ApiProvider, query: Seq<char>) -> Seq<char> {
    let q = percent_encoded(encode_utf8(query));
    match provider {
        ApiProvider::Audius => "https://discoveryprovider.audius.co/v1/tracks/search?query="@ + q
            + "&app_name=RustPlayer"@,
        ApiProvider::ArchiveOrg => "https://archive.org/advancedsearch.php?q=title:("@ + q
            + ")%20AND%20mediatype:(audio)&fl[]=identifier,title,creator&rows=5&page=1&output=json"@,
    }
}

/// The address to ask a provider for the songs that match `query`.
pub fn search_url(query: &str, provider: ApiProvider) -> (r: String)
    ensures
        r@ == search_url_of(provider, query@),
{
    let q = url_encode(query);
    match provider {
        ApiProvider::Audius => {
            let mut url = String::from_str("https://discoveryprovider.audius.co/v1/tracks/search?query=");
            url.append(q.as_str());
            url.append("&app_name=RustPlayer");
            url
        },
        ApiProvider::ArchiveOrg => {
            let mut url = String::from_str("https://archive.org/advancedsearch.php?q=title:(");
            url.append(q.as_str());
            url.append(")%20AND%20mediatype:(audio)&fl[]=identifier,title,creator&rows=5&page=1&output=json");
            url
        },
    }
}

/// A song made of an id, a title and a credit (artist or creator), with a default
/// credit where the record names none; no song where id or title is missing.
pub open spec fn song_of(
    id: Option<Seq<char>>,
    title: Option<Seq<char>>,
    credit: Option<Seq<char>>,
    default_credit: Seq<char>,
) -> Option<SongView> {
    match (id, title) {
        (Some(id), Some(title)) => {
            let credit = match credit {
                Some(c) => c,
                None => default_credit,
            };
            Some(SongView { title: credit + " - "@ + title, id })
        },
        _ => None,
    }
}

/// The song that one record of a provider's search answer describes, if any.
pub open spec fn record_song(provider: ApiProvider, record: JsonValue) -> Option<SongView> {
    match provider {
        ApiProvider::Audius => song_of(
            json_str_field(record, "id"@),
            json_str_field(record, "title"@),
            json_str_field(json_field(record, "user"@), "name"@),
            "Unknown"@,
        ),
        ApiProvider::ArchiveOrg => song_of(
            json_str_field(record, "identifier"@),
            json_str_field(record, "title"@),
            json_str_field(record, "creator"@),
            "Archive Audio"@,
        ),
    }
}

/// The songs that a run of records describes, in order, skipping records that describe none.
pub open spec fn records_songs(provider: ApiProvider, records: Seq<JsonValue>) -> Seq<SongView>
    decreases records.len(),
{
    if records.len() == 0 {
        seq![]
    } else {
        let front = records_songs(provider, records.drop_last());
        match record_song(provider, records.last()) {
            Some(s) => front.push(s),
            None => front,
        }
    }
}

/// The most songs a search shows from a provider: Audius answers are cut to five.
pub open spec fn shown_songs(provider: ApiProvider, songs: Seq<SongView>) -> Seq<SongView> {
    match provider {
        ApiProvider::Audius => if songs.len() <= 5 {
            songs
        } else {
            songs.take(5)
        },
        ApiProvider::ArchiveOrg => songs,
    }
}

/// The records of a provider's search answer: Audius lists them under `data`,
/// Archive.org under `response.docs`.
pub open spec fn answer_records(provider: ApiProvider, answer: JsonValue) -> Option<Seq<JsonValue>> {
    match provider {
        ApiProvider::Audius => json_array(json_field(answer, "data"@)),
        ApiProvider::ArchiveOrg => json_array(json_field(json_field(answer, "response"@), "docs"@)),
    }
}

/// What a search gives for a provider's answer: the songs it shows, or the message
/// for an answer without a record list, or the one for an answer without songs.
pub open spec fn search_outcome(provider: ApiProvider, answer: JsonValue) -> Result<Seq<SongView>, Seq<char>> {
    match answer_records(provider, answer) {
        None => Err("Ничего не найдено"@),
        Some(records) => {
            let songs = shown_songs(provider, records_songs(provider, records));
            if songs.len() == 0 {
                Err(
                    match provider {
                        ApiProvider::Audius => "По вашему запросу ничего не найдено"@,
                        ApiProvider::ArchiveOrg => "В архиве ничего не найдено"@,
                    },
                )
            } else {
                Ok(songs)
            }
        },
    }
}

/// A list of songs or a message, seen as texts.
pub open spec fn songs_result_view(r: Result<Vec<OnlineSong>, String>) -> Result<Seq<SongView>, Seq<char>> {
    match r {
        Ok(v) => Ok(songs_view(v@)),
        Err(e) => Err(e@),
    }
}

fn make_song(id: Option<&String>, title: Option<&String>, credit: Option<&String>, default_credit: &str) -> (r: Option<OnlineSong>)
    ensures
        match r {
            Some(s) => song_of(opt_view(id), opt_view(title), opt_view(credit), default_credit@) == Some(s@),
            None => song_of(opt_view(id), opt_view(title), opt_view(credit), default_credit@) is None,
        },
{
    match (id, title) {
        (Some(id), Some(title)) => {
            let mut full = match credit {
                Some(c) => String::from_str(c.as_str()),
                None => String::from_str(default_credit),
            };
            full.append(" - ");
            full.append(title.as_str());
            Some(OnlineSong { title: full, id: id.clone() })
        },
        _ => None,
    }
}

/// The text of an optional string.
pub open spec fn opt_view(s: Option<&String>) -> Option<Seq<char>> {
    match s {
        Some(s) => Some(s@),
        None => None,
    }
}

/// The song that one record of a provider's search answer describes, if any.
pub fn song_from_record(provider: ApiProvider, record: &JsonValue) -> (r: Option<OnlineSong>)
    ensures
        match r {
            Some(s) => record_song(provider, *record) == Some(s@),
            None => record_song(provider, *record) is None,
        },
{
    match provider {
        ApiProvider::Audius => {
            let user = record.get(&String::from_str("user"));
            let artist = match user {
                Some(u) => u.str_field(&String::from_str("name")),
                None => None,
            };
            make_song(
                record.str_field(&String::from_str("id")),
                record.str_field(&String::from_str("title")),
                artist,
                "Unknown",
            )
        },
        ApiProvider::ArchiveOrg => make_song(
            record.str_field(&String::from_str("identifier")),
            record.str_field(&String::from_str("title")),
            record.str_field(&String::from_str("creator")),
            "Archive Audio",
        ),
    }
}

/// The songs that a provider's answer shows, in the answer's order.
fn collect_songs(provider: ApiProvider, records: &Vec<JsonValue>) -> (r: Vec<OnlineSong>)
    ensures
        songs_view(r@) == shown_songs(provider, records_songs(provider, records@)),
{
    let mut songs: Vec<OnlineSong> = Vec::new();
    let mut i: usize = 0;
    assert(records@.take(0) =~= Seq::<JsonValue>::empty());
    while i < records.len()
        invariant
            i <= records@.len(),
            songs_view(songs@) == shown_songs(provider, records_songs(provider, records@.take(i as int))),
        decreases records.len() - i,
    {
        let ghost before = records_songs(provider, records@.take(i as int));
        assert(records@.take(i + 1).drop_last() =~= records@.take(i as int));
        let found = song_from_record(provider, &records[i]);
        match found {
            Some(song) => {
                let ghost sv = song@;
                if provider == ApiProvider::ArchiveOrg || songs.len() < 5 {
                    songs.push(song);
                    assert(songs_view(songs@) =~= songs_view(songs@.drop_last()).push(sv));
                } else {
                    assert(before.push(sv).take(5) =~= before.take(5));
                }
            },
            None => {},
        }
        i = i + 1;
    }
    assert(records@.take(records@.len() as int) =~= records@);
    songs
}

/// Reads a provider's search answer: the songs it shows (at most five from Audius),
/// or the message for an answer without a record list or without songs.
pub fn search_results(provider: ApiProvider, answer: &JsonValue) -> (r: Result<Vec<OnlineSong>, String>)
    ensures
        songs_result_view(r) == search_outcome(provider, *answer),
{
    let records = match provider {
        ApiProvider::Audius => answer.array_field(&String::from_str("data")),
        ApiProvider::ArchiveOrg => match answer.get(&String::from_str("response")) {
            Some(inner) => inner.array_field(&String::from_str("docs")),
            None => None,
        },
    };
    match records {
        None => Err(String::from_str("Ничего не найдено")),
        Some(records) => {
            let songs = collect_songs(provider, records);
            if songs.len() == 0 {
                match provider {
                    ApiProvider::Audius => Err(String::from_str("По вашему запросу ничего не найдено")),
                    ApiProvider::ArchiveOrg => Err(String::from_str("В архиве ничего не найдено")),
                }
            } else {
                Ok(songs)
            }
        },
    }
}


// ---------------------------------------------------------------------------
// Downloading

/// Characters that a sanitized file name never holds: the ones file systems
/// reserve (`/ ? < > \ : * | "`) and the control characters.
pub open spec fn is_reserved_file_char(c: char) -> bool {
    ||| c == '/' || c == '?' || c == '<' || c == '>' || c == '\\'
    ||| c == ':' || c == '*' || c == '|' || c == '"'
    ||| (c as u32) <= 0x1f
    ||| 0x80 <= (c as u32) <= 0x9f
}

/// The file name that `sanitize_filename` makes of a title, with or without
/// Windows' extra rules.
pub uninterp spec fn sanitized_name(name: Seq<char>, windows: bool) -> Seq<char>;

/// Calls `sanitize_filename::sanitize_with_options` with the options that
/// `sanitize_filename::sanitize` uses (`windows` is `cfg!(windows)` there):
/// reserved and control characters removed, names made only of dots emptied,
/// Windows' reserved names and trailing dots and spaces emptied when `windows`
/// holds, then cut to 255 bytes. Claimed: the result is a function of the name
/// and the flag alone (named `sanitized_name`), holds no reserved or control
/// character, and its UTF-8 encoding is at most 255 bytes long. The rest of the
/// rules is not stated.
#[verifier::external_body]
pub(crate) fn sanitize_file_name(name: &str, windows: bool) -> (r: String)
    ensures
        r@ == sanitized_name(name@, windows),
        forall|i: int| 0 <= i < r@.len() ==> !is_reserved_file_char(#[trigger] r@[i]),
        encode_utf8(r@).len() <= 255,
{
    sanitize_filename::sanitize_with_options(
        name,
        sanitize_filename::Options { windows, truncate: true, replacement: "" },
    )
}

/// Where a downloaded song comes from and where it is saved.
pub struct DownloadTarget {
    /// The address that serves the audio.
    pub url: String,
    /// The title that the song is saved and reported under.
    pub title: String,
    /// The path of the saved file.
    pub file_path: String,
}

/// The title a song is saved under: the sanitized title, or the fallback made of
/// a prefix and the catalogue id when the sanitized title is blank.
pub open spec fn saved_title(clean: Seq<char>, fallback_prefix: Seq<char>, id: Seq<char>) -> Seq<char> {
    if is_blank_text(clean) {
        fallback_prefix + id
    } else {
        clean
    }
}

/// The path of a saved song: `./songs/<title>.mp3`.
pub open spec fn song_file_path(title: Seq<char>) -> Seq<char> {
    "./songs/"@ + title + ".mp3"@
}

fn target_for(url: String, clean: String, fallback_prefix: &str, id: &str) -> (r: DownloadTarget)
    ensures
        r.url@ == url@,
        r.title@ == saved_title(clean@, fallback_prefix@, id@),
        r.file_path@ == song_file_path(r.title@),
{
    let title = if is_blank(clean.as_str()) {
        let mut t = String::from_str(fallback_prefix);
        t.append(id);
        t
    } else {
        clean
    };
    let mut path = String::from_str("./songs/");
    path.append(title.as_str());
    path.append(".mp3");
    DownloadTarget { url, title, file_path: path }
}

/// The Audius stream of a track id, saved under the already sanitized title `clean`
/// (or `track_<id>` when it is blank).
pub fn audius_target_from_clean(id: &str, clean: String) -> (r: DownloadTarget)
    ensures
        r.url@ == "https://discoveryprovider.audius.co/v1/tracks/"@ + id@ + "/stream?app_name=RustPlayer"@,
        r.title@ == saved_title(clean@, "track_"@, id@),
        r.file_path@ == song_file_path(r.title@),
{
    let mut url = String::from_str("https://discoveryprovider.audius.co/v1/tracks/");
    url.append(id);
    url.append("/stream?app_name=RustPlayer");
    target_for(url, clean, "track_", id)
}

/// Where the Audius track `id` titled `title` is fetched from and saved.
pub fn audius_target(id: &str, title: &str, windows: bool) -> (r: DownloadTarget)
    ensures
        r.url@ == "https://discoveryprovider.audius.co/v1/tracks/"@ + id@ + "/stream?app_name=RustPlayer"@,
        r.title@ == saved_title(sanitized_name(title@, windows), "track_"@, id@),
        r.file_path@ == song_file_path(r.title@),
        r.title@ == "track_"@ + id@ || forall|i: int|
            0 <= i < r.title@.len() ==> !is_reserved_file_char(#[trigger] r.title@[i]),
{
    let clean = sanitize_file_name(title, windows);
    audius_target_from_clean(id, clean)
}

/// The address of the metadata of the Archive.org item `id`.
pub fn archive_metadata_url(id: &str) -> (r: String)
    ensures
        r@ == "https://archive.org/metadata/"@ + id@,
{
    let mut url = String::from_str("https://archive.org/metadata/");
    url.append(id);
    url
}

/// The name of a file entry of an item's metadata, or the empty text.
pub open spec fn entry_name(f: JsonValue) -> Seq<char> {
    match json_str_field(f, "name"@) {
        Some(n) => n,
        None => seq![],
    }
}

/// The lower-cased names of file entries.
pub open spec fn lowered_entry_names(files: Seq<JsonValue>) -> Seq<Seq<char>> {
    files.map_values(|f: JsonValue| lowercase_of(entry_name(f)))
}

/// `i` is the first of the lower-cased names that ends with `.mp3`.
pub open spec fn first_mp3_at(lowered: Seq<Seq<char>>, i: int) -> bool {
    &&& 0 <= i < lowered.len()
    &&& has_suffix(lowered[i], ".mp3"@)
    &&& forall|j: int| 0 <= j < i ==> !has_suffix(#[trigger] lowered[j], ".mp3"@)
}

/// The file to download among entries whose lower-cased names are `lowered`: the
/// name of the first entry whose lower-cased name ends with `.mp3`, or the message
/// for a nameless entry, or for no MP3 file.
pub open spec fn archive_pick(files: Seq<JsonValue>, lowered: Seq<Seq<char>>) -> Result<Seq<char>, Seq<char>> {
    if exists|i: int| first_mp3_at(lowered, i) {
        let i = choose|i: int| first_mp3_at(lowered, i);
        match if i < files.len() {
            json_str_field(files[i], "name"@)
        } else {
            None
        } {
            Some(n) => Ok(n),
            None => Err("Имя файла отсутствует"@),
        }
    } else {
        Err("В данном релизе не найден файл в формате MP3"@)
    }
}

/// The file of an item to download: the name of its first entry whose name, in
/// lower case, ends with `.mp3`; or the message for metadata without a file list,
/// without such a file, or with a nameless one.
pub open spec fn archive_file_outcome(metadata: JsonValue) -> Result<Seq<char>, Seq<char>> {
    match json_array(json_field(metadata, "files"@)) {
        None => Err("Файлы в релизе не найдены"@),
        Some(files) => archive_pick(files, lowered_entry_names(files)),
    }
}

/// A text or a message, seen as texts.
pub open spec fn text_result_view(r: Result<String, String>) -> Result<Seq<char>, Seq<char>> {
    match r {
        Ok(t) => Ok(t@),
        Err(e) => Err(e@),
    }
}

/// Picks the file to download among `files`, given their names in lower case.
pub fn pick_archive_file(files: &Vec<JsonValue>, lowered: &Vec<String>) -> (r: Result<String, String>)
    ensures
        text_result_view(r) == archive_pick(files@, lowered@.map_values(|s: String| s@)),
{
    let ghost views = lowered@.map_values(|s: String| s@);
    let suffix = chars_of(".mp3");
    let name_key = String::from_str("name");
    let mut i: usize = 0;
    while i < lowered.len()
        invariant
            i <= lowered@.len(),
            views == lowered@.map_values(|s: String| s@),
            suffix@ == ".mp3"@,
            name_key@ == "name"@,
            forall|j: int| 0 <= j < i ==> !has_suffix(#[trigger] views[j], ".mp3"@),
        decreases lowered.len() - i,
    {
        assert(views[i as int] == lowered@[i as int]@);
        if ends_with_chars(&chars_of(lowered[i].as_str()), &suffix) {
            assert(first_mp3_at(views, i as int));
            assert forall|k: int| first_mp3_at(views, k) implies k == i by {
                if k < i {
                    assert(!has_suffix(views[k], ".mp3"@));
                } else if k > i {
                    assert(!has_suffix(views[i as int], ".mp3"@));
                }
            }
            let ghost c = choose|k: int| first_mp3_at(views, k);
            assert(c == i);
            if i < files.len() {
                match files[i].str_field(&name_key) {
                    Some(n) => return Ok(n.clone()),
                    None => return Err(String::from_str("Имя файла отсутствует")),
                }
            } else {
                return Err(String::from_str("Имя файла отсутствует"));
            }
        }
        i = i + 1;
    }
    assert forall|k: int| !first_mp3_at(views, k) by {
        if 0 <= k < views.len() {
            assert(!has_suffix(views[k], ".mp3"@));
        }
    }
    Err(String::from_str("В данном релизе не найден файл в формате MP3"))
}

/// Picks the file of an Archive.org item to download from the item's metadata.
/// A chosen entry always has a name: the only failures are a missing file list
/// and a list without an MP3 file.
pub fn select_archive_file(metadata: &JsonValue) -> (r: Result<String, String>)
    ensures
        text_result_view(r) == archive_file_outcome(*metadata),
        r is Err <==> match json_array(json_field(*metadata, "files"@)) {
            Some(files) => !exists|i: int| first_mp3_at(lowered_entry_names(files), i),
            None => true,
        },
{
    let files = match metadata.array_field(&String::from_str("files")) {
        Some(files) => files,
        None => return Err(String::from_str("Файлы в релизе не найдены")),
    };
    proof {
        reveal_strlit(".mp3");
    }
    let name_key = String::from_str("name");
    let mut lowered: Vec<String> = Vec::new();
    let mut i: usize = 0;
    while i < files.len()
        invariant
            i <= files@.len(),
            name_key@ == "name"@,
            lowered@.map_values(|s: String| s@) == lowered_entry_names(files@).take(i as int),
            forall|j: int| 0 <= j < i && json_str_field(files@[j], "name"@) is None
                ==> (#[trigger] lowered@[j])@.len() == 0,
        decreases files.len() - i,
    {
        let entry = &files[i];
        let name: &str = match entry.str_field(&name_key) {
            Some(n) => n.as_str(),
            None => {
                proof {
                    reveal_strlit("");
                }
                ""
            },
        };
        assert(name@ == entry_name(files@[i as int]));
        let lo = to_lowercase(name);
        let ghost before = lowered@;
        lowered.push(lo);
        assert(lowered@.map_values(|s: String| s@) =~= before.map_values(|s: String| s@).push(
            lowercase_of(entry_name(files@[i as int])),
        ));
        assert(lowered@.map_values(|s: String| s@) =~= lowered_entry_names(files@).take(i + 1));
        i = i + 1;
    }
    assert(lowered_entry_names(files@).take(files@.len() as int) =~= lowered_entry_names(files@));
    let ghost views = lowered@.map_values(|s: String| s@);
    let r = pick_archive_file(files, &lowered);
    proof {
        if exists|k: int| first_mp3_at(views, k) {
            let c = choose|k: int| first_mp3_at(views, k);
            assert(views[c] == lowered@[c]@);
            assert(".mp3"@.len() == 4);
            assert(json_str_field(files@[c], "name"@) is Some);
        }
    }
    r
}

/// The Archive.org file `file_name` of item `id`, saved under the already sanitized
/// title `clean` (or `archive_<id>` when it is blank).
pub fn archive_target_from_clean(id: &str, file_name: &str, clean: String) -> (r: DownloadTarget)
    ensures
        r.url@ == "https://archive.org/download/"@ + id@ + "/"@ + percent_encoded(encode_utf8(file_name@)),
        r.title@ == saved_title(clean@, "archive_"@, id@),
        r.file_path@ == song_file_path(r.title@),
{
    let mut url = String::from_str("https://archive.org/download/");
    url.append(id);
    url.append("/");
    let encoded = url_encode(file_name);
    url.append(encoded.as_str());
    target_for(url, clean, "archive_", id)
}

/// Where the file `file_name` of the Archive.org item `id` titled `title` is
/// fetched from and saved.
pub fn archive_target(id: &str, title: &str, file_name: &str, windows: bool) -> (r: DownloadTarget)
    ensures
        r.url@ == "https://archive.org/download/"@ + id@ + "/"@ + percent_encoded(encode_utf8(file_name@)),
        r.title@ == saved_title(sanitized_name(title@, windows), "archive_"@, id@),
        r.file_path@ == song_file_path(r.title@),
        r.title@ == "archive_"@ + id@ || forall|i: int|
            0 <= i < r.title@.len() ==> !is_reserved_file_char(#[trigger] r.title@[i]),
{
    let clean = sanitize_file_name(title, windows);
    archive_target_from_clean(id, file_name, clean)
}

} // verus!
