use vstd::prelude::*;

verus! {

/// The tab that the window shows.
#[derive(Debug, Clone, Copy, PartialEq, Eq, Structural)]
pub enum ActiveTab {
    Player,
    Settings,
}

/// Where a search looks: the local song list, or an online catalogue.
#[derive(Debug, Clone, Copy, PartialEq, Eq, Structural)]
pub enum SearchMode {
    Local,
    Internet,
}

/// The online catalogue that searches and downloads go to.
#[derive(Debug, Clone, Copy, PartialEq, Eq, Structural)]
pub enum ApiProvider {
    Audius,
    ArchiveOrg,
}

/// A song found online: the title shown to the user and the catalogue's id for it.
#[derive(Debug, Clone)]
pub struct OnlineSong {
    pub title: String,
    pub id: String,
}

/// What an `OnlineSong` holds, as texts.
pub struct SongView {
    pub title: Seq<char>,
    pub id: Seq<char>,
}

impl View for OnlineSong {
    type V = SongView;

    open spec fn view(&self) -> SongView {
        SongView { title: self.title@, id: self.id@ }
    }
}

/// The views of a list of songs.
pub open spec fn songs_view(songs: Seq<OnlineSong>) -> Seq<SongView> {
    songs.map_values(|s: OnlineSong| s@)
}

/// The text that names a provider on screen.
pub open spec fn provider_label(p: ApiProvider) -> Seq<char> {
    match p {
        ApiProvider::Audius => "Audius API (Open REST API)"@,
        ApiProvider::ArchiveOrg => "Archive.org API (Open Archive)"@,
    }
}

impl ApiProvider {
    /// The text that names this provider on screen.
    pub fn label(&self) -> (r: String)
        ensures
            r@ == provider_label(*self),
    {
        match self {
            ApiProvider::Audius => String::from_str("Audius API (Open REST API)"),
            ApiProvider::ArchiveOrg => String::from_str("Archive.org API (Open Archive)"),
        }
    }
}

} // verus!
