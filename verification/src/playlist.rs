//! Playlists: the entries of a playlist file and the local audio files they
//! resolve to.

use vstd::prelude::*;

verus! {

/// One entry of a playlist file.
#[derive(Debug, PartialEq, Eq)]
pub enum PlaylistEntry {
    /// A file path, absolute or relative to the playlist's directory.
    Path(String),
    /// A remote reference.
    Url(String),
}

/// The mathematical value of a [`PlaylistEntry`].
pub enum EntryView {
    Path(Seq<char>),
    Url(Seq<char>),
}

impl View for PlaylistEntry {
    type V = EntryView;

    open spec fn view(&self) -> EntryView {
        match self {
            PlaylistEntry::Path(p) => EntryView::Path(p@),
            PlaylistEntry::Url(u) => EntryView::Url(u@),
        }
    }
}

/// Why a playlist could not be loaded.
#[derive(Clone, Copy, Debug, PartialEq, Eq, Structural)]
pub enum PlaylistError {
    /// The playlist file could not be opened.
    Unopenable,
    /// The file's contents could not be read as playlist entries.
    Unreadable,
    /// The playlist's path has no parent directory for entries to be relative to.
    NoParent,
    /// An entry is a remote reference; only local files are supported.
    RemoteEntry,
}

/// The entries that the playlist reader finds in `bytes`, in file order;
/// `None` where it fails to read them.
pub uninterp spec fn m3u_entries(bytes: Seq<u8>) -> Option<Seq<EntryView>>;

/// The directory part of `path`, `None` where the path has none.
pub uninterp spec fn parent_of(path: Seq<char>) -> Option<Seq<char>>;

/// The path `entry` taken relative to the directory `dir`.
pub uninterp spec fn joined(dir: Seq<char>, entry: Seq<char>) -> Seq<char>;

#[verifier::external_type_specification]
#[verifier::external_body]
pub struct ExIoError(std::io::Error);

/// Reads all entries with `m3u::Reader::new` and `entries`.
///
/// Trusted: the entries read are a function of the bytes alone, named
/// `m3u_entries`; the call fails exactly where that is `None`.
#[verifier::external_body]
fn read_entries(bytes: &[u8]) -> (res: Result<Vec<PlaylistEntry>, std::io::Error>)
    ensures
        match res {
            Ok(entries) => m3u_entries(bytes@) == Some(entries_view(entries)),
            Err(_) => m3u_entries(bytes@).is_none(),
        },
{
    let mut reader = m3u::Reader::new(bytes);
    let mut out = Vec::new();
    for entry in reader.entries() {
        out.push(
            match entry? {
                m3u::Entry::Path(p) => PlaylistEntry::Path(p.to_string_lossy().into_owned()),
                m3u::Entry::Url(u) => PlaylistEntry::Url(u.into_string()),
            },
        );
    }
    Ok(out)
}

/// Calls `std::path::Path::parent`.
///
/// Trusted: the result is a function of the path alone, named `parent_of`.
#[verifier::external_body]
fn parent_dir(path: &str) -> (res: Option<String>)
    ensures
        match res {
            Some(dir) => parent_of(path@) == Some(dir@),
            None => parent_of(path@).is_none(),
        },
{
    match std::path::Path::new(path).parent() {
        Some(dir) => Some(dir.to_string_lossy().into_owned()),
        None => None,
    }
}

/// Calls `std::path::Path::join`.
///
/// Trusted: the result is a function of the two paths alone, named `joined`.
#[verifier::external_body]
fn join_path(dir: &str, entry: &str) -> (res: String)
    ensures
        res@ == joined(dir@, entry@),
{
    std::path::Path::new(dir).join(entry).to_string_lossy().into_owned()
}

/// The error that one entry gives, if it gives one: a remote reference is
/// never accepted, and a path needs a directory to be relative to.
pub open spec fn entry_error(parent: Option<Seq<char>>, entry: EntryView) -> Option<
    PlaylistError,
> {
    match entry {
        EntryView::Url(_) => Some(PlaylistError::RemoteEntry),
        EntryView::Path(_) => if parent.is_none() {
            Some(PlaylistError::NoParent)
        } else {
            None
        },
    }
}

/// The file that an accepted entry names.
pub open spec fn entry_file(parent: Option<Seq<char>>, entry: EntryView) -> Seq<char> {
    match (parent, entry) {
        (Some(dir), EntryView::Path(p)) => joined(dir, p),
        _ => Seq::empty(),
    }
}

/// The views of a list of paths.
pub open spec fn paths_view(files: Vec<String>) -> Seq<Seq<char>> {
    files@.map_values(|s: String| s@)
}

/// The views of a result of playlist resolution.
pub open spec fn resolution_view(res: Result<Vec<String>, PlaylistError>) -> Result<
    Seq<Seq<char>>,
    PlaylistError,
> {
    match res {
        Ok(files) => Ok(paths_view(files)),
        Err(e) => Err(e),
    }
}

/// Whether `res` is what resolving `entries` against the directory `parent`
/// gives: the file of every entry, in order, where no entry gives an error,
/// and else the error of the first entry that gives one.
pub open spec fn resolves(
    parent: Option<Seq<char>>,
    entries: Seq<EntryView>,
    res: Result<Seq<Seq<char>>, PlaylistError>,
) -> bool {
    match res {
        Ok(files) => {
            &&& files.len() == entries.len()
            &&& forall|i: int|
                0 <= i < entries.len() ==> entry_error(parent, #[trigger] entries[i]).is_none()
            &&& forall|i: int|
                0 <= i < entries.len() ==> #[trigger] files[i] == entry_file(parent, entries[i])
        },
        Err(e) => exists|i: int|
            {
                &&& 0 <= i < entries.len()
                &&& #[trigger] entry_error(parent, entries[i]) == Some(e)
                &&& forall|j: int|
                    0 <= j < i ==> entry_error(parent, #[trigger] entries[j]).is_none()
            },
    }
}

/// Whether `res` is what loading the playlist at `path` gives, where
/// `contents` are the bytes of that file (`None` where it could not be opened).
pub open spec fn loads(
    path: Seq<char>,
    contents: Option<Seq<u8>>,
    res: Result<Seq<Seq<char>>, PlaylistError>,
) -> bool {
    match contents {
        None => res == Err::<Seq<Seq<char>>, PlaylistError>(PlaylistError::Unopenable),
        Some(bytes) => match m3u_entries(bytes) {
            None => res == Err::<Seq<Seq<char>>, PlaylistError>(PlaylistError::Unreadable),
            Some(entries) => resolves(parent_of(path), entries, res),
        },
    }
}

/// Whether the playlist at `path` with the given contents cannot be loaded.
pub open spec fn playlist_fails(path: Seq<char>, contents: Option<Seq<u8>>) -> bool {
    match contents {
        None => true,
        Some(bytes) => match m3u_entries(bytes) {
            None => true,
            Some(entries) => exists|i: int|
                0 <= i < entries.len() && #[trigger] entry_error(
                    parent_of(path),
                    entries[i],
                ).is_some(),
        },
    }
}

/// Whether some entry is a remote reference.
pub open spec fn has_remote(entries: Seq<EntryView>) -> bool {
    exists|i: int| 0 <= i < entries.len() && #[trigger] entries[i] is Url
}

/// A playlist with a remote entry does not resolve: whatever `res` resolving
/// it gives, it is an error and carries no files.
pub proof fn lemma_remote_entry_fails(
    parent: Option<Seq<char>>,
    entries: Seq<EntryView>,
    res: Result<Seq<Seq<char>>, PlaylistError>,
)
    requires
        resolves(parent, entries, res),
        has_remote(entries),
    ensures
        res is Err,
{
    let i = choose|i: int| 0 <= i < entries.len() && #[trigger] entries[i] is Url;
    assert(entry_error(parent, entries[i]).is_some());
}

/// The views of a list of entries.
pub open spec fn entries_view(entries: Vec<PlaylistEntry>) -> Seq<EntryView> {
    entries@.map_values(|e: PlaylistEntry| e@)
}

/// Resolves the entries of a playlist against the playlist's directory.
///
/// Every entry must name a local file. The files come back in entry order,
/// each taken relative to `parent`. The first entry that is a remote
/// reference, or a path with no directory to be relative to, fails the whole
/// resolution: no partial list is returned.
pub fn resolve_entries(parent: Option<&str>, entries: &Vec<PlaylistEntry>) -> (res: Result<
    Vec<String>,
    PlaylistError,
>)
    ensures
        resolves(
            match parent {
                Some(d) => Some(d@),
                None => None,
            },
            entries_view(*entries),
            resolution_view(res),
        ),
        (exists|i: int| 0 <= i < entries@.len() && #[trigger] entries@[i] is Url)
            ==> res is Err,
{
    let ghost dir = match parent {
        Some(d) => Some(d@),
        None => None,
    };
    let ghost views = entries_view(*entries);
    let mut files: Vec<String> = Vec::new();
    let mut i: usize = 0;
    while i < entries.len()
        invariant
            i <= entries.len(),
            views == entries_view(*entries),
            views.len() == entries@.len(),
            dir == match parent {
                Some(d) => Some(d@),
                None => None,
            },
            files@.len() == i,
            forall|j: int| 0 <= j < i ==> entry_error(dir, #[trigger] views[j]).is_none(),
            forall|j: int| 0 <= j < i ==> (#[trigger] files@[j])@ == entry_file(dir, views[j]),
        decreases entries.len() - i,
    {
        assert(views[i as int] == entries@[i as int]@);
        match &entries[i] {
            PlaylistEntry::Path(p) => match parent {
                Some(d) => {
                    files.push(join_path(d, p.as_str()));
                },
                None => {
                    assert(entry_error(dir, views[i as int]) == Some(PlaylistError::NoParent));
                    return Err(PlaylistError::NoParent);
                },
            },
            PlaylistEntry::Url(_) => {
                assert(entry_error(dir, views[i as int]) == Some(PlaylistError::RemoteEntry));
                return Err(PlaylistError::RemoteEntry);
            },
        }
        i += 1;
    }
    proof {
        assert forall|k: int| 0 <= k < views.len() implies #[trigger] paths_view(files)[k]
            == entry_file(dir, views[k]) by {
            assert(paths_view(files)[k] == files@[k]@);
        }
        assert forall|k: int| 0 <= k < entries@.len() implies !(#[trigger] entries@[k] is Url) by {
            assert(entry_error(dir, views[k]).is_none());
        }
    }
    Ok(files)
}

/// Loads the playlist at the path `playlist`, whose file holds `contents`
/// (`None` where the file could not be opened).
///
/// The entries are read from the contents and resolved relative to the
/// directory that holds the playlist.
pub fn load_playlist(playlist: &str, contents: Option<&Vec<u8>>) -> (res: Result<
    Vec<String>,
    PlaylistError,
>)
    ensures
        loads(
            playlist@,
            match contents {
                Some(b) => Some(b@),
                None => None,
            },
            resolution_view(res),
        ),
        res is Err <==> playlist_fails(
            playlist@,
            match contents {
                Some(b) => Some(b@),
                None => None,
            },
        ),
        contents matches Some(b) ==> (m3u_entries(b@) matches Some(entries) ==> has_remote(
            entries,
        ) ==> res is Err),
{
    let bytes = match contents {
        Some(b) => b,
        None => {
            return Err(PlaylistError::Unopenable);
        },
    };
    let entries = match read_entries(bytes.as_slice()) {
        Ok(entries) => entries,
        Err(_) => {
            return Err(PlaylistError::Unreadable);
        },
    };
    let parent = parent_dir(playlist);
    let res = match &parent {
        Some(dir) => resolve_entries(Some(dir.as_str()), &entries),
        None => resolve_entries(None, &entries),
    };
    proof {
        let views = entries_view(entries);
        let dir = parent_of(playlist@);
        assert(m3u_entries(bytes@) == Some(views));
        assert(resolves(dir, views, resolution_view(res)));
        if has_remote(views) {
            lemma_remote_entry_fails(dir, views, resolution_view(res));
        }
        if res is Err {
            let i = choose|i: int|
                0 <= i < views.len() && #[trigger] entry_error(dir, views[i]) == Some(
                    res->Err_0,
                );
            assert(entry_error(dir, views[i]).is_some());
        }
    }
    res
}

} // verus!
