use vstd::prelude::*;

verus! {

/// The persisted configuration of one profile, as plain values.
pub struct ProfileRecord {
    pub playlist_id: Option<Seq<char>>,
    pub playlist_snapshot_id: Option<Seq<char>>,
    pub playlist_track_cache: Option<Seq<Seq<char>>>,
}

/// The record of a profile that has not been configured yet.
pub open spec fn empty_record() -> ProfileRecord {
    ProfileRecord { playlist_id: None, playlist_snapshot_id: None, playlist_track_cache: None }
}

/// Whether a record still asks for the target playlist to be chosen.
pub open spec fn needs_selection(r: ProfileRecord) -> bool {
    r.playlist_id is None
}

/// `r` with the chosen playlist recorded and every other field kept.
pub open spec fn with_playlist(r: ProfileRecord, id: Seq<char>) -> ProfileRecord {
    ProfileRecord { playlist_id: Some(id), ..r }
}

/// Once a playlist is recorded, a later run skips the selection, and the
/// fields that recording does not touch keep their values.
pub proof fn lemma_recorded_playlist_is_kept(r: ProfileRecord, id: Seq<char>)
    ensures
        !needs_selection(with_playlist(r, id)),
        with_playlist(r, id).playlist_id == Some(id),
        with_playlist(r, id).playlist_snapshot_id == r.playlist_snapshot_id,
        with_playlist(r, id).playlist_track_cache == r.playlist_track_cache,
        needs_selection(empty_record()),
{
}

pub open spec fn string_views(v: Seq<String>) -> Seq<Seq<char>> {
    v.map_values(|s: String| s@)
}

/// The configuration record of one profile.
///
/// `playlist_id` is absent until a playlist has been chosen. The snapshot id
/// and the track cache are carried along unchanged: nothing reads them, and
/// nothing that writes the record may drop them.
pub struct ProfileConfig {
    pub playlist_id: Option<String>,
    pub playlist_snapshot_id: Option<String>,
    pub playlist_track_cache: Option<Vec<String>>,
}

impl View for ProfileConfig {
    type V = ProfileRecord;

    open spec fn view(&self) -> ProfileRecord {
        ProfileRecord {
            playlist_id: match self.playlist_id {
                Some(s) => Some(s@),
                None => None,
            },
            playlist_snapshot_id: match self.playlist_snapshot_id {
                Some(s) => Some(s@),
                None => None,
            },
            playlist_track_cache: match self.playlist_track_cache {
                Some(v) => Some(string_views(v@)),
                None => None,
            },
        }
    }
}

impl ProfileConfig {
    /// The record of a profile seen for the first time: every field absent.
    pub fn new() -> (r: ProfileConfig)
        ensures
            r@ == empty_record(),
    {
        ProfileConfig { playlist_id: None, playlist_snapshot_id: None, playlist_track_cache: None }
    }

    /// Whether the target playlist still has to be chosen.
    pub fn needs_playlist(&self) -> (r: bool)
        ensures
            r == needs_selection(self@),
    {
        self.playlist_id.is_none()
    }

    /// Records the chosen playlist, keeping every other field as it was.
    pub fn set_playlist_id(&mut self, id: String)
        ensures
            final(self)@ == with_playlist(old(self)@, id@),
    {
        self.playlist_id = Some(id);
    }
}

/// The name of the directory, under the application-data root, that holds
/// everything this program stores.
pub open spec fn app_dir_spec() -> Seq<char> {
    seq!['p', 'l', 'a', 'y', 'm', 'a', 't', 'e']
}

pub open spec fn config_file_spec() -> Seq<char> {
    seq!['c', 'o', 'n', 'f', 'i', 'g', '.', 't', 'o', 'm', 'l']
}

pub open spec fn token_cache_file_spec() -> Seq<char> {
    seq!['t', 'o', 'k', 'e', 'n', '_', 'c', 'a', 'c', 'h', 'e', '.', 'j', 's', 'o', 'n']
}

/// The path components, from the application-data root down, of the
/// configuration file of `profile`: `<root>/playmate/<profile>/config.toml`.
pub fn config_location(root: &str, profile: &str) -> (r: Vec<String>)
    ensures
        string_views(r@) == seq![root@, app_dir_spec(), profile@, config_file_spec()],
{
    let mut r: Vec<String> = Vec::new();
    r.push(root.to_owned());
    r.push(app_dir());
    r.push(profile.to_owned());
    r.push(config_file());
    proof {
        assert(string_views(r@) =~= seq![root@, app_dir_spec(), profile@, config_file_spec()]);
    }
    r
}

/// The path components of the credential cache of `profile`:
/// `<root>/playmate/<profile>/token_cache.json`.
pub fn token_cache_location(root: &str, profile: &str) -> (r: Vec<String>)
    ensures
        string_views(r@) == seq![root@, app_dir_spec(), profile@, token_cache_file_spec()],
{
    let mut r: Vec<String> = Vec::new();
    r.push(root.to_owned());
    r.push(app_dir());
    r.push(profile.to_owned());
    r.push(token_cache_file());
    proof {
        assert(string_views(r@) =~= seq![root@, app_dir_spec(), profile@, token_cache_file_spec()]);
    }
    r
}

fn app_dir() -> (r: String)
    ensures
        r@ == app_dir_spec(),
{
    let r = "playmate".to_owned();
    proof {
        reveal_strlit("playmate");
        assert(r@ =~= app_dir_spec());
    }
    r
}

fn config_file() -> (r: String)
    ensures
        r@ == config_file_spec(),
{
    let r = "config.toml".to_owned();
    proof {
        reveal_strlit("config.toml");
        assert(r@ =~= config_file_spec());
    }
    r
}

fn token_cache_file() -> (r: String)
    ensures
        r@ == token_cache_file_spec(),
{
    let r = "token_cache.json".to_owned();
    proof {
        reveal_strlit("token_cache.json");
        assert(r@ =~= token_cache_file_spec());
    }
    r
}

} // verus!
