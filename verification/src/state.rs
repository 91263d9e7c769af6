//! The state reported to the user interface, assembled from what the
//! launcher knows and what the running helper reports about itself.

use vstd::prelude::*;

use crate::download::{opt_string_view, DownloadStatus};

verus! {

/// A player in the current room.
#[derive(Debug, Clone)]
pub struct TerracottaPlayer {
    pub machine_id: String,
    pub name: String,
    pub kind: String,
}

/// Everything the user interface shows about the helper.
#[derive(Debug, Clone)]
pub struct TerracottaState {
    pub installed: bool,
    pub installed_version: Option<String>,
    pub latest_version: Option<String>,
    pub update_available: bool,
    pub running: bool,
    pub status: String,
    pub room_code: Option<String>,
    pub server_address: Option<String>,
    pub players: Vec<TerracottaPlayer>,
    pub download_progress: Option<u8>,
    pub download_stage: Option<String>,
}

impl Default for TerracottaState {
    fn default() -> (s: Self)
        ensures
            !s.installed,
            s.installed_version is None,
            s.latest_version is None,
            !s.update_available,
            !s.running,
            s.status@ == Seq::<char>::empty(),
            s.room_code is None,
            s.server_address is None,
            s.players@.len() == 0,
            s.download_progress is None,
            s.download_stage is None,
    {
        TerracottaState {
            installed: false,
            installed_version: None,
            latest_version: None,
            update_available: false,
            running: false,
            status: String::new(),
            room_code: None,
            server_address: None,
            players: Vec::new(),
            download_progress: None,
            download_stage: None,
        }
    }
}

/// A room member as the helper's `/state` answer describes it.
#[derive(Debug, Clone)]
pub struct TerracottaApiProfile {
    pub machine_id: String,
    pub name: String,
    pub kind: String,
}

/// The helper's `/state` answer: its state name, the room and server it
/// serves, and the room's members.
#[derive(Debug, Clone)]
pub struct TerracottaApiState {
    pub state: String,
    pub room: Option<String>,
    pub url: Option<String>,
    pub profiles: Vec<TerracottaApiProfile>,
}

/// The texts that describe a player.
pub open spec fn player_view(p: TerracottaPlayer) -> (Seq<char>, Seq<char>, Seq<char>) {
    (p.machine_id@, p.name@, p.kind@)
}

/// The texts that describe a member in the helper's answer.
pub open spec fn profile_view(p: TerracottaApiProfile) -> (Seq<char>, Seq<char>, Seq<char>) {
    (p.machine_id@, p.name@, p.kind@)
}

/// Whether a newer release than the installed one is known: the latest
/// version is known and the installed one is absent or differs from it.
pub open spec fn update_available_of(
    installed_version: Option<Seq<char>>,
    latest_version: Option<Seq<char>>,
) -> bool {
    match latest_version {
        Some(v) => installed_version != Some(v),
        None => false,
    }
}

/// The status word shown: the helper's own where it answered, else
/// `running` or `idle`.
pub open spec fn status_of(api: Option<TerracottaApiState>, running: bool) -> Seq<char> {
    match api {
        Some(a) => a.state@,
        None => if running {
            "running"@
        } else {
            "idle"@
        },
    }
}

/// The room members as players.
fn players_of(profiles: &Vec<TerracottaApiProfile>) -> (players: Vec<TerracottaPlayer>)
    ensures
        players@.map_values(|p: TerracottaPlayer| player_view(p)) == profiles@.map_values(
            |p: TerracottaApiProfile| profile_view(p),
        ),
{
    let mut players: Vec<TerracottaPlayer> = Vec::new();
    let mut i: usize = 0;
    while i < profiles.len()
        invariant
            i <= profiles@.len(),
            players@.len() == i,
            forall|k: int|
                0 <= k < i ==> player_view(#[trigger] players@[k]) == profile_view(profiles@[k]),
        decreases profiles@.len() - i,
    {
        let profile = &profiles[i];
        players.push(
            TerracottaPlayer {
                machine_id: profile.machine_id.clone(),
                name: profile.name.clone(),
                kind: profile.kind.clone(),
            },
        );
        i = i + 1;
    }
    assert(players@.map_values(|p: TerracottaPlayer| player_view(p)) =~= profiles@.map_values(
        |p: TerracottaApiProfile| profile_view(p),
    ));
    players
}

/// Assembles the state shown to the user from: whether the helper binary
/// is installed, the installed and latest versions, whether the helper
/// runs, its `/state` answer where one came, and the download progress.
pub fn build_state(
    installed: bool,
    installed_version: Option<String>,
    latest_version: Option<String>,
    running: bool,
    api: Option<TerracottaApiState>,
    download: DownloadStatus,
) -> (s: TerracottaState)
    ensures
        s.installed == installed,
        opt_string_view(s.installed_version) == opt_string_view(installed_version),
        opt_string_view(s.latest_version) == opt_string_view(latest_version),
        s.update_available == update_available_of(
            opt_string_view(installed_version),
            opt_string_view(latest_version),
        ),
        s.update_available == (latest_version is Some && (installed_version is None
            || installed_version->0@ != latest_version->0@)),
        s.running == running,
        s.status@ == status_of(api, running),
        opt_string_view(s.room_code) == match api {
            Some(a) => opt_string_view(a.room),
            None => None,
        },
        opt_string_view(s.server_address) == match api {
            Some(a) => opt_string_view(a.url),
            None => None,
        },
        s.players@.map_values(|p: TerracottaPlayer| player_view(p)) == match api {
            Some(a) => a.profiles@.map_values(|p: TerracottaApiProfile| profile_view(p)),
            None => Seq::empty(),
        },
        s.download_progress == download.progress,
        opt_string_view(s.download_stage) == opt_string_view(download.stage),
{
    let update_available = match &latest_version {
        Some(v) => match &installed_version {
            Some(i) => !crate::text::same_text(i.as_str(), v.as_str()),
            None => true,
        },
        None => false,
    };
    let (status, room_code, server_address, players) = match &api {
        Some(a) => (a.state.clone(), a.room.clone(), a.url.clone(), players_of(&a.profiles)),
        None => (
            if running {
                String::from_str("running")
            } else {
                String::from_str("idle")
            },
            None,
            None,
            Vec::new(),
        ),
    };
    TerracottaState {
        installed,
        installed_version,
        latest_version,
        update_available,
        running,
        status,
        room_code,
        server_address,
        players,
        download_progress: download.progress,
        download_stage: download.stage,
    }
}

/// An update is offered exactly when the latest version is known and the
/// installed version is absent or a different text: no order of versions is
/// involved, any difference counts.
pub proof fn lemma_update_available(installed: Option<Seq<char>>, latest: Option<Seq<char>>)
    ensures
        update_available_of(installed, latest) <==> (latest is Some && (installed is None
            || installed->0 != latest->0)),
        latest is Some && installed is Some && installed->0 != latest->0 ==> update_available_of(
            installed,
            latest,
        ),
        installed == latest ==> !update_available_of(installed, latest),
{
}

} // verus!
