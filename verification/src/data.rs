//! The datasets the cache holds: leaderboard rankings and the server list.
//!
//! Records are carried through the cache unchanged; the cache never inspects
//! them. Each record type implements `Clone` with a contract, so that copying
//! a snapshot out from under the lock provably preserves its contents.

use vstd::prelude::*;

verus! {

/// The kind of anti-cheat a server runs.
#[derive(Clone, Copy, Debug, PartialEq, Eq, Structural)]
pub enum AntiCheat {
    EasyAntiCheat,
    Unknown,
}

/// Time of day on a server's map.
#[derive(Clone, Copy, Debug, PartialEq, Eq, Structural)]
pub enum DayNight {
    Day,
    Night,
}

/// The game mode a server is running.
#[derive(Clone, Copy, Debug, PartialEq, Eq, Structural)]
pub enum Gamemode {
    Conquest,
    InfanteryConquest,
    Rush,
    Frontline,
    Domination,
    Elimination,
    TeamDeathmatch,
    CaptureTheFlag,
    VoxelFortify,
    VoxelTrench,
    FreeForAll,
    Invasion,
    Unknown,
}

/// The size of the map a server is running.
#[derive(Clone, Copy, Debug, PartialEq, Eq, Structural)]
pub enum MapSize {
    Ultra,
    Big,
    Medium,
    Small,
    Tiny,
    Unknown,
}

/// The region a server is hosted in.
#[derive(Clone, Copy, Debug, PartialEq, Eq, Structural)]
pub enum Region {
    Europe,
    Japan,
    Australia,
    America,
    Brazil,
    Asia,
    DeveloperServer,
    Unknown,
}

/// One entry of a player ranking: a player's name and the metric's value for
/// that player (kills on the kills ranking, experience on the experience
/// ranking, and so on).
#[derive(Debug)]
pub struct Player {
    /// The player's name.
    pub name: String,
    /// The ranked metric's value for this player.
    pub value: usize,
}

impl Clone for Player {
    /// A cloned record equals the original.
    fn clone(&self) -> (r: Self)
        ensures
            r == *self,
    {
        Player { name: self.name.clone(), value: self.value }
    }
}

/// One entry of the clan ranking.
#[derive(Debug)]
pub struct Clan {
    /// The clan's name.
    pub name: String,
    /// The clan's tag.
    pub tag: String,
    /// The clan's total experience.
    pub xp: usize,
    /// How many players the clan can hold.
    pub max_players: usize,
}

impl Clone for Clan {
    /// A cloned record equals the original.
    fn clone(&self) -> (r: Self)
        ensures
            r == *self,
    {
        Clan {
            name: self.name.clone(),
            tag: self.tag.clone(),
            xp: self.xp,
            max_players: self.max_players,
        }
    }
}

/// One entry of the server list.
#[derive(Debug)]
pub struct ServerData {
    /// The server's name.
    pub name: String,
    /// The map the server is running.
    pub map: String,
    /// The size of that map.
    pub map_size: MapSize,
    /// The game mode the server is running.
    pub gamemode: Gamemode,
    /// The region the server is hosted in.
    pub region: Region,
    /// How many players are on the server.
    pub player_count: u8,
    /// How many players are queued to join.
    pub queued_player_count: u16,
    /// How many players the server can hold.
    pub max_players: u8,
    /// The server's tick rate.
    pub hz: u8,
    /// Time of day on the map.
    pub day_night: DayNight,
    /// Whether the server is official.
    pub is_official: bool,
    /// Whether the server is password-protected.
    pub has_password: bool,
    /// The anti-cheat the server runs.
    pub anti_cheat: AntiCheat,
    /// The build the server runs.
    pub build: String,
}

impl Clone for ServerData {
    /// A cloned record equals the original.
    fn clone(&self) -> (r: Self)
        ensures
            r == *self,
    {
        ServerData {
            name: self.name.clone(),
            map: self.map.clone(),
            map_size: self.map_size,
            gamemode: self.gamemode,
            region: self.region,
            player_count: self.player_count,
            queued_player_count: self.queued_player_count,
            max_players: self.max_players,
            hz: self.hz,
            day_night: self.day_night,
            is_official: self.is_official,
            has_password: self.has_password,
            anti_cheat: self.anti_cheat,
            build: self.build.clone(),
        }
    }
}

/// Why a fetch from the upstream provider failed. The cache only carries the
/// failure; it never reads it.
#[derive(Clone, Copy, Debug, PartialEq, Eq, Structural)]
pub enum FetchError {
    /// The upstream could not be reached.
    Network,
    /// The upstream's address could not be formed.
    InvalidUrl,
    /// The upstream's answer could not be parsed.
    Parse,
}

/// One fetched leaderboard: a ranked list per metric, plus the clan ranking.
#[derive(Debug)]
pub struct Leaderboard {
    /// Clans ranked by total experience.
    pub top_clans: Vec<Clan>,
    /// Players ranked by experience.
    pub most_xp: Vec<Player>,
    /// Players ranked by heals.
    pub most_heals: Vec<Player>,
    /// Players ranked by revives.
    pub most_revives: Vec<Player>,
    /// Players ranked by vehicles destroyed.
    pub most_vehicles_destroyed: Vec<Player>,
    /// Players ranked by vehicle repairs.
    pub most_vehicle_repairs: Vec<Player>,
    /// Players ranked by roadkills.
    pub most_roadkills: Vec<Player>,
    /// Players ranked by the length of their longest kill.
    pub longest_kills: Vec<Player>,
    /// Players ranked by objectives completed.
    pub most_objectives_complete: Vec<Player>,
    /// Players ranked by kills.
    pub most_kills: Vec<Player>,
}

/// The mathematical content of a leaderboard: each ranking as a sequence.
pub ghost struct LeaderboardView {
    pub top_clans: Seq<Clan>,
    pub most_xp: Seq<Player>,
    pub most_heals: Seq<Player>,
    pub most_revives: Seq<Player>,
    pub most_vehicles_destroyed: Seq<Player>,
    pub most_vehicle_repairs: Seq<Player>,
    pub most_roadkills: Seq<Player>,
    pub longest_kills: Seq<Player>,
    pub most_objectives_complete: Seq<Player>,
    pub most_kills: Seq<Player>,
}

impl LeaderboardView {
    /// A leaderboard whose every ranking is empty: what an upstream answer
    /// with zero rows looks like.
    pub open spec fn empty() -> LeaderboardView {
        LeaderboardView {
            top_clans: Seq::empty(),
            most_xp: Seq::empty(),
            most_heals: Seq::empty(),
            most_revives: Seq::empty(),
            most_vehicles_destroyed: Seq::empty(),
            most_vehicle_repairs: Seq::empty(),
            most_roadkills: Seq::empty(),
            longest_kills: Seq::empty(),
            most_objectives_complete: Seq::empty(),
            most_kills: Seq::empty(),
        }
    }
}

impl View for Leaderboard {
    type V = LeaderboardView;

    open spec fn view(&self) -> LeaderboardView {
        LeaderboardView {
            top_clans: self.top_clans@,
            most_xp: self.most_xp@,
            most_heals: self.most_heals@,
            most_revives: self.most_revives@,
            most_vehicles_destroyed: self.most_vehicles_destroyed@,
            most_vehicle_repairs: self.most_vehicle_repairs@,
            most_roadkills: self.most_roadkills@,
            longest_kills: self.longest_kills@,
            most_objectives_complete: self.most_objectives_complete@,
            most_kills: self.most_kills@,
        }
    }
}

impl Leaderboard {
    /// A leaderboard with every ranking empty.
    pub fn new() -> (r: Self)
        ensures
            r@ == LeaderboardView::empty(),
    {
        Leaderboard {
            top_clans: Vec::new(),
            most_xp: Vec::new(),
            most_heals: Vec::new(),
            most_revives: Vec::new(),
            most_vehicles_destroyed: Vec::new(),
            most_vehicle_repairs: Vec::new(),
            most_roadkills: Vec::new(),
            longest_kills: Vec::new(),
            most_objectives_complete: Vec::new(),
            most_kills: Vec::new(),
        }
    }

    /// The clan ranking.
    pub fn top_clans(&self) -> (r: &Vec<Clan>)
        ensures
            r@ == self@.top_clans,
    {
        &self.top_clans
    }

    /// The experience ranking.
    pub fn most_xp(&self) -> (r: &Vec<Player>)
        ensures
            r@ == self@.most_xp,
    {
        &self.most_xp
    }

    /// The heals ranking.
    pub fn most_heals(&self) -> (r: &Vec<Player>)
        ensures
            r@ == self@.most_heals,
    {
        &self.most_heals
    }

    /// The revives ranking.
    pub fn most_revives(&self) -> (r: &Vec<Player>)
        ensures
            r@ == self@.most_revives,
    {
        &self.most_revives
    }

    /// The vehicles-destroyed ranking.
    pub fn most_vehicles_destroyed(&self) -> (r: &Vec<Player>)
        ensures
            r@ == self@.most_vehicles_destroyed,
    {
        &self.most_vehicles_destroyed
    }

    /// The vehicle-repairs ranking.
    pub fn most_vehicle_repairs(&self) -> (r: &Vec<Player>)
        ensures
            r@ == self@.most_vehicle_repairs,
    {
        &self.most_vehicle_repairs
    }

    /// The roadkills ranking.
    pub fn most_roadkills(&self) -> (r: &Vec<Player>)
        ensures
            r@ == self@.most_roadkills,
    {
        &self.most_roadkills
    }

    /// The longest-kill ranking.
    pub fn longest_kills(&self) -> (r: &Vec<Player>)
        ensures
            r@ == self@.longest_kills,
    {
        &self.longest_kills
    }

    /// The objectives-completed ranking.
    pub fn most_objectives_complete(&self) -> (r: &Vec<Player>)
        ensures
            r@ == self@.most_objectives_complete,
    {
        &self.most_objectives_complete
    }

    /// The kills ranking.
    pub fn most_kills(&self) -> (r: &Vec<Player>)
        ensures
            r@ == self@.most_kills,
    {
        &self.most_kills
    }
}

/// A cloned vector of records has the same view as the original, provided the
/// record type's `Clone` returns its input unchanged.
pub proof fn lemma_clone_preserves_view<T: Clone>(a: Seq<T>, b: Seq<T>)
    requires
        a.len() == b.len(),
        forall|i: int| #![all_triggers] 0 <= i < a.len() ==> cloned::<T>(a[i], b[i]),
        forall|x: T, y: T| cloned::<T>(x, y) ==> y == x,
    ensures
        a == b,
{
    assert(a =~= b);
}

impl Clone for Leaderboard {
    /// A cloned leaderboard has the same rankings as the original.
    fn clone(&self) -> (r: Self)
        ensures
            r@ == self@,
    {
        let r = Leaderboard {
            top_clans: self.top_clans.clone(),
            most_xp: self.most_xp.clone(),
            most_heals: self.most_heals.clone(),
            most_revives: self.most_revives.clone(),
            most_vehicles_destroyed: self.most_vehicles_destroyed.clone(),
            most_vehicle_repairs: self.most_vehicle_repairs.clone(),
            most_roadkills: self.most_roadkills.clone(),
            longest_kills: self.longest_kills.clone(),
            most_objectives_complete: self.most_objectives_complete.clone(),
            most_kills: self.most_kills.clone(),
        };
        proof {
            lemma_clone_preserves_view(self.top_clans@, r.top_clans@);
            lemma_clone_preserves_view(self.most_xp@, r.most_xp@);
            lemma_clone_preserves_view(self.most_heals@, r.most_heals@);
            lemma_clone_preserves_view(self.most_revives@, r.most_revives@);
            lemma_clone_preserves_view(self.most_vehicles_destroyed@, r.most_vehicles_destroyed@);
            lemma_clone_preserves_view(self.most_vehicle_repairs@, r.most_vehicle_repairs@);
            lemma_clone_preserves_view(self.most_roadkills@, r.most_roadkills@);
            lemma_clone_preserves_view(self.longest_kills@, r.longest_kills@);
            lemma_clone_preserves_view(self.most_objectives_complete@, r.most_objectives_complete@);
            lemma_clone_preserves_view(self.most_kills@, r.most_kills@);
        }
        r
    }
}

} // verus!
