//! The payloads a reader is served: one ranking, or the server list, together
//! with the freshness stamp of the snapshot it was copied from.

use vstd::prelude::*;

use crate::data::Clan;
use crate::data::Player;
use crate::data::ServerData;

verus! {

/// The HTTP status code of a successful answer.
pub const OK: u16 = 200;

/// One player ranking with its freshness stamp.
#[derive(Debug)]
pub struct PlayerLeaderboardResponse {
    /// HTTP status code, repeated in the body for clients that cannot read
    /// it from the transport.
    pub status: u16,
    /// The ranking, in upstream order; empty while no leaderboard was ever
    /// fetched or the upstream returned zero rows.
    pub data: Vec<Player>,
    /// Unix second the leaderboard was fetched at, `0` while absent.
    pub stamp: u64,
}

impl PlayerLeaderboardResponse {
    /// Packs a ranking and its stamp into a successful answer.
    pub fn new(data: Vec<Player>, stamp: u64) -> (r: Self)
        ensures
            r.status == OK,
            r.data@ == data@,
            r.stamp == stamp,
    {
        Self { status: OK, data, stamp }
    }
}

/// The clan ranking with its freshness stamp.
#[derive(Debug)]
pub struct ClanLeaderboardResponse {
    /// HTTP status code, repeated in the body.
    pub status: u16,
    /// The clan ranking, in upstream order; empty while no leaderboard was
    /// ever fetched or the upstream returned zero rows.
    pub data: Vec<Clan>,
    /// Unix second the leaderboard was fetched at, `0` while absent.
    pub stamp: u64,
}

impl ClanLeaderboardResponse {
    /// Packs the clan ranking and its stamp into a successful answer.
    pub fn new(data: Vec<Clan>, stamp: u64) -> (r: Self)
        ensures
            r.status == OK,
            r.data@ == data@,
            r.stamp == stamp,
    {
        Self { status: OK, data, stamp }
    }
}

/// The server list with its freshness stamp.
#[derive(Debug)]
pub struct ServerListResponse {
    /// HTTP status code, repeated in the body.
    pub status: u16,
    /// The server list, in upstream order; empty while no list was ever
    /// fetched or the upstream returned zero rows.
    pub data: Vec<ServerData>,
    /// Unix second the server list was fetched at, `0` while absent.
    pub stamp: u64,
}

impl ServerListResponse {
    /// Packs the server list and its stamp into a successful answer.
    pub fn new(data: Vec<ServerData>, stamp: u64) -> (r: Self)
        ensures
            r.status == OK,
            r.data@ == data@,
            r.stamp == stamp,
    {
        Self { status: OK, data, stamp }
    }
}

} // verus!
