//! The read gateway: one query per leaderboard metric, plus the server list.
//!
//! Each query projects one ranking out of a snapshot and pairs it with the
//! snapshot's freshness stamp. While no leaderboard was ever fetched, the
//! ranking is empty and the stamp is `0`; a leaderboard that was fetched but
//! came back with zero rows is served as an empty ranking with a non-zero
//! stamp, so the two cases stay distinguishable.

use vstd::prelude::*;

use crate::data::Clan;
use crate::data::Player;
use crate::data::lemma_clone_preserves_view;
use crate::responses::ClanLeaderboardResponse;
use crate::responses::PlayerLeaderboardResponse;
use crate::responses::ServerListResponse;
use crate::snapshot::BBData;

verus! {

/// A copy of a ranking with the same content.
fn cloned_ranking<T: Clone>(v: &Vec<T>) -> (r: Vec<T>)
    requires
        forall|x: T, y: T| cloned::<T>(x, y) ==> y == x,
    ensures
        r@ == v@,
{
    let r = v.clone();
    proof {
        lemma_clone_preserves_view(v@, r@);
    }
    r
}

/// The clan ranking of the snapshot's leaderboard, with the leaderboard's
/// stamp; empty while no leaderboard was ever fetched.
pub fn clans(d: &BBData) -> (r: ClanLeaderboardResponse)
    ensures
        r.status == crate::responses::OK,
        r.stamp == d@.leaderboard_stamp,
        match d@.leaderboard {
            Some(lb) => r.data@ == lb.top_clans,
            None => r.data@ == Seq::<Clan>::empty(),
        },
{
    match d.leaderboard() {
        Some(lb) => ClanLeaderboardResponse::new(cloned_ranking(lb.top_clans()), d.leaderboard_stamp),
        None => ClanLeaderboardResponse::new(Vec::new(), d.leaderboard_stamp),
    }
}

/// The kills ranking, with the leaderboard's stamp.
pub fn kills(d: &BBData) -> (r: PlayerLeaderboardResponse)
    ensures
        r.status == crate::responses::OK,
        r.stamp == d@.leaderboard_stamp,
        match d@.leaderboard {
            Some(lb) => r.data@ == lb.most_kills,
            None => r.data@ == Seq::<Player>::empty(),
        },
{
    match d.leaderboard() {
        Some(lb) => PlayerLeaderboardResponse::new(cloned_ranking(lb.most_kills()), d.leaderboard_stamp),
        None => PlayerLeaderboardResponse::new(Vec::new(), d.leaderboard_stamp),
    }
}

/// The heals ranking, with the leaderboard's stamp.
pub fn heal(d: &BBData) -> (r: PlayerLeaderboardResponse)
    ensures
        r.status == crate::responses::OK,
        r.stamp == d@.leaderboard_stamp,
        match d@.leaderboard {
            Some(lb) => r.data@ == lb.most_heals,
            None => r.data@ == Seq::<Player>::empty(),
        },
{
    match d.leaderboard() {
        Some(lb) => PlayerLeaderboardResponse::new(cloned_ranking(lb.most_heals()), d.leaderboard_stamp),
        None => PlayerLeaderboardResponse::new(Vec::new(), d.leaderboard_stamp),
    }
}

/// The longest-kill ranking, with the leaderboard's stamp.
pub fn longest_kills(d: &BBData) -> (r: PlayerLeaderboardResponse)
    ensures
        r.status == crate::responses::OK,
        r.stamp == d@.leaderboard_stamp,
        match d@.leaderboard {
            Some(lb) => r.data@ == lb.longest_kills,
            None => r.data@ == Seq::<Player>::empty(),
        },
{
    match d.leaderboard() {
        Some(lb) => PlayerLeaderboardResponse::new(cloned_ranking(lb.longest_kills()), d.leaderboard_stamp),
        None => PlayerLeaderboardResponse::new(Vec::new(), d.leaderboard_stamp),
    }
}

/// The objectives-completed ranking, with the leaderboard's stamp.
pub fn objectives_complete(d: &BBData) -> (r: PlayerLeaderboardResponse)
    ensures
        r.status == crate::responses::OK,
        r.stamp == d@.leaderboard_stamp,
        match d@.leaderboard {
            Some(lb) => r.data@ == lb.most_objectives_complete,
            None => r.data@ == Seq::<Player>::empty(),
        },
{
    match d.leaderboard() {
        Some(lb) => PlayerLeaderboardResponse::new(
            cloned_ranking(lb.most_objectives_complete()),
            d.leaderboard_stamp,
        ),
        None => PlayerLeaderboardResponse::new(Vec::new(), d.leaderboard_stamp),
    }
}

/// The revives ranking, with the leaderboard's stamp.
pub fn revives(d: &BBData) -> (r: PlayerLeaderboardResponse)
    ensures
        r.status == crate::responses::OK,
        r.stamp == d@.leaderboard_stamp,
        match d@.leaderboard {
            Some(lb) => r.data@ == lb.most_revives,
            None => r.data@ == Seq::<Player>::empty(),
        },
{
    match d.leaderboard() {
        Some(lb) => PlayerLeaderboardResponse::new(cloned_ranking(lb.most_revives()), d.leaderboard_stamp),
        None => PlayerLeaderboardResponse::new(Vec::new(), d.leaderboard_stamp),
    }
}

/// The roadkills ranking, with the leaderboard's stamp.
pub fn roadkills(d: &BBData) -> (r: PlayerLeaderboardResponse)
    ensures
        r.status == crate::responses::OK,
        r.stamp == d@.leaderboard_stamp,
        match d@.leaderboard {
            Some(lb) => r.data@ == lb.most_roadkills,
            None => r.data@ == Seq::<Player>::empty(),
        },
{
    match d.leaderboard() {
        Some(lb) => PlayerLeaderboardResponse::new(cloned_ranking(lb.most_roadkills()), d.leaderboard_stamp),
        None => PlayerLeaderboardResponse::new(Vec::new(), d.leaderboard_stamp),
    }
}

/// The vehicle-repairs ranking, with the leaderboard's stamp.
pub fn vehicle_repairs(d: &BBData) -> (r: PlayerLeaderboardResponse)
    ensures
        r.status == crate::responses::OK,
        r.stamp == d@.leaderboard_stamp,
        match d@.leaderboard {
            Some(lb) => r.data@ == lb.most_vehicle_repairs,
            None => r.data@ == Seq::<Player>::empty(),
        },
{
    match d.leaderboard() {
        Some(lb) => PlayerLeaderboardResponse::new(
            cloned_ranking(lb.most_vehicle_repairs()),
            d.leaderboard_stamp,
        ),
        None => PlayerLeaderboardResponse::new(Vec::new(), d.leaderboard_stamp),
    }
}

/// The vehicles-destroyed ranking, with the leaderboard's stamp.
pub fn vehicles_destroyed(d: &BBData) -> (r: PlayerLeaderboardResponse)
    ensures
        r.status == crate::responses::OK,
        r.stamp == d@.leaderboard_stamp,
        match d@.leaderboard {
            Some(lb) => r.data@ == lb.most_vehicles_destroyed,
            None => r.data@ == Seq::<Player>::empty(),
        },
{
    match d.leaderboard() {
        Some(lb) => PlayerLeaderboardResponse::new(
            cloned_ranking(lb.most_vehicles_destroyed()),
            d.leaderboard_stamp,
        ),
        None => PlayerLeaderboardResponse::new(Vec::new(), d.leaderboard_stamp),
    }
}

/// The experience ranking, with the leaderboard's stamp.
pub fn xp(d: &BBData) -> (r: PlayerLeaderboardResponse)
    ensures
        r.status == crate::responses::OK,
        r.stamp == d@.leaderboard_stamp,
        match d@.leaderboard {
            Some(lb) => r.data@ == lb.most_xp,
            None => r.data@ == Seq::<Player>::empty(),
        },
{
    match d.leaderboard() {
        Some(lb) => PlayerLeaderboardResponse::new(cloned_ranking(lb.most_xp()), d.leaderboard_stamp),
        None => PlayerLeaderboardResponse::new(Vec::new(), d.leaderboard_stamp),
    }
}

/// The server list, with its own stamp; empty while no list was ever fetched.
pub fn serverlist(d: &BBData) -> (r: ServerListResponse)
    ensures
        r.status == crate::responses::OK,
        r.stamp == d@.server_list_stamp,
        match d@.server_list {
            Some(sl) => r.data@ == sl,
            None => r.data@ == Seq::<crate::data::ServerData>::empty(),
        },
{
    match d.server_list() {
        Some(sl) => ServerListResponse::new(sl, d.server_list_stamp),
        None => ServerListResponse::new(Vec::new(), d.server_list_stamp),
    }
}

} // verus!

