use bbdata::data::Clan;
use bbdata::data::FetchError;
use bbdata::data::Leaderboard;
use bbdata::data::Player;
use bbdata::data::Region;
use bbdata::data::ServerData;
use bbdata::data::AntiCheat;
use bbdata::data::DayNight;
use bbdata::data::Gamemode;
use bbdata::data::MapSize;
use bbdata::error::ApiError;
use bbdata::error::Error;
use bbdata::error::ErrorResponse;
use bbdata::gateway;
use bbdata::snapshot::BBData;
use bbdata::store::SnapshotStore;

fn player(name: &str, value: usize) -> Player {
    Player { name: name.to_string(), value }
}

fn clan(name: &str, tag: &str, xp: usize) -> Clan {
    Clan { name: name.to_string(), tag: tag.to_string(), xp, max_players: 100 }
}

fn server(name: &str) -> ServerData {
    ServerData {
        name: name.to_string(),
        map: "GenericMap".to_string(),
        map_size: MapSize::Big,
        gamemode: Gamemode::Conquest,
        region: Region::Europe,
        player_count: 12,
        queued_player_count: 0,
        max_players: 64,
        hz: 60,
        day_night: DayNight::Day,
        is_official: false,
        has_password: false,
        anti_cheat: AntiCheat::EasyAntiCheat,
        build: "Production".to_string(),
    }
}

fn leaderboard_with(kills: Vec<Player>) -> Leaderboard {
    let mut lb = Leaderboard::new();
    lb.most_kills = kills;
    lb
}

fn full_leaderboard() -> Leaderboard {
    Leaderboard {
        top_clans: vec![clan("Clan", "CLN", 1_000_000)],
        most_xp: vec![player("x", 1)],
        most_heals: vec![player("h", 2)],
        most_revives: vec![player("r", 3)],
        most_vehicles_destroyed: vec![player("vd", 4)],
        most_vehicle_repairs: vec![player("vr", 5)],
        most_roadkills: vec![player("rk", 6)],
        longest_kills: vec![player("lk", 7)],
        most_objectives_complete: vec![player("oc", 8)],
        most_kills: vec![player("k", 9)],
    }
}

#[test]
fn absence_invariant() {
    let d = BBData::new();
    assert!(d.current_leaderboard().is_none());
    assert!(d.current_server_list().is_none());
    assert_eq!(d.leaderboard_stamp, 0);
    assert_eq!(d.server_list_stamp, 0);
}

#[test]
fn absence_invariant_through_store() {
    let store = SnapshotStore::new();
    assert!(store.current_leaderboard().is_none());
    assert!(store.current_server_list().is_none());
    let snap = store.read_snapshot();
    assert_eq!(snap.leaderboard_stamp, 0);
    assert_eq!(snap.server_list_stamp, 0);
}

#[test]
fn atomic_replacement_on_partial_failure() {
    let mut d = BBData::new();
    d.update(Ok(leaderboard_with(vec![player("Alice", 10)])), Ok(vec![server("EU-1")]), 100);

    d.update(Ok(leaderboard_with(vec![player("Bob", 20)])), Err(FetchError::Network), 200);

    let (lb, stamp) = d.current_leaderboard().unwrap();
    assert_eq!(stamp, 200);
    assert_eq!(lb.most_kills.len(), 1);
    assert_eq!(lb.most_kills[0].name, "Bob");

    let (sl, sl_stamp) = d.current_server_list().unwrap();
    assert_eq!(sl_stamp, 100);
    assert_eq!(sl.len(), 1);
    assert_eq!(sl[0].name, "EU-1");
}

#[test]
fn independent_failure_tolerance() {
    let mut d = BBData::new();
    d.update(Err(FetchError::Network), Ok(vec![server("EU-1"), server("US-1")]), 50);
    assert!(d.current_leaderboard().is_none());
    assert_eq!(d.current_server_list().unwrap().1, 50);

    d.update(Ok(leaderboard_with(vec![player("Alice", 10)])), Err(FetchError::Parse), 60);
    let (lb, stamp) = d.current_leaderboard().unwrap();
    assert_eq!(stamp, 60);
    assert_eq!(lb.most_kills[0].name, "Alice");
    let (sl, sl_stamp) = d.current_server_list().unwrap();
    assert_eq!(sl_stamp, 50);
    assert_eq!(sl.len(), 2);
    assert_eq!(sl[0].name, "EU-1");
    assert_eq!(sl[1].name, "US-1");
}

#[test]
fn monotonic_stamps_across_cycles() {
    let mut d = BBData::new();
    let mut last_lb = 0u64;
    let mut last_sl = 0u64;
    let cycles: Vec<(bool, bool, u64)> = vec![
        (true, false, 10),
        (false, true, 20),
        (false, false, 30),
        (true, true, 30),
        (true, false, 45),
    ];
    for (lb_ok, sl_ok, now) in cycles {
        let lb_fetch = if lb_ok { Ok(leaderboard_with(vec![player("p", 1)])) } else { Err(FetchError::Network) };
        let sl_fetch = if sl_ok { Ok(vec![server("s")]) } else { Err(FetchError::Network) };
        d.update(lb_fetch, sl_fetch, now);
        assert!(d.leaderboard_stamp >= last_lb);
        assert!(d.server_list_stamp >= last_sl);
        if lb_ok {
            assert_eq!(d.leaderboard_stamp, now);
        } else {
            assert_eq!(d.leaderboard_stamp, last_lb);
        }
        if sl_ok {
            assert_eq!(d.server_list_stamp, now);
        } else {
            assert_eq!(d.server_list_stamp, last_sl);
        }
        last_lb = d.leaderboard_stamp;
        last_sl = d.server_list_stamp;
    }
}

#[test]
fn reader_copy_is_isolated_from_later_writes() {
    let store = SnapshotStore::new();
    store.refresh_cycle(Ok(leaderboard_with(vec![player("Alice", 10)])), Err(FetchError::Network), 100);

    let copy = store.read_snapshot();
    store.refresh_cycle(Ok(leaderboard_with(vec![player("Bob", 20)])), Err(FetchError::Network), 200);

    let (lb, stamp) = copy.current_leaderboard().unwrap();
    assert_eq!(stamp, 100);
    assert_eq!(lb.most_kills[0].name, "Alice");
    assert_eq!(lb.most_kills[0].value, 10);

    let (new_lb, new_stamp) = store.current_leaderboard().unwrap();
    assert_eq!(new_stamp, 200);
    assert_eq!(new_lb.most_kills[0].name, "Bob");
}

#[test]
fn empty_vs_absent_distinction() {
    let absent = BBData::new();
    let absent_kills = gateway::kills(&absent);
    assert_eq!(absent_kills.data.len(), 0);
    assert_eq!(absent_kills.stamp, 0);
    assert!(absent.current_leaderboard().is_none());

    let mut d = BBData::new();
    d.update(Ok(Leaderboard::new()), Err(FetchError::Network), 77);
    let present_kills = gateway::kills(&d);
    assert_eq!(present_kills.data.len(), 0);
    assert_eq!(present_kills.stamp, 77);
    let (lb, stamp) = d.current_leaderboard().unwrap();
    assert_eq!(stamp, 77);
    assert_eq!(lb.most_kills.len(), 0);
}

#[test]
fn first_cycle_serves_alice_and_one_server() {
    let store = SnapshotStore::new();
    store.refresh_cycle(
        Ok(leaderboard_with(vec![player("Alice", 10)])),
        Ok(vec![server("EU-1")]),
        1_706_010_047,
    );

    let (lb, stamp) = store.current_leaderboard().unwrap();
    assert!(stamp != 0);
    assert_eq!(lb.most_kills.len(), 1);
    assert_eq!(lb.most_kills[0].name, "Alice");
    assert_eq!(lb.most_kills[0].value, 10);

    let (sl, sl_stamp) = store.current_server_list().unwrap();
    assert!(sl_stamp != 0);
    assert_eq!(sl.len(), 1);
    assert_eq!(sl[0].name, "EU-1");
}

#[test]
fn failed_second_cycle_keeps_first_snapshot() {
    let store = SnapshotStore::new();
    store.refresh_cycle(
        Ok(leaderboard_with(vec![player("Alice", 10)])),
        Ok(vec![server("EU-1")]),
        1_000,
    );
    store.refresh_cycle(Err(FetchError::Network), Ok(vec![server("EU-2")]), 2_000);

    let (lb, stamp) = store.current_leaderboard().unwrap();
    assert_eq!(stamp, 1_000);
    assert_eq!(lb.most_kills[0].name, "Alice");
    assert_eq!(lb.most_kills[0].value, 10);
}

#[test]
fn gateway_projects_each_metric() {
    let mut d = BBData::new();
    d.update(Ok(full_leaderboard()), Err(FetchError::Network), 42);

    assert_eq!(gateway::clans(&d).data[0].name, "Clan");
    assert_eq!(gateway::clans(&d).data[0].tag, "CLN");
    assert_eq!(gateway::xp(&d).data[0].name, "x");
    assert_eq!(gateway::heal(&d).data[0].name, "h");
    assert_eq!(gateway::revives(&d).data[0].name, "r");
    assert_eq!(gateway::vehicles_destroyed(&d).data[0].name, "vd");
    assert_eq!(gateway::vehicle_repairs(&d).data[0].name, "vr");
    assert_eq!(gateway::roadkills(&d).data[0].name, "rk");
    assert_eq!(gateway::longest_kills(&d).data[0].name, "lk");
    assert_eq!(gateway::objectives_complete(&d).data[0].name, "oc");
    assert_eq!(gateway::kills(&d).data[0].name, "k");
    assert_eq!(gateway::kills(&d).data[0].value, 9);

    assert_eq!(gateway::kills(&d).stamp, 42);
    assert_eq!(gateway::kills(&d).status, 200);
    assert_eq!(gateway::clans(&d).stamp, 42);
}

#[test]
fn gateway_serverlist_projects_list_and_stamp() {
    let mut d = BBData::new();
    d.update(Err(FetchError::Network), Ok(vec![server("EU-1"), server("JP-1")]), 9);
    let r = gateway::serverlist(&d);
    assert_eq!(r.status, 200);
    assert_eq!(r.stamp, 9);
    assert_eq!(r.data.len(), 2);
    assert_eq!(r.data[1].name, "JP-1");

    let fresh = BBData::new();
    let empty = gateway::serverlist(&fresh);
    assert_eq!(empty.data.len(), 0);
    assert_eq!(empty.stamp, 0);
}

#[test]
fn leaderboard_accessors_return_each_ranking() {
    let lb = full_leaderboard();
    assert_eq!(lb.top_clans()[0].xp, 1_000_000);
    assert_eq!(lb.most_xp()[0].value, 1);
    assert_eq!(lb.most_heals()[0].value, 2);
    assert_eq!(lb.most_revives()[0].value, 3);
    assert_eq!(lb.most_vehicles_destroyed()[0].value, 4);
    assert_eq!(lb.most_vehicle_repairs()[0].value, 5);
    assert_eq!(lb.most_roadkills()[0].value, 6);
    assert_eq!(lb.longest_kills()[0].value, 7);
    assert_eq!(lb.most_objectives_complete()[0].value, 8);
    assert_eq!(lb.most_kills()[0].value, 9);
}

#[test]
fn snapshot_accessors_match_fields() {
    let mut d = BBData::new();
    assert!(d.leaderboard().is_none());
    assert!(d.server_list().is_none());
    d.update(Ok(full_leaderboard()), Ok(vec![server("EU-1")]), 5);
    assert_eq!(d.leaderboard().unwrap().most_kills()[0].name, "k");
    assert_eq!(d.server_list().unwrap()[0].name, "EU-1");
}

#[test]
fn cloned_snapshot_keeps_content() {
    let mut d = BBData::new();
    d.update(Ok(full_leaderboard()), Ok(vec![server("EU-1")]), 5);
    let copy = d.clone();
    assert_eq!(copy.leaderboard_stamp, 5);
    assert_eq!(copy.server_list_stamp, 5);
    assert_eq!(copy.leaderboard().unwrap().most_kills()[0].name, "k");
    assert_eq!(copy.server_list().unwrap()[0].name, "EU-1");
}

#[test]
fn api_error_maps_to_internal_server_error_response() {
    let e = ApiError::Unknown(Error { message: "The leaderboard was none".to_string(), code: 500 });
    let r = ErrorResponse::from(e);
    assert_eq!(r.status, 500);
    assert_eq!(r.error.message, "The leaderboard was none");
    assert_eq!(r.error.code, 500);
}

#[test]
fn response_constructors_keep_data_and_stamp() {
    let p = bbdata::responses::PlayerLeaderboardResponse::new(vec![player("Alice", 10)], 7);
    assert_eq!(p.status, 200);
    assert_eq!(p.data[0].name, "Alice");
    assert_eq!(p.stamp, 7);

    let c = bbdata::responses::ClanLeaderboardResponse::new(vec![clan("Clan", "CLN", 3)], 8);
    assert_eq!(c.status, 200);
    assert_eq!(c.data[0].tag, "CLN");
    assert_eq!(c.stamp, 8);

    let s = bbdata::responses::ServerListResponse::new(vec![server("EU-1")], 9);
    assert_eq!(s.status, 200);
    assert_eq!(s.data[0].name, "EU-1");
    assert_eq!(s.stamp, 9);
}
