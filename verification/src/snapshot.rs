//! The snapshot: the single record the cache owns.
//!
//! A snapshot holds the latest known leaderboard, the latest known server
//! list, and a freshness stamp for each: the Unix second at which the field
//! was last successfully replaced, `0` while the field has never been
//! fetched. One refresh cycle replaces each field independently: a successful
//! fetch installs the new value and stamps it, a failed fetch leaves the
//! field and its stamp untouched.

use vstd::prelude::*;

use crate::data::FetchError;
use crate::data::Leaderboard;
use crate::data::LeaderboardView;
use crate::data::ServerData;
use crate::data::lemma_clone_preserves_view;

verus! {

/// The mathematical content of a snapshot.
pub ghost struct SnapshotView {
    /// The latest leaderboard, absent until the first successful fetch.
    pub leaderboard: Option<LeaderboardView>,
    /// The latest server list, absent until the first successful fetch.
    pub server_list: Option<Seq<ServerData>>,
    /// Unix second of the last successful leaderboard fetch, `0` while absent.
    pub leaderboard_stamp: u64,
    /// Unix second of the last successful server-list fetch, `0` while absent.
    pub server_list_stamp: u64,
}

impl SnapshotView {
    /// A field is absent exactly while its stamp is `0`.
    pub open spec fn wf(self) -> bool {
        &&& self.leaderboard is None <==> self.leaderboard_stamp == 0
        &&& self.server_list is None <==> self.server_list_stamp == 0
    }

    /// The snapshot a freshly started process holds: both fields absent,
    /// both stamps `0`.
    pub open spec fn initial() -> SnapshotView {
        SnapshotView { leaderboard: None, server_list: None, leaderboard_stamp: 0, server_list_stamp: 0 }
    }

    /// The leaderboard together with its stamp, or absence: what a reader
    /// is served.
    pub open spec fn leaderboard_query(self) -> Option<(LeaderboardView, u64)> {
        match self.leaderboard {
            Some(lb) => Some((lb, self.leaderboard_stamp)),
            None => None,
        }
    }

    /// The server list together with its stamp, or absence.
    pub open spec fn server_list_query(self) -> Option<(Seq<ServerData>, u64)> {
        match self.server_list {
            Some(sl) => Some((sl, self.server_list_stamp)),
            None => None,
        }
    }
}

/// What one refresh cycle leaves behind: each field that was fetched
/// successfully is replaced and stamped with the cycle's time, each field
/// whose fetch failed keeps its previous value and stamp.
pub open spec fn after_cycle(
    pre: SnapshotView,
    lb_fetch: Option<LeaderboardView>,
    sl_fetch: Option<Seq<ServerData>>,
    now: u64,
) -> SnapshotView {
    SnapshotView {
        leaderboard: if lb_fetch is Some {
            lb_fetch
        } else {
            pre.leaderboard
        },
        leaderboard_stamp: if lb_fetch is Some {
            now
        } else {
            pre.leaderboard_stamp
        },
        server_list: if sl_fetch is Some {
            sl_fetch
        } else {
            pre.server_list
        },
        server_list_stamp: if sl_fetch is Some {
            now
        } else {
            pre.server_list_stamp
        },
    }
}

/// What a leaderboard fetch brought: the fetched value on success, nothing
/// on failure.
pub open spec fn lb_fetch_view(r: Result<Leaderboard, FetchError>) -> Option<LeaderboardView> {
    match r {
        Ok(lb) => Some(lb@),
        Err(_) => None,
    }
}

/// What a server-list fetch brought.
pub open spec fn sl_fetch_view(r: Result<Vec<ServerData>, FetchError>) -> Option<Seq<ServerData>> {
    match r {
        Ok(sl) => Some(sl@),
        Err(_) => None,
    }
}

/// The cache's owned state: the two datasets and their freshness stamps.
#[derive(Debug)]
pub struct BBData {
    /// The latest leaderboard, absent until the first successful fetch.
    pub leaderboard: Option<Leaderboard>,
    /// The latest server list, absent until the first successful fetch.
    pub server_list: Option<Vec<ServerData>>,
    /// Unix second of the last successful leaderboard fetch, `0` while absent.
    pub leaderboard_stamp: u64,
    /// Unix second of the last successful server-list fetch, `0` while absent.
    pub server_list_stamp: u64,
}

impl View for BBData {
    type V = SnapshotView;

    open spec fn view(&self) -> SnapshotView {
        SnapshotView {
            leaderboard: match self.leaderboard {
                Some(lb) => Some(lb@),
                None => None,
            },
            server_list: match self.server_list {
                Some(ref sl) => Some(sl@),
                None => None,
            },
            leaderboard_stamp: self.leaderboard_stamp,
            server_list_stamp: self.server_list_stamp,
        }
    }
}

impl BBData {
    /// A field is absent exactly while its stamp is `0`.
    pub open spec fn wf(&self) -> bool {
        self@.wf()
    }

    /// The snapshot a process starts with: both fields absent, both
    /// stamps `0`.
    pub fn new() -> (r: Self)
        ensures
            r@ == SnapshotView::initial(),
            r.wf(),
    {
        BBData { leaderboard: None, server_list: None, leaderboard_stamp: 0, server_list_stamp: 0 }
    }

    /// The latest leaderboard, or absence if none was ever fetched.
    pub fn leaderboard(&self) -> (r: Option<&Leaderboard>)
        ensures
            match r {
                Some(lb) => self@.leaderboard == Some(lb@),
                None => self@.leaderboard is None,
            },
    {
        self.leaderboard.as_ref()
    }

    /// A copy of the latest server list, or absence if none was ever fetched.
    pub fn server_list(&self) -> (r: Option<Vec<ServerData>>)
        ensures
            match r {
                Some(sl) => self@.server_list == Some(sl@),
                None => self@.server_list is None,
            },
    {
        match &self.server_list {
            Some(sl) => {
                let copy = sl.clone();
                proof {
                    lemma_clone_preserves_view(sl@, copy@);
                }
                Some(copy)
            },
            None => None,
        }
    }

    /// A copy of the latest leaderboard together with its freshness stamp,
    /// or absence if none was ever fetched.
    pub fn current_leaderboard(&self) -> (r: Option<(Leaderboard, u64)>)
        ensures
            match r {
                Some(p) => self@.leaderboard_query() == Some((p.0@, p.1)),
                None => self@.leaderboard_query() is None,
            },
    {
        match &self.leaderboard {
            Some(lb) => Some((lb.clone(), self.leaderboard_stamp)),
            None => None,
        }
    }

    /// A copy of the latest server list together with its freshness stamp,
    /// or absence if none was ever fetched.
    pub fn current_server_list(&self) -> (r: Option<(Vec<ServerData>, u64)>)
        ensures
            match r {
                Some(p) => self@.server_list_query() == Some((p.0@, p.1)),
                None => self@.server_list_query() is None,
            },
    {
        match &self.server_list {
            Some(sl) => {
                let copy = sl.clone();
                proof {
                    lemma_clone_preserves_view(sl@, copy@);
                }
                Some((copy, self.server_list_stamp))
            },
            None => None,
        }
    }

    /// Applies one refresh cycle, fetched at Unix second `now`: each dataset
    /// that was fetched successfully replaces its field and stamps it with
    /// `now`, each failed fetch leaves its field and stamp untouched. An
    /// upstream failure is contained here; it never reaches a reader.
    pub fn update(
        &mut self,
        lb_fetch: Result<Leaderboard, FetchError>,
        sl_fetch: Result<Vec<ServerData>, FetchError>,
        now: u64,
    )
        requires
            now >= 1,
        ensures
            final(self)@ == after_cycle(old(self)@, lb_fetch_view(lb_fetch), sl_fetch_view(sl_fetch), now),
            old(self).wf() ==> final(self).wf(),
    {
        match lb_fetch {
            Ok(new_lb) => {
                self.leaderboard = Some(new_lb);
                self.leaderboard_stamp = now;
            },
            Err(_) => {},
        }

        match sl_fetch {
            Ok(new_sl) => {
                self.server_list = Some(new_sl);
                self.server_list_stamp = now;
            },
            Err(_) => {},
        }
    }
}

impl Clone for BBData {
    /// A cloned snapshot has the same content as the original.
    fn clone(&self) -> (r: Self)
        ensures
            r@ == self@,
    {
        BBData {
            leaderboard: match &self.leaderboard {
                Some(lb) => Some(lb.clone()),
                None => None,
            },
            server_list: match &self.server_list {
                Some(sl) => {
                    let copy = sl.clone();
                    proof {
                        lemma_clone_preserves_view(sl@, copy@);
                    }
                    Some(copy)
                },
                None => None,
            },
            leaderboard_stamp: self.leaderboard_stamp,
            server_list_stamp: self.server_list_stamp,
        }
    }
}

} // verus!

