//! The snapshot store: the snapshot behind a multi-reader/single-writer lock.
//!
//! Any number of readers may copy the snapshot out concurrently; the one
//! refresh task replaces fields under exclusive access. The lock's invariant
//! keeps every stored snapshot well-formed, so whatever interleaving occurs,
//! a reader only ever sees a complete snapshot in which each stamp is `0`
//! exactly while its field is absent.

use vstd::prelude::*;
use vstd::rwlock::RwLock;
use vstd::rwlock::RwLockPredicate;

use crate::data::FetchError;
use crate::data::Leaderboard;
use crate::data::ServerData;
use crate::snapshot::BBData;
use crate::snapshot::SnapshotView;

verus! {

/// The condition every snapshot stored in the lock satisfies.
pub struct StoredWf {}

impl RwLockPredicate<BBData> for StoredWf {
    open spec fn inv(self, v: BBData) -> bool {
        v.wf()
    }
}

/// The snapshot behind a lock that admits many concurrent readers or one
/// exclusive writer, never both.
pub struct SnapshotStore {
    lock: RwLock<BBData, StoredWf>,
}

impl SnapshotStore {
    #[verifier::type_invariant]
    spec fn store_inv(&self) -> bool {
        self.lock.pred() == (StoredWf {})
    }

    /// A store holding the initial snapshot: both fields absent, both
    /// stamps `0`.
    pub fn new() -> (s: Self) {
        let snapshot = BBData::new();
        SnapshotStore { lock: RwLock::new(snapshot, Ghost(StoredWf {})) }
    }

    /// A complete copy of the current snapshot, made under shared access.
    /// The writer cannot run while the copy is taken, so the copy is one
    /// consistent, well-formed snapshot, never a mix of two.
    pub fn read_snapshot(&self) -> (s: BBData)
        ensures
            s.wf(),
    {
        proof {
            use_type_invariant(self);
        }
        let handle = self.lock.acquire_read();
        let s = handle.borrow().clone();
        handle.release_read();
        s
    }

    /// The latest leaderboard with its stamp, copied under shared access:
    /// both parts of the answer come from one well-formed snapshot, so the
    /// data is never paired with another fetch's stamp, and the stamp is `0`
    /// exactly when the answer is absent.
    pub fn current_leaderboard(&self) -> (r: Option<(Leaderboard, u64)>)
        ensures
            exists|s: SnapshotView|
                s.wf() && (match r {
                    Some(p) => s.leaderboard_query() == Some((p.0@, p.1)),
                    None => s.leaderboard_query() is None,
                }),
    {
        proof {
            use_type_invariant(self);
        }
        let handle = self.lock.acquire_read();
        let r = handle.borrow().current_leaderboard();
        proof {
            let observed = handle.view()@;
            assert(observed.wf() && (match r {
                Some(p) => observed.leaderboard_query() == Some((p.0@, p.1)),
                None => observed.leaderboard_query() is None,
            }));
        }
        handle.release_read();
        r
    }

    /// The latest server list with its stamp, copied under shared access,
    /// with the same consistency guarantee as the leaderboard query.
    pub fn current_server_list(&self) -> (r: Option<(Vec<ServerData>, u64)>)
        ensures
            exists|s: SnapshotView|
                s.wf() && (match r {
                    Some(p) => s.server_list_query() == Some((p.0@, p.1)),
                    None => s.server_list_query() is None,
                }),
    {
        proof {
            use_type_invariant(self);
        }
        let handle = self.lock.acquire_read();
        let r = handle.borrow().current_server_list();
        proof {
            let observed = handle.view()@;
            assert(observed.wf() && (match r {
                Some(p) => observed.server_list_query() == Some((p.0@, p.1)),
                None => observed.server_list_query() is None,
            }));
        }
        handle.release_read();
        r
    }

    /// Runs one refresh cycle under exclusive access: takes the snapshot out,
    /// applies both fetch outcomes, and puts the updated snapshot back before
    /// any reader can look. No reader ever observes the snapshot between the
    /// two field replacements.
    pub fn refresh_cycle(
        &self,
        lb_fetch: Result<Leaderboard, FetchError>,
        sl_fetch: Result<Vec<ServerData>, FetchError>,
        now: u64,
    )
        requires
            now >= 1,
    {
        proof {
            use_type_invariant(self);
        }
        let (mut snapshot, write_handle) = self.lock.acquire_write();
        snapshot.update(lb_fetch, sl_fetch, now);
        write_handle.release_write(snapshot);
    }
}

} // verus!
