//! Runtime state of the server that needs no permanent storage: the presence
//! registry (who is online, and in what mode) and the session registry (which
//! live connections each user owns). Both registries are owned by a single
//! execution context, so their operations are serialized.

use vstd::prelude::*;

use crate::error::AzumaError;
use crate::ids::{ConnId, UserId};
use crate::index_list::{contains_u128, find_pair, lemma_push_contains, lemma_push_no_duplicates, remove_pair};

verus! {

/// A user's availability, visible to others.
///
/// `Offline` is derived, never requested: it is the state of a user with no
/// live connection, and a client that wants to look offline must send
/// `AppearAsOffline` instead. Keeping the two apart internally while showing
/// both to other clients as the same wire string is a deliberate privacy
/// feature: an observer cannot distinguish really-offline from
/// appearing-offline.
#[derive(Clone, Copy, Debug, PartialEq, Eq, Structural)]
pub enum OnlineStatus {
    /// The default state of a user with a live connection.
    Online,
    /// The user is away from the keyboard.
    Afk,
    /// Do-not-disturb mode.
    Dnd,
    /// The user asked to be shown as offline.
    AppearAsOffline,
    /// Derived terminal state: no live connection. Never settable.
    Offline,
}

/// The in-memory registries: a presence entry per user that has set one, and
/// a session edge per live authenticated connection.
pub struct StateActor {
    /// Presence entries; absence means `Offline`.
    onlinestatus: Vec<(UserId, OnlineStatus)>,
    /// One `(user, connection)` edge per live authenticated connection.
    usersessions: Vec<(UserId, ConnId)>,
}

impl StateActor {
    /// A presence entry recording `st` for `u` exists.
    pub closed spec fn has_status_entry(self, u: UserId, st: OnlineStatus) -> bool {
        self.onlinestatus@.contains((u, st))
    }

    /// Some presence entry for `u` exists.
    pub open spec fn has_any_status(self, u: UserId) -> bool {
        exists|st: OnlineStatus| self.has_status_entry(u, st)
    }

    /// The presence of `u`: the stored entry, or `Offline` where none exists.
    pub open spec fn status_of(self, u: UserId) -> OnlineStatus {
        if self.has_any_status(u) {
            choose|st: OnlineStatus| self.has_status_entry(u, st)
        } else {
            OnlineStatus::Offline
        }
    }

    /// A session edge for connection `c` of user `u` exists.
    pub closed spec fn has_session_entry(self, u: UserId, c: ConnId) -> bool {
        self.usersessions@.contains((u, c))
    }

    /// `u` owns at least one live connection.
    pub open spec fn has_session(self, u: UserId) -> bool {
        exists|c: ConnId| self.has_session_entry(u, c)
    }

    /// Some user owns connection `c`.
    pub open spec fn connection_live(self, c: ConnId) -> bool {
        exists|u: UserId| self.has_session_entry(u, c)
    }

    /// Representation invariant: at most one presence entry per user, no
    /// stored entry says `Offline` (offline is represented by absence), and
    /// no session edge is recorded twice.
    pub closed spec fn inv(self) -> bool {
        &&& forall|i: int, j: int|
            0 <= i < self.onlinestatus@.len() && 0 <= j < self.onlinestatus@.len() && i != j
                ==> #[trigger] self.onlinestatus@[i].0 != #[trigger] self.onlinestatus@[j].0
        &&& forall|i: int|
            0 <= i < self.onlinestatus@.len() ==> (#[trigger] self.onlinestatus@[i]).1
                != OnlineStatus::Offline
        &&& self.usersessions@.no_duplicates()
    }

    /// A stored presence entry determines `status_of`.
    pub proof fn lemma_status_of_entry(self, u: UserId, st: OnlineStatus)
        requires
            self.inv(),
            self.has_status_entry(u, st),
        ensures
            self.status_of(u) == st,
    {
        let st2 = choose|st2: OnlineStatus| self.has_status_entry(u, st2);
        let i = choose|i: int|
            0 <= i < self.onlinestatus@.len() && self.onlinestatus@[i] == (u, st);
        let j = choose|j: int|
            0 <= j < self.onlinestatus@.len() && self.onlinestatus@[j] == (u, st2);
        assert(self.onlinestatus@[i].0 == self.onlinestatus@[j].0);
        assert(i == j);
    }

    /// Presence derivation: in a well-formed registry a user without a live
    /// connection that also has no stored entry is `Offline`. (The
    /// coordinator keeps the stronger property that a stored entry implies a
    /// live connection; see `AzumaState`.)
    pub proof fn lemma_status_of_absent(self, u: UserId)
        requires
            !self.has_any_status(u),
        ensures
            self.status_of(u) == OnlineStatus::Offline,
    {
    }

    /// `status_of(u)` agrees between two registries whose presence entries
    /// for `u` agree.
    proof fn lemma_status_of_agree(self, other: StateActor, u: UserId)
        requires
            self.inv(),
            other.inv(),
            forall|st: OnlineStatus| #[trigger] self.has_status_entry(u, st)
                <==> other.has_status_entry(u, st),
        ensures
            self.status_of(u) == other.status_of(u),
    {
        if self.has_any_status(u) {
            let st = choose|st: OnlineStatus| self.has_status_entry(u, st);
            assert(other.has_status_entry(u, st));
            self.lemma_status_of_entry(u, st);
            other.lemma_status_of_entry(u, st);
        } else {
            if other.has_any_status(u) {
                let st = choose|st: OnlineStatus| other.has_status_entry(u, st);
                assert(self.has_status_entry(u, st));
            }
        }
    }

    /// With the representation invariant, a user has a presence entry
    /// exactly when the presence reads as something other than `Offline`.
    pub proof fn lemma_has_any_iff_not_offline(self, u: UserId)
        requires
            self.inv(),
        ensures
            self.has_any_status(u) <==> self.status_of(u) != OnlineStatus::Offline,
    {
        if self.has_any_status(u) {
            let st = choose|st: OnlineStatus| self.has_status_entry(u, st);
            self.lemma_status_of_entry(u, st);
            let i = choose|i: int|
                0 <= i < self.onlinestatus@.len() && self.onlinestatus@[i] == (u, st);
            assert(self.onlinestatus@[i].1 != OnlineStatus::Offline);
        }
    }

    /// Every connection some user currently owns, each exactly once.
    pub fn all_connections(&self) -> (r: Vec<ConnId>)
        requires
            self.inv(),
        ensures
            r@.no_duplicates(),
            forall|c: ConnId| #[trigger] r@.contains(c) <==> exists|u: UserId|
                self.has_session_entry(u, c),
    {
        let v = &self.usersessions;
        let mut r: Vec<ConnId> = Vec::new();
        let mut i: usize = 0;
        while i < v.len()
            invariant
                v == self.usersessions,
                i <= v@.len(),
                r@.no_duplicates(),
                forall|c: ConnId| #[trigger] r@.contains(c) <==> exists|k: int|
                    0 <= k < i && (#[trigger] v@[k]).1 == c,
            decreases v@.len() - i,
        {
            let c = v[i].1;
            if !contains_u128(&r, c) {
                let ghost pre_r = r@;
                r.push(c);
                proof {
                    lemma_push_contains(pre_r, c);
                    lemma_push_no_duplicates(pre_r, c);
                    assert forall|c2: ConnId| #[trigger]
                        r@.contains(c2) <==> exists|k: int|
                            0 <= k < i + 1 && (#[trigger] v@[k]).1 == c2 by {
                        if r@.contains(c2) {
                            if c2 == c {
                                assert(v@[i as int].1 == c2);
                            } else {
                                let k = choose|k: int| 0 <= k < i && (#[trigger] v@[k]).1 == c2;
                                assert(0 <= k < i + 1 && v@[k].1 == c2);
                            }
                        }
                        if exists|k: int| 0 <= k < i + 1 && (#[trigger] v@[k]).1 == c2 {
                            let k = choose|k: int| 0 <= k < i + 1 && (#[trigger] v@[k]).1 == c2;
                            if k == i as int {
                                assert(c2 == c);
                            } else {
                                assert(pre_r.contains(c2));
                            }
                        }
                    }
                }
            } else {
                proof {
                    assert forall|c2: ConnId| #[trigger]
                        r@.contains(c2) <==> exists|k: int|
                            0 <= k < i + 1 && (#[trigger] v@[k]).1 == c2 by {
                        if r@.contains(c2) {
                            let k = choose|k: int| 0 <= k < i && (#[trigger] v@[k]).1 == c2;
                            assert(0 <= k < i + 1 && v@[k].1 == c2);
                        }
                        if exists|k: int| 0 <= k < i + 1 && (#[trigger] v@[k]).1 == c2 {
                            let k = choose|k: int| 0 <= k < i + 1 && (#[trigger] v@[k]).1 == c2;
                            if k == i as int {
                                assert(r@.contains(c));
                            } else {
                                assert(r@.contains(c2));
                            }
                        }
                    }
                }
            }
            i += 1;
        }
        proof {
            assert forall|c: ConnId| #[trigger]
                r@.contains(c) <==> exists|u: UserId| self.has_session_entry(u, c) by {
                if r@.contains(c) {
                    let k = choose|k: int| 0 <= k < v@.len() && (#[trigger] v@[k]).1 == c;
                    assert(v@.contains((v@[k].0, c)));
                    assert(self.has_session_entry(v@[k].0, c));
                }
                if exists|u: UserId| self.has_session_entry(u, c) {
                    let u = choose|u: UserId| self.has_session_entry(u, c);
                    let k = choose|k: int| 0 <= k < v@.len() && v@[k] == (u, c);
                    assert(0 <= k < v@.len() && v@[k].1 == c);
                }
            }
        }
        r
    }

    /// Empty registries: everyone is offline, nobody is connected.
    pub fn new() -> (r: StateActor)
        ensures
            r.inv(),
            forall|u: UserId| #[trigger] r.status_of(u) == OnlineStatus::Offline,
            forall|u: UserId, c: ConnId| !(#[trigger] r.has_session_entry(u, c)),
    {
        let r = StateActor { onlinestatus: Vec::new(), usersessions: Vec::new() };
        proof {
            assert forall|u: UserId| #[trigger] r.status_of(u) == OnlineStatus::Offline by {
                assert(!r.has_any_status(u));
            }
        }
        r
    }

    /// The presence of `u`: the stored entry, or `Offline` where none exists.
    /// Never fails.
    pub fn get_online_status(&self, user: UserId) -> (st: OnlineStatus)
        requires
            self.inv(),
        ensures
            st == self.status_of(user),
    {
        let v = &self.onlinestatus;
        let mut i: usize = 0;
        while i < v.len()
            invariant
                self.inv(),
                v == self.onlinestatus,
                i <= v@.len(),
                forall|k: int| 0 <= k < i ==> (#[trigger] v@[k]).0 != user,
            decreases v@.len() - i,
        {
            if v[i].0 == user {
                let st = v[i].1;
                proof {
                    assert(v@.contains((user, st)));
                    assert(self.has_status_entry(user, st));
                    self.lemma_status_of_entry(user, st);
                }
                return st;
            }
            i += 1;
        }
        proof {
            if self.has_any_status(user) {
                let st = choose|st: OnlineStatus| self.has_status_entry(user, st);
                let k = choose|k: int| 0 <= k < v@.len() && v@[k] == (user, st);
                assert(false);
            }
        }
        OnlineStatus::Offline
    }

    /// Store a presence mode for `user`. Fails with a bad-request error when
    /// `user` owns no live connection (presence cannot be set for a user who
    /// is not connected) and when the requested mode is `Offline` (offline is
    /// derived, never settable; `AppearAsOffline` is the settable form).
    pub fn set_online_status(&mut self, user: UserId, status: OnlineStatus) -> (r: Result<
        (),
        AzumaError,
    >)
        requires
            old(self).inv(),
        ensures
            final(self).inv(),
            forall|u: UserId, c: ConnId| #[trigger]
                final(self).has_session_entry(u, c) <==> old(self).has_session_entry(u, c),
            status == OnlineStatus::Offline ==> r == Err::<(), AzumaError>(AzumaError::BadRequest),
            !old(self).has_session(user) ==> r == Err::<(), AzumaError>(AzumaError::BadRequest),
            r is Err ==> forall|u: UserId| #[trigger]
                final(self).status_of(u) == old(self).status_of(u),
            status != OnlineStatus::Offline && old(self).has_session(user) ==> r is Ok,
            r is Ok ==> status != OnlineStatus::Offline && old(self).has_session(user) && forall|
                u: UserId,
            | #[trigger] final(self).status_of(u) == (if u == user {
                status
            } else {
                old(self).status_of(u)
            }),
    {
        if matches!(status, OnlineStatus::Offline) {
            return Err(AzumaError::BadRequest);
        }
        if !self.has_session_of(user) {
            return Err(AzumaError::BadRequest);
        }
        let ghost pre = *self;
        self.onlinestatus = set_status_entry(&self.onlinestatus, user, status);
        proof {
            assert forall|i: int|
                0 <= i < self.onlinestatus@.len() implies (#[trigger] self.onlinestatus@[i]).1
                != OnlineStatus::Offline by {
                assert(self.onlinestatus@.contains(self.onlinestatus@[i]));
                let e = self.onlinestatus@[i];
                if e != (user, status) {
                    let k = choose|k: int|
                        0 <= k < pre.onlinestatus@.len() && pre.onlinestatus@[k] == e;
                    assert(pre.onlinestatus@[k].1 != OnlineStatus::Offline);
                }
            }
            assert forall|u: UserId| #[trigger]
                self.status_of(u) == (if u == user {
                    status
                } else {
                    pre.status_of(u)
                }) by {
                if u == user {
                    assert(self.onlinestatus@.contains((user, status)));
                    assert(self.has_status_entry(u, status));
                    self.lemma_status_of_entry(u, status);
                } else {
                    assert forall|st: OnlineStatus| #[trigger]
                        self.has_status_entry(u, st) <==> pre.has_status_entry(u, st) by {
                        assert(self.onlinestatus@.contains((u, st)) <==> (pre.onlinestatus@.contains(
                            (u, st),
                        ) && u != user) || (u, st) == (user, status));
                    }
                    self.lemma_status_of_agree(pre, u);
                }
            }
        }
        Ok(())
    }

    /// Remove the presence entry of `user`, if any: the user reads as
    /// `Offline` afterwards. Used when a user's final connection goes away.
    pub fn remove_online_status(&mut self, user: UserId)
        requires
            old(self).inv(),
        ensures
            final(self).inv(),
            forall|u: UserId, c: ConnId| #[trigger]
                final(self).has_session_entry(u, c) <==> old(self).has_session_entry(u, c),
            forall|u: UserId| #[trigger]
                final(self).status_of(u) == (if u == user {
                    OnlineStatus::Offline
                } else {
                    old(self).status_of(u)
                }),
    {
        let ghost pre = *self;
        self.onlinestatus = remove_status_entries(&self.onlinestatus, user);
        proof {
            assert forall|i: int|
                0 <= i < self.onlinestatus@.len() implies (#[trigger] self.onlinestatus@[i]).1
                != OnlineStatus::Offline by {
                assert(self.onlinestatus@.contains(self.onlinestatus@[i]));
                let e = self.onlinestatus@[i];
                let k = choose|k: int|
                    0 <= k < pre.onlinestatus@.len() && pre.onlinestatus@[k] == e;
                assert(pre.onlinestatus@[k].1 != OnlineStatus::Offline);
            }
            assert forall|u: UserId| #[trigger]
                self.status_of(u) == (if u == user {
                    OnlineStatus::Offline
                } else {
                    pre.status_of(u)
                }) by {
                if u == user {
                    if self.has_any_status(u) {
                        let st = choose|st: OnlineStatus| self.has_status_entry(u, st);
                        assert(self.onlinestatus@.contains((u, st)));
                        assert(false);
                    }
                } else {
                    assert forall|st: OnlineStatus| #[trigger]
                        self.has_status_entry(u, st) <==> pre.has_status_entry(u, st) by {
                        assert(self.onlinestatus@.contains((u, st)) <==> pre.onlinestatus@.contains(
                            (u, st),
                        ) && u != user);
                    }
                    self.lemma_status_of_agree(pre, u);
                }
            }
        }
    }

    /// Whether `user` owns at least one live connection.
    pub fn has_session_of(&self, user: UserId) -> (r: bool)
        ensures
            r == self.has_session(user),
    {
        let v = &self.usersessions;
        let mut i: usize = 0;
        while i < v.len()
            invariant
                v == self.usersessions,
                i <= v@.len(),
                forall|k: int| 0 <= k < i ==> (#[trigger] v@[k]).0 != user,
            decreases v@.len() - i,
        {
            if v[i].0 == user {
                proof {
                    assert(v@.contains((user, v@[i as int].1)));
                    assert(self.has_session_entry(user, v@[i as int].1));
                }
                return true;
            }
            i += 1;
        }
        proof {
            if self.has_session(user) {
                let c = choose|c: ConnId| self.has_session_entry(user, c);
                let k = choose|k: int| 0 <= k < v@.len() && v@[k] == (user, c);
                assert(false);
            }
        }
        false
    }

    /// Record the session edge of connection `connection_id` authenticated as
    /// `subject`; idempotent.
    pub fn add_user_session(&mut self, subject: UserId, connection_id: ConnId)
        requires
            old(self).inv(),
        ensures
            final(self).inv(),
            forall|u: UserId| #[trigger] final(self).status_of(u) == old(self).status_of(u),
            forall|u: UserId, c: ConnId| #[trigger]
                final(self).has_session_entry(u, c) <==> old(self).has_session_entry(u, c) || (u
                    == subject && c == connection_id),
    {
        if find_pair(&self.usersessions, subject, connection_id).is_none() {
            let ghost pre = self.usersessions@;
            self.usersessions.push((subject, connection_id));
            proof {
                lemma_push_contains(pre, (subject, connection_id));
                lemma_push_no_duplicates(pre, (subject, connection_id));
                assert forall|u: UserId, c: ConnId| #[trigger]
                    self.has_session_entry(u, c) <==> old(self).has_session_entry(u, c) || (u
                        == subject && c == connection_id) by {
                    assert(self.usersessions@.contains((u, c)) <==> pre.contains((u, c)) || (u, c)
                        == (subject, connection_id));
                }
                assert forall|u: UserId| #[trigger]
                    self.status_of(u) == old(self).status_of(u) by {
                    self.lemma_status_of_agree(*old(self), u);
                }
            }
        } else {
            proof {
                assert(self.usersessions@.contains((subject, connection_id)));
                assert forall|u: UserId, c: ConnId| #[trigger]
                    self.has_session_entry(u, c) <==> old(self).has_session_entry(u, c) || (u
                        == subject && c == connection_id) by {
                    if u == subject && c == connection_id {
                        assert(self.usersessions@.contains((u, c)));
                    }
                }
            }
        }
    }

    /// Remove the session edge of connection `connection_id` of `subject`; a
    /// no-op where the edge is absent. Returns whether this left `subject`
    /// with no live connection, so that presence cleanup can be triggered
    /// exactly once.
    pub fn remove_user_session(&mut self, subject: UserId, connection_id: ConnId) -> (last: bool)
        requires
            old(self).inv(),
        ensures
            final(self).inv(),
            forall|u: UserId| #[trigger] final(self).status_of(u) == old(self).status_of(u),
            forall|u: UserId, c: ConnId| #[trigger]
                final(self).has_session_entry(u, c) <==> old(self).has_session_entry(u, c) && !(u
                    == subject && c == connection_id),
            last == !final(self).has_session(subject),
    {
        remove_pair(&mut self.usersessions, subject, connection_id);
        proof {
            assert forall|u: UserId, c: ConnId| #[trigger]
                self.has_session_entry(u, c) <==> old(self).has_session_entry(u, c) && !(u
                    == subject && c == connection_id) by {
                assert(self.usersessions@.contains((u, c)) <==> old(self).usersessions@.contains(
                    (u, c),
                ) && (u, c) != (subject, connection_id));
            }
            assert forall|u: UserId| #[trigger]
                self.status_of(u) == old(self).status_of(u) by {
                self.lemma_status_of_agree(*old(self), u);
            }
        }
        !self.has_session_of(subject)
    }
}

/// Replace the presence entry for `user` by `(user, status)`, inserting it
/// where none exists.
fn set_status_entry(v: &Vec<(UserId, OnlineStatus)>, user: UserId, status: OnlineStatus) -> (r: Vec<
    (UserId, OnlineStatus),
>)
    requires
        forall|i: int, j: int|
            0 <= i < v@.len() && 0 <= j < v@.len() && i != j ==> #[trigger] v@[i].0
                != #[trigger] v@[j].0,
    ensures
        forall|e: (UserId, OnlineStatus)| #[trigger]
            r@.contains(e) <==> (v@.contains(e) && e.0 != user) || e == (user, status),
        forall|i: int, j: int|
            0 <= i < r@.len() && 0 <= j < r@.len() && i != j ==> #[trigger] r@[i].0
                != #[trigger] r@[j].0,
{
    let mut r = remove_status_entries(v, user);
    let ghost mid = r@;
    proof {
        lemma_push_contains(mid, (user, status));
        assert forall|i: int, j: int|
            0 <= i < mid.push((user, status)).len() && 0 <= j < mid.push((user, status)).len() && i
                != j implies #[trigger] mid.push((user, status))[i].0 != #[trigger] mid.push(
            (user, status),
        )[j].0 by {
            if i < mid.len() && j < mid.len() {
            } else if i < mid.len() {
                assert(mid.contains(mid[i]));
            } else if j < mid.len() {
                assert(mid.contains(mid[j]));
            }
        }
    }
    r.push((user, status));
    r
}

/// The presence entries that do not belong to `user`.
fn remove_status_entries(v: &Vec<(UserId, OnlineStatus)>, user: UserId) -> (r: Vec<
    (UserId, OnlineStatus),
>)
    requires
        forall|i: int, j: int|
            0 <= i < v@.len() && 0 <= j < v@.len() && i != j ==> #[trigger] v@[i].0
                != #[trigger] v@[j].0,
    ensures
        forall|e: (UserId, OnlineStatus)| #[trigger] r@.contains(e) <==> v@.contains(e) && e.0
            != user,
        forall|i: int, j: int|
            0 <= i < r@.len() && 0 <= j < r@.len() && i != j ==> #[trigger] r@[i].0
                != #[trigger] r@[j].0,
{
    let mut r: Vec<(UserId, OnlineStatus)> = Vec::new();
    let mut i: usize = 0;
    while i < v.len()
        invariant
            i <= v@.len(),
            forall|i2: int, j2: int|
                0 <= i2 < v@.len() && 0 <= j2 < v@.len() && i2 != j2 ==> #[trigger] v@[i2].0
                    != #[trigger] v@[j2].0,
            forall|e: (UserId, OnlineStatus)| #[trigger]
                r@.contains(e) <==> v@.subrange(0, i as int).contains(e) && e.0 != user,
            forall|i2: int, j2: int|
                0 <= i2 < r@.len() && 0 <= j2 < r@.len() && i2 != j2 ==> #[trigger] r@[i2].0
                    != #[trigger] r@[j2].0,
        decreases v@.len() - i,
    {
        let ghost prefix = v@.subrange(0, i as int);
        proof {
            assert(v@.subrange(0, i as int + 1) =~= prefix.push(v@[i as int]));
            lemma_push_contains(prefix, v@[i as int]);
        }
        if v[i].0 != user {
            let e = v[i];
            proof {
                assert(v@[i as int] == e);
                let ghost pre_r = r@;
                lemma_push_contains(pre_r, e);
                assert forall|i2: int, j2: int|
                    0 <= i2 < pre_r.push(e).len() && 0 <= j2 < pre_r.push(e).len() && i2
                        != j2 implies #[trigger] pre_r.push(e)[i2].0 != #[trigger] pre_r.push(
                    e,
                )[j2].0 by {
                    if i2 < pre_r.len() && j2 < pre_r.len() {
                    } else if i2 < pre_r.len() {
                        if pre_r[i2].0 == e.0 {
                            assert(pre_r.contains(pre_r[i2]));
                            let k = choose|k: int|
                                0 <= k < prefix.len() && prefix[k] == pre_r[i2];
                            assert(v@[k].0 == v@[i as int].0);
                            assert(false);
                        }
                    } else if j2 < pre_r.len() {
                        if pre_r[j2].0 == e.0 {
                            assert(pre_r.contains(pre_r[j2]));
                            let k = choose|k: int|
                                0 <= k < prefix.len() && prefix[k] == pre_r[j2];
                            assert(v@[k].0 == v@[i as int].0);
                            assert(false);
                        }
                    }
                }
            }
            r.push(e);
        }
        i += 1;
    }
    proof {
        assert(v@.subrange(0, v@.len() as int) =~= v@);
    }
    r
}

} // verus!
