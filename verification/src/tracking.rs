//! The subscriber cache: an in-memory mirror of the subscriber records and of
//! the manifest that the persistent store holds.
//!
//! The cache never talks to the store itself. Whoever owns the connection
//! reads the store, decodes what it got, and hands the values in; every
//! operation here says what the cache holds afterwards and what has to be
//! written back.

use std::collections::HashMap;
use vstd::prelude::*;
use vstd::std_specs::convert::FromSpecImpl;
use crate::center::CenterId;

verus! {

broadcast use vstd::std_specs::hash::group_hash_axioms;

pub type UserId = u64;

/// One subscriber's record: the centers tracked, in the order in which they
/// were added, and the chat that notifications go to.
#[derive(Debug, Clone, PartialEq, Eq)]
pub struct UserData {
    pub subscriptions: Vec<CenterId>,
    pub chat_id: i64,
}

/// The mathematical value of a `UserData`.
pub struct Record {
    pub subscriptions: Seq<CenterId>,
    pub chat_id: i64,
}

impl View for UserData {
    type V = Record;

    open spec fn view(&self) -> Record {
        Record { subscriptions: self.subscriptions@, chat_id: self.chat_id }
    }
}

impl From<(Vec<CenterId>, i64)> for UserData {
    /// A record with the given subscriptions and chat.
    fn from(parts: (Vec<CenterId>, i64)) -> (r: UserData) {
        UserData { subscriptions: parts.0, chat_id: parts.1 }
    }
}

impl FromSpecImpl<(Vec<CenterId>, i64)> for UserData {
    open spec fn obeys_from_spec() -> bool {
        true
    }

    open spec fn from_spec(parts: (Vec<CenterId>, i64)) -> UserData {
        UserData { subscriptions: parts.0, chat_id: parts.1 }
    }
}

impl Record {
    /// No center is listed twice.
    pub open spec fn wf(self) -> bool {
        self.subscriptions.no_duplicates()
    }
}

impl UserData {
    /// No center is listed twice.
    pub open spec fn wf(&self) -> bool {
        self@.wf()
    }

    /// A copy with the same subscriptions, in the same order, and the same chat.
    pub fn duplicate(&self) -> (r: UserData)
        ensures
            r@ == self@,
    {
        let mut subscriptions: Vec<CenterId> = Vec::new();
        let mut i: usize = 0;
        while i < self.subscriptions.len()
            invariant
                i <= self.subscriptions.len(),
                subscriptions@ == self.subscriptions@.take(i as int),
            decreases self.subscriptions.len() - i,
        {
            subscriptions.push(self.subscriptions[i]);
            proof {
                let s = self.subscriptions@;
                assert(s.take(i + 1) =~= s.take(i as int).push(s[i as int]));
            }
            i = i + 1;
        }
        assert(self.subscriptions@.take(i as int) =~= self.subscriptions@);
        UserData { subscriptions, chat_id: self.chat_id }
    }

    /// Where `center` first stands among the subscriptions, if it does.
    pub fn position(&self, center: CenterId) -> (r: Option<usize>)
        ensures
            match r {
                Some(i) => {
                    &&& i < self@.subscriptions.len()
                    &&& self@.subscriptions[i as int] == center
                    &&& self@.subscriptions.index_of_first(center) == Some(i as int)
                },
                None => !self@.subscriptions.contains(center),
            },
    {
        let mut i: usize = 0;
        while i < self.subscriptions.len()
            invariant
                i <= self.subscriptions.len(),
                forall|j: int| 0 <= j < i ==> self.subscriptions@[j] != center,
            decreases self.subscriptions.len() - i,
        {
            if self.subscriptions[i] == center {
                proof {
                    self.subscriptions@.index_of_first_ensures(center);
                }
                return Some(i);
            }
            i = i + 1;
        }
        None
    }

    /// Whether `center` is among the subscriptions.
    pub fn tracks(&self, center: CenterId) -> (r: bool)
        ensures
            r == self@.subscriptions.contains(center),
    {
        self.position(center).is_some()
    }
}

/// The manifest as the store holds it: every subscriber id ever seen, in the
/// order in which they were added.
#[derive(Debug, Clone, PartialEq, Eq)]
pub struct AllUsers {
    pub list: Vec<UserId>,
}

impl View for AllUsers {
    type V = Seq<UserId>;

    open spec fn view(&self) -> Seq<UserId> {
        self.list@
    }
}

impl From<Vec<UserId>> for AllUsers {
    /// A manifest that lists `list`.
    fn from(list: Vec<UserId>) -> (r: AllUsers) {
        AllUsers { list }
    }
}

impl FromSpecImpl<Vec<UserId>> for AllUsers {
    open spec fn obeys_from_spec() -> bool {
        true
    }

    open spec fn from_spec(list: Vec<UserId>) -> AllUsers {
        AllUsers { list }
    }
}

impl AllUsers {
    /// Whether `user` is listed.
    pub fn lists(&self, user: UserId) -> (r: bool)
        ensures
            r == self@.contains(user),
    {
        let mut i: usize = 0;
        while i < self.list.len()
            invariant
                i <= self.list.len(),
                forall|j: int| 0 <= j < i ==> self.list@[j] != user,
            decreases self.list.len() - i,
        {
            if self.list[i] == user {
                return true;
            }
            i = i + 1;
        }
        false
    }

    /// A copy that lists the same ids in the same order.
    pub fn duplicate(&self) -> (r: AllUsers)
        ensures
            r@ == self@,
    {
        let mut list: Vec<UserId> = Vec::new();
        let mut i: usize = 0;
        while i < self.list.len()
            invariant
                i <= self.list.len(),
                list@ == self.list@.take(i as int),
            decreases self.list.len() - i,
        {
            list.push(self.list[i]);
            proof {
                let s = self.list@;
                assert(s.take(i + 1) =~= s.take(i as int).push(s[i as int]));
            }
            i = i + 1;
        }
        assert(self.list@.take(i as int) =~= self.list@);
        AllUsers { list }
    }
}

/// Why a track or untrack request was turned down.
#[derive(Debug, Clone, Copy, PartialEq, Eq, Structural)]
pub enum TrackError {
    /// The subscriber's record already lists the center.
    AlreadyTracking,
    /// The subscriber has a record, and it does not list the center.
    NotTrackingCenter,
    /// The subscriber has no record at all.
    NotTrackingAny,
}

impl TrackError {
    /// The sentence shown to the subscriber.
    pub open spec fn text(self) -> Seq<char> {
        match self {
            TrackError::AlreadyTracking => "You are already tracking this center."@,
            TrackError::NotTrackingCenter => "You are not tracking this center!"@,
            TrackError::NotTrackingAny => "You are not tracking any centers!"@,
        }
    }

    /// The sentence shown to the subscriber.
    pub fn message(&self) -> (r: String)
        ensures
            r@ == self.text(),
    {
        match self {
            TrackError::AlreadyTracking => String::from_str(
                "You are already tracking this center.",
            ),
            TrackError::NotTrackingCenter => String::from_str("You are not tracking this center!"),
            TrackError::NotTrackingAny => String::from_str("You are not tracking any centers!"),
        }
    }
}

/// What a read of the manifest gave: its ids, or `None` where the key was
/// absent or its value could not be decoded.
pub open spec fn manifest_view(fetched: Option<AllUsers>) -> Option<Seq<UserId>> {
    match fetched {
        Some(m) => Some(m@),
        None => None,
    }
}

/// What a read of one subscriber's key gave: the record, or `None` where the
/// key was absent or its value could not be decoded.
pub open spec fn record_view(fetched: Option<UserData>) -> Option<Record> {
    match fetched {
        Some(d) => Some(d@),
        None => None,
    }
}

/// The mathematical value of a request's result: the record to write, or the
/// reason for turning the request down.
pub open spec fn outcome_view(result: Result<UserData, TrackError>) -> Result<Record, TrackError> {
    match result {
        Ok(d) => Ok(d@),
        Err(e) => Err(e),
    }
}

/// The mathematical value of a whole request's result: the record and the
/// manifest to write, or the reason for turning the request down.
pub open spec fn writes_view(result: Result<(UserData, Option<AllUsers>), TrackError>) -> Result<
    (Record, Option<Seq<UserId>>),
    TrackError,
> {
    match result {
        Ok((record, manifest)) => Ok((record@, manifest_view(manifest))),
        Err(e) => Err(e),
    }
}

/// How often `center` occurs in `subscriptions`.
pub open spec fn occurrences(subscriptions: Seq<CenterId>, center: CenterId) -> nat
    decreases subscriptions.len(),
{
    if subscriptions.len() == 0 {
        0
    } else {
        occurrences(subscriptions.drop_last(), center) + if subscriptions.last() == center {
            1nat
        } else {
            0nat
        }
    }
}

/// The mathematical value of the cache.
pub struct CacheView {
    /// The cached record of each subscriber that has one.
    pub records: Map<UserId, Record>,
    /// The in-memory manifest.
    pub manifest: Seq<UserId>,
}

impl CacheView {
    /// No record and an empty manifest.
    pub open spec fn empty() -> CacheView {
        CacheView { records: Map::empty(), manifest: Seq::empty() }
    }

    /// The cache after a read of the manifest: a manifest that was read
    /// replaces the one in memory, a failed read leaves it.
    pub open spec fn with_manifest(self, fetched: Option<Seq<UserId>>) -> CacheView {
        match fetched {
            Some(m) => CacheView { manifest: m, ..self },
            None => self,
        }
    }

    /// The cache after a read of `user`'s record: a record that was read
    /// replaces the cached one, a failed read leaves the entry as it was.
    pub open spec fn with_record(self, user: UserId, fetched: Option<Record>) -> CacheView {
        match fetched {
            Some(r) => CacheView { records: self.records.insert(user, r), ..self },
            None => self,
        }
    }

    /// The cache after a resync for `user`: first the manifest, then the
    /// record.
    pub open spec fn resynced(
        self,
        user: UserId,
        manifest: Option<Seq<UserId>>,
        record: Option<Record>,
    ) -> CacheView {
        self.with_manifest(manifest).with_record(user, record)
    }

    /// The cached record of `user`, if there is one.
    pub open spec fn record_of(self, user: UserId) -> Option<Record> {
        if self.records.contains_key(user) {
            Some(self.records[user])
        } else {
            None
        }
    }

    /// Whether `user` has a cached record that lists `center`.
    pub open spec fn tracks(self, user: UserId, center: CenterId) -> bool {
        self.records.contains_key(user) && self.records[user].subscriptions.contains(center)
    }

    /// The record that a successful track request leaves: the cached one with
    /// `center` appended, or a new one for `chat` with `center` alone.
    pub open spec fn tracked_record(self, chat: i64, user: UserId, center: CenterId) -> Record {
        if self.records.contains_key(user) {
            Record {
                subscriptions: self.records[user].subscriptions.push(center),
                chat_id: self.records[user].chat_id,
            }
        } else {
            Record { subscriptions: seq![center], chat_id: chat }
        }
    }

    /// A track request against this cache: the cache afterwards, and the
    /// record to write or the reason for turning the request down.
    pub open spec fn track(self, chat: i64, user: UserId, center: CenterId) -> (
        CacheView,
        Result<Record, TrackError>,
    ) {
        if self.tracks(user, center) {
            (self, Err(TrackError::AlreadyTracking))
        } else {
            let written = self.tracked_record(chat, user, center);
            (self.with_record(user, Some(written)), Ok(written))
        }
    }

    /// An untrack request against this cache: the cache afterwards, and the
    /// record to write or the reason for turning the request down. The first
    /// occurrence of `center` leaves the list.
    pub open spec fn untrack(self, user: UserId, center: CenterId) -> (
        CacheView,
        Result<Record, TrackError>,
    ) {
        if !self.records.contains_key(user) {
            (self, Err(TrackError::NotTrackingAny))
        } else if !self.records[user].subscriptions.contains(center) {
            (self, Err(TrackError::NotTrackingCenter))
        } else {
            let written = Record {
                subscriptions: self.records[user].subscriptions.remove_value(center),
                chat_id: self.records[user].chat_id,
            };
            (self.with_record(user, Some(written)), Ok(written))
        }
    }

    /// Making sure that `user` is in the manifest, given what a read of the
    /// stored manifest gave: the cache afterwards, and the manifest to write,
    /// if one has to be written.
    ///
    /// A stored manifest that lists `user` is left alone. One that does not
    /// gets `user` appended. Where the read failed the manifest is made anew
    /// with `user` alone, which drops every other id.
    pub open spec fn ensure_listed(self, user: UserId, stored: Option<Seq<UserId>>) -> (
        CacheView,
        Option<Seq<UserId>>,
    ) {
        match stored {
            Some(m) => if m.contains(user) {
                (self, None)
            } else {
                (CacheView { manifest: m.push(user), ..self }, Some(m.push(user)))
            },
            None => (CacheView { manifest: seq![user], ..self }, Some(seq![user])),
        }
    }

    /// What a request that succeeded leaves to do about the manifest, given
    /// what a read of the stored manifest gave after the request: the cache
    /// afterwards, and both values to write, the record and, where one has to
    /// be written, the manifest. A request that was turned down leaves the
    /// cache as it is and writes nothing.
    pub open spec fn and_listed(
        outcome: (CacheView, Result<Record, TrackError>),
        user: UserId,
        stored: Option<Seq<UserId>>,
    ) -> (CacheView, Result<(Record, Option<Seq<UserId>>), TrackError>) {
        match outcome.1 {
            Ok(written) => (
                outcome.0.ensure_listed(user, stored).0,
                Ok((written, outcome.0.ensure_listed(user, stored).1)),
            ),
            Err(e) => (outcome.0, Err(e)),
        }
    }

    /// A whole track request against this cache: `track`, then
    /// `ensure_listed` where it succeeded.
    pub open spec fn track_and_list(
        self,
        chat: i64,
        user: UserId,
        center: CenterId,
        stored: Option<Seq<UserId>>,
    ) -> (CacheView, Result<(Record, Option<Seq<UserId>>), TrackError>) {
        Self::and_listed(self.track(chat, user, center), user, stored)
    }

    /// A whole untrack request against this cache: `untrack`, then
    /// `ensure_listed` where it succeeded.
    pub open spec fn untrack_and_list(
        self,
        user: UserId,
        center: CenterId,
        stored: Option<Seq<UserId>>,
    ) -> (CacheView, Result<(Record, Option<Seq<UserId>>), TrackError>) {
        Self::and_listed(self.untrack(user, center), user, stored)
    }

    /// How often `user` is entered under `center`: as often as its cached
    /// record lists the center, and not at all without a record.
    pub open spec fn entries(self, user: UserId, center: CenterId) -> nat {
        if self.records.contains_key(user) {
            occurrences(self.records[user].subscriptions, center)
        } else {
            0
        }
    }

    /// The subscribers entered under `center` by the first `n` ids of the
    /// manifest: in manifest order, each id `entries` times.
    pub open spec fn bucket_upto(self, n: nat, center: CenterId) -> Seq<UserId>
        decreases n,
    {
        if n == 0 || n > self.manifest.len() {
            Seq::empty()
        } else {
            let user = self.manifest[n - 1];
            self.bucket_upto((n - 1) as nat, center) + Seq::new(
                self.entries(user, center),
                |i: int| user,
            )
        }
    }

    /// The subscribers of `center` in the reverse index.
    pub open spec fn bucket(self, center: CenterId) -> Seq<UserId> {
        self.bucket_upto(self.manifest.len(), center)
    }
}

/// What stands under `center` while the id at place `n` of the manifest is
/// being entered: what the first `n` ids enter, then `user` once for each
/// occurrence of the center in `done`.
spec fn partial_bucket(
    cache: CacheView,
    n: nat,
    user: UserId,
    done: Seq<CenterId>,
    center: CenterId,
) -> Seq<UserId> {
    cache.bucket_upto(n, center) + Seq::new(occurrences(done, center), |k: int| user)
}

/// Whether `index` holds what the first `n` ids of the manifest enter: each
/// center with an entry is a key, with its entries in order, and no other
/// center is.
spec fn indexed(index: Map<CenterId, Vec<UserId>>, cache: CacheView, n: nat) -> bool {
    forall|c: CenterId|
        {
            &&& #[trigger] index.contains_key(c) <==> cache.bucket_upto(n, c).len() > 0
            &&& index.contains_key(c) ==> index[c]@ == cache.bucket_upto(n, c)
        }
}

/// Whether `index` holds what stands under each center while `user`, the id
/// at place `n`, is being entered and the centers `done` of its record are
/// through.
spec fn entering(
    index: Map<CenterId, Vec<UserId>>,
    cache: CacheView,
    n: nat,
    user: UserId,
    done: Seq<CenterId>,
) -> bool {
    forall|c: CenterId|
        {
            &&& #[trigger] index.contains_key(c) <==> partial_bucket(cache, n, user, done, c).len()
                > 0
            &&& index.contains_key(c) ==> index[c]@ == partial_bucket(cache, n, user, done, c)
        }
}

proof fn lemma_entering_starts(
    index: Map<CenterId, Vec<UserId>>,
    cache: CacheView,
    n: nat,
    user: UserId,
)
    requires
        indexed(index, cache, n),
    ensures
        entering(index, cache, n, user, Seq::empty()),
{
    assert forall|c: CenterId|
        partial_bucket(cache, n, user, Seq::empty(), c) == cache.bucket_upto(n, c) by {
        assert(partial_bucket(cache, n, user, Seq::empty(), c) =~= cache.bucket_upto(n, c));
    }
}

proof fn lemma_entering_steps(
    before: Map<CenterId, Vec<UserId>>,
    after: Map<CenterId, Vec<UserId>>,
    cache: CacheView,
    n: nat,
    user: UserId,
    done: Seq<CenterId>,
    center: CenterId,
)
    requires
        entering(before, cache, n, user, done),
        after.dom() == before.dom().insert(center),
        forall|c: CenterId| c != center && before.contains_key(c) ==> after[c] == before[c],
        after[center]@ == if before.contains_key(center) {
            before[center]@.push(user)
        } else {
            seq![user]
        },
    ensures
        entering(after, cache, n, user, done.push(center)),
{
    assert(done.push(center).drop_last() =~= done);
    assert forall|c: CenterId|
        {
            &&& #[trigger] after.contains_key(c) <==> partial_bucket(
                cache,
                n,
                user,
                done.push(center),
                c,
            ).len() > 0
            &&& after.contains_key(c) ==> after[c]@ == partial_bucket(
                cache,
                n,
                user,
                done.push(center),
                c,
            )
        } by {
        let earlier = partial_bucket(cache, n, user, done, c);
        let now = partial_bucket(cache, n, user, done.push(center), c);
        assert(before.contains_key(c) <==> earlier.len() > 0);
        if c == center {
            assert(now =~= earlier.push(user));
            if !before.contains_key(c) {
                assert(earlier =~= Seq::<UserId>::empty());
            }
        } else {
            assert(now =~= earlier);
        }
    }
}

proof fn lemma_entering_ends(
    index: Map<CenterId, Vec<UserId>>,
    cache: CacheView,
    n: nat,
    subscriptions: Seq<CenterId>,
)
    requires
        n < cache.manifest.len(),
        entering(index, cache, n, cache.manifest[n as int], subscriptions),
        subscriptions == match cache.record_of(cache.manifest[n as int]) {
            Some(record) => record.subscriptions,
            None => Seq::empty(),
        },
    ensures
        indexed(index, cache, n + 1),
{
    let user = cache.manifest[n as int];
    assert forall|c: CenterId|
        {
            &&& #[trigger] index.contains_key(c) <==> cache.bucket_upto(n + 1, c).len() > 0
            &&& index.contains_key(c) ==> index[c]@ == cache.bucket_upto(n + 1, c)
        } by {
        assert(cache.entries(user, c) == occurrences(subscriptions, c));
        assert(cache.bucket_upto(n + 1, c) =~= partial_bucket(cache, n, user, subscriptions, c));
    }
}

/// The subscriber cache.
pub struct TrackingManager {
    user_data: HashMap<UserId, UserData>,
    all_users: AllUsers,
}

impl View for TrackingManager {
    type V = CacheView;

    closed spec fn view(&self) -> CacheView {
        CacheView {
            records: Map::new(
                |u: UserId| self.user_data@.contains_key(u),
                |u: UserId| self.user_data@[u]@,
            ),
            manifest: self.all_users@,
        }
    }
}

impl TrackingManager {
    /// A cache that holds no record yet. Its manifest is what the first read
    /// of the stored manifest gave, and empty where that read failed.
    pub fn new(manifest: Option<AllUsers>) -> (cache: Self)
        ensures
            cache@ == CacheView::empty().with_manifest(manifest_view(manifest)),
    {
        let mut cache = TrackingManager {
            user_data: HashMap::new(),
            all_users: AllUsers { list: Vec::new() },
        };
        assert(cache@.records =~= Map::<UserId, Record>::empty());
        cache.sync_all_users(manifest);
        cache
    }

    /// Takes in what a read of the stored manifest gave.
    pub fn sync_all_users(&mut self, fetched: Option<AllUsers>)
        ensures
            final(self)@ == old(self)@.with_manifest(manifest_view(fetched)),
    {
        if let Some(all_users) = fetched {
            self.all_users = all_users;
        }
    }

    /// Takes in what a read of `user`'s record gave.
    pub fn cache_user_data(&mut self, user: UserId, fetched: Option<UserData>)
        ensures
            final(self)@ == old(self)@.with_record(user, record_view(fetched)),
    {
        if let Some(user_data) = fetched {
            let ghost record = user_data@;
            self.user_data.insert(user, user_data);
            assert(self@.records =~= old(self)@.records.insert(user, record));
        }
    }

    /// Resyncs for `user`: takes in what the reads of the stored manifest and
    /// of `user`'s record gave.
    pub fn sync_with_db(
        &mut self,
        user: UserId,
        manifest: Option<AllUsers>,
        record: Option<UserData>,
    )
        ensures
            final(self)@ == old(self)@.resynced(
                user,
                manifest_view(manifest),
                record_view(record),
            ),
    {
        self.sync_all_users(manifest);
        self.cache_user_data(user, record);
    }

    /// Starts tracking `center` for `user`, after a resync with what was read
    /// from the store.
    ///
    /// Returns the record to write to the store, or `AlreadyTracking` where
    /// the resynced record lists `center`; the cache is then as the resync
    /// left it.
    pub fn track_center(
        &mut self,
        channel_id: i64,
        user: UserId,
        center: CenterId,
        manifest: Option<AllUsers>,
        record: Option<UserData>,
    ) -> (result: Result<UserData, TrackError>)
        ensures
            ({
                let synced = old(self)@.resynced(
                    user,
                    manifest_view(manifest),
                    record_view(record),
                );
                &&& final(self)@ == synced.track(channel_id, user, center).0
                &&& outcome_view(result) == synced.track(channel_id, user, center).1
            }),
    {
        self.sync_with_db(user, manifest, record);
        let ghost synced = self@;
        let updated = match self.user_data.get(&user) {
            Some(current) => {
                if current.tracks(center) {
                    return Err(TrackError::AlreadyTracking);
                }
                let mut updated = current.duplicate();
                updated.subscriptions.push(center);
                updated
            },
            None => {
                let mut subscriptions: Vec<CenterId> = Vec::new();
                subscriptions.push(center);
                assert(subscriptions@ =~= seq![center]);
                UserData { subscriptions, chat_id: channel_id }
            },
        };
        let written = updated.duplicate();
        self.user_data.insert(user, updated);
        assert(self@.records =~= synced.records.insert(user, written@));
        Ok(written)
    }

    /// Stops tracking `center` for `user`, after a resync with what was read
    /// from the store.
    ///
    /// Returns the record to write to the store; `NotTrackingAny` where the
    /// resynced cache has no record of `user`; `NotTrackingCenter` where the
    /// record does not list `center`. On an error the cache is as the resync
    /// left it.
    pub fn untrack_center(
        &mut self,
        user: UserId,
        center: CenterId,
        manifest: Option<AllUsers>,
        record: Option<UserData>,
    ) -> (result: Result<UserData, TrackError>)
        ensures
            ({
                let synced = old(self)@.resynced(
                    user,
                    manifest_view(manifest),
                    record_view(record),
                );
                &&& final(self)@ == synced.untrack(user, center).0
                &&& outcome_view(result) == synced.untrack(user, center).1
            }),
    {
        self.sync_with_db(user, manifest, record);
        let ghost synced = self@;
        let updated = match self.user_data.get(&user) {
            Some(current) => {
                match current.position(center) {
                    Some(index) => {
                        let mut updated = current.duplicate();
                        updated.subscriptions.remove(index);
                        updated
                    },
                    None => {
                        return Err(TrackError::NotTrackingCenter);
                    },
                }
            },
            None => {
                return Err(TrackError::NotTrackingAny);
            },
        };
        let written = updated.duplicate();
        self.user_data.insert(user, updated);
        assert(self@.records =~= synced.records.insert(user, written@));
        Ok(written)
    }

    /// A whole track request: the resync, the request, and, where it
    /// succeeded, making sure that `user` is in the manifest. `manifest` and
    /// `record` are what the resync read from the store, `stored` what a
    /// further read of the stored manifest gave.
    ///
    /// Returns the record to write and, where one has to be written, the
    /// manifest to write before it; or the reason for turning the request
    /// down, and then the cache is as the resync left it.
    pub fn track_and_list(
        &mut self,
        channel_id: i64,
        user: UserId,
        center: CenterId,
        manifest: Option<AllUsers>,
        record: Option<UserData>,
        stored: Option<AllUsers>,
    ) -> (result: Result<(UserData, Option<AllUsers>), TrackError>)
        ensures
            ({
                let synced = old(self)@.resynced(
                    user,
                    manifest_view(manifest),
                    record_view(record),
                );
                let whole = synced.track_and_list(channel_id, user, center, manifest_view(stored));
                &&& final(self)@ == whole.0
                &&& writes_view(result) == whole.1
            }),
    {
        match self.track_center(channel_id, user, center, manifest, record) {
            Ok(written) => {
                let listed = self.ensure_user_in_list(user, stored);
                Ok((written, listed))
            },
            Err(e) => Err(e),
        }
    }

    /// A whole untrack request: the resync, the request, and, where it
    /// succeeded, making sure that `user` is in the manifest. `manifest` and
    /// `record` are what the resync read from the store, `stored` what a
    /// further read of the stored manifest gave.
    ///
    /// Returns the record to write and, where one has to be written, the
    /// manifest to write before it; or the reason for turning the request
    /// down, and then the cache is as the resync left it.
    pub fn untrack_and_list(
        &mut self,
        user: UserId,
        center: CenterId,
        manifest: Option<AllUsers>,
        record: Option<UserData>,
        stored: Option<AllUsers>,
    ) -> (result: Result<(UserData, Option<AllUsers>), TrackError>)
        ensures
            ({
                let synced = old(self)@.resynced(
                    user,
                    manifest_view(manifest),
                    record_view(record),
                );
                let whole = synced.untrack_and_list(user, center, manifest_view(stored));
                &&& final(self)@ == whole.0
                &&& writes_view(result) == whole.1
            }),
    {
        match self.untrack_center(user, center, manifest, record) {
            Ok(written) => {
                let listed = self.ensure_user_in_list(user, stored);
                Ok((written, listed))
            },
            Err(e) => Err(e),
        }
    }

    /// The record of `user` after a resync with what was read from the store.
    pub fn get_user_data(
        &mut self,
        user: UserId,
        manifest: Option<AllUsers>,
        record: Option<UserData>,
    ) -> (result: Option<&UserData>)
        ensures
            final(self)@ == old(self)@.resynced(
                user,
                manifest_view(manifest),
                record_view(record),
            ),
            match result {
                Some(found) => final(self)@.record_of(user) == Some(found@),
                None => final(self)@.record_of(user) is None,
            },
    {
        self.sync_with_db(user, manifest, record);
        self.user_data.get(&user)
    }

    /// The reverse index: for each center the subscribers that track it.
    ///
    /// A center is a key exactly if at least one id of the manifest has a
    /// cached record that lists it, and its subscribers stand in manifest
    /// order. An id without a cached record enters nothing, and so does a
    /// cached record whose id the manifest lacks.
    pub fn get_center_subscribers(&self) -> (index: HashMap<CenterId, Vec<UserId>>)
        ensures
            forall|c: CenterId| #[trigger] index@.contains_key(c) <==> self@.bucket(c).len() > 0,
            forall|c: CenterId| #[trigger] index@.contains_key(c) ==> index@[c]@ == self@.bucket(c),
    {
        let mut result: HashMap<CenterId, Vec<UserId>> = HashMap::new();
        let n = self.all_users.list.len();
        let mut i: usize = 0;
        while i < n
            invariant
                n == self.all_users.list.len(),
                i <= n,
                indexed(result@, self@, i as nat),
            decreases n - i,
        {
            let user = self.all_users.list[i];
            match self.user_data.get(&user) {
                Some(data) => {
                    let m = data.subscriptions.len();
                    let mut j: usize = 0;
                    proof {
                        assert(data.subscriptions@.take(0) =~= Seq::<CenterId>::empty());
                        lemma_entering_starts(result@, self@, i as nat, user);
                    }
                    while j < m
                        invariant
                            m == data.subscriptions.len(),
                            j <= m,
                            entering(
                                result@,
                                self@,
                                i as nat,
                                user,
                                data.subscriptions@.take(j as int),
                            ),
                        decreases m - j,
                    {
                        let center = data.subscriptions[j];
                        let ghost before = result@;
                        let mut list = match result.remove(&center) {
                            Some(list) => list,
                            None => Vec::new(),
                        };
                        list.push(user);
                        result.insert(center, list);
                        proof {
                            let done = data.subscriptions@.take(j as int);
                            assert(data.subscriptions@.take(j + 1) =~= done.push(center));
                            assert(result@.dom() =~= before.dom().insert(center));
                            lemma_entering_steps(
                                before,
                                result@,
                                self@,
                                i as nat,
                                user,
                                done,
                                center,
                            );
                        }
                        j = j + 1;
                    }
                    proof {
                        assert(data.subscriptions@.take(m as int) =~= data.subscriptions@);
                        lemma_entering_ends(result@, self@, i as nat, data.subscriptions@);
                    }
                },
                None => {
                    proof {
                        lemma_entering_starts(result@, self@, i as nat, user);
                        lemma_entering_ends(result@, self@, i as nat, Seq::empty());
                    }
                },
            }
            i = i + 1;
        }
        result
    }

    /// Makes sure that `user` is in the manifest, given what a fresh read of
    /// the stored manifest gave. Returns the manifest to write, or `None`
    /// where the stored one lists `user` already.
    pub fn ensure_user_in_list(&mut self, user: UserId, stored: Option<AllUsers>) -> (write: Option<
        AllUsers,
    >)
        ensures
            final(self)@ == old(self)@.ensure_listed(user, manifest_view(stored)).0,
            manifest_view(write) == old(self)@.ensure_listed(user, manifest_view(stored)).1,
    {
        match stored {
            Some(mut all_users) => {
                if all_users.lists(user) {
                    None
                } else {
                    all_users.list.push(user);
                    self.all_users = all_users.duplicate();
                    Some(all_users)
                }
            },
            None => {
                let mut list: Vec<UserId> = Vec::new();
                list.push(user);
                assert(list@ =~= seq![user]);
                let all_users = AllUsers { list };
                self.all_users = all_users.duplicate();
                Some(all_users)
            },
        }
    }
}

} // verus!
