//! What holds of the subscriber cache across several operations, and of the
//! scheduler's ticks.
//!
//! Every statement here is over the mathematical values that the contracts of
//! `TrackingManager` and of `CenterDataCollectorTask` speak of.

use vstd::prelude::*;
use crate::center::CenterId;
use crate::collector::{
    asks_for,
    CenterDataCollectorTask,
    CollectorMessage,
    COLLECTION_INTERVAL,
    RETRY_INTERVAL,
};
use crate::tracking::{occurrences, CacheView, Record, TrackError, UserId};

verus! {

/// A center occurs in a list at least once exactly if the list contains it.
pub proof fn occurrences_positive_iff_contained(subscriptions: Seq<CenterId>, center: CenterId)
    ensures
        occurrences(subscriptions, center) > 0 <==> subscriptions.contains(center),
    decreases subscriptions.len(),
{
    if subscriptions.len() > 0 {
        let front = subscriptions.drop_last();
        occurrences_positive_iff_contained(front, center);
        if subscriptions.contains(center) {
            let i = choose|i: int| 0 <= i < subscriptions.len() && subscriptions[i] == center;
            if i < subscriptions.len() - 1 {
                assert(front[i] == center);
            }
        }
        if front.contains(center) {
            let i = choose|i: int| 0 <= i < front.len() && front[i] == center;
            assert(subscriptions[i] == center);
        }
    }
}

/// In a list without duplicates no center occurs more than once.
pub proof fn occurrences_at_most_one(subscriptions: Seq<CenterId>, center: CenterId)
    requires
        subscriptions.no_duplicates(),
    ensures
        occurrences(subscriptions, center) <= 1,
    decreases subscriptions.len(),
{
    if subscriptions.len() > 0 {
        let front = subscriptions.drop_last();
        occurrences_at_most_one(front, center);
        occurrences_positive_iff_contained(front, center);
        if subscriptions.last() == center && front.contains(center) {
            let i = choose|i: int| 0 <= i < front.len() && front[i] == center;
            assert(subscriptions[i] == subscriptions[subscriptions.len() - 1]);
        }
    }
}

/// Among the first `n` ids of the manifest, `user` is entered under `center`
/// exactly if it is one of them and its cached record lists the center.
pub proof fn bucket_upto_membership(cache: CacheView, n: nat, user: UserId, center: CenterId)
    requires
        n <= cache.manifest.len(),
    ensures
        cache.bucket_upto(n, center).contains(user) <==> cache.manifest.take(n as int).contains(
            user,
        ) && cache.tracks(user, center),
    decreases n,
{
    let listed = cache.manifest.take(n as int);
    if n == 0 {
        assert(!cache.bucket_upto(n, center).contains(user));
        assert(!listed.contains(user));
    } else {
        let last = cache.manifest[n - 1];
        let earlier = cache.bucket_upto((n - 1) as nat, center);
        let added = Seq::new(cache.entries(last, center), |i: int| last);
        let bucket = cache.bucket_upto(n, center);
        assert(bucket == earlier + added);
        bucket_upto_membership(cache, (n - 1) as nat, user, center);
        let before = cache.manifest.take(n - 1);
        if cache.records.contains_key(last) {
            occurrences_positive_iff_contained(cache.records[last].subscriptions, center);
        }
        if bucket.contains(user) {
            let i = choose|i: int| 0 <= i < bucket.len() && bucket[i] == user;
            if i < earlier.len() {
                assert(earlier[i] == user);
                let k = choose|k: int| 0 <= k < before.len() && before[k] == user;
                assert(listed[k] == user);
            } else {
                assert(added[i - earlier.len()] == user);
                assert(listed[n - 1] == user);
            }
        }
        if listed.contains(user) && cache.tracks(user, center) {
            let k = choose|k: int| 0 <= k < listed.len() && listed[k] == user;
            if k < n - 1 {
                assert(before[k] == user);
                let i = choose|i: int| 0 <= i < earlier.len() && earlier[i] == user;
                assert(bucket[i] == user);
            } else {
                assert(added.len() > 0);
                assert(added[0] == user);
                assert(bucket[earlier.len() as int] == user);
            }
        }
    }
}

/// A subscriber stands under a center in the reverse index exactly if the
/// manifest lists it and its cached record lists the center.
pub proof fn reverse_index_membership(cache: CacheView, user: UserId, center: CenterId)
    ensures
        cache.bucket(center).contains(user) <==> cache.manifest.contains(user) && cache.tracks(
            user,
            center,
        ),
{
    bucket_upto_membership(cache, cache.manifest.len(), user, center);
    assert(cache.manifest.take(cache.manifest.len() as int) =~= cache.manifest);
}

/// A subscriber that the manifest lists and that has a cached record stands
/// in the reverse index under every center of its record, and under no
/// other.
pub proof fn listed_subscriber_stands_under_its_centers(
    cache: CacheView,
    user: UserId,
    center: CenterId,
)
    requires
        cache.manifest.contains(user),
        cache.records.contains_key(user),
    ensures
        cache.bucket(center).contains(user) <==> cache.records[user].subscriptions.contains(
            center,
        ),
{
    reverse_index_membership(cache, user, center);
}

/// A record that was written to the store and read back by a resync is the
/// cached record afterwards: the same subscriptions in the same order, and
/// the same chat.
pub proof fn resync_takes_in_the_written_record(
    cache: CacheView,
    user: UserId,
    manifest: Option<Seq<UserId>>,
    written: Record,
)
    ensures
        cache.resynced(user, manifest, Some(written)).record_of(user) == Some(written),
{
}

/// A track request keeps a record free of duplicates, and so does an untrack
/// request.
pub proof fn requests_keep_records_free_of_duplicates(
    cache: CacheView,
    chat: i64,
    user: UserId,
    center: CenterId,
)
    requires
        cache.records.contains_key(user) ==> cache.records[user].wf(),
    ensures
        cache.track(chat, user, center).1 matches Ok(written) ==> written.wf(),
        cache.untrack(user, center).1 matches Ok(written) ==> written.wf(),
{
    if cache.track(chat, user, center).1 is Ok {
        let written = cache.tracked_record(chat, user, center);
        if cache.records.contains_key(user) {
            let old = cache.records[user].subscriptions;
            assert forall|i: int, j: int|
                0 <= i < written.subscriptions.len() && 0 <= j < written.subscriptions.len() && i
                    != j implies written.subscriptions[i] != written.subscriptions[j] by {
                if i < old.len() && j < old.len() {
                } else if i < old.len() {
                    assert(old[i] != center);
                } else {
                    assert(old[j] != center);
                }
            }
        }
    }
    if cache.untrack(user, center).1 is Ok {
        let old = cache.records[user].subscriptions;
        old.index_of_first_ensures(center);
        let at = old.index_of_first(center).unwrap();
        let left = old.remove(at);
        assert forall|i: int, j: int| 0 <= i < left.len() && 0 <= j < left.len() && i != j implies left[i]
            != left[j] by {
            let oi = if i < at {
                i
            } else {
                i + 1
            };
            let oj = if j < at {
                j
            } else {
                j + 1
            };
            assert(left[i] == old[oi]);
            assert(left[j] == old[oj]);
        }
    }
}

/// Tracking a center a second time is turned down and changes nothing.
///
/// `cache` is the resynced cache on which the first request succeeded, and
/// `later` the cache when the second request arrives: `user`'s entry is as
/// the first request left it. The second resync reads the record that the
/// first request wrote, or reads nothing.
pub proof fn second_track_is_turned_down(
    cache: CacheView,
    first_chat: i64,
    second_chat: i64,
    user: UserId,
    center: CenterId,
    later: CacheView,
    manifest: Option<Seq<UserId>>,
    record: Option<Record>,
)
    requires
        cache.track(first_chat, user, center).1 is Ok,
        later.record_of(user) == cache.track(first_chat, user, center).0.record_of(user),
        record is None || Ok::<Record, TrackError>(record->0) == cache.track(
            first_chat,
            user,
            center,
        ).1,
    ensures
        ({
            let written = cache.tracked_record(first_chat, user, center);
            let synced = later.resynced(user, manifest, record);
            &&& synced.record_of(user) == Some(written)
            &&& synced.track(second_chat, user, center).1 == Err::<Record, TrackError>(
                TrackError::AlreadyTracking,
            )
            &&& synced.track(second_chat, user, center).0 == synced
        }),
{
    let written = cache.tracked_record(first_chat, user, center);
    let synced = later.resynced(user, manifest, record);
    assert(written.subscriptions.last() == center);
    assert(written.subscriptions.contains(center));
}

/// Untracking a center and tracking it again leaves the subscriber tracking
/// it: the request succeeds, the list holds the center exactly once, is free
/// of duplicates, and holds the same centers as before the two requests.
///
/// `cache` is the resynced cache on which the untrack request succeeded; the
/// record in it is free of duplicates. `later` is the cache when the track
/// request arrives: `user`'s entry is as the untrack request left it. The
/// second resync reads the record that the untrack request wrote, or reads
/// nothing.
pub proof fn untrack_then_track_restores(
    cache: CacheView,
    chat: i64,
    user: UserId,
    center: CenterId,
    later: CacheView,
    manifest: Option<Seq<UserId>>,
    record: Option<Record>,
)
    requires
        cache.records.contains_key(user) ==> cache.records[user].wf(),
        cache.untrack(user, center).1 is Ok,
        later.record_of(user) == cache.untrack(user, center).0.record_of(user),
        record is None || Ok::<Record, TrackError>(record->0) == cache.untrack(user, center).1,
    ensures
        ({
            let before = cache.records[user];
            let synced = later.resynced(user, manifest, record);
            let after = synced.track(chat, user, center).0;
            &&& synced.track(chat, user, center).1 is Ok
            &&& after.tracks(user, center)
            &&& occurrences(after.records[user].subscriptions, center) == 1
            &&& after.records[user].wf()
            &&& after.records[user].chat_id == before.chat_id
            &&& after.records[user].subscriptions.len() == before.subscriptions.len()
            &&& forall|c: CenterId|
                after.records[user].subscriptions.contains(c) <==> before.subscriptions.contains(c)
        }),
{
    let before = cache.records[user];
    let old = before.subscriptions;
    old.index_of_first_ensures(center);
    let at = old.index_of_first(center).unwrap();
    let left = old.remove(at);
    let removed = Record { subscriptions: left, chat_id: before.chat_id };
    let synced = later.resynced(user, manifest, record);
    assert(synced.record_of(user) == Some(removed));
    requests_keep_records_free_of_duplicates(cache, chat, user, center);
    assert(!left.contains(center)) by {
        if left.contains(center) {
            let i = choose|i: int| 0 <= i < left.len() && left[i] == center;
            let oi = if i < at {
                i
            } else {
                i + 1
            };
            assert(old[oi] == old[at]);
        }
    }
    let after = synced.track(chat, user, center).0;
    let list = after.records[user].subscriptions;
    assert(list == left.push(center));
    requests_keep_records_free_of_duplicates(synced, chat, user, center);
    assert(list.last() == center);
    assert(list.contains(center));
    occurrences_positive_iff_contained(list, center);
    occurrences_at_most_one(list, center);
    assert forall|c: CenterId| list.contains(c) <==> old.contains(c) by {
        if list.contains(c) {
            let i = choose|i: int| 0 <= i < list.len() && list[i] == c;
            if i < left.len() {
                let oi = if i < at {
                    i
                } else {
                    i + 1
                };
                assert(old[oi] == c);
            } else {
                assert(old[at] == c);
            }
        }
        if old.contains(c) {
            let i = choose|i: int| 0 <= i < old.len() && old[i] == c;
            if i == at {
                assert(list[list.len() - 1] == c);
            } else {
                let li = if i < at {
                    i
                } else {
                    i - 1
                };
                assert(left[li] == c);
                assert(list[li] == c);
            }
        }
    }
}

/// After making sure that `user` is in the manifest, a subscriber whose
/// cached record lists a center stands under it in the reverse index, unless
/// the stored manifest listed `user` and the one in memory did not.
pub proof fn ensured_subscriber_is_indexed(
    cache: CacheView,
    user: UserId,
    center: CenterId,
    stored: Option<Seq<UserId>>,
)
    requires
        cache.tracks(user, center),
        stored matches Some(m) ==> (m.contains(user) ==> cache.manifest.contains(user)),
    ensures
        cache.ensure_listed(user, stored).0.bucket(center).contains(user),
{
    let after = cache.ensure_listed(user, stored).0;
    assert(after.manifest.contains(user)) by {
        match stored {
            Some(m) => {
                if !m.contains(user) {
                    assert(m.push(user).last() == user);
                }
            },
            None => {
                assert(seq![user][0] == user);
            },
        }
    }
    reverse_index_membership(after, user, center);
}

/// After a whole track request that succeeded, the subscriber stands under
/// the center in the reverse index, unless the stored manifest listed `user`
/// and the one in memory did not.
pub proof fn whole_track_indexes_the_subscriber(
    synced: CacheView,
    chat: i64,
    user: UserId,
    center: CenterId,
    stored: Option<Seq<UserId>>,
)
    requires
        synced.track_and_list(chat, user, center, stored).1 is Ok,
        stored matches Some(m) ==> (m.contains(user) ==> synced.manifest.contains(user)),
    ensures
        synced.track_and_list(chat, user, center, stored).0.bucket(center).contains(user),
{
    let after = synced.track(chat, user, center).0;
    let written = synced.tracked_record(chat, user, center);
    assert(written.subscriptions.last() == center);
    assert(after.tracks(user, center));
    ensured_subscriber_is_indexed(after, user, center, stored);
}

/// The first track request on an empty store: with an empty cache and no
/// manifest and no record to read, the reverse index afterwards holds the
/// subscriber alone under the center, and nothing under any other center.
pub proof fn first_track_on_an_empty_store(
    chat: i64,
    user: UserId,
    center: CenterId,
    other: CenterId,
)
    requires
        other != center,
    ensures
        ({
            let synced = CacheView::empty().resynced(user, None, None);
            let whole = synced.track_and_list(chat, user, center, None);
            &&& whole.1 == Ok::<(Record, Option<Seq<UserId>>), TrackError>(
                (Record { subscriptions: seq![center], chat_id: chat }, Some(seq![user])),
            )
            &&& whole.0.bucket(center) == seq![user]
            &&& whole.0.bucket(other) == Seq::<UserId>::empty()
        }),
{
    let synced = CacheView::empty().resynced(user, None, None);
    let after = synced.track_and_list(chat, user, center, None).0;
    let subscriptions = seq![center];
    assert(after.manifest == seq![user]);
    assert(after.records[user].subscriptions == subscriptions);
    assert(subscriptions.drop_last() =~= Seq::<CenterId>::empty());
    assert(occurrences(subscriptions.drop_last(), center) == 0);
    assert(occurrences(subscriptions.drop_last(), other) == 0);
    assert(occurrences(subscriptions, center) == 1);
    assert(occurrences(subscriptions, other) == 0);
    assert(after.bucket_upto(0, center) =~= Seq::<UserId>::empty());
    assert(after.bucket_upto(0, other) =~= Seq::<UserId>::empty());
    assert(after.bucket_upto(1, center) =~= seq![user]);
    assert(after.bucket_upto(1, other) =~= Seq::<UserId>::empty());
}

/// A whole request that is turned down leaves the cache as the resync left
/// it and writes nothing.
pub proof fn a_request_turned_down_changes_nothing(
    synced: CacheView,
    chat: i64,
    user: UserId,
    center: CenterId,
    stored: Option<Seq<UserId>>,
)
    ensures
        synced.track_and_list(chat, user, center, stored).1 is Err ==> synced.track_and_list(
            chat,
            user,
            center,
            stored,
        ).0 == synced,
        synced.untrack_and_list(user, center, stored).1 is Err ==> synced.untrack_and_list(
            user,
            center,
            stored,
        ).0 == synced,
{
}

/// A tick that is due and finds the cache locked enqueues nothing, no
/// request for any center among it, and puts the next attempt one retry
/// interval after `now`, which is earlier than a whole interval after it.
pub proof fn locked_cache_defers_the_collection(
    task: CenterDataCollectorTask,
    now: u64,
    messages: Seq<CollectorMessage>,
    center: CenterId,
)
    requires
        task.due(now),
        now + COLLECTION_INTERVAL <= u64::MAX,
        task.enqueues(now, None, messages),
    ensures
        messages.len() == 0,
        !asks_for(messages, center),
        task.due_after(now, false) matches Some(at) && at == now + RETRY_INTERVAL && at == now
            + 1000,
        task.due_after(now, false) != task.due_after(now, true),
{
}

/// A tick before the due time changes nothing and enqueues nothing, whether
/// the cache could be had or not.
pub proof fn early_tick_changes_nothing(
    task: CenterDataCollectorTask,
    now: u64,
    cache: Option<CacheView>,
    messages: Seq<CollectorMessage>,
)
    requires
        !task.due(now),
        task.enqueues(now, cache, messages),
    ensures
        messages.len() == 0,
        task.due_after(now, cache is Some) == task.next_due(),
{
}

} // verus!
