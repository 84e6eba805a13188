//! The polling scheduler and the worker's decisions.
//!
//! The scheduler and the worker sit on either side of a queue of
//! `CollectorMessage`s. Neither the queue nor the clock, the lock, the slot
//! source or the notifier is here: the caller runs them and hands in what
//! they gave. What is decided on that is here: when a collection is due and
//! what it asks for, what an answer of the slot source leads to, and who is
//! told what about a slot.

use std::collections::HashMap;
use vstd::prelude::*;
use vstd::std_specs::hash::spec_keys_iter;
use vstd::std_specs::iter::IteratorSpec;
use crate::calendar::{
    display_format,
    formatted_date_time,
    parsed_date_time,
    timestamp_format,
    Date,
    EligibilityWindow,
    SlotTime,
};
use crate::center::{appointment_text, center_index, Center, CenterId, CentersConfig, Slot};
use crate::text::{decimal, push_decimal};
use crate::tracking::{
    manifest_view,
    record_view,
    AllUsers,
    CacheView,
    TrackingManager,
    UserData,
    UserId,
};

verus! {

broadcast use vstd::std_specs::hash::group_hash_axioms;

/// A unit of work for the worker.
#[derive(Debug, Clone, PartialEq, Eq)]
pub enum CollectorMessage {
    /// Ask the slot source for the slots of a center.
    RequestSlotsForCenter(CenterId),
    /// Tell the subscribers of a center about the slots found.
    NotifyUsersOf(CenterId, Vec<Slot>),
    /// Leave the loop without taking further messages.
    Stop,
}

/// Milliseconds from one collection to the next.
pub const COLLECTION_INTERVAL: u64 = 15_000;

/// Milliseconds until the next attempt, after one that found the cache
/// locked.
pub const RETRY_INTERVAL: u64 = 1_000;

/// The scheduler's state: when the next collection is due, in milliseconds on
/// the caller's monotonic clock. `None` until the first collection.
#[derive(Debug, Clone, Copy)]
pub struct CenterDataCollectorTask {
    next_collection_time: Option<u64>,
}

/// The value of the cache that a tick had, if it had one.
pub open spec fn had(cache: Option<&TrackingManager>) -> Option<CacheView> {
    match cache {
        Some(manager) => Some(manager@),
        None => None,
    }
}

/// Whether one of `messages` asks for the slots of `center`.
pub open spec fn asks_for(messages: Seq<CollectorMessage>, center: CenterId) -> bool {
    messages.contains(CollectorMessage::RequestSlotsForCenter(center))
}

/// Whether `messages` ask for the slots of each center that has a subscriber
/// in `cache`, once, and for nothing else.
pub open spec fn asks_for_tracked_centers(
    messages: Seq<CollectorMessage>,
    cache: CacheView,
) -> bool {
    &&& forall|i: int| 0 <= i < messages.len() ==> (#[trigger] messages[i]) is RequestSlotsForCenter
    &&& forall|i: int, j: int|
        0 <= i < j < messages.len() ==> (#[trigger] messages[i])->RequestSlotsForCenter_0 != (
        #[trigger] messages[j])->RequestSlotsForCenter_0
    &&& forall|center: CenterId| #[trigger]
        asks_for(messages, center) <==> cache.bucket(center).len() > 0
}

impl CenterDataCollectorTask {
    /// The due time; `None` before the first collection.
    pub closed spec fn next_due(&self) -> Option<u64> {
        self.next_collection_time
    }

    /// Whether a collection is due at `now`: none was made yet, or the due
    /// time has been reached.
    pub open spec fn due(&self, now: u64) -> bool {
        match self.next_due() {
            None => true,
            Some(at) => now >= at,
        }
    }

    /// A scheduler that has not collected yet.
    pub fn new() -> (task: Self)
        ensures
            task.next_due() is None,
    {
        CenterDataCollectorTask { next_collection_time: None }
    }

    /// Tests `due`.
    pub fn is_due(&self, now: u64) -> (r: bool)
        ensures
            r == self.due(now),
    {
        match self.next_collection_time {
            None => true,
            Some(at) => now >= at,
        }
    }

    /// When to wake the scheduler next; `None` before the first collection.
    pub fn next_collection_time(&self) -> (r: Option<u64>)
        ensures
            r == self.next_due(),
    {
        self.next_collection_time
    }

    /// When the next collection is due after a tick at `now`: as before
    /// where nothing is due; one interval after `now` where the cache was
    /// had; one retry interval after `now` where its lock was held elsewhere.
    pub open spec fn due_after(&self, now: u64, cache_had: bool) -> Option<u64> {
        if !self.due(now) {
            self.next_due()
        } else if cache_had {
            Some((now + COLLECTION_INTERVAL) as u64)
        } else {
            Some((now + RETRY_INTERVAL) as u64)
        }
    }

    /// Whether `messages` are what a tick at `now` enqueues: nothing where
    /// nothing is due or the lock was held elsewhere, and else one request
    /// for each center that has a subscriber in the cache.
    pub open spec fn enqueues(
        &self,
        now: u64,
        cache: Option<CacheView>,
        messages: Seq<CollectorMessage>,
    ) -> bool {
        if self.due(now) && cache is Some {
            asks_for_tracked_centers(messages, cache->0)
        } else {
            messages.len() == 0
        }
    }

    /// One tick at `now`. `cache` is the subscriber cache where a collection
    /// is due and the attempt to lock the cache succeeded, and `None` where
    /// the lock is held elsewhere. Returns the messages to enqueue.
    ///
    /// Where nothing is due, nothing changes and nothing is enqueued. Where
    /// the cache was had, each center with a subscriber is asked for once, in
    /// no stated order, and the next collection is due one interval later.
    /// Where the lock was held elsewhere nothing is enqueued and the next
    /// attempt is due one retry interval later.
    pub fn poll(&mut self, now: u64, cache: Option<&TrackingManager>) -> (messages: Vec<
        CollectorMessage,
    >)
        requires
            old(self).due(now) ==> now + COLLECTION_INTERVAL <= u64::MAX,
        ensures
            final(self).next_due() == old(self).due_after(now, cache is Some),
            old(self).enqueues(now, had(cache), messages@),
    {
        let mut messages: Vec<CollectorMessage> = Vec::new();
        if !self.is_due(now) {
            return messages;
        }
        match cache {
            Some(manager) => {
                self.next_collection_time = Some(now + COLLECTION_INTERVAL);
                let index = manager.get_center_subscribers();
                let ghost keys: Seq<CenterId> = spec_keys_iter(&index).remaining().unref();
                for center in iter: index.keys()
                    invariant
                        iter.seq().unref() =~= keys,
                        iter.seq().no_duplicates(),
                        keys.to_set() == index@.dom(),
                        messages@.len() == iter.index(),
                        forall|i: int|
                            0 <= i < iter.index() ==> (#[trigger] messages@[i])
                                == CollectorMessage::RequestSlotsForCenter(keys[i]),
                {
                    messages.push(CollectorMessage::RequestSlotsForCenter(*center));
                }
                proof {
                    assert(messages@.len() == keys.len());
                    assert forall|center: CenterId| #[trigger]
                        asks_for(messages@, center) <==> manager@.bucket(center).len() > 0 by {
                        let asked = CollectorMessage::RequestSlotsForCenter(center);
                        assert(keys.to_set().contains(center) <==> keys.contains(center));
                        if messages@.contains(asked) {
                            let i = choose|i: int| 0 <= i < messages@.len() && messages@[i] == asked;
                            assert(keys[i] == center);
                        }
                        if keys.contains(center) {
                            let i = choose|i: int| 0 <= i < keys.len() && keys[i] == center;
                            assert(messages@[i] == asked);
                        }
                    }
                }
            },
            None => {
                self.next_collection_time = Some(now + RETRY_INTERVAL);
            },
        }
        messages
    }
}

/// The address that is asked for the slots of `center`: the five soonest.
pub open spec fn slots_address(center: CenterId) -> Seq<char> {
    "https://ttp.cbp.dhs.gov/schedulerapi/slots?orderBy=soonest&limit=5&locationId="@ + decimal(
        center as nat,
    )
}

/// Writes `slots_address`.
pub fn slots_uri(center: CenterId) -> (r: String)
    ensures
        r@ == slots_address(center),
{
    let mut text = String::from_str(
        "https://ttp.cbp.dhs.gov/schedulerapi/slots?orderBy=soonest&limit=5&locationId=",
    );
    push_decimal(&mut text, center);
    text
}

/// What the worker does on a message.
#[derive(Debug, Clone, PartialEq, Eq)]
pub enum WorkerStep {
    /// Ask the slot source at `uri` for the slots of `center`, and go on with
    /// `slots_received`.
    Query { center: CenterId, uri: String },
    /// Tell the subscribers of `center` about `slots`, of which there is at
    /// least one.
    Notify { center: CenterId, slots: Vec<Slot> },
    /// Nothing: a notification was asked for without a slot to tell of.
    Skip,
    /// Leave the loop; messages that are still queued are not taken.
    End,
}

/// What the worker does on `message`.
pub fn step_for(message: CollectorMessage) -> (step: WorkerStep)
    ensures
        match message {
            CollectorMessage::RequestSlotsForCenter(center) => {
                &&& step matches WorkerStep::Query { center: asked, uri }
                &&& asked == center
                &&& uri@ == slots_address(center)
            },
            CollectorMessage::NotifyUsersOf(center, slots) => step == if slots@.len() > 0 {
                WorkerStep::Notify { center, slots }
            } else {
                WorkerStep::Skip
            },
            CollectorMessage::Stop => step == WorkerStep::End,
        },
{
    match message {
        CollectorMessage::RequestSlotsForCenter(center) => WorkerStep::Query {
            center,
            uri: slots_uri(center),
        },
        CollectorMessage::NotifyUsersOf(center, slots) => {
            if slots.len() > 0 {
                WorkerStep::Notify { center, slots }
            } else {
                WorkerStep::Skip
            }
        },
        CollectorMessage::Stop => WorkerStep::End,
    }
}

/// What asking the slot source for one center gave.
#[derive(Debug, Clone, PartialEq, Eq)]
pub enum SlotQuery {
    /// The source could not be reached.
    Unreachable,
    /// The source answered with something that is no list of slots.
    Undecodable,
    /// The slots that the source listed.
    Decoded(Vec<Slot>),
}

/// What the worker does on an answer of the slot source for `center`: where
/// it lists at least one slot, the message to enqueue, which hands the slots
/// on to the notification pass; else nothing, and the center waits for the
/// next collection.
pub fn slots_received(center: CenterId, answer: SlotQuery) -> (r: Option<CollectorMessage>)
    ensures
        r == match answer {
            SlotQuery::Decoded(slots) => if slots@.len() > 0 {
                Some(CollectorMessage::NotifyUsersOf(center, slots))
            } else {
                None
            },
            _ => None,
        },
{
    match answer {
        SlotQuery::Decoded(slots) => {
            if slots.len() > 0 {
                Some(CollectorMessage::NotifyUsersOf(center, slots))
            } else {
                None
            }
        },
        _ => None,
    }
}

/// The subscribers that a notification pass for `center` visits, in order:
/// those under the center in the reverse index, and none where there is no
/// slot to tell of.
pub fn subscribers_to_notify(cache: &TrackingManager, center: CenterId, slots: &Vec<Slot>) -> (r:
    Vec<UserId>)
    ensures
        r@ == if slots@.len() == 0 {
            Seq::<UserId>::empty()
        } else {
            cache@.bucket(center)
        },
{
    let mut users: Vec<UserId> = Vec::new();
    if slots.len() == 0 {
        return users;
    }
    let index = cache.get_center_subscribers();
    match index.get(&center) {
        Some(listed) => {
            let mut i: usize = 0;
            while i < listed.len()
                invariant
                    i <= listed.len(),
                    users@ == listed@.take(i as int),
                decreases listed.len() - i,
            {
                users.push(listed[i]);
                proof {
                    assert(listed@.take(i + 1) =~= listed@.take(i as int).push(listed@[i as int]));
                }
                i = i + 1;
            }
            assert(listed@.take(i as int) =~= listed@);
        },
        None => {
            assert(cache@.bucket(center) =~= Seq::<UserId>::empty());
        },
    }
    users
}

/// A message for one chat.
#[derive(Debug, Clone, PartialEq, Eq)]
pub struct Notification {
    pub chat_id: i64,
    pub text: String,
}

/// The mathematical value of a `Notification`.
pub struct Notice {
    pub chat_id: i64,
    pub text: Seq<char>,
}

impl View for Notification {
    type V = Notice;

    open spec fn view(&self) -> Notice {
        Notice { chat_id: self.chat_id, text: self.text@ }
    }
}

/// The mathematical values of a list of notifications.
pub open spec fn notices_of(notifications: Seq<Notification>) -> Seq<Notice> {
    Seq::new(notifications.len(), |i: int| notifications[i]@)
}

/// Whether a slot whose timestamp was read as `time` is worth a
/// notification: the timestamp could be read, and its day lies in `window`.
pub open spec fn eligible(time: Option<SlotTime>, window: EligibilityWindow) -> bool {
    time matches Some(t) && window.holds(t.date)
}

/// Tests `eligible`.
pub fn is_eligible(time: &Option<SlotTime>, window: &EligibilityWindow) -> (r: bool)
    ensures
        r == eligible(*time, *window),
{
    match time {
        Some(t) => window.contains(&t.date),
        None => false,
    }
}

/// The notification that `slot` leads to for the chat `chat`, if any: its
/// timestamp can be read, its day lies in `window`, `centers` holds a center
/// with the slot's location id, and the time can be written.
pub open spec fn notice_for(
    slot: Slot,
    chat: i64,
    window: EligibilityWindow,
    centers: Seq<Center>,
) -> Option<Notice> {
    match parsed_date_time(slot.start_timestamp@, timestamp_format()) {
        Some((year, month, day, hour, minute)) => if !window.holds(Date { year, month, day }) {
            None
        } else {
            match center_index(centers, slot.location_id) {
                Some(at) => match formatted_date_time(
                    year,
                    month,
                    day,
                    hour,
                    minute,
                    display_format(),
                ) {
                    Some(shown) => Some(
                        Notice {
                            chat_id: chat,
                            text: appointment_text(centers[at].full_name@, shown),
                        },
                    ),
                    None => None,
                },
                None => None,
            }
        },
        None => None,
    }
}

/// The notifications that `slots` lead to for the chat `chat`, in the order
/// of the slots.
pub open spec fn notices_for(
    slots: Seq<Slot>,
    chat: i64,
    window: EligibilityWindow,
    centers: Seq<Center>,
) -> Seq<Notice>
    decreases slots.len(),
{
    if slots.len() == 0 {
        Seq::empty()
    } else {
        let earlier = notices_for(slots.drop_last(), chat, window, centers);
        match notice_for(slots.last(), chat, window, centers) {
            Some(notice) => earlier.push(notice),
            None => earlier,
        }
    }
}

/// The notification that `slot` leads to for the chat `chat_id`, if any.
pub fn notification_for(
    slot: &Slot,
    chat_id: i64,
    window: &EligibilityWindow,
    centers: &CentersConfig,
) -> (r: Option<Notification>)
    ensures
        match r {
            Some(n) => notice_for(*slot, chat_id, *window, centers.centers@) == Some(n@),
            None => notice_for(*slot, chat_id, *window, centers.centers@) is None,
        },
{
    let time = slot.start_time();
    if !is_eligible(&time, window) {
        return None;
    }
    match (time, centers.lookup(slot.location_id)) {
        (Some(at), Some(center)) => match center.appointment_msg_at(&at) {
            Some(text) => Some(Notification { chat_id, text }),
            None => None,
        },
        _ => None,
    }
}

/// The notifications that one subscriber gets in a notification pass: one
/// for each slot that leads to one, in the order of the slots, all to the
/// subscriber's chat.
pub fn notifications_for(
    user_data: &UserData,
    slots: &Vec<Slot>,
    window: &EligibilityWindow,
    centers: &CentersConfig,
) -> (r: Vec<Notification>)
    ensures
        notices_of(r@) == notices_for(slots@, user_data.chat_id, *window, centers.centers@),
{
    let mut notifications: Vec<Notification> = Vec::new();
    let mut i: usize = 0;
    while i < slots.len()
        invariant
            i <= slots.len(),
            notices_of(notifications@) == notices_for(
                slots@.take(i as int),
                user_data.chat_id,
                *window,
                centers.centers@,
            ),
        decreases slots.len() - i,
    {
        let ghost before = notifications@;
        proof {
            assert(slots@.take(i + 1).drop_last() =~= slots@.take(i as int));
            assert(slots@.take(i + 1).last() == slots@[i as int]);
        }
        match notification_for(&slots[i], user_data.chat_id, window, centers) {
            Some(notification) => {
                notifications.push(notification);
                assert(notices_of(notifications@) =~= notices_of(before).push(notification@));
            },
            None => {},
        }
        i = i + 1;
    }
    assert(slots@.take(i as int) =~= slots@);
    notifications
}

/// One subscriber's turn in a notification pass: the cache resyncs for
/// `user` with what was read from the store, and the subscriber gets the
/// notifications for `slots`. A subscriber that has no record after the
/// resync gets none.
pub fn notify_subscriber(
    cache: &mut TrackingManager,
    user: UserId,
    manifest: Option<AllUsers>,
    record: Option<UserData>,
    slots: &Vec<Slot>,
    window: &EligibilityWindow,
    centers: &CentersConfig,
) -> (r: Vec<Notification>)
    ensures
        final(cache)@ == old(cache)@.resynced(user, manifest_view(manifest), record_view(record)),
        notices_of(r@) == match final(cache)@.record_of(user) {
            Some(found) => notices_for(slots@, found.chat_id, *window, centers.centers@),
            None => Seq::empty(),
        },
{
    match cache.get_user_data(user, manifest, record) {
        Some(user_data) => notifications_for(user_data, slots, window, centers),
        None => {
            let none: Vec<Notification> = Vec::new();
            assert(notices_of(none@) =~= Seq::<Notice>::empty());
            none
        },
    }
}

} // verus!
