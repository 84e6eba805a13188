use nexus_pls::calendar::{Date, EligibilityWindow, SlotTime};
use nexus_pls::center::{appointment_message, Center, CentersConfig, Slot};
use nexus_pls::collector::{
    is_eligible, notification_for, notifications_for, slots_received, slots_uri,
    subscribers_to_notify, CollectorMessage, Notification, SlotQuery,
};
use nexus_pls::text::push_decimal;
use nexus_pls::tracking::{AllUsers, TrackingManager, UserData};

const LINK: &str = "https://ttp.cbp.dhs.gov/schedulerui/schedule-interview/location?lang=en&vo=true&returnUrl=ttp-external&service=nh";

fn center(id: u32, short_name: &str, full_name: &str) -> Center {
    Center {
        id,
        short_name: short_name.to_string(),
        full_name: full_name.to_string(),
        address: "1 Border Rd".to_string(),
    }
}

fn centers() -> CentersConfig {
    CentersConfig { centers: vec![center(7, "blaine", "Blaine Enrollment Center")] }
}

fn slot(location_id: u32, start_timestamp: &str) -> Slot {
    Slot { location_id, start_timestamp: start_timestamp.to_string() }
}

fn window() -> EligibilityWindow {
    EligibilityWindow {
        arrival: Date { year: 2023, month: 1, day: 1 },
        leave: Date { year: 2023, month: 2, day: 1 },
    }
}

fn cache_tracking_seven() -> TrackingManager {
    let mut cache = TrackingManager::new(None);
    assert!(cache.track_center(555, 42, 7, None, None).is_ok());
    assert!(cache.ensure_user_in_list(42, None).is_some());
    cache
}

#[test]
fn the_query_names_the_center_in_decimal() {
    assert_eq!(
        slots_uri(5140),
        "https://ttp.cbp.dhs.gov/schedulerapi/slots?orderBy=soonest&limit=5&locationId=5140"
    );
    assert_eq!(
        slots_uri(0),
        "https://ttp.cbp.dhs.gov/schedulerapi/slots?orderBy=soonest&limit=5&locationId=0"
    );
}

#[test]
fn numbers_are_written_without_leading_zeros() {
    let mut text = String::from("n=");
    push_decimal(&mut text, 0);
    push_decimal(&mut text, 10);
    push_decimal(&mut text, 907);
    push_decimal(&mut text, u32::MAX);
    assert_eq!(text, "n=0109074294967295");
}

#[test]
fn an_empty_answer_leads_to_nothing() {
    assert_eq!(slots_received(7, SlotQuery::Decoded(vec![])), None);
    let cache = cache_tracking_seven();
    assert_eq!(subscribers_to_notify(&cache, 7, &vec![]), Vec::<u64>::new());
}

#[test]
fn a_failed_query_leads_to_nothing() {
    assert_eq!(slots_received(7, SlotQuery::Unreachable), None);
    assert_eq!(slots_received(7, SlotQuery::Undecodable), None);
}

#[test]
fn slots_are_handed_on_to_the_notification_pass() {
    let found = vec![slot(7, "2023-01-15T09:30"), slot(7, "2023-01-16T10:00")];
    assert_eq!(
        slots_received(7, SlotQuery::Decoded(found.clone())),
        Some(CollectorMessage::NotifyUsersOf(7, found))
    );
}

#[test]
fn a_slot_in_the_window_is_told_to_the_subscriber_s_chat() {
    let mut cache = cache_tracking_seven();
    let found = vec![slot(7, "2023-01-15T09:30")];
    let message = slots_received(7, SlotQuery::Decoded(found.clone()));
    assert_eq!(message, Some(CollectorMessage::NotifyUsersOf(7, found.clone())));

    let users = subscribers_to_notify(&cache, 7, &found);
    assert_eq!(users, vec![42]);
    let user_data = cache.get_user_data(42, None, None).unwrap();
    let notifications = notifications_for(user_data, &found, &window(), &centers());
    assert_eq!(
        notifications,
        vec![Notification {
            chat_id: 555,
            text: format!(
                "Appointment Avaliable for Blaine Enrollment Center\n 9:30 AM on Sunday January 15\n[Schedule Appointment]({})",
                LINK
            ),
        }]
    );
}

#[test]
fn a_slot_outside_the_window_is_told_to_nobody() {
    let user_data = UserData::from((vec![7], 555));
    let found = vec![slot(7, "2023-03-01T09:30")];
    assert_eq!(notifications_for(&user_data, &found, &window(), &centers()), vec![]);
    assert_eq!(notification_for(&found[0], 555, &window(), &centers()), None);
}

#[test]
fn a_center_without_subscribers_is_told_to_nobody() {
    let cache = cache_tracking_seven();
    assert_eq!(
        subscribers_to_notify(&cache, 8, &vec![slot(8, "2023-01-15T09:30")]),
        Vec::<u64>::new()
    );
}

#[test]
fn subscribers_are_visited_in_manifest_order() {
    let mut cache = TrackingManager::new(Some(AllUsers::from(vec![3, 1, 2])));
    cache.cache_user_data(1, Some(UserData::from((vec![7], 10))));
    cache.cache_user_data(2, Some(UserData::from((vec![8], 20))));
    cache.cache_user_data(3, Some(UserData::from((vec![8, 7], 30))));
    assert_eq!(subscribers_to_notify(&cache, 7, &vec![slot(7, "2023-01-15T09:30")]), vec![3, 1]);
}

#[test]
fn notifications_keep_the_order_of_the_slots() {
    let user_data = UserData::from((vec![7], 555));
    let found = vec![
        slot(7, "2023-02-01T23:59"),
        slot(7, "2023-02-02T00:00"),
        slot(7, "not a time"),
        slot(8, "2023-01-15T09:30"),
        slot(7, "2023-01-01T00:00"),
    ];
    let notifications = notifications_for(&user_data, &found, &window(), &centers());
    assert_eq!(
        notifications,
        vec![
            Notification {
                chat_id: 555,
                text: appointment_message("Blaine Enrollment Center", "11:59 PM on Wednesday February 1"),
            },
            Notification {
                chat_id: 555,
                text: appointment_message("Blaine Enrollment Center", "12:00 AM on Sunday January 1"),
            },
        ]
    );
}

#[test]
fn the_center_of_the_slot_s_location_is_named() {
    let config = CentersConfig {
        centers: vec![center(7, "blaine", "Blaine"), center(8, "niagara", "Niagara Falls")],
    };
    let found = slot(8, "2023-01-15T13:05");
    assert_eq!(
        notification_for(&found, 1, &window(), &config),
        Some(Notification { chat_id: 1, text: appointment_message("Niagara Falls", " 1:05 PM on Sunday January 15") })
    );
}

#[test]
fn a_slot_is_eligible_from_arrival_to_leave() {
    let w = window();
    let at = |year, month, day| Some(SlotTime { date: Date { year, month, day }, hour: 0, minute: 0 });
    assert!(!is_eligible(&at(2022, 12, 31), &w));
    assert!(is_eligible(&at(2023, 1, 1), &w));
    assert!(is_eligible(&at(2023, 1, 31), &w));
    assert!(is_eligible(&at(2023, 2, 1), &w));
    assert!(!is_eligible(&at(2023, 2, 2), &w));
    assert!(!is_eligible(&at(2024, 1, 15), &w));
    assert!(!is_eligible(&at(2022, 1, 15), &w));
    assert!(!is_eligible(&None, &w));
}

#[test]
fn a_subscriber_s_turn_resyncs_before_it_notifies() {
    let mut cache = cache_tracking_seven();
    let found = vec![slot(7, "2023-01-15T09:30")];
    let moved = UserData::from((vec![7], 777));
    let notifications = nexus_pls::collector::notify_subscriber(
        &mut cache,
        42,
        None,
        Some(moved.clone()),
        &found,
        &window(),
        &centers(),
    );
    assert_eq!(
        notifications,
        vec![Notification {
            chat_id: 777,
            text: appointment_message("Blaine Enrollment Center", " 9:30 AM on Sunday January 15"),
        }]
    );
    assert_eq!(cache.get_user_data(42, None, None), Some(&moved));
}

#[test]
fn a_subscriber_without_a_record_is_skipped() {
    let mut cache = TrackingManager::new(Some(AllUsers::from(vec![42])));
    let found = vec![slot(7, "2023-01-15T09:30")];
    let notifications =
        nexus_pls::collector::notify_subscriber(&mut cache, 42, None, None, &found, &window(), &centers());
    assert_eq!(notifications, vec![]);
}

#[test]
fn a_subscriber_is_told_the_escaped_name_of_the_center() {
    let config = CentersConfig { centers: vec![center(12, "mary", "St. Mary (North)_#1")] };
    let user_data = UserData::from((vec![12], 555));
    let found = vec![slot(12, "2023-01-15T09:30")];
    assert_eq!(
        notifications_for(&user_data, &found, &window(), &config),
        vec![Notification {
            chat_id: 555,
            text: format!(
                "Appointment Avaliable for St\\. Mary \\(North\\)\\_\\#1\n 9:30 AM on Sunday January 15\n[Schedule Appointment]({})",
                LINK
            ),
        }]
    );
}

#[test]
fn a_request_for_slots_leads_to_a_query() {
    assert_eq!(
        nexus_pls::collector::step_for(CollectorMessage::RequestSlotsForCenter(7)),
        nexus_pls::collector::WorkerStep::Query {
            center: 7,
            uri: "https://ttp.cbp.dhs.gov/schedulerapi/slots?orderBy=soonest&limit=5&locationId=7"
                .to_string(),
        }
    );
}

#[test]
fn slots_to_tell_of_lead_to_a_notification_pass() {
    let found = vec![slot(7, "2023-01-15T09:30")];
    assert_eq!(
        nexus_pls::collector::step_for(CollectorMessage::NotifyUsersOf(7, found.clone())),
        nexus_pls::collector::WorkerStep::Notify { center: 7, slots: found }
    );
}

#[test]
fn a_notification_without_slots_is_skipped() {
    assert_eq!(
        nexus_pls::collector::step_for(CollectorMessage::NotifyUsersOf(7, vec![])),
        nexus_pls::collector::WorkerStep::Skip
    );
}

#[test]
fn stop_ends_the_loop() {
    assert_eq!(
        nexus_pls::collector::step_for(CollectorMessage::Stop),
        nexus_pls::collector::WorkerStep::End
    );
}
