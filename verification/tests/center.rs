use nexus_pls::calendar::{Date, EligibilityWindow, SlotTime};
use nexus_pls::center::{appointment_message, Center, CentersConfig, Slot};

fn center(id: u32, short_name: &str, full_name: &str) -> Center {
    Center {
        id,
        short_name: short_name.to_string(),
        full_name: full_name.to_string(),
        address: String::new(),
    }
}

#[test]
fn a_timestamp_is_read_to_the_minute() {
    assert_eq!(
        SlotTime::from_timestamp("2023-01-15T09:30"),
        Some(SlotTime { date: Date { year: 2023, month: 1, day: 15 }, hour: 9, minute: 30 })
    );
    assert_eq!(
        Slot { location_id: 7, start_timestamp: "2024-02-29T23:59".to_string() }.start_time(),
        Some(SlotTime { date: Date { year: 2024, month: 2, day: 29 }, hour: 23, minute: 59 })
    );
}

#[test]
fn a_text_that_is_no_timestamp_is_not_read() {
    assert_eq!(SlotTime::from_timestamp(""), None);
    assert_eq!(SlotTime::from_timestamp("tomorrow"), None);
    assert_eq!(SlotTime::from_timestamp("2023-02-30T09:30"), None);
    assert_eq!(SlotTime::from_timestamp("2023-01-15T24:00"), None);
    assert_eq!(SlotTime::from_timestamp("2023-01-15"), None);
}

#[test]
fn a_time_is_shown_on_the_twelve_hour_clock() {
    let at = |day, hour, minute| SlotTime { date: Date { year: 2023, month: 1, day }, hour, minute };
    assert_eq!(at(15, 9, 30).display_text(), Some(" 9:30 AM on Sunday January 15".to_string()));
    assert_eq!(at(2, 0, 5).display_text(), Some("12:05 AM on Monday January 2".to_string()));
    assert_eq!(at(31, 12, 0).display_text(), Some("12:00 PM on Tuesday January 31".to_string()));
    assert_eq!(at(7, 23, 59).display_text(), Some("11:59 PM on Saturday January 7".to_string()));
}

#[test]
fn a_time_that_does_not_exist_is_not_shown() {
    let at = SlotTime { date: Date { year: 2023, month: 2, day: 30 }, hour: 9, minute: 30 };
    assert_eq!(at.display_text(), None);
    let at = SlotTime { date: Date { year: 2023, month: 1, day: 15 }, hour: 24, minute: 0 };
    assert_eq!(at.display_text(), None);
}

#[test]
fn the_notification_names_center_time_and_link() {
    assert_eq!(
        appointment_message("Blaine", " 9:30 AM on Sunday January 15"),
        "Appointment Avaliable for Blaine\n 9:30 AM on Sunday January 15\n[Schedule Appointment](https://ttp.cbp.dhs.gov/schedulerui/schedule-interview/location?lang=en&vo=true&returnUrl=ttp-external&service=nh)"
    );
}

#[test]
fn a_center_writes_the_notification_for_its_slot() {
    let blaine = center(7, "blaine", "Blaine");
    let found = Slot { location_id: 7, start_timestamp: "2023-01-15T09:30".to_string() };
    assert_eq!(
        blaine.appointment_avaliable_msg(&found),
        Some(appointment_message("Blaine", " 9:30 AM on Sunday January 15"))
    );
    let broken = Slot { location_id: 7, start_timestamp: "soon".to_string() };
    assert_eq!(blaine.appointment_avaliable_msg(&broken), None);
}

#[test]
fn a_center_is_listed_with_its_markup_escaped() {
    assert_eq!(center(7, "blaine", "Blaine").to_markdown(), "`blaine` Blaine");
    assert_eq!(
        center(8, "a-1", "St. John's (A_1)!").to_markdown(),
        "`a\\-1` St\\. John's \\(A\\_1\\)\\!"
    );
    assert_eq!(
        center(9, "_*[]()~`>#+-=|{}.!", "a\\b").to_markdown(),
        "`\\_\\*\\[\\]\\(\\)\\~\\`\\>\\#\\+\\-\\=\\|\\{\\}\\.\\!` a\\b"
    );
}

#[test]
fn a_center_is_found_by_its_id() {
    let config = CentersConfig {
        centers: vec![center(7, "a", "A"), center(8, "b", "B"), center(7, "c", "C")],
    };
    assert_eq!(config.find(8), Some(1));
    assert_eq!(config.find(7), Some(2));
    assert_eq!(config.find(9), None);
    assert_eq!(config.lookup(7), Some(&center(7, "c", "C")));
    assert_eq!(config.lookup(9), None);
    assert_eq!(CentersConfig { centers: vec![] }.find(7), None);
}

#[test]
fn days_are_ordered_by_year_month_and_day() {
    let day = |year, month, day| Date { year, month, day };
    assert!(day(2023, 1, 1).is_not_after(&day(2023, 1, 1)));
    assert!(day(2022, 12, 31).is_not_after(&day(2023, 1, 1)));
    assert!(!day(2023, 1, 2).is_not_after(&day(2023, 1, 1)));
    assert!(day(2023, 1, 31).is_not_after(&day(2023, 2, 1)));
    assert!(!day(2023, 2, 1).is_not_after(&day(2023, 1, 31)));
    assert!(day(-1, 12, 31).is_not_after(&day(0, 1, 1)));
    let window = EligibilityWindow { arrival: day(2023, 1, 1), leave: day(2023, 2, 1) };
    assert!(window.contains(&day(2023, 1, 1)));
    assert!(window.contains(&day(2023, 2, 1)));
    assert!(!window.contains(&day(2023, 2, 2)));
    assert!(!window.contains(&day(2022, 12, 31)));
}

#[test]
fn the_notification_escapes_the_center_s_name() {
    assert_eq!(
        appointment_message("St. Mary (North)", " 9:30 AM on Sunday January 15"),
        "Appointment Avaliable for St\\. Mary \\(North\\)\n 9:30 AM on Sunday January 15\n[Schedule Appointment](https://ttp.cbp.dhs.gov/schedulerui/schedule-interview/location?lang=en&vo=true&returnUrl=ttp-external&service=nh)"
    );
    let mary = center(12, "mary", "St. Mary (North)");
    let found = Slot { location_id: 12, start_timestamp: "2023-01-15T09:30".to_string() };
    assert_eq!(
        mary.appointment_avaliable_msg(&found),
        Some(
            "Appointment Avaliable for St\\. Mary \\(North\\)\n 9:30 AM on Sunday January 15\n[Schedule Appointment](https://ttp.cbp.dhs.gov/schedulerui/schedule-interview/location?lang=en&vo=true&returnUrl=ttp-external&service=nh)"
                .to_string()
        )
    );
}
