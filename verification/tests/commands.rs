use nexus_pls::center::{Center, CentersConfig};
use nexus_pls::commands::{Command, Reply, Step};
use nexus_pls::lines::{join_lines, sort_lines};
use nexus_pls::tracking::UserData;

fn center(id: u32, short_name: &str, full_name: &str) -> Center {
    Center {
        id,
        short_name: short_name.to_string(),
        full_name: full_name.to_string(),
        address: String::new(),
    }
}

fn config() -> CentersConfig {
    CentersConfig {
        centers: vec![
            center(8, "niagara", "Niagara Falls"),
            center(7, "blaine", "Blaine (WA)"),
            center(9, "blaine", "Blaine Annex"),
            center(10, "Calais", "Calais"),
        ],
    }
}

fn plain(text: &str) -> Step {
    Step::Answer(Reply { text: text.to_string(), markdown: false })
}

fn strings(lines: &[&str]) -> Vec<String> {
    lines.iter().map(|line| line.to_string()).collect()
}

#[test]
fn help_asks_for_the_description() {
    assert_eq!(config().request_for(&Command::Help, None), Step::Describe);
    assert_eq!(config().request_for(&Command::Help, Some(42)), Step::Describe);
}

#[test]
fn list_shows_the_centers_sorted() {
    let expected = "`Calais` Calais\n`blaine` Blaine Annex\n`blaine` Blaine \\(WA\\)\n`niagara` Niagara Falls";
    assert_eq!(
        config().request_for(&Command::List, None),
        Step::Answer(Reply { text: expected.to_string(), markdown: true })
    );
    assert_eq!(config().center_list(), expected);
    assert_eq!(CentersConfig { centers: vec![] }.center_list(), "");
}

#[test]
fn a_name_that_no_center_has_is_not_found() {
    let unknown = Command::Track("nowhere".to_string());
    assert_eq!(config().request_for(&unknown, Some(42)), plain("Could not find center"));
    assert_eq!(config().request_for(&unknown, None), plain("Could not find center"));
    let unknown = Command::UnTrack("Blaine".to_string());
    assert_eq!(config().request_for(&unknown, Some(42)), plain("Could not find center"));
}

#[test]
fn an_unknown_sender_cannot_track() {
    let expected = plain("Could not understand who sent this?");
    assert_eq!(config().request_for(&Command::Track("niagara".to_string()), None), expected);
    assert_eq!(config().request_for(&Command::UnTrack("niagara".to_string()), None), expected);
    assert_eq!(config().request_for(&Command::Status, None), expected);
}

#[test]
fn a_center_is_tracked_by_its_short_name() {
    assert_eq!(
        config().request_for(&Command::Track("niagara".to_string()), Some(42)),
        Step::Track { user: 42, center: 0 }
    );
    assert_eq!(
        config().request_for(&Command::Track("blaine".to_string()), Some(42)),
        Step::Track { user: 42, center: 1 }
    );
    assert_eq!(
        config().request_for(&Command::UnTrack("Calais".to_string()), Some(43)),
        Step::UnTrack { user: 43, center: 3 }
    );
    assert_eq!(config().find_by_short_name(&"blaine".to_string()), Some(1));
    assert_eq!(config().find_by_short_name(&"calais".to_string()), None);
}

#[test]
fn status_asks_for_the_sender_s_record() {
    assert_eq!(config().request_for(&Command::Status, Some(42)), Step::Status { user: 42 });
}

#[test]
fn the_answer_to_a_track_request_names_the_center() {
    let blaine = center(7, "blaine", "Blaine (WA)");
    assert_eq!(
        blaine.track_reply(None),
        Reply { text: "Now tracking Blaine (WA) on your behalf".to_string(), markdown: false }
    );
    assert_eq!(
        blaine.track_reply(Some("You are already tracking this center.".to_string())),
        Reply { text: "You are already tracking this center.".to_string(), markdown: false }
    );
    assert_eq!(
        blaine.untrack_reply(None),
        Reply { text: "Stopped tracking Blaine (WA) on your behalf".to_string(), markdown: false }
    );
    assert_eq!(
        blaine.untrack_reply(Some("You are not tracking this center!".to_string())),
        Reply { text: "You are not tracking this center!".to_string(), markdown: false }
    );
}

#[test]
fn status_lists_the_known_tracked_centers_sorted() {
    let record = UserData::from((vec![8, 99, 10, 7], 555));
    assert_eq!(
        config().status(Some(&record)),
        Reply {
            text: "Your Tracked Centers\n`Calais` Calais\n`blaine` Blaine \\(WA\\)\n`niagara` Niagara Falls"
                .to_string(),
            markdown: true,
        }
    );
}

#[test]
fn status_without_tracked_centers_says_none() {
    let expected = Reply { text: "Your Tracked Centers\nNone".to_string(), markdown: true };
    assert_eq!(config().status(None), expected);
    assert_eq!(config().status(Some(&UserData::from((vec![], 555)))), expected);
    assert_eq!(config().status(Some(&UserData::from((vec![99], 555)))), expected);
}

#[test]
fn tracked_centers_keep_the_order_of_the_subscriptions() {
    assert_eq!(
        config().tracked_centers(&vec![8, 99, 7, 8]),
        strings(&["`niagara` Niagara Falls", "`blaine` Blaine \\(WA\\)", "`niagara` Niagara Falls"])
    );
}

#[test]
fn lines_are_sorted_by_code_points() {
    assert_eq!(
        sort_lines(&strings(&["b", "a", "B", "ab", "a", "", "é", "z", "aa"])),
        strings(&["", "B", "a", "a", "aa", "ab", "b", "z", "é"])
    );
    assert_eq!(sort_lines(&vec![]), Vec::<String>::new());
}

#[test]
fn lines_are_joined_with_line_feeds() {
    assert_eq!(join_lines(&vec![]), "");
    assert_eq!(join_lines(&strings(&["a"])), "a");
    assert_eq!(join_lines(&strings(&["a", "", "b"])), "a\n\nb");
}
