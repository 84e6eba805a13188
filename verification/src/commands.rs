//! What the bot answers to a subscriber's command.
//!
//! A command is answered in up to two steps. `request_for` says what a
//! command asks for: an answer at once, or work on the subscriber cache.
//! Once the cache has done that work, `track_reply`, `untrack_reply` and
//! `status` write the answer.

use vstd::prelude::*;
use crate::center::{center_index, Center, CentersConfig};
use crate::lines::{join_lines, joined, sort_lines, sorted, texts};
use crate::tracking::{Record, UserData, UserId};

verus! {

/// A command of a subscriber.
#[derive(Debug, Clone, PartialEq, Eq)]
pub enum Command {
    /// Show the commands.
    Help,
    /// List the centers that can be tracked.
    List,
    /// Track the center with the given short name.
    Track(String),
    /// Stop tracking the center with the given short name.
    UnTrack(String),
    /// List the centers that the subscriber tracks.
    Status,
}

/// An answer to a chat.
#[derive(Debug, Clone, PartialEq, Eq)]
pub struct Reply {
    pub text: String,
    /// Whether the text is MarkdownV2; plain text else.
    pub markdown: bool,
}

/// What a command asks for.
#[derive(Debug, Clone, PartialEq, Eq)]
pub enum Step {
    /// Answer with the description of the commands.
    Describe,
    /// Answer at once.
    Answer(Reply),
    /// Track the center that stands at `center` in the configuration.
    Track { user: UserId, center: usize },
    /// Stop tracking the center that stands at `center`.
    UnTrack { user: UserId, center: usize },
    /// Look up the subscriber's record and answer with `status`.
    Status { user: UserId },
}

/// The mathematical value of a `Step`.
pub enum Plan {
    Describe,
    Answer { text: Seq<char>, markdown: bool },
    Track { user: UserId, center: int },
    UnTrack { user: UserId, center: int },
    Status { user: UserId },
}

impl View for Step {
    type V = Plan;

    open spec fn view(&self) -> Plan {
        match *self {
            Step::Describe => Plan::Describe,
            Step::Answer(reply) => Plan::Answer { text: reply.text@, markdown: reply.markdown },
            Step::Track { user, center } => Plan::Track { user, center: center as int },
            Step::UnTrack { user, center } => Plan::UnTrack { user, center: center as int },
            Step::Status { user } => Plan::Status { user },
        }
    }
}

/// The first place from `from` on whose center has the short name `name`.
pub open spec fn named_from(centers: Seq<Center>, name: Seq<char>, from: int) -> Option<int>
    decreases centers.len() - from,
{
    if from < 0 || from >= centers.len() {
        None
    } else if centers[from].short_name@ == name {
        Some(from)
    } else {
        named_from(centers, name, from + 1)
    }
}

/// What `named_from` finds has the name, and no place between `from` and it
/// has; where it finds nothing, no place from `from` on has the name.
pub proof fn named_from_is_first(centers: Seq<Center>, name: Seq<char>, from: int)
    requires
        0 <= from,
    ensures
        match named_from(centers, name, from) {
            Some(at) => {
                &&& from <= at < centers.len()
                &&& centers[at].short_name@ == name
                &&& forall|i: int| from <= i < at ==> centers[i].short_name@ != name
            },
            None => forall|i: int| from <= i < centers.len() ==> centers[i].short_name@ != name,
        },
    decreases centers.len() - from,
{
    if from < centers.len() && centers[from].short_name@ != name {
        named_from_is_first(centers, name, from + 1);
    }
}

/// The centers as a list shows them, in the order of the configuration.
pub open spec fn listing(centers: Seq<Center>) -> Seq<Seq<char>> {
    Seq::new(centers.len(), |i: int| centers[i].markdown())
}

/// The centers among `subscriptions` that the configuration knows, as a
/// list shows them, in the order of the subscriptions.
pub open spec fn tracked_listing(subscriptions: Seq<u32>, centers: Seq<Center>) -> Seq<Seq<char>>
    decreases subscriptions.len(),
{
    if subscriptions.len() == 0 {
        Seq::empty()
    } else {
        let earlier = tracked_listing(subscriptions.drop_last(), centers);
        match center_index(centers, subscriptions.last()) {
            Some(at) => earlier.push(centers[at].markdown()),
            None => earlier,
        }
    }
}

/// The answer to `List`: the centers, sorted, one on a line.
pub open spec fn list_text(centers: Seq<Center>) -> Seq<char> {
    joined(sorted(listing(centers)))
}

/// The answer to `Status`: a heading, then the tracked centers that the
/// configuration knows, sorted, one on a line; `None` where there is none.
pub open spec fn status_text(record: Option<Record>, centers: Seq<Center>) -> Seq<char> {
    let lines = match record {
        Some(r) => sorted(tracked_listing(r.subscriptions, centers)),
        None => Seq::empty(),
    };
    "Your Tracked Centers\n"@ + joined(
        if lines.len() == 0 {
            seq!["None"@]
        } else {
            lines
        },
    )
}

/// What a command asks for, given who sent it.
///
/// A center is looked for by its short name before the sender is asked
/// for: a name that no center has is answered with `Could not find center`
/// also where the sender is unknown.
pub open spec fn request(command: Command, sender: Option<UserId>, centers: Seq<Center>) -> Plan {
    match command {
        Command::Help => Plan::Describe,
        Command::List => Plan::Answer { text: list_text(centers), markdown: true },
        Command::Track(name) => match named_from(centers, name@, 0) {
            None => Plan::Answer { text: "Could not find center"@, markdown: false },
            Some(at) => match sender {
                None => Plan::Answer {
                    text: "Could not understand who sent this?"@,
                    markdown: false,
                },
                Some(user) => Plan::Track { user, center: at },
            },
        },
        Command::UnTrack(name) => match named_from(centers, name@, 0) {
            None => Plan::Answer { text: "Could not find center"@, markdown: false },
            Some(at) => match sender {
                None => Plan::Answer {
                    text: "Could not understand who sent this?"@,
                    markdown: false,
                },
                Some(user) => Plan::UnTrack { user, center: at },
            },
        },
        Command::Status => match sender {
            None => Plan::Answer { text: "Could not understand who sent this?"@, markdown: false },
            Some(user) => Plan::Status { user },
        },
    }
}

fn plain(text: &str) -> (r: Step)
    ensures
        r@ == (Plan::Answer { text: text@, markdown: false }),
{
    Step::Answer(Reply { text: String::from_str(text), markdown: false })
}

impl CentersConfig {
    /// Where the first center with the short name `name` stands.
    pub fn find_by_short_name(&self, name: &String) -> (r: Option<usize>)
        ensures
            match r {
                Some(at) => named_from(self.centers@, name@, 0) == Some(at as int) && at
                    < self.centers.len(),
                None => named_from(self.centers@, name@, 0) is None,
            },
    {
        let mut i: usize = 0;
        while i < self.centers.len()
            invariant
                i <= self.centers.len(),
                named_from(self.centers@, name@, 0) == named_from(self.centers@, name@, i as int),
            decreases self.centers.len() - i,
        {
            if self.centers[i].short_name == *name {
                return Some(i);
            }
            i = i + 1;
        }
        None
    }

    /// The answer to `List`.
    pub fn center_list(&self) -> (r: String)
        ensures
            r@ == list_text(self.centers@),
    {
        let mut lines: Vec<String> = Vec::new();
        let mut i: usize = 0;
        while i < self.centers.len()
            invariant
                i <= self.centers.len(),
                texts(lines@) =~= listing(self.centers@).take(i as int),
            decreases self.centers.len() - i,
        {
            let ghost before = texts(lines@);
            lines.push(self.centers[i].to_markdown());
            proof {
                let all = listing(self.centers@);
                assert(texts(lines@) =~= before.push(all[i as int]));
                assert(all.take(i + 1) =~= all.take(i as int).push(all[i as int]));
            }
            i = i + 1;
        }
        assert(listing(self.centers@).take(i as int) =~= listing(self.centers@));
        let ordered = sort_lines(&lines);
        join_lines(&ordered)
    }

    /// The tracked centers of `subscriptions` that this configuration knows,
    /// as a list shows them.
    pub fn tracked_centers(&self, subscriptions: &Vec<u32>) -> (r: Vec<String>)
        ensures
            texts(r@) == tracked_listing(subscriptions@, self.centers@),
    {
        let mut lines: Vec<String> = Vec::new();
        let mut i: usize = 0;
        assert(texts(lines@) =~= tracked_listing(subscriptions@.take(0), self.centers@));
        while i < subscriptions.len()
            invariant
                i <= subscriptions.len(),
                texts(lines@) == tracked_listing(subscriptions@.take(i as int), self.centers@),
            decreases subscriptions.len() - i,
        {
            let ghost before = texts(lines@);
            proof {
                assert(subscriptions@.take(i + 1).drop_last() =~= subscriptions@.take(i as int));
                assert(subscriptions@.take(i + 1).last() == subscriptions@[i as int]);
            }
            match self.lookup(subscriptions[i]) {
                Some(center) => {
                    lines.push(center.to_markdown());
                    assert(texts(lines@) =~= before.push(center.markdown()));
                },
                None => {},
            }
            i = i + 1;
        }
        assert(subscriptions@.take(i as int) =~= subscriptions@);
        lines
    }

    /// The answer to `Status` for a subscriber whose record, if it has one,
    /// is `record`.
    pub fn status(&self, record: Option<&UserData>) -> (r: Reply)
        ensures
            r.markdown,
            r.text@ == status_text(
                match record {
                    Some(d) => Some(d@),
                    None => None,
                },
                self.centers@,
            ),
    {
        let mut lines = match record {
            Some(user_data) => sort_lines(&self.tracked_centers(&user_data.subscriptions)),
            None => Vec::new(),
        };
        assert(record is None ==> texts(lines@) =~= Seq::<Seq<char>>::empty());
        if lines.len() == 0 {
            lines.push(String::from_str("None"));
            assert(texts(lines@) =~= seq!["None"@]);
        }
        let mut text = String::from_str("Your Tracked Centers\n");
        let list = join_lines(&lines);
        text.append(list.as_str());
        Reply { text, markdown: true }
    }

    /// What `command` asks for, given who sent it.
    pub fn request_for(&self, command: &Command, sender: Option<UserId>) -> (r: Step)
        ensures
            r@ == request(*command, sender, self.centers@),
    {
        match command {
            Command::Help => Step::Describe,
            Command::List => Step::Answer(Reply { text: self.center_list(), markdown: true }),
            Command::Track(name) => match self.find_by_short_name(name) {
                None => plain("Could not find center"),
                Some(center) => match sender {
                    None => plain("Could not understand who sent this?"),
                    Some(user) => Step::Track { user, center },
                },
            },
            Command::UnTrack(name) => match self.find_by_short_name(name) {
                None => plain("Could not find center"),
                Some(center) => match sender {
                    None => plain("Could not understand who sent this?"),
                    Some(user) => Step::UnTrack { user, center },
                },
            },
            Command::Status => match sender {
                None => plain("Could not understand who sent this?"),
                Some(user) => Step::Status { user },
            },
        }
    }
}

impl Center {
    /// The answer once this center was tracked, or once that failed with
    /// the sentence `failure`.
    pub fn track_reply(&self, failure: Option<String>) -> (r: Reply)
        ensures
            !r.markdown,
            r.text@ == match failure {
                Some(sentence) => sentence@,
                None => "Now tracking "@ + self.full_name@ + " on your behalf"@,
            },
    {
        match failure {
            Some(text) => Reply { text, markdown: false },
            None => {
                let mut text = String::from_str("Now tracking ");
                text.append(self.full_name.as_str());
                text.append(" on your behalf");
                Reply { text, markdown: false }
            },
        }
    }

    /// The answer once this center was untracked, or once that failed with
    /// the sentence `failure`.
    pub fn untrack_reply(&self, failure: Option<String>) -> (r: Reply)
        ensures
            !r.markdown,
            r.text@ == match failure {
                Some(sentence) => sentence@,
                None => "Stopped tracking "@ + self.full_name@ + " on your behalf"@,
            },
    {
        match failure {
            Some(text) => Reply { text, markdown: false },
            None => {
                let mut text = String::from_str("Stopped tracking ");
                text.append(self.full_name.as_str());
                text.append(" on your behalf");
                Reply { text, markdown: false }
            },
        }
    }
}

} // verus!
