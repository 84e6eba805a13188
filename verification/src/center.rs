//! Centers, the slots that a query returns for them, and the texts that are
//! written about them.

use vstd::prelude::*;
use crate::calendar::{
    display_format,
    formatted_date_time,
    parsed_date_time,
    text_view,
    time_fields,
    timestamp_format,
    SlotTime,
};
use crate::markdown::{escape, escaped};

verus! {

pub type CenterId = u32;

/// A configured location that can be polled for appointment slots.
#[derive(Debug, Clone, PartialEq, Eq)]
pub struct Center {
    pub id: CenterId,
    pub short_name: String,
    pub full_name: String,
    pub address: String,
}

/// The centers of one configuration, in the order in which it lists them.
#[derive(Debug, Clone, PartialEq, Eq)]
pub struct CentersConfig {
    pub centers: Vec<Center>,
}

/// One available appointment at a center. The timestamp has the form
/// `YYYY-MM-DDTHH:MM`.
#[derive(Debug, Clone, PartialEq, Eq)]
pub struct Slot {
    pub location_id: u32,
    pub start_timestamp: String,
}

/// Where an appointment is booked.
pub open spec fn schedule_link() -> Seq<char> {
    "https://ttp.cbp.dhs.gov/schedulerui/schedule-interview/location?lang=en&vo=true&returnUrl=ttp-external&service=nh"@
}

/// The notification for a slot, in MarkdownV2: the center's full name,
/// escaped so that it shows as it is written, the slot's time as it is
/// shown, and the link for booking, on three lines.
pub open spec fn appointment_text(full_name: Seq<char>, time: Seq<char>) -> Seq<char> {
    "Appointment Avaliable for "@ + escaped(full_name) + "\n"@ + time
        + "\n[Schedule Appointment]("@ + schedule_link() + ")"@
}

/// Writes the notification for a slot at the center named `full_name`, whose
/// time is shown as `time`.
pub fn appointment_message(full_name: &str, time: &str) -> (r: String)
    ensures
        r@ == appointment_text(full_name@, time@),
{
    let name = escape(full_name);
    let mut text = String::from_str("Appointment Avaliable for ");
    text.append(name.as_str());
    text.append("\n");
    text.append(time);
    text.append("\n[Schedule Appointment](");
    text.append(
        "https://ttp.cbp.dhs.gov/schedulerui/schedule-interview/location?lang=en&vo=true&returnUrl=ttp-external&service=nh",
    );
    text.append(")");
    text
}

/// The notification that a center of the given name sends for a slot with
/// the given timestamp, or `None` where the timestamp cannot be read or the
/// time cannot be written.
pub open spec fn appointment_notice(full_name: Seq<char>, timestamp: Seq<char>) -> Option<
    Seq<char>,
> {
    match parsed_date_time(timestamp, timestamp_format()) {
        Some((year, month, day, hour, minute)) => match formatted_date_time(
            year,
            month,
            day,
            hour,
            minute,
            display_format(),
        ) {
            Some(time) => Some(appointment_text(full_name, time)),
            None => None,
        },
        None => None,
    }
}

impl Center {
    /// The center as a list shows it in MarkdownV2: the short name as code,
    /// a space, the full name.
    pub open spec fn markdown(&self) -> Seq<char> {
        "`"@ + escaped(self.short_name@) + "` "@ + escaped(self.full_name@)
    }

    /// Writes `markdown`.
    pub fn to_markdown(&self) -> (r: String)
        ensures
            r@ == self.markdown(),
    {
        let short_name = escape(self.short_name.as_str());
        let full_name = escape(self.full_name.as_str());
        let mut text = String::from_str("`");
        text.append(short_name.as_str());
        text.append("` ");
        text.append(full_name.as_str());
        text
    }

    /// The notification for a slot of this center at `time`, or `None`
    /// where the time cannot be written.
    pub fn appointment_msg_at(&self, time: &SlotTime) -> (r: Option<String>)
        ensures
            text_view(r) == match formatted_date_time(
                time.date.year,
                time.date.month,
                time.date.day,
                time.hour,
                time.minute,
                display_format(),
            ) {
                Some(shown) => Some(appointment_text(self.full_name@, shown)),
                None => None,
            },
    {
        match time.display_text() {
            Some(shown) => Some(appointment_message(self.full_name.as_str(), shown.as_str())),
            None => None,
        }
    }

    /// The notification for `slot`, or `None` where its timestamp cannot be
    /// read or its time cannot be written.
    pub fn appointment_avaliable_msg(&self, slot: &Slot) -> (r: Option<String>)
        ensures
            text_view(r) == appointment_notice(self.full_name@, slot.start_timestamp@),
    {
        match slot.start_time() {
            Some(time) => self.appointment_msg_at(&time),
            None => None,
        }
    }
}

impl Slot {
    /// The slot's time, or `None` where the timestamp cannot be read.
    pub fn start_time(&self) -> (r: Option<SlotTime>)
        ensures
            time_fields(r) == parsed_date_time(self.start_timestamp@, timestamp_format()),
    {
        SlotTime::from_timestamp(self.start_timestamp.as_str())
    }
}

/// Where the center with the id `id` stands in `centers`: the last place
/// that holds the id, or `None` where none does.
pub open spec fn center_index(centers: Seq<Center>, id: CenterId) -> Option<int>
    decreases centers.len(),
{
    if centers.len() == 0 {
        None
    } else if centers.last().id == id {
        Some(centers.len() - 1)
    } else {
        center_index(centers.drop_last(), id)
    }
}

/// What `center_index` finds holds the id, and no later place does; where it
/// finds nothing, no place holds the id.
pub proof fn center_index_is_last(centers: Seq<Center>, id: CenterId)
    ensures
        match center_index(centers, id) {
            Some(i) => {
                &&& 0 <= i < centers.len()
                &&& centers[i].id == id
                &&& forall|j: int| i < j < centers.len() ==> centers[j].id != id
            },
            None => forall|j: int| 0 <= j < centers.len() ==> centers[j].id != id,
        },
    decreases centers.len(),
{
    if centers.len() > 0 && centers.last().id != id {
        let front = centers.drop_last();
        center_index_is_last(front, id);
        match center_index(front, id) {
            Some(i) => {
                assert forall|j: int| i < j < centers.len() implies centers[j].id != id by {
                    if j < front.len() {
                        assert(front[j].id != id);
                    }
                }
            },
            None => {
                assert forall|j: int| 0 <= j < centers.len() implies centers[j].id != id by {
                    if j < front.len() {
                        assert(front[j].id != id);
                    }
                }
            },
        }
    }
}

impl CentersConfig {
    /// Where the center with the id `id` stands: the last place that holds
    /// the id.
    pub fn find(&self, id: CenterId) -> (r: Option<usize>)
        ensures
            match r {
                Some(i) => center_index(self.centers@, id) == Some(i as int) && i
                    < self.centers.len(),
                None => center_index(self.centers@, id) is None,
            },
    {
        let mut i: usize = self.centers.len();
        assert(self.centers@.take(i as int) =~= self.centers@);
        while i > 0
            invariant
                i <= self.centers.len(),
                center_index(self.centers@, id) == center_index(self.centers@.take(i as int), id),
            decreases i,
        {
            if self.centers[i - 1].id == id {
                proof {
                    center_index_is_last(self.centers@.take(i as int), id);
                }
                return Some(i - 1);
            }
            proof {
                assert(self.centers@.take(i as int).drop_last() =~= self.centers@.take(i - 1));
            }
            i = i - 1;
        }
        None
    }

    /// The center with the id `id`.
    pub fn lookup(&self, id: CenterId) -> (r: Option<&Center>)
        ensures
            match r {
                Some(center) => center_index(self.centers@, id) matches Some(i) && *center
                    == self.centers@[i],
                None => center_index(self.centers@, id) is None,
            },
    {
        match self.find(id) {
            Some(i) => {
                proof {
                    center_index_is_last(self.centers@, id);
                }
                Some(&self.centers[i])
            },
            None => None,
        }
    }
}

} // verus!
