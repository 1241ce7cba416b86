//! The data model: persons, timeline events, and the scored output record.
//!
//! Dates and times are carried as plain integers so that every rule about
//! them can be stated exactly: an instant is a count of seconds, and a
//! calendar day is a count of days, each from a fixed epoch shared by all
//! inputs of one pipeline run.

use vstd::prelude::*;
use vstd::string::StringExecFns;

verus! {

/// Seconds in one calendar day.
pub const SECONDS_PER_DAY: i64 = 86400;

/// A person's standing in the membership directory, ordered from least to
/// most established. Only the position of `NewMember` matters to the
/// pipeline: scoring stops once a person reaches that rank.
#[derive(Clone, Copy, PartialEq, Eq, Structural, Debug)]
pub enum PersonStatus {
    Uncontacted,
    Contacted,
    Engaged,
    Progressing,
    NewMember,
    Established,
}

impl PersonStatus {
    /// The position of this status in the ordering.
    pub open spec fn spec_rank(self) -> int {
        match self {
            PersonStatus::Uncontacted => 0,
            PersonStatus::Contacted => 1,
            PersonStatus::Engaged => 2,
            PersonStatus::Progressing => 3,
            PersonStatus::NewMember => 4,
            PersonStatus::Established => 5,
        }
    }

    /// The position of this status in the ordering.
    pub fn rank(&self) -> (r: u8)
        ensures
            r as int == self.spec_rank(),
    {
        match self {
            PersonStatus::Uncontacted => 0,
            PersonStatus::Contacted => 1,
            PersonStatus::Engaged => 2,
            PersonStatus::Progressing => 3,
            PersonStatus::NewMember => 4,
            PersonStatus::Established => 5,
        }
    }
}

/// How a referral has been followed up so far.
#[derive(Clone, Copy, PartialEq, Eq, Structural, Debug)]
pub enum ReferralStatus {
    NotAttempted,
    NotSuccessful,
    Successful,
}

impl ReferralStatus {
    /// The label carried on the output record for this status.
    pub open spec fn spec_label(self) -> Seq<char> {
        match self {
            ReferralStatus::NotAttempted => "Not Attempted"@,
            ReferralStatus::NotSuccessful => "Unsuccessful"@,
            ReferralStatus::Successful => "Successful"@,
        }
    }

    /// The label carried on the output record for this status.
    pub fn label(&self) -> (r: &'static str)
        ensures
            r@ == self.spec_label(),
    {
        match self {
            ReferralStatus::NotAttempted => "Not Attempted",
            ReferralStatus::NotSuccessful => "Unsuccessful",
            ReferralStatus::Successful => "Successful",
        }
    }
}

/// The kind of a timeline event. The pipeline reads only `Contact`,
/// `Teaching` and `NewReferral`; every other kind is carried as `Other`.
#[derive(Clone, Copy, PartialEq, Eq, Structural, Debug)]
pub enum TimelineItemType {
    Contact,
    Teaching,
    NewReferral,
    Other,
}

/// One dated interaction record on a person's timeline. `item_day` is the
/// calendar day the event occurred on; `status` is the event's success flag,
/// which may be absent.
#[derive(Clone, Copy, Debug)]
pub struct TimelineEvent {
    pub item_type: TimelineItemType,
    pub item_day: i64,
    pub status: Option<bool>,
}

/// One candidate record from the membership directory. `assigned_at` is the
/// instant, in seconds, the person was assigned.
#[derive(Debug)]
pub struct Person {
    pub guid: String,
    pub first_name: String,
    pub person_status: PersonStatus,
    pub assigned_at: i64,
    pub area_name: Option<String>,
    pub referral_status: ReferralStatus,
}

/// The scored output record built for one successfully processed person.
#[derive(Debug)]
pub struct ReferralPerson {
    pub guid: String,
    pub first_name: String,
    pub cont_time: i64,
    pub timeline: Vec<TimelineEvent>,
    pub area: String,
    pub referral_status: String,
    pub score: String,
}

/// The area label an output record carries: the person's own area, or
/// `"default_area"` where none is recorded.
pub open spec fn spec_area_label(area_name: Option<String>) -> Seq<char> {
    match area_name {
        Some(s) => s@,
        None => "default_area"@,
    }
}

impl ReferralPerson {
    /// Builds the record with an empty score; `set_score` attaches the score.
    pub fn new(
        guid: String,
        first_name: String,
        cont_time: i64,
        timeline: Vec<TimelineEvent>,
        area: String,
        referral_status: String,
    ) -> (r: ReferralPerson)
        ensures
            r.guid@ == guid@,
            r.first_name@ == first_name@,
            r.cont_time == cont_time,
            r.timeline@ == timeline@,
            r.area@ == area@,
            r.referral_status@ == referral_status@,
            r.score@ == Seq::<char>::empty(),
    {
        let score = String::new();
        ReferralPerson { guid, first_name, cont_time, timeline, area, referral_status, score }
    }

    /// Replaces the score, leaving every other field as it was.
    pub fn set_score(&mut self, score: String)
        ensures
            final(self).guid@ == old(self).guid@,
            final(self).first_name@ == old(self).first_name@,
            final(self).cont_time == old(self).cont_time,
            final(self).timeline@ == old(self).timeline@,
            final(self).area@ == old(self).area@,
            final(self).referral_status@ == old(self).referral_status@,
            final(self).score@ == score@,
    {
        self.score = score;
    }
}

/// The area label an output record carries, as executable code.
pub fn area_label(area_name: Option<String>) -> (r: String)
    ensures
        r@ == spec_area_label(area_name),
{
    match area_name {
        Some(s) => s,
        None => String::from_str("default_area"),
    }
}

} // verus!
