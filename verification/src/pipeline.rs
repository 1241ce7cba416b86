//! Candidate selection, the event filter, and the per-person scorer.
//!
//! The coordinator hands each eligible person to the per-person scorer
//! together with whatever the remote directory returned for that person;
//! everything here is a function of those plain values, so the whole
//! per-person decision is checked for every possible fetch outcome.

use vstd::prelude::*;
use vstd::string::StringExecFns;
use crate::persons::{Person, PersonStatus, ReferralPerson, TimelineEvent, TimelineItemType,
    SECONDS_PER_DAY, area_label, spec_area_label};
use crate::scoring::{spec_score_string, spec_walk, score_string, score_walk};

verus! {

/// The eligibility window after assignment, in seconds.
pub const ELIGIBILITY_WINDOW_SECONDS: i64 = 8 * SECONDS_PER_DAY;

/// A person is eligible while still short of `NewMember` rank and assigned
/// less than eight days before the pipeline's shared "now" snapshot.
pub open spec fn spec_is_eligible(p: Person, now: int) -> bool {
    &&& p.person_status.spec_rank() < PersonStatus::NewMember.spec_rank()
    &&& now - p.assigned_at < ELIGIBILITY_WINDOW_SECONDS as int
}

/// The eligible subsequence of a candidate listing, in listing order.
pub open spec fn spec_candidates(persons: Seq<Person>, now: int) -> Seq<Person> {
    persons.filter(|p: Person| spec_is_eligible(p, now))
}

/// Decides one person's eligibility against the shared "now" snapshot.
pub fn is_eligible(p: &Person, now: i64) -> (r: bool)
    ensures
        r == spec_is_eligible(*p, now as int),
{
    let rank = p.person_status.rank();
    let new_member_rank = PersonStatus::NewMember.rank();
    let fresh = (now as i128) - (p.assigned_at as i128) < ELIGIBILITY_WINDOW_SECONDS as i128;
    rank < new_member_rank && fresh
}

/// Keeps the eligible persons of a listing, in listing order.
pub fn select_candidates(persons: Vec<Person>, now: i64) -> (r: Vec<Person>)
    ensures
        r@ == spec_candidates(persons@, now as int),
{
    let ghost orig = persons@;
    let mut rest = persons;
    let mut r: Vec<Person> = Vec::new();
    while rest.len() > 0
        invariant
            rest@.len() <= orig.len(),
            rest@ == orig.subrange(orig.len() - rest@.len(), orig.len() as int),
            r@ == spec_candidates(orig.subrange(0, orig.len() - rest@.len()), now as int),
        decreases rest@.len(),
    {
        let ghost k = orig.len() - rest@.len();
        let p = rest.remove(0);
        proof {
            assert(p == orig[k as int]);
            assert(rest@ =~= orig.subrange(k as int + 1, orig.len() as int));
        }
        let keep = is_eligible(&p, now);
        if keep {
            r.push(p);
        }
        proof {
            reveal(Seq::filter);
            let pred = |q: Person| spec_is_eligible(q, now as int);
            let s1 = orig.subrange(0, k as int + 1);
            assert(s1.drop_last() =~= orig.subrange(0, k as int));
            assert(s1.last() == orig[k as int]);
            assert(r@ =~= s1.filter(pred));
        }
    }
    proof {
        assert(orig.subrange(0, orig.len() as int) =~= orig);
    }
    r
}

/// An ineligible person is never among the selected candidates: everyone
/// selected is short of `NewMember` rank and assigned less than eight days
/// before the shared "now" snapshot.
pub proof fn lemma_ineligible_never_selected(persons: Seq<Person>, now: int)
    ensures
        forall|i: int|
            0 <= i < spec_candidates(persons, now).len() ==> {
                let p = #[trigger] spec_candidates(persons, now)[i];
                &&& p.person_status.spec_rank() < PersonStatus::NewMember.spec_rank()
                &&& now - p.assigned_at < ELIGIBILITY_WINDOW_SECONDS as int
            },
{
    let pred = |p: Person| spec_is_eligible(p, now);
    assert forall|i: int| 0 <= i < spec_candidates(persons, now).len() implies {
        let p = #[trigger] spec_candidates(persons, now)[i];
        &&& p.person_status.spec_rank() < PersonStatus::NewMember.spec_rank()
        &&& now - p.assigned_at < ELIGIBILITY_WINDOW_SECONDS as int
    } by {
        persons.lemma_filter_pred(pred, i);
    }
}

/// An event the scorer keeps: a contact, teaching or referral event, where a
/// contact or teaching event must carry a success flag to be kept.
pub open spec fn spec_retained(e: TimelineEvent) -> bool {
    &&& (e.item_type == TimelineItemType::Contact || e.item_type == TimelineItemType::Teaching
        || e.item_type == TimelineItemType::NewReferral)
    &&& (e.item_type == TimelineItemType::NewReferral || e.status is Some)
}

/// The retained subsequence of a raw timeline, in timeline order.
pub open spec fn spec_filter_timeline(events: Seq<TimelineEvent>) -> Seq<TimelineEvent> {
    events.filter(|e: TimelineEvent| spec_retained(e))
}

/// Reduces a raw timeline to the events the scorer reads, keeping their
/// order.
pub fn filter_timeline(events: &Vec<TimelineEvent>) -> (r: Vec<TimelineEvent>)
    ensures
        r@ == spec_filter_timeline(events@),
{
    let mut r: Vec<TimelineEvent> = Vec::new();
    let mut i: usize = 0;
    while i < events.len()
        invariant
            i <= events@.len(),
            r@ == spec_filter_timeline(events@.subrange(0, i as int)),
        decreases events@.len() - i,
    {
        let e = events[i];
        let keep = match e.item_type {
            TimelineItemType::Contact => e.status.is_some(),
            TimelineItemType::Teaching => e.status.is_some(),
            TimelineItemType::NewReferral => true,
            TimelineItemType::Other => false,
        };
        if keep {
            r.push(e);
        }
        proof {
            reveal(Seq::filter);
            let pred = |q: TimelineEvent| spec_retained(q);
            let s1 = events@.subrange(0, i as int + 1);
            assert(s1.drop_last() =~= events@.subrange(0, i as int));
            assert(s1.last() == events@[i as int]);
            assert(r@ =~= s1.filter(pred));
        }
        i = i + 1;
    }
    proof {
        assert(events@.subrange(0, events@.len() as int) =~= events@);
    }
    r
}

/// What the event filter promises: the filtered timeline is no longer than
/// the raw one; every retained event is one of the raw events, is of a
/// tracked kind, and, unless it is a referral event, carries a success flag;
/// and every referral event of the raw timeline is retained.
pub proof fn lemma_filter_timeline_sound(events: Seq<TimelineEvent>)
    ensures
        spec_filter_timeline(events).len() <= events.len(),
        forall|i: int|
            0 <= i < spec_filter_timeline(events).len() ==> {
                let e = #[trigger] spec_filter_timeline(events)[i];
                &&& events.contains(e)
                &&& (e.item_type == TimelineItemType::Contact
                    || e.item_type == TimelineItemType::Teaching
                    || e.item_type == TimelineItemType::NewReferral)
                &&& (e.item_type == TimelineItemType::NewReferral || e.status is Some)
            },
        forall|i: int|
            0 <= i < events.len() && (#[trigger] events[i]).item_type
                == TimelineItemType::NewReferral ==> spec_filter_timeline(events).contains(
                events[i],
            ),
{
    let pred = |q: TimelineEvent| spec_retained(q);
    events.lemma_filter_len(pred);
    assert forall|i: int| 0 <= i < spec_filter_timeline(events).len() implies {
        let e = #[trigger] spec_filter_timeline(events)[i];
        &&& events.contains(e)
        &&& (e.item_type == TimelineItemType::Contact || e.item_type == TimelineItemType::Teaching
            || e.item_type == TimelineItemType::NewReferral)
        &&& (e.item_type == TimelineItemType::NewReferral || e.status is Some)
    } by {
        events.lemma_filter_pred(pred, i);
        let e = spec_filter_timeline(events)[i];
        assert(spec_filter_timeline(events).contains(e)) by {
            assert(spec_filter_timeline(events)[i] == e);
        }
        events.lemma_filter_contains_rev(pred, e);
    }
    assert forall|i: int|
        0 <= i < events.len() && (#[trigger] events[i]).item_type
            == TimelineItemType::NewReferral implies spec_filter_timeline(events).contains(
        events[i],
    ) by {
        events.lemma_filter_contains(pred, i);
    }
}

/// The timeline holds at least one referral event.
pub open spec fn spec_has_referral(s: Seq<TimelineEvent>) -> bool {
    exists|j: int| 0 <= j < s.len() && (#[trigger] s[j]).item_type == TimelineItemType::NewReferral
}

/// The day of the most recent referral event of `s`; meaningful only where
/// `spec_has_referral(s)` holds.
pub open spec fn spec_latest_referral_day(s: Seq<TimelineEvent>) -> int
    decreases s.len(),
{
    if s.len() == 0 {
        0
    } else {
        let prefix = s.drop_last();
        let e = s.last();
        if e.item_type == TimelineItemType::NewReferral {
            if spec_has_referral(prefix) && spec_latest_referral_day(prefix) >= e.item_day as int {
                spec_latest_referral_day(prefix)
            } else {
                e.item_day as int
            }
        } else {
            spec_latest_referral_day(prefix)
        }
    }
}

/// The scorer anchors the walk at the referral event with the greatest day:
/// `spec_latest_referral_day` is the day of some referral event, and no
/// referral event falls on a later day.
pub proof fn lemma_latest_referral_day_is_max(s: Seq<TimelineEvent>)
    requires
        spec_has_referral(s),
    ensures
        exists|j: int|
            0 <= j < s.len() && (#[trigger] s[j]).item_type == TimelineItemType::NewReferral
                && s[j].item_day as int == spec_latest_referral_day(s),
        forall|j: int|
            0 <= j < s.len() && (#[trigger] s[j]).item_type == TimelineItemType::NewReferral
                ==> s[j].item_day as int <= spec_latest_referral_day(s),
    decreases s.len(),
{
    let prefix = s.drop_last();
    let e = s.last();
    let n = s.len() as int - 1;
    let el = spec_latest_referral_day(s);
    if e.item_type == TimelineItemType::NewReferral {
        assert(s[n].item_type == TimelineItemType::NewReferral);
        if spec_has_referral(prefix) {
            lemma_latest_referral_day_is_max(prefix);
            let w = choose|j: int|
                0 <= j < prefix.len() && (#[trigger] prefix[j]).item_type
                    == TimelineItemType::NewReferral && prefix[j].item_day as int
                    == spec_latest_referral_day(prefix);
            assert(s[w].item_type == TimelineItemType::NewReferral && s[w].item_day
                == prefix[w].item_day);
            assert forall|j: int|
                0 <= j < s.len() && (#[trigger] s[j]).item_type == TimelineItemType::NewReferral
                    implies s[j].item_day as int <= el by {
                if j < n {
                    assert(prefix[j] == s[j]);
                }
            }
        } else {
            assert forall|j: int|
                0 <= j < s.len() && (#[trigger] s[j]).item_type == TimelineItemType::NewReferral
                    implies s[j].item_day as int <= el by {
                if j < n {
                    assert(prefix[j] == s[j]);
                    assert(spec_has_referral(prefix));
                }
            }
        }
    } else {
        let w = choose|j: int|
            0 <= j < s.len() && (#[trigger] s[j]).item_type == TimelineItemType::NewReferral;
        assert(w < n);
        assert(prefix[w] == s[w]);
        lemma_latest_referral_day_is_max(prefix);
        let v = choose|j: int|
            0 <= j < prefix.len() && (#[trigger] prefix[j]).item_type
                == TimelineItemType::NewReferral && prefix[j].item_day as int
                == spec_latest_referral_day(prefix);
        assert(s[v].item_type == TimelineItemType::NewReferral && s[v].item_day
            == prefix[v].item_day);
        assert forall|j: int|
            0 <= j < s.len() && (#[trigger] s[j]).item_type == TimelineItemType::NewReferral
                implies s[j].item_day as int <= el by {
            if j < n {
                assert(prefix[j] == s[j]);
            }
        }
    }
}

/// Finds the day of the most recent referral event, or `None` where the
/// timeline holds no referral event.
pub fn find_latest_referral_day(events: &Vec<TimelineEvent>) -> (r: Option<i64>)
    ensures
        r is Some <==> spec_has_referral(events@),
        r matches Some(d) ==> d as int == spec_latest_referral_day(events@),
{
    let mut best: Option<i64> = None;
    let mut i: usize = 0;
    while i < events.len()
        invariant
            i <= events@.len(),
            best is None ==> forall|k: int|
                0 <= k < i ==> (#[trigger] events@[k]).item_type != TimelineItemType::NewReferral,
            best matches Some(d) ==> {
                &&& exists|k: int|
                    0 <= k < i && (#[trigger] events@[k]).item_type
                        == TimelineItemType::NewReferral && events@[k].item_day == d
                &&& forall|k: int|
                    0 <= k < i && (#[trigger] events@[k]).item_type
                        == TimelineItemType::NewReferral ==> events@[k].item_day <= d
            },
        decreases events@.len() - i,
    {
        let e = events[i];
        if match e.item_type {
            TimelineItemType::NewReferral => true,
            _ => false,
        } {
            proof {
                assert(events@[i as int].item_type == TimelineItemType::NewReferral);
            }
            best = match best {
                None => Some(e.item_day),
                Some(d) => if e.item_day > d {
                    Some(e.item_day)
                } else {
                    Some(d)
                },
            };
        }
        i = i + 1;
    }
    proof {
        if best is Some {
            lemma_latest_referral_day_is_max(events@);
        }
    }
    best
}

/// Why a unit produced no record: these conditions are final for the run and
/// are reported only as diagnostics.
#[derive(Clone, Copy, PartialEq, Eq, Structural, Debug)]
pub enum SkipReason {
    TimelineUnavailable,
    ContactTimeUnavailable,
    ContactTimeAbsent,
}

/// A per-unit failure: fatal for the unit, never for the pipeline.
#[derive(Clone, Copy, PartialEq, Eq, Structural, Debug)]
pub enum UnitError {
    MissingReferralEvent,
}

/// What one scoring unit yielded.
#[derive(Debug)]
pub enum PersonOutcome {
    Scored(ReferralPerson),
    Skipped(SkipReason),
    Failed(UnitError),
}

/// The record a successful unit builds for `person`: its identity and
/// contact-time metric, the filtered timeline, the area label, the referral
/// status label, and the score of the walk anchored at the most recent
/// referral day.
pub open spec fn spec_scored_record(
    rp: ReferralPerson,
    person: Person,
    filtered: Seq<TimelineEvent>,
    cont_time: i64,
    yesterday: int,
) -> bool {
    let walk = spec_walk(filtered, spec_latest_referral_day(filtered), yesterday, 7);
    &&& rp.guid@ == person.guid@
    &&& rp.first_name@ == person.first_name@
    &&& rp.cont_time == cont_time
    &&& rp.timeline@ == filtered
    &&& rp.area@ == spec_area_label(person.area_name)
    &&& rp.referral_status@ == person.referral_status.spec_label()
    &&& rp.score@ == spec_score_string(walk.0, walk.1)
}

/// Scores one person from what the remote directory returned for them.
///
/// `timeline_fetch` is the timeline fetch's result (`None` where the fetch
/// failed), `contact_fetch` the contact-time fetch's result (`None` where it
/// failed, `Some(None)` where the service reported no value), and
/// `yesterday` the walk's cutoff day. A fetch failure or an absent metric
/// skips the person; a filtered timeline without a referral event fails the
/// unit; otherwise the unit yields the scored record.
pub fn process_person(
    person: Person,
    timeline_fetch: Option<Vec<TimelineEvent>>,
    contact_fetch: Option<Option<i64>>,
    yesterday: i64,
) -> (r: PersonOutcome)
    ensures
        timeline_fetch is None ==> r == PersonOutcome::Skipped(SkipReason::TimelineUnavailable),
        timeline_fetch is Some && contact_fetch is None ==> r == PersonOutcome::Skipped(
            SkipReason::ContactTimeUnavailable,
        ),
        timeline_fetch is Some && contact_fetch == Some(Option::<i64>::None) ==> r
            == PersonOutcome::Skipped(SkipReason::ContactTimeAbsent),
        timeline_fetch matches Some(tl) ==> contact_fetch matches Some(Some(ct)) ==> {
            let filtered = spec_filter_timeline(tl@);
            if spec_has_referral(filtered) {
                r matches PersonOutcome::Scored(rp) && spec_scored_record(
                    rp,
                    person,
                    filtered,
                    ct,
                    yesterday as int,
                )
            } else {
                r == PersonOutcome::Failed(UnitError::MissingReferralEvent)
            }
        },
{
    let tl = match timeline_fetch {
        Some(t) => t,
        None => {
            return PersonOutcome::Skipped(SkipReason::TimelineUnavailable);
        },
    };
    let ct = match contact_fetch {
        Some(Some(c)) => c,
        Some(None) => {
            return PersonOutcome::Skipped(SkipReason::ContactTimeAbsent);
        },
        None => {
            return PersonOutcome::Skipped(SkipReason::ContactTimeUnavailable);
        },
    };
    let filtered = filter_timeline(&tl);
    let start = match find_latest_referral_day(&filtered) {
        Some(d) => d,
        None => {
            return PersonOutcome::Failed(UnitError::MissingReferralEvent);
        },
    };
    let walk = score_walk(&filtered, start, yesterday);
    let score = score_string(walk.0, walk.1);
    let area = area_label(person.area_name);
    let label = String::from_str(person.referral_status.label());
    let mut rp = ReferralPerson::new(person.guid, person.first_name, ct, filtered, area, label);
    rp.set_score(score);
    PersonOutcome::Scored(rp)
}

} // verus!
