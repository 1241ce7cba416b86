use referral_score::persons::{Person, PersonStatus, ReferralStatus, TimelineEvent,
    TimelineItemType, SECONDS_PER_DAY};
use referral_score::pipeline::{filter_timeline, find_latest_referral_day, is_eligible,
    process_person, select_candidates, PersonOutcome, SkipReason, UnitError};

fn ev(item_type: TimelineItemType, item_day: i64, status: Option<bool>) -> TimelineEvent {
    TimelineEvent { item_type, item_day, status }
}

fn person(name: &str, status: PersonStatus, assigned_at: i64) -> Person {
    Person {
        guid: format!("guid-{name}"),
        first_name: name.to_string(),
        person_status: status,
        assigned_at,
        area_name: None,
        referral_status: ReferralStatus::NotAttempted,
    }
}

#[test]
fn filter_keeps_only_tracked_kinds_with_flags() {
    let raw = vec![
        ev(TimelineItemType::Contact, 1, Some(true)),
        ev(TimelineItemType::Contact, 2, None),
        ev(TimelineItemType::Teaching, 3, Some(false)),
        ev(TimelineItemType::Teaching, 4, None),
        ev(TimelineItemType::NewReferral, 5, None),
        ev(TimelineItemType::Other, 6, Some(true)),
    ];
    let filtered = filter_timeline(&raw);
    assert_eq!(filtered.len(), 3);
    assert!(matches!(filtered[0].item_type, TimelineItemType::Contact));
    assert_eq!(filtered[0].item_day, 1);
    assert!(matches!(filtered[1].item_type, TimelineItemType::Teaching));
    assert_eq!(filtered[1].item_day, 3);
    assert!(matches!(filtered[2].item_type, TimelineItemType::NewReferral));
    assert_eq!(filtered[2].item_day, 5);
}

#[test]
fn filter_keeps_referral_events_unconditionally() {
    let raw = vec![
        ev(TimelineItemType::NewReferral, 1, None),
        ev(TimelineItemType::NewReferral, 2, Some(false)),
        ev(TimelineItemType::NewReferral, 3, Some(true)),
    ];
    let filtered = filter_timeline(&raw);
    assert_eq!(filtered.len(), 3);
}

#[test]
fn eligibility_needs_low_rank_and_fresh_assignment() {
    let now = 100 * SECONDS_PER_DAY;
    let fresh = now - 3 * SECONDS_PER_DAY;
    assert!(is_eligible(&person("a", PersonStatus::Uncontacted, fresh), now));
    assert!(is_eligible(&person("b", PersonStatus::Progressing, fresh), now));
    assert!(!is_eligible(&person("c", PersonStatus::NewMember, fresh), now));
    assert!(!is_eligible(&person("d", PersonStatus::Established, fresh), now));
}

#[test]
fn eligibility_window_is_strictly_under_eight_days() {
    let now = 100 * SECONDS_PER_DAY;
    let exactly_eight = now - 8 * SECONDS_PER_DAY;
    let just_under = exactly_eight + 1;
    assert!(!is_eligible(&person("a", PersonStatus::Contacted, exactly_eight), now));
    assert!(is_eligible(&person("b", PersonStatus::Contacted, just_under), now));
}

#[test]
fn select_candidates_keeps_listing_order() {
    let now = 100 * SECONDS_PER_DAY;
    let fresh = now - SECONDS_PER_DAY;
    let stale = now - 30 * SECONDS_PER_DAY;
    let listing = vec![
        person("a", PersonStatus::Uncontacted, fresh),
        person("b", PersonStatus::NewMember, fresh),
        person("c", PersonStatus::Engaged, fresh),
        person("d", PersonStatus::Engaged, stale),
        person("e", PersonStatus::Contacted, fresh),
    ];
    let selected = select_candidates(listing, now);
    let names: Vec<&str> = selected.iter().map(|p| p.first_name.as_str()).collect();
    assert_eq!(names, vec!["a", "c", "e"]);
}

#[test]
fn failed_timeline_fetch_skips_the_person() {
    let outcome = process_person(person("a", PersonStatus::Contacted, 0), None, Some(Some(5)), 100);
    assert!(matches!(outcome, PersonOutcome::Skipped(SkipReason::TimelineUnavailable)));
}

#[test]
fn failed_contact_time_fetch_skips_the_person() {
    let timeline = vec![ev(TimelineItemType::NewReferral, 90, None)];
    let outcome = process_person(person("a", PersonStatus::Contacted, 0), Some(timeline), None, 100);
    assert!(matches!(outcome, PersonOutcome::Skipped(SkipReason::ContactTimeUnavailable)));
}

#[test]
fn absent_contact_time_skips_the_person() {
    let timeline = vec![ev(TimelineItemType::NewReferral, 90, None)];
    let outcome =
        process_person(person("a", PersonStatus::Contacted, 0), Some(timeline), Some(None), 100);
    assert!(matches!(outcome, PersonOutcome::Skipped(SkipReason::ContactTimeAbsent)));
}

#[test]
fn missing_referral_event_fails_the_unit() {
    // Contact and teaching events only: after filtering there is no referral
    // event, so the unit fails with the typed error instead of crashing.
    let timeline = vec![
        ev(TimelineItemType::Contact, 90, Some(false)),
        ev(TimelineItemType::Teaching, 91, Some(true)),
    ];
    let outcome =
        process_person(person("a", PersonStatus::Contacted, 0), Some(timeline), Some(Some(5)), 100);
    assert!(matches!(outcome, PersonOutcome::Failed(UnitError::MissingReferralEvent)));
}

#[test]
fn unfiltered_referral_does_not_anchor_the_walk() {
    // The referral event survives filtering even without a flag, so the
    // walk anchors at it; a flagless contact event is dropped first.
    let yesterday = 100;
    let timeline = vec![
        ev(TimelineItemType::Contact, yesterday - 1, None),
        ev(TimelineItemType::NewReferral, yesterday - 1, None),
    ];
    let outcome = process_person(
        person("a", PersonStatus::Contacted, 0),
        Some(timeline),
        Some(Some(5)),
        yesterday,
    );
    match outcome {
        PersonOutcome::Scored(rp) => {
            assert_eq!(rp.score, "0/2");
        }
        _ => panic!("expected a scored record"),
    }
}

#[test]
fn scored_record_carries_all_fields() {
    let yesterday = 100;
    let start = yesterday - 3;
    let mut p = person("ann", PersonStatus::Engaged, 0);
    p.area_name = Some("north".to_string());
    p.referral_status = ReferralStatus::Successful;
    let timeline = vec![
        ev(TimelineItemType::NewReferral, start, None),
        ev(TimelineItemType::Contact, start, Some(false)),
        ev(TimelineItemType::Teaching, start + 1, Some(true)),
        ev(TimelineItemType::Other, start, None),
    ];
    let outcome = process_person(p, Some(timeline), Some(Some(42)), yesterday);
    match outcome {
        PersonOutcome::Scored(rp) => {
            assert_eq!(rp.guid, "guid-ann");
            assert_eq!(rp.first_name, "ann");
            assert_eq!(rp.cont_time, 42);
            assert_eq!(rp.area, "north");
            assert_eq!(rp.referral_status, "Successful");
            assert_eq!(rp.timeline.len(), 3);
            assert_eq!(rp.score, "2/2");
        }
        _ => panic!("expected a scored record"),
    }
}

#[test]
fn absent_area_falls_back_to_default() {
    let yesterday = 100;
    let timeline = vec![ev(TimelineItemType::NewReferral, yesterday - 1, None)];
    let outcome = process_person(
        person("bob", PersonStatus::Uncontacted, 0),
        Some(timeline),
        Some(Some(1)),
        yesterday,
    );
    match outcome {
        PersonOutcome::Scored(rp) => {
            assert_eq!(rp.area, "default_area");
            assert_eq!(rp.referral_status, "Not Attempted");
        }
        _ => panic!("expected a scored record"),
    }
}

#[test]
fn walk_anchors_at_most_recent_referral() {
    // Two referral events: the later one anchors the walk even though the
    // earlier one comes first in timeline order.
    let yesterday = 100;
    let events = vec![
        ev(TimelineItemType::NewReferral, yesterday - 6, None),
        ev(TimelineItemType::NewReferral, yesterday - 2, None),
    ];
    assert_eq!(find_latest_referral_day(&events), Some(yesterday - 2));
    let outcome = process_person(
        person("cal", PersonStatus::Contacted, 0),
        Some(events),
        Some(Some(1)),
        yesterday,
    );
    match outcome {
        PersonOutcome::Scored(rp) => {
            assert_eq!(rp.score, "0/3");
        }
        _ => panic!("expected a scored record"),
    }
}

#[test]
fn no_referral_day_on_empty_timeline() {
    let events: Vec<TimelineEvent> = Vec::new();
    assert_eq!(find_latest_referral_day(&events), None);
}
