//! The day scorer and the seven-day scoring walk.
//!
//! A day scores 0 when no contact-style event fell on it, 1 when such events
//! fell on it but none succeeded, and yields a termination signal when one of
//! them carries a success flag of `true`. The walk visits calendar days from
//! a start day up to and including a cutoff day, at most seven of them,
//! stopping early on the signal, which itself counts as one contact day.

use vstd::prelude::*;
use vstd::string::StringExecFns;
use crate::persons::{TimelineEvent, TimelineItemType};

verus! {

/// An event that counts toward a day's score: a contact or a teaching event.
pub open spec fn spec_is_contactish(e: TimelineEvent) -> bool {
    e.item_type == TimelineItemType::Contact || e.item_type == TimelineItemType::Teaching
}

/// Some contact-style event of `events` fell on `day`.
pub open spec fn spec_day_has_contactish(events: Seq<TimelineEvent>, day: int) -> bool {
    exists|i: int|
        0 <= i < events.len() && #[trigger] spec_is_contactish(events[i]) && events[i].item_day == day
}

/// Some contact-style event of `events` fell on `day` and succeeded.
pub open spec fn spec_day_has_success(events: Seq<TimelineEvent>, day: int) -> bool {
    exists|i: int|
        0 <= i < events.len() && #[trigger] spec_is_contactish(events[i]) && events[i].item_day == day
            && events[i].status == Some(true)
}

/// The day scorer's result: -1 is the termination signal, not a score.
pub open spec fn spec_check_day(events: Seq<TimelineEvent>, day: int) -> int {
    if spec_day_has_success(events, day) {
        -1
    } else if spec_day_has_contactish(events, day) {
        1
    } else {
        0
    }
}

/// Scores one calendar day against a timeline.
pub fn check_day(day: i64, events: &Vec<TimelineEvent>) -> (r: i32)
    ensures
        r as int == spec_check_day(events@, day as int),
{
    let mut found_contactish = false;
    let mut i: usize = 0;
    while i < events.len()
        invariant
            i <= events@.len(),
            forall|k: int|
                0 <= k < i ==> !(#[trigger] spec_is_contactish(events@[k])
                    && events@[k].item_day == day as int && events@[k].status == Some(true)),
            found_contactish == (exists|k: int|
                0 <= k < i && #[trigger] spec_is_contactish(events@[k])
                    && events@[k].item_day == day as int),
        decreases events@.len() - i,
    {
        let e = events[i];
        let contactish = match e.item_type {
            TimelineItemType::Contact => true,
            TimelineItemType::Teaching => true,
            _ => false,
        };
        proof {
            assert(e == events@[i as int]);
            assert(contactish == spec_is_contactish(events@[i as int]));
        }
        if contactish && e.item_day == day {
            let succeeded = match e.status {
                Some(true) => true,
                _ => false,
            };
            if succeeded {
                proof {
                    assert(spec_is_contactish(events@[i as int])
                        && events@[i as int].item_day == day as int
                        && events@[i as int].status == Some(true));
                }
                return -1;
            }
            found_contactish = true;
        }
        i = i + 1;
    }
    if found_contactish {
        1
    } else {
        0
    }
}

/// The scoring walk over `events`, starting at `day`, visiting days up to
/// and including `yesterday`, and at most `budget` of them. Yields the pair
/// (contact days, total days visited). A day whose score is the termination
/// signal counts as one contact day and ends the walk.
pub open spec fn spec_walk(events: Seq<TimelineEvent>, day: int, yesterday: int, budget: nat) -> (int, int)
    decreases budget,
{
    if day > yesterday || budget == 0 {
        (0, 0)
    } else {
        let c = spec_check_day(events, day);
        if c == -1 {
            (1, 1)
        } else {
            let rest = spec_walk(events, day + 1, yesterday, (budget - 1) as nat);
            (c + rest.0, 1 + rest.1)
        }
    }
}

/// Within one walk, contact days never exceed the days visited, and the days
/// visited never exceed the budget.
pub proof fn lemma_walk_bounds(events: Seq<TimelineEvent>, day: int, yesterday: int, budget: nat)
    ensures
        0 <= spec_walk(events, day, yesterday, budget).0,
        spec_walk(events, day, yesterday, budget).0 <= spec_walk(events, day, yesterday, budget).1,
        spec_walk(events, day, yesterday, budget).1 <= budget,
    decreases budget,
{
    if day > yesterday || budget == 0 {
    } else {
        let c = spec_check_day(events, day);
        if c != -1 {
            lemma_walk_bounds(events, day + 1, yesterday, (budget - 1) as nat);
        }
    }
}

/// Once a day yields the termination signal, the walk counts that day and
/// visits no further day.
pub proof fn lemma_walk_stops_on_signal(events: Seq<TimelineEvent>, day: int, yesterday: int, budget: nat)
    requires
        day <= yesterday,
        budget > 0,
        spec_check_day(events, day) == -1,
    ensures
        spec_walk(events, day, yesterday, budget) == (1int, 1int),
{
}

/// Runs the scoring walk with a budget of seven days.
pub fn score_walk(events: &Vec<TimelineEvent>, start_day: i64, yesterday: i64) -> (r: (u32, u32))
    ensures
        r.0 as int == spec_walk(events@, start_day as int, yesterday as int, 7).0,
        r.1 as int == spec_walk(events@, start_day as int, yesterday as int, 7).1,
        r.0 <= r.1,
        r.1 <= 7,
{
    let mut contact: u32 = 0;
    let mut total: u32 = 0;
    let mut cur: i128 = start_day as i128;
    let y: i128 = yesterday as i128;
    let mut stopped = false;
    proof {
        lemma_walk_bounds(events@, start_day as int, yesterday as int, 7);
    }
    while !stopped && cur <= y && total < 7
        invariant
            y == yesterday as int,
            total <= 7,
            contact <= total,
            start_day as int <= cur,
            spec_walk(events@, start_day as int, yesterday as int, 7) == (if stopped {
                (contact as int, total as int)
            } else {
                let rest = spec_walk(events@, cur as int, yesterday as int, (7 - total) as nat);
                (contact + rest.0, total + rest.1)
            }),
        decreases (if stopped { 0int } else { 1int }), 7 - total,
    {
        proof {
            lemma_walk_bounds(events@, cur as int, yesterday as int, (7 - total) as nat);
            lemma_walk_bounds(events@, cur + 1, yesterday as int, (7 - total - 1) as nat);
        }
        total = total + 1;
        let day: i64 = cur as i64;
        let c = check_day(day, events);
        if c == -1 {
            contact = contact + 1;
            stopped = true;
        } else {
            assert(c == 0 || c == 1);
            contact = contact + (c as u32);
            cur = cur + 1;
        }
    }
    proof {
        if !stopped {
            assert(spec_walk(events@, cur as int, yesterday as int, (7 - total) as nat) == (
            0int,
            0int,
            ));
        }
    }
    (contact, total)
}

/// The decimal digit character for a value below ten.
pub open spec fn spec_digit_char(d: int) -> char {
    if d == 0 {
        '0'
    } else if d == 1 {
        '1'
    } else if d == 2 {
        '2'
    } else if d == 3 {
        '3'
    } else if d == 4 {
        '4'
    } else if d == 5 {
        '5'
    } else if d == 6 {
        '6'
    } else if d == 7 {
        '7'
    } else if d == 8 {
        '8'
    } else {
        '9'
    }
}

/// The one-character string for a decimal digit.
fn digit_str(d: u32) -> (r: &'static str)
    requires
        d <= 9,
    ensures
        r@ == seq![spec_digit_char(d as int)],
{
    proof {
        reveal_strlit("0");
        reveal_strlit("1");
        reveal_strlit("2");
        reveal_strlit("3");
        reveal_strlit("4");
        reveal_strlit("5");
        reveal_strlit("6");
        reveal_strlit("7");
        reveal_strlit("8");
        reveal_strlit("9");
    }
    let r = match d {
        0 => "0",
        1 => "1",
        2 => "2",
        3 => "3",
        4 => "4",
        5 => "5",
        6 => "6",
        7 => "7",
        8 => "8",
        _ => "9",
    };
    proof {
        assert(r@ =~= seq![spec_digit_char(d as int)]);
    }
    r
}

/// The summary string `"<contact days>/<total days>"` of one walk.
pub open spec fn spec_score_string(contact_days: int, total_days: int) -> Seq<char> {
    seq![spec_digit_char(contact_days), '/', spec_digit_char(total_days)]
}

/// Renders the walk's result as its `"<contact days>/<total days>"` summary.
pub fn score_string(contact_days: u32, total_days: u32) -> (r: String)
    requires
        contact_days <= 9,
        total_days <= 9,
    ensures
        r@ == spec_score_string(contact_days as int, total_days as int),
{
    let mut s = String::new();
    s.append(digit_str(contact_days));
    s.append("/");
    s.append(digit_str(total_days));
    proof {
        reveal_strlit("/");
        assert(s@ =~= spec_score_string(contact_days as int, total_days as int));
    }
    s
}

} // verus!
