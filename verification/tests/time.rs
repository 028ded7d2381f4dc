use chrono::{Datelike, TimeZone, Timelike};
use wallet_template::time::{MAX_YEAR, MIN_YEAR};
use wallet_template::UtcInstant;

fn at(year: i32, month: u32, day: u32) -> UtcInstant {
    UtcInstant { year, month, day, second_of_day: 45_296, nanosecond: 7 }
}

#[test]
fn new_accepts_an_ordinary_instant() {
    assert_eq!(
        UtcInstant::new(2022, 6, 30, 86_399, 999_999_999),
        Some(UtcInstant {
            year: 2022,
            month: 6,
            day: 30,
            second_of_day: 86_399,
            nanosecond: 999_999_999
        })
    );
}

#[test]
fn new_rejects_fields_out_of_range() {
    assert_eq!(UtcInstant::new(2022, 0, 1, 0, 0), None);
    assert_eq!(UtcInstant::new(2022, 13, 1, 0, 0), None);
    assert_eq!(UtcInstant::new(2022, 1, 0, 0, 0), None);
    assert_eq!(UtcInstant::new(2022, 1, 32, 0, 0), None);
    assert_eq!(UtcInstant::new(2022, 4, 31, 0, 0), None);
    assert_eq!(UtcInstant::new(2022, 1, 1, 86_400, 0), None);
    assert_eq!(UtcInstant::new(2022, 1, 1, 0, 1_000_000_000), None);
    assert_eq!(UtcInstant::new(MAX_YEAR + 1, 1, 1, 0, 0), None);
    assert_eq!(UtcInstant::new(MIN_YEAR - 1, 1, 1, 0, 0), None);
}

#[test]
fn new_knows_the_leap_years() {
    assert!(UtcInstant::new(2024, 2, 29, 0, 0).is_some());
    assert!(UtcInstant::new(2000, 2, 29, 0, 0).is_some());
    assert!(UtcInstant::new(2023, 2, 29, 0, 0).is_none());
    assert!(UtcInstant::new(1900, 2, 29, 0, 0).is_none());
    assert!(UtcInstant::new(2100, 2, 29, 0, 0).is_none());
    assert!(UtcInstant::new(-4, 2, 29, 0, 0).is_some());
    assert!(UtcInstant::new(-1, 2, 29, 0, 0).is_none());
    assert!(UtcInstant::new(2023, 2, 28, 0, 0).is_some());
}

#[test]
fn new_accepts_the_first_and_the_last_year() {
    assert!(UtcInstant::new(MIN_YEAR, 1, 1, 0, 0).is_some());
    assert!(UtcInstant::new(MAX_YEAR, 12, 31, 86_399, 999_999_999).is_some());
}

#[test]
fn plus_years_changes_the_year_only() {
    assert_eq!(at(2022, 8, 17).plus_years(5), Some(at(2027, 8, 17)));
    assert_eq!(at(2022, 8, 17).plus_years(3), Some(at(2025, 8, 17)));
    assert_eq!(at(2022, 8, 17).plus_years(0), Some(at(2022, 8, 17)));
    assert_eq!(at(2022, 8, 17).plus_years(-2022), Some(at(0, 8, 17)));
}

#[test]
fn plus_years_from_a_leap_day() {
    assert_eq!(at(2024, 2, 29).plus_years(4), Some(at(2028, 2, 29)));
    assert_eq!(at(2024, 2, 29).plus_years(0), Some(at(2024, 2, 29)));
    assert_eq!(at(2024, 2, 29).plus_years(3), Some(at(2027, 2, 28)));
    assert_eq!(at(2024, 2, 29).plus_years(5), Some(at(2029, 2, 28)));
    assert_eq!(at(2096, 2, 29).plus_years(4), Some(at(2100, 2, 28)));
    assert_eq!(at(1996, 2, 29).plus_years(4), Some(at(2000, 2, 29)));
    assert_eq!(at(2024, 2, 29).plus_years(-1), Some(at(2023, 2, 28)));
    assert_eq!(at(2024, 2, 28).plus_years(5), Some(at(2029, 2, 28)));
    assert_eq!(at(2024, 3, 1).plus_years(5), Some(at(2029, 3, 1)));
    assert_eq!(at(2024, 2, 29).plus_years(262_142 - 2024 + 1), None);
}

#[test]
fn plus_years_stops_at_the_last_year() {
    assert_eq!(at(MAX_YEAR - 5, 1, 1).plus_years(5), Some(at(MAX_YEAR, 1, 1)));
    assert_eq!(at(MAX_YEAR - 4, 1, 1).plus_years(5), None);
    assert_eq!(at(MAX_YEAR, 12, 31).plus_years(i32::MAX), None);
    assert_eq!(at(MIN_YEAR, 1, 1).plus_years(-1), None);
    assert_eq!(at(MIN_YEAR, 1, 1).plus_years(i32::MIN), None);
    assert_eq!(at(MIN_YEAR + 1, 1, 1).plus_years(-1), Some(at(MIN_YEAR, 1, 1)));
}

#[test]
fn plus_years_keeps_the_last_nanosecond_of_the_last_year() {
    let last = UtcInstant {
        year: MAX_YEAR - 3,
        month: 12,
        day: 31,
        second_of_day: 86_399,
        nanosecond: 999_999_999,
    };
    assert_eq!(last.plus_years(3), Some(UtcInstant { year: MAX_YEAR, ..last }));
}

#[test]
fn instants_are_ordered_in_time() {
    let a = UtcInstant { year: 2022, month: 12, day: 31, second_of_day: 86_399, nanosecond: 5 };
    let b = UtcInstant { year: 2023, month: 1, day: 1, second_of_day: 0, nanosecond: 0 };
    let c = UtcInstant { year: 2023, month: 1, day: 1, second_of_day: 0, nanosecond: 1 };
    let d = UtcInstant { year: 2023, month: 1, day: 2, second_of_day: 0, nanosecond: 0 };
    let e = UtcInstant { year: 2023, month: 2, day: 1, second_of_day: 0, nanosecond: 0 };
    assert!(a < b && b < c && c < d && d < e);
    assert!(!(b < a));
    assert_eq!(b, b);
}

#[test]
fn plus_years_agrees_with_chrono() {
    let there = chrono::Utc.with_ymd_and_hms(2022, 5, 9, 12, 34, 56).unwrap();
    let moved = there.with_year(2027).unwrap();
    let here = UtcInstant {
        year: there.year(),
        month: there.month(),
        day: there.day(),
        second_of_day: there.num_seconds_from_midnight(),
        nanosecond: there.nanosecond(),
    };
    let later = here.plus_years(5).unwrap();
    assert_eq!(later.year, moved.year());
    assert_eq!(later.month, moved.month());
    assert_eq!(later.day, moved.day());
    assert_eq!(later.second_of_day, moved.num_seconds_from_midnight());
    assert_eq!(later.nanosecond, moved.nanosecond());
    assert_eq!(later.second_of_day, 12 * 3600 + 34 * 60 + 56);
}

#[test]
fn precedes_is_the_order_in_time() {
    let a = UtcInstant { year: 2022, month: 12, day: 31, second_of_day: 86_399, nanosecond: 5 };
    let b = UtcInstant { year: 2023, month: 1, day: 1, second_of_day: 0, nanosecond: 0 };
    let c = UtcInstant { year: 2023, month: 1, day: 1, second_of_day: 0, nanosecond: 1 };
    let d = UtcInstant { year: 2023, month: 1, day: 2, second_of_day: 0, nanosecond: 0 };
    let e = UtcInstant { year: 2023, month: 2, day: 1, second_of_day: 0, nanosecond: 0 };
    let f = UtcInstant { year: 2023, month: 2, day: 1, second_of_day: 1, nanosecond: 0 };
    let all = [a, b, c, d, e, f];
    for i in 0..all.len() {
        for j in 0..all.len() {
            assert_eq!(all[i].precedes(&all[j]), i < j);
            assert_eq!(all[i].precedes(&all[j]), all[i] < all[j]);
        }
    }
}

#[test]
fn precedes_puts_a_later_year_last() {
    let now = at(2022, 8, 17);
    let mid = now.plus_years(3).unwrap();
    let late = now.plus_years(5).unwrap();
    assert!(now.precedes(&mid));
    assert!(mid.precedes(&late));
    assert!(!late.precedes(&mid));
    assert!(!now.precedes(&now));
}

#[test]
fn plus_years_agrees_with_chrono_on_many_days() {
    let days = [
        (1970, 1, 1),
        (1999, 12, 31),
        (2000, 2, 29),
        (2023, 2, 28),
        (2024, 2, 28),
        (2024, 2, 29),
        (2024, 3, 1),
        (2024, 12, 31),
        (-4, 2, 29),
        (262_137, 6, 15),
        (262_142, 12, 31),
        (-262_143, 1, 1),
    ];
    for (year, month, day) in days {
        for years in [-5, -4, -1, 0, 1, 3, 4, 5, 8, 100, 400] {
            let here = at(year, month, day);
            let there = chrono::NaiveDate::from_ymd_opt(year, month, day)
                .unwrap()
                .and_time(
                    chrono::NaiveTime::from_num_seconds_from_midnight_opt(
                        here.second_of_day,
                        here.nanosecond,
                    )
                    .unwrap(),
                )
                .and_utc();
            let moved = there.with_year(year + years);
            let later = here.plus_years(years);
            match moved {
                Some(moved) => assert_eq!(
                    later,
                    Some(UtcInstant {
                        year: moved.year(),
                        month: moved.month(),
                        day: moved.day(),
                        second_of_day: moved.num_seconds_from_midnight(),
                        nanosecond: moved.nanosecond(),
                    })
                ),
                None if -262_143 <= year + years && year + years <= 262_142 => {
                    assert_eq!((month, day), (2, 29));
                    assert_eq!(later, Some(at(year + years, 2, 28)));
                }
                None => assert_eq!(later, None),
            }
        }
    }
}
