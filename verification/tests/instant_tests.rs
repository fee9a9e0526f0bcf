use cargo_info::instant::{dated, format_timestamp, Instant, TimeStamp, Zone};

fn at(secs: i64) -> Instant {
    Instant::new(secs, 0).expect("a timestamp in range")
}

const NOW: i64 = 1_700_000_000;

#[test]
fn instant_keeps_its_parts() {
    let t = Instant::new(1_431_648_000, 250).unwrap();
    assert_eq!(t.secs(), 1_431_648_000);
    assert_eq!(t.nanos(), 250);
}

#[test]
fn instant_out_of_range_is_refused() {
    assert!(Instant::new(i64::MAX, 0).is_none());
    assert!(Instant::new(i64::MIN, 0).is_none());
}

#[test]
fn instant_with_too_many_nanoseconds_is_refused() {
    assert!(Instant::new(0, 2_000_000_000).is_none());
    assert!(Instant::new(0, 1_000_000_000).is_none());
}

#[test]
fn instant_accepts_a_leap_second() {
    assert!(Instant::new(59, 1_500_000_000).is_some());
}

#[test]
fn calendar_form_of_the_epoch() {
    assert_eq!(format_timestamp(&at(0), false, &at(NOW), &Zone::utc()), "Thu Jan  1 00:00:00 1970");
}

#[test]
fn calendar_form_of_a_known_day() {
    assert_eq!(format_timestamp(&at(1_431_648_000), false, &at(NOW), &Zone::utc()), "Fri May 15 00:00:00 2015");
    assert_eq!(format_timestamp(&at(NOW), false, &at(0), &Zone::utc()), "Tue Nov 14 22:13:20 2023");
}

#[test]
fn calendar_form_does_not_depend_on_now() {
    let t = at(1_431_648_000);
    assert_eq!(format_timestamp(&t, false, &at(0), &Zone::utc()), format_timestamp(&t, false, &at(NOW), &Zone::utc()));
}

#[test]
fn relative_form_of_the_present() {
    assert_eq!(format_timestamp(&at(NOW), true, &at(NOW), &Zone::utc()), "now");
    assert_eq!(format_timestamp(&at(NOW - 10), true, &at(NOW), &Zone::utc()), "now");
    assert_eq!(format_timestamp(&at(NOW + 10), true, &at(NOW), &Zone::utc()), "now");
}

#[test]
fn relative_form_of_the_past() {
    let now = at(NOW);
    assert_eq!(format_timestamp(&at(NOW - 11), true, &now, &Zone::utc()), "11 seconds ago");
    assert_eq!(format_timestamp(&at(NOW - 60), true, &now, &Zone::utc()), "a minute ago");
    assert_eq!(format_timestamp(&at(NOW - 58 * 60), true, &now, &Zone::utc()), "an hour ago");
    assert_eq!(format_timestamp(&at(NOW - 4 * 86_400), true, &now, &Zone::utc()), "4 days ago");
    assert_eq!(format_timestamp(&at(NOW - 45 * 86_400), true, &now, &Zone::utc()), "a month ago");
    assert_eq!(format_timestamp(&at(NOW - 90 * 86_400), true, &now, &Zone::utc()), "3 months ago");
    assert_eq!(format_timestamp(&at(NOW - 800 * 86_400), true, &now, &Zone::utc()), "2 years ago");
}

#[test]
fn relative_form_of_the_future() {
    let now = at(NOW);
    assert_eq!(format_timestamp(&at(NOW + 2 * 3600), true, &now, &Zone::utc()), "in 2 hours");
    assert_eq!(format_timestamp(&at(NOW + 8 * 86_400), true, &now, &Zone::utc()), "in a week");
}

#[test]
fn relative_form_is_measured_from_the_second_instant() {
    let t = at(NOW);
    assert_eq!(format_timestamp(&t, true, &at(NOW + 4 * 86_400), &Zone::utc()), "4 days ago");
    assert_eq!(format_timestamp(&t, true, &at(NOW - 4 * 86_400), &Zone::utc()), "in 4 days");
}

#[test]
fn both_forms_side_by_side() {
    assert_eq!(dated("Fri May 15 00:00:00 2015", "8 years ago"), "Fri May 15 00:00:00 2015    (8 years ago)");
    assert_eq!(dated("", ""), "    ()");
}

#[test]
fn time_stamp_displays_its_calendar_form() {
    let stamp = TimeStamp(at(1_431_648_000));
    assert_eq!(stamp.to_text(false, &at(NOW), &Zone::utc()), "Fri May 15 00:00:00 2015");
}

#[test]
fn time_stamp_in_alternate_display_adds_its_age() {
    let stamp = TimeStamp(at(NOW - 4 * 86_400));
    assert_eq!(stamp.to_text(true, &at(NOW), &Zone::utc()), "Fri Nov 10 22:13:20 2023    (4 days ago)");
}

#[test]
fn zone_keeps_its_offset() {
    assert_eq!(Zone::new(3_600).unwrap().offset(), 3_600);
    assert_eq!(Zone::new(-43_200).unwrap().offset(), -43_200);
    assert_eq!(Zone::utc().offset(), 0);
}

#[test]
fn zone_of_a_day_or_more_is_refused() {
    assert!(Zone::new(86_400).is_none());
    assert!(Zone::new(-86_400).is_none());
    assert!(Zone::new(i32::MAX).is_none());
    assert!(Zone::new(i32::MIN).is_none());
    assert!(Zone::new(86_399).is_some());
    assert!(Zone::new(-86_399).is_some());
}

#[test]
fn calendar_form_is_local_time_in_the_zone() {
    let t = at(1_431_648_000);
    let now = at(NOW);
    let east = Zone::new(3_600).unwrap();
    let west = Zone::new(-3_600).unwrap();
    let half = Zone::new(19_800).unwrap();
    assert_eq!(format_timestamp(&t, false, &now, &east), "Fri May 15 01:00:00 2015");
    assert_eq!(format_timestamp(&t, false, &now, &west), "Thu May 14 23:00:00 2015");
    assert_eq!(format_timestamp(&t, false, &now, &half), "Fri May 15 05:30:00 2015");
}

#[test]
fn calendar_form_crosses_the_year_with_the_zone() {
    let new_year = at(1_704_067_200);
    let now = at(NOW);
    assert_eq!(format_timestamp(&new_year, false, &now, &Zone::utc()), "Mon Jan  1 00:00:00 2024");
    let west = Zone::new(-8 * 3_600).unwrap();
    assert_eq!(format_timestamp(&new_year, false, &now, &west), "Sun Dec 31 16:00:00 2023");
}

#[test]
fn relative_form_does_not_depend_on_the_zone() {
    let t = at(NOW - 4 * 86_400);
    let now = at(NOW);
    let east = Zone::new(12 * 3_600).unwrap();
    assert_eq!(format_timestamp(&t, true, &now, &east), "4 days ago");
    assert_eq!(format_timestamp(&t, true, &now, &east), format_timestamp(&t, true, &now, &Zone::utc()));
}

#[test]
fn time_stamp_in_a_zone_shifts_the_calendar_form_only() {
    let stamp = TimeStamp(at(NOW - 4 * 86_400));
    let east = Zone::new(2 * 3_600).unwrap();
    assert_eq!(stamp.to_text(true, &at(NOW), &east), "Sat Nov 11 00:13:20 2023    (4 days ago)");
    assert_eq!(stamp.to_text(false, &at(NOW), &east), "Sat Nov 11 00:13:20 2023");
}
