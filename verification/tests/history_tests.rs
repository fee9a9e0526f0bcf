use cargo_info::history::{print_last_versions, render_history};
use cargo_info::instant::{Instant, Zone};
use cargo_info::package::{FeatureTable, VersionRecord};

const NOW: i64 = 1_700_000_000;
const DAY: i64 = 86_400;

fn at(secs: i64) -> Instant {
    Instant::new(secs, 0).expect("a timestamp in range")
}

fn strings(items: &[&str]) -> Vec<String> {
    items.iter().map(|s| s.to_string()).collect()
}

fn release(number: &str, age_days: i64, downloads: u64, yanked: bool) -> VersionRecord {
    VersionRecord {
        number: number.to_string(),
        created_at: at(NOW - age_days * DAY),
        downloads,
        yanked,
        features: FeatureTable::new(),
        license: None,
    }
}

fn foo() -> Vec<VersionRecord> {
    vec![
        release("1.2.0", 2, 100, false),
        release("1.1.0", 45, 50, true),
        release("1.0.0", 800, 10, false),
    ]
}

#[test]
fn two_of_three_releases_and_the_hint() {
    let out = render_history(&foo(), &strings(&["2 days ago", "a month ago"]), 2, "");
    let lines: Vec<&str> = out.split('\n').collect();
    assert_eq!(lines.len(), 4);
    assert_eq!(lines[0], "VERSION  RELEASED     DOWNLOADS  ");
    assert_eq!(lines[1], "1.2.0    2 days ago   100        ");
    assert_eq!(lines[2], "1.1.0    a month ago  50         (yanked)");
    assert_eq!(lines[3], "... use -VV to show all 3 versions");
    assert!(!lines[1].contains("(yanked)"));
    assert!(lines[2].contains("(yanked)"));
}

#[test]
fn two_of_three_releases_with_their_ages() {
    let out = print_last_versions(&foo(), 2, "", true, &at(NOW), &Zone::utc());
    assert_eq!(
        out,
        "VERSION  RELEASED     DOWNLOADS  \n\
         1.2.0    2 days ago   100        \n\
         1.1.0    a month ago  50         (yanked)\n\
         ... use -VV to show all 3 versions"
    );
}

#[test]
fn all_releases_and_no_hint() {
    let out = print_last_versions(&foo(), 3, "", true, &at(NOW), &Zone::utc());
    assert_eq!(
        out,
        "VERSION  RELEASED     DOWNLOADS  \n\
         1.2.0    2 days ago   100        \n\
         1.1.0    a month ago  50         (yanked)\n\
         1.0.0    2 years ago  10         "
    );
    assert!(!out.contains("use -VV"));
}

#[test]
fn a_limit_beyond_the_releases_shows_them_all() {
    let all = print_last_versions(&foo(), 3, "", true, &at(NOW), &Zone::utc());
    assert_eq!(print_last_versions(&foo(), 4, "", true, &at(NOW), &Zone::utc()), all);
    assert_eq!(print_last_versions(&foo(), usize::MAX, "", true, &at(NOW), &Zone::utc()), all);
}

#[test]
fn a_limit_of_zero_shows_the_header_alone() {
    let out = print_last_versions(&foo(), 0, "", true, &at(NOW), &Zone::utc());
    assert_eq!(out, "VERSION  RELEASED  DOWNLOADS  ");
    assert_eq!(render_history(&foo(), &Vec::new(), 0, ">"), ">VERSION  RELEASED  DOWNLOADS  ");
}

#[test]
fn no_releases_show_the_header_alone() {
    assert_eq!(print_last_versions(&Vec::new(), 5, "", true, &at(NOW), &Zone::utc()), "VERSION  RELEASED  DOWNLOADS  ");
    assert_eq!(print_last_versions(&Vec::new(), 0, "  ", false, &at(NOW), &Zone::utc()), "  VERSION  RELEASED  DOWNLOADS  ");
}

#[test]
fn the_hint_names_the_true_total() {
    let mut versions = Vec::new();
    for i in 0..12 {
        versions.push(release(&format!("0.{}.0", 12 - i), i + 1, 1, false));
    }
    let out = print_last_versions(&versions, 5, "", true, &at(NOW), &Zone::utc());
    let lines: Vec<&str> = out.split('\n').collect();
    assert_eq!(lines.len(), 7);
    assert_eq!(lines[6], "... use -VV to show all 12 versions");
    assert!(lines[1].starts_with("0.12.0"));
    assert!(lines[5].starts_with("0.8.0"));
}

#[test]
fn every_line_stands_behind_the_prefix() {
    let out = print_last_versions(&foo(), 1, "    ", true, &at(NOW), &Zone::utc());
    assert_eq!(
        out,
        "    VERSION  RELEASED    DOWNLOADS  \n    1.2.0    2 days ago  100        \n    ... use -VV to show all 3 versions"
    );
}

#[test]
fn releases_keep_their_order() {
    let versions = vec![release("0.1.0", 900, 1, false), release("3.0.0", 1, 2, false)];
    let out = print_last_versions(&versions, 2, "", true, &at(NOW), &Zone::utc());
    let lines: Vec<&str> = out.split('\n').collect();
    assert!(lines[1].starts_with("0.1.0"));
    assert!(lines[2].starts_with("3.0.0"));
}

#[test]
fn calendar_dates_widen_the_column() {
    let out = print_last_versions(&foo(), 1, "", false, &at(NOW), &Zone::utc());
    assert_eq!(
        out,
        "VERSION  RELEASED                  DOWNLOADS  \n\
         1.2.0    Sun Nov 12 22:13:20 2023  100        \n\
         ... use -VV to show all 3 versions"
    );
}

#[test]
fn the_version_column_follows_the_longest_number() {
    let versions = vec![release("1.0.0-rc.1+build.5", 1, 3, true), release("1.0.0", 2, 4, false)];
    let out = render_history(&versions, &strings(&["a", "b"]), 2, "");
    assert_eq!(
        out,
        "VERSION             RELEASED  DOWNLOADS  \n\
         1.0.0-rc.1+build.5  a         3          (yanked)\n\
         1.0.0               b         4          "
    );
}

#[test]
fn a_number_may_hold_the_marker_itself() {
    let versions = vec![release("1.0(yanked)", 1, 3, false)];
    let out = render_history(&versions, &strings(&["now"]), 1, "");
    assert_eq!(out, "VERSION      RELEASED  DOWNLOADS  \n1.0(yanked)  now       3          ");
}

#[test]
fn rendering_twice_gives_the_same_text() {
    let first = print_last_versions(&foo(), 2, "  ", true, &at(NOW), &Zone::utc());
    let second = print_last_versions(&foo(), 2, "  ", true, &at(NOW), &Zone::utc());
    assert_eq!(first, second);
}

#[test]
fn calendar_dates_are_local_time_in_the_zone() {
    let east = Zone::new(2 * 3_600).unwrap();
    let out = print_last_versions(&foo(), 1, "", false, &at(NOW), &east);
    assert_eq!(
        out,
        "VERSION  RELEASED                  DOWNLOADS  \n\
         1.2.0    Mon Nov 13 00:13:20 2023  100        \n\
         ... use -VV to show all 3 versions"
    );
}

#[test]
fn ages_are_the_same_in_every_zone() {
    let west = Zone::new(-11 * 3_600).unwrap();
    assert_eq!(
        print_last_versions(&foo(), 3, "", true, &at(NOW), &west),
        print_last_versions(&foo(), 3, "", true, &at(NOW), &Zone::utc())
    );
}

#[test]
fn a_yanked_release_does_not_mark_its_neighbours() {
    let versions = vec![
        release("3.0.0", 1, 1, true),
        release("2.0.0", 2, 2, false),
        release("1.0.0", 3, 3, true),
    ];
    let out = print_last_versions(&versions, 3, "", true, &at(NOW), &Zone::utc());
    let lines: Vec<&str> = out.split('\n').collect();
    assert!(!lines[0].contains("(yanked)"));
    assert!(lines[1].ends_with("(yanked)"));
    assert!(!lines[2].contains("(yanked)"));
    assert!(lines[3].ends_with("(yanked)"));
}
