use cargo_info::driver::Report;
use cargo_info::instant::{Instant, Zone};
use cargo_info::package::{FeatureTable, PackageRecord, PackageSummary, VersionRecord};
use cargo_info::report::{compose, Mode};

const NOW: i64 = 1_700_000_000;
const DAY: i64 = 86_400;

fn at(secs: i64) -> Instant {
    Instant::new(secs, 0).expect("a timestamp in range")
}

fn release(number: &str, age_days: i64, downloads: u64, yanked: bool) -> VersionRecord {
    VersionRecord {
        number: number.to_string(),
        created_at: at(NOW - age_days * DAY),
        downloads,
        yanked,
        features: FeatureTable::new()
            .with("default".to_string(), vec!["std".to_string()])
            .with("std".to_string(), Vec::new()),
        license: None,
    }
}

fn package(releases: usize) -> PackageSummary {
    let mut versions = Vec::new();
    for i in 0..releases {
        versions.push(release(&format!("1.{}.0", releases - 1 - i), i as i64 + 1, 10, i == 1));
    }
    let latest = versions.first().map(|v| v.number.clone()).unwrap_or("0.0.0".to_string());
    PackageSummary::from_record(PackageRecord {
        name: Some("foo".to_string()),
        latest_version: Some(latest),
        description: None,
        homepage: Some("https://foo.example".to_string()),
        documentation: Some("https://docs.example/foo".to_string()),
        repository: Some("https://git.example/foo".to_string()),
        license: None,
        downloads: 70,
        keywords: None,
        created_at: at(NOW - 900 * DAY),
        updated_at: at(NOW - DAY),
        versions: Some(versions),
    })
    .unwrap()
}

fn plain() -> Report {
    Report {
        documentation: false,
        downloads: false,
        homepage: false,
        repository: false,
        verbose: false,
        versions: 0,
        features: false,
        crates: vec!["foo".to_string()],
    }
}

#[test]
fn version_limit_without_the_flag_is_zero() {
    assert_eq!(plain().version_limit(), 0);
}

#[test]
fn version_limit_with_the_flag_once_is_five() {
    let mut report = plain();
    report.versions = 1;
    assert_eq!(report.version_limit(), 5);
}

#[test]
fn version_limit_with_the_flag_twice_or_more_is_unbounded() {
    let mut report = plain();
    report.versions = 2;
    assert_eq!(report.version_limit(), usize::MAX);
    report.versions = 3;
    assert_eq!(report.version_limit(), usize::MAX);
    report.versions = u8::MAX;
    assert_eq!(report.version_limit(), usize::MAX);
}

#[test]
fn without_flags_the_report_is_the_summary() {
    let foo = package(3);
    let now = at(NOW);
    let out = plain().report_crate(&foo, &now, &Zone::utc());
    assert_eq!(out, format!("{}\n\n", compose(&foo, Mode::Full(false), &now, &Zone::utc())));
    let mut verbose = plain();
    verbose.verbose = true;
    assert_eq!(verbose.report_crate(&foo, &now, &Zone::utc()), format!("{}\n\n", compose(&foo, Mode::Full(true), &now, &Zone::utc())));
}

#[test]
fn one_flag_reports_one_field() {
    let foo = package(3);
    let now = at(NOW);
    let mut report = plain();
    report.repository = true;
    assert_eq!(report.report_crate(&foo, &now, &Zone::utc()), "https://git.example/foo\n\n");
    report.verbose = true;
    assert_eq!(report.report_crate(&foo, &now, &Zone::utc()), "Repository:     https://git.example/foo\n\n");
}

#[test]
fn several_flags_report_in_the_order_of_the_flags() {
    let foo = package(3);
    let mut report = plain();
    report.repository = true;
    report.downloads = true;
    report.documentation = true;
    report.homepage = true;
    report.features = true;
    assert_eq!(
        report.report_crate(&foo, &at(NOW), &Zone::utc()),
        "https://docs.example/foo\n70\nhttps://foo.example\nhttps://git.example/foo\ndefault, std\n\n"
    );
}

#[test]
fn the_version_flag_once_lists_five_releases() {
    let foo = package(7);
    let mut report = plain();
    report.versions = 1;
    let out = report.report_crate(&foo, &at(NOW), &Zone::utc());
    let lines: Vec<&str> = out.split('\n').collect();
    assert_eq!(lines.len(), 1 + 5 + 1 + 2);
    assert_eq!(lines[0], "VERSION  RELEASED    DOWNLOADS  ");
    assert_eq!(lines[1], "1.6.0    a day ago   10         ");
    assert_eq!(lines[2], "1.5.0    2 days ago  10         (yanked)");
    assert_eq!(lines[6], "... use -VV to show all 7 versions");
    assert_eq!(lines[7], "");
    assert_eq!(lines[8], "");
}

#[test]
fn the_version_flag_twice_lists_all_releases() {
    let foo = package(7);
    let mut report = plain();
    report.versions = 2;
    let out = report.report_crate(&foo, &at(NOW), &Zone::utc());
    let lines: Vec<&str> = out.split('\n').collect();
    assert_eq!(lines.len(), 1 + 7 + 2);
    assert!(lines[7].starts_with("1.0.0"));
    assert!(!out.contains("use -VV"));
}

#[test]
fn verbose_features_take_a_line_each() {
    let foo = package(1);
    let mut report = plain();
    report.features = true;
    report.verbose = true;
    assert_eq!(report.report_crate(&foo, &at(NOW), &Zone::utc()), "default: std\nstd: \n\n");
}

#[test]
fn the_verbose_summary_follows_the_zone() {
    let foo = package(2);
    let now = at(NOW);
    let east = Zone::new(2 * 3_600).unwrap();
    let mut report = plain();
    report.verbose = true;
    let out = report.report_crate(&foo, &now, &east);
    assert_eq!(out, format!("{}\n\n", compose(&foo, Mode::Full(true), &now, &east)));
    assert!(out.contains("Updated:        Tue Nov 14 00:13:20 2023    (a day ago)"));
    assert!(report.report_crate(&foo, &now, &Zone::utc()).contains("Updated:        Mon Nov 13 22:13:20 2023    (a day ago)"));
}
