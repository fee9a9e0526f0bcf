//! What a run reports on each package, as chosen on the command line.
//!
//! Each flag that is set adds one piece to the report, in the order in
//! which the flags are declared; where none is set, the report is the full
//! summary. Every piece ends its line, and an empty line closes the report.

use vstd::prelude::*;
use vstd::string::*;
use crate::history::{history_text, print_last_versions, release_times, shown_count};
use crate::instant::{Instant, Zone};
use crate::package::{features_text, PackageModel, PackageSummary};
use crate::report::{crate_text, field_text, show_crate, show_field, Field, SUMMARY_HISTORY};
use crate::text::line_feed;

verus! {

/// The choices of one run.
#[derive(Debug)]
pub struct Report {
    /// Report the documentation address.
    pub documentation: bool,
    /// Report the number of downloads.
    pub downloads: bool,
    /// Report the homepage.
    pub homepage: bool,
    /// Report the repository address.
    pub repository: bool,
    /// Report more details.
    pub verbose: bool,
    /// Report the history of releases: once for the last five, twice for
    /// all of them.
    pub versions: u8,
    /// Report the features of the latest version.
    pub features: bool,
    /// The packages to report on.
    pub crates: Vec<String>,
}

/// How many releases the history lists when it was asked for `count`
/// times.
pub open spec fn limit_for(count: u8) -> nat {
    if count == 0 {
        0
    } else if count == 1 {
        5
    } else {
        usize::MAX as nat
    }
}

/// A piece of the report on a line of its own, or nothing where it was not
/// chosen.
pub open spec fn section(chosen: bool, text: Seq<char>) -> Seq<char> {
    if chosen {
        text + line_feed()
    } else {
        Seq::empty()
    }
}

/// Appends a piece and ends its line.
fn push_section(out: &mut String, text: &str)
    ensures
        final(out)@ == old(out)@ + section(true, text@),
{
    out.append(text);
    out.append("\n");
    proof {
        reveal_strlit("\n");
        assert("\n"@ =~= line_feed());
        assert(out@ =~= old(out)@ + section(true, text@));
    }
}

impl Report {
    /// No flag picks a piece, so the full summary is due.
    pub open spec fn wants_summary(&self) -> bool {
        &&& !self.documentation
        &&& !self.downloads
        &&& !self.homepage
        &&& !self.repository
        &&& self.versions == 0
        &&& !self.features
    }

    /// The history as this run reports it: unindented, with the ages of
    /// the releases.
    pub open spec fn history(&self, package: PackageModel, now: (i64, u32), offset: i32) -> Seq<
        char,
    > {
        history_text(
            package.versions,
            release_times(
                package.versions,
                shown_count(package.versions.len(), limit_for(self.versions)),
                true,
                now,
                offset,
            ),
            limit_for(self.versions),
            Seq::empty(),
        )
    }

    /// The report of this run on one package at the time `now`, for a
    /// reader in the zone `offset` seconds east of UTC.
    pub open spec fn report_text(&self, package: PackageModel, now: (i64, u32), offset: i32) -> Seq<
        char,
    > {
        section(self.documentation, field_text(package, Field::Documentation, self.verbose))
            + section(self.downloads, field_text(package, Field::Downloads, self.verbose))
            + section(self.homepage, field_text(package, Field::Homepage, self.verbose))
            + section(self.repository, field_text(package, Field::Repository, self.verbose))
            + section(self.versions > 0, self.history(package, now, offset))
            + section(self.features, features_text(package, self.verbose))
            + section(
            self.wants_summary(),
            crate_text(package, SUMMARY_HISTORY as nat, self.verbose, now, offset),
        ) + line_feed()
    }

    /// How many releases the history lists: none where it was not asked
    /// for, five where it was asked for once, all beyond that.
    pub fn version_limit(&self) -> (limit: usize)
        ensures
            limit == limit_for(self.versions),
    {
        if self.versions == 0 {
            0
        } else if self.versions == 1 {
            5
        } else {
            usize::MAX
        }
    }

    /// The report of this run on one package at the time `now`, with
    /// calendar dates as local time in `zone`.
    pub fn report_crate(&self, package: &PackageSummary, now: &Instant, zone: &Zone) -> (out:
        String)
        ensures
            out@ == self.report_text(package@, now@, zone@),
    {
        proof {
            reveal_strlit("");
            assert(""@ =~= Seq::<char>::empty());
        }
        let mut out = String::new();
        if self.documentation {
            let text = show_field(package, Field::Documentation, self.verbose);
            push_section(&mut out, text.as_str());
        }
        assert(out@ =~= section(
            self.documentation,
            field_text(package@, Field::Documentation, self.verbose),
        ));
        let ghost first = out@;
        if self.downloads {
            let text = show_field(package, Field::Downloads, self.verbose);
            push_section(&mut out, text.as_str());
        }
        assert(out@ =~= first + section(
            self.downloads,
            field_text(package@, Field::Downloads, self.verbose),
        ));
        let ghost second = out@;
        if self.homepage {
            let text = show_field(package, Field::Homepage, self.verbose);
            push_section(&mut out, text.as_str());
        }
        assert(out@ =~= second + section(
            self.homepage,
            field_text(package@, Field::Homepage, self.verbose),
        ));
        let ghost third = out@;
        if self.repository {
            let text = show_field(package, Field::Repository, self.verbose);
            push_section(&mut out, text.as_str());
        }
        assert(out@ =~= third + section(
            self.repository,
            field_text(package@, Field::Repository, self.verbose),
        ));
        let ghost fourth = out@;
        if self.versions > 0 {
            let limit = self.version_limit();
            let text = print_last_versions(package.versions(), limit, "", true, now, zone);
            push_section(&mut out, text.as_str());
        }
        assert(out@ =~= fourth + section(
            self.versions > 0,
            self.history(package@, now@, zone@),
        ));
        let ghost fifth = out@;
        if self.features {
            let text = package.show_features(self.verbose);
            push_section(&mut out, text.as_str());
        }
        assert(out@ =~= fifth + section(self.features, features_text(package@, self.verbose)));
        let ghost sixth = out@;
        let summary = !self.documentation && !self.downloads && !self.homepage
            && !self.repository && self.versions == 0 && !self.features;
        if summary {
            let text = show_crate(package, SUMMARY_HISTORY, self.verbose, now, zone);
            push_section(&mut out, text.as_str());
        }
        assert(out@ =~= sixth + section(
            self.wants_summary(),
            crate_text(package@, SUMMARY_HISTORY as nat, self.verbose, now@, zone@),
        ));
        push_section(&mut out, "");
        assert(out@ =~= self.report_text(package@, now@, zone@));
        out
    }
}

} // verus!
