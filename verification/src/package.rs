//! Package metadata: the record as a registry sends it, and the normalised
//! summary that the renderers read.
//!
//! A record may lack any of its optional fields. A summary lacks none: an
//! absent text is the empty text, an absent list the empty list, and the
//! licence is resolved once, when the summary is made.

use vstd::prelude::*;
use vstd::string::*;
use crate::instant::Instant;
use crate::text::{join_strings, joined, line_feed, views};

verus! {

/// A feature of a release and the dependencies that it switches on.
#[derive(Debug)]
pub struct Feature {
    pub name: String,
    pub deps: Vec<String>,
}

/// What a [`Feature`] holds.
pub ghost struct FeatureModel {
    pub name: Seq<char>,
    pub deps: Seq<Seq<char>>,
}

impl View for Feature {
    type V = FeatureModel;

    open spec fn view(&self) -> FeatureModel {
        FeatureModel { name: self.name@, deps: views(self.deps@) }
    }
}

/// The views of a sequence of features.
pub open spec fn feature_models(entries: Seq<Feature>) -> Seq<FeatureModel> {
    Seq::new(entries.len(), |i: int| entries[i]@)
}

/// No two entries carry the same name.
pub open spec fn distinct_names(entries: Seq<FeatureModel>) -> bool {
    forall|i: int, j: int|
        0 <= i < j < entries.len() ==> (#[trigger] entries[i]).name != (#[trigger] entries[j]).name
}

/// Some entry carries the name `name`.
pub open spec fn has_name(entries: Seq<FeatureModel>, name: Seq<char>) -> bool {
    exists|i: int| 0 <= i < entries.len() && (#[trigger] entries[i]).name == name
}

/// The entries after `name` has been given the dependencies `deps`: the
/// entry of that name keeps its place and gets them, or a new entry is put
/// last.
pub open spec fn with_feature(
    entries: Seq<FeatureModel>,
    name: Seq<char>,
    deps: Seq<Seq<char>>,
) -> Seq<FeatureModel> {
    if has_name(entries, name) {
        let at = choose|i: int| 0 <= i < entries.len() && (#[trigger] entries[i]).name == name;
        entries.update(at, FeatureModel { name, deps })
    } else {
        entries.push(FeatureModel { name, deps })
    }
}

/// The features of a release: a mapping from feature names to dependency
/// lists, kept in the order in which the names were first inserted.
#[derive(Debug)]
pub struct FeatureTable {
    entries: Vec<Feature>,
}

impl View for FeatureTable {
    type V = Seq<FeatureModel>;

    closed spec fn view(&self) -> Seq<FeatureModel> {
        feature_models(self.entries@)
    }
}

impl FeatureTable {
    #[verifier::type_invariant]
    spec fn keys_unique(self) -> bool {
        distinct_names(feature_models(self.entries@))
    }

    /// The table without entries.
    pub fn new() -> (table: FeatureTable)
        ensures
            table@ == Seq::<FeatureModel>::empty(),
    {
        let table = FeatureTable { entries: Vec::new() };
        assert(table@ =~= Seq::<FeatureModel>::empty());
        table
    }

    /// The number of features, which all differ in their names.
    pub fn len(&self) -> (n: usize)
        ensures
            n == self@.len(),
            distinct_names(self@),
    {
        proof {
            use_type_invariant(self);
        }
        self.entries.len()
    }

    /// The feature at position `i`.
    pub fn get(&self, i: usize) -> (entry: &Feature)
        requires
            i < self@.len(),
        ensures
            entry@ == self@[i as int],
    {
        &self.entries[i]
    }

    /// Gives the feature `name` the dependencies `deps`, and returns the
    /// table. A name that the table holds already keeps its place.
    pub fn with(self, name: String, deps: Vec<String>) -> (table: FeatureTable)
        ensures
            table@ == with_feature(self@, name@, views(deps@)),
            distinct_names(table@),
    {
        proof {
            use_type_invariant(&self);
        }
        let ghost before = self@;
        let ghost entry = FeatureModel { name: name@, deps: views(deps@) };
        let mut entries = self.entries;
        let mut i: usize = 0;
        while i < entries.len()
            invariant
                i <= entries@.len(),
                before == self@,
                before == feature_models(entries@),
                entry == (FeatureModel { name: name@, deps: views(deps@) }),
                distinct_names(before),
                forall|k: int| 0 <= k < i ==> (#[trigger] before[k]).name != name@,
            decreases entries@.len() - i,
        {
            if entries[i].name == name {
                proof {
                    assert(before[i as int].name == name@);
                    let at = choose|k: int|
                        0 <= k < before.len() && (#[trigger] before[k]).name == name@;
                    assert(at == i);
                }
                entries.set(i, Feature { name, deps });
                proof {
                    let after = feature_models(entries@);
                    assert(after =~= before.update(i as int, entry));
                    assert forall|a: int, b: int| 0 <= a < b < after.len() implies (
                    #[trigger] after[a]).name != (#[trigger] after[b]).name by {
                        assert(before[a].name != before[b].name);
                    }
                }
                return FeatureTable { entries };
            }
            i += 1;
        }
        entries.push(Feature { name, deps });
        proof {
            let after = feature_models(entries@);
            assert(!has_name(before, entry.name));
            assert(after =~= before.push(entry));
            assert forall|a: int, b: int| 0 <= a < b < after.len() implies (
            #[trigger] after[a]).name != (#[trigger] after[b]).name by {
                if b < before.len() {
                    assert(before[a].name != before[b].name);
                } else {
                    assert(before[a].name != entry.name);
                }
            }
        }
        FeatureTable { entries }
    }
}

/// One published release of a package.
#[derive(Debug)]
pub struct VersionRecord {
    pub number: String,
    pub created_at: Instant,
    pub downloads: u64,
    pub yanked: bool,
    pub features: FeatureTable,
    pub license: Option<String>,
}

/// What a [`VersionRecord`] holds.
pub ghost struct VersionModel {
    pub number: Seq<char>,
    pub created_at: (i64, u32),
    pub downloads: nat,
    pub yanked: bool,
    pub features: Seq<FeatureModel>,
    pub license: Option<Seq<char>>,
}

/// The view of a text that may be absent.
pub open spec fn optional_text(text: Option<String>) -> Option<Seq<char>> {
    match text {
        Some(s) => Some(s@),
        None => None,
    }
}

impl View for VersionRecord {
    type V = VersionModel;

    open spec fn view(&self) -> VersionModel {
        VersionModel {
            number: self.number@,
            created_at: self.created_at@,
            downloads: self.downloads as nat,
            yanked: self.yanked,
            features: self.features@,
            license: optional_text(self.license),
        }
    }
}

/// The views of a sequence of releases.
pub open spec fn version_models(versions: Seq<VersionRecord>) -> Seq<VersionModel> {
    Seq::new(versions.len(), |i: int| versions[i]@)
}

/// Position `at` holds the first release numbered `number`.
pub open spec fn first_numbered(versions: Seq<VersionModel>, number: Seq<char>, at: int) -> bool {
    &&& 0 <= at < versions.len()
    &&& versions[at].number == number
    &&& forall|k: int| 0 <= k < at ==> (#[trigger] versions[k]).number != number
}

/// The first release numbered `number`, if there is one.
pub open spec fn release_numbered(versions: Seq<VersionModel>, number: Seq<char>) -> Option<
    VersionModel,
> {
    if exists|at: int| first_numbered(versions, number, at) {
        Some(versions[choose|at: int| first_numbered(versions, number, at)])
    } else {
        None
    }
}

/// The first release numbered `number` stands at `at`.
pub proof fn lemma_release_at(versions: Seq<VersionModel>, number: Seq<char>, at: int)
    requires
        first_numbered(versions, number, at),
    ensures
        release_numbered(versions, number) == Some(versions[at]),
{
    let other = choose|k: int| first_numbered(versions, number, k);
    assert(first_numbered(versions, number, other));
    if other < at {
        assert(versions[other].number != number);
    }
    if at < other {
        assert(versions[at].number != number);
    }
}

/// No release is numbered `number`.
pub proof fn lemma_no_release(versions: Seq<VersionModel>, number: Seq<char>)
    requires
        forall|k: int| 0 <= k < versions.len() ==> (#[trigger] versions[k]).number != number,
    ensures
        release_numbered(versions, number) is None,
{
    assert forall|at: int| !first_numbered(versions, number, at) by {
        if 0 <= at < versions.len() {
            assert(versions[at].number != number);
        }
    }
}

/// The first of `versions` whose number is `number`.
pub fn find_release<'a>(versions: &'a Vec<VersionRecord>, number: &String) -> (found: Option<
    &'a VersionRecord,
>)
    ensures
        match found {
            Some(v) => Some(v@),
            None => None,
        } == release_numbered(version_models(versions@), number@),
{
    let ghost models = version_models(versions@);
    let mut i: usize = 0;
    while i < versions.len()
        invariant
            i <= versions@.len(),
            models == version_models(versions@),
            forall|k: int| 0 <= k < i ==> (#[trigger] models[k]).number != number@,
        decreases versions@.len() - i,
    {
        if versions[i].number == *number {
            proof {
                assert(models[i as int] == versions@[i as int]@);
                lemma_release_at(models, number@, i as int);
            }
            return Some(&versions[i]);
        }
        assert(models[i as int].number != number@);
        i += 1;
    }
    proof {
        lemma_no_release(models, number@);
    }
    None
}

/// A package as a registry reports it. Every field but the download count
/// and the two dates may be absent.
#[derive(Debug)]
pub struct PackageRecord {
    pub name: Option<String>,
    pub latest_version: Option<String>,
    pub description: Option<String>,
    pub homepage: Option<String>,
    pub documentation: Option<String>,
    pub repository: Option<String>,
    pub license: Option<String>,
    pub downloads: u64,
    pub keywords: Option<Vec<String>>,
    pub created_at: Instant,
    pub updated_at: Instant,
    pub versions: Option<Vec<VersionRecord>>,
}

/// What a [`PackageRecord`] holds.
pub ghost struct RecordModel {
    pub name: Option<Seq<char>>,
    pub latest_version: Option<Seq<char>>,
    pub description: Option<Seq<char>>,
    pub homepage: Option<Seq<char>>,
    pub documentation: Option<Seq<char>>,
    pub repository: Option<Seq<char>>,
    pub license: Option<Seq<char>>,
    pub downloads: nat,
    pub keywords: Option<Seq<Seq<char>>>,
    pub created_at: (i64, u32),
    pub updated_at: (i64, u32),
    pub versions: Option<Seq<VersionModel>>,
}

impl View for PackageRecord {
    type V = RecordModel;

    open spec fn view(&self) -> RecordModel {
        RecordModel {
            name: optional_text(self.name),
            latest_version: optional_text(self.latest_version),
            description: optional_text(self.description),
            homepage: optional_text(self.homepage),
            documentation: optional_text(self.documentation),
            repository: optional_text(self.repository),
            license: optional_text(self.license),
            downloads: self.downloads as nat,
            keywords: match self.keywords {
                Some(k) => Some(views(k@)),
                None => None,
            },
            created_at: self.created_at@,
            updated_at: self.updated_at@,
            versions: match self.versions {
                Some(v) => Some(version_models(v@)),
                None => None,
            },
        }
    }
}

/// What a [`PackageSummary`] holds: every text present, every list present,
/// the releases newest first as they were received.
pub ghost struct PackageModel {
    pub name: Seq<char>,
    pub latest_version: Seq<char>,
    pub description: Seq<char>,
    pub homepage: Seq<char>,
    pub documentation: Seq<char>,
    pub repository: Seq<char>,
    pub license: Seq<char>,
    pub downloads: nat,
    pub keywords: Seq<Seq<char>>,
    pub created_at: (i64, u32),
    pub updated_at: (i64, u32),
    pub versions: Seq<VersionModel>,
}

/// Why a record cannot be summarised.
#[derive(Debug, Clone, Copy, PartialEq, Eq, Structural)]
pub enum ErrorKind {
    /// The record lacks its name or its latest version.
    MalformedRecord,
}

/// A text, or the empty text where it is absent.
pub open spec fn text_or_empty(text: Option<Seq<char>>) -> Seq<char> {
    match text {
        Some(s) => s,
        None => Seq::empty(),
    }
}

/// A list, or the empty list where it is absent.
pub open spec fn list_or_empty<T>(list: Option<Seq<T>>) -> Seq<T> {
    match list {
        Some(l) => l,
        None => Seq::empty(),
    }
}

/// A record can be summarised when it names the package and its latest
/// version.
pub open spec fn well_formed(record: RecordModel) -> bool {
    record.name is Some && record.latest_version is Some
}

/// The licence of a package: the record's own where it has one, else that
/// of the first release numbered as the latest version, else none.
pub open spec fn resolved_license(record: RecordModel) -> Seq<char> {
    match record.license {
        Some(license) => license,
        None => match release_numbered(
            list_or_empty(record.versions),
            text_or_empty(record.latest_version),
        ) {
            Some(release) => text_or_empty(release.license),
            None => Seq::empty(),
        },
    }
}

/// The summary of a well-formed record.
pub open spec fn normalized(record: RecordModel) -> PackageModel {
    PackageModel {
        name: text_or_empty(record.name),
        latest_version: text_or_empty(record.latest_version),
        description: text_or_empty(record.description),
        homepage: text_or_empty(record.homepage),
        documentation: text_or_empty(record.documentation),
        repository: text_or_empty(record.repository),
        license: resolved_license(record),
        downloads: record.downloads,
        keywords: list_or_empty(record.keywords),
        created_at: record.created_at,
        updated_at: record.updated_at,
        versions: list_or_empty(record.versions),
    }
}

/// The comma and the blank that part the items of a list.
pub open spec fn list_separator() -> Seq<char> {
    seq![',', ' ']
}

/// The names of the features, in order.
pub open spec fn feature_names(features: Seq<FeatureModel>) -> Seq<Seq<char>> {
    Seq::new(features.len(), |i: int| features[i].name)
}

/// A feature's name, a colon and a blank, and its dependencies as a list.
pub open spec fn feature_line(feature: FeatureModel) -> Seq<char> {
    feature.name + seq![':', ' '] + joined(feature.deps, list_separator())
}

/// One line for each feature, in order.
pub open spec fn feature_lines(features: Seq<FeatureModel>) -> Seq<Seq<char>> {
    Seq::new(features.len(), |i: int| feature_line(features[i]))
}

/// The feature list of a package, read from the first release numbered as
/// its latest version: the names as one list, or, in the verbose form, a
/// line for each feature. Empty where no release bears that number.
pub open spec fn features_text(package: PackageModel, verbose: bool) -> Seq<char> {
    match release_numbered(package.versions, package.latest_version) {
        Some(release) => if verbose {
            joined(feature_lines(release.features), line_feed())
        } else {
            joined(feature_names(release.features), list_separator())
        },
        None => Seq::empty(),
    }
}

/// The keywords of a package as one list, in their order and with their
/// repetitions.
pub open spec fn keywords_text(package: PackageModel) -> Seq<char> {
    joined(package.keywords, list_separator())
}

fn text_or_default(text: Option<String>) -> (out: String)
    ensures
        out@ == text_or_empty(optional_text(text)),
{
    match text {
        Some(s) => s,
        None => String::new(),
    }
}

/// The normalised, read-only metadata of one package.
#[derive(Debug)]
pub struct PackageSummary {
    name: String,
    latest_version: String,
    description: String,
    homepage: String,
    documentation: String,
    repository: String,
    license: String,
    downloads: u64,
    keywords: Vec<String>,
    created_at: Instant,
    updated_at: Instant,
    versions: Vec<VersionRecord>,
}

impl View for PackageSummary {
    type V = PackageModel;

    closed spec fn view(&self) -> PackageModel {
        PackageModel {
            name: self.name@,
            latest_version: self.latest_version@,
            description: self.description@,
            homepage: self.homepage@,
            documentation: self.documentation@,
            repository: self.repository@,
            license: self.license@,
            downloads: self.downloads as nat,
            keywords: views(self.keywords@),
            created_at: self.created_at@,
            updated_at: self.updated_at@,
            versions: version_models(self.versions@),
        }
    }
}

impl PackageSummary {
    /// Summarises a record: absent texts become empty, absent lists empty,
    /// and the licence is resolved. A record without a name or without a
    /// latest version is malformed, and no other is.
    pub fn from_record(record: PackageRecord) -> (made: Result<PackageSummary, ErrorKind>)
        ensures
            made is Ok <==> well_formed(record@),
            made matches Ok(summary) ==> summary@ == normalized(record@),
            made matches Err(kind) ==> kind == ErrorKind::MalformedRecord,
    {
        let ghost model = record@;
        let PackageRecord {
            name,
            latest_version,
            description,
            homepage,
            documentation,
            repository,
            license,
            downloads,
            keywords,
            created_at,
            updated_at,
            versions,
        } = record;
        let name = match name {
            Some(s) => s,
            None => {
                return Err(ErrorKind::MalformedRecord);
            },
        };
        let latest_version = match latest_version {
            Some(s) => s,
            None => {
                return Err(ErrorKind::MalformedRecord);
            },
        };
        let keywords = match keywords {
            Some(k) => k,
            None => Vec::new(),
        };
        let versions = match versions {
            Some(v) => v,
            None => Vec::new(),
        };
        assert(views(keywords@) =~= list_or_empty(model.keywords));
        assert(version_models(versions@) =~= list_or_empty(model.versions));
        let license = match license {
            Some(l) => l,
            None => match find_release(&versions, &latest_version) {
                Some(release) => match &release.license {
                    Some(l) => l.clone(),
                    None => String::new(),
                },
                None => String::new(),
            },
        };
        assert(license@ == resolved_license(model));
        let summary = PackageSummary {
            name,
            latest_version,
            description: text_or_default(description),
            homepage: text_or_default(homepage),
            documentation: text_or_default(documentation),
            repository: text_or_default(repository),
            license,
            downloads,
            keywords,
            created_at,
            updated_at,
            versions,
        };
        Ok(summary)
    }

    /// The package's name.
    pub fn name(&self) -> (text: &str)
        ensures
            text@ == self@.name,
    {
        self.name.as_str()
    }

    /// The number of the latest version.
    pub fn max_version(&self) -> (text: &str)
        ensures
            text@ == self@.latest_version,
    {
        self.latest_version.as_str()
    }

    /// The description, empty where the record had none.
    pub fn description(&self) -> (text: &str)
        ensures
            text@ == self@.description,
    {
        self.description.as_str()
    }

    /// The homepage, empty where the record had none.
    pub fn homepage(&self) -> (text: &str)
        ensures
            text@ == self@.homepage,
    {
        self.homepage.as_str()
    }

    /// The documentation address, empty where the record had none.
    pub fn documentation(&self) -> (text: &str)
        ensures
            text@ == self@.documentation,
    {
        self.documentation.as_str()
    }

    /// The repository address, empty where the record had none.
    pub fn repository(&self) -> (text: &str)
        ensures
            text@ == self@.repository,
    {
        self.repository.as_str()
    }

    /// The licence as resolved when the summary was made.
    pub fn license(&self) -> (text: &str)
        ensures
            text@ == self@.license,
    {
        self.license.as_str()
    }

    /// The number of downloads.
    pub fn downloads(&self) -> (count: u64)
        ensures
            count == self@.downloads,
    {
        self.downloads
    }

    /// The keywords, in the record's order.
    pub fn keywords(&self) -> (list: &Vec<String>)
        ensures
            views(list@) == self@.keywords,
    {
        &self.keywords
    }

    /// The releases, in the record's order.
    pub fn versions(&self) -> (list: &Vec<VersionRecord>)
        ensures
            version_models(list@) == self@.versions,
    {
        &self.versions
    }

    /// When the package was first published.
    pub fn created_at(&self) -> (at: Instant)
        ensures
            at@ == self@.created_at,
    {
        self.created_at
    }

    /// When the package was last changed.
    pub fn updated_at(&self) -> (at: Instant)
        ensures
            at@ == self@.updated_at,
    {
        self.updated_at
    }

    /// The first release numbered as the latest version, if there is one.
    pub fn max_version_detailed(&self) -> (found: Option<&VersionRecord>)
        ensures
            match found {
                Some(v) => Some(v@),
                None => None,
            } == release_numbered(self@.versions, self@.latest_version),
    {
        find_release(&self.versions, &self.latest_version)
    }

    /// The keywords as one list.
    pub fn show_keywords(&self) -> (out: String)
        ensures
            out@ == keywords_text(self@),
    {
        proof {
            reveal_strlit(", ");
            assert(", "@ =~= list_separator());
        }
        join_strings(", ", &self.keywords)
    }

    /// The features of the latest version: their names as one list, or, in
    /// the verbose form, one line for each with its dependencies.
    pub fn show_features(&self, verbose: bool) -> (out: String)
        ensures
            out@ == features_text(self@, verbose),
    {
        proof {
            reveal_strlit(", ");
            reveal_strlit(": ");
            reveal_strlit("\n");
            assert(", "@ =~= list_separator());
            assert(": "@ =~= seq![':', ' ']);
            assert("\n"@ =~= line_feed());
        }
        match self.max_version_detailed() {
            None => String::new(),
            Some(release) => {
                let features = &release.features;
                let ghost entries = features@;
                let mut items: Vec<String> = Vec::new();
                let mut i: usize = 0;
                while i < features.len()
                    invariant
                        i <= entries.len(),
                        entries == features@,
                        ", "@ == list_separator(),
                        ": "@ == seq![':', ' '],
                        items@.len() == i,
                        forall|k: int|
                            0 <= k < i ==> (#[trigger] items@[k])@ == if verbose {
                                feature_line(entries[k])
                            } else {
                                entries[k].name
                            },
                    decreases entries.len() - i,
                {
                    let feature = features.get(i);
                    let mut item = feature.name.clone();
                    if verbose {
                        let deps = join_strings(", ", &feature.deps);
                        item.append(": ");
                        item.append(deps.as_str());
                    }
                    items.push(item);
                    i += 1;
                }
                if verbose {
                    assert(views(items@) =~= feature_lines(entries));
                    join_strings("\n", &items)
                } else {
                    assert(views(items@) =~= feature_names(entries));
                    join_strings(", ", &items)
                }
            },
        }
    }
}

} // verus!
