//! Finding the files to publish among what the path patterns matched.

use crate::error::{PublishError, PublishErrorView};
use crate::filename::{DistFilename, DistFilenameView};
use std::path::PathBuf;
use vstd::prelude::*;

verus! {

/// `rustc_hash::FxBuildHasher`, the hasher of an `FxHashSet`. Nothing is said of it.
#[verifier::external_type_specification]
#[verifier::external_body]
pub struct ExFxBuildHasher(rustc_hash::FxBuildHasher);

/// The paths that a set of seen paths holds.
pub uninterp spec fn seen_paths(seen: rustc_hash::FxHashSet<String>) -> Set<Seq<char>>;

/// Makes an empty `rustc_hash::FxHashSet` with `Default::default`.
#[verifier::external_body]
fn seen_new() -> (seen: rustc_hash::FxHashSet<String>)
    ensures
        seen_paths(seen) == Set::<Seq<char>>::empty(),
{
    rustc_hash::FxHashSet::default()
}

/// Adds a path with `HashSet::insert`, which tells whether the set did not
/// hold an equal one before, and leaves the set as it was if it did.
#[verifier::external_body]
fn seen_insert(seen: &mut rustc_hash::FxHashSet<String>, path: String) -> (fresh: bool)
    ensures
        fresh == !seen_paths(*old(seen)).contains(path@),
        seen_paths(*final(seen)) == seen_paths(*old(seen)).insert(path@),
{
    seen.insert(path)
}

/// What the name of a matched path says.
#[derive(Clone, Debug)]
pub enum CandidateName {
    /// The path ends in no file name that is text.
    Unreadable,
    /// The file name is that of neither a wheel nor a source distribution.
    Unrecognized,
    /// The file name, classified.
    Recognized(DistFilename),
}

/// A path that a pattern matched.
#[derive(Clone, Debug)]
pub struct Candidate {
    /// The path as the pattern matched it.
    pub path: PathBuf,
    /// The same path as text.
    pub path_text: String,
    /// The canonical path of the file, by which it is known however it was
    /// spelled; `None` where the file system does not give one.
    pub canonical: Option<String>,
    /// Whether the path leads to a regular file.
    pub is_file: bool,
    pub name: CandidateName,
}

/// A path pattern with what came of expanding it: the reason why it is no
/// pattern, or else a path or a failure for each step of the walk, in order.
#[derive(Debug)]
pub struct Expansion {
    pub pattern: String,
    pub matches: Result<Vec<Result<Candidate, glob::GlobError>>, glob::PatternError>,
}

/// A file to publish: its path as it was matched, and its classified name.
pub type Found = (PathBuf, DistFilenameView);

/// How far discovery has come: what the regular files met are known by, the
/// files to publish among them, and for each of these what it is known by.
pub struct Scan {
    pub seen: Set<Seq<char>>,
    pub files: Seq<Found>,
    pub known_by: Seq<Seq<char>>,
}

/// The files to publish as paths and names in plain text.
pub open spec fn files_view(files: Seq<(PathBuf, DistFilename)>) -> Seq<Found> {
    Seq::new(files.len(), |i: int| (files[i].0, files[i].1@))
}

/// What a file is known by: its canonical path, which is the same however the
/// file was spelled, and the path as it was matched where it has none.
pub open spec fn known_as(candidate: Candidate) -> Seq<char> {
    match candidate.canonical {
        Some(canonical) => canonical@,
        None => candidate.path_text@,
    }
}

/// The file that the candidate leads to was met before.
pub open spec fn met_before(scan: Scan, candidate: Candidate) -> bool {
    scan.seen.contains(known_as(candidate))
}

/// Discovery after one more step of a walk. A failure of the walk ends it. A
/// path that leads to no regular file, or to a file that was met before,
/// changes nothing. A new regular file is remembered by what it is known by;
/// it is a file to publish if its name is that of a distribution, and ends
/// discovery if it is not.
pub open spec fn scan_entry(scan: Scan, entry: Result<Candidate, glob::GlobError>) -> Result<
    Scan,
    PublishErrorView,
> {
    match entry {
        Err(cause) => Err(PublishErrorView::Glob(cause)),
        Ok(candidate) => if !candidate.is_file || met_before(scan, candidate) {
            Ok(scan)
        } else {
            match candidate.name {
                CandidateName::Recognized(filename) => Ok(
                    Scan {
                        seen: scan.seen.insert(known_as(candidate)),
                        files: scan.files.push((candidate.path, filename@)),
                        known_by: scan.known_by.push(known_as(candidate)),
                    },
                ),
                _ => Err(PublishErrorView::InvalidFilename(candidate.path)),
            }
        },
    }
}

/// Discovery after the steps of one walk, taken in order up to the first that
/// ends it.
pub open spec fn scan_entries(
    scan: Scan,
    entries: Seq<Result<Candidate, glob::GlobError>>,
) -> Result<Scan, PublishErrorView>
    decreases entries.len(),
{
    if entries.len() == 0 {
        Ok(scan)
    } else {
        match scan_entry(scan, entries[0]) {
            Ok(next) => scan_entries(next, entries.drop_first()),
            Err(cause) => Err(cause),
        }
    }
}

/// Discovery after one more pattern: what is no pattern ends it.
pub open spec fn scan_expansion(scan: Scan, expansion: Expansion) -> Result<
    Scan,
    PublishErrorView,
> {
    match expansion.matches {
        Err(cause) => Err(PublishErrorView::Pattern(expansion.pattern@, cause)),
        Ok(entries) => scan_entries(scan, entries@),
    }
}

/// Discovery after the patterns, taken in order up to the first step that ends it.
pub open spec fn scan_expansions(scan: Scan, expansions: Seq<Expansion>) -> Result<
    Scan,
    PublishErrorView,
>
    decreases expansions.len(),
{
    if expansions.len() == 0 {
        Ok(scan)
    } else {
        match scan_expansion(scan, expansions[0]) {
            Ok(next) => scan_expansions(next, expansions.drop_first()),
            Err(cause) => Err(cause),
        }
    }
}

/// Discovery before anything was looked at.
pub open spec fn empty_scan() -> Scan {
    Scan { seen: Set::empty(), files: Seq::empty(), known_by: Seq::empty() }
}

/// The files to publish: each regular file with the name of a distribution
/// once, however often and under whichever spellings the patterns matched it,
/// in the order in which it was first matched. It is an error if there is none.
pub open spec fn discovered(expansions: Seq<Expansion>) -> Result<Seq<Found>, PublishErrorView> {
    match scan_expansions(empty_scan(), expansions) {
        Ok(scan) => if scan.files.len() == 0 {
            Err(PublishErrorView::NoFiles)
        } else {
            Ok(scan.files)
        },
        Err(cause) => Err(cause),
    }
}

/// What each file to publish is known by, in the order of the files.
pub open spec fn discovered_known_by(expansions: Seq<Expansion>) -> Seq<Seq<char>> {
    match scan_expansions(empty_scan(), expansions) {
        Ok(scan) => scan.known_by,
        Err(_) => Seq::empty(),
    }
}

/// The files found, or the reason for none, in plain text.
pub open spec fn discovery_view(files: Result<Vec<(PathBuf, DistFilename)>, PublishError>) -> Result<
    Seq<Found>,
    PublishErrorView,
> {
    match files {
        Ok(files) => Ok(files_view(files@)),
        Err(cause) => Err(cause@),
    }
}

/// Takes the steps of one walk. `known_by` holds what the files found so far
/// are known by.
fn scan_matches(
    seen: &mut rustc_hash::FxHashSet<String>,
    files: &mut Vec<(PathBuf, DistFilename)>,
    entries: Vec<Result<Candidate, glob::GlobError>>,
    Ghost(known_by): Ghost<Seq<Seq<char>>>,
) -> (done: Result<Ghost<Seq<Seq<char>>>, PublishError>)
    ensures
        ({
            let before = Scan {
                seen: seen_paths(*old(seen)),
                files: files_view(old(files)@),
                known_by,
            };
            match done {
                Ok(now) => scan_entries(before, entries@) == Ok::<Scan, PublishErrorView>(
                    Scan {
                        seen: seen_paths(*final(seen)),
                        files: files_view(final(files)@),
                        known_by: now@,
                    },
                ),
                Err(cause) => scan_entries(before, entries@) == Err::<Scan, PublishErrorView>(
                    cause@,
                ),
            }
        }),
{
    let ghost before = Scan { seen: seen_paths(*seen), files: files_view(files@), known_by };
    let ghost all = entries@;
    let ghost mut keys = known_by;
    assert(all.skip(0) =~= all);
    for entry in it: entries
        invariant
            it.seq() == all,
            before == (Scan {
                seen: seen_paths(*old(seen)),
                files: files_view(old(files)@),
                known_by,
            }),
            scan_entries(
                Scan { seen: seen_paths(*seen), files: files_view(files@), known_by: keys },
                all.skip(it.index() as int),
            ) == scan_entries(before, all),
    {
        let ghost now = Scan { seen: seen_paths(*seen), files: files_view(files@), known_by: keys };
        let ghost rest = all.skip(it.index() as int);
        proof {
            assert(rest.len() > 0);
            assert(rest[0] == entry);
            assert(rest.drop_first() =~= all.skip(it.index() + 1));
            assert(scan_entries(now, rest) == match scan_entry(now, entry) {
                Ok(next) => scan_entries(next, rest.drop_first()),
                Err(cause) => Err(cause),
            });
        }
        match entry {
            Err(cause) => {
                return Err(PublishError::Glob(cause));
            },
            Ok(candidate) => {
                if candidate.is_file {
                    let ghost known = known_as(candidate);
                    let Candidate { path, path_text, canonical, is_file: _, name } = candidate;
                    let key = match canonical {
                        Some(canonical) => canonical,
                        None => path_text,
                    };
                    let fresh = seen_insert(seen, key);
                    assert(!fresh ==> seen_paths(*seen) =~= now.seen);
                    if fresh {
                        match name {
                            CandidateName::Recognized(filename) => {
                                let ghost shorter = files@;
                                files.push((path, filename));
                                proof {
                                    assert(files_view(files@) =~= files_view(shorter).push(
                                        (path, filename@),
                                    ));
                                    keys = keys.push(known);
                                }
                            },
                            _ => {
                                return Err(PublishError::InvalidFilename(path));
                            },
                        }
                    }
                }
            },
        }
    }
    assert(all.skip(all.len() as int) =~= Seq::empty());
    Ok(Ghost(keys))
}

/// Picks the files to publish from what the path patterns matched. Only
/// regular files count, each once by its canonical path or, where it has
/// none, by its path as matched, and each must bear the name of a wheel or a
/// source distribution. The files come under the paths and in the order in
/// which they were first matched.
pub fn files_for_publishing(paths: Vec<Expansion>) -> (files: Result<
    Vec<(PathBuf, DistFilename)>,
    PublishError,
>)
    ensures
        discovery_view(files) == discovered(paths@),
{
    let mut seen = seen_new();
    let mut files: Vec<(PathBuf, DistFilename)> = Vec::new();
    let mut known_by: Ghost<Seq<Seq<char>>> = Ghost(Seq::empty());
    let ghost all = paths@;
    assert(files_view(files@) =~= Seq::empty());
    assert(all.skip(0) =~= all);
    for expansion in it: paths
        invariant
            it.seq() == all,
            scan_expansions(
                Scan { seen: seen_paths(seen), files: files_view(files@), known_by: known_by@ },
                all.skip(it.index() as int),
            ) == scan_expansions(empty_scan(), all),
    {
        let ghost rest = all.skip(it.index() as int);
        let ghost now = Scan {
            seen: seen_paths(seen),
            files: files_view(files@),
            known_by: known_by@,
        };
        proof {
            assert(rest.len() > 0);
            assert(rest[0] == expansion);
            assert(rest.drop_first() =~= all.skip(it.index() + 1));
            assert(scan_expansions(now, rest) == match scan_expansion(now, expansion) {
                Ok(next) => scan_expansions(next, rest.drop_first()),
                Err(cause) => Err(cause),
            });
        }
        let Expansion { pattern, matches } = expansion;
        match matches {
            Err(cause) => {
                return Err(PublishError::Pattern(pattern, cause));
            },
            Ok(entries) => {
                match scan_matches(&mut seen, &mut files, entries, known_by) {
                    Ok(now) => {
                        known_by = now;
                    },
                    Err(cause) => {
                        return Err(cause);
                    },
                }
            },
        }
    }
    assert(all.skip(all.len() as int) =~= Seq::empty());
    if files.len() == 0 {
        Err(PublishError::NoFiles)
    } else {
        Ok(files)
    }
}

/// A step of a walk that is a path to something other than a regular file.
pub open spec fn is_no_file(entry: Result<Candidate, glob::GlobError>) -> bool {
    entry matches Ok(candidate) && !candidate.is_file
}

/// The pattern is one, and its walk met no regular file.
pub open spec fn walked_no_file(expansion: Expansion) -> bool {
    expansion.matches matches Ok(entries) && forall|j: int|
        0 <= j < entries@.len() ==> is_no_file(#[trigger] entries@[j])
}

/// Every pattern is one, and no walk met a regular file.
pub open spec fn matched_no_file(expansions: Seq<Expansion>) -> bool {
    forall|i: int| 0 <= i < expansions.len() ==> walked_no_file(#[trigger] expansions[i])
}

proof fn lemma_no_file_entries(scan: Scan, entries: Seq<Result<Candidate, glob::GlobError>>)
    requires
        forall|j: int| 0 <= j < entries.len() ==> is_no_file(#[trigger] entries[j]),
    ensures
        scan_entries(scan, entries) == Ok::<Scan, PublishErrorView>(scan),
    decreases entries.len(),
{
    if entries.len() > 0 {
        assert(is_no_file(entries[0]));
        let rest = entries.drop_first();
        assert forall|j: int| 0 <= j < rest.len() implies is_no_file(#[trigger] rest[j]) by {
            assert(rest[j] == entries[j + 1]);
        }
        lemma_no_file_entries(scan, rest);
    }
}

proof fn lemma_no_file_expansions(scan: Scan, expansions: Seq<Expansion>)
    requires
        matched_no_file(expansions),
    ensures
        scan_expansions(scan, expansions) == Ok::<Scan, PublishErrorView>(scan),
    decreases expansions.len(),
{
    if expansions.len() > 0 {
        let first = expansions[0];
        assert(walked_no_file(first));
        lemma_no_file_entries(scan, first.matches->Ok_0@);
        let rest = expansions.drop_first();
        assert forall|i: int| 0 <= i < rest.len() implies walked_no_file(#[trigger] rest[i]) by {
            assert(rest[i] == expansions[i + 1]);
        }
        lemma_no_file_expansions(scan, rest);
    }
}

/// Patterns that are all well formed and match no regular file, be it that
/// they match nothing at all, fail for want of files.
pub proof fn lemma_no_match_is_no_files(expansions: Seq<Expansion>)
    requires
        matched_no_file(expansions),
    ensures
        discovered(expansions) == Err::<Seq<Found>, PublishErrorView>(PublishErrorView::NoFiles),
{
    lemma_no_file_expansions(empty_scan(), expansions);
}

/// A path to a file that was met before changes nothing, whatever its
/// spelling and whatever its name: a file is looked at once.
pub proof fn lemma_known_file_is_passed_over(scan: Scan, candidate: Candidate)
    requires
        met_before(scan, candidate),
    ensures
        scan_entry(scan, Ok(candidate)) == Ok::<Scan, PublishErrorView>(scan),
{
}

/// A regular file that was not met before and whose name is not that of a
/// wheel or a source distribution ends discovery: it is refused by its path,
/// whatever was found up to then.
pub proof fn lemma_unrecognized_name_is_refused(scan: Scan, candidate: Candidate)
    requires
        candidate.is_file,
        !met_before(scan, candidate),
        !(candidate.name is Recognized),
    ensures
        scan_entry(scan, Ok(candidate)) == Err::<Scan, PublishErrorView>(
            PublishErrorView::InvalidFilename(candidate.path),
        ),
{
}

/// A step that neither fails nor meets a regular file with a name that is
/// not that of a distribution.
pub open spec fn is_harmless(entry: Result<Candidate, glob::GlobError>) -> bool {
    entry matches Ok(candidate) && (!candidate.is_file || candidate.name is Recognized)
}

/// The step is a path to the regular file that is known by `known`.
pub open spec fn leads_to(entry: Result<Candidate, glob::GlobError>, known: Seq<char>) -> bool {
    &&& entry matches Ok(candidate)
    &&& candidate.is_file
    &&& known_as(candidate) == known
}

/// The pattern is one, each step of its walk is harmless, and none leads to
/// the file that is known by `known`.
pub open spec fn walked_harmlessly(expansion: Expansion, known: Seq<char>) -> bool {
    expansion.matches matches Ok(entries) && forall|j: int|
        0 <= j < entries@.len() ==> is_harmless(#[trigger] entries@[j]) && !leads_to(
            entries@[j],
            known,
        )
}

/// Step `k` of the walk of pattern `p` is the first that ends discovery, and
/// it does so by the name of its file: every pattern up to `p` is one, every
/// step before is harmless, and step `k` is a path to a regular file that no
/// step before led to and whose name is not that of a distribution.
pub open spec fn first_unrecognized(expansions: Seq<Expansion>, p: int, k: int) -> bool {
    &&& 0 <= p < expansions.len()
    &&& expansions[p].matches matches Ok(entries)
    &&& 0 <= k < entries@.len()
    &&& entries@[k] matches Ok(candidate)
    &&& candidate.is_file
    &&& !(candidate.name is Recognized)
    &&& forall|i: int| 0 <= i < p ==> walked_harmlessly(#[trigger] expansions[i], known_as(candidate))
    &&& forall|j: int|
        0 <= j < k ==> is_harmless(#[trigger] entries@[j]) && !leads_to(
            entries@[j],
            known_as(candidate),
        )
}

proof fn lemma_harmless_entries(
    scan: Scan,
    entries: Seq<Result<Candidate, glob::GlobError>>,
    known: Seq<char>,
)
    requires
        !scan.seen.contains(known),
        forall|j: int|
            0 <= j < entries.len() ==> is_harmless(#[trigger] entries[j]) && !leads_to(
                entries[j],
                known,
            ),
    ensures
        scan_entries(scan, entries) matches Ok(after) && !after.seen.contains(known),
    decreases entries.len(),
{
    if entries.len() > 0 {
        assert(is_harmless(entries[0]));
        let next = scan_entry(scan, entries[0])->Ok_0;
        assert(!next.seen.contains(known));
        let rest = entries.drop_first();
        assert forall|j: int| 0 <= j < rest.len() implies is_harmless(#[trigger] rest[j])
            && !leads_to(rest[j], known) by {
            assert(rest[j] == entries[j + 1]);
        }
        lemma_harmless_entries(next, rest, known);
    }
}

proof fn lemma_refused_after_harmless(
    scan: Scan,
    entries: Seq<Result<Candidate, glob::GlobError>>,
    k: int,
)
    requires
        0 <= k < entries.len(),
        entries[k] is Ok,
        entries[k]->Ok_0.is_file,
        !(entries[k]->Ok_0.name is Recognized),
        !scan.seen.contains(known_as(entries[k]->Ok_0)),
        forall|j: int|
            0 <= j < k ==> is_harmless(#[trigger] entries[j]) && !leads_to(
                entries[j],
                known_as(entries[k]->Ok_0),
            ),
    ensures
        scan_entries(scan, entries) == Err::<Scan, PublishErrorView>(
            PublishErrorView::InvalidFilename(entries[k]->Ok_0.path),
        ),
    decreases k,
{
    let known = known_as(entries[k]->Ok_0);
    if k > 0 {
        assert(is_harmless(entries[0]));
        let next = scan_entry(scan, entries[0])->Ok_0;
        assert(!next.seen.contains(known));
        let rest = entries.drop_first();
        assert(rest[k - 1] == entries[k]);
        assert forall|j: int| 0 <= j < k - 1 implies is_harmless(#[trigger] rest[j])
            && !leads_to(rest[j], known) by {
            assert(rest[j] == entries[j + 1]);
        }
        lemma_refused_after_harmless(next, rest, k - 1);
    }
}

proof fn lemma_refused_after_harmless_walks(
    scan: Scan,
    expansions: Seq<Expansion>,
    p: int,
    k: int,
)
    requires
        first_unrecognized(expansions, p, k),
        !scan.seen.contains(known_as(expansions[p].matches->Ok_0@[k]->Ok_0)),
    ensures
        scan_expansions(scan, expansions) == Err::<Scan, PublishErrorView>(
            PublishErrorView::InvalidFilename(expansions[p].matches->Ok_0@[k]->Ok_0.path),
        ),
    decreases p,
{
    let candidate = expansions[p].matches->Ok_0@[k]->Ok_0;
    let known = known_as(candidate);
    if p == 0 {
        lemma_refused_after_harmless(scan, expansions[0].matches->Ok_0@, k);
    } else {
        let first = expansions[0];
        assert(walked_harmlessly(first, known));
        lemma_harmless_entries(scan, first.matches->Ok_0@, known);
        let next = scan_expansion(scan, first)->Ok_0;
        let rest = expansions.drop_first();
        assert(rest[p - 1] == expansions[p]);
        assert forall|i: int| 0 <= i < p - 1 implies walked_harmlessly(
            #[trigger] rest[i],
            known,
        ) by {
            assert(rest[i] == expansions[i + 1]);
        }
        lemma_refused_after_harmless_walks(next, rest, p - 1, k);
    }
}

/// After patterns and steps that neither fail nor meet a regular file with
/// the name of no distribution, the first new regular file with such a name
/// ends discovery: it is refused with its path, whatever was found before it
/// and whatever comes after it.
pub proof fn lemma_first_unrecognized_is_refused(expansions: Seq<Expansion>, p: int, k: int)
    requires
        first_unrecognized(expansions, p, k),
    ensures
        discovered(expansions) == Err::<Seq<Found>, PublishErrorView>(
            PublishErrorView::InvalidFilename(expansions[p].matches->Ok_0@[k]->Ok_0.path),
        ),
{
    lemma_refused_after_harmless_walks(empty_scan(), expansions, p, k);
}

/// Every file found is listed with what it is known by, each of these was
/// met, and none stands twice.
pub open spec fn found_once(scan: Scan) -> bool {
    &&& scan.known_by.len() == scan.files.len()
    &&& forall|i: int|
        0 <= i < scan.known_by.len() ==> scan.seen.contains(#[trigger] scan.known_by[i])
    &&& forall|i: int, j: int|
        0 <= i < j < scan.known_by.len() ==> (#[trigger] scan.known_by[i])
            != (#[trigger] scan.known_by[j])
}

proof fn lemma_entries_found_once(scan: Scan, entries: Seq<Result<Candidate, glob::GlobError>>)
    requires
        found_once(scan),
    ensures
        scan_entries(scan, entries) matches Ok(after) ==> found_once(after),
    decreases entries.len(),
{
    if entries.len() > 0 {
        if let Ok(next) = scan_entry(scan, entries[0]) {
            assert(found_once(next));
            lemma_entries_found_once(next, entries.drop_first());
        }
    }
}

proof fn lemma_expansions_found_once(scan: Scan, expansions: Seq<Expansion>)
    requires
        found_once(scan),
    ensures
        scan_expansions(scan, expansions) matches Ok(after) ==> found_once(after),
    decreases expansions.len(),
{
    if expansions.len() > 0 {
        if let Ok(next) = scan_expansion(scan, expansions[0]) {
            lemma_entries_found_once(scan, expansions[0].matches->Ok_0@);
            lemma_expansions_found_once(next, expansions.drop_first());
        }
    }
}

/// No file stands twice among the files to publish: each has beside it what
/// it is known by, its canonical path or else its path as matched, and none
/// of these occurs twice, however often and under whichever spellings the
/// patterns matched the file.
pub proof fn lemma_files_are_distinct(expansions: Seq<Expansion>)
    ensures
        discovered(expansions) matches Ok(files) ==> {
            let known_by = discovered_known_by(expansions);
            &&& known_by.len() == files.len()
            &&& forall|i: int, j: int|
                0 <= i < j < known_by.len() ==> (#[trigger] known_by[i])
                    != (#[trigger] known_by[j])
        },
{
    lemma_expansions_found_once(empty_scan(), expansions);
}

/// The step is a path, and if it leads to a regular file, to one that was met.
pub open spec fn is_met(scan: Scan, entry: Result<Candidate, glob::GlobError>) -> bool {
    entry matches Ok(candidate) && (candidate.is_file ==> met_before(scan, candidate))
}

/// Every step of the walk is a path, and each that leads to a regular file
/// leads to one that was met.
pub open spec fn all_met(scan: Scan, entries: Seq<Result<Candidate, glob::GlobError>>) -> bool {
    forall|j: int| 0 <= j < entries.len() ==> is_met(scan, #[trigger] entries[j])
}

proof fn lemma_met_entries_change_nothing(
    scan: Scan,
    entries: Seq<Result<Candidate, glob::GlobError>>,
)
    requires
        all_met(scan, entries),
    ensures
        scan_entries(scan, entries) == Ok::<Scan, PublishErrorView>(scan),
    decreases entries.len(),
{
    if entries.len() > 0 {
        assert(is_met(scan, entries[0]));
        let rest = entries.drop_first();
        assert forall|j: int| 0 <= j < rest.len() implies is_met(scan, #[trigger] rest[j]) by {
            assert(rest[j] == entries[j + 1]);
        }
        lemma_met_entries_change_nothing(scan, rest);
    }
}

proof fn lemma_entries_are_remembered(
    scan: Scan,
    entries: Seq<Result<Candidate, glob::GlobError>>,
)
    ensures
        scan_entries(scan, entries) matches Ok(after) ==> scan.seen.subset_of(after.seen)
            && all_met(after, entries),
    decreases entries.len(),
{
    if entries.len() > 0 {
        if let Ok(next) = scan_entry(scan, entries[0]) {
            let rest = entries.drop_first();
            lemma_entries_are_remembered(next, rest);
            if let Ok(after) = scan_entries(next, rest) {
                assert forall|j: int| 0 <= j < entries.len() implies is_met(
                    after,
                    #[trigger] entries[j],
                ) by {
                    if j > 0 {
                        assert(rest[j - 1] == entries[j]);
                        assert(is_met(after, rest[j - 1]));
                    } else {
                        assert(is_met(next, entries[0]));
                    }
                }
            }
        }
    }
}

/// The pattern is one and each regular file of its walk was met.
pub open spec fn walk_met(scan: Scan, expansion: Expansion) -> bool {
    expansion.matches matches Ok(entries) && all_met(scan, entries@)
}

proof fn lemma_expansions_are_remembered(scan: Scan, expansions: Seq<Expansion>)
    ensures
        scan_expansions(scan, expansions) matches Ok(after) ==> scan.seen.subset_of(after.seen)
            && forall|i: int| 0 <= i < expansions.len() ==> walk_met(after, #[trigger] expansions[i]),
    decreases expansions.len(),
{
    if expansions.len() > 0 {
        if let Ok(next) = scan_expansion(scan, expansions[0]) {
            let rest = expansions.drop_first();
            lemma_entries_are_remembered(scan, expansions[0].matches->Ok_0@);
            lemma_expansions_are_remembered(next, rest);
            if let Ok(after) = scan_expansions(next, rest) {
                assert forall|i: int| 0 <= i < expansions.len() implies walk_met(
                    after,
                    #[trigger] expansions[i],
                ) by {
                    if i > 0 {
                        assert(rest[i - 1] == expansions[i]);
                    } else {
                        let entries = expansions[0].matches->Ok_0@;
                        assert forall|j: int| 0 <= j < entries.len() implies is_met(
                            after,
                            #[trigger] entries[j],
                        ) by {
                            assert(is_met(next, entries[j]));
                        }
                    }
                }
            }
        }
    }
}

proof fn lemma_scan_one_more(scan: Scan, expansions: Seq<Expansion>, last: Expansion)
    ensures
        scan_expansions(scan, expansions.push(last)) == match scan_expansions(scan, expansions) {
            Ok(after) => scan_expansion(after, last),
            Err(cause) => Err(cause),
        },
    decreases expansions.len(),
{
    let longer = expansions.push(last);
    if expansions.len() == 0 {
        assert(longer.drop_first() =~= Seq::<Expansion>::empty());
        assert(longer[0] == last);
        match scan_expansion(scan, last) {
            Ok(next) => {
                assert(scan_expansions(next, Seq::<Expansion>::empty()) == Ok::<
                    Scan,
                    PublishErrorView,
                >(next));
            },
            Err(_) => {},
        }
    } else {
        assert(longer[0] == expansions[0]);
        assert(longer.drop_first() =~= expansions.drop_first().push(last));
        if let Ok(next) = scan_expansion(scan, expansions[0]) {
            lemma_scan_one_more(next, expansions.drop_first(), last);
        }
    }
}

/// A pattern given once more adds nothing and takes nothing away: what it
/// matches was met the first time.
pub proof fn lemma_repeated_pattern_adds_nothing(expansions: Seq<Expansion>, i: int)
    requires
        0 <= i < expansions.len(),
    ensures
        discovered(expansions.push(expansions[i])) == discovered(expansions),
{
    lemma_scan_one_more(empty_scan(), expansions, expansions[i]);
    lemma_expansions_are_remembered(empty_scan(), expansions);
    if let Ok(after) = scan_expansions(empty_scan(), expansions) {
        assert(walk_met(after, expansions[i]));
        lemma_met_entries_change_nothing(after, expansions[i].matches->Ok_0@);
    }
}

} // verus!
