//! Locked-file copy planning and snapshot discovery.
//!
//! A browser that is running holds a lock on its history store, so the
//! store is never read in place: each candidate source file is copied into
//! a scratch directory first, under a deterministic name, and extraction
//! reads those snapshots.  Copy failures are tolerated per file; a source
//! that cannot be copied simply contributes no snapshot.

use vstd::prelude::*;

use crate::browser::Browser;
use crate::browser::HistorySchema;
use crate::browser::browser_name;
use crate::text::digits_of;
use crate::text::str_contains_char;
use crate::text::u64_digits;

verus! {

/// One planned copy: the source file, and the file name the snapshot gets
/// inside the scratch directory.
#[derive(Debug)]
pub struct CopyJob {
    pub source: String,
    pub dest_name: String,
}

/// The snapshot file name for a copy label: `meteor-history-<label>.sqlite`.
pub open spec fn snapshot_name_of(label: Seq<char>) -> Seq<char> {
    "meteor-history-"@ + label + ".sqlite"@
}

/// The copy label of the `ordinal`-th wildcard match for a browser:
/// `<name>-<ordinal>`.  Ordinals start at 1 and keep several matched
/// profiles apart.
pub open spec fn ordinal_label_of(b: Browser, ordinal: nat) -> Seq<char> {
    browser_name(b) + seq!['-'] + digits_of(ordinal)
}

/// The glob pattern that matches every snapshot of a browser inside the
/// scratch directory: `<scratch>/meteor-history-<name>*.sqlite`.
pub open spec fn snapshot_pattern_of(scratch: Seq<char>, b: Browser) -> Seq<char> {
    scratch + "/meteor-history-"@ + browser_name(b) + "*.sqlite"@
}

/// The snapshot file name for a copy label.
pub fn snapshot_file_name(label: &str) -> (r: String)
    ensures
        r@ == snapshot_name_of(label@),
{
    String::from_str("meteor-history-").concat(label).concat(".sqlite")
}

/// A path inside the scratch directory.
pub fn scratch_dest_path(scratch: &str, file_name: &str) -> (r: String)
    ensures
        r@ == scratch@ + "/"@ + file_name@,
{
    String::from_str(scratch).concat("/").concat(file_name)
}

/// The copies to attempt for one schema, given the wildcard matches of its
/// path: one ordinal-labelled copy per match, in match order with ordinals
/// from 1, and always one literal copy of the schema's own path under the
/// browser's plain label (which covers the non-wildcard case).
pub fn copy_jobs(schema: &HistorySchema, matches: &Vec<String>) -> (r: Vec<CopyJob>)
    ensures
        r@.len() == matches@.len() + 1,
        forall|i: int|
            0 <= i < matches@.len() ==> #[trigger] r@[i].source@ == matches@[i]@,
        forall|i: int|
            0 <= i < matches@.len() ==> #[trigger] r@[i].dest_name@ == snapshot_name_of(
                ordinal_label_of(schema.browser, (i + 1) as nat),
            ),
        r@[matches@.len() as int].source@ == schema.path@,
        r@[matches@.len() as int].dest_name@ == snapshot_name_of(browser_name(schema.browser)),
{
    let mut jobs: Vec<CopyJob> = Vec::new();
    let mut i: usize = 0;
    while i < matches.len()
        invariant
            i <= matches@.len(),
            jobs@.len() == i,
            forall|j: int| 0 <= j < i ==> #[trigger] jobs@[j].source@ == matches@[j]@,
            forall|j: int|
                0 <= j < i ==> #[trigger] jobs@[j].dest_name@ == snapshot_name_of(
                    ordinal_label_of(schema.browser, (j + 1) as nat),
                ),
        decreases matches@.len() - i,
    {
        let rendered = u64_digits((i + 1) as u64);
        let label = String::from_str(schema.browser.to_str()).concat("-").concat(
            rendered.as_str(),
        );
        proof {
            reveal_strlit("-");
            assert(label@ =~= ordinal_label_of(schema.browser, (i + 1) as nat));
        }
        jobs.push(
            CopyJob { source: matches[i].clone(), dest_name: snapshot_file_name(label.as_str()) },
        );
        i = i + 1;
    }
    jobs.push(
        CopyJob {
            source: schema.path.clone(),
            dest_name: snapshot_file_name(schema.browser.to_str()),
        },
    );
    jobs
}

/// Relies on `glob::glob`: expands a shell-style pattern against the
/// filesystem.  Returns `None` when the pattern itself is rejected;
/// otherwise one string per matched path, in the order glob yields them,
/// with unreadable matches skipped.  What comes back depends on the disk,
/// so nothing further is assumed of it.
#[verifier::external_body]
fn glob_paths(pattern: &str) -> Option<Vec<String>> {
    match glob::glob(pattern) {
        Ok(paths) => {
            let mut found: Vec<String> = Vec::new();
            for entry in paths {
                if let Ok(path) = entry {
                    found.push(path.to_string_lossy().to_string());
                }
            }
            Some(found)
        },
        Err(_) => None,
    }
}

/// Plans every copy for one schema: when the schema's path holds a
/// wildcard it is expanded against the filesystem and each match gets an
/// ordinal-labelled copy; the literal path is always copied too, under the
/// browser's plain label.  The last planned job is always that literal
/// copy, and a path with no wildcard plans exactly that one job.
pub fn stage_plan(schema: &HistorySchema) -> (r: Vec<CopyJob>)
    ensures
        r@.len() >= 1,
        r@[r@.len() - 1].source@ == schema.path@,
        r@[r@.len() - 1].dest_name@ == snapshot_name_of(browser_name(schema.browser)),
        forall|i: int|
            0 <= i < r@.len() - 1 ==> #[trigger] r@[i].dest_name@ == snapshot_name_of(
                ordinal_label_of(schema.browser, (i + 1) as nat),
            ),
        !schema.path@.contains('*') ==> r@.len() == 1,
{
    let has_wildcard = str_contains_char(schema.path.as_str(), '*');
    let matches: Vec<String> = if has_wildcard {
        match glob_paths(schema.path.as_str()) {
            Some(found) => found,
            None => Vec::new(),
        }
    } else {
        Vec::new()
    };
    copy_jobs(schema, &matches)
}

/// The glob pattern that finds every snapshot of a browser in the scratch
/// directory.
pub fn snapshot_pattern(scratch: &str, browser: &Browser) -> (r: String)
    ensures
        r@ == snapshot_pattern_of(scratch@, *browser),
{
    String::from_str(scratch).concat("/meteor-history-").concat(browser.to_str()).concat(
        "*.sqlite",
    )
}

/// Finds the snapshots previously produced for a browser in the scratch
/// directory, in the order the filesystem glob yields them.  Zero matches
/// — browser not installed, or every copy attempt failed — yield an empty
/// vector, never an error; the browser then simply contributes no records.
pub fn find_snapshots(scratch: &str, browser: &Browser) -> Vec<String> {
    let pattern = snapshot_pattern(scratch, browser);
    match glob_paths(pattern.as_str()) {
        Some(found) => found,
        None => Vec::new(),
    }
}

} // verus!
