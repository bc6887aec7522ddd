//! Schema resolution across every supported browser, and the merge of
//! per-snapshot record batches into one flat, deterministically ordered
//! collection.

use vstd::prelude::*;

use crate::browser::Browser;
use crate::browser::HistoryEntry;
use crate::browser::HistorySchema;
use crate::browser::HostOs;
use crate::browser::get_browser_history_schema;
use crate::browser::path_template;
use crate::browser::query_of;
use crate::text::subst_home;

verus! {

/// The browsers that have a storage path on the given OS, in enumeration
/// order: exactly those the registry resolves to a schema there.  Safari
/// is macOS-only; no browser has a known path on an unrecognized OS.
pub open spec fn schema_browsers(os: HostOs) -> Seq<Browser> {
    match os {
        HostOs::MacOs => seq![
            Browser::Arc,
            Browser::Chrome,
            Browser::Firefox,
            Browser::Safari,
            Browser::Brave,
        ],
        HostOs::Windows => seq![Browser::Arc, Browser::Chrome, Browser::Firefox, Browser::Brave],
        HostOs::Linux => seq![Browser::Arc, Browser::Chrome, Browser::Firefox, Browser::Brave],
        HostOs::Other => Seq::empty(),
    }
}

/// `schemas` is exactly the resolved schema list for `os` and `home`: one
/// schema per browser of [`schema_browsers`], in order, each carrying its
/// substituted path and its extraction query.
pub open spec fn resolved_schemas_match(
    schemas: Seq<HistorySchema>,
    os: HostOs,
    home: Seq<char>,
) -> bool {
    &&& schemas.len() == schema_browsers(os).len()
    &&& forall|i: int|
        0 <= i < schemas.len() ==> #[trigger] schemas[i].browser == schema_browsers(os)[i]
    &&& forall|i: int|
        0 <= i < schemas.len() ==> #[trigger] schemas[i].query@ == query_of(schema_browsers(os)[i])
    &&& forall|i: int|
        0 <= i < schemas.len() ==> #[trigger] schemas[i].path@ == subst_home(
            path_template(schema_browsers(os)[i], os)->0,
            home,
        )
}

/// Resolves the schema of every supported browser, in enumeration order,
/// against an already determined home directory.  Browsers with no path
/// on this OS are skipped without error.
pub fn schemas_for_home(os: HostOs, home: &str) -> (r: Vec<HistorySchema>)
    ensures
        resolved_schemas_match(r@, os, home@),
{
    let mut out: Vec<HistorySchema> = Vec::new();
    if let Some(s) = get_browser_history_schema(&Browser::Arc, os, home) {
        out.push(s);
    }
    if let Some(s) = get_browser_history_schema(&Browser::Chrome, os, home) {
        out.push(s);
    }
    if let Some(s) = get_browser_history_schema(&Browser::Firefox, os, home) {
        out.push(s);
    }
    if let Some(s) = get_browser_history_schema(&Browser::Safari, os, home) {
        out.push(s);
    }
    if let Some(s) = get_browser_history_schema(&Browser::Brave, os, home) {
        out.push(s);
    }
    out
}

/// Relies on `dirs::home_dir`: the current user's home directory, `None`
/// when the OS reports none or the path is not valid Unicode.  The result
/// depends on the environment, so nothing further is assumed of it.
#[verifier::external_body]
fn home_dir_string() -> Option<String> {
    match dirs::home_dir() {
        Some(dir) => dir.to_str().map(|s| s.to_owned()),
        None => None,
    }
}

/// Resolves every browser's schema against the current user's home
/// directory.  `None` means the home directory could not be determined —
/// the one fatal configuration error of the whole run; the caller is
/// expected to abort on it.
pub fn resolve_all_schemas(os: HostOs) -> (r: Option<Vec<HistorySchema>>)
    ensures
        r is Some ==> exists|home: Seq<char>| #[trigger] resolved_schemas_match(r->0@, os, home),
{
    match home_dir_string() {
        Some(home) => {
            let schemas = schemas_for_home(os, home.as_str());
            let r = Some(schemas);
            proof {
                assert(resolved_schemas_match(r->0@, os, home@));
                assert(exists|h: Seq<char>| #[trigger] resolved_schemas_match(r->0@, os, h));
            }
            r
        },
        None => None,
    }
}

/// The concatenation of a sequence of record batches, in order.
pub open spec fn flattened(groups: Seq<Vec<HistoryEntry>>) -> Seq<HistoryEntry> {
    groups.map_values(|g: Vec<HistoryEntry>| g@).flatten()
}

/// Merges per-snapshot record batches into one flat collection: the plain
/// concatenation, batches in the order given (variant enumeration order,
/// then snapshot discovery order) and records in batch order.  Nothing is
/// deduplicated: a URL visited in two browsers is two records, each
/// independently meaningful.
pub fn collate_entries(groups: Vec<Vec<HistoryEntry>>) -> (r: Vec<HistoryEntry>)
    ensures
        r@ == flattened(groups@),
{
    let ghost orig = groups@;
    let mut remaining = groups;
    let mut out: Vec<HistoryEntry> = Vec::new();
    while remaining.len() > 0
        invariant
            out@ + flattened(remaining@) == flattened(orig),
        decreases remaining@.len(),
    {
        let ghost before = remaining@;
        let mut batch = remaining.remove(0);
        out.append(&mut batch);
        proof {
            let views = |g: Vec<HistoryEntry>| g@;
            let mapped = before.map_values(views);
            assert(flattened(before) == mapped.first() + mapped.drop_first().flatten());
            assert(mapped.first() == before[0]@);
            assert(remaining@.map_values(views) =~= mapped.drop_first());
            assert(out@ + flattened(remaining@) =~= flattened(orig));
        }
    }
    proof {
        assert(flattened(remaining@) =~= Seq::empty());
        assert(out@ =~= flattened(orig));
    }
    out
}

} // verus!
