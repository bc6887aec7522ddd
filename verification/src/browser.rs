//! The browser registry: the closed set of supported browsers, their stable
//! display names, and the normalized history record type every storage
//! backend is mapped into.

use vstd::prelude::*;

use crate::text::signed_digits_of;
use crate::text::subst_home;
use crate::text::i64_digits;
use crate::text::substitute_home;

verus! {

/// Host operating system identifier, determined once at startup by the
/// caller.  The storage-path table is keyed by browser and OS; a browser
/// with no entry for the current OS simply yields no schema.
#[derive(Clone, Copy, PartialEq, Eq, Structural, Debug)]
pub enum HostOs {
    MacOs,
    Windows,
    Linux,
    Other,
}

/// One supported browser identity.
#[derive(Debug, PartialEq, Eq, Structural, PartialOrd, Clone, Copy)]
pub enum Browser {
    Arc,
    Chrome,
    Firefox,
    Safari,
    Brave,
}

/// The browsers in their fixed enumeration order.  Collation processes
/// them in exactly this order, which makes the final output deterministic.
pub open spec fn variant_list() -> Seq<Browser> {
    seq![Browser::Arc, Browser::Chrome, Browser::Firefox, Browser::Safari, Browser::Brave]
}

/// The stable display name of a browser, used for snapshot naming and for
/// synthesized record identifiers.
pub open spec fn browser_name(b: Browser) -> Seq<char> {
    match b {
        Browser::Arc => "Arc"@,
        Browser::Chrome => "Chrome"@,
        Browser::Firefox => "Firefox"@,
        Browser::Safari => "Safari"@,
        Browser::Brave => "Brave"@,
    }
}

impl Browser {
    /// Every supported browser, in enumeration order.
    pub fn variants() -> (r: Vec<Browser>)
        ensures
            r@ == variant_list(),
    {
        let mut v: Vec<Browser> = Vec::new();
        v.push(Browser::Arc);
        v.push(Browser::Chrome);
        v.push(Browser::Firefox);
        v.push(Browser::Safari);
        v.push(Browser::Brave);
        proof {
            assert(v@ =~= variant_list());
        }
        v
    }

    /// The browser's stable display name.
    pub fn to_str(&self) -> (r: &'static str)
        ensures
            r@ == browser_name(*self),
    {
        match self {
            Browser::Arc => "Arc",
            Browser::Chrome => "Chrome",
            Browser::Firefox => "Firefox",
            Browser::Safari => "Safari",
            Browser::Brave => "Brave",
        }
    }
}

/// A normalized history record.  `last_visit_time` is always whole seconds
/// since the Unix epoch, whatever epoch or unit the source store used; the
/// extraction queries perform that normalization.
#[derive(Debug)]
pub struct HistoryEntry {
    pub browser: Browser,
    pub id: String,
    pub url: String,
    pub title: String,
    pub visit_count: i64,
    pub typed_count: i64,
    /// Seconds since the Unix epoch.
    pub last_visit_time: i64,
}

/// The {path, query} pairing that says where one browser's history store
/// lives and how to extract normalized rows from it.
#[derive(Debug)]
pub struct HistorySchema {
    pub browser: Browser,
    pub path: String,
    pub query: String,
}

/// Arc's storage-path template, per OS.
pub open spec fn arc_template(os: HostOs) -> Option<Seq<char>> {
    match os {
        HostOs::MacOs => Some("{}/Library/Application Support/Arc/User Data/Default/History"@),
        HostOs::Windows => Some("{}\\AppData\\Local\\Arc\\User Data\\Default\\History"@),
        HostOs::Linux => Some("{}/.config/Arc/User Data/Default/History"@),
        HostOs::Other => None,
    }
}

/// Chrome's storage-path template, per OS.
pub open spec fn chrome_template(os: HostOs) -> Option<Seq<char>> {
    match os {
        HostOs::MacOs => Some("{}/Library/Application Support/Google/Chrome/Default/History"@),
        HostOs::Windows => Some("{}\\AppData\\Local\\Google\\Chrome\\User Data\\Default\\History"@),
        HostOs::Linux => Some("{}/.config/google-chrome/Default/History"@),
        HostOs::Other => None,
    }
}

/// Firefox's storage-path template, per OS.  Each template holds one
/// wildcard segment for the profile directory.
pub open spec fn firefox_template(os: HostOs) -> Option<Seq<char>> {
    match os {
        HostOs::MacOs => Some("{}/Library/Application Support/Firefox/Profiles/**/places.sqlite"@),
        HostOs::Windows => Some(
            "{}\\AppData\\Roaming\\Mozilla\\Firefox\\Profiles\\*.default-release\\places.sqlite"@,
        ),
        HostOs::Linux => Some("{}/.mozilla/firefox/*.default-release/places.sqlite"@),
        HostOs::Other => None,
    }
}

/// Safari's storage-path template: macOS only.
pub open spec fn safari_template(os: HostOs) -> Option<Seq<char>> {
    match os {
        HostOs::MacOs => Some("{}/Library/Safari/History.db"@),
        _ => None,
    }
}

/// Brave's storage-path template, per OS.
pub open spec fn brave_template(os: HostOs) -> Option<Seq<char>> {
    match os {
        HostOs::MacOs => Some(
            "{}/Library/Application Support/BraveSoftware/Brave-Browser/Default/History"@,
        ),
        HostOs::Windows => Some(
            "{}\\AppData\\Local\\BraveSoftware\\Brave-Browser\\User Data\\Default\\History"@,
        ),
        HostOs::Linux => Some("{}/.config/BraveSoftware/Brave-Browser/Default/History"@),
        HostOs::Other => None,
    }
}

/// Opera's storage-path template, per OS.
pub open spec fn opera_template(os: HostOs) -> Option<Seq<char>> {
    match os {
        HostOs::MacOs => Some("{}/Library/Application Support/com.operasoftware.Opera/History"@),
        HostOs::Windows => Some("{}\\AppData\\Roaming\\Opera Software\\Opera Stable\\History"@),
        HostOs::Linux => Some("{}/.config/opera/History"@),
        HostOs::Other => None,
    }
}

/// Edge's storage-path template, per OS.
pub open spec fn edge_template(os: HostOs) -> Option<Seq<char>> {
    match os {
        HostOs::MacOs => Some("{}/Library/Application Support/Microsoft Edge/Default/History"@),
        HostOs::Windows => Some("{}\\AppData\\Local\\Microsoft\\Edge\\User Data\\Default\\History"@),
        HostOs::Linux => Some("{}/.config/microsoft-edge/Default/History"@),
        HostOs::Other => None,
    }
}

/// Vivaldi's storage-path template, per OS.
pub open spec fn vivaldi_template(os: HostOs) -> Option<Seq<char>> {
    match os {
        HostOs::MacOs => Some("{}/Library/Application Support/Vivaldi/Default/History"@),
        HostOs::Windows => Some("{}\\AppData\\Local\\Vivaldi\\User Data\\Default\\History"@),
        HostOs::Linux => Some("{}/.config/vivaldi/Default/History"@),
        HostOs::Other => None,
    }
}

/// Chromium's storage-path template, per OS.
pub open spec fn chromium_template(os: HostOs) -> Option<Seq<char>> {
    match os {
        HostOs::MacOs => Some("{}/Library/Application Support/Chromium/Default/History"@),
        HostOs::Windows => Some("{}\\AppData\\Local\\Chromium\\User Data\\Default\\History"@),
        HostOs::Linux => Some("{}/.config/chromium/Default/History"@),
        HostOs::Other => None,
    }
}

/// The storage-path template of a supported browser, per OS.
pub open spec fn path_template(b: Browser, os: HostOs) -> Option<Seq<char>> {
    match b {
        Browser::Arc => arc_template(os),
        Browser::Chrome => chrome_template(os),
        Browser::Firefox => firefox_template(os),
        Browser::Safari => safari_template(os),
        Browser::Brave => brave_template(os),
    }
}

/// Arc's storage-path template on the given OS, or `None` where Arc has no
/// known location.
pub fn arc_path(os: HostOs) -> (r: Option<String>)
    ensures
        r is Some <==> arc_template(os) is Some,
        r is Some ==> r->0@ == arc_template(os)->0,
{
    match os {
        HostOs::MacOs => Some(
            String::from_str("{}/Library/Application Support/Arc/User Data/Default/History"),
        ),
        HostOs::Windows => Some(
            String::from_str("{}\\AppData\\Local\\Arc\\User Data\\Default\\History"),
        ),
        HostOs::Linux => Some(String::from_str("{}/.config/Arc/User Data/Default/History")),
        HostOs::Other => None,
    }
}

/// Chrome's storage-path template on the given OS.
pub fn chrome_path(os: HostOs) -> (r: Option<String>)
    ensures
        r is Some <==> chrome_template(os) is Some,
        r is Some ==> r->0@ == chrome_template(os)->0,
{
    match os {
        HostOs::MacOs => Some(
            String::from_str("{}/Library/Application Support/Google/Chrome/Default/History"),
        ),
        HostOs::Windows => Some(
            String::from_str("{}\\AppData\\Local\\Google\\Chrome\\User Data\\Default\\History"),
        ),
        HostOs::Linux => Some(String::from_str("{}/.config/google-chrome/Default/History")),
        HostOs::Other => None,
    }
}

/// Firefox's storage-path template on the given OS; the wildcard segment
/// stands for the profile directory.
pub fn firefox_path(os: HostOs) -> (r: Option<String>)
    ensures
        r is Some <==> firefox_template(os) is Some,
        r is Some ==> r->0@ == firefox_template(os)->0,
{
    match os {
        HostOs::MacOs => Some(
            String::from_str("{}/Library/Application Support/Firefox/Profiles/**/places.sqlite"),
        ),
        HostOs::Windows => Some(
            String::from_str(
                "{}\\AppData\\Roaming\\Mozilla\\Firefox\\Profiles\\*.default-release\\places.sqlite",
            ),
        ),
        HostOs::Linux => Some(
            String::from_str("{}/.mozilla/firefox/*.default-release/places.sqlite"),
        ),
        HostOs::Other => None,
    }
}

/// Safari's storage-path template: only macOS has one.
pub fn safari_path(os: HostOs) -> (r: Option<String>)
    ensures
        r is Some <==> safari_template(os) is Some,
        r is Some ==> r->0@ == safari_template(os)->0,
{
    match os {
        HostOs::MacOs => Some(String::from_str("{}/Library/Safari/History.db")),
        _ => None,
    }
}

/// Brave's storage-path template on the given OS.
pub fn brave_path(os: HostOs) -> (r: Option<String>)
    ensures
        r is Some <==> brave_template(os) is Some,
        r is Some ==> r->0@ == brave_template(os)->0,
{
    match os {
        HostOs::MacOs => Some(
            String::from_str(
                "{}/Library/Application Support/BraveSoftware/Brave-Browser/Default/History",
            ),
        ),
        HostOs::Windows => Some(
            String::from_str(
                "{}\\AppData\\Local\\BraveSoftware\\Brave-Browser\\User Data\\Default\\History",
            ),
        ),
        HostOs::Linux => Some(
            String::from_str("{}/.config/BraveSoftware/Brave-Browser/Default/History"),
        ),
        HostOs::Other => None,
    }
}

/// Opera's storage-path template on the given OS.
pub fn opera_path(os: HostOs) -> (r: Option<String>)
    ensures
        r is Some <==> opera_template(os) is Some,
        r is Some ==> r->0@ == opera_template(os)->0,
{
    match os {
        HostOs::MacOs => Some(
            String::from_str("{}/Library/Application Support/com.operasoftware.Opera/History"),
        ),
        HostOs::Windows => Some(
            String::from_str("{}\\AppData\\Roaming\\Opera Software\\Opera Stable\\History"),
        ),
        HostOs::Linux => Some(String::from_str("{}/.config/opera/History")),
        HostOs::Other => None,
    }
}

/// Edge's storage-path template on the given OS.
pub fn edge_path(os: HostOs) -> (r: Option<String>)
    ensures
        r is Some <==> edge_template(os) is Some,
        r is Some ==> r->0@ == edge_template(os)->0,
{
    match os {
        HostOs::MacOs => Some(
            String::from_str("{}/Library/Application Support/Microsoft Edge/Default/History"),
        ),
        HostOs::Windows => Some(
            String::from_str("{}\\AppData\\Local\\Microsoft\\Edge\\User Data\\Default\\History"),
        ),
        HostOs::Linux => Some(String::from_str("{}/.config/microsoft-edge/Default/History")),
        HostOs::Other => None,
    }
}

/// Vivaldi's storage-path template on the given OS.
pub fn vivaldi_path(os: HostOs) -> (r: Option<String>)
    ensures
        r is Some <==> vivaldi_template(os) is Some,
        r is Some ==> r->0@ == vivaldi_template(os)->0,
{
    match os {
        HostOs::MacOs => Some(
            String::from_str("{}/Library/Application Support/Vivaldi/Default/History"),
        ),
        HostOs::Windows => Some(
            String::from_str("{}\\AppData\\Local\\Vivaldi\\User Data\\Default\\History"),
        ),
        HostOs::Linux => Some(String::from_str("{}/.config/vivaldi/Default/History")),
        HostOs::Other => None,
    }
}

/// Chromium's storage-path template on the given OS.
pub fn chromium_path(os: HostOs) -> (r: Option<String>)
    ensures
        r is Some <==> chromium_template(os) is Some,
        r is Some ==> r->0@ == chromium_template(os)->0,
{
    match os {
        HostOs::MacOs => Some(
            String::from_str("{}/Library/Application Support/Chromium/Default/History"),
        ),
        HostOs::Windows => Some(
            String::from_str("{}\\AppData\\Local\\Chromium\\User Data\\Default\\History"),
        ),
        HostOs::Linux => Some(String::from_str("{}/.config/chromium/Default/History")),
        HostOs::Other => None,
    }
}

/// The extraction query of a browser.  Every query yields columns in the
/// fixed order {numeric id, url, title, visit count, typed count, last
/// visit time in Unix seconds}; the Chromium family shares one query that
/// rebases WebKit microseconds, Firefox and Safari each rebase their own
/// epoch.
pub open spec fn query_of(b: Browser) -> Seq<char> {
    match b {
        Browser::Firefox => "SELECT id, url, COALESCE(title, \"\"), visit_count, typed, COALESCE(CAST(last_visit_date as INTEGER), 0) FROM moz_places ORDER BY visit_count DESC"@,
        Browser::Safari => "SELECT i.id, i.url, COALESCE(v.title, \"\"), i.visit_count, COALESCE(CAST(i.visit_count_score / 100 as INTEGER), 0), CAST(v.visit_time + 978307200 as BIGINT) as visit_time FROM history_items i LEFT JOIN history_visits v ON i.id = v.history_item ORDER BY i.visit_count DESC"@,
        _ => "SELECT id, url, title, visit_count, typed_count, CAST(((CAST(last_visit_time as REAL) - 11644473600000000) / 1000000) as BIGINT) as last_visit_time from urls ORDER BY visit_count DESC"@,
    }
}

/// The extraction query text for a browser.
pub fn extraction_query(browser: &Browser) -> (r: &'static str)
    ensures
        r@ == query_of(*browser),
{
    match browser {
        Browser::Firefox => "SELECT id, url, COALESCE(title, \"\"), visit_count, typed, COALESCE(CAST(last_visit_date as INTEGER), 0) FROM moz_places ORDER BY visit_count DESC",
        Browser::Safari => "SELECT i.id, i.url, COALESCE(v.title, \"\"), i.visit_count, COALESCE(CAST(i.visit_count_score / 100 as INTEGER), 0), CAST(v.visit_time + 978307200 as BIGINT) as visit_time FROM history_items i LEFT JOIN history_visits v ON i.id = v.history_item ORDER BY i.visit_count DESC",
        _ => "SELECT id, url, title, visit_count, typed_count, CAST(((CAST(last_visit_time as REAL) - 11644473600000000) / 1000000) as BIGINT) as last_visit_time from urls ORDER BY visit_count DESC",
    }
}

/// Resolves a browser's schema on the given OS with the given home
/// directory: the per-OS template with the home marker substituted, paired
/// with the browser's extraction query.  A browser with no known path on
/// this OS yields `None` — an expected absence, not an error.
pub fn get_browser_history_schema(browser: &Browser, os: HostOs, home: &str) -> (r: Option<
    HistorySchema,
>)
    ensures
        r is Some <==> path_template(*browser, os) is Some,
        r is Some ==> r->0.browser == *browser,
        r is Some ==> r->0.path@ == subst_home(path_template(*browser, os)->0, home@),
        r is Some ==> r->0.query@ == query_of(*browser),
{
    let maybe_template: Option<String> = match browser {
        Browser::Arc => arc_path(os),
        Browser::Chrome => chrome_path(os),
        Browser::Firefox => firefox_path(os),
        Browser::Safari => safari_path(os),
        Browser::Brave => brave_path(os),
    };
    match maybe_template {
        Some(template) => {
            let path = substitute_home(template.as_str(), home);
            Some(
                HistorySchema {
                    browser: *browser,
                    path,
                    query: String::from_str(extraction_query(browser)),
                },
            )
        },
        None => None,
    }
}

/// The synthesized identifier of a record: the browser's display name, a
/// dash, and the source row's native numeric id.  The name prefix keeps
/// ids unique across browsers even when native ids collide.
pub open spec fn synth_id(b: Browser, native_id: int) -> Seq<char> {
    browser_name(b) + seq!['-'] + signed_digits_of(native_id)
}

/// Maps one source row, already read as plain values, into a normalized
/// record with its synthesized identifier.
pub fn entry_from_row(
    browser: &Browser,
    native_id: i64,
    url: String,
    title: String,
    visit_count: i64,
    typed_count: i64,
    last_visit_time: i64,
) -> (e: HistoryEntry)
    ensures
        e.browser == *browser,
        e.id@ == synth_id(*browser, native_id as int),
        e.url == url,
        e.title == title,
        e.visit_count == visit_count,
        e.typed_count == typed_count,
        e.last_visit_time == last_visit_time,
{
    let rendered = i64_digits(native_id);
    let id = String::from_str(browser.to_str()).concat("-").concat(rendered.as_str());
    proof {
        reveal_strlit("-");
        assert(id@ =~= synth_id(*browser, native_id as int));
    }
    HistoryEntry { browser: *browser, id, url, title, visit_count, typed_count, last_visit_time }
}

/// Distinct browsers have distinct display names.
proof fn lemma_browser_names_distinct(b1: Browser, b2: Browser)
    requires
        b1 != b2,
    ensures
        browser_name(b1) != browser_name(b2),
{
    reveal_strlit("Arc");
    reveal_strlit("Chrome");
    reveal_strlit("Firefox");
    reveal_strlit("Safari");
    reveal_strlit("Brave");
    assert("Arc"@.len() == 3);
    assert("Chrome"@.len() == 6);
    assert("Firefox"@.len() == 7);
    assert("Safari"@.len() == 6);
    assert("Brave"@.len() == 5);
    assert("Chrome"@[0] == 'C');
    assert("Safari"@[0] == 'S');
}

/// Synthesized-id uniqueness: records produced from different browsers get
/// different synthesized identifiers even when their native numeric ids
/// coincide.
pub proof fn lemma_synth_id_unique(b1: Browser, b2: Browser, native_id: int)
    requires
        b1 != b2,
    ensures
        synth_id(b1, native_id) != synth_id(b2, native_id),
{
    lemma_browser_names_distinct(b1, b2);
    let n1 = browser_name(b1);
    let n2 = browser_name(b2);
    if synth_id(b1, native_id) == synth_id(b2, native_id) {
        let tail = signed_digits_of(native_id);
        assert(synth_id(b1, native_id).len() == n1.len() + 1 + tail.len());
        assert(synth_id(b2, native_id).len() == n2.len() + 1 + tail.len());
        assert(n1.len() == n2.len());
        assert(n1 =~= synth_id(b1, native_id).take(n1.len() as int));
        assert(n2 =~= synth_id(b2, native_id).take(n2.len() as int));
        assert(false);
    }
}

} // verus!
