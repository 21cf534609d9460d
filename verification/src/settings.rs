//! The settings writer.
//!
//! `HostConfig` locates the host settings file, probes it for an existing
//! `statusLine` entry, and computes the updated document: the one
//! `statusLine` key is inserted or replaced with a fixed-shape fragment and
//! every other top-level key is carried through unchanged. Reads degrade
//! gracefully — a missing or malformed document counts as empty — while the
//! caller that persists the result is expected to fail loudly.
//!
//! File reads and writes themselves live with the caller: this module maps
//! content to content.

use vstd::prelude::*;

use crate::json::entries_map;
use crate::json::json_object;
use crate::json::json_string;
use crate::json::json_u64;
use crate::json::lemma_entries_map_contains;
use crate::json::lemma_entries_map_push;
use crate::json::lemma_entries_map_update;
use crate::json::object_value;
use crate::json::parse_settings;
use crate::json::render_settings;
use crate::json::rendered_settings;
use crate::json::settings_entries;
use crate::json::str_value;
use crate::json::u64_value;
use crate::json::unique_keys;

verus! {

/// The platform family that decides the path convention.
#[derive(Clone, Copy, PartialEq, Eq, Structural, Debug)]
pub enum PlatformFamily {
    Windows,
    Unix,
}

pub struct HostConfig;

/// Whether one write goes ahead, or is cancelled by the user.
#[derive(Clone, Copy, PartialEq, Eq, Structural, Debug)]
pub enum WriteDecision {
    Proceed,
    Cancelled,
}

/// The failures of one write operation: no resolvable home directory, or a
/// directory or file-system failure while persisting. Both are surfaced to
/// the caller; read and parse failures never are (see `loaded_map`).
#[derive(Clone, Copy, PartialEq, Eq, Structural, Debug)]
pub enum ConfigError {
    PathUnresolved,
    Io,
}

/// The outcome of one write operation: the path written to, or a
/// cancellation — a normal negative outcome, not an error.
#[derive(PartialEq, Eq, Debug)]
pub enum WriteReport {
    Written(String),
    Cancelled,
}

/// What str::trim yields: the text without leading and trailing whitespace.
pub uninterp spec fn trimmed_of(s: Seq<char>) -> Seq<char>;

/// What str::to_lowercase yields; it depends on the characters alone.
pub uninterp spec fn lower_of(s: Seq<char>) -> Seq<char>;

/// Relies on str::trim: the result is a function of the text alone.
#[verifier::external_body]
fn trim_text(s: &str) -> (r: &str)
    ensures
        r@ == trimmed_of(s@),
{
    s.trim()
}

/// Relies on str::to_lowercase: the result is a function of the text alone.
#[verifier::external_body]
fn lowercase_text(s: &str) -> (r: String)
    ensures
        r@ == lower_of(s@),
{
    s.to_lowercase()
}

/// The settings-file location under the given home directory.
pub open spec fn settings_path_spec(home: Seq<char>, platform: PlatformFamily) -> Seq<char> {
    match platform {
        PlatformFamily::Windows => home + "\\AppData\\Roaming\\Host\\settings.json"@,
        PlatformFamily::Unix => home + "/.config/host/settings.json"@,
    }
}

/// The command line that the fragment points the host at.
pub open spec fn ccline_command_spec(home: Seq<char>, platform: PlatformFamily) -> Seq<char> {
    match platform {
        PlatformFamily::Windows => "%USERPROFILE%\\.host\\ccline\\ccline.exe"@,
        PlatformFamily::Unix => home + "/.host/ccline/ccline"@,
    }
}

/// The fixed-shape fragment for the given command: an execution-type
/// discriminator, the command, and a zero padding value.
pub open spec fn fragment_map(command: Seq<char>) -> Map<Seq<char>, serde_json::Value> {
    map![
        "type"@ => str_value("command"@),
        "command"@ => str_value(command),
        "padding"@ => u64_value(0),
    ]
}

pub open spec fn statusline_fragment_spec(command: Seq<char>) -> serde_json::Value {
    object_value(fragment_map(command))
}

/// The view of an optional borrowed content string.
pub open spec fn opt_content(content: Option<&String>) -> Option<Seq<char>> {
    match content {
        Option::Some(s) => Option::Some(s@),
        Option::None => Option::None,
    }
}

/// The key/value map loaded from the given content: the parsed object, or
/// the empty map where the content is missing or is not a JSON object. This
/// is the deliberate best-effort read policy: reads never fail.
pub open spec fn loaded_map(existing: Option<Seq<char>>) -> Map<Seq<char>, serde_json::Value> {
    match existing {
        Option::Some(s) => match settings_entries(s) {
            Option::Some(m) => m,
            Option::None => Map::empty(),
        },
        Option::None => Map::empty(),
    }
}

/// The map after one write: the loaded map with exactly the statusLine key
/// re-bound to the fragment.
pub open spec fn applied_map(existing: Option<Seq<char>>, command: Seq<char>) -> Map<
    Seq<char>,
    serde_json::Value,
> {
    loaded_map(existing).insert("statusLine"@, statusline_fragment_spec(command))
}

/// The serialised document after one write.
pub open spec fn applied_content(existing: Option<Seq<char>>, command: Seq<char>) -> Seq<char> {
    rendered_settings(applied_map(existing, command))
}

/// Relies on dirs::home_dir. The result depends on the environment, so
/// nothing is promised of it beyond the conversion to a plain string.
#[verifier::external_body]
fn home_dir_string() -> (r: Option<String>) {
    dirs::home_dir().map(|p| p.to_string_lossy().into_owned())
}

/// The position of the entry carrying the given key, if any entry does.
fn find_key(es: &Vec<(String, serde_json::Value)>, key: &String) -> (r: Option<usize>)
    ensures
        r matches Some(i) ==> i < es@.len() && es@[i as int].0@ == key@,
        r is None ==> forall|i: int| 0 <= i < es@.len() ==> es@[i].0@ != key@,
{
    let mut i: usize = 0;
    while i < es.len()
        invariant
            i <= es@.len(),
            forall|j: int| 0 <= j < i ==> es@[j].0@ != key@,
        decreases es@.len() - i,
    {
        if es[i].0 == *key {
            return Some(i);
        }
        i = i + 1;
    }
    None
}

/// Re-bind the statusLine key to the given fragment, in place: the entry
/// carrying it gets the new value, or a new entry is appended; no other
/// entry changes.
fn set_statusline(es: &mut Vec<(String, serde_json::Value)>, fragment: serde_json::Value)
    requires
        unique_keys(old(es)@),
    ensures
        unique_keys(final(es)@),
        entries_map(final(es)@) == entries_map(old(es)@).insert("statusLine"@, fragment),
{
    let key = "statusLine".to_owned();
    let found = find_key(es, &key);
    match found {
        Some(i) => {
            let entry = es.remove(i);
            es.insert(i, (entry.0, fragment));
            proof {
                assert(es@ =~= old(es)@.update(i as int, (old(es)@[i as int].0, fragment)));
                lemma_entries_map_update(old(es)@, i as int, fragment);
            }
        },
        None => {
            es.push((key, fragment));
            proof {
                lemma_entries_map_push(old(es)@, es@.last());
                assert(es@ =~= old(es)@.push(es@.last()));
            }
        },
    }
}

impl HostConfig {
    /// The settings-file path under the given home directory, by the
    /// platform's convention.
    pub fn settings_path_in(home: &str, platform: PlatformFamily) -> (path: String)
        ensures
            path@ == settings_path_spec(home@, platform),
    {
        let mut path = home.to_owned();
        match platform {
            PlatformFamily::Windows => path.append("\\AppData\\Roaming\\Host\\settings.json"),
            PlatformFamily::Unix => path.append("/.config/host/settings.json"),
        }
        path
    }

    /// The settings-file path for this environment's home directory, or
    /// nothing where no home directory can be determined.
    pub fn get_settings_path(platform: PlatformFamily) -> (r: Option<String>)
        ensures
            r matches Some(p) ==> exists|home: Seq<char>|
                p@ == #[trigger] settings_path_spec(home, platform),
    {
        match home_dir_string() {
            Some(home) => {
                let path = Self::settings_path_in(home.as_str(), platform);
                proof {
                    assert(path@ == settings_path_spec(home@, platform));
                }
                Some(path)
            },
            None => None,
        }
    }

    /// The command the fragment points the host at, by the platform's
    /// convention. On the Windows family the host expands the profile
    /// variable itself, so the home directory does not enter the command.
    pub fn get_ccline_command(home: &str, platform: PlatformFamily) -> (cmd: String)
        ensures
            cmd@ == ccline_command_spec(home@, platform),
    {
        match platform {
            PlatformFamily::Windows => "%USERPROFILE%\\.host\\ccline\\ccline.exe".to_owned(),
            PlatformFamily::Unix => {
                let mut cmd = home.to_owned();
                cmd.append("/.host/ccline/ccline");
                cmd
            },
        }
    }

    /// Whether the given settings content carries a top-level statusLine
    /// key. Missing or malformed content counts as carrying none: the probe
    /// must never block the wizard on a bad pre-existing file.
    pub fn has_statusline_config(content: Option<&String>) -> (r: bool)
        ensures
            r == loaded_map(opt_content(content)).dom().contains("statusLine"@),
    {
        match content {
            None => false,
            Some(text) => {
                match parse_settings(text.as_str()) {
                    None => false,
                    Some(es) => {
                        let key = "statusLine".to_owned();
                        let found = find_key(&es, &key);
                        proof {
                            lemma_entries_map_contains(es@, "statusLine"@);
                        }
                        found.is_some()
                    },
                }
            },
        }
    }

    /// Whether one write needs interactive confirmation before it may go
    /// ahead: only an unforced write over a detected existing entry does.
    pub fn needs_confirmation(force: bool, existing_entry: bool) -> (r: bool)
        ensures
            r == (!force && existing_entry),
    {
        !force && existing_entry
    }

    /// The force/confirm decision of one write. `confirmed` is the prompt's
    /// answer where one was solicited, and irrelevant otherwise: an unforced
    /// write over an existing entry goes ahead only on explicit
    /// confirmation; every other write goes ahead unasked.
    pub fn write_decision(force: bool, existing_entry: bool, confirmed: bool) -> (d: WriteDecision)
        ensures
            d is Proceed <==> (force || !existing_entry || confirmed),
    {
        if !force && existing_entry && !confirmed {
            WriteDecision::Cancelled
        } else {
            WriteDecision::Proceed
        }
    }

    /// Whether a typed line answering the overwrite prompt affirms the
    /// overwrite: its trimmed, lowercased text is "y" or "yes".
    pub fn affirms_overwrite(answer: &str) -> (r: bool)
        ensures
            r == ({
                let a = lower_of(trimmed_of(answer@));
                a == "y"@ || a == "yes"@
            }),
    {
        let low = lowercase_text(trim_text(answer));
        let y: String = "y".to_owned();
        let yes: String = "yes".to_owned();
        low == y || low == yes
    }

    /// The fixed-shape statusLine fragment for the given command.
    pub fn statusline_fragment(command: &str) -> (v: serde_json::Value)
        ensures
            v == statusline_fragment_spec(command@),
    {
        proof {
            reveal_strlit("type");
            reveal_strlit("command");
            reveal_strlit("padding");
            assert("command"@[0] == 'c' && "padding"@[0] == 'p');
        }
        let mut es: Vec<(String, serde_json::Value)> = Vec::new();
        let ghost v0 = es@;
        es.push(("type".to_owned(), json_string("command")));
        let ghost v1 = es@;
        proof {
            assert(entries_map(v0) =~= Map::<Seq<char>, serde_json::Value>::empty());
            lemma_entries_map_push(v0, v1.last());
        }
        es.push(("command".to_owned(), json_string(command)));
        let ghost v2 = es@;
        proof {
            lemma_entries_map_push(v1, v2.last());
        }
        es.push(("padding".to_owned(), json_u64(0)));
        proof {
            lemma_entries_map_push(v2, es@.last());
            assert(entries_map(es@) =~= fragment_map(command@));
        }
        json_object(es)
    }

    /// The updated settings document: the given content loaded best-effort,
    /// the statusLine key re-bound to the fragment for the given command,
    /// every other key carried through, and the whole serialised. The second
    /// clause records that the output parses back to exactly the map it was
    /// rendered from, which is what makes a repeated write byte-identical.
    pub fn updated_settings_content(existing: Option<&String>, command: &str) -> (r: String)
        ensures
            r@ == applied_content(opt_content(existing), command@),
            settings_entries(r@) == Some(applied_map(opt_content(existing), command@)),
    {
        let mut es: Vec<(String, serde_json::Value)> = match existing {
            Some(text) => {
                match parse_settings(text.as_str()) {
                    Some(es) => es,
                    None => Vec::new(),
                }
            },
            None => Vec::new(),
        };
        proof {
            assert(unique_keys(es@));
            assert(entries_map(es@) =~= loaded_map(opt_content(existing)));
        }
        let fragment = Self::statusline_fragment(command);
        set_statusline(&mut es, fragment);
        render_settings(es)
    }
}

/// Writing the fragment twice is idempotent: where `first` is the document
/// one write produced, a second write over `first` reproduces it byte for
/// byte. The two premises are exactly what `updated_settings_content`
/// ensures of its result.
pub proof fn lemma_apply_idempotent(existing: Option<Seq<char>>, command: Seq<char>, first: Seq<
    char,
>)
    requires
        first == applied_content(existing, command),
        settings_entries(first) == Some(applied_map(existing, command)),
    ensures
        applied_content(Option::Some(first), command) == first,
{
    assert(applied_map(Option::Some(first), command) =~= applied_map(existing, command));
}

/// One write touches exactly the statusLine key: every other key of the
/// loaded document keeps its value, none is dropped and none appears, and
/// the statusLine key carries the fragment.
pub proof fn lemma_apply_preserves_other_keys(
    existing: Option<Seq<char>>,
    command: Seq<char>,
    k: Seq<char>,
)
    requires
        k != "statusLine"@,
    ensures
        applied_map(existing, command).dom().contains(k) <==> loaded_map(existing).dom().contains(
            k,
        ),
        loaded_map(existing).dom().contains(k) ==> applied_map(existing, command)[k] == loaded_map(
            existing,
        )[k],
        applied_map(existing, command).dom().contains("statusLine"@),
        applied_map(existing, command)["statusLine"@] == statusline_fragment_spec(command),
{
}

/// On missing or malformed content the writer starts fresh: the produced
/// document holds exactly the one statusLine key.
pub proof fn lemma_apply_fresh_document(existing: Option<Seq<char>>, command: Seq<char>)
    requires
        existing matches Option::Some(s) ==> settings_entries(s) is None,
    ensures
        applied_map(existing, command) =~= map![
            "statusLine"@ => statusline_fragment_spec(command),
        ],
{
}

} // verus!
