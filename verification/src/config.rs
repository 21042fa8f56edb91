//! The configuration source: a parsed snapshot of the key/value configuration
//! file, typed accessors, and the classification of filesystem events that
//! drives the change notification.
//!
//! Reading the file, the environment variable naming it, and the filesystem
//! watcher itself are I/O and live in the unverified shell; the shell hands
//! the file's text in and receives a parsed snapshot back.

use vstd::prelude::*;
use vstd::string::StrSliceExecFns;
use vstd::string::StringExecFns;

use crate::decimal::{all_digits, dec_value, parse_octet, parse_port};
use crate::strutil::{
    lemma_sep_end_of_scan, sep_end, spec_split, spec_trim, split_str, trim_str,
};

verus! {

/// An IPv4 socket address, held as plain octets and a port so that contracts
/// can speak about it directly.
#[derive(PartialEq, Eq, Structural, Clone, Copy, Debug)]
pub struct SocketAddress {
    pub octet_a: u8,
    pub octet_b: u8,
    pub octet_c: u8,
    pub octet_d: u8,
    pub port: u16,
}

/// Whether a piece of text denotes a valid address octet.
pub open spec fn octet_ok(p: Seq<char>) -> bool {
    all_digits(p) && dec_value(p) <= u8::MAX
}

/// The dotted-quad reading of `s`: four octets separated by dots, each a
/// decimal number up to 255.
pub open spec fn spec_ipv4(s: Seq<char>) -> Option<(u8, u8, u8, u8)> {
    let parts = spec_split(s, '.');
    if parts.len() == 4 && octet_ok(parts[0]) && octet_ok(parts[1]) && octet_ok(parts[2])
        && octet_ok(parts[3]) {
        Some(
            (
                dec_value(parts[0]) as u8,
                dec_value(parts[1]) as u8,
                dec_value(parts[2]) as u8,
                dec_value(parts[3]) as u8,
            ),
        )
    } else {
        None
    }
}

/// Parses a dotted-quad IPv4 address.
pub fn parse_ipv4(s: &str) -> (r: Option<(u8, u8, u8, u8)>)
    ensures
        r == spec_ipv4(s@),
{
    let parts = split_str(s, '.');
    if parts.len() != 4 {
        return None;
    }
    let a = parse_octet(parts[0].as_str());
    let b = parse_octet(parts[1].as_str());
    let c = parse_octet(parts[2].as_str());
    let d = parse_octet(parts[3].as_str());
    proof {
        assert(parts@.map_values(|p: String| p@)[0] == parts@[0]@);
        assert(parts@.map_values(|p: String| p@)[1] == parts@[1]@);
        assert(parts@.map_values(|p: String| p@)[2] == parts@[2]@);
        assert(parts@.map_values(|p: String| p@)[3] == parts@[3]@);
    }
    match (a, b, c, d) {
        (Some(a), Some(b), Some(c), Some(d)) => Some((a, b, c, d)),
        _ => None,
    }
}

/// What one configuration line means.
pub enum LineClass {
    /// Only whitespace.
    Blank,
    /// A comment, introduced by `;` or `#`.
    Comment,
    /// A `[NAME]` section header.
    Section(Seq<char>),
    /// A `key=value` pair.
    Pair(Seq<char>, Seq<char>),
    /// Anything else; the file is rejected.
    Malformed,
}

/// Classifies one line of the configuration file.
pub open spec fn classify_line(l: Seq<char>) -> LineClass {
    let t = spec_trim(l);
    if t.len() == 0 {
        LineClass::Blank
    } else if t[0] == ';' || t[0] == '#' {
        LineClass::Comment
    } else if t[0] == '[' {
        if t.len() >= 2 && t.last() == ']' {
            LineClass::Section(spec_trim(t.subrange(1, t.len() - 1)))
        } else {
            LineClass::Malformed
        }
    } else {
        let e = sep_end(t, '=', 0);
        if e == t.len() {
            LineClass::Malformed
        } else {
            LineClass::Pair(spec_trim(t.subrange(0, e)), spec_trim(t.subrange(e + 1, t.len() as int)))
        }
    }
}

/// The `(section, key, value)` triples a list of lines defines, read top to
/// bottom, or `None` when some line is malformed. Pairs before any section
/// header fall under the empty section name.
pub open spec fn spec_entries(lines: Seq<Seq<char>>, cur: Seq<char>) -> Option<
    Seq<(Seq<char>, Seq<char>, Seq<char>)>,
>
    decreases lines.len(),
{
    if lines.len() == 0 {
        Some(Seq::empty())
    } else {
        match classify_line(lines[0]) {
            LineClass::Blank => spec_entries(lines.drop_first(), cur),
            LineClass::Comment => spec_entries(lines.drop_first(), cur),
            LineClass::Section(name) => spec_entries(lines.drop_first(), name),
            LineClass::Pair(k, v) => match spec_entries(lines.drop_first(), cur) {
                Some(rest) => Some(seq![(cur, k, v)] + rest),
                None => None,
            },
            LineClass::Malformed => None,
        }
    }
}

/// The triples the whole configuration text defines.
pub open spec fn config_entries(text: Seq<char>) -> Option<Seq<(Seq<char>, Seq<char>, Seq<char>)>> {
    spec_entries(spec_split(text, '\n'), Seq::empty())
}

/// The value of `key` under `[section]`, the last occurrence winning.
pub open spec fn spec_lookup(
    entries: Seq<(Seq<char>, Seq<char>, Seq<char>)>,
    section: Seq<char>,
    key: Seq<char>,
) -> Option<Seq<char>>
    decreases entries.len(),
{
    if entries.len() == 0 {
        None
    } else if entries.last().0 == section && entries.last().1 == key {
        Some(entries.last().2)
    } else {
        spec_lookup(entries.drop_last(), section, key)
    }
}

/// The value `key` under `[section]` holds in the configuration text.
pub open spec fn config_value(text: Seq<char>, section: Seq<char>, key: Seq<char>) -> Option<
    Seq<char>,
> {
    match config_entries(text) {
        Some(entries) => spec_lookup(entries, section, key),
        None => None,
    }
}

/// One parsed `key=value` pair together with the section it stands under.
struct IniEntry {
    section: String,
    key: String,
    value: String,
}

/// The mathematical reading of a parsed entry.
spec fn entry_view(e: IniEntry) -> (Seq<char>, Seq<char>, Seq<char>) {
    (e.section@, e.key@, e.value@)
}

/// Parses the configuration text into its entry list.
fn parse_entries(text: &str) -> (r: Option<Vec<IniEntry>>)
    ensures
        match r {
            Some(es) => config_entries(text@) == Some(es@.map_values(|e: IniEntry| entry_view(e))),
            None => config_entries(text@) is None,
        },
{
    let lines = split_str(text, '\n');
    let ghost line_views = lines@.map_values(|p: String| p@);
    let mut entries: Vec<IniEntry> = Vec::new();
    let mut cur: String = String::new();
    let mut i: usize = 0;
    proof {
        assert(line_views.skip(0) =~= line_views);
        assert(entries@.map_values(|e: IniEntry| entry_view(e)) =~= Seq::<
            (Seq<char>, Seq<char>, Seq<char>),
        >::empty());
        if spec_entries(line_views, Seq::empty()) is Some {
            assert(entries@.map_values(|e: IniEntry| entry_view(e)) + spec_entries(
                line_views,
                Seq::empty(),
            )->Some_0 =~= spec_entries(line_views, Seq::empty())->Some_0);
        }
    }
    while i < lines.len()
        invariant
            i <= lines.len(),
            line_views == lines@.map_values(|p: String| p@),
            line_views == spec_split(text@, '\n'),
            spec_entries(line_views, Seq::empty()) == match spec_entries(
                line_views.skip(i as int),
                cur@,
            ) {
                Some(rest) => Some(entries@.map_values(|e: IniEntry| entry_view(e)) + rest),
                None => None::<Seq<(Seq<char>, Seq<char>, Seq<char>)>>,
            },
        decreases lines.len() - i,
    {
        let ghost evs = entries@.map_values(|e: IniEntry| entry_view(e));
        proof {
            assert(line_views.skip(i as int).drop_first() =~= line_views.skip(i + 1));
            assert(line_views.skip(i as int)[0] == line_views[i as int]);
        }
        let t = trim_str(lines[i].as_str());
        let tn = t.as_str().unicode_len();
        if tn == 0 {
            // blank line
        } else {
            let first = t.as_str().get_char(0);
            if first == ';' || first == '#' {
                // comment line
            } else if first == '[' {
                let last = t.as_str().get_char(tn - 1);
                if tn >= 2 && last == ']' {
                    cur = trim_str(t.as_str().substring_char(1, tn - 1));
                } else {
                    return None;
                }
            } else {
                let mut e: usize = 0;
                while e < tn && t.as_str().get_char(e) != '='
                    invariant
                        e <= tn,
                        tn == t@.len(),
                        forall|k: int| 0 <= k < e ==> t@[k] != '=',
                    decreases tn - e,
                {
                    e = e + 1;
                }
                proof {
                    lemma_sep_end_of_scan(t@, '=', 0, e as int);
                }
                if e == tn {
                    return None;
                }
                let key = trim_str(t.as_str().substring_char(0, e));
                let value = trim_str(t.as_str().substring_char(e + 1, tn));
                let section = cur.clone();
                entries.push(IniEntry { section, key, value });
                proof {
                    assert(entries@.map_values(|en: IniEntry| entry_view(en)) =~= evs.push(
                        (cur@, key@, value@),
                    ));
                    if spec_entries(line_views.skip(i + 1), cur@) is Some {
                        let rest = spec_entries(line_views.skip(i + 1), cur@)->Some_0;
                        assert(evs + (seq![(cur@, key@, value@)] + rest) =~= evs.push(
                            (cur@, key@, value@),
                        ) + rest);
                    }
                }
            }
        }
        i = i + 1;
    }
    proof {
        assert(line_views.skip(lines@.len() as int) =~= Seq::<Seq<char>>::empty());
    }
    Some(entries)
}

/// Finds the value of `key` under `[section]`, the last occurrence winning.
fn lookup(entries: &Vec<IniEntry>, section: &String, key: &String) -> (r: Option<String>)
    ensures
        match r {
            Some(v) => spec_lookup(
                entries@.map_values(|e: IniEntry| entry_view(e)),
                section@,
                key@,
            ) == Some(v@),
            None => spec_lookup(
                entries@.map_values(|e: IniEntry| entry_view(e)),
                section@,
                key@,
            ) is None,
        },
{
    let ghost evs = entries@.map_values(|e: IniEntry| entry_view(e));
    let mut j: usize = entries.len();
    proof {
        assert(evs.take(j as int) =~= evs);
    }
    while j > 0
        invariant
            j <= entries.len(),
            evs == entries@.map_values(|e: IniEntry| entry_view(e)),
            spec_lookup(evs, section@, key@) == spec_lookup(evs.take(j as int), section@, key@),
        decreases j,
    {
        proof {
            assert(evs.take(j as int).last() == evs[j - 1]);
            assert(evs.take(j as int).drop_last() =~= evs.take(j - 1));
        }
        let entry = &entries[j - 1];
        if entry.section == *section && entry.key == *key {
            return Some(entry.value.clone());
        }
        j = j - 1;
    }
    proof {
        assert(evs.take(0) =~= Seq::<(Seq<char>, Seq<char>, Seq<char>)>::empty());
    }
    None
}

/// The errors configuration loading can report. The first failing check in
/// the order below names the error.
#[derive(PartialEq, Eq, Structural, Clone, Copy, Debug)]
pub enum ConfigurationError {
    /// A line is neither blank, comment, section header nor `key=value`.
    Malformed,
    MissingDatabaseUrl,
    MissingMigrationsPath,
    MissingAddress,
    MissingPort,
    MissingBasePath,
    /// `SERVER.address` is not a dotted quad.
    InvalidAddress,
    /// `SERVER.port` is not a decimal number up to 65535.
    InvalidPort,
}

/// The mathematical content of a configuration snapshot.
pub struct ConfigModel {
    pub database_url: Seq<char>,
    pub migrations_path: Seq<char>,
    pub address: SocketAddress,
    pub images_base_path: Seq<char>,
}

/// What loading the given configuration text yields: the parsed snapshot, or
/// the first error in checking order.
pub open spec fn spec_load(text: Seq<char>) -> Result<ConfigModel, ConfigurationError> {
    if config_entries(text) is None {
        Err(ConfigurationError::Malformed)
    } else {
        let url = config_value(text, "DATABASE"@, "url"@);
        let mig = config_value(text, "DATABASE"@, "migrations_path"@);
        let addr = config_value(text, "SERVER"@, "address"@);
        let port = config_value(text, "SERVER"@, "port"@);
        let base = config_value(text, "IMAGE_SERVICE"@, "base_path"@);
        if url is None {
            Err(ConfigurationError::MissingDatabaseUrl)
        } else if mig is None {
            Err(ConfigurationError::MissingMigrationsPath)
        } else if addr is None {
            Err(ConfigurationError::MissingAddress)
        } else if port is None {
            Err(ConfigurationError::MissingPort)
        } else if base is None {
            Err(ConfigurationError::MissingBasePath)
        } else if spec_ipv4(addr->Some_0) is None {
            Err(ConfigurationError::InvalidAddress)
        } else if !(all_digits(port->Some_0) && dec_value(port->Some_0) <= u16::MAX) {
            Err(ConfigurationError::InvalidPort)
        } else {
            let quad = spec_ipv4(addr->Some_0)->Some_0;
            Ok(
                ConfigModel {
                    database_url: url->Some_0,
                    migrations_path: mig->Some_0,
                    address: SocketAddress {
                        octet_a: quad.0,
                        octet_b: quad.1,
                        octet_c: quad.2,
                        octet_d: quad.3,
                        port: dec_value(port->Some_0) as u16,
                    },
                    images_base_path: base->Some_0,
                },
            )
        }
    }
}

/// An immutable snapshot of the configuration file: storage settings and the
/// server's bind address, parsed once at load time. Re-created wholesale on
/// every detected change, never patched.
pub struct Configuration {
    database_url: String,
    migrations_path: String,
    address: SocketAddress,
    images_base_path: String,
}

impl View for Configuration {
    type V = ConfigModel;

    closed spec fn view(&self) -> ConfigModel {
        ConfigModel {
            database_url: self.database_url@,
            migrations_path: self.migrations_path@,
            address: self.address,
            images_base_path: self.images_base_path@,
        }
    }
}

impl Configuration {
    /// Loads a configuration snapshot from the configuration file's text.
    /// Reading the file itself, and aborting on an error here, is the
    /// caller's business: a failure means the process cannot safely run.
    pub fn new(text: &str) -> (r: Result<Configuration, ConfigurationError>)
        ensures
            match r {
                Ok(c) => spec_load(text@) == Ok::<ConfigModel, ConfigurationError>(c@),
                Err(e) => spec_load(text@) == Err::<ConfigModel, ConfigurationError>(e),
            },
    {
        let entries = match parse_entries(text) {
            Some(es) => es,
            None => {
                return Err(ConfigurationError::Malformed);
            },
        };
        let sec_database = String::from_str("DATABASE");
        let sec_server = String::from_str("SERVER");
        let sec_image_service = String::from_str("IMAGE_SERVICE");
        let key_url = String::from_str("url");
        let key_migrations_path = String::from_str("migrations_path");
        let key_address = String::from_str("address");
        let key_port = String::from_str("port");
        let key_base_path = String::from_str("base_path");
        let database_url = match lookup(&entries, &sec_database, &key_url) {
            Some(v) => v,
            None => {
                return Err(ConfigurationError::MissingDatabaseUrl);
            },
        };
        let migrations_path = match lookup(&entries, &sec_database, &key_migrations_path) {
            Some(v) => v,
            None => {
                return Err(ConfigurationError::MissingMigrationsPath);
            },
        };
        let address_text = match lookup(&entries, &sec_server, &key_address) {
            Some(v) => v,
            None => {
                return Err(ConfigurationError::MissingAddress);
            },
        };
        let port_text = match lookup(&entries, &sec_server, &key_port) {
            Some(v) => v,
            None => {
                return Err(ConfigurationError::MissingPort);
            },
        };
        let images_base_path = match lookup(&entries, &sec_image_service, &key_base_path) {
            Some(v) => v,
            None => {
                return Err(ConfigurationError::MissingBasePath);
            },
        };
        let quad = match parse_ipv4(address_text.as_str()) {
            Some(q) => q,
            None => {
                return Err(ConfigurationError::InvalidAddress);
            },
        };
        let port = match parse_port(port_text.as_str()) {
            Some(p) => p,
            None => {
                return Err(ConfigurationError::InvalidPort);
            },
        };
        Ok(
            Configuration {
                database_url,
                migrations_path,
                address: SocketAddress {
                    octet_a: quad.0,
                    octet_b: quad.1,
                    octet_c: quad.2,
                    octet_d: quad.3,
                    port,
                },
                images_base_path,
            },
        )
    }

    /// The storage URL.
    pub fn database_url(&self) -> (r: &str)
        ensures
            r@ == self@.database_url,
    {
        self.database_url.as_str()
    }

    /// Where the schema migrations live.
    pub fn migrations_path(&self) -> (r: &str)
        ensures
            r@ == self@.migrations_path,
    {
        self.migrations_path.as_str()
    }

    /// The address the server binds: four octets and a port.
    pub fn address(&self) -> (r: SocketAddress)
        ensures
            r == self@.address,
    {
        self.address
    }

    /// Where uploaded files are kept.
    pub fn images_base_path(&self) -> (r: &str)
        ensures
            r@ == self@.images_base_path,
    {
        self.images_base_path.as_str()
    }

    /// Scans the filesystem events received so far for the first content
    /// modification: the only kind of event a change notification may come
    /// from. Every other kind is passed over, never answered. The watcher
    /// loop around this keeps waiting until some call returns an index.
    pub fn has_change(events: &Vec<FileEventKind>) -> (r: Option<usize>)
        ensures
            match r {
                Some(i) => i < events@.len() && events@[i as int] is ContentModified && forall|
                    k: int,
                |
                    0 <= k < i ==> !(#[trigger] events@[k] is ContentModified),
                None => forall|k: int|
                    0 <= k < events@.len() ==> !(#[trigger] events@[k] is ContentModified),
            },
    {
        let mut i: usize = 0;
        while i < events.len()
            invariant
                i <= events@.len(),
                forall|k: int| 0 <= k < i ==> !(#[trigger] events@[k] is ContentModified),
            decreases events@.len() - i,
        {
            if is_content_change(&events[i]) {
                return Some(i);
            }
            i = i + 1;
        }
        None
    }
}

/// The kinds of filesystem events the watcher can report, as far as the
/// change notification cares.
#[derive(PartialEq, Eq, Structural, Clone, Copy, Debug)]
pub enum FileEventKind {
    /// The watched file's data changed.
    ContentModified,
    /// Some other modification: metadata, a rename, an unspecified change.
    OtherModification,
    /// A file was created.
    Created,
    /// A file was removed.
    Removed,
    /// A file was read.
    Accessed,
    /// Anything else.
    Other,
}

/// Whether an event is the one kind that counts as a change notification.
pub fn is_content_change(kind: &FileEventKind) -> (r: bool)
    ensures
        r == (kind is ContentModified),
{
    match kind {
        FileEventKind::ContentModified => true,
        _ => false,
    }
}

#[verifier::external_type_specification]
#[verifier::external_body]
pub struct ExEvent(notify::Event);

/// Relies on notify's event model: `EventKind::Modify(ModifyKind::Data(DataChange::Content))`
/// is the event notify reports when the watched file's data changed, and the
/// arms below are notify's own top-level event kinds.
#[verifier::external_body]
pub fn classify_event(event: &notify::Event) -> FileEventKind {
    match event.kind {
        notify::EventKind::Modify(
            notify::event::ModifyKind::Data(notify::event::DataChange::Content),
        ) => FileEventKind::ContentModified,
        notify::EventKind::Modify(_) => FileEventKind::OtherModification,
        notify::EventKind::Create(_) => FileEventKind::Created,
        notify::EventKind::Remove(_) => FileEventKind::Removed,
        notify::EventKind::Access(_) => FileEventKind::Accessed,
        _ => FileEventKind::Other,
    }
}

} // verus!
