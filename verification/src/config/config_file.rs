//! The configuration record and its file: one `key=value` pair per line.

use crate::helpers::text::{
    chars_of, format_number, join, join_text, parse_decimal, parse_number, push_chars, push_str,
    same_text, slice_of, split, split_once, split_once_text, split_text, text_of, string_views,
    views, decimal,
};
use vstd::prelude::*;

verus! {

/// What a run is configured with. Every field always has a value: the one
/// from the file or the default.
#[derive(Clone, Debug, PartialEq, Eq)]
pub struct ConfigFileData {
    pub server_directory_name: String,
    pub server: String,
    pub memory: u8,
    pub backup: bool,
    pub max_players: u16,
    pub plugins_directory_name: String,
    pub worlds_directory_name: String,
    pub port: u16,
    pub default_plugins: Vec<String>,
}

/// A configuration as plain values.
pub struct Configuration {
    pub server_directory_name: Seq<char>,
    pub server: Seq<char>,
    pub memory: u8,
    pub backup: bool,
    pub max_players: u16,
    pub plugins_directory_name: Seq<char>,
    pub worlds_directory_name: Seq<char>,
    pub port: u16,
    pub default_plugins: Seq<Seq<char>>,
}

impl View for ConfigFileData {
    type V = Configuration;

    open spec fn view(&self) -> Configuration {
        Configuration {
            server_directory_name: self.server_directory_name@,
            server: self.server@,
            memory: self.memory,
            backup: self.backup,
            max_players: self.max_players,
            plugins_directory_name: self.plugins_directory_name@,
            worlds_directory_name: self.worlds_directory_name@,
            port: self.port,
            default_plugins: string_views(self.default_plugins@),
        }
    }
}

/// The configuration of a run whose file sets nothing.
pub open spec fn defaults() -> Configuration {
    Configuration {
        server_directory_name: "server"@,
        server: "paper-1.19.1-latest"@,
        memory: 4,
        backup: false,
        max_players: 100,
        plugins_directory_name: "plugins"@,
        worlds_directory_name: "worlds"@,
        port: 25565,
        default_plugins: seq![
            "https://github.com/monun/auto-reloader/releases/download/0.0.5/auto-reloader-0.0.5.jar"@,
        ],
    }
}

impl Default for ConfigFileData {
    fn default() -> (r: Self)
        ensures
            r@ == defaults(),
    {
        let mut plugins: Vec<String> = Vec::new();
        plugins.push(
            "https://github.com/monun/auto-reloader/releases/download/0.0.5/auto-reloader-0.0.5.jar".to_owned(),
        );
        let r = ConfigFileData {
            server_directory_name: "server".to_owned(),
            server: "paper-1.19.1-latest".to_owned(),
            memory: 4,
            backup: false,
            max_players: 100,
            plugins_directory_name: "plugins".to_owned(),
            worlds_directory_name: "worlds".to_owned(),
            port: 25565,
            default_plugins: plugins,
        };
        assert(r@.default_plugins =~= defaults().default_plugins);
        r
    }
}

/// One line of the file.
pub open spec fn line(key: Seq<char>, value: Seq<char>) -> Seq<char> {
    key + "="@ + value
}

/// How a flag is written.
pub open spec fn flag(b: bool) -> Seq<char> {
    if b {
        "true"@
    } else {
        "false"@
    }
}

/// How a list is written: in brackets, the items parted by a comma and a
/// space.
pub open spec fn list(items: Seq<Seq<char>>) -> Seq<char> {
    "["@ + join(items, ", "@) + "]"@
}

/// The lines of the file that holds `c`.
pub open spec fn lines_of(c: Configuration) -> Seq<Seq<char>> {
    seq![
        line("server_directory_name"@, c.server_directory_name),
        line("server"@, c.server),
        line("memory"@, decimal(c.memory as nat)),
        line("backup"@, flag(c.backup)),
        line("max_players"@, decimal(c.max_players as nat)),
        line("plugins_directory_name"@, c.plugins_directory_name),
        line("worlds_directory_name"@, c.worlds_directory_name),
        line("port"@, decimal(c.port as nat)),
        line("default_plugins"@, list(c.default_plugins)),
    ]
}

/// The text of the file that holds `c`: its lines parted by newlines, with
/// none after the last.
pub open spec fn serialize(c: Configuration) -> Seq<char> {
    join(lines_of(c), "\n"@)
}

/// Appends the line `key=value` to `lines`.
fn push_line(lines: &mut Vec<Vec<char>>, key: &str, value: &Vec<char>)
    ensures
        final(lines)@.len() == old(lines)@.len() + 1,
        views(final(lines)@) == views(old(lines)@).push(line(key@, value@)),
{
    let mut text: Vec<char> = Vec::new();
    push_str(&mut text, key);
    push_str(&mut text, "=");
    push_chars(&mut text, value);
    lines.push(text);
}

/// The strings as character vectors.
fn chars_of_all(items: &Vec<String>) -> (r: Vec<Vec<char>>)
    ensures
        views(r@) == string_views(items@),
{
    let mut r: Vec<Vec<char>> = Vec::new();
    let mut i: usize = 0;
    while i < items.len()
        invariant
            i <= items.len(),
            r@.len() == i,
            forall|k: int| 0 <= k < i ==> r@[k]@ == items@[k]@,
        decreases items.len() - i,
    {
        r.push(chars_of(items[i].as_str()));
        i += 1;
    }
    r
}

/// The character vectors as strings.
fn strings_of_all(items: &Vec<Vec<char>>) -> (r: Vec<String>)
    ensures
        string_views(r@) == views(items@),
{
    let mut r: Vec<String> = Vec::new();
    let mut i: usize = 0;
    while i < items.len()
        invariant
            i <= items.len(),
            r@.len() == i,
            forall|k: int| 0 <= k < i ==> r@[k]@ == items@[k]@,
        decreases items.len() - i,
    {
        let s = text_of(&items[i]);
        r.push(s);
        i += 1;
    }
    r
}

impl ConfigFileData {
    /// The text of the configuration file that holds this configuration.
    pub fn to_string(&self) -> (r: String)
        ensures
            r@ == serialize(self@),
    {
        let mut lines: Vec<Vec<char>> = Vec::new();
        push_line(&mut lines, "server_directory_name", &chars_of(self.server_directory_name.as_str()));
        push_line(&mut lines, "server", &chars_of(self.server.as_str()));
        push_line(&mut lines, "memory", &format_number(self.memory as u32));
        let mut backup: Vec<char> = Vec::new();
        push_str(&mut backup, if self.backup { "true" } else { "false" });
        push_line(&mut lines, "backup", &backup);
        push_line(&mut lines, "max_players", &format_number(self.max_players as u32));
        push_line(&mut lines, "plugins_directory_name", &chars_of(self.plugins_directory_name.as_str()));
        push_line(&mut lines, "worlds_directory_name", &chars_of(self.worlds_directory_name.as_str()));
        push_line(&mut lines, "port", &format_number(self.port as u32));
        let mut plugins: Vec<char> = Vec::new();
        push_str(&mut plugins, "[");
        push_chars(&mut plugins, &join_text(&chars_of_all(&self.default_plugins), &chars_of(", ")));
        push_str(&mut plugins, "]");
        push_line(&mut lines, "default_plugins", &plugins);
        assert(views(lines@) =~= lines_of(self@));
        let text = join_text(&lines, &chars_of("\n"));
        let r = text_of(&text);
        r
    }
}

/// The key and the value of a line: what stands before and after its
/// first `=`. A line without `=` sets nothing.
pub open spec fn entry(text: Seq<char>) -> Option<(Seq<char>, Seq<char>)> {
    split_once(text, "="@)
}

/// The value that the last of the lines with the key `key` gives, if any
/// line has that key.
pub open spec fn last_value(lines: Seq<Seq<char>>, key: Seq<char>) -> Option<Seq<char>>
    decreases lines.len(),
{
    if lines.len() == 0 {
        None
    } else {
        match entry(lines.last()) {
            Some((k, v)) => if k == key {
                Some(v)
            } else {
                last_value(lines.drop_last(), key)
            },
            None => last_value(lines.drop_last(), key),
        }
    }
}

/// A value that stands in brackets.
pub open spec fn bracketed(value: Seq<char>) -> bool {
    value.len() >= 2 && value.first() == '[' && value.last() == ']'
}

/// The value of the last of the lines that give the plugin list a value in
/// brackets. A value without both brackets sets nothing.
pub open spec fn last_list(lines: Seq<Seq<char>>) -> Option<Seq<char>>
    decreases lines.len(),
{
    if lines.len() == 0 {
        None
    } else {
        match entry(lines.last()) {
            Some((k, v)) => if k == "default_plugins"@ && bracketed(v) {
                Some(v)
            } else {
                last_list(lines.drop_last())
            },
            None => last_list(lines.drop_last()),
        }
    }
}

/// The items of a list in brackets.
pub open spec fn items_of(value: Seq<char>) -> Seq<Seq<char>> {
    split(value.subrange(1, value.len() - 1), ", "@)
}

/// The text that the lines give `key`, or the default.
pub open spec fn text_setting(lines: Seq<Seq<char>>, key: Seq<char>, default: Seq<char>) -> Seq<
    char,
> {
    match last_value(lines, key) {
        Some(v) => v,
        None => default,
    }
}

/// The number that the lines give `key`, or the default.
pub open spec fn number_setting(lines: Seq<Seq<char>>, key: Seq<char>, max: nat, default: nat) -> nat {
    match last_value(lines, key) {
        Some(v) => match parse_decimal(v, max) {
            Some(n) => n,
            None => default,
        },
        None => default,
    }
}

/// The defaults with every setting of the lines laid over them: for each
/// key the last line that sets it decides.
pub open spec fn merged(lines: Seq<Seq<char>>) -> Configuration {
    let d = defaults();
    Configuration {
        server_directory_name: text_setting(lines, "server_directory_name"@, d.server_directory_name),
        server: text_setting(lines, "server"@, d.server),
        memory: number_setting(lines, "memory"@, u8::MAX as nat, d.memory as nat) as u8,
        backup: match last_value(lines, "backup"@) {
            Some(v) => v == "true"@,
            None => d.backup,
        },
        max_players: number_setting(lines, "max_players"@, u16::MAX as nat, d.max_players as nat) as u16,
        plugins_directory_name: text_setting(
            lines,
            "plugins_directory_name"@,
            d.plugins_directory_name,
        ),
        worlds_directory_name: text_setting(lines, "worlds_directory_name"@, d.worlds_directory_name),
        port: number_setting(lines, "port"@, u16::MAX as nat, d.port as nat) as u16,
        default_plugins: match last_list(lines) {
            Some(v) => items_of(v),
            None => d.default_plugins,
        },
    }
}

/// A line that gives a numeric key a value that is no number of its range.
pub open spec fn malformed_line(text: Seq<char>) -> bool {
    match entry(text) {
        Some((key, value)) => {
            ||| key == "memory"@ && parse_decimal(value, u8::MAX as nat) is None
            ||| key == "max_players"@ && parse_decimal(value, u16::MAX as nat) is None
            ||| key == "port"@ && parse_decimal(value, u16::MAX as nat) is None
        },
        None => false,
    }
}

/// The lines of a file.
pub open spec fn lines_in(raw: Seq<char>) -> Seq<Seq<char>> {
    split(raw, "\n"@)
}

/// Some line of the file is malformed.
pub open spec fn malformed(raw: Seq<char>) -> bool {
    exists|i: int| 0 <= i < lines_in(raw).len() && malformed_line(#[trigger] lines_in(raw)[i])
}

/// The configuration that a file's text stands for, unless a line of it is
/// malformed.
pub open spec fn parse(raw: Seq<char>) -> Option<Configuration> {
    if malformed(raw) {
        None
    } else {
        Some(merged(lines_in(raw)))
    }
}

/// A numeric setting whose value is no number of its range.
#[derive(Clone, Copy, Debug, PartialEq, Eq, Structural)]
pub struct MalformedValue {
    /// The index of the first such line, counted from zero.
    pub line: usize,
}

/// The nine keys differ from one another.
pub proof fn lemma_keys_differ()
    ensures
        "server_directory_name"@.len() == 21 && "server_directory_name"@[0] == 's',
        "server"@.len() == 6 && "server"@[0] == 's',
        "memory"@.len() == 6 && "memory"@[0] == 'm',
        "backup"@.len() == 6 && "backup"@[0] == 'b',
        "max_players"@.len() == 11,
        "plugins_directory_name"@.len() == 22,
        "worlds_directory_name"@.len() == 21 && "worlds_directory_name"@[0] == 'w',
        "port"@.len() == 4,
        "default_plugins"@.len() == 15,
{
    reveal_strlit("server_directory_name");
    reveal_strlit("server");
    reveal_strlit("memory");
    reveal_strlit("backup");
    reveal_strlit("max_players");
    reveal_strlit("plugins_directory_name");
    reveal_strlit("worlds_directory_name");
    reveal_strlit("port");
    reveal_strlit("default_plugins");
}

/// Reads a configuration from the text of its file: the defaults, with
/// every `key=value` line of a known key laid over them in turn. Lines
/// without `=` and unknown keys are passed over. The first line that gives
/// a numeric key something else than a number of its range ends the reading.
pub fn fetch_data(raw_data: &str) -> (r: Result<ConfigFileData, MalformedValue>)
    ensures
        match r {
            Ok(data) => parse(raw_data@) == Some(data@),
            Err(e) => {
                &&& parse(raw_data@) is None
                &&& e.line < lines_in(raw_data@).len()
                &&& malformed_line(lines_in(raw_data@)[e.line as int])
                &&& forall|k: int| 0 <= k < e.line ==> !malformed_line(lines_in(raw_data@)[k])
            },
        },
{
    let raw = chars_of(raw_data);
    let lines = split_text(&raw, &chars_of("\n"));
    let equals = chars_of("=");
    let ghost all = lines_in(raw_data@);
    let mut data = ConfigFileData::default();
    let mut i: usize = 0;
    while i < lines.len()
        invariant
            i <= lines.len(),
            all == views(lines@),
            all == lines_in(raw_data@),
            equals@ == "="@,
            data@ == merged(all.take(i as int)),
            forall|k: int| 0 <= k < i ==> !malformed_line(all[k]),
        decreases lines.len() - i,
    {
        let ghost seen = all.take(i as int);
        let ghost now = all.take(i + 1);
        proof {
            lemma_keys_differ();
            assert(now.drop_last() =~= seen);
        }
        if let Some((key, value)) = split_once_text(&lines[i], &equals) {
            assert(entry(all[i as int]) == Some((key@, value@)));
            if same_text(&key, &chars_of("server_directory_name")) {
                data.server_directory_name = text_of(&value);
            } else if same_text(&key, &chars_of("server")) {
                data.server = text_of(&value);
            } else if same_text(&key, &chars_of("plugins_directory_name")) {
                data.plugins_directory_name = text_of(&value);
            } else if same_text(&key, &chars_of("worlds_directory_name")) {
                data.worlds_directory_name = text_of(&value);
            } else if same_text(&key, &chars_of("memory")) {
                match parse_number(&value, 0xff) {
                    Some(n) => data.memory = n as u8,
                    None => return Err(MalformedValue { line: i }),
                }
            } else if same_text(&key, &chars_of("max_players")) {
                match parse_number(&value, 0xffff) {
                    Some(n) => data.max_players = n as u16,
                    None => return Err(MalformedValue { line: i }),
                }
            } else if same_text(&key, &chars_of("port")) {
                match parse_number(&value, 0xffff) {
                    Some(n) => data.port = n as u16,
                    None => return Err(MalformedValue { line: i }),
                }
            } else if same_text(&key, &chars_of("backup")) {
                data.backup = same_text(&value, &chars_of("true"));
            } else if same_text(&key, &chars_of("default_plugins")) {
                if value.len() >= 2 && value[0] == '[' && value[value.len() - 1] == ']' {
                    let inner = slice_of(&value, 1, value.len() - 1);
                    data.default_plugins = strings_of_all(&split_text(&inner, &chars_of(", ")));
                }
            }
        }
        i += 1;
    }
    assert(all.take(i as int) =~= all);
    Ok(data)
}

} // verus!
