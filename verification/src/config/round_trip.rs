//! What holds of the configuration file: a key that no line sets keeps its
//! default, and the file gives back what was written to it.

use crate::config::config_file::{
    bracketed, defaults, entry, flag, items_of, last_list, last_value, lemma_keys_differ, line,
    lines_in, lines_of, list, malformed, malformed_line, merged, parse, serialize, Configuration,
};
use crate::helpers::text::{
    all_digits, decimal, free_of, join, lemma_decimal, lemma_decimal_parses, lemma_free_of_char,
    lemma_free_without, lemma_join_without, lemma_separable_pair, lemma_separable_without,
    lemma_split_at, lemma_split_join, lemma_split_pieces_clean, lemma_split_pieces_free,
    occurs_at, separable, without,
};
use vstd::prelude::*;

verus! {

/// A configuration that the file can hold: no text of it has a line break,
/// the plugin list has an item, and no item has a comma followed by a
/// space.
pub open spec fn storable(c: Configuration) -> bool {
    &&& without(c.server_directory_name, '\n')
    &&& without(c.server, '\n')
    &&& without(c.plugins_directory_name, '\n')
    &&& without(c.worlds_directory_name, '\n')
    &&& c.default_plugins.len() > 0
    &&& forall|k: int|
        0 <= k < c.default_plugins.len() ==> without(#[trigger] c.default_plugins[k], '\n')
            && free_of(c.default_plugins[k], ", "@)
}

/// The key of a line, if it has one.
pub open spec fn key_of(text: Seq<char>) -> Option<Seq<char>> {
    match entry(text) {
        Some((key, _)) => Some(key),
        None => None,
    }
}

/// The nine keys, in the order of the file.
pub open spec fn keys() -> Seq<Seq<char>> {
    seq![
        "server_directory_name"@,
        "server"@,
        "memory"@,
        "backup"@,
        "max_players"@,
        "plugins_directory_name"@,
        "worlds_directory_name"@,
        "port"@,
        "default_plugins"@,
    ]
}

/// The nine values of a configuration as the file writes them, in the
/// order of the file.
pub open spec fn values_of(c: Configuration) -> Seq<Seq<char>> {
    seq![
        c.server_directory_name,
        c.server,
        decimal(c.memory as nat),
        flag(c.backup),
        decimal(c.max_players as nat),
        c.plugins_directory_name,
        c.worlds_directory_name,
        decimal(c.port as nat),
        list(c.default_plugins),
    ]
}

/// No key holds `=` or a line break, and no two keys are the same.
pub proof fn lemma_keys()
    ensures
        keys().len() == 9,
        forall|i: int| 0 <= i < 9 ==> without(#[trigger] keys()[i], '=') && without(keys()[i], '\n'),
        forall|i: int, j: int| 0 <= i < j < 9 ==> keys()[i] != keys()[j],
{
    lemma_keys_differ();
    reveal_strlit("server_directory_name");
    reveal_strlit("server");
    reveal_strlit("memory");
    reveal_strlit("backup");
    reveal_strlit("max_players");
    reveal_strlit("plugins_directory_name");
    reveal_strlit("worlds_directory_name");
    reveal_strlit("port");
    reveal_strlit("default_plugins");
}

/// A line made of a key without `=` and a value is read as that key and
/// that value.
pub proof fn lemma_entry(key: Seq<char>, value: Seq<char>)
    requires
        without(key, '='),
    ensures
        entry(line(key, value)) == Some((key, value)),
{
    reveal_strlit("=");
    let text = line(key, value);
    let at = key.len() as int;
    assert(text.subrange(at, at + 1) =~= "="@);
    assert forall|j: int| 0 <= j < at implies !occurs_at(text, "="@, j) by {
        if occurs_at(text, "="@, j) {
            assert(text.subrange(j, j + 1)[0] == '=');
        }
    }
    lemma_split_at(text, "="@, at);
}

/// The value of a line is a part of the line.
pub proof fn lemma_entry_value(text: Seq<char>, c: char)
    requires
        without(text, c),
    ensures
        match entry(text) {
            Some((_, value)) => without(value, c),
            None => true,
        },
{
    reveal_strlit("=");
}

/// Where one line sets a key and no later line does, that line decides.
pub proof fn lemma_last_value_at(lines: Seq<Seq<char>>, key: Seq<char>, i: int, value: Seq<char>)
    requires
        0 <= i < lines.len(),
        entry(lines[i]) == Some((key, value)),
        forall|j: int| i < j < lines.len() ==> key_of(#[trigger] lines[j]) != Some(key),
    ensures
        last_value(lines, key) == Some(value),
    decreases lines.len(),
{
    if i < lines.len() - 1 {
        let front = lines.drop_last();
        lemma_last_value_at(front, key, i, value);
    }
}

/// Where one line sets the plugin list in brackets and no later line has
/// that key, that line decides.
pub proof fn lemma_last_list_at(lines: Seq<Seq<char>>, i: int, value: Seq<char>)
    requires
        0 <= i < lines.len(),
        entry(lines[i]) == Some(("default_plugins"@, value)),
        bracketed(value),
        forall|j: int| i < j < lines.len() ==> key_of(#[trigger] lines[j]) != Some("default_plugins"@),
    ensures
        last_list(lines) == Some(value),
    decreases lines.len(),
{
    if i < lines.len() - 1 {
        let front = lines.drop_last();
        lemma_last_list_at(front, i, value);
    }
}

/// What lines without a line break give a key has no line break.
pub proof fn lemma_last_value_one_line(lines: Seq<Seq<char>>, key: Seq<char>)
    requires
        forall|k: int| 0 <= k < lines.len() ==> without(#[trigger] lines[k], '\n'),
    ensures
        match last_value(lines, key) {
            Some(value) => without(value, '\n'),
            None => true,
        },
    decreases lines.len(),
{
    if lines.len() > 0 {
        lemma_entry_value(lines.last(), '\n');
        let front = lines.drop_last();
        lemma_last_value_one_line(front, key);
    }
}

/// What lines without a line break give the plugin list stands in
/// brackets and has no line break.
pub proof fn lemma_last_list_one_line(lines: Seq<Seq<char>>)
    requires
        forall|k: int| 0 <= k < lines.len() ==> without(#[trigger] lines[k], '\n'),
    ensures
        match last_list(lines) {
            Some(value) => without(value, '\n') && bracketed(value),
            None => true,
        },
    decreases lines.len(),
{
    if lines.len() > 0 {
        lemma_entry_value(lines.last(), '\n');
        let front = lines.drop_last();
        lemma_last_list_one_line(front);
    }
}

/// The defaults can be held by the file.
pub proof fn lemma_defaults_storable()
    ensures
        storable(defaults()),
{
    reveal_strlit("server");
    reveal_strlit("paper-1.19.1-latest");
    reveal_strlit("plugins");
    reveal_strlit("worlds");
    reveal_strlit(", ");
    reveal_strlit(
        "https://github.com/monun/auto-reloader/releases/download/0.0.5/auto-reloader-0.0.5.jar",
    );
    let url =
        "https://github.com/monun/auto-reloader/releases/download/0.0.5/auto-reloader-0.0.5.jar"@;
    lemma_free_without(url, ", "@);
}

/// The items of a bracketed value without a line break are storable as a
/// plugin list.
pub proof fn lemma_items_storable(value: Seq<char>)
    requires
        bracketed(value),
        without(value, '\n'),
    ensures
        items_of(value).len() > 0,
        forall|k: int|
            0 <= k < items_of(value).len() ==> without(#[trigger] items_of(value)[k], '\n')
                && free_of(items_of(value)[k], ", "@),
{
    reveal_strlit(", ");
    reveal_strlit("\n");
    let inner = value.subrange(1, value.len() - 1);
    lemma_free_of_char(inner, "\n"@);
    lemma_split_pieces_free(inner, ", "@, "\n"@);
    lemma_split_pieces_clean(inner, ", "@);
    assert forall|k: int| 0 <= k < items_of(value).len() implies without(
        #[trigger] items_of(value)[k],
        '\n',
    ) && free_of(items_of(value)[k], ", "@) by {
        lemma_free_of_char(items_of(value)[k], "\n"@);
    }
}

/// Whatever lines without a line break are laid over the defaults, the
/// result can be held by the file.
pub proof fn lemma_merged_storable(lines: Seq<Seq<char>>)
    requires
        forall|k: int| 0 <= k < lines.len() ==> without(#[trigger] lines[k], '\n'),
    ensures
        storable(merged(lines)),
{
    lemma_defaults_storable();
    lemma_last_value_one_line(lines, "server_directory_name"@);
    lemma_last_value_one_line(lines, "server"@);
    lemma_last_value_one_line(lines, "plugins_directory_name"@);
    lemma_last_value_one_line(lines, "worlds_directory_name"@);
    lemma_last_list_one_line(lines);
    match last_list(lines) {
        Some(value) => {
            lemma_items_storable(value);
        },
        None => {},
    }
}

/// Every configuration that is read from a file can be held by the file.
pub proof fn lemma_parsed_storable(raw: Seq<char>)
    requires
        parse(raw) is Some,
    ensures
        storable(parse(raw)->0),
{
    reveal_strlit("\n");
    let lines = lines_in(raw);
    lemma_split_pieces_clean(raw, "\n"@);
    assert forall|k: int| 0 <= k < lines.len() implies without(#[trigger] lines[k], '\n') by {
        lemma_free_of_char(lines[k], "\n"@);
    }
    lemma_merged_storable(lines);
}

/// The lines of the file are its keys, each with its value.
pub proof fn lemma_lines(c: Configuration)
    ensures
        lines_of(c).len() == 9,
        keys().len() == 9,
        values_of(c).len() == 9,
        forall|i: int| 0 <= i < 9 ==> #[trigger] lines_of(c)[i] == line(keys()[i], values_of(c)[i]),
{
}

/// No value of a storable configuration is written with a line break.
pub proof fn lemma_values_one_line(c: Configuration)
    requires
        storable(c),
    ensures
        forall|i: int| 0 <= i < 9 ==> without(#[trigger] values_of(c)[i], '\n'),
{
    reveal_strlit("true");
    reveal_strlit("false");
    reveal_strlit("[");
    reveal_strlit("]");
    reveal_strlit(", ");
    lemma_decimal(c.memory as nat);
    lemma_decimal(c.max_players as nat);
    lemma_decimal(c.port as nat);
    lemma_digits_one_line(decimal(c.memory as nat));
    lemma_digits_one_line(decimal(c.max_players as nat));
    lemma_digits_one_line(decimal(c.port as nat));
    lemma_join_without(c.default_plugins, ", "@, '\n');
}

/// Digits are no line breaks.
pub proof fn lemma_digits_one_line(s: Seq<char>)
    requires
        all_digits(s),
    ensures
        without(s, '\n'),
{
}

/// Every line of a storable configuration is read as its key and value,
/// and none has a line break.
pub proof fn lemma_entries(c: Configuration)
    requires
        storable(c),
    ensures
        forall|i: int|
            0 <= i < 9 ==> entry(#[trigger] lines_of(c)[i]) == Some((keys()[i], values_of(c)[i])),
        forall|i: int| 0 <= i < 9 ==> without(#[trigger] lines_of(c)[i], '\n'),
{
    lemma_keys();
    lemma_lines(c);
    lemma_values_one_line(c);
    reveal_strlit("=");
    assert forall|i: int| 0 <= i < 9 implies entry(#[trigger] lines_of(c)[i]) == Some(
        (keys()[i], values_of(c)[i]),
    ) && without(lines_of(c)[i], '\n') by {
        lemma_entry(keys()[i], values_of(c)[i]);
    }
}

/// The text of a storable configuration splits into its lines again.
pub proof fn lemma_lines_read_back(c: Configuration)
    requires
        storable(c),
    ensures
        lines_in(serialize(c)) == lines_of(c),
{
    reveal_strlit("\n");
    lemma_entries(c);
    let lines = lines_of(c);
    assert forall|k: int| 0 <= k < lines.len() implies separable(#[trigger] lines[k], "\n"@) by {
        lemma_separable_without(lines[k], "\n"@);
    }
    lemma_split_join(lines, "\n"@);
}

/// The list of a storable configuration is read as its items.
pub proof fn lemma_list_read_back(items: Seq<Seq<char>>)
    requires
        items.len() > 0,
        forall|k: int| 0 <= k < items.len() ==> free_of(#[trigger] items[k], ", "@),
    ensures
        bracketed(list(items)),
        items_of(list(items)) == items,
{
    reveal_strlit("[");
    reveal_strlit("]");
    reveal_strlit(", ");
    assert forall|k: int| 0 <= k < items.len() implies separable(#[trigger] items[k], ", "@) by {
        lemma_separable_pair(items[k], ", "@);
    }
    lemma_split_join(items, ", "@);
    let value = list(items);
    assert(value.subrange(1, value.len() - 1) =~= join(items, ", "@));
}

/// Laying the lines of a storable configuration over the defaults gives
/// that configuration, and none of the lines is malformed.
pub proof fn lemma_lines_merge(c: Configuration)
    requires
        storable(c),
    ensures
        merged(lines_of(c)) == c,
        forall|i: int| 0 <= i < 9 ==> !malformed_line(#[trigger] lines_of(c)[i]),
{
    let lines = lines_of(c);
    lemma_keys();
    lemma_lines(c);
    lemma_entries(c);
    lemma_decimal_parses(c.memory as nat, u8::MAX as nat);
    lemma_decimal_parses(c.max_players as nat, u16::MAX as nat);
    lemma_decimal_parses(c.port as nat, u16::MAX as nat);
    lemma_list_read_back(c.default_plugins);
    reveal_strlit("true");
    reveal_strlit("false");
    assert forall|i: int| 0 <= i < 9 implies last_value(lines, #[trigger] keys()[i]) == Some(
        values_of(c)[i],
    ) by {
        lemma_last_value_at(lines, keys()[i], i, values_of(c)[i]);
    }
    lemma_last_list_at(lines, 8, list(c.default_plugins));
}

/// Reading the file of a storable configuration gives that configuration.
pub proof fn lemma_serialized_parses(c: Configuration)
    requires
        storable(c),
    ensures
        parse(serialize(c)) == Some(c),
{
    lemma_lines_read_back(c);
    lemma_lines_merge(c);
    lemma_lines(c);
}

/// Writing a configuration that was read from a file and reading it again
/// gives the same configuration.
pub proof fn lemma_round_trip(raw: Seq<char>)
    requires
        parse(raw) is Some,
    ensures
        parse(serialize(parse(raw)->0)) == parse(raw),
{
    lemma_parsed_storable(raw);
    lemma_serialized_parses(parse(raw)->0);
}

/// No line sets `key`.
pub open spec fn missing(lines: Seq<Seq<char>>, key: Seq<char>) -> bool {
    forall|i: int| 0 <= i < lines.len() ==> key_of(#[trigger] lines[i]) != Some(key)
}

/// A key that no line sets is given no value.
pub proof fn lemma_missing_value(lines: Seq<Seq<char>>, key: Seq<char>)
    requires
        missing(lines, key),
    ensures
        last_value(lines, key) is None,
        key == "default_plugins"@ ==> last_list(lines) is None,
    decreases lines.len(),
{
    if lines.len() > 0 {
        let front = lines.drop_last();
        lemma_missing_value(front, key);
    }
}

/// Every key that no line sets keeps its default, whatever the other
/// lines set.
pub proof fn lemma_missing_keys_default(lines: Seq<Seq<char>>)
    ensures
        missing(lines, "server_directory_name"@) ==> merged(lines).server_directory_name
            == defaults().server_directory_name,
        missing(lines, "server"@) ==> merged(lines).server == defaults().server,
        missing(lines, "memory"@) ==> merged(lines).memory == defaults().memory,
        missing(lines, "backup"@) ==> merged(lines).backup == defaults().backup,
        missing(lines, "max_players"@) ==> merged(lines).max_players == defaults().max_players,
        missing(lines, "plugins_directory_name"@) ==> merged(lines).plugins_directory_name
            == defaults().plugins_directory_name,
        missing(lines, "worlds_directory_name"@) ==> merged(lines).worlds_directory_name
            == defaults().worlds_directory_name,
        missing(lines, "port"@) ==> merged(lines).port == defaults().port,
        missing(lines, "default_plugins"@) ==> merged(lines).default_plugins
            == defaults().default_plugins,
{
    if missing(lines, "server_directory_name"@) {
        lemma_missing_value(lines, "server_directory_name"@);
    }
    if missing(lines, "server"@) {
        lemma_missing_value(lines, "server"@);
    }
    if missing(lines, "memory"@) {
        lemma_missing_value(lines, "memory"@);
    }
    if missing(lines, "backup"@) {
        lemma_missing_value(lines, "backup"@);
    }
    if missing(lines, "max_players"@) {
        lemma_missing_value(lines, "max_players"@);
    }
    if missing(lines, "plugins_directory_name"@) {
        lemma_missing_value(lines, "plugins_directory_name"@);
    }
    if missing(lines, "worlds_directory_name"@) {
        lemma_missing_value(lines, "worlds_directory_name"@);
    }
    if missing(lines, "port"@) {
        lemma_missing_value(lines, "port"@);
    }
    if missing(lines, "default_plugins"@) {
        lemma_missing_value(lines, "default_plugins"@);
    }
}

} // verus!
