//! The top-level table that maps command-name patterns to rule-block files,
//! and the shell aliases built from it.

use vstd::prelude::*;
use crate::text::{contains, contains_text, split_at_char, split_on, text_eq, trim, trimmed};

verus! {

#[verifier::external_type_specification]
#[verifier::external_body]
pub struct ExTableRegex(regex::Regex);

/// Whether `pattern` compiles as a table pattern.
pub uninterp spec fn table_pattern_compiles(pattern: Seq<char>) -> bool;

/// Whether the table pattern `pattern` matches somewhere in `text`.
pub uninterp spec fn table_pattern_matches(pattern: Seq<char>, text: Seq<char>) -> bool;

/// A compiled table pattern; its view is the source text it was compiled from,
/// and `compile_table_pattern` is the only place that builds one.
pub struct TablePattern {
    source: String,
    regex: regex::Regex,
}

impl View for TablePattern {
    type V = Seq<char>;

    closed spec fn view(&self) -> Seq<char> {
        self.source@
    }
}

/// Relies on regex::Regex::new: it fails exactly on the patterns it cannot
/// compile, which depends on the pattern text alone.
#[verifier::external_body]
fn compile_table_pattern(pattern: &str) -> (r: Option<TablePattern>)
    ensures
        r is Some <==> table_pattern_compiles(pattern@),
        r matches Some(t) ==> t@ == pattern@,
{
    regex::Regex::new(pattern).ok().map(|regex| TablePattern { source: pattern.to_string(), regex })
}

/// Relies on regex::Regex::is_match: whether the pattern matches anywhere in `text`.
#[verifier::external_body]
fn table_is_match(t: &TablePattern, text: &str) -> (r: bool)
    ensures
        r == table_pattern_matches(t@, text@),
{
    t.regex.is_match(text)
}

/// A table line's key and value: the trimmed halves of a trimmed, non-comment line
/// with exactly one `=`.
pub open spec fn table_entry(line: Seq<char>) -> Option<(Seq<char>, Seq<char>)> {
    let t = trimmed(line);
    if t.len() == 0 || t[0] == '#' {
        None
    } else {
        let parts = split_on(t, '=');
        if parts.len() == 2 {
            Some((trimmed(parts[0]), trimmed(parts[1])))
        } else {
            None
        }
    }
}

/// The keys of the table's entries, in order.
pub open spec fn table_commands(lines: Seq<Seq<char>>) -> Seq<Seq<char>>
    decreases lines.len(),
{
    if lines.len() == 0 {
        Seq::empty()
    } else {
        table_commands(lines.drop_last()) + match table_entry(lines.last()) {
            Some((key, _)) => seq![key],
            None => Seq::empty(),
        }
    }
}

/// The file of the first entry whose pattern matches `command`, empty when none
/// does; `Err` with the pattern of an entry reached first that does not compile.
pub open spec fn config_for(lines: Seq<Seq<char>>, command: Seq<char>) -> Result<Seq<char>, Seq<char>>
    decreases lines.len(),
{
    if lines.len() == 0 {
        Ok(Seq::empty())
    } else {
        match table_entry(lines[0]) {
            None => config_for(lines.drop_first(), command),
            Some((pattern, file)) => if !table_pattern_compiles(pattern) {
                Err(pattern)
            } else if table_pattern_matches(pattern, command) {
                Ok(file)
            } else {
                config_for(lines.drop_first(), command)
            },
        }
    }
}

/// Reads one table line.
pub fn parse_table_line(line: &str) -> (r: Option<(String, String)>)
    ensures
        r matches Some((k, v)) ==> table_entry(line@) == Some((k@, v@)),
        r is None ==> table_entry(line@) is None,
{
    let t = trim(line);
    if t.unicode_len() == 0 || t.get_char(0) == '#' {
        return None;
    }
    let parts = split_at_char(t, '=');
    proof {
        assert(parts@.map_values(|p: String| p@).len() == parts@.len());
    }
    if parts.len() == 2 {
        assert(parts@[0]@ == split_on(t@, '=')[0]);
        assert(parts@[1]@ == split_on(t@, '=')[1]);
        let key = String::from_str(trim(parts[0].as_str()));
        let value = String::from_str(trim(parts[1].as_str()));
        Some((key, value))
    } else {
        None
    }
}

/// The command names that the table's entries start with.
pub fn commands_from_lines(lines: &Vec<String>) -> (r: Vec<String>)
    ensures
        r@.map_values(|s: String| s@) == table_commands(lines@.map_values(|l: String| l@)),
{
    let ghost texts = lines@.map_values(|l: String| l@);
    let mut commands: Vec<String> = Vec::new();
    let mut i: usize = 0;
    assert(texts.take(0) =~= Seq::<Seq<char>>::empty());
    assert(commands@.map_values(|s: String| s@) =~= Seq::<Seq<char>>::empty());
    while i < lines.len()
        invariant
            i <= lines.len(),
            texts == lines@.map_values(|l: String| l@),
            commands@.map_values(|s: String| s@) == table_commands(texts.take(i as int)),
        decreases lines.len() - i,
    {
        assert(texts.take(i + 1).drop_last() == texts.take(i as int));
        assert(texts.take(i + 1).last() == lines@[i as int]@);
        let ghost before = commands@.map_values(|s: String| s@);
        match parse_table_line(lines[i].as_str()) {
            Some((key, _)) => {
                commands.push(key);
                assert(commands@.map_values(|s: String| s@) =~= before.push(key@));
                assert(before.push(key@) =~= before + seq![key@]);
            },
            None => {
                assert(before =~= before + Seq::<Seq<char>>::empty());
            },
        }
        i += 1;
    }
    assert(texts.take(lines.len() as int) == texts);
    commands
}

/// The rule-block file for `command`: the file of the first entry whose pattern
/// matches it, or an empty string; `Err` holds a pattern that does not compile.
pub fn config_file_for(lines: &Vec<String>, command: &str) -> (r: Result<String, String>)
    ensures
        match config_for(lines@.map_values(|l: String| l@), command@) {
            Ok(f) => r matches Ok(s) && s@ == f,
            Err(p) => r matches Err(s) && s@ == p,
        },
{
    let ghost texts = lines@.map_values(|l: String| l@);
    let mut k: usize = 0;
    assert(texts.skip(0) == texts);
    while k < lines.len()
        invariant
            k <= lines.len(),
            texts == lines@.map_values(|l: String| l@),
            config_for(texts.skip(k as int), command@) == config_for(texts, command@),
        decreases lines.len() - k,
    {
        assert(texts.skip(k as int)[0] == lines@[k as int]@);
        assert(texts.skip(k as int).drop_first() == texts.skip(k + 1));
        match parse_table_line(lines[k].as_str()) {
            None => {},
            Some((pattern, file)) => match compile_table_pattern(pattern.as_str()) {
                None => {
                    return Err(pattern);
                },
                Some(t) => {
                    if table_is_match(&t, command) {
                        return Ok(file);
                    }
                },
            },
        }
        k += 1;
    }
    assert(texts.skip(lines.len() as int) =~= Seq::<Seq<char>>::empty());
    Ok(String::new())
}

/// The alias line for one command: fish's form when the shell is fish, else the
/// bash form.
pub open spec fn alias_line(cmd: Seq<char>, fish: bool) -> Seq<char> {
    "alias "@ + cmd + (if fish {
        " 'rcz "@
    } else {
        "='rcz "@
    }) + cmd + "'"@
}

/// One alias per command, in the syntax of `shell`.
pub fn generate_aliases_for_shell(commands: &[String], shell: &str) -> (r: Vec<String>)
    ensures
        r@.len() == commands@.len(),
        forall|i: int|
            0 <= i < commands@.len() ==> (#[trigger] r@[i])@ == alias_line(
                commands@[i]@,
                shell@ == "fish"@,
            ),
{
    let fish = text_eq(shell, "fish");
    let mut out: Vec<String> = Vec::new();
    let mut i: usize = 0;
    while i < commands.len()
        invariant
            i <= commands@.len(),
            fish == (shell@ == "fish"@),
            out@.len() == i,
            forall|j: int| 0 <= j < i ==> (#[trigger] out@[j])@ == alias_line(commands@[j]@, fish),
        decreases commands@.len() - i,
    {
        let cmd = commands[i].as_str();
        let mut line = String::from_str("alias ");
        line.append(cmd);
        if fish {
            line.append(" 'rcz ");
        } else {
            line.append("='rcz ");
        }
        line.append(cmd);
        line.append("'");
        out.push(line);
        i += 1;
    }
    out
}

/// The shell whose alias syntax to use, from the path of the user's shell:
/// zsh or fish where the path names one, bash otherwise.
pub fn shell_kind(shell_path: Option<&str>) -> (r: &'static str)
    ensures
        r@ == match shell_path {
            Some(p) => if contains_text(p@, "zsh"@) {
                "zsh"@
            } else if contains_text(p@, "fish"@) {
                "fish"@
            } else {
                "bash"@
            },
            None => "bash"@,
        },
{
    match shell_path {
        Some(p) => if contains(p, "zsh") {
            "zsh"
        } else if contains(p, "fish") {
            "fish"
        } else {
            "bash"
        },
        None => "bash",
    }
}

} // verus!
