//! What is shown of the files of an SSH configuration.

use crate::ssh::config::after_whitespace;
use crate::ssh::config::lemma_after_whitespace;
use crate::ssh::config::replace_char;
use crate::ssh::config::replace_chars;
use crate::ssh::validate::append_texts;
use crate::ssh::validate::check_line;
use crate::ssh::validate::warnings_upto;
use crate::text::chars_of;
use crate::text::find_whitespace;
use crate::text::line_views;
use crate::text::lines_of;
use crate::text::lower_chars;
use crate::text::lowercase;
use crate::text::opt_text;
use crate::text::slice_of;
use crate::text::split_lines;
use crate::text::starts_with;
use crate::text::str_eq;
use crate::text::string_of;
use crate::text::texts;
use crate::text::trim_chars;
use crate::text::trimmed;
use vstd::prelude::*;

verus! {

/// A file of the configuration: the main one or one that it includes.
#[derive(Debug)]
pub struct SshConfigFile {
    /// Display name, relative to the configuration directory.
    pub name: String,
    /// Absolute path.
    pub path: String,
    /// Whether this is the main configuration file.
    pub is_main: bool,
    /// Number of `Host` entries in this file.
    pub host_count: usize,
}

/// What a `SshConfigFile` holds, as mathematical values.
pub struct SshConfigFileView {
    pub name: Seq<char>,
    pub path: Seq<char>,
    pub is_main: bool,
    pub host_count: usize,
}

impl View for SshConfigFile {
    type V = SshConfigFileView;

    open spec fn view(&self) -> SshConfigFileView {
        SshConfigFileView {
            name: self.name@,
            path: self.path@,
            is_main: self.is_main,
            host_count: self.host_count,
        }
    }
}

impl Clone for SshConfigFile {
    fn clone(&self) -> (r: Self)
        ensures
            r@ == self@,
    {
        SshConfigFile {
            name: self.name.clone(),
            path: self.path.clone(),
            is_main: self.is_main,
            host_count: self.host_count,
        }
    }
}

/// Whether a line opens a host entry: without the white space at its ends
/// and in lowercase, it starts with `host` and a space.
pub open spec fn is_host_line(line: Seq<char>) -> bool {
    "host "@.is_prefix_of(lowercase(trimmed(line)))
}

/// The number of lines among the first `n` that open a host entry.
pub open spec fn host_lines(lines: Seq<Seq<char>>, n: nat) -> nat
    decreases n,
{
    if n == 0 {
        0
    } else {
        host_lines(lines, (n - 1) as nat) + if is_host_line(lines[n - 1]) {
            1nat
        } else {
            0nat
        }
    }
}

/// The number of `Host` entries in the text of a file.
pub fn count_hosts(content: &str) -> (r: usize)
    ensures
        r == host_lines(lines_of(content@), lines_of(content@).len()),
{
    let lines = split_lines(&chars_of(content));
    let ghost all = lines_of(content@);
    let mut count: usize = 0;
    let mut i: usize = 0;
    while i < lines.len()
        invariant
            i <= lines@.len(),
            line_views(lines@) == all,
            count == host_lines(all, i as nat),
            count <= i,
        decreases lines@.len() - i,
    {
        assert(all[i as int] == lines@[i as int]@);
        let lower = lower_chars(&trim_chars(&lines[i]));
        if starts_with(&lower, "host ") {
            count += 1;
        }
        i += 1;
    }
    count
}

/// The entry of a file with the given text.
pub fn config_file_entry(name: String, path: String, is_main: bool, content: &str) -> (r:
    SshConfigFile)
    ensures
        r@ == (SshConfigFileView {
            name: name@,
            path: path@,
            is_main,
            host_count: host_lines(lines_of(content@), lines_of(content@).len()) as usize,
        }),
{
    SshConfigFile { name, path, is_main, host_count: count_hosts(content) }
}

/// What validating a text returns: the complaint of the structural check
/// where there is one, else the warnings about its lines, in their order.
pub open spec fn validation_of(content: Seq<char>, structure_error: Option<Seq<char>>) -> Result<
    Seq<Seq<char>>,
    Seq<char>,
> {
    match structure_error {
        Some(complaint) => Err("SSH 配置结构错误: "@ + complaint),
        None => Ok(warnings_upto(lines_of(content), lines_of(content).len())),
    }
}

/// The view of a validation's result.
pub open spec fn validation_view(r: Result<Vec<String>, String>) -> Result<
    Seq<Seq<char>>,
    Seq<char>,
> {
    match r {
        Ok(warnings) => Ok(texts(warnings@)),
        Err(message) => Err(message@),
    }
}

/// The warnings about the lines of a configuration text.
pub fn line_check(content: &str) -> (r: Vec<String>)
    ensures
        texts(r@) == warnings_upto(lines_of(content@), lines_of(content@).len()),
{
    let lines = split_lines(&chars_of(content));
    let ghost all = lines_of(content@);
    let mut warnings: Vec<String> = Vec::new();
    assert(texts(warnings@) =~= Seq::empty());
    let mut i: usize = 0;
    while i < lines.len()
        invariant
            i <= lines@.len(),
            line_views(lines@) == all,
            texts(warnings@) == warnings_upto(all, i as nat),
        decreases lines@.len() - i,
    {
        assert(all[i as int] == lines@[i as int]@);
        let found = check_line(i + 1, &lines[i]);
        append_texts(&mut warnings, &found);
        i += 1;
    }
    warnings
}

/// Validates the text of a configuration. `structure_error` is the
/// complaint of the structural check of the same text, `None` where it
/// passed: a complaint fails the validation, warnings do not.
pub fn validate_ssh_config(content: &str, structure_error: Option<String>) -> (r: Result<
    Vec<String>,
    String,
>)
    ensures
        validation_view(r) == validation_of(content@, opt_text(structure_error)),
{
    let warnings = line_check(content);
    match structure_error {
        Some(complaint) => {
            let mut message = String::from_str("SSH 配置结构错误: ");
            message.append(complaint.as_str());
            Err(message)
        },
        None => Ok(warnings),
    }
}

/// The pattern of an `Include` line: what follows its first white space,
/// without the white space at its ends. A line that is no `Include` line,
/// or has nothing behind the keyword's end, names none.
pub open spec fn include_pattern(line: Seq<char>) -> Option<Seq<char>> {
    let content = trimmed(line);
    if "include"@.is_prefix_of(lowercase(content)) {
        match after_whitespace(content) {
            Some(rest) => Some(trimmed(rest)),
            None => None,
        }
    } else {
        None
    }
}

/// The patterns of the first `n` lines, in their order.
pub open spec fn include_patterns_upto(lines: Seq<Seq<char>>, n: nat) -> Seq<Seq<char>>
    decreases n,
{
    if n == 0 {
        Seq::empty()
    } else {
        let before = include_patterns_upto(lines, (n - 1) as nat);
        match include_pattern(lines[n - 1]) {
            Some(pattern) => before.push(pattern),
            None => before,
        }
    }
}

/// The patterns of the `Include` lines of a text, in their order.
pub fn include_patterns(content: &str) -> (r: Vec<String>)
    ensures
        texts(r@) == include_patterns_upto(lines_of(content@), lines_of(content@).len()),
{
    let lines = split_lines(&chars_of(content));
    let ghost all = lines_of(content@);
    let mut patterns: Vec<String> = Vec::new();
    assert(texts(patterns@) =~= Seq::empty());
    let mut i: usize = 0;
    while i < lines.len()
        invariant
            i <= lines@.len(),
            line_views(lines@) == all,
            texts(patterns@) == include_patterns_upto(all, i as nat),
        decreases lines@.len() - i,
    {
        assert(all[i as int] == lines@[i as int]@);
        let line = trim_chars(&lines[i]);
        let lower = lower_chars(&line);
        if starts_with(&lower, "include") {
            let at = find_whitespace(&line);
            proof {
                match at {
                    Some(k) => lemma_after_whitespace(line@, k as int),
                    None => lemma_after_whitespace(line@, line@.len() as int),
                }
            }
            match at {
                Some(k) => {
                    let ghost before = texts(patterns@);
                    let pattern = string_of(&trim_chars(&slice_of(&line, k + 1, line.len())));
                    patterns.push(pattern);
                    assert(texts(patterns@) =~= before.push(pattern@));
                },
                None => {},
            }
        }
        i += 1;
    }
    patterns
}

/// The pattern with the home directory in the place of each `~`, where the
/// pattern starts at the root or at home; a pattern that does neither is
/// relative to the configuration directory and has no such form.
pub open spec fn rooted_pattern(pattern: Seq<char>, home: Seq<char>) -> Option<Seq<char>> {
    if pattern.len() > 0 && (pattern[0] == '/' || pattern[0] == '~') {
        Some(replace_char(pattern, '~', home))
    } else {
        None
    }
}

/// The pattern of an `Include` line as a path from the root, where it is
/// one.
pub fn expand_include_pattern(pattern: &str, home: &str) -> (r: Option<String>)
    ensures
        opt_text(r) == rooted_pattern(pattern@, home@),
{
    let chars = chars_of(pattern);
    if chars.len() > 0 && (chars[0] == '/' || chars[0] == '~') {
        Some(string_of(&replace_chars(&chars, '~', &chars_of(home))))
    } else {
        None
    }
}

/// The terminal to open: the chosen one, or the system's own.
pub fn terminal_or_default(terminal: Option<String>) -> (r: String)
    ensures
        r@ == match terminal {
            Some(t) => t@,
            None => "terminal"@,
        },
{
    match terminal {
        Some(t) => t,
        None => String::from_str("terminal"),
    }
}

/// Whether the terminal is opened through a script file rather than by
/// AppleScript.
pub fn opens_by_script_file(terminal: &str) -> (r: bool)
    ensures
        r == (terminal@ == "warp"@),
{
    str_eq(terminal, "warp")
}

/// The shell script that connects to `host`.
pub open spec fn connect_script_text(host: Seq<char>) -> Seq<char> {
    "#!/bin/bash\nexec ssh "@ + host + "\n"@
}

/// The shell script that connects to `host`.
pub fn connect_script(host: &str) -> (r: String)
    ensures
        r@ == connect_script_text(host@),
{
    let mut script = String::from_str("#!/bin/bash\nexec ssh ");
    script.append(host);
    script.append("\n");
    script
}

/// The AppleScript that connects to `host`: in a new iTerm window for the
/// terminal `iterm`, in Terminal for any other.
pub open spec fn apple_script_text(terminal: Seq<char>, host: Seq<char>) -> Seq<char> {
    if terminal == "iterm"@ {
        "\n                    tell application \"iTerm\"\n                        activate\n                        create window with default profile command \"ssh "@
            + host + "\"\n                    end tell\n                    "@
    } else {
        "\n                    tell application \"Terminal\"\n                        activate\n                        do script \"ssh "@
            + host + "\"\n                    end tell\n                    "@
    }
}

/// The AppleScript that connects to `host`.
pub fn apple_script(terminal: &str, host: &str) -> (r: String)
    ensures
        r@ == apple_script_text(terminal@, host@),
{
    let mut script = if str_eq(terminal, "iterm") {
        String::from_str(
            "\n                    tell application \"iTerm\"\n                        activate\n                        create window with default profile command \"ssh ",
        )
    } else {
        String::from_str(
            "\n                    tell application \"Terminal\"\n                        activate\n                        do script \"ssh ",
        )
    };
    script.append(host);
    script.append("\"\n                    end tell\n                    ");
    script
}

/// The terminal emulators that are tried on Linux, in this order.
pub fn linux_terminals() -> (r: Vec<String>)
    ensures
        texts(r@) == seq!["gnome-terminal"@, "konsole"@, "xterm"@, "x-terminal-emulator"@],
{
    let mut list: Vec<String> = Vec::new();
    list.push(String::from_str("gnome-terminal"));
    list.push(String::from_str("konsole"));
    list.push(String::from_str("xterm"));
    list.push(String::from_str("x-terminal-emulator"));
    assert(texts(list@) =~= seq![
        "gnome-terminal"@,
        "konsole"@,
        "xterm"@,
        "x-terminal-emulator"@,
    ]);
    list
}

} // verus!
