//! Reading host entries out of the text of an SSH configuration.

use crate::ssh::types::SshHost;
use crate::ssh::types::SshHostGroup;
use crate::ssh::types::SshHostView;
use crate::ssh::types::host_views;
use crate::text::all_digits;
use crate::text::chars_eq;
use crate::text::chars_of;
use crate::text::contains_text;
use crate::text::digit_value;
use crate::text::digits_value;
use crate::text::ends_with;
use crate::text::find_char;
use crate::text::find_whitespace;
use crate::text::has_infix;
use crate::text::line_views;
use crate::text::lines_of;
use crate::text::lower_chars;
use crate::text::lowercase;
use crate::text::opt_text;
use crate::text::slice_of;
use crate::text::split_lines;
use crate::text::starts_with;
use crate::text::string_of;
use crate::text::strip_chars;
use crate::text::trim_chars;
use crate::text::trimmed;
use crate::text::unicode_whitespace;
use crate::text::without_edges;
use vstd::prelude::*;

verus! {

/// The port of a host that names none.
pub const DEFAULT_PORT: u16 = 22;

/// The group of a host, from the lowercase forms of its name and address:
/// anything of GitHub first, then what goes through a jump host, then what
/// is on the local network.
pub open spec fn group_of(lower_name: Seq<char>, lower_host: Seq<char>, has_proxy: bool)
    -> SshHostGroup {
    if has_infix(lower_name, "github"@) || has_infix(lower_host, "github"@) {
        SshHostGroup::Github
    } else if has_proxy {
        SshHostGroup::Proxy
    } else if ".local"@.is_suffix_of(lower_host) || "192.168."@.is_prefix_of(lower_host)
        || "10."@.is_prefix_of(lower_host) || lower_host == "localhost"@ || lower_host
        == "127.0.0.1"@ {
        SshHostGroup::Local
    } else {
        SshHostGroup::Direct
    }
}

/// The group of a host whose name and address are given in lowercase.
pub fn group_for(lower_name: &Vec<char>, lower_host: &Vec<char>, has_proxy: bool) -> (r:
    SshHostGroup)
    ensures
        r == group_of(lower_name@, lower_host@, has_proxy),
{
    if contains_text(lower_name, "github") || contains_text(lower_host, "github") {
        SshHostGroup::Github
    } else if has_proxy {
        SshHostGroup::Proxy
    } else if ends_with(lower_host, ".local") || starts_with(lower_host, "192.168.")
        || starts_with(lower_host, "10.") || chars_eq(lower_host, "localhost") || chars_eq(
        lower_host,
        "127.0.0.1",
    ) {
        SshHostGroup::Local
    } else {
        SshHostGroup::Direct
    }
}

/// The group of a host.
pub fn determine_group(name: &str, hostname: &str, proxy_jump: &Option<String>) -> (r:
    SshHostGroup)
    ensures
        r == group_of(lowercase(name@), lowercase(hostname@), proxy_jump is Some),
{
    let lower_name = lower_chars(&chars_of(name));
    let lower_host = lower_chars(&chars_of(hostname));
    group_for(&lower_name, &lower_host, proxy_jump.is_some())
}

/// The host with the given settings, in its group.
pub open spec fn built_host(
    name: Seq<char>,
    hostname: Seq<char>,
    port: u16,
    user: Seq<char>,
    identity_file: Option<Seq<char>>,
    proxy_jump: Option<Seq<char>>,
    is_1password_agent: bool,
) -> SshHostView {
    SshHostView {
        name,
        hostname,
        port,
        user,
        identity_file,
        proxy_jump,
        is_1password_agent,
        group: group_of(lowercase(name), lowercase(hostname), proxy_jump is Some),
    }
}

/// The host with the given settings.
pub fn build_ssh_host(
    name: &str,
    hostname: &str,
    port: u16,
    user: &str,
    identity_file: Option<String>,
    proxy_jump: Option<String>,
    is_1password_agent: bool,
) -> (r: SshHost)
    ensures
        r@ == built_host(
            name@,
            hostname@,
            port,
            user@,
            opt_text(identity_file),
            opt_text(proxy_jump),
            is_1password_agent,
        ),
{
    let group = determine_group(name, hostname, &proxy_jump);
    SshHost {
        name: String::from_str(name),
        hostname: String::from_str(hostname),
        port,
        user: String::from_str(user),
        identity_file,
        proxy_jump,
        is_1password_agent,
        group,
    }
}

/// What follows the first `c` in `s`, if `c` occurs.
pub open spec fn after_char(s: Seq<char>, c: char) -> Option<Seq<char>>
    decreases s.len(),
{
    if s.len() == 0 {
        None
    } else if s[0] == c {
        Some(s.drop_first())
    } else {
        after_char(s.drop_first(), c)
    }
}

/// What follows the first white space in `s`, if there is any.
pub open spec fn after_whitespace(s: Seq<char>) -> Option<Seq<char>>
    decreases s.len(),
{
    if s.len() == 0 {
        None
    } else if unicode_whitespace(s[0]) {
        Some(s.drop_first())
    } else {
        after_whitespace(s.drop_first())
    }
}

/// The value of a `Key Value` or `Key=Value` line: what follows the first
/// `=`, or else the first white space, without white space and then double
/// quotes at its ends; empty where the line has neither.
pub open spec fn value_of(line: Seq<char>) -> Seq<char> {
    let rest = match after_char(line, '=') {
        Some(rest) => rest,
        None => match after_whitespace(line) {
            Some(rest) => rest,
            None => Seq::empty(),
        },
    };
    without_edges(trimmed(rest), '"')
}

/// The first `c` at place `i` is where `after_char` cuts.
pub proof fn lemma_after_char(s: Seq<char>, c: char, i: int)
    requires
        0 <= i <= s.len(),
        forall|j: int| 0 <= j < i ==> s[j] != c,
        i < s.len() ==> s[i] == c,
    ensures
        after_char(s, c) == if i < s.len() {
            Some(s.skip(i + 1))
        } else {
            None
        },
    decreases s.len(),
{
    if s.len() > 0 {
        if i > 0 {
            lemma_after_char(s.drop_first(), c, i - 1);
            if i < s.len() {
                assert(s.drop_first().skip(i) =~= s.skip(i + 1));
            }
        } else {
            assert(s.drop_first() == s.skip(1));
        }
    }
}

/// The first white space at place `i` is where `after_whitespace` cuts.
pub proof fn lemma_after_whitespace(s: Seq<char>, i: int)
    requires
        0 <= i <= s.len(),
        forall|j: int| 0 <= j < i ==> !unicode_whitespace(s[j]),
        i < s.len() ==> unicode_whitespace(s[i]),
    ensures
        after_whitespace(s) == if i < s.len() {
            Some(s.skip(i + 1))
        } else {
            None
        },
    decreases s.len(),
{
    if s.len() > 0 {
        if i > 0 {
            lemma_after_whitespace(s.drop_first(), i - 1);
            if i < s.len() {
                assert(s.drop_first().skip(i) =~= s.skip(i + 1));
            }
        } else {
            assert(s.drop_first() == s.skip(1));
        }
    }
}

/// The value of a configuration line.
pub fn value_chars(line: &Vec<char>) -> (r: Vec<char>)
    ensures
        r@ == value_of(line@),
{
    let cut = match find_char(line, '=') {
        Some(i) => {
            proof {
                lemma_after_char(line@, '=', i as int);
            }
            Some(i)
        },
        None => {
            proof {
                lemma_after_char(line@, '=', line@.len() as int);
            }
            let at = find_whitespace(line);
            proof {
                match at {
                    Some(i) => lemma_after_whitespace(line@, i as int),
                    None => lemma_after_whitespace(line@, line@.len() as int),
                }
            }
            at
        },
    };
    let rest = match cut {
        Some(i) => slice_of(line, i + 1, line.len()),
        None => Vec::new(),
    };
    strip_chars(&trim_chars(&rest), '"')
}

/// The value of a configuration line.
pub fn extract_value(line: &str) -> (r: String)
    ensures
        r@ == value_of(line@),
{
    string_of(&value_chars(&chars_of(line)))
}

/// The number that a text spells, where it is no more than `max`: decimal
/// digits with an optional `+` in front, and nothing else.
pub open spec fn decimal_number(s: Seq<char>, max: nat) -> Option<nat> {
    let digits = if s.len() > 0 && s[0] == '+' {
        s.drop_first()
    } else {
        s
    };
    if digits.len() > 0 && all_digits(digits) && digits_value(digits) <= max {
        Some(digits_value(digits))
    } else {
        None
    }
}

/// The port that a text spells.
pub open spec fn decimal_u16(s: Seq<char>) -> Option<u16> {
    match decimal_number(s, u16::MAX as nat) {
        Some(n) => Some(n as u16),
        None => None,
    }
}

/// A prefix of a digit sequence spells no more than the whole.
pub proof fn lemma_digits_value_grows(s: Seq<char>, n: int)
    requires
        0 <= n <= s.len(),
    ensures
        digits_value(s.subrange(0, n)) <= digits_value(s),
    decreases s.len() - n,
{
    if n < s.len() {
        lemma_digits_value_grows(s, n + 1);
        assert(s.subrange(0, n + 1).drop_last() == s.subrange(0, n));
        assert(digits_value(s.subrange(0, n + 1)) >= digits_value(s.subrange(0, n))) by (nonlinear_arith)
            requires
                digits_value(s.subrange(0, n + 1)) == digits_value(s.subrange(0, n)) * 10
                    + digit_value(s.subrange(0, n + 1).last()),
        ;
    } else {
        assert(s.subrange(0, n) == s);
    }
}

/// The number that `text` spells, where it is no more than `max`.
pub fn parse_number(text: &Vec<char>, max: u32) -> (r: Option<u32>)
    ensures
        match r {
            Some(n) => decimal_number(text@, max as nat) == Some(n as nat),
            None => decimal_number(text@, max as nat) is None,
        },
{
    let start: usize = if text.len() > 0 && text[0] == '+' {
        1
    } else {
        0
    };
    let ghost digits = text@.subrange(start as int, text.len() as int);
    assert(start == 1 ==> digits == text@.drop_first());
    assert(start == 0 ==> digits == text@);
    if start == text.len() {
        return None;
    }
    let mut value: u64 = 0;
    let mut i: usize = start;
    assert(digits.subrange(0, 0) =~= Seq::<char>::empty());
    while i < text.len()
        invariant
            start <= i <= text.len(),
            digits == text@.subrange(start as int, text.len() as int),
            digits == if text@.len() > 0 && text@[0] == '+' {
                text@.drop_first()
            } else {
                text@
            },
            value <= max,
            value == digits_value(digits.subrange(0, i - start)),
            forall|j: int| 0 <= j < i - start ==> '0' <= #[trigger] digits[j] && digits[j] <= '9',
        decreases text.len() - i,
    {
        let c = text[i];
        assert(c == digits[i - start]);
        if c < '0' || c > '9' {
            assert(!all_digits(digits));
            return None;
        }
        let d: u64 = (c as u8 - 48) as u64;
        let ghost prefix = digits.subrange(0, i - start + 1);
        assert(prefix.drop_last() == digits.subrange(0, i - start));
        assert(prefix.last() == c);
        let next: u64 = value * 10 + d;
        assert(digit_value(c) == d);
        assert(digits_value(prefix) == next);
        if next > max as u64 {
            proof {
                lemma_digits_value_grows(digits, i - start + 1);
            }
            return None;
        }
        value = next;
        i += 1;
    }
    assert(digits.subrange(0, digits.len() as int) == digits);
    Some(value as u32)
}

/// The port that `text` spells.
pub fn parse_port(text: &Vec<char>) -> (r: Option<u16>)
    ensures
        r == decimal_u16(text@),
{
    match parse_number(text, 65535) {
        Some(n) => Some(n as u16),
        None => None,
    }
}

/// `s` with `with` in the place of each `c`.
pub open spec fn replace_char(s: Seq<char>, c: char, with: Seq<char>) -> Seq<char>
    decreases s.len(),
{
    if s.len() == 0 {
        Seq::empty()
    } else if s.last() == c {
        replace_char(s.drop_last(), c, with) + with
    } else {
        replace_char(s.drop_last(), c, with).push(s.last())
    }
}

/// `text` with `with` in the place of each `c`.
pub fn replace_chars(text: &Vec<char>, c: char, with: &Vec<char>) -> (r: Vec<char>)
    ensures
        r@ == replace_char(text@, c, with@),
{
    let mut out: Vec<char> = Vec::new();
    let mut i: usize = 0;
    assert(text@.subrange(0, 0) =~= Seq::<char>::empty());
    while i < text.len()
        invariant
            i <= text.len(),
            out@ == replace_char(text@.subrange(0, i as int), c, with@),
        decreases text.len() - i,
    {
        assert(text@.subrange(0, i + 1).drop_last() == text@.subrange(0, i as int));
        if text[i] == c {
            let ghost before = out@;
            let mut j: usize = 0;
            while j < with.len()
                invariant
                    j <= with.len(),
                    out@ == before + with@.subrange(0, j as int),
                decreases with.len() - j,
            {
                out.push(with[j]);
                assert(with@.subrange(0, j + 1) == with@.subrange(0, j as int).push(with@[j as int]));
                j += 1;
            }
            assert(with@.subrange(0, with.len() as int) == with@);
        } else {
            out.push(text[i]);
        }
        i += 1;
    }
    assert(text@.subrange(0, text.len() as int) == text@);
    out
}

/// The settings of the host entry that is being read.
pub struct PendingHost {
    pub name: Vec<char>,
    pub hostname: Vec<char>,
    pub port: u16,
    pub user: Vec<char>,
    pub identity_file: Option<Vec<char>>,
    pub proxy_jump: Option<Vec<char>>,
    pub agent: bool,
}

/// What a `PendingHost` holds, as mathematical values.
pub struct HostDraft {
    pub name: Seq<char>,
    pub hostname: Seq<char>,
    pub port: u16,
    pub user: Seq<char>,
    pub identity_file: Option<Seq<char>>,
    pub proxy_jump: Option<Seq<char>>,
    pub agent: bool,
}

/// The characters of an optional list of characters.
pub open spec fn opt_chars(o: Option<Vec<char>>) -> Option<Seq<char>> {
    match o {
        Some(v) => Some(v@),
        None => None,
    }
}

impl View for PendingHost {
    type V = HostDraft;

    open spec fn view(&self) -> HostDraft {
        HostDraft {
            name: self.name@,
            hostname: self.hostname@,
            port: self.port,
            user: self.user@,
            identity_file: opt_chars(self.identity_file),
            proxy_jump: opt_chars(self.proxy_jump),
            agent: self.agent,
        }
    }
}

/// The view of the entry that is being read, if one is.
pub open spec fn pending_view(p: Option<PendingHost>) -> Option<HostDraft> {
    match p {
        Some(h) => Some(h@),
        None => None,
    }
}

/// What has been read so far: the finished hosts and the entry in progress.
pub struct HostsState {
    pub hosts: Seq<SshHostView>,
    pub current: Option<HostDraft>,
}

/// A fresh entry for the host `name`: the name is its address until a
/// `HostName` line says otherwise.
pub open spec fn new_draft(name: Seq<char>) -> HostDraft {
    HostDraft {
        name,
        hostname: name,
        port: DEFAULT_PORT,
        user: Seq::empty(),
        identity_file: None,
        proxy_jump: None,
        agent: false,
    }
}

/// Whether a host name is a pattern, which stands for no single host.
pub open spec fn is_pattern(name: Seq<char>) -> bool {
    name.contains('*') || name.contains('?')
}

/// The host that a finished entry describes.
pub open spec fn finished_host(draft: HostDraft, global_agent: bool) -> SshHostView {
    built_host(
        draft.name,
        draft.hostname,
        draft.port,
        draft.user,
        draft.identity_file,
        draft.proxy_jump,
        draft.agent || global_agent,
    )
}

/// The hosts once the entry in progress is closed: it is added unless its
/// name is a pattern.
pub open spec fn closed_hosts(state: HostsState, global_agent: bool) -> Seq<SshHostView> {
    match state.current {
        Some(draft) => if is_pattern(draft.name) {
            state.hosts
        } else {
            state.hosts.push(finished_host(draft, global_agent))
        },
        None => state.hosts,
    }
}

/// The entry after a directive line; `lower` is the line in lowercase.
pub open spec fn with_directive(
    draft: HostDraft,
    line: Seq<char>,
    lower: Seq<char>,
    home: Seq<char>,
) -> HostDraft {
    if "hostname"@.is_prefix_of(lower) {
        HostDraft { hostname: value_of(line), ..draft }
    } else if "port"@.is_prefix_of(lower) {
        HostDraft {
            port: match decimal_u16(value_of(line)) {
                Some(port) => port,
                None => DEFAULT_PORT,
            },
            ..draft
        }
    } else if "user "@.is_prefix_of(lower) {
        HostDraft { user: value_of(line), ..draft }
    } else if "identityfile"@.is_prefix_of(lower) {
        HostDraft { identity_file: Some(replace_char(value_of(line), '~', home)), ..draft }
    } else if "proxyjump"@.is_prefix_of(lower) {
        HostDraft { proxy_jump: Some(value_of(line)), ..draft }
    } else if "identityagent"@.is_prefix_of(lower) && has_infix(lower, "1password"@) {
        HostDraft { agent: true, ..draft }
    } else {
        draft
    }
}

/// What stands behind the keyword of a `Host` line: the line from its sixth
/// character on.
pub open spec fn host_name_part(line: Seq<char>) -> Seq<char> {
    if line.len() >= 5 {
        line.subrange(5, line.len() as int)
    } else {
        Seq::empty()
    }
}

/// What a line does, given the line without the white space at its ends
/// and its lowercase form: comments, empty lines and `Include` lines do
/// nothing; a `Host` line closes the entry in progress and opens one; any
/// other line is a directive of the entry in progress, if there is one.
pub open spec fn after_trimmed_line(
    state: HostsState,
    line: Seq<char>,
    lower: Seq<char>,
    home: Seq<char>,
    global_agent: bool,
) -> HostsState {
    if line.len() == 0 || line[0] == '#' {
        state
    } else if "include"@.is_prefix_of(lower) {
        state
    } else if "host "@.is_prefix_of(lower) {
        HostsState {
            hosts: closed_hosts(state, global_agent),
            current: Some(new_draft(trimmed(host_name_part(line)))),
        }
    } else {
        match state.current {
            Some(draft) => HostsState {
                hosts: state.hosts,
                current: Some(with_directive(draft, line, lower, home)),
            },
            None => state,
        }
    }
}

/// What a line of the text does.
pub open spec fn after_line(state: HostsState, line: Seq<char>, home: Seq<char>, global_agent: bool)
    -> HostsState {
    after_trimmed_line(state, trimmed(line), lowercase(trimmed(line)), home, global_agent)
}

/// What the first `n` lines do.
pub open spec fn after_lines(lines: Seq<Seq<char>>, n: nat, home: Seq<char>, global_agent: bool)
    -> HostsState
    decreases n,
{
    if n == 0 {
        HostsState { hosts: Seq::empty(), current: None }
    } else {
        after_line(after_lines(lines, (n - 1) as nat, home, global_agent), lines[n - 1], home, global_agent)
    }
}

/// The hosts of a configuration text, in the order of their entries.
pub open spec fn host_entries(content: Seq<char>, global_agent: bool, home: Seq<char>) -> Seq<
    SshHostView,
> {
    let lines = lines_of(content);
    closed_hosts(after_lines(lines, lines.len(), home, global_agent), global_agent)
}

/// A copy of optional characters as a text.
fn opt_string_of(o: &Option<Vec<char>>) -> (r: Option<String>)
    ensures
        opt_text(r) == opt_chars(*o),
{
    match o {
        Some(v) => Some(string_of(v)),
        None => None,
    }
}

/// Whether `name` holds `*` or `?`.
pub fn name_is_pattern(name: &Vec<char>) -> (r: bool)
    ensures
        r == is_pattern(name@),
{
    let star = find_char(name, '*');
    let mark = find_char(name, '?');
    star.is_some() || mark.is_some()
}

/// The host that a finished entry describes.
pub fn finish_host(pending: &PendingHost, global_agent: bool) -> (r: SshHost)
    ensures
        r@ == finished_host(pending@, global_agent),
{
    let name = string_of(&pending.name);
    let hostname = string_of(&pending.hostname);
    let user = string_of(&pending.user);
    build_ssh_host(
        name.as_str(),
        hostname.as_str(),
        pending.port,
        user.as_str(),
        opt_string_of(&pending.identity_file),
        opt_string_of(&pending.proxy_jump),
        pending.agent || global_agent,
    )
}

/// The entry after a directive line; `lower` is the line in lowercase.
pub fn apply_directive(
    pending: PendingHost,
    line: &Vec<char>,
    lower: &Vec<char>,
    home: &Vec<char>,
) -> (r: PendingHost)
    ensures
        r@ == with_directive(pending@, line@, lower@, home@),
{
    let mut next = pending;
    if starts_with(lower, "hostname") {
        next.hostname = value_chars(line);
    } else if starts_with(lower, "port") {
        next.port = match parse_port(&value_chars(line)) {
            Some(port) => port,
            None => DEFAULT_PORT,
        };
    } else if starts_with(lower, "user ") {
        next.user = value_chars(line);
    } else if starts_with(lower, "identityfile") {
        next.identity_file = Some(replace_chars(&value_chars(line), '~', home));
    } else if starts_with(lower, "proxyjump") {
        next.proxy_jump = Some(value_chars(line));
    } else if starts_with(lower, "identityagent") && contains_text(lower, "1password") {
        next.agent = true;
    }
    next
}

/// The hosts of a configuration text. `has_global_1password_agent` marks
/// every host as served by the agent; `home` takes the place of `~` in the
/// paths of identity files.
pub fn parse_host_entries(content: &str, has_global_1password_agent: bool, home: &str) -> (r: Vec<
    SshHost,
>)
    ensures
        host_views(r@) == host_entries(content@, has_global_1password_agent, home@),
{
    let text = chars_of(content);
    let home_chars = chars_of(home);
    let lines = split_lines(&text);
    let ghost all = lines_of(content@);
    let mut hosts: Vec<SshHost> = Vec::new();
    let mut current: Option<PendingHost> = None;
    let mut i: usize = 0;
    assert(host_views(hosts@) =~= Seq::empty());
    while i < lines.len()
        invariant
            i <= lines@.len(),
            line_views(lines@) == all,
            home_chars@ == home@,
            after_lines(all, i as nat, home@, has_global_1password_agent) == (HostsState {
                hosts: host_views(hosts@),
                current: pending_view(current),
            }),
        decreases lines@.len() - i,
    {
        assert(all[i as int] == lines@[i as int]@);
        let line = trim_chars(&lines[i]);
        let lower = lower_chars(&line);
        let ghost before = host_views(hosts@);
        if line.len() == 0 || line[0] == '#' {
        } else if starts_with(&lower, "include") {
        } else if starts_with(&lower, "host ") {
            match &current {
                Some(pending) => {
                    if !name_is_pattern(&pending.name) {
                        let host = finish_host(pending, has_global_1password_agent);
                        hosts.push(host);
                        assert(host_views(hosts@) =~= before.push(host@));
                    }
                },
                None => {},
            }
            let rest = if line.len() >= 5 {
                slice_of(&line, 5, line.len())
            } else {
                Vec::new()
            };
            let name = trim_chars(&rest);
            let hostname = trim_chars(&rest);
            current = Some(
                PendingHost {
                    name,
                    hostname,
                    port: DEFAULT_PORT,
                    user: Vec::new(),
                    identity_file: None,
                    proxy_jump: None,
                    agent: false,
                },
            );
        } else {
            current = match current {
                Some(pending) => Some(apply_directive(pending, &line, &lower, &home_chars)),
                None => None,
            };
        }
        i += 1;
    }
    let ghost before = host_views(hosts@);
    match &current {
        Some(pending) => {
            if !name_is_pattern(&pending.name) {
                let host = finish_host(pending, has_global_1password_agent);
                hosts.push(host);
                assert(host_views(hosts@) =~= before.push(host@));
            }
        },
        None => {},
    }
    hosts
}

/// Whether the text names the socket of the 1Password agent anywhere, which
/// then serves every host.
pub open spec fn names_agent_socket(content: Seq<char>) -> bool {
    has_infix(content, "agent.sock"@) && has_infix(content, "1password"@)
}

/// What reading a configuration returns: the complaint of the structural
/// check where there is one, else the hosts.
pub open spec fn parsed_config(content: Seq<char>, structure_error: Option<Seq<char>>, home: Seq<char>)
    -> Result<Seq<SshHostView>, Seq<char>> {
    match structure_error {
        Some(complaint) => Err("Failed to parse SSH config: "@ + complaint),
        None => Ok(host_entries(content, names_agent_socket(content), home)),
    }
}

/// The view of a reading's result.
pub open spec fn parsed_view(r: Result<Vec<SshHost>, String>) -> Result<Seq<SshHostView>, Seq<char>> {
    match r {
        Ok(hosts) => Ok(host_views(hosts@)),
        Err(message) => Err(message@),
    }
}

/// The hosts of the configuration text `content`. `structure_error` is the
/// complaint of the structural check of the same text, `None` where it
/// passed; `home` is the user's home directory.
pub fn parse_ssh_config(content: &str, structure_error: Option<String>, home: &str) -> (r: Result<
    Vec<SshHost>,
    String,
>)
    ensures
        parsed_view(r) == parsed_config(content@, opt_text(structure_error), home@),
{
    match structure_error {
        Some(complaint) => {
            let mut message = String::from_str("Failed to parse SSH config: ");
            message.append(complaint.as_str());
            Err(message)
        },
        None => {
            let text = chars_of(content);
            let agent = contains_text(&text, "agent.sock") && contains_text(&text, "1password");
            Ok(parse_host_entries(content, agent, home))
        },
    }
}

} // verus!
