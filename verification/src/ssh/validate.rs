//! The checks that the lines of an SSH configuration are put to.

use crate::ssh::config::decimal_number;
use crate::ssh::config::parse_number;
use crate::text::chars_eq;
use crate::text::decimal_digits;
use crate::text::is_whitespace;
use crate::text::lower_chars;
use crate::text::lowercase;
use crate::text::push_chars;
use crate::text::push_decimal;
use crate::text::slice_of;
use crate::text::texts;
use crate::text::trim_chars;
use crate::text::trimmed;
use crate::text::unicode_whitespace;
use vstd::prelude::*;

verus! {

/// Whether a lowercase word is a keyword of the configuration language.
pub open spec fn known_keyword(word: Seq<char>) -> bool {
    word == "host"@
    || word == "match"@
    || word == "hostname"@
    || word == "user"@
    || word == "port"@
    || word == "identityfile"@
    || word == "identitiesonly"@
    || word == "forwardagent"@
    || word == "proxyjump"@
    || word == "proxycommand"@
    || word == "localforward"@
    || word == "remoteforward"@
    || word == "serveraliveinterval"@
    || word == "serveralivecountmax"@
    || word == "stricthostkeychecking"@
    || word == "userknownhostsfile"@
    || word == "loglevel"@
    || word == "compression"@
    || word == "connecttimeout"@
    || word == "connectionattempts"@
    || word == "addkeystoagent"@
    || word == "identityagent"@
    || word == "pubkeyauthentication"@
    || word == "preferredauthentications"@
    || word == "batchmode"@
    || word == "checkhostip"@
    || word == "ciphers"@
    || word == "controlmaster"@
    || word == "controlpath"@
    || word == "controlpersist"@
    || word == "dynamicforward"@
    || word == "escapechar"@
    || word == "exitonforwardfailure"@
    || word == "fingerprinthash"@
    || word == "gatewayports"@
    || word == "globalknownhostsfile"@
    || word == "gssapiauthentication"@
    || word == "gssapidelegatecredentials"@
    || word == "hashknownhosts"@
    || word == "hostbasedauthentication"@
    || word == "hostkeyalgorithms"@
    || word == "hostkeyalias"@
    || word == "include"@
    || word == "ipqos"@
    || word == "kbdinteractiveauthentication"@
    || word == "kexalgorithms"@
    || word == "localcommand"@
    || word == "macs"@
    || word == "numberofpasswordprompts"@
    || word == "passwordauthentication"@
    || word == "permitlocalcommand"@
    || word == "pkcs11provider"@
    || word == "protocol"@
    || word == "pubkeyacceptedalgorithms"@
    || word == "rekeylimit"@
    || word == "requesttty"@
    || word == "sendenv"@
    || word == "setenv"@
    || word == "tcpkeepalive"@
    || word == "tunnel"@
    || word == "tunneldevice"@
    || word == "updatehostkeys"@
    || word == "verifyhostkeydns"@
    || word == "visualhostkey"@
    || word == "xauthlocation"@
    || word == "canonicaldomains"@
    || word == "canonicalizefallbacklocal"@
    || word == "canonicalizehostname"@
    || word == "canonicalizemaxdots"@
    || word == "canonicalizepermittedcnames"@
    || word == "casignaturealgorithms"@
    || word == "certificatefile"@
    || word == "addressfamily"@
    || word == "bindaddress"@
    || word == "bindinterface"@
    || word == "nohostauthenticationforlocalhost"@
    || word == "permitremoteopen"@
    || word == "proxyusefdpass"@
    || word == "revokedhostkeys"@
    || word == "securitykeyprovider"@
    || word == "streamlocalbindmask"@
    || word == "streamlocalbindunlink"@
    || word == "syslogfacility"@
    || word == "tag"@
    || word == "ignorehostkeys"@
}

/// Whether a lowercase word is a keyword of the configuration language.
pub fn is_known_keyword(word: &Vec<char>) -> (r: bool)
    ensures
        r == known_keyword(word@),
{
    chars_eq(word, "host")
    || chars_eq(word, "match")
    || chars_eq(word, "hostname")
    || chars_eq(word, "user")
    || chars_eq(word, "port")
    || chars_eq(word, "identityfile")
    || chars_eq(word, "identitiesonly")
    || chars_eq(word, "forwardagent")
    || chars_eq(word, "proxyjump")
    || chars_eq(word, "proxycommand")
    || chars_eq(word, "localforward")
    || chars_eq(word, "remoteforward")
    || chars_eq(word, "serveraliveinterval")
    || chars_eq(word, "serveralivecountmax")
    || chars_eq(word, "stricthostkeychecking")
    || chars_eq(word, "userknownhostsfile")
    || chars_eq(word, "loglevel")
    || chars_eq(word, "compression")
    || chars_eq(word, "connecttimeout")
    || chars_eq(word, "connectionattempts")
    || chars_eq(word, "addkeystoagent")
    || chars_eq(word, "identityagent")
    || chars_eq(word, "pubkeyauthentication")
    || chars_eq(word, "preferredauthentications")
    || chars_eq(word, "batchmode")
    || chars_eq(word, "checkhostip")
    || chars_eq(word, "ciphers")
    || chars_eq(word, "controlmaster")
    || chars_eq(word, "controlpath")
    || chars_eq(word, "controlpersist")
    || chars_eq(word, "dynamicforward")
    || chars_eq(word, "escapechar")
    || chars_eq(word, "exitonforwardfailure")
    || chars_eq(word, "fingerprinthash")
    || chars_eq(word, "gatewayports")
    || chars_eq(word, "globalknownhostsfile")
    || chars_eq(word, "gssapiauthentication")
    || chars_eq(word, "gssapidelegatecredentials")
    || chars_eq(word, "hashknownhosts")
    || chars_eq(word, "hostbasedauthentication")
    || chars_eq(word, "hostkeyalgorithms")
    || chars_eq(word, "hostkeyalias")
    || chars_eq(word, "include")
    || chars_eq(word, "ipqos")
    || chars_eq(word, "kbdinteractiveauthentication")
    || chars_eq(word, "kexalgorithms")
    || chars_eq(word, "localcommand")
    || chars_eq(word, "macs")
    || chars_eq(word, "numberofpasswordprompts")
    || chars_eq(word, "passwordauthentication")
    || chars_eq(word, "permitlocalcommand")
    || chars_eq(word, "pkcs11provider")
    || chars_eq(word, "protocol")
    || chars_eq(word, "pubkeyacceptedalgorithms")
    || chars_eq(word, "rekeylimit")
    || chars_eq(word, "requesttty")
    || chars_eq(word, "sendenv")
    || chars_eq(word, "setenv")
    || chars_eq(word, "tcpkeepalive")
    || chars_eq(word, "tunnel")
    || chars_eq(word, "tunneldevice")
    || chars_eq(word, "updatehostkeys")
    || chars_eq(word, "verifyhostkeydns")
    || chars_eq(word, "visualhostkey")
    || chars_eq(word, "xauthlocation")
    || chars_eq(word, "canonicaldomains")
    || chars_eq(word, "canonicalizefallbacklocal")
    || chars_eq(word, "canonicalizehostname")
    || chars_eq(word, "canonicalizemaxdots")
    || chars_eq(word, "canonicalizepermittedcnames")
    || chars_eq(word, "casignaturealgorithms")
    || chars_eq(word, "certificatefile")
    || chars_eq(word, "addressfamily")
    || chars_eq(word, "bindaddress")
    || chars_eq(word, "bindinterface")
    || chars_eq(word, "nohostauthenticationforlocalhost")
    || chars_eq(word, "permitremoteopen")
    || chars_eq(word, "proxyusefdpass")
    || chars_eq(word, "revokedhostkeys")
    || chars_eq(word, "securitykeyprovider")
    || chars_eq(word, "streamlocalbindmask")
    || chars_eq(word, "streamlocalbindunlink")
    || chars_eq(word, "syslogfacility")
    || chars_eq(word, "tag")
    || chars_eq(word, "ignorehostkeys")
}

/// Whether a lowercase keyword takes `yes` or `no`.
pub open spec fn bool_keyword(word: Seq<char>) -> bool {
    word == "forwardagent"@
    || word == "identitiesonly"@
    || word == "compression"@
    || word == "batchmode"@
    || word == "checkhostip"@
    || word == "exitonforwardfailure"@
    || word == "gatewayports"@
    || word == "gssapiauthentication"@
    || word == "gssapidelegatecredentials"@
    || word == "hashknownhosts"@
    || word == "hostbasedauthentication"@
    || word == "passwordauthentication"@
    || word == "permitlocalcommand"@
    || word == "pubkeyauthentication"@
    || word == "tcpkeepalive"@
    || word == "visualhostkey"@
    || word == "canonicalizefallbacklocal"@
    || word == "nohostauthenticationforlocalhost"@
    || word == "streamlocalbindunlink"@
}

/// Whether a lowercase keyword takes `yes` or `no`.
pub fn is_bool_keyword(word: &Vec<char>) -> (r: bool)
    ensures
        r == bool_keyword(word@),
{
    chars_eq(word, "forwardagent")
    || chars_eq(word, "identitiesonly")
    || chars_eq(word, "compression")
    || chars_eq(word, "batchmode")
    || chars_eq(word, "checkhostip")
    || chars_eq(word, "exitonforwardfailure")
    || chars_eq(word, "gatewayports")
    || chars_eq(word, "gssapiauthentication")
    || chars_eq(word, "gssapidelegatecredentials")
    || chars_eq(word, "hashknownhosts")
    || chars_eq(word, "hostbasedauthentication")
    || chars_eq(word, "passwordauthentication")
    || chars_eq(word, "permitlocalcommand")
    || chars_eq(word, "pubkeyauthentication")
    || chars_eq(word, "tcpkeepalive")
    || chars_eq(word, "visualhostkey")
    || chars_eq(word, "canonicalizefallbacklocal")
    || chars_eq(word, "nohostauthenticationforlocalhost")
    || chars_eq(word, "streamlocalbindunlink")
}

/// Whether a lowercase keyword takes a whole number.
pub open spec fn count_keyword(word: Seq<char>) -> bool {
    word == "serveraliveinterval"@
    || word == "serveralivecountmax"@
    || word == "connecttimeout"@
    || word == "connectionattempts"@
    || word == "numberofpasswordprompts"@
}

/// Whether a lowercase keyword takes a whole number.
pub fn is_count_keyword(word: &Vec<char>) -> (r: bool)
    ensures
        r == count_keyword(word@),
{
    chars_eq(word, "serveraliveinterval")
    || chars_eq(word, "serveralivecountmax")
    || chars_eq(word, "connecttimeout")
    || chars_eq(word, "connectionattempts")
    || chars_eq(word, "numberofpasswordprompts")
}

/// Whether a lowercase value is `yes` or `no`.
pub open spec fn yes_or_no(word: Seq<char>) -> bool {
    word == "yes"@
    || word == "no"@
}

/// Whether a lowercase value is `yes` or `no`.
pub fn is_yes_or_no(word: &Vec<char>) -> (r: bool)
    ensures
        r == yes_or_no(word@),
{
    chars_eq(word, "yes")
    || chars_eq(word, "no")
}

/// Whether a lowercase value is a log level.
pub open spec fn log_level(word: Seq<char>) -> bool {
    word == "quiet"@
    || word == "fatal"@
    || word == "error"@
    || word == "info"@
    || word == "verbose"@
    || word == "debug"@
    || word == "debug1"@
    || word == "debug2"@
    || word == "debug3"@
}

/// Whether a lowercase value is a log level.
pub fn is_log_level(word: &Vec<char>) -> (r: bool)
    ensures
        r == log_level(word@),
{
    chars_eq(word, "quiet")
    || chars_eq(word, "fatal")
    || chars_eq(word, "error")
    || chars_eq(word, "info")
    || chars_eq(word, "verbose")
    || chars_eq(word, "debug")
    || chars_eq(word, "debug1")
    || chars_eq(word, "debug2")
    || chars_eq(word, "debug3")
}

/// Whether a lowercase value is a choice of `AddKeysToAgent`.
pub open spec fn add_keys_choice(word: Seq<char>) -> bool {
    word == "yes"@
    || word == "no"@
    || word == "confirm"@
    || word == "ask"@
}

/// Whether a lowercase value is a choice of `AddKeysToAgent`.
pub fn is_add_keys_choice(word: &Vec<char>) -> (r: bool)
    ensures
        r == add_keys_choice(word@),
{
    chars_eq(word, "yes")
    || chars_eq(word, "no")
    || chars_eq(word, "confirm")
    || chars_eq(word, "ask")
}

/// Whether a lowercase value is a choice of `StrictHostKeyChecking`.
pub open spec fn host_key_checking_choice(word: Seq<char>) -> bool {
    word == "yes"@
    || word == "no"@
    || word == "ask"@
    || word == "accept-new"@
    || word == "off"@
}

/// Whether a lowercase value is a choice of `StrictHostKeyChecking`.
pub fn is_host_key_checking_choice(word: &Vec<char>) -> (r: bool)
    ensures
        r == host_key_checking_choice(word@),
{
    chars_eq(word, "yes")
    || chars_eq(word, "no")
    || chars_eq(word, "ask")
    || chars_eq(word, "accept-new")
    || chars_eq(word, "off")
}

/// Whether a lowercase value is a choice of `RequestTTY`.
pub open spec fn request_tty_choice(word: Seq<char>) -> bool {
    word == "yes"@
    || word == "no"@
    || word == "force"@
    || word == "auto"@
}

/// Whether a lowercase value is a choice of `RequestTTY`.
pub fn is_request_tty_choice(word: &Vec<char>) -> (r: bool)
    ensures
        r == request_tty_choice(word@),
{
    chars_eq(word, "yes")
    || chars_eq(word, "no")
    || chars_eq(word, "force")
    || chars_eq(word, "auto")
}

/// Whether a lowercase value is a choice of `ControlMaster`.
pub open spec fn control_master_choice(word: Seq<char>) -> bool {
    word == "yes"@
    || word == "no"@
    || word == "ask"@
    || word == "auto"@
    || word == "autoask"@
}

/// Whether a lowercase value is a choice of `ControlMaster`.
pub fn is_control_master_choice(word: &Vec<char>) -> (r: bool)
    ensures
        r == control_master_choice(word@),
{
    chars_eq(word, "yes")
    || chars_eq(word, "no")
    || chars_eq(word, "ask")
    || chars_eq(word, "auto")
    || chars_eq(word, "autoask")
}

/// Whether a character ends the keyword of a line.
pub open spec fn is_separator(c: char) -> bool {
    unicode_whitespace(c) || c == '='
}

/// The place of the first separator in `s`; the length of `s` where it has
/// none.
pub open spec fn first_separator(s: Seq<char>) -> int
    decreases s.len(),
{
    if s.len() == 0 || is_separator(s[0]) {
        0
    } else {
        1 + first_separator(s.drop_first())
    }
}

/// The keyword of a line: what stands before its first separator.
pub open spec fn keyword_of(line: Seq<char>) -> Seq<char> {
    line.subrange(0, first_separator(line))
}

/// The value of a line: what stands behind its first separator, without
/// the white space at its ends; empty where the line has no separator.
pub open spec fn value_after_keyword(line: Seq<char>) -> Seq<char> {
    if first_separator(line) < line.len() {
        trimmed(line.subrange(first_separator(line) + 1, line.len() as int))
    } else {
        Seq::empty()
    }
}

/// The first separator lies where no character before it is one.
pub proof fn lemma_first_separator(s: Seq<char>, i: int)
    requires
        0 <= i <= s.len(),
        forall|j: int| 0 <= j < i ==> !is_separator(s[j]),
        i < s.len() ==> is_separator(s[i]),
    ensures
        first_separator(s) == i,
    decreases s.len(),
{
    if s.len() > 0 && i > 0 {
        lemma_first_separator(s.drop_first(), i - 1);
    }
}

/// The place of the first separator in `line`.
pub fn find_separator(line: &Vec<char>) -> (r: usize)
    ensures
        r == first_separator(line@),
        r <= line.len(),
{
    let mut i: usize = 0;
    while i < line.len() && !(is_whitespace(line[i]) || line[i] == '=')
        invariant
            i <= line.len(),
            forall|j: int| 0 <= j < i ==> !is_separator(line@[j]),
        decreases line.len() - i,
    {
        i += 1;
    }
    proof {
        lemma_first_separator(line@, i as int);
    }
    i
}

/// A warning about line `number`: the line's number, then the given parts
/// in a row.
pub open spec fn warning_text(
    number: nat,
    head: Seq<char>,
    first: Seq<char>,
    middle: Seq<char>,
    second: Seq<char>,
    tail: Seq<char>,
) -> Seq<char> {
    "第 "@ + decimal_digits(number) + " 行: "@ + head + first + middle + second + tail
}

/// A warning about line `number`.
pub fn warning(
    number: usize,
    head: &str,
    first: &Vec<char>,
    middle: &str,
    second: &Vec<char>,
    tail: &str,
) -> (r: String)
    ensures
        r@ == warning_text(number as nat, head@, first@, middle@, second@, tail@),
{
    let mut text = String::from_str("第 ");
    push_decimal(&mut text, number as u64);
    text.append(" 行: ");
    text.append(head);
    push_chars(&mut text, first, 0, first.len());
    assert(first@.subrange(0, first.len() as int) == first@);
    text.append(middle);
    push_chars(&mut text, second, 0, second.len());
    assert(second@.subrange(0, second.len() as int) == second@);
    text.append(tail);
    text
}

/// The warning, where it applies.
pub open spec fn warning_if(applies: bool, text: Seq<char>) -> Seq<Seq<char>> {
    if applies {
        seq![text]
    } else {
        Seq::empty()
    }
}

/// Adds `text` to `warnings` where it applies.
pub fn push_if(warnings: &mut Vec<String>, applies: bool, text: String)
    ensures
        texts(final(warnings)@) == texts(old(warnings)@) + warning_if(applies, text@),
{
    if applies {
        warnings.push(text);
        assert(texts(warnings@) =~= texts(old(warnings)@) + warning_if(applies, text@));
    } else {
        assert(texts(warnings@) =~= texts(old(warnings)@) + warning_if(applies, text@));
    }
}

/// What is said of the port of a line: it must be a number from 1 to 65535.
pub open spec fn port_warnings(number: nat, keyword_lower: Seq<char>, value: Seq<char>) -> Seq<
    Seq<char>,
> {
    if keyword_lower == "port"@ {
        match decimal_number(value, u16::MAX as nat) {
            Some(port) => warning_if(
                port == 0,
                warning_text(number, "Port 不能为 0"@, Seq::empty(), ""@, Seq::empty(), ""@),
            ),
            None => seq![
                warning_text(
                    number,
                    "Port 值 \""@,
                    value,
                    "\" 不是有效端口号 (1-65535)"@,
                    Seq::empty(),
                    ""@,
                ),
            ],
        }
    } else {
        Seq::empty()
    }
}

/// What is said of the value of a line, given keyword and value also in
/// lowercase: each keyword with a fixed set of values is held to it.
#[verifier::opaque]
pub open spec fn value_warnings(
    number: nat,
    keyword: Seq<char>,
    keyword_lower: Seq<char>,
    value: Seq<char>,
    value_lower: Seq<char>,
) -> Seq<Seq<char>> {
    port_warnings(number, keyword_lower, value) + warning_if(
        count_keyword(keyword_lower) && decimal_number(value, u32::MAX as nat) is None,
        warning_text(number, ""@, keyword, " 值 \""@, value, "\" 应为正整数"@),
    ) + warning_if(
        bool_keyword(keyword_lower) && !yes_or_no(value_lower),
        warning_text(number, ""@, keyword, " 值 \""@, value, "\" 应为 yes 或 no"@),
    ) + warning_if(
        keyword_lower == "loglevel"@ && !log_level(value_lower),
        warning_text(number, "LogLevel \""@, value, "\" 不是有效级别"@, Seq::empty(), ""@),
    ) + warning_if(
        keyword_lower == "addkeystoagent"@ && !add_keys_choice(value_lower) && decimal_number(
            value,
            u32::MAX as nat,
        ) is None,
        warning_text(
            number,
            "AddKeysToAgent \""@,
            value,
            "\" 应为 yes/no/confirm/ask 或秒数"@,
            Seq::empty(),
            ""@,
        ),
    ) + warning_if(
        keyword_lower == "stricthostkeychecking"@ && !host_key_checking_choice(value_lower),
        warning_text(
            number,
            "StrictHostKeyChecking \""@,
            value,
            "\" 应为 yes/no/ask/accept-new/off"@,
            Seq::empty(),
            ""@,
        ),
    ) + warning_if(
        keyword_lower == "requesttty"@ && !request_tty_choice(value_lower),
        warning_text(
            number,
            "RequestTTY \""@,
            value,
            "\" 应为 yes/no/force/auto"@,
            Seq::empty(),
            ""@,
        ),
    ) + warning_if(
        keyword_lower == "controlmaster"@ && !control_master_choice(value_lower),
        warning_text(
            number,
            "ControlMaster \""@,
            value,
            "\" 应为 yes/no/ask/auto/autoask"@,
            Seq::empty(),
            ""@,
        ),
    )
}

/// What is said of a line with the given keyword and value: an unknown
/// keyword is named; a missing value is named and ends the matter, except
/// for `Match`; else the value is checked.
#[verifier::opaque]
pub open spec fn keyword_warnings(
    number: nat,
    keyword: Seq<char>,
    keyword_lower: Seq<char>,
    value: Seq<char>,
    value_lower: Seq<char>,
) -> Seq<Seq<char>> {
    let unknown = warning_if(
        !known_keyword(keyword_lower),
        warning_text(number, "未知指令 \""@, keyword, "\""@, Seq::empty(), ""@),
    );
    if value.len() == 0 && keyword_lower != "match"@ {
        unknown.push(warning_text(number, "\""@, keyword, "\" 缺少值"@, Seq::empty(), ""@))
    } else {
        unknown + value_warnings(number, keyword, keyword_lower, value, value_lower)
    }
}

/// What is said of line `number` of a text: nothing of an empty line or a
/// comment.
pub open spec fn line_warnings(number: nat, line: Seq<char>) -> Seq<Seq<char>> {
    let content = trimmed(line);
    if content.len() == 0 || content[0] == '#' {
        Seq::empty()
    } else {
        keyword_warnings(
            number,
            keyword_of(content),
            lowercase(keyword_of(content)),
            value_after_keyword(content),
            lowercase(value_after_keyword(content)),
        )
    }
}

/// What is said of the first `n` lines, in their order.
pub open spec fn warnings_upto(lines: Seq<Seq<char>>, n: nat) -> Seq<Seq<char>>
    decreases n,
{
    if n == 0 {
        Seq::empty()
    } else {
        warnings_upto(lines, (n - 1) as nat) + line_warnings(n, lines[n - 1])
    }
}

/// Checks the value of a line.
pub fn check_value(
    number: usize,
    keyword: &Vec<char>,
    keyword_lower: &Vec<char>,
    value: &Vec<char>,
    value_lower: &Vec<char>,
) -> (r: Vec<String>)
    ensures
        texts(r@) == value_warnings(
            number as nat,
            keyword@,
            keyword_lower@,
            value@,
            value_lower@,
        ),
{
    reveal(value_warnings);
    let none: Vec<char> = Vec::new();
    let mut out: Vec<String> = Vec::new();
    assert(texts(out@) =~= Seq::empty());
    if chars_eq(keyword_lower, "port") {
        match parse_number(value, 65535) {
            Some(port) => {
                push_if(&mut out, port == 0, warning(number, "Port 不能为 0", &none, "", &none, ""));
            },
            None => {
                push_if(
                    &mut out,
                    true,
                    warning(number, "Port 值 \"", value, "\" 不是有效端口号 (1-65535)", &none, ""),
                );
            },
        }
    }
    assert(texts(out@) =~= port_warnings(number as nat, keyword_lower@, value@));
    let no_number = parse_number(value, u32::MAX).is_none();
    push_if(
        &mut out,
        is_count_keyword(keyword_lower) && no_number,
        warning(number, "", keyword, " 值 \"", value, "\" 应为正整数"),
    );
    push_if(
        &mut out,
        is_bool_keyword(keyword_lower) && !is_yes_or_no(value_lower),
        warning(number, "", keyword, " 值 \"", value, "\" 应为 yes 或 no"),
    );
    push_if(
        &mut out,
        chars_eq(keyword_lower, "loglevel") && !is_log_level(value_lower),
        warning(number, "LogLevel \"", value, "\" 不是有效级别", &none, ""),
    );
    push_if(
        &mut out,
        chars_eq(keyword_lower, "addkeystoagent") && !is_add_keys_choice(value_lower) && no_number,
        warning(number, "AddKeysToAgent \"", value, "\" 应为 yes/no/confirm/ask 或秒数", &none, ""),
    );
    push_if(
        &mut out,
        chars_eq(keyword_lower, "stricthostkeychecking") && !is_host_key_checking_choice(
            value_lower,
        ),
        warning(
            number,
            "StrictHostKeyChecking \"",
            value,
            "\" 应为 yes/no/ask/accept-new/off",
            &none,
            "",
        ),
    );
    push_if(
        &mut out,
        chars_eq(keyword_lower, "requesttty") && !is_request_tty_choice(value_lower),
        warning(number, "RequestTTY \"", value, "\" 应为 yes/no/force/auto", &none, ""),
    );
    push_if(
        &mut out,
        chars_eq(keyword_lower, "controlmaster") && !is_control_master_choice(value_lower),
        warning(number, "ControlMaster \"", value, "\" 应为 yes/no/ask/auto/autoask", &none, ""),
    );
    out
}

/// Checks keyword and value of a line.
pub fn check_keyword(
    number: usize,
    keyword: &Vec<char>,
    keyword_lower: &Vec<char>,
    value: &Vec<char>,
    value_lower: &Vec<char>,
) -> (r: Vec<String>)
    ensures
        texts(r@) == keyword_warnings(
            number as nat,
            keyword@,
            keyword_lower@,
            value@,
            value_lower@,
        ),
{
    reveal(keyword_warnings);
    let none: Vec<char> = Vec::new();
    let mut out: Vec<String> = Vec::new();
    assert(texts(out@) =~= Seq::empty());
    push_if(
        &mut out,
        !is_known_keyword(keyword_lower),
        warning(number, "未知指令 \"", keyword, "\"", &none, ""),
    );
    let ghost unknown = texts(out@);
    if value.len() == 0 && !chars_eq(keyword_lower, "match") {
        push_if(&mut out, true, warning(number, "\"", keyword, "\" 缺少值", &none, ""));
        assert(texts(out@) =~= unknown.push(
            warning_text(number as nat, "\""@, keyword@, "\" 缺少值"@, Seq::empty(), ""@),
        ));
    } else {
        let rest = check_value(number, keyword, keyword_lower, value, value_lower);
        append_texts(&mut out, &rest);
    }
    out
}

/// Adds copies of `more` to `list`.
pub fn append_texts(list: &mut Vec<String>, more: &Vec<String>)
    ensures
        texts(final(list)@) == texts(old(list)@) + texts(more@),
{
    let mut i: usize = 0;
    assert(texts(more@).subrange(0, 0) =~= Seq::empty());
    assert(texts(list@) =~= texts(old(list)@) + texts(more@).subrange(0, 0));
    while i < more.len()
        invariant
            i <= more@.len(),
            texts(list@) == texts(old(list)@) + texts(more@).subrange(0, i as int),
        decreases more@.len() - i,
    {
        let ghost before = texts(list@);
        let copy = more[i].clone();
        list.push(copy);
        assert(texts(list@) =~= before.push(more@[i as int]@));
        assert(texts(more@).subrange(0, i + 1) =~= texts(more@).subrange(0, i as int).push(
            more@[i as int]@,
        ));
        i += 1;
    }
    assert(texts(more@).subrange(0, more@.len() as int) == texts(more@));
}

/// Checks line `number` of a text.
pub fn check_line(number: usize, line: &Vec<char>) -> (r: Vec<String>)
    ensures
        texts(r@) == line_warnings(number as nat, line@),
{
    let content = trim_chars(line);
    if content.len() == 0 || content[0] == '#' {
        let out: Vec<String> = Vec::new();
        assert(texts(out@) =~= Seq::empty());
        return out;
    }
    let cut = find_separator(&content);
    let keyword = slice_of(&content, 0, cut);
    let value = if cut < content.len() {
        trim_chars(&slice_of(&content, cut + 1, content.len()))
    } else {
        Vec::new()
    };
    let keyword_lower = lower_chars(&keyword);
    let value_lower = lower_chars(&value);
    check_keyword(number, &keyword, &keyword_lower, &value, &value_lower)
}

} // verus!
