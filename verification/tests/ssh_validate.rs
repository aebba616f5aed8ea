use ssh_m::commands::ssh::apple_script;
use ssh_m::commands::ssh::connect_script;
use ssh_m::commands::ssh::expand_include_pattern;
use ssh_m::commands::ssh::include_patterns;
use ssh_m::commands::ssh::line_check;
use ssh_m::commands::ssh::linux_terminals;
use ssh_m::commands::ssh::opens_by_script_file;
use ssh_m::commands::ssh::terminal_or_default;
use ssh_m::commands::ssh::validate_ssh_config;
use ssh_m::ssh::config::build_ssh_host;
use ssh_m::ssh::types::SshHost;
use ssh_m::ssh::validate::check_keyword;
use ssh_m::ssh::validate::check_line;
use ssh_m::ssh::validate::is_known_keyword;
use ssh_m::tray::build_tray_menu;
use ssh_m::tray::tray_action;
use ssh_m::tray::TrayAction;
use ssh_m::tray::TrayEntry;

fn chars(s: &str) -> Vec<char> {
    s.chars().collect()
}

fn warnings(content: &str) -> Vec<String> {
    validate_ssh_config(content, None).unwrap()
}

#[test]
fn a_clean_configuration_has_no_warnings() {
    let content = "\
# comment
Host web
    HostName example.com
    Port 2222
    User deploy
    ForwardAgent yes
    LogLevel VERBOSE
    ServerAliveInterval 60
    StrictHostKeyChecking accept-new
    AddKeysToAgent 300
    RequestTTY auto
    ControlMaster autoask
Match host *.example.com
";
    assert!(warnings(content).is_empty());
    assert!(warnings("").is_empty());
    assert!(line_check("\n\n   \n#x").is_empty());
}

#[test]
fn unknown_keywords_and_missing_values() {
    assert_eq!(warnings("Hots web"), ["第 1 行: 未知指令 \"Hots\""]);
    assert_eq!(warnings("\nHostName"), ["第 2 行: \"HostName\" 缺少值"]);
    assert_eq!(
        warnings("Foo"),
        ["第 1 行: 未知指令 \"Foo\"", "第 1 行: \"Foo\" 缺少值"]
    );
    assert_eq!(warnings("HostName="), ["第 1 行: \"HostName\" 缺少值"]);
    assert!(warnings("Match").is_empty());
    assert!(warnings("HostName=example.com").is_empty());
    assert!(warnings("HostName = example.com").is_empty());
}

#[test]
fn ports_are_checked() {
    assert_eq!(warnings("Port 0"), ["第 1 行: Port 不能为 0"]);
    assert_eq!(
        warnings("a b\n\nport 70000"),
        ["第 1 行: 未知指令 \"a\"", "第 3 行: Port 值 \"70000\" 不是有效端口号 (1-65535)"]
    );
    assert_eq!(warnings("Port ssh"), ["第 1 行: Port 值 \"ssh\" 不是有效端口号 (1-65535)"]);
    assert!(warnings("Port 65535").is_empty());
    assert!(warnings("Port +22").is_empty());
}

#[test]
fn values_with_fixed_choices() {
    assert_eq!(
        warnings("ConnectTimeout soon"),
        ["第 1 行: ConnectTimeout 值 \"soon\" 应为正整数"]
    );
    assert_eq!(
        warnings("serveralivecountmax -3"),
        ["第 1 行: serveralivecountmax 值 \"-3\" 应为正整数"]
    );
    assert!(warnings("ConnectionAttempts 4294967295").is_empty());
    assert_eq!(
        warnings("ConnectionAttempts 4294967296"),
        ["第 1 行: ConnectionAttempts 值 \"4294967296\" 应为正整数"]
    );
    assert_eq!(
        warnings("ForwardAgent maybe"),
        ["第 1 行: ForwardAgent 值 \"maybe\" 应为 yes 或 no"]
    );
    assert!(warnings("Compression NO").is_empty());
    assert_eq!(warnings("LogLevel loud"), ["第 1 行: LogLevel \"loud\" 不是有效级别"]);
    assert!(warnings("LogLevel Debug3").is_empty());
    assert_eq!(
        warnings("AddKeysToAgent later"),
        ["第 1 行: AddKeysToAgent \"later\" 应为 yes/no/confirm/ask 或秒数"]
    );
    assert!(warnings("AddKeysToAgent Confirm").is_empty());
    assert_eq!(
        warnings("StrictHostKeyChecking never"),
        ["第 1 行: StrictHostKeyChecking \"never\" 应为 yes/no/ask/accept-new/off"]
    );
    assert_eq!(
        warnings("RequestTTY always"),
        ["第 1 行: RequestTTY \"always\" 应为 yes/no/force/auto"]
    );
    assert_eq!(
        warnings("ControlMaster on"),
        ["第 1 行: ControlMaster \"on\" 应为 yes/no/ask/auto/autoask"]
    );
}

#[test]
fn line_numbers_count_every_line() {
    let content = "# one\n\nHost a\n  Bogus 1\n\n  Port x\r\n  Other\n";
    assert_eq!(
        warnings(content),
        [
            "第 4 行: 未知指令 \"Bogus\"",
            "第 6 行: Port 值 \"x\" 不是有效端口号 (1-65535)",
            "第 7 行: 未知指令 \"Other\"",
            "第 7 行: \"Other\" 缺少值",
        ]
    );
    assert_eq!(check_line(12, &chars("  Port 0 ")), ["第 12 行: Port 不能为 0"]);
}

#[test]
fn checks_go_by_the_lowercase_forms_given() {
    let found = check_keyword(3, &chars("PORT"), &chars("port"), &chars("0"), &chars("0"));
    assert_eq!(found, ["第 3 行: Port 不能为 0"]);
    let found = check_keyword(3, &chars("PORT"), &chars("PORT"), &chars("0"), &chars("0"));
    assert_eq!(found, ["第 3 行: 未知指令 \"PORT\""]);
    let found = check_keyword(1, &chars("LogLevel"), &chars("loglevel"), &chars("INFO"), &chars("INFO"));
    assert_eq!(found, ["第 1 行: LogLevel \"INFO\" 不是有效级别"]);
    assert!(is_known_keyword(&chars("proxyjump")));
    assert!(is_known_keyword(&chars("ignorehostkeys")));
    assert!(!is_known_keyword(&chars("ProxyJump")));
    assert!(!is_known_keyword(&chars("")));
}

#[test]
fn a_structural_complaint_fails_the_validation() {
    let r = validate_ssh_config("Hots web", Some("missing argument".to_string()));
    assert_eq!(r.unwrap_err(), "SSH 配置结构错误: missing argument");
    let r = validate_ssh_config("Host web", Some(String::new()));
    assert_eq!(r.unwrap_err(), "SSH 配置结构错误: ");
}

#[test]
fn include_lines_name_patterns() {
    let content = "Include conf.d/*\n  include   ~/.ssh/extra  \nHost a\nInclude\nIncludeFoo bar\n";
    assert_eq!(include_patterns(content), ["conf.d/*", "~/.ssh/extra", "bar"]);
    assert!(include_patterns("Host a\n").is_empty());
    assert_eq!(
        expand_include_pattern("~/.ssh/conf.d/*", "/home/me").as_deref(),
        Some("/home/me/.ssh/conf.d/*")
    );
    assert_eq!(expand_include_pattern("/etc/ssh/~x", "/h").as_deref(), Some("/etc/ssh//hx"));
    assert_eq!(expand_include_pattern("conf.d/*", "/home/me"), None);
    assert_eq!(expand_include_pattern("", "/home/me"), None);
}

#[test]
fn terminals_and_scripts() {
    assert_eq!(terminal_or_default(None), "terminal");
    assert_eq!(terminal_or_default(Some("iterm".to_string())), "iterm");
    assert!(opens_by_script_file("warp"));
    assert!(!opens_by_script_file("Warp"));
    assert_eq!(connect_script("web"), "#!/bin/bash\nexec ssh web\n");
    let iterm = apple_script("iterm", "web");
    assert!(iterm.contains("tell application \"iTerm\""));
    assert!(iterm.contains("create window with default profile command \"ssh web\""));
    assert!(iterm.starts_with("\n                    tell"));
    assert!(iterm.ends_with("end tell\n                    "));
    let other = apple_script("anything", "web");
    assert!(other.contains("tell application \"Terminal\""));
    assert!(other.contains("do script \"ssh web\""));
    assert_eq!(linux_terminals(), ["gnome-terminal", "konsole", "xterm", "x-terminal-emulator"]);
}

fn host(name: &str, hostname: &str, user: &str, jump: Option<&str>) -> SshHost {
    build_ssh_host(name, hostname, 22, user, None, jump.map(|j| j.to_string()), false)
}

fn text(entry: &TrayEntry) -> (&str, &str) {
    match entry {
        TrayEntry::Text(item) => (item.id.as_str(), item.label.as_str()),
        _ => panic!("no text entry"),
    }
}

#[test]
fn tray_menu_of_a_few_hosts() {
    let hosts = vec![
        host("web", "example.com", "deploy", None),
        host("gh", "github.com", "git", None),
        host("inner", "10.0.0.7", "", Some("web")),
        host("db", "db.example.com", "root", None),
    ];
    let menu = build_tray_menu(&hosts);
    assert_eq!(menu.len(), 15);
    assert_eq!(text(&menu[0]), ("title", "SSH-M (4 台主机)"));
    assert!(matches!(menu[1], TrayEntry::Separator));
    match &menu[2] {
        TrayEntry::Submenu { label, items } => {
            assert_eq!(label, "直连 (2)");
            assert_eq!(items.len(), 2);
            assert_eq!(items[0].id, "ssh:web");
            assert_eq!(items[0].label, "web  →  deploy@example.com");
            assert_eq!(items[1].id, "ssh:db");
            assert_eq!(items[1].label, "db  →  db.example.com");
        }
        _ => panic!("no submenu"),
    }
    match &menu[3] {
        TrayEntry::Submenu { label, items } => {
            assert_eq!(label, "代理跳板 (1)");
            assert_eq!(items[0].label, "inner  →  10.0.0.7");
        }
        _ => panic!("no submenu"),
    }
    match &menu[4] {
        TrayEntry::Submenu { label, items } => {
            assert_eq!(label, "GitHub (1)");
            assert_eq!(items[0].label, "gh  →  git@github.com");
        }
        _ => panic!("no submenu"),
    }
    assert!(matches!(menu[5], TrayEntry::Separator));
    assert_eq!(text(&menu[6]), ("ssh:web", "web (deploy@example.com)"));
    assert_eq!(text(&menu[7]), ("ssh:gh", "gh (git@github.com)"));
    assert_eq!(text(&menu[8]), ("ssh:inner", "inner"));
    assert_eq!(text(&menu[9]), ("ssh:db", "db (root@db.example.com)"));
    assert!(matches!(menu[10], TrayEntry::Separator));
    assert_eq!(text(&menu[11]), ("refresh", "↻ 刷新主机列表"));
    assert_eq!(text(&menu[12]), ("show", "显示窗口"));
    assert!(matches!(menu[13], TrayEntry::Separator));
    assert_eq!(text(&menu[14]), ("quit", "退出 SSH-M"));
}

#[test]
fn tray_menu_of_many_or_no_hosts() {
    let many: Vec<SshHost> =
        (0..9).map(|i| host(&format!("h{}", i), "nas.local", "", None)).collect();
    let menu = build_tray_menu(&many);
    assert_eq!(menu.len(), 8);
    assert_eq!(text(&menu[0]), ("title", "SSH-M (9 台主机)"));
    match &menu[2] {
        TrayEntry::Submenu { label, items } => {
            assert_eq!(label, "本地/隧道 (9)");
            assert_eq!(items.len(), 9);
        }
        _ => panic!("no submenu"),
    }
    assert!(matches!(menu[3], TrayEntry::Separator));
    assert_eq!(text(&menu[4]), ("refresh", "↻ 刷新主机列表"));
    let eight: Vec<SshHost> =
        (0..8).map(|i| host(&format!("h{}", i), "nas.local", "", None)).collect();
    assert_eq!(build_tray_menu(&eight).len(), 17);
    let none = build_tray_menu(&Vec::new());
    assert_eq!(none.len(), 8);
    assert_eq!(text(&none[0]), ("title", "SSH-M (0 台主机)"));
}

#[test]
fn what_tray_entries_do() {
    assert!(matches!(tray_action("quit"), TrayAction::Quit));
    assert!(matches!(tray_action("show"), TrayAction::Show));
    assert!(matches!(tray_action("refresh"), TrayAction::Refresh));
    assert!(matches!(tray_action("title"), TrayAction::Nothing));
    assert!(matches!(tray_action(""), TrayAction::Nothing));
    match tray_action("ssh:web") {
        TrayAction::Connect(host) => assert_eq!(host, "web"),
        _ => panic!("no connection"),
    }
    match tray_action("ssh:") {
        TrayAction::Connect(host) => assert_eq!(host, ""),
        _ => panic!("no connection"),
    }
}
