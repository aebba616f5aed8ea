use ssh_m::commands::ssh::config_file_entry;
use ssh_m::commands::ssh::count_hosts;
use ssh_m::settings::default_ssh_config_path;
use ssh_m::settings::default_terminal;
use ssh_m::settings::settings_from;
use ssh_m::settings::AppSettings;
use ssh_m::ssh::config::build_ssh_host;
use ssh_m::ssh::config::determine_group;
use ssh_m::ssh::config::extract_value;
use ssh_m::ssh::config::parse_host_entries;
use ssh_m::ssh::config::parse_port;
use ssh_m::ssh::config::parse_ssh_config;
use ssh_m::ssh::types::SshHostGroup;

const CONFIG: &str = "\
# my hosts
Include conf.d/*

Host *
    ServerAliveInterval 60

Host web
    HostName example.com
    User deploy
    Port 2222
    IdentityFile ~/.ssh/id_web

host gh
    hostname=\"github.com\"
    user git
    IdentityAgent \"~/Library/Group Containers/1password/t/agent.sock\"

Host inner
    HostName 10.0.0.7
    ProxyJump web
    Port notaport

Host nas.local

Host dev-?
    HostName dev.example.com\r
Host last
    HostName 192.168.1.5";

#[test]
fn groups_of_hosts() {
    let none: Option<String> = None;
    let jump = Some("bastion".to_string());
    assert_eq!(determine_group("gh", "GitHub.com", &none), SshHostGroup::Github);
    assert_eq!(determine_group("my-github", "example.com", &jump), SshHostGroup::Github);
    assert_eq!(determine_group("a", "example.com", &jump), SshHostGroup::Proxy);
    assert_eq!(determine_group("a", "10.1.2.3", &jump), SshHostGroup::Proxy);
    assert_eq!(determine_group("a", "NAS.LOCAL", &none), SshHostGroup::Local);
    assert_eq!(determine_group("a", "192.168.0.1", &none), SshHostGroup::Local);
    assert_eq!(determine_group("a", "10.1.2.3", &none), SshHostGroup::Local);
    assert_eq!(determine_group("a", "localhost", &none), SshHostGroup::Local);
    assert_eq!(determine_group("a", "127.0.0.1", &none), SshHostGroup::Local);
    assert_eq!(determine_group("a", "127.0.0.2", &none), SshHostGroup::Direct);
    assert_eq!(determine_group("localhost", "example.com", &none), SshHostGroup::Direct);
    assert_eq!(determine_group("a", "local", &none), SshHostGroup::Direct);
    assert_eq!(determine_group("a", "", &none), SshHostGroup::Direct);
    assert_eq!(determine_group("a", "110.1.1.1", &none), SshHostGroup::Direct);
}

#[test]
fn values_of_lines() {
    assert_eq!(extract_value("HostName example.com"), "example.com");
    assert_eq!(extract_value("HostName=example.com"), "example.com");
    assert_eq!(extract_value("HostName = example.com  "), "example.com");
    assert_eq!(extract_value("HostName\texample.com"), "example.com");
    assert_eq!(extract_value("IdentityFile \"~/.ssh/my key\""), "~/.ssh/my key");
    assert_eq!(extract_value("Key \"\"quoted\"\""), "quoted");
    assert_eq!(extract_value("Key a=b"), "b");
    assert_eq!(extract_value("Key"), "");
    assert_eq!(extract_value("Key "), "");
    assert_eq!(extract_value(""), "");
    assert_eq!(extract_value("User    git   "), "git");
}

#[test]
fn ports_are_decimal_numbers() {
    let cases = [
        "22", "0", "65535", "65536", "+80", "080", "", "+", "-1", "8 0", "22a", "99999999999999",
        "٣", "+-1", "++1", "00000000000000000022",
    ];
    for text in cases {
        let chars: Vec<char> = text.chars().collect();
        assert_eq!(parse_port(&chars), text.parse::<u16>().ok(), "{:?}", text);
    }
}

#[test]
fn built_hosts_keep_their_settings() {
    let host = build_ssh_host(
        "web",
        "example.com",
        2222,
        "deploy",
        Some("/k".to_string()),
        None,
        true,
    );
    assert_eq!(host.name, "web");
    assert_eq!(host.hostname, "example.com");
    assert_eq!(host.port, 2222);
    assert_eq!(host.user, "deploy");
    assert_eq!(host.identity_file.as_deref(), Some("/k"));
    assert_eq!(host.proxy_jump, None);
    assert!(host.is_1password_agent);
    assert_eq!(host.group, SshHostGroup::Direct);
}

#[test]
fn hosts_of_a_configuration() {
    let hosts = parse_host_entries(CONFIG, false, "/home/me");
    let names: Vec<&str> = hosts.iter().map(|h| h.name.as_str()).collect();
    assert_eq!(names, ["web", "gh", "inner", "nas.local", "last"]);

    let web = &hosts[0];
    assert_eq!(web.hostname, "example.com");
    assert_eq!(web.user, "deploy");
    assert_eq!(web.port, 2222);
    assert_eq!(web.identity_file.as_deref(), Some("/home/me/.ssh/id_web"));
    assert_eq!(web.proxy_jump, None);
    assert!(!web.is_1password_agent);
    assert_eq!(web.group, SshHostGroup::Direct);

    let gh = &hosts[1];
    assert_eq!(gh.hostname, "github.com");
    assert_eq!(gh.user, "git");
    assert_eq!(gh.port, 22);
    assert!(gh.is_1password_agent);
    assert_eq!(gh.group, SshHostGroup::Github);

    let inner = &hosts[2];
    assert_eq!(inner.hostname, "10.0.0.7");
    assert_eq!(inner.proxy_jump.as_deref(), Some("web"));
    assert_eq!(inner.port, 22);
    assert_eq!(inner.user, "");
    assert_eq!(inner.group, SshHostGroup::Proxy);

    let nas = &hosts[3];
    assert_eq!(nas.hostname, "nas.local");
    assert_eq!(nas.group, SshHostGroup::Local);

    let last = &hosts[4];
    assert_eq!(last.hostname, "192.168.1.5");
    assert_eq!(last.group, SshHostGroup::Local);
}

#[test]
fn a_global_agent_serves_every_host() {
    let hosts = parse_host_entries(CONFIG, true, "");
    assert_eq!(hosts.len(), 5);
    assert!(hosts.iter().all(|h| h.is_1password_agent));
    assert_eq!(hosts[0].identity_file.as_deref(), Some("/.ssh/id_web"));
}

#[test]
fn texts_without_hosts() {
    assert!(parse_host_entries("", false, "/h").is_empty());
    assert!(parse_host_entries("\n\n# nothing\n", false, "/h").is_empty());
    assert!(parse_host_entries("User root\nPort 1\n", false, "/h").is_empty());
    assert!(parse_host_entries("Host *\n  User root\n", false, "/h").is_empty());
    assert!(parse_host_entries("Host\n", false, "/h").is_empty());
    let hosts = parse_host_entries("HOST   a  \n", false, "/h");
    assert_eq!(hosts.len(), 1);
    assert_eq!(hosts[0].name, "a");
    assert_eq!(hosts[0].hostname, "a");
}

#[test]
fn reading_with_the_structural_check() {
    let hosts = parse_ssh_config(CONFIG, None, "/home/me").unwrap();
    assert_eq!(hosts.len(), 5);
    assert!(hosts.iter().all(|h| h.is_1password_agent));
    let plain = parse_ssh_config("Host a\n  HostName b\n", None, "/home/me").unwrap();
    assert_eq!(plain.len(), 1);
    assert!(!plain[0].is_1password_agent);
    let failed = parse_ssh_config(CONFIG, Some("bad line".to_string()), "/home/me");
    assert_eq!(failed.unwrap_err(), "Failed to parse SSH config: bad line");
}

#[test]
fn host_entries_are_counted() {
    assert_eq!(count_hosts(CONFIG), 7);
    assert_eq!(count_hosts(""), 0);
    assert_eq!(count_hosts("Host a"), 1);
    assert_eq!(count_hosts("  HOST a\r\nhostname b\nHost\nhost\tc\n"), 1);
    assert_eq!(count_hosts("Host a\nHost b\n\nHost c\n"), 3);
    let entry = config_file_entry("config".to_string(), "/h/.ssh/config".to_string(), true, CONFIG);
    assert_eq!(entry.name, "config");
    assert_eq!(entry.path, "/h/.ssh/config");
    assert!(entry.is_main);
    assert_eq!(entry.host_count, 7);
    assert_eq!(entry.clone().host_count, 7);
}

#[test]
fn settings_and_their_defaults() {
    assert_eq!(default_terminal(), "terminal");
    assert_eq!(default_ssh_config_path(), "~/.ssh/config");
    let defaults = AppSettings::default();
    assert_eq!(defaults.default_terminal, "terminal");
    assert_eq!(defaults.ssh_config_path, "~/.ssh/config");
    let chosen = settings_from(Some("warp".to_string()), None);
    assert_eq!(chosen.default_terminal, "warp");
    assert_eq!(chosen.ssh_config_path, "~/.ssh/config");
    let chosen = settings_from(None, Some("/etc/ssh/config".to_string()));
    assert_eq!(chosen.default_terminal, "terminal");
    assert_eq!(chosen.ssh_config_path, "/etc/ssh/config");
    assert_eq!(chosen.clone().ssh_config_path, "/etc/ssh/config");
}
