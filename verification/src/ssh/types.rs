//! A host entry and the group it is listed under.

use crate::text::opt_text;
use vstd::prelude::*;

verus! {

/// How a host is reached, for grouping in a list.
#[derive(Clone, Copy, Debug, PartialEq, Eq, Structural)]
pub enum SshHostGroup {
    Direct,
    Proxy,
    Local,
    Github,
}

/// A host entry of an SSH configuration.
#[derive(Clone, Debug)]
pub struct SshHost {
    pub name: String,
    pub hostname: String,
    pub port: u16,
    pub user: String,
    pub identity_file: Option<String>,
    pub proxy_jump: Option<String>,
    pub is_1password_agent: bool,
    pub group: SshHostGroup,
}

/// What a `SshHost` holds, as mathematical values.
pub struct SshHostView {
    pub name: Seq<char>,
    pub hostname: Seq<char>,
    pub port: u16,
    pub user: Seq<char>,
    pub identity_file: Option<Seq<char>>,
    pub proxy_jump: Option<Seq<char>>,
    pub is_1password_agent: bool,
    pub group: SshHostGroup,
}

impl View for SshHost {
    type V = SshHostView;

    open spec fn view(&self) -> SshHostView {
        SshHostView {
            name: self.name@,
            hostname: self.hostname@,
            port: self.port,
            user: self.user@,
            identity_file: opt_text(self.identity_file),
            proxy_jump: opt_text(self.proxy_jump),
            is_1password_agent: self.is_1password_agent,
            group: self.group,
        }
    }
}

/// The views of a list of hosts.
pub open spec fn host_views(hosts: Seq<SshHost>) -> Seq<SshHostView> {
    hosts.map_values(|h: SshHost| h@)
}

} // verus!
