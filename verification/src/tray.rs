//! The menu of the tray icon, as a plain description, and what its entries do.

use crate::ssh::types::SshHost;
use crate::ssh::types::SshHostGroup;
use crate::ssh::types::SshHostView;
use crate::ssh::types::host_views;
use crate::text::chars_of;
use crate::text::decimal_digits;
use crate::text::push_decimal;
use crate::text::slice_of;
use crate::text::starts_with;
use crate::text::str_eq;
use crate::text::string_of;
use vstd::prelude::*;

verus! {

/// The most hosts that are also listed outside their groups.
pub const FLAT_LIST_LIMIT: usize = 8;

/// An entry that can be chosen.
#[derive(Debug)]
pub struct TrayItem {
    pub id: String,
    pub label: String,
}

/// What a `TrayItem` holds, as mathematical values.
pub struct TrayItemView {
    pub id: Seq<char>,
    pub label: Seq<char>,
}

impl View for TrayItem {
    type V = TrayItemView;

    open spec fn view(&self) -> TrayItemView {
        TrayItemView { id: self.id@, label: self.label@ }
    }
}

/// The views of a list of items.
pub open spec fn item_views(items: Seq<TrayItem>) -> Seq<TrayItemView> {
    items.map_values(|i: TrayItem| i@)
}

/// A line of the menu.
#[derive(Debug)]
pub enum TrayEntry {
    Text(TrayItem),
    Separator,
    Submenu { label: String, items: Vec<TrayItem> },
}

/// What a `TrayEntry` holds, as mathematical values.
pub enum TrayEntryView {
    Text(TrayItemView),
    Separator,
    Submenu { label: Seq<char>, items: Seq<TrayItemView> },
}

impl View for TrayEntry {
    type V = TrayEntryView;

    open spec fn view(&self) -> TrayEntryView {
        match self {
            TrayEntry::Text(item) => TrayEntryView::Text(item@),
            TrayEntry::Separator => TrayEntryView::Separator,
            TrayEntry::Submenu { label, items } => TrayEntryView::Submenu {
                label: label@,
                items: item_views(items@),
            },
        }
    }
}

/// The views of a list of entries.
pub open spec fn entry_views(entries: Seq<TrayEntry>) -> Seq<TrayEntryView> {
    entries.map_values(|e: TrayEntry| e@)
}

/// The id of the entry that connects to a host.
pub open spec fn connect_id(host: SshHostView) -> Seq<char> {
    "ssh:"@ + host.name
}

/// How a host is shown in its group: the user is named unless it is root
/// or not set.
pub open spec fn grouped_label(host: SshHostView) -> Seq<char> {
    if host.user.len() == 0 || host.user == "root"@ {
        host.name + "  →  "@ + host.hostname
    } else {
        host.name + "  →  "@ + host.user + "@"@ + host.hostname
    }
}

/// How a host is shown outside its group.
pub open spec fn flat_label(host: SshHostView) -> Seq<char> {
    if host.user.len() == 0 {
        host.name
    } else {
        host.name + " ("@ + host.user + "@"@ + host.hostname + ")"@
    }
}

/// The entries of the first `n` hosts that belong to `group`, in their order.
pub open spec fn group_items(hosts: Seq<SshHostView>, group: SshHostGroup, n: nat) -> Seq<
    TrayItemView,
>
    decreases n,
{
    if n == 0 {
        Seq::empty()
    } else {
        let before = group_items(hosts, group, (n - 1) as nat);
        if hosts[n - 1].group == group {
            before.push(
                TrayItemView { id: connect_id(hosts[n - 1]), label: grouped_label(hosts[n - 1]) },
            )
        } else {
            before
        }
    }
}

/// The submenu of a group: none for a group without hosts.
pub open spec fn group_menu(hosts: Seq<SshHostView>, group: SshHostGroup, title: Seq<char>) -> Seq<
    TrayEntryView,
> {
    let items = group_items(hosts, group, hosts.len());
    if items.len() == 0 {
        Seq::empty()
    } else {
        seq![
            TrayEntryView::Submenu {
                label: title + " ("@ + decimal_digits(items.len()) + ")"@,
                items,
            },
        ]
    }
}

/// The entries of the first `n` hosts outside their groups.
pub open spec fn flat_items(hosts: Seq<SshHostView>, n: nat) -> Seq<TrayEntryView>
    decreases n,
{
    if n == 0 {
        Seq::empty()
    } else {
        flat_items(hosts, (n - 1) as nat).push(
            TrayEntryView::Text(
                TrayItemView { id: connect_id(hosts[n - 1]), label: flat_label(hosts[n - 1]) },
            ),
        )
    }
}

/// The flat list: given only where the hosts are few.
pub open spec fn flat_list(hosts: Seq<SshHostView>) -> Seq<TrayEntryView> {
    if hosts.len() <= FLAT_LIST_LIMIT {
        seq![TrayEntryView::Separator] + flat_items(hosts, hosts.len())
    } else {
        Seq::empty()
    }
}

/// The menu for `hosts`: a title with their number, a submenu for each
/// group that has hosts, the flat list, and the fixed entries.
pub open spec fn tray_menu_view(hosts: Seq<SshHostView>) -> Seq<TrayEntryView> {
    seq![
        TrayEntryView::Text(
            TrayItemView {
                id: "title"@,
                label: "SSH-M ("@ + decimal_digits(hosts.len()) + " 台主机)"@,
            },
        ),
        TrayEntryView::Separator,
    ] + group_menu(hosts, SshHostGroup::Direct, "直连"@) + group_menu(
        hosts,
        SshHostGroup::Proxy,
        "代理跳板"@,
    ) + group_menu(hosts, SshHostGroup::Local, "本地/隧道"@) + group_menu(
        hosts,
        SshHostGroup::Github,
        "GitHub"@,
    ) + flat_list(hosts) + seq![
        TrayEntryView::Separator,
        TrayEntryView::Text(TrayItemView { id: "refresh"@, label: "↻ 刷新主机列表"@ }),
        TrayEntryView::Text(TrayItemView { id: "show"@, label: "显示窗口"@ }),
        TrayEntryView::Separator,
        TrayEntryView::Text(TrayItemView { id: "quit"@, label: "退出 SSH-M"@ }),
    ]
}

/// The id of the entry that connects to `host`.
fn connect_entry_id(host: &SshHost) -> (r: String)
    ensures
        r@ == connect_id(host@),
{
    let mut id = String::from_str("ssh:");
    id.append(host.name.as_str());
    id
}

/// The entry of `host` in its group.
pub fn grouped_item(host: &SshHost) -> (r: TrayItem)
    ensures
        r@ == (TrayItemView { id: connect_id(host@), label: grouped_label(host@) }),
{
    let mut label = host.name.clone();
    label.append("  →  ");
    let anonymous = chars_of(host.user.as_str()).len() == 0 || str_eq(host.user.as_str(), "root");
    if !anonymous {
        label.append(host.user.as_str());
        label.append("@");
    }
    label.append(host.hostname.as_str());
    TrayItem { id: connect_entry_id(host), label }
}

/// The entry of `host` outside its group.
pub fn flat_item(host: &SshHost) -> (r: TrayItem)
    ensures
        r@ == (TrayItemView { id: connect_id(host@), label: flat_label(host@) }),
{
    let mut label = host.name.clone();
    if chars_of(host.user.as_str()).len() > 0 {
        label.append(" (");
        label.append(host.user.as_str());
        label.append("@");
        label.append(host.hostname.as_str());
        label.append(")");
    }
    TrayItem { id: connect_entry_id(host), label }
}

/// Adds the submenu of `group` to `menu`, where the group has hosts.
pub fn push_group_menu(
    menu: &mut Vec<TrayEntry>,
    hosts: &Vec<SshHost>,
    group: SshHostGroup,
    title: &str,
)
    ensures
        entry_views(final(menu)@) == entry_views(old(menu)@) + group_menu(
            host_views(hosts@),
            group,
            title@,
        ),
{
    let ghost views = host_views(hosts@);
    let mut items: Vec<TrayItem> = Vec::new();
    assert(item_views(items@) =~= Seq::empty());
    let mut i: usize = 0;
    while i < hosts.len()
        invariant
            i <= hosts@.len(),
            views == host_views(hosts@),
            item_views(items@) == group_items(views, group, i as nat),
            items@.len() <= i,
        decreases hosts@.len() - i,
    {
        let host = &hosts[i];
        assert(views[i as int] == host@);
        if host.group == group {
            let ghost before = item_views(items@);
            let item = grouped_item(host);
            items.push(item);
            assert(item_views(items@) =~= before.push(item@));
        }
        i += 1;
    }
    if items.len() > 0 {
        let mut label = String::from_str(title);
        label.append(" (");
        push_decimal(&mut label, items.len() as u64);
        label.append(")");
        let ghost before = entry_views(menu@);
        let entry = TrayEntry::Submenu { label, items };
        menu.push(entry);
        assert(entry_views(menu@) =~= before.push(entry@));
        assert(entry_views(menu@) =~= before + group_menu(views, group, title@));
    } else {
        assert(entry_views(menu@) =~= entry_views(menu@) + group_menu(views, group, title@));
    }
}

/// Adds the flat list of `hosts` to `menu`, where they are few.
pub fn push_flat_list(menu: &mut Vec<TrayEntry>, hosts: &Vec<SshHost>)
    ensures
        entry_views(final(menu)@) == entry_views(old(menu)@) + flat_list(host_views(hosts@)),
{
    let ghost views = host_views(hosts@);
    let ghost start = entry_views(menu@);
    if hosts.len() > FLAT_LIST_LIMIT {
        assert(entry_views(menu@) =~= start + flat_list(views));
        return ;
    }
    menu.push(TrayEntry::Separator);
    assert(entry_views(menu@) =~= start + seq![TrayEntryView::Separator] + flat_items(views, 0));
    let mut i: usize = 0;
    while i < hosts.len()
        invariant
            i <= hosts@.len(),
            views == host_views(hosts@),
            entry_views(menu@) == start + seq![TrayEntryView::Separator] + flat_items(
                views,
                i as nat,
            ),
        decreases hosts@.len() - i,
    {
        let host = &hosts[i];
        assert(views[i as int] == host@);
        let ghost before = entry_views(menu@);
        let entry = TrayEntry::Text(flat_item(host));
        menu.push(entry);
        assert(entry_views(menu@) =~= before.push(entry@));
        assert(entry_views(menu@) =~= start + seq![TrayEntryView::Separator] + flat_items(
            views,
            (i + 1) as nat,
        ));
        i += 1;
    }
    assert(entry_views(menu@) =~= start + flat_list(views));
}

/// An entry with the given id and label.
fn text_entry(id: &str, label: String) -> (r: TrayEntry)
    ensures
        r@ == TrayEntryView::Text(TrayItemView { id: id@, label: label@ }),
{
    TrayEntry::Text(TrayItem { id: String::from_str(id), label })
}

/// The menu of the tray icon for `hosts`.
pub fn build_tray_menu(hosts: &Vec<SshHost>) -> (r: Vec<TrayEntry>)
    ensures
        entry_views(r@) == tray_menu_view(host_views(hosts@)),
{
    let ghost views = host_views(hosts@);
    let mut title = String::from_str("SSH-M (");
    push_decimal(&mut title, hosts.len() as u64);
    title.append(" 台主机)");
    let mut menu: Vec<TrayEntry> = Vec::new();
    menu.push(text_entry("title", title));
    menu.push(TrayEntry::Separator);
    let ghost head = entry_views(menu@);
    assert(head =~= seq![
        TrayEntryView::Text(
            TrayItemView {
                id: "title"@,
                label: "SSH-M ("@ + decimal_digits(views.len()) + " 台主机)"@,
            },
        ),
        TrayEntryView::Separator,
    ]);
    push_group_menu(&mut menu, hosts, SshHostGroup::Direct, "直连");
    push_group_menu(&mut menu, hosts, SshHostGroup::Proxy, "代理跳板");
    push_group_menu(&mut menu, hosts, SshHostGroup::Local, "本地/隧道");
    push_group_menu(&mut menu, hosts, SshHostGroup::Github, "GitHub");
    push_flat_list(&mut menu, hosts);
    let ghost body = entry_views(menu@);
    menu.push(TrayEntry::Separator);
    menu.push(text_entry("refresh", String::from_str("↻ 刷新主机列表")));
    menu.push(text_entry("show", String::from_str("显示窗口")));
    menu.push(TrayEntry::Separator);
    menu.push(text_entry("quit", String::from_str("退出 SSH-M")));
    assert(entry_views(menu@) =~= body + seq![
        TrayEntryView::Separator,
        TrayEntryView::Text(TrayItemView { id: "refresh"@, label: "↻ 刷新主机列表"@ }),
        TrayEntryView::Text(TrayItemView { id: "show"@, label: "显示窗口"@ }),
        TrayEntryView::Separator,
        TrayEntryView::Text(TrayItemView { id: "quit"@, label: "退出 SSH-M"@ }),
    ]);
    menu
}

/// What choosing an entry asks for.
#[derive(Debug)]
pub enum TrayAction {
    Quit,
    Show,
    Refresh,
    Connect(String),
    Nothing,
}

/// What a `TrayAction` holds, as mathematical values.
pub enum TrayActionView {
    Quit,
    Show,
    Refresh,
    Connect(Seq<char>),
    Nothing,
}

impl View for TrayAction {
    type V = TrayActionView;

    open spec fn view(&self) -> TrayActionView {
        match self {
            TrayAction::Quit => TrayActionView::Quit,
            TrayAction::Show => TrayActionView::Show,
            TrayAction::Refresh => TrayActionView::Refresh,
            TrayAction::Connect(host) => TrayActionView::Connect(host@),
            TrayAction::Nothing => TrayActionView::Nothing,
        }
    }
}

/// What the entry with the given id asks for: an id that starts with
/// `ssh:` connects to the host named behind it.
pub open spec fn action_of(id: Seq<char>) -> TrayActionView {
    if id == "quit"@ {
        TrayActionView::Quit
    } else if id == "show"@ {
        TrayActionView::Show
    } else if id == "refresh"@ {
        TrayActionView::Refresh
    } else if "ssh:"@.is_prefix_of(id) {
        TrayActionView::Connect(id.subrange("ssh:"@.len() as int, id.len() as int))
    } else {
        TrayActionView::Nothing
    }
}

/// What the entry with the given id asks for.
pub fn tray_action(id: &str) -> (r: TrayAction)
    ensures
        r@ == action_of(id@),
{
    if str_eq(id, "quit") {
        TrayAction::Quit
    } else if str_eq(id, "show") {
        TrayAction::Show
    } else if str_eq(id, "refresh") {
        TrayAction::Refresh
    } else {
        let chars = chars_of(id);
        let prefix = chars_of("ssh:");
        if starts_with(&chars, "ssh:") {
            TrayAction::Connect(string_of(&slice_of(&chars, prefix.len(), chars.len())))
        } else {
            TrayAction::Nothing
        }
    }
}

} // verus!
