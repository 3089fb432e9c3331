use vstd::prelude::*;

use crate::state::ViewMode;

verus! {

/// The icons that the window draws.
#[derive(Clone, Copy, Debug, PartialEq, Eq, Structural)]
pub enum Glyph {
    AppWindow,
    Monitor,
    FileText,
    CircleArrowDown,
    Cloud,
    Film,
    Music,
    Image,
    Box,
    House,
    Laptop,
    Airplay,
    Trash2,
    ChevronLeft,
    ChevronRight,
    Grid2x2,
    List,
    Columns3,
    ListFilter,
    FolderPlus,
    Ellipsis,
    Search,
    ArrowUpRight,
    FolderOpen,
    PanelsTopLeft,
    Info,
    Pencil,
    Eye,
    Copy,
}

/// A folder of the grid view: its name, the line under it, the tint of its
/// icon and the symbol embossed on it, if any.
#[derive(Clone, Copy, Debug)]
pub struct FolderEntry {
    pub label: &'static str,
    pub count: &'static str,
    pub tint: u32,
    pub glyph: Option<Glyph>,
}

/// The folders of the home directory, in the order the grid shows them.
pub open spec fn folder_table() -> Seq<FolderEntry> {
    seq![
        FolderEntry { label: "AndroidStudioProjects", count: "5 items", tint: 0x52c8ed, glyph: None },
        FolderEntry { label: "Applications", count: "1 item", tint: 0x52c8ed, glyph: Some(Glyph::AppWindow) },
        FolderEntry { label: "CloudDrive", count: "5 items", tint: 0x52c8ed, glyph: None },
        FolderEntry { label: "Code", count: "6 items", tint: 0x52c8ed, glyph: None },
        FolderEntry { label: "Desktop", count: "No items", tint: 0x52c8ed, glyph: Some(Glyph::Monitor) },
        FolderEntry { label: "Documents", count: "9 items", tint: 0x52c8ed, glyph: Some(Glyph::FileText) },
        FolderEntry { label: "Downloads", count: "14 items", tint: 0x52c8ed, glyph: Some(Glyph::CircleArrowDown) },
        FolderEntry { label: "Dropbox", count: "4 items", tint: 0x52c8ed, glyph: Some(Glyph::Cloud) },
        FolderEntry { label: "Github", count: "4 items", tint: 0x52c8ed, glyph: None },
        FolderEntry { label: "Google Drive", count: "5 items", tint: 0x52c8ed, glyph: None },
        FolderEntry { label: "Modal", count: "5 items", tint: 0x52c8ed, glyph: None },
        FolderEntry { label: "Movies", count: "7 items", tint: 0x52c8ed, glyph: Some(Glyph::Film) },
        FolderEntry { label: "Music", count: "5 items", tint: 0x52c8ed, glyph: Some(Glyph::Music) },
        FolderEntry { label: "Pictures", count: "10 items", tint: 0x52c8ed, glyph: Some(Glyph::Image) },
        FolderEntry { label: "Public", count: "1 item", tint: 0x52c8ed, glyph: None },
        FolderEntry { label: "Rust", count: "7 items", tint: 0xef334c, glyph: None },
    ]
}

/// The folders that the grid view shows.
pub fn grid_folders() -> (v: Vec<FolderEntry>)
    ensures
        v@ == folder_table(),
{
    vec![
        FolderEntry { label: "AndroidStudioProjects", count: "5 items", tint: 0x52c8ed, glyph: None },
        FolderEntry { label: "Applications", count: "1 item", tint: 0x52c8ed, glyph: Some(Glyph::AppWindow) },
        FolderEntry { label: "CloudDrive", count: "5 items", tint: 0x52c8ed, glyph: None },
        FolderEntry { label: "Code", count: "6 items", tint: 0x52c8ed, glyph: None },
        FolderEntry { label: "Desktop", count: "No items", tint: 0x52c8ed, glyph: Some(Glyph::Monitor) },
        FolderEntry { label: "Documents", count: "9 items", tint: 0x52c8ed, glyph: Some(Glyph::FileText) },
        FolderEntry { label: "Downloads", count: "14 items", tint: 0x52c8ed, glyph: Some(Glyph::CircleArrowDown) },
        FolderEntry { label: "Dropbox", count: "4 items", tint: 0x52c8ed, glyph: Some(Glyph::Cloud) },
        FolderEntry { label: "Github", count: "4 items", tint: 0x52c8ed, glyph: None },
        FolderEntry { label: "Google Drive", count: "5 items", tint: 0x52c8ed, glyph: None },
        FolderEntry { label: "Modal", count: "5 items", tint: 0x52c8ed, glyph: None },
        FolderEntry { label: "Movies", count: "7 items", tint: 0x52c8ed, glyph: Some(Glyph::Film) },
        FolderEntry { label: "Music", count: "5 items", tint: 0x52c8ed, glyph: Some(Glyph::Music) },
        FolderEntry { label: "Pictures", count: "10 items", tint: 0x52c8ed, glyph: Some(Glyph::Image) },
        FolderEntry { label: "Public", count: "1 item", tint: 0x52c8ed, glyph: None },
        FolderEntry { label: "Rust", count: "7 items", tint: 0xef334c, glyph: None },
    ]
}

/// A row of the list view.
#[derive(Clone, Copy, Debug)]
pub struct ListRow {
    pub label: &'static str,
    pub modified: &'static str,
    pub size: &'static str,
    pub kind: &'static str,
    pub red: bool,
    pub alias: bool,
    pub tagged: bool,
    pub selected: bool,
}

/// The rows of the list view, in order.
pub open spec fn row_table() -> Seq<ListRow> {
    seq![
        ListRow {
            label: "AndroidStudioProjects",
            modified: "Feb 13, 2026 at 3:41 PM",
            size: "--",
            kind: "Folder",
            red: false,
            alias: false,
            tagged: false,
            selected: true,
        },
        ListRow {
            label: "Applications",
            modified: "Apr 16, 2026 at 11:49 PM",
            size: "--",
            kind: "Folder",
            red: false,
            alias: false,
            tagged: false,
            selected: false,
        },
        ListRow {
            label: "CloudDrive",
            modified: "Mar 21, 2026 at 11:38 AM",
            size: "--",
            kind: "Folder",
            red: false,
            alias: false,
            tagged: false,
            selected: false,
        },
        ListRow {
            label: "Code",
            modified: "Jan 14, 2026 at 12:08 AM",
            size: "--",
            kind: "Folder",
            red: false,
            alias: false,
            tagged: false,
            selected: false,
        },
        ListRow {
            label: "Desktop",
            modified: "Jul 27, 2026 at 11:21 PM",
            size: "--",
            kind: "Folder",
            red: false,
            alias: false,
            tagged: false,
            selected: false,
        },
        ListRow {
            label: "Documents",
            modified: "Jul 27, 2026 at 11:20 PM",
            size: "--",
            kind: "Folder",
            red: false,
            alias: false,
            tagged: false,
            selected: false,
        },
        ListRow {
            label: "Downloads",
            modified: "Yesterday at 10:18 PM",
            size: "--",
            kind: "Folder",
            red: false,
            alias: false,
            tagged: false,
            selected: false,
        },
        ListRow {
            label: "Dropbox",
            modified: "Jan 11, 2026 at 12:22 AM",
            size: "42 bytes",
            kind: "Alias",
            red: false,
            alias: true,
            tagged: false,
            selected: false,
        },
        ListRow {
            label: "Github",
            modified: "Feb 26, 2026 at 12:34 AM",
            size: "--",
            kind: "Folder",
            red: false,
            alias: false,
            tagged: false,
            selected: false,
        },
        ListRow {
            label: "Google Drive",
            modified: "Yesterday at 10:11 AM",
            size: "66 bytes",
            kind: "Alias",
            red: false,
            alias: true,
            tagged: false,
            selected: false,
        },
        ListRow {
            label: "Modal",
            modified: "Apr 21, 2025 at 12:36 AM",
            size: "--",
            kind: "Folder",
            red: false,
            alias: false,
            tagged: false,
            selected: false,
        },
        ListRow {
            label: "Movies",
            modified: "Jun 8, 2025 at 8:47 PM",
            size: "--",
            kind: "Folder",
            red: false,
            alias: false,
            tagged: false,
            selected: false,
        },
        ListRow {
            label: "Music",
            modified: "Jan 11, 2026 at 12:17 PM",
            size: "--",
            kind: "Folder",
            red: false,
            alias: false,
            tagged: false,
            selected: false,
        },
        ListRow {
            label: "Pictures",
            modified: "Jan 12, 2026 at 11:53 PM",
            size: "--",
            kind: "Folder",
            red: false,
            alias: false,
            tagged: false,
            selected: false,
        },
        ListRow {
            label: "Public",
            modified: "Mar 1, 2025 at 2:12 PM",
            size: "--",
            kind: "Folder",
            red: false,
            alias: false,
            tagged: false,
            selected: false,
        },
        ListRow {
            label: "Rust",
            modified: "Jun 4, 2025 at 7:05 PM",
            size: "--",
            kind: "Folder",
            red: true,
            alias: false,
            tagged: true,
            selected: false,
        },
    ]
}

/// The rows that the list view shows.
pub fn list_rows() -> (v: Vec<ListRow>)
    ensures
        v@ == row_table(),
{
    vec![
        ListRow {
            label: "AndroidStudioProjects",
            modified: "Feb 13, 2026 at 3:41 PM",
            size: "--",
            kind: "Folder",
            red: false,
            alias: false,
            tagged: false,
            selected: true,
        },
        ListRow {
            label: "Applications",
            modified: "Apr 16, 2026 at 11:49 PM",
            size: "--",
            kind: "Folder",
            red: false,
            alias: false,
            tagged: false,
            selected: false,
        },
        ListRow {
            label: "CloudDrive",
            modified: "Mar 21, 2026 at 11:38 AM",
            size: "--",
            kind: "Folder",
            red: false,
            alias: false,
            tagged: false,
            selected: false,
        },
        ListRow {
            label: "Code",
            modified: "Jan 14, 2026 at 12:08 AM",
            size: "--",
            kind: "Folder",
            red: false,
            alias: false,
            tagged: false,
            selected: false,
        },
        ListRow {
            label: "Desktop",
            modified: "Jul 27, 2026 at 11:21 PM",
            size: "--",
            kind: "Folder",
            red: false,
            alias: false,
            tagged: false,
            selected: false,
        },
        ListRow {
            label: "Documents",
            modified: "Jul 27, 2026 at 11:20 PM",
            size: "--",
            kind: "Folder",
            red: false,
            alias: false,
            tagged: false,
            selected: false,
        },
        ListRow {
            label: "Downloads",
            modified: "Yesterday at 10:18 PM",
            size: "--",
            kind: "Folder",
            red: false,
            alias: false,
            tagged: false,
            selected: false,
        },
        ListRow {
            label: "Dropbox",
            modified: "Jan 11, 2026 at 12:22 AM",
            size: "42 bytes",
            kind: "Alias",
            red: false,
            alias: true,
            tagged: false,
            selected: false,
        },
        ListRow {
            label: "Github",
            modified: "Feb 26, 2026 at 12:34 AM",
            size: "--",
            kind: "Folder",
            red: false,
            alias: false,
            tagged: false,
            selected: false,
        },
        ListRow {
            label: "Google Drive",
            modified: "Yesterday at 10:11 AM",
            size: "66 bytes",
            kind: "Alias",
            red: false,
            alias: true,
            tagged: false,
            selected: false,
        },
        ListRow {
            label: "Modal",
            modified: "Apr 21, 2025 at 12:36 AM",
            size: "--",
            kind: "Folder",
            red: false,
            alias: false,
            tagged: false,
            selected: false,
        },
        ListRow {
            label: "Movies",
            modified: "Jun 8, 2025 at 8:47 PM",
            size: "--",
            kind: "Folder",
            red: false,
            alias: false,
            tagged: false,
            selected: false,
        },
        ListRow {
            label: "Music",
            modified: "Jan 11, 2026 at 12:17 PM",
            size: "--",
            kind: "Folder",
            red: false,
            alias: false,
            tagged: false,
            selected: false,
        },
        ListRow {
            label: "Pictures",
            modified: "Jan 12, 2026 at 11:53 PM",
            size: "--",
            kind: "Folder",
            red: false,
            alias: false,
            tagged: false,
            selected: false,
        },
        ListRow {
            label: "Public",
            modified: "Mar 1, 2025 at 2:12 PM",
            size: "--",
            kind: "Folder",
            red: false,
            alias: false,
            tagged: false,
            selected: false,
        },
        ListRow {
            label: "Rust",
            modified: "Jun 4, 2025 at 7:05 PM",
            size: "--",
            kind: "Folder",
            red: true,
            alias: false,
            tagged: true,
            selected: false,
        },
    ]
}

/// An entry of the sidebar: a section heading, a location, or a tag.
#[derive(Clone, Copy, Debug)]
pub enum SidebarEntry {
    Section(&'static str),
    Item { id: &'static str, label: &'static str, glyph: Glyph, selected: bool },
    Tag { id: &'static str, label: &'static str, color: u32, outlined: bool },
}

/// The sidebar from top to bottom.
pub open spec fn sidebar_table() -> Seq<SidebarEntry> {
    seq![
        SidebarEntry::Section("Favorites"),
        SidebarEntry::Item { id: "applications", label: "Applications", glyph: Glyph::AppWindow, selected: false },
        SidebarEntry::Item { id: "desktop", label: "Desktop", glyph: Glyph::Monitor, selected: false },
        SidebarEntry::Item { id: "documents", label: "Documents", glyph: Glyph::FileText, selected: false },
        SidebarEntry::Item { id: "downloads", label: "Downloads", glyph: Glyph::CircleArrowDown, selected: false },
        SidebarEntry::Item { id: "movies", label: "Movies", glyph: Glyph::Film, selected: false },
        SidebarEntry::Item { id: "music", label: "Music", glyph: Glyph::Music, selected: false },
        SidebarEntry::Item { id: "pictures", label: "Pictures", glyph: Glyph::Image, selected: false },
        SidebarEntry::Section("Locations"),
        SidebarEntry::Item { id: "icloud", label: "iCloud Drive", glyph: Glyph::Cloud, selected: false },
        SidebarEntry::Item { id: "dropbox", label: "Dropbox", glyph: Glyph::Box, selected: false },
        SidebarEntry::Item { id: "home", label: "cradiy", glyph: Glyph::House, selected: true },
        SidebarEntry::Item { id: "macbook", label: "cradiy's MacBook Air", glyph: Glyph::Laptop, selected: false },
        SidebarEntry::Item { id: "airdrop", label: "AirDrop", glyph: Glyph::Airplay, selected: false },
        SidebarEntry::Item { id: "trash", label: "Trash", glyph: Glyph::Trash2, selected: false },
        SidebarEntry::Section("Tags"),
        SidebarEntry::Tag { id: "tag-code", label: "Code", color: 0x0a84ff, outlined: false },
        SidebarEntry::Tag { id: "tag-work", label: "Work", color: 0x000000, outlined: true },
        SidebarEntry::Tag { id: "tag-important", label: "Important", color: 0x00d85a, outlined: false },
        SidebarEntry::Tag { id: "tag-all", label: "All Tags...", color: 0x000000, outlined: true },
    ]
}

/// The entries of the sidebar under the traffic lights.
pub fn sidebar_entries() -> (v: Vec<SidebarEntry>)
    ensures
        v@ == sidebar_table(),
{
    vec![
        SidebarEntry::Section("Favorites"),
        SidebarEntry::Item { id: "applications", label: "Applications", glyph: Glyph::AppWindow, selected: false },
        SidebarEntry::Item { id: "desktop", label: "Desktop", glyph: Glyph::Monitor, selected: false },
        SidebarEntry::Item { id: "documents", label: "Documents", glyph: Glyph::FileText, selected: false },
        SidebarEntry::Item { id: "downloads", label: "Downloads", glyph: Glyph::CircleArrowDown, selected: false },
        SidebarEntry::Item { id: "movies", label: "Movies", glyph: Glyph::Film, selected: false },
        SidebarEntry::Item { id: "music", label: "Music", glyph: Glyph::Music, selected: false },
        SidebarEntry::Item { id: "pictures", label: "Pictures", glyph: Glyph::Image, selected: false },
        SidebarEntry::Section("Locations"),
        SidebarEntry::Item { id: "icloud", label: "iCloud Drive", glyph: Glyph::Cloud, selected: false },
        SidebarEntry::Item { id: "dropbox", label: "Dropbox", glyph: Glyph::Box, selected: false },
        SidebarEntry::Item { id: "home", label: "cradiy", glyph: Glyph::House, selected: true },
        SidebarEntry::Item { id: "macbook", label: "cradiy's MacBook Air", glyph: Glyph::Laptop, selected: false },
        SidebarEntry::Item { id: "airdrop", label: "AirDrop", glyph: Glyph::Airplay, selected: false },
        SidebarEntry::Item { id: "trash", label: "Trash", glyph: Glyph::Trash2, selected: false },
        SidebarEntry::Section("Tags"),
        SidebarEntry::Tag { id: "tag-code", label: "Code", color: 0x0a84ff, outlined: false },
        SidebarEntry::Tag { id: "tag-work", label: "Work", color: 0x000000, outlined: true },
        SidebarEntry::Tag { id: "tag-important", label: "Important", color: 0x00d85a, outlined: false },
        SidebarEntry::Tag { id: "tag-all", label: "All Tags...", color: 0x000000, outlined: true },
    ]
}

/// An entry of the context menu: a command or a separating line.
#[derive(Clone, Copy, Debug)]
pub enum MenuEntry {
    Item {
        id: &'static str,
        label: &'static str,
        glyph: Glyph,
        shortcut: &'static str,
        danger: bool,
    },
    Separator,
}

/// The context menu from top to bottom.
pub open spec fn menu_table() -> Seq<MenuEntry> {
    seq![
        MenuEntry::Item { id: "menu-open", label: "Open", glyph: Glyph::FolderOpen, shortcut: "\u{2318}O", danger: false },
        MenuEntry::Item { id: "menu-new-window", label: "Open in New Window", glyph: Glyph::PanelsTopLeft, shortcut: "", danger: false },
        MenuEntry::Separator,
        MenuEntry::Item { id: "menu-info", label: "Get Info", glyph: Glyph::Info, shortcut: "\u{2318}I", danger: false },
        MenuEntry::Item { id: "menu-rename", label: "Rename", glyph: Glyph::Pencil, shortcut: "\u{21a9}", danger: false },
        MenuEntry::Item { id: "menu-quick-look", label: "Quick Look", glyph: Glyph::Eye, shortcut: "Space", danger: false },
        MenuEntry::Separator,
        MenuEntry::Item { id: "menu-copy", label: "Copy", glyph: Glyph::Copy, shortcut: "\u{2318}C", danger: false },
        MenuEntry::Item { id: "menu-trash", label: "Move to Trash", glyph: Glyph::Trash2, shortcut: "\u{2318}\u{232b}", danger: true },
    ]
}

/// The entries of the context menu.
pub fn context_menu_entries() -> (v: Vec<MenuEntry>)
    ensures
        v@ == menu_table(),
{
    vec![
        MenuEntry::Item { id: "menu-open", label: "Open", glyph: Glyph::FolderOpen, shortcut: "\u{2318}O", danger: false },
        MenuEntry::Item { id: "menu-new-window", label: "Open in New Window", glyph: Glyph::PanelsTopLeft, shortcut: "", danger: false },
        MenuEntry::Separator,
        MenuEntry::Item { id: "menu-info", label: "Get Info", glyph: Glyph::Info, shortcut: "\u{2318}I", danger: false },
        MenuEntry::Item { id: "menu-rename", label: "Rename", glyph: Glyph::Pencil, shortcut: "\u{21a9}", danger: false },
        MenuEntry::Item { id: "menu-quick-look", label: "Quick Look", glyph: Glyph::Eye, shortcut: "Space", danger: false },
        MenuEntry::Separator,
        MenuEntry::Item { id: "menu-copy", label: "Copy", glyph: Glyph::Copy, shortcut: "\u{2318}C", danger: false },
        MenuEntry::Item { id: "menu-trash", label: "Move to Trash", glyph: Glyph::Trash2, shortcut: "\u{2318}\u{232b}", danger: true },
    ]
}

/// A group of toolbar buttons that share one rounded plate.
#[derive(Clone, Copy, Debug, PartialEq, Eq, Structural)]
pub enum ToolbarGroup {
    History,
    View,
    Sort,
    File,
}

/// The element id of a toolbar group.
pub open spec fn group_id(group: ToolbarGroup) -> &'static str {
    match group {
        ToolbarGroup::History => "history-controls",
        ToolbarGroup::View => "view-controls",
        ToolbarGroup::Sort => "sort-controls",
        ToolbarGroup::File => "file-controls",
    }
}

/// The element id of a toolbar group.
pub fn toolbar_group_id(group: ToolbarGroup) -> (id: &'static str)
    ensures
        id == group_id(group),
{
    match group {
        ToolbarGroup::History => "history-controls",
        ToolbarGroup::View => "view-controls",
        ToolbarGroup::Sort => "sort-controls",
        ToolbarGroup::File => "file-controls",
    }
}

/// A toolbar button; a button that switches the view mode names the mode.
#[derive(Clone, Copy, Debug)]
pub struct ToolbarButton {
    pub id: &'static str,
    pub glyph: Glyph,
    pub selects: Option<ViewMode>,
}

/// The buttons of each toolbar group, left to right.
pub open spec fn group_buttons(group: ToolbarGroup) -> Seq<ToolbarButton> {
    match group {
        ToolbarGroup::History => seq![
            ToolbarButton { id: "back", glyph: Glyph::ChevronLeft, selects: None },
            ToolbarButton { id: "forward", glyph: Glyph::ChevronRight, selects: None },
        ],
        ToolbarGroup::View => seq![
            ToolbarButton { id: "grid", glyph: Glyph::Grid2x2, selects: Some(ViewMode::Grid) },
            ToolbarButton { id: "list", glyph: Glyph::List, selects: Some(ViewMode::List) },
            ToolbarButton { id: "columns", glyph: Glyph::Columns3, selects: None },
        ],
        ToolbarGroup::Sort => seq![
            ToolbarButton { id: "sort", glyph: Glyph::ListFilter, selects: None },
        ],
        ToolbarGroup::File => seq![
            ToolbarButton { id: "new-folder", glyph: Glyph::FolderPlus, selects: None },
            ToolbarButton { id: "delete", glyph: Glyph::Trash2, selects: None },
            ToolbarButton { id: "more", glyph: Glyph::Ellipsis, selects: None },
        ],
    }
}

/// The buttons of a toolbar group.
pub fn toolbar_buttons(group: ToolbarGroup) -> (v: Vec<ToolbarButton>)
    ensures
        v@ == group_buttons(group),
        forall|i: int| 0 <= i < v@.len() ==> {
            &&& (#[trigger] v@[i]).selects == Some(ViewMode::Grid) ==> v@[i].glyph == Glyph::Grid2x2 && v@[i].id == "grid"
            &&& v@[i].selects == Some(ViewMode::List) ==> v@[i].glyph == Glyph::List && v@[i].id == "list"
            &&& v@[i].selects is Some ==> group == ToolbarGroup::View
        },
{
    match group {
        ToolbarGroup::History => vec![
            ToolbarButton { id: "back", glyph: Glyph::ChevronLeft, selects: None },
            ToolbarButton { id: "forward", glyph: Glyph::ChevronRight, selects: None },
        ],
        ToolbarGroup::View => vec![
            ToolbarButton { id: "grid", glyph: Glyph::Grid2x2, selects: Some(ViewMode::Grid) },
            ToolbarButton { id: "list", glyph: Glyph::List, selects: Some(ViewMode::List) },
            ToolbarButton { id: "columns", glyph: Glyph::Columns3, selects: None },
        ],
        ToolbarGroup::Sort => vec![
            ToolbarButton { id: "sort", glyph: Glyph::ListFilter, selects: None },
        ],
        ToolbarGroup::File => vec![
            ToolbarButton { id: "new-folder", glyph: Glyph::FolderPlus, selects: None },
            ToolbarButton { id: "delete", glyph: Glyph::Trash2, selects: None },
            ToolbarButton { id: "more", glyph: Glyph::Ellipsis, selects: None },
        ],
    }
}

/// A toolbar button that switches the view mode shows that mode's icon and
/// carries that mode's id; such buttons live only in the view group, and the
/// view group has one for each mode, grid first.
pub proof fn lemma_view_buttons_match_modes(group: ToolbarGroup)
    ensures
        forall|i: int| 0 <= i < group_buttons(group).len() ==> {
            &&& (#[trigger] group_buttons(group)[i]).selects == Some(ViewMode::Grid)
                ==> group_buttons(group)[i].glyph == Glyph::Grid2x2 && group_buttons(group)[i].id == "grid"
            &&& group_buttons(group)[i].selects == Some(ViewMode::List)
                ==> group_buttons(group)[i].glyph == Glyph::List && group_buttons(group)[i].id == "list"
            &&& group_buttons(group)[i].selects is Some ==> group == ToolbarGroup::View
        },
        group_buttons(ToolbarGroup::View)[0].selects == Some(ViewMode::Grid),
        group_buttons(ToolbarGroup::View)[1].selects == Some(ViewMode::List),
        group_buttons(ToolbarGroup::View)[2].selects is None,
        group_buttons(ToolbarGroup::View)[2].glyph == Glyph::Columns3,
{
}

/// Whether a shortcut of the form Command plus a capital letter names a
/// letter of its command's label; other shortcuts pass.
pub open spec fn letter_in_label(label: Seq<char>, shortcut: Seq<char>) -> bool {
    (shortcut.len() == 2 && shortcut[0] == '\u{2318}' && 65 <= (shortcut[1] as u32) <= 90)
        ==> label.contains(shortcut[1])
}

/// Every Command-letter shortcut of the context menu uses a letter of its
/// command (Open, Get Info, Copy); the one destructive entry is the one with
/// the trash icon; and separators stand neither at the ends of the menu nor
/// next to each other.
pub proof fn lemma_menu_is_consistent()
    ensures
        forall|i: int| 0 <= i < menu_table().len() ==> match #[trigger] menu_table()[i] {
            MenuEntry::Item { label, shortcut, .. } => letter_in_label(label@, shortcut@),
            MenuEntry::Separator => true,
        },
        forall|i: int| 0 <= i < menu_table().len() ==> match #[trigger] menu_table()[i] {
            MenuEntry::Item { glyph, danger, .. } => danger <==> glyph == Glyph::Trash2,
            MenuEntry::Separator => true,
        },
        !(menu_table()[0] is Separator),
        !(menu_table()[menu_table().len() - 1] is Separator),
        forall|i: int| 0 <= i < menu_table().len() - 1 && (#[trigger] menu_table()[i]) is Separator
            ==> !(menu_table()[i + 1] is Separator),
{
    reveal_strlit("Open");
    reveal_strlit("Open in New Window");
    reveal_strlit("Get Info");
    reveal_strlit("Rename");
    reveal_strlit("Quick Look");
    reveal_strlit("Copy");
    reveal_strlit("Move to Trash");
    reveal_strlit("\u{2318}O");
    reveal_strlit("");
    reveal_strlit("\u{2318}I");
    reveal_strlit("\u{21a9}");
    reveal_strlit("Space");
    reveal_strlit("\u{2318}C");
    reveal_strlit("\u{2318}\u{232b}");
    assert forall|i: int| 0 <= i < menu_table().len() implies match #[trigger] menu_table()[i] {
        MenuEntry::Item { label, shortcut, .. } => letter_in_label(label@, shortcut@),
        MenuEntry::Separator => true,
    } by {
        if i == 0 {
            assert(("Open")@[0] == 'O');
        } else if i == 3 {
            assert(("Get Info")@[4] == 'I');
        } else if i == 7 {
            assert(("Copy")@[0] == 'C');
        }
    }
}

/// The context menu, entry by entry.
pub proof fn lemma_menu_entries()
    ensures
        menu_table().len() == 9,
        menu_table()[0] == (MenuEntry::Item { id: "menu-open", label: "Open", glyph: Glyph::FolderOpen, shortcut: "\u{2318}O", danger: false }),
        menu_table()[1] == (MenuEntry::Item { id: "menu-new-window", label: "Open in New Window", glyph: Glyph::PanelsTopLeft, shortcut: "", danger: false }),
        menu_table()[2] is Separator,
        menu_table()[3] == (MenuEntry::Item { id: "menu-info", label: "Get Info", glyph: Glyph::Info, shortcut: "\u{2318}I", danger: false }),
        menu_table()[4] == (MenuEntry::Item { id: "menu-rename", label: "Rename", glyph: Glyph::Pencil, shortcut: "\u{21a9}", danger: false }),
        menu_table()[5] == (MenuEntry::Item { id: "menu-quick-look", label: "Quick Look", glyph: Glyph::Eye, shortcut: "Space", danger: false }),
        menu_table()[6] is Separator,
        menu_table()[7] == (MenuEntry::Item { id: "menu-copy", label: "Copy", glyph: Glyph::Copy, shortcut: "\u{2318}C", danger: false }),
        menu_table()[8] == (MenuEntry::Item { id: "menu-trash", label: "Move to Trash", glyph: Glyph::Trash2, shortcut: "\u{2318}\u{232b}", danger: true }),
{
}

/// Whether the sidebar entry is a location called `label`, drawn with `glyph`.
pub open spec fn item_named(entry: SidebarEntry, label: Seq<char>, glyph: Glyph) -> bool {
    match entry {
        SidebarEntry::Item { label: l, glyph: g, .. } => l@ == label && g == glyph,
        _ => false,
    }
}

/// The Favorites section: the sidebar entries between its heading and the
/// next heading.
pub open spec fn favorites() -> Seq<SidebarEntry> {
    sidebar_table().subrange(1, 8)
}

/// A grid folder that has a Favorites entry of the same name carries that
/// entry's symbol; the list view lists the grid folders in the same order,
/// red exactly where the grid tints red; and only the last folder is red.
pub proof fn lemma_folders_agree()
    ensures
        sidebar_table()[0] == SidebarEntry::Section("Favorites"),
        sidebar_table()[8] == SidebarEntry::Section("Locations"),
        forall|i: int, j: int, l: Seq<char>, g: Glyph|
            0 <= i < folder_table().len() && 0 <= j < favorites().len()
                && #[trigger] item_named(favorites()[j], l, g) && (#[trigger] folder_table()[i]).label@ == l
                ==> folder_table()[i].glyph == Some(g),
        row_table().len() == folder_table().len(),
        forall|i: int| 0 <= i < row_table().len() ==> (#[trigger] row_table()[i]).label == folder_table()[i].label
            && (row_table()[i].red <==> folder_table()[i].tint == crate::style::RED_TINT),
        forall|i: int| 0 <= i < folder_table().len() ==> ((#[trigger] folder_table()[i]).tint == crate::style::RED_TINT
            <==> i == folder_table().len() - 1),
{
    reveal_strlit("AndroidStudioProjects");
    reveal_strlit("Applications");
    reveal_strlit("CloudDrive");
    reveal_strlit("Code");
    reveal_strlit("Desktop");
    reveal_strlit("Documents");
    reveal_strlit("Downloads");
    reveal_strlit("Dropbox");
    reveal_strlit("Github");
    reveal_strlit("Google Drive");
    reveal_strlit("Modal");
    reveal_strlit("Movies");
    reveal_strlit("Music");
    reveal_strlit("Pictures");
    reveal_strlit("Public");
    reveal_strlit("Rust");
    assert forall|i: int, j: int, l: Seq<char>, g: Glyph|
        0 <= i < folder_table().len() && 0 <= j < favorites().len()
            && #[trigger] item_named(favorites()[j], l, g) && (#[trigger] folder_table()[i]).label@ == l
        implies folder_table()[i].glyph == Some(g) by {
        assert(favorites()[j] == sidebar_table()[j + 1]);
        if j == 0 {
            assert(l == ("Applications")@);
            if i == 0 { assert(("AndroidStudioProjects")@.len() != ("Applications")@.len()); }
            if i == 2 { assert(("CloudDrive")@.len() != ("Applications")@.len()); }
            if i == 3 { assert(("Code")@.len() != ("Applications")@.len()); }
            if i == 4 { assert(("Desktop")@.len() != ("Applications")@.len()); }
            if i == 5 { assert(("Documents")@.len() != ("Applications")@.len()); }
            if i == 6 { assert(("Downloads")@.len() != ("Applications")@.len()); }
            if i == 7 { assert(("Dropbox")@.len() != ("Applications")@.len()); }
            if i == 8 { assert(("Github")@.len() != ("Applications")@.len()); }
            if i == 9 { assert(("Google Drive")@[0] != ("Applications")@[0]); }
            if i == 10 { assert(("Modal")@.len() != ("Applications")@.len()); }
            if i == 11 { assert(("Movies")@.len() != ("Applications")@.len()); }
            if i == 12 { assert(("Music")@.len() != ("Applications")@.len()); }
            if i == 13 { assert(("Pictures")@.len() != ("Applications")@.len()); }
            if i == 14 { assert(("Public")@.len() != ("Applications")@.len()); }
            if i == 15 { assert(("Rust")@.len() != ("Applications")@.len()); }
        }
        if j == 1 {
            assert(l == ("Desktop")@);
            if i == 0 { assert(("AndroidStudioProjects")@.len() != ("Desktop")@.len()); }
            if i == 1 { assert(("Applications")@.len() != ("Desktop")@.len()); }
            if i == 2 { assert(("CloudDrive")@.len() != ("Desktop")@.len()); }
            if i == 3 { assert(("Code")@.len() != ("Desktop")@.len()); }
            if i == 5 { assert(("Documents")@.len() != ("Desktop")@.len()); }
            if i == 6 { assert(("Downloads")@.len() != ("Desktop")@.len()); }
            if i == 7 { assert(("Dropbox")@[1] != ("Desktop")@[1]); }
            if i == 8 { assert(("Github")@.len() != ("Desktop")@.len()); }
            if i == 9 { assert(("Google Drive")@.len() != ("Desktop")@.len()); }
            if i == 10 { assert(("Modal")@.len() != ("Desktop")@.len()); }
            if i == 11 { assert(("Movies")@.len() != ("Desktop")@.len()); }
            if i == 12 { assert(("Music")@.len() != ("Desktop")@.len()); }
            if i == 13 { assert(("Pictures")@.len() != ("Desktop")@.len()); }
            if i == 14 { assert(("Public")@.len() != ("Desktop")@.len()); }
            if i == 15 { assert(("Rust")@.len() != ("Desktop")@.len()); }
        }
        if j == 2 {
            assert(l == ("Documents")@);
            if i == 0 { assert(("AndroidStudioProjects")@.len() != ("Documents")@.len()); }
            if i == 1 { assert(("Applications")@.len() != ("Documents")@.len()); }
            if i == 2 { assert(("CloudDrive")@.len() != ("Documents")@.len()); }
            if i == 3 { assert(("Code")@.len() != ("Documents")@.len()); }
            if i == 4 { assert(("Desktop")@.len() != ("Documents")@.len()); }
            if i == 6 { assert(("Downloads")@[2] != ("Documents")@[2]); }
            if i == 7 { assert(("Dropbox")@.len() != ("Documents")@.len()); }
            if i == 8 { assert(("Github")@.len() != ("Documents")@.len()); }
            if i == 9 { assert(("Google Drive")@.len() != ("Documents")@.len()); }
            if i == 10 { assert(("Modal")@.len() != ("Documents")@.len()); }
            if i == 11 { assert(("Movies")@.len() != ("Documents")@.len()); }
            if i == 12 { assert(("Music")@.len() != ("Documents")@.len()); }
            if i == 13 { assert(("Pictures")@.len() != ("Documents")@.len()); }
            if i == 14 { assert(("Public")@.len() != ("Documents")@.len()); }
            if i == 15 { assert(("Rust")@.len() != ("Documents")@.len()); }
        }
        if j == 3 {
            assert(l == ("Downloads")@);
            if i == 0 { assert(("AndroidStudioProjects")@.len() != ("Downloads")@.len()); }
            if i == 1 { assert(("Applications")@.len() != ("Downloads")@.len()); }
            if i == 2 { assert(("CloudDrive")@.len() != ("Downloads")@.len()); }
            if i == 3 { assert(("Code")@.len() != ("Downloads")@.len()); }
            if i == 4 { assert(("Desktop")@.len() != ("Downloads")@.len()); }
            if i == 5 { assert(("Documents")@[2] != ("Downloads")@[2]); }
            if i == 7 { assert(("Dropbox")@.len() != ("Downloads")@.len()); }
            if i == 8 { assert(("Github")@.len() != ("Downloads")@.len()); }
            if i == 9 { assert(("Google Drive")@.len() != ("Downloads")@.len()); }
            if i == 10 { assert(("Modal")@.len() != ("Downloads")@.len()); }
            if i == 11 { assert(("Movies")@.len() != ("Downloads")@.len()); }
            if i == 12 { assert(("Music")@.len() != ("Downloads")@.len()); }
            if i == 13 { assert(("Pictures")@.len() != ("Downloads")@.len()); }
            if i == 14 { assert(("Public")@.len() != ("Downloads")@.len()); }
            if i == 15 { assert(("Rust")@.len() != ("Downloads")@.len()); }
        }
        if j == 4 {
            assert(l == ("Movies")@);
            if i == 0 { assert(("AndroidStudioProjects")@.len() != ("Movies")@.len()); }
            if i == 1 { assert(("Applications")@.len() != ("Movies")@.len()); }
            if i == 2 { assert(("CloudDrive")@.len() != ("Movies")@.len()); }
            if i == 3 { assert(("Code")@.len() != ("Movies")@.len()); }
            if i == 4 { assert(("Desktop")@.len() != ("Movies")@.len()); }
            if i == 5 { assert(("Documents")@.len() != ("Movies")@.len()); }
            if i == 6 { assert(("Downloads")@.len() != ("Movies")@.len()); }
            if i == 7 { assert(("Dropbox")@.len() != ("Movies")@.len()); }
            if i == 8 { assert(("Github")@[0] != ("Movies")@[0]); }
            if i == 9 { assert(("Google Drive")@.len() != ("Movies")@.len()); }
            if i == 10 { assert(("Modal")@.len() != ("Movies")@.len()); }
            if i == 12 { assert(("Music")@.len() != ("Movies")@.len()); }
            if i == 13 { assert(("Pictures")@.len() != ("Movies")@.len()); }
            if i == 14 { assert(("Public")@[0] != ("Movies")@[0]); }
            if i == 15 { assert(("Rust")@.len() != ("Movies")@.len()); }
        }
        if j == 5 {
            assert(l == ("Music")@);
            if i == 0 { assert(("AndroidStudioProjects")@.len() != ("Music")@.len()); }
            if i == 1 { assert(("Applications")@.len() != ("Music")@.len()); }
            if i == 2 { assert(("CloudDrive")@.len() != ("Music")@.len()); }
            if i == 3 { assert(("Code")@.len() != ("Music")@.len()); }
            if i == 4 { assert(("Desktop")@.len() != ("Music")@.len()); }
            if i == 5 { assert(("Documents")@.len() != ("Music")@.len()); }
            if i == 6 { assert(("Downloads")@.len() != ("Music")@.len()); }
            if i == 7 { assert(("Dropbox")@.len() != ("Music")@.len()); }
            if i == 8 { assert(("Github")@.len() != ("Music")@.len()); }
            if i == 9 { assert(("Google Drive")@.len() != ("Music")@.len()); }
            if i == 10 { assert(("Modal")@[1] != ("Music")@[1]); }
            if i == 11 { assert(("Movies")@.len() != ("Music")@.len()); }
            if i == 13 { assert(("Pictures")@.len() != ("Music")@.len()); }
            if i == 14 { assert(("Public")@.len() != ("Music")@.len()); }
            if i == 15 { assert(("Rust")@.len() != ("Music")@.len()); }
        }
        if j == 6 {
            assert(l == ("Pictures")@);
            if i == 0 { assert(("AndroidStudioProjects")@.len() != ("Pictures")@.len()); }
            if i == 1 { assert(("Applications")@.len() != ("Pictures")@.len()); }
            if i == 2 { assert(("CloudDrive")@.len() != ("Pictures")@.len()); }
            if i == 3 { assert(("Code")@.len() != ("Pictures")@.len()); }
            if i == 4 { assert(("Desktop")@.len() != ("Pictures")@.len()); }
            if i == 5 { assert(("Documents")@.len() != ("Pictures")@.len()); }
            if i == 6 { assert(("Downloads")@.len() != ("Pictures")@.len()); }
            if i == 7 { assert(("Dropbox")@.len() != ("Pictures")@.len()); }
            if i == 8 { assert(("Github")@.len() != ("Pictures")@.len()); }
            if i == 9 { assert(("Google Drive")@.len() != ("Pictures")@.len()); }
            if i == 10 { assert(("Modal")@.len() != ("Pictures")@.len()); }
            if i == 11 { assert(("Movies")@.len() != ("Pictures")@.len()); }
            if i == 12 { assert(("Music")@.len() != ("Pictures")@.len()); }
            if i == 14 { assert(("Public")@.len() != ("Pictures")@.len()); }
            if i == 15 { assert(("Rust")@.len() != ("Pictures")@.len()); }
        }
    }
}

/// Each grid folder, with the symbol embossed on it.
pub proof fn lemma_folder_glyphs()
    ensures
        folder_table().len() == 16,
        folder_table()[0].label == "AndroidStudioProjects" && folder_table()[0].glyph is None,
        folder_table()[1].label == "Applications" && folder_table()[1].glyph == Some(Glyph::AppWindow),
        folder_table()[2].label == "CloudDrive" && folder_table()[2].glyph is None,
        folder_table()[3].label == "Code" && folder_table()[3].glyph is None,
        folder_table()[4].label == "Desktop" && folder_table()[4].glyph == Some(Glyph::Monitor),
        folder_table()[5].label == "Documents" && folder_table()[5].glyph == Some(Glyph::FileText),
        folder_table()[6].label == "Downloads" && folder_table()[6].glyph == Some(Glyph::CircleArrowDown),
        folder_table()[7].label == "Dropbox" && folder_table()[7].glyph == Some(Glyph::Cloud),
        folder_table()[8].label == "Github" && folder_table()[8].glyph is None,
        folder_table()[9].label == "Google Drive" && folder_table()[9].glyph is None,
        folder_table()[10].label == "Modal" && folder_table()[10].glyph is None,
        folder_table()[11].label == "Movies" && folder_table()[11].glyph == Some(Glyph::Film),
        folder_table()[12].label == "Music" && folder_table()[12].glyph == Some(Glyph::Music),
        folder_table()[13].label == "Pictures" && folder_table()[13].glyph == Some(Glyph::Image),
        folder_table()[14].label == "Public" && folder_table()[14].glyph is None,
        folder_table()[15].label == "Rust" && folder_table()[15].glyph is None,
{
}

/// Each list row, field by field, and the line under each grid folder.
pub proof fn lemma_list_rows()
    ensures
        row_table().len() == 16,
        row_table()[0] == (ListRow { label: "AndroidStudioProjects", modified: "Feb 13, 2026 at 3:41 PM", size: "--", kind: "Folder", red: false, alias: false, tagged: false, selected: true }),
        row_table()[1] == (ListRow { label: "Applications", modified: "Apr 16, 2026 at 11:49 PM", size: "--", kind: "Folder", red: false, alias: false, tagged: false, selected: false }),
        row_table()[2] == (ListRow { label: "CloudDrive", modified: "Mar 21, 2026 at 11:38 AM", size: "--", kind: "Folder", red: false, alias: false, tagged: false, selected: false }),
        row_table()[3] == (ListRow { label: "Code", modified: "Jan 14, 2026 at 12:08 AM", size: "--", kind: "Folder", red: false, alias: false, tagged: false, selected: false }),
        row_table()[4] == (ListRow { label: "Desktop", modified: "Jul 27, 2026 at 11:21 PM", size: "--", kind: "Folder", red: false, alias: false, tagged: false, selected: false }),
        row_table()[5] == (ListRow { label: "Documents", modified: "Jul 27, 2026 at 11:20 PM", size: "--", kind: "Folder", red: false, alias: false, tagged: false, selected: false }),
        row_table()[6] == (ListRow { label: "Downloads", modified: "Yesterday at 10:18 PM", size: "--", kind: "Folder", red: false, alias: false, tagged: false, selected: false }),
        row_table()[7] == (ListRow { label: "Dropbox", modified: "Jan 11, 2026 at 12:22 AM", size: "42 bytes", kind: "Alias", red: false, alias: true, tagged: false, selected: false }),
        row_table()[8] == (ListRow { label: "Github", modified: "Feb 26, 2026 at 12:34 AM", size: "--", kind: "Folder", red: false, alias: false, tagged: false, selected: false }),
        row_table()[9] == (ListRow { label: "Google Drive", modified: "Yesterday at 10:11 AM", size: "66 bytes", kind: "Alias", red: false, alias: true, tagged: false, selected: false }),
        row_table()[10] == (ListRow { label: "Modal", modified: "Apr 21, 2025 at 12:36 AM", size: "--", kind: "Folder", red: false, alias: false, tagged: false, selected: false }),
        row_table()[11] == (ListRow { label: "Movies", modified: "Jun 8, 2025 at 8:47 PM", size: "--", kind: "Folder", red: false, alias: false, tagged: false, selected: false }),
        row_table()[12] == (ListRow { label: "Music", modified: "Jan 11, 2026 at 12:17 PM", size: "--", kind: "Folder", red: false, alias: false, tagged: false, selected: false }),
        row_table()[13] == (ListRow { label: "Pictures", modified: "Jan 12, 2026 at 11:53 PM", size: "--", kind: "Folder", red: false, alias: false, tagged: false, selected: false }),
        row_table()[14] == (ListRow { label: "Public", modified: "Mar 1, 2025 at 2:12 PM", size: "--", kind: "Folder", red: false, alias: false, tagged: false, selected: false }),
        row_table()[15] == (ListRow { label: "Rust", modified: "Jun 4, 2025 at 7:05 PM", size: "--", kind: "Folder", red: true, alias: false, tagged: true, selected: false }),
        folder_table()[0].count == "5 items",
        folder_table()[1].count == "1 item",
        folder_table()[2].count == "5 items",
        folder_table()[3].count == "6 items",
        folder_table()[4].count == "No items",
        folder_table()[5].count == "9 items",
        folder_table()[6].count == "14 items",
        folder_table()[7].count == "4 items",
        folder_table()[8].count == "4 items",
        folder_table()[9].count == "5 items",
        folder_table()[10].count == "5 items",
        folder_table()[11].count == "7 items",
        folder_table()[12].count == "5 items",
        folder_table()[13].count == "10 items",
        folder_table()[14].count == "1 item",
        folder_table()[15].count == "7 items",
{
}

/// The sidebar, entry by entry.
pub proof fn lemma_sidebar_entries()
    ensures
        sidebar_table().len() == 20,
        sidebar_table()[0] == (SidebarEntry::Section("Favorites")),
        sidebar_table()[1] == (SidebarEntry::Item { id: "applications", label: "Applications", glyph: Glyph::AppWindow, selected: false }),
        sidebar_table()[2] == (SidebarEntry::Item { id: "desktop", label: "Desktop", glyph: Glyph::Monitor, selected: false }),
        sidebar_table()[3] == (SidebarEntry::Item { id: "documents", label: "Documents", glyph: Glyph::FileText, selected: false }),
        sidebar_table()[4] == (SidebarEntry::Item { id: "downloads", label: "Downloads", glyph: Glyph::CircleArrowDown, selected: false }),
        sidebar_table()[5] == (SidebarEntry::Item { id: "movies", label: "Movies", glyph: Glyph::Film, selected: false }),
        sidebar_table()[6] == (SidebarEntry::Item { id: "music", label: "Music", glyph: Glyph::Music, selected: false }),
        sidebar_table()[7] == (SidebarEntry::Item { id: "pictures", label: "Pictures", glyph: Glyph::Image, selected: false }),
        sidebar_table()[8] == (SidebarEntry::Section("Locations")),
        sidebar_table()[9] == (SidebarEntry::Item { id: "icloud", label: "iCloud Drive", glyph: Glyph::Cloud, selected: false }),
        sidebar_table()[10] == (SidebarEntry::Item { id: "dropbox", label: "Dropbox", glyph: Glyph::Box, selected: false }),
        sidebar_table()[11] == (SidebarEntry::Item { id: "home", label: "cradiy", glyph: Glyph::House, selected: true }),
        sidebar_table()[12] == (SidebarEntry::Item { id: "macbook", label: "cradiy's MacBook Air", glyph: Glyph::Laptop, selected: false }),
        sidebar_table()[13] == (SidebarEntry::Item { id: "airdrop", label: "AirDrop", glyph: Glyph::Airplay, selected: false }),
        sidebar_table()[14] == (SidebarEntry::Item { id: "trash", label: "Trash", glyph: Glyph::Trash2, selected: false }),
        sidebar_table()[15] == (SidebarEntry::Section("Tags")),
        sidebar_table()[16] == (SidebarEntry::Tag { id: "tag-code", label: "Code", color: 0x0a84ff, outlined: false }),
        sidebar_table()[17] == (SidebarEntry::Tag { id: "tag-work", label: "Work", color: 0x000000, outlined: true }),
        sidebar_table()[18] == (SidebarEntry::Tag { id: "tag-important", label: "Important", color: 0x00d85a, outlined: false }),
        sidebar_table()[19] == (SidebarEntry::Tag { id: "tag-all", label: "All Tags...", color: 0x000000, outlined: true }),
{
}

/// The sidebar has three headed sections, Favorites, Locations and Tags; the
/// home location is its one selected entry; tags stand only in the Tags
/// section, and a tag is drawn as a ring exactly when it has no color.
pub proof fn lemma_sidebar_shape()
    ensures
        forall|i: int| 0 <= i < sidebar_table().len() ==> ((#[trigger] sidebar_table()[i]) is Section
            <==> i == 0 || i == 8 || i == 15),
        forall|i: int| 0 <= i < sidebar_table().len() ==> ((#[trigger] sidebar_table()[i]) is Tag <==> i > 15),
        forall|i: int| 0 <= i < sidebar_table().len() ==> match #[trigger] sidebar_table()[i] {
            SidebarEntry::Item { id, selected, .. } => selected <==> id == "home",
            SidebarEntry::Tag { color, outlined, .. } => outlined <==> color == 0,
            SidebarEntry::Section(_) => true,
        },
        forall|i: int| 0 <= i < sidebar_table().len() ==> match #[trigger] sidebar_table()[i] {
            SidebarEntry::Item { selected, .. } => selected ==> i == 11,
            _ => true,
        },
{
}

/// The toolbar groups have distinct ids, each ending in "-controls".
pub proof fn lemma_group_ids()
    ensures
        forall|a: ToolbarGroup, b: ToolbarGroup| a != b ==> (#[trigger] group_id(a))@ != (#[trigger] group_id(b))@,
        forall|g: ToolbarGroup| (#[trigger] group_id(g))@.len() > 9
            && group_id(g)@.subrange(group_id(g)@.len() - 9, group_id(g)@.len() as int) == ("-controls")@,
{
    reveal_strlit("history-controls");
    reveal_strlit("view-controls");
    reveal_strlit("sort-controls");
    reveal_strlit("file-controls");
    reveal_strlit("-controls");
    assert(("history-controls")@[0] != ("view-controls")@[0]);
    assert(("history-controls")@[0] != ("sort-controls")@[0]);
    assert(("history-controls")@[0] != ("file-controls")@[0]);
    assert(("view-controls")@[0] != ("sort-controls")@[0]);
    assert(("view-controls")@[0] != ("file-controls")@[0]);
    assert(("sort-controls")@[0] != ("file-controls")@[0]);
    assert(("history-controls")@.subrange(7, 16) =~= ("-controls")@);
    assert(("view-controls")@.subrange(4, 13) =~= ("-controls")@);
    assert(("sort-controls")@.subrange(4, 13) =~= ("-controls")@);
    assert(("file-controls")@.subrange(4, 13) =~= ("-controls")@);
}

} // verus!
