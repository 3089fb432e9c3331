use macos26_sidebar::catalog::{
    context_menu_entries, grid_folders, list_rows, sidebar_entries, toolbar_buttons,
    toolbar_group_id, Glyph, MenuEntry, SidebarEntry, ToolbarGroup,
};
use macos26_sidebar::layout::{content_plan, list_slots, trailing_controls, TrailingControl, FILLER_ROWS};
use macos26_sidebar::state::{Macos26Sidebar, ViewMode};
use macos26_sidebar::style::{empty_row_background, list_row_background, RED_TINT};

#[test]
fn grid_lists_sixteen_folders_with_one_red() {
    let folders = grid_folders();
    assert_eq!(folders.len(), 16);
    assert_eq!(folders[0].label, "AndroidStudioProjects");
    assert_eq!(folders[0].count, "5 items");
    assert_eq!(folders[1].glyph, Some(Glyph::AppWindow));
    assert_eq!(folders[4].count, "No items");
    assert_eq!(folders[6].count, "14 items");
    let red: Vec<_> = folders.iter().filter(|f| f.tint == RED_TINT).collect();
    assert_eq!(red.len(), 1);
    assert_eq!(red[0].label, "Rust");
}

#[test]
fn list_rows_match_grid_folders() {
    let rows = list_rows();
    let folders = grid_folders();
    assert_eq!(rows.len(), folders.len());
    for (r, f) in rows.iter().zip(folders.iter()) {
        assert_eq!(r.label, f.label);
        assert_eq!(r.red, f.tint == RED_TINT);
    }
    assert!(rows[0].selected);
    assert_eq!(rows.iter().filter(|r| r.selected).count(), 1);
    assert!(rows[7].alias && rows[9].alias);
    assert_eq!(rows[7].size, "42 bytes");
    assert_eq!(rows[9].kind, "Alias");
    assert!(rows[15].tagged && rows[15].red);
    assert_eq!(rows[15].modified, "Jun 4, 2025 at 7:05 PM");
}

#[test]
fn list_slots_put_fillers_after_rows() {
    let slots = list_slots();
    assert_eq!(FILLER_ROWS, 18);
    assert_eq!(slots.len(), 16 + 18);
    for (i, slot) in slots.iter().enumerate() {
        assert_eq!(slot.index, i);
        assert_eq!(slot.row.is_some(), i < 16);
    }
    assert_eq!(slots[16].index, 16);
    assert_eq!(empty_row_background(slots[16].index), list_row_background(16, false));
    assert_eq!(empty_row_background(slots[17].index), list_row_background(15, false));
}

#[test]
fn wide_toolbar_has_search_and_no_overflow() {
    let c = trailing_controls(false);
    assert_eq!(
        c,
        vec![
            TrailingControl::Group(ToolbarGroup::View),
            TrailingControl::Group(ToolbarGroup::Sort),
            TrailingControl::Group(ToolbarGroup::File),
            TrailingControl::SearchField,
        ]
    );
}

#[test]
fn compact_toolbar_has_overflow_only() {
    let c = trailing_controls(true);
    assert_eq!(c, vec![TrailingControl::Group(ToolbarGroup::View), TrailingControl::CompactMore]);
}

#[test]
fn toolbar_groups() {
    assert_eq!(toolbar_group_id(ToolbarGroup::History), "history-controls");
    assert_eq!(toolbar_group_id(ToolbarGroup::File), "file-controls");
    let view = toolbar_buttons(ToolbarGroup::View);
    assert_eq!(view.len(), 3);
    assert_eq!(view[0].selects, Some(ViewMode::Grid));
    assert_eq!(view[1].selects, Some(ViewMode::List));
    assert_eq!(view[2].selects, None);
    let file = toolbar_buttons(ToolbarGroup::File);
    let ids: Vec<&str> = file.iter().map(|b| b.id).collect();
    assert_eq!(ids, vec!["new-folder", "delete", "more"]);
    assert_eq!(toolbar_buttons(ToolbarGroup::History)[0].glyph, Glyph::ChevronLeft);
    assert_eq!(toolbar_buttons(ToolbarGroup::Sort).len(), 1);
}

#[test]
fn plan_follows_state() {
    let mut s: Macos26Sidebar<(i32, i32)> = Macos26Sidebar::new();
    let p = content_plan(&s);
    assert_eq!(p.view, ViewMode::Grid);
    assert!(p.grid_active && !p.list_active);
    assert_eq!(p.context_menu, None);
    s.select_view(ViewMode::List);
    s.open_context_menu((12, 34));
    let p = content_plan(&s);
    assert_eq!(p.view, ViewMode::List);
    assert!(!p.grid_active && p.list_active);
    assert_eq!(p.context_menu, Some((12, 34)));
}

#[test]
fn sidebar_has_three_sections_and_home_selected() {
    let entries = sidebar_entries();
    assert_eq!(entries.len(), 20);
    let sections: Vec<&str> = entries
        .iter()
        .filter_map(|e| match e {
            SidebarEntry::Section(s) => Some(*s),
            _ => None,
        })
        .collect();
    assert_eq!(sections, vec!["Favorites", "Locations", "Tags"]);
    let selected: Vec<&str> = entries
        .iter()
        .filter_map(|e| match e {
            SidebarEntry::Item { id, selected: true, .. } => Some(*id),
            _ => None,
        })
        .collect();
    assert_eq!(selected, vec!["home"]);
    match entries[17] {
        SidebarEntry::Tag { label, outlined, color, .. } => {
            assert_eq!(label, "Work");
            assert!(outlined);
            assert_eq!(color, 0);
        }
        _ => panic!("expected a tag"),
    }
}

#[test]
fn context_menu_has_two_separators_and_one_danger() {
    let entries = context_menu_entries();
    assert_eq!(entries.len(), 9);
    assert!(matches!(entries[2], MenuEntry::Separator));
    assert!(matches!(entries[6], MenuEntry::Separator));
    let danger: Vec<&str> = entries
        .iter()
        .filter_map(|e| match e {
            MenuEntry::Item { label, danger: true, .. } => Some(*label),
            _ => None,
        })
        .collect();
    assert_eq!(danger, vec!["Move to Trash"]);
    match entries[0] {
        MenuEntry::Item { id, shortcut, glyph, .. } => {
            assert_eq!(id, "menu-open");
            assert_eq!(shortcut, "\u{2318}O");
            assert_eq!(glyph, Glyph::FolderOpen);
        }
        _ => panic!("expected an item"),
    }
}
