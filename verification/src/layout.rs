use vstd::prelude::*;

use crate::catalog::{row_table, list_rows, ListRow, ToolbarGroup};
use crate::state::{Macos26Sidebar, ViewMode};
use crate::style::row_background;

verus! {

/// What stands right of the title in the toolbar.
#[derive(Clone, Copy, Debug, PartialEq, Eq, Structural)]
pub enum TrailingControl {
    Group(ToolbarGroup),
    SearchField,
    CompactMore,
}

/// The trailing toolbar: the view group always; then, in a wide window, the
/// sort and file groups and the search field, and in a narrow one a single
/// overflow button.
pub open spec fn trailing_layout(compact: bool) -> Seq<TrailingControl> {
    if compact {
        seq![TrailingControl::Group(ToolbarGroup::View), TrailingControl::CompactMore]
    } else {
        seq![
            TrailingControl::Group(ToolbarGroup::View),
            TrailingControl::Group(ToolbarGroup::Sort),
            TrailingControl::Group(ToolbarGroup::File),
            TrailingControl::SearchField,
        ]
    }
}

/// The controls right of the title, for a narrow (`compact`) or wide window.
pub fn trailing_controls(compact: bool) -> (v: Vec<TrailingControl>)
    ensures
        v@ == trailing_layout(compact),
{
    let mut v: Vec<TrailingControl> = Vec::new();
    v.push(TrailingControl::Group(ToolbarGroup::View));
    if !compact {
        v.push(TrailingControl::Group(ToolbarGroup::Sort));
        v.push(TrailingControl::Group(ToolbarGroup::File));
        v.push(TrailingControl::SearchField);
    }
    if compact {
        v.push(TrailingControl::CompactMore);
    }
    v
}

/// The state-dependent part of the content area.
#[derive(Debug)]
pub struct ContentPlan<P> {
    /// Which listing fills the content area.
    pub view: ViewMode,
    /// Whether the grid button is drawn as active.
    pub grid_active: bool,
    /// Whether the list button is drawn as active.
    pub list_active: bool,
    /// Where the context menu stands, if it is drawn.
    pub context_menu: Option<P>,
}

/// What the content area draws for `state`.
pub open spec fn plan_for<P>(state: Macos26Sidebar<P>) -> ContentPlan<P> {
    ContentPlan {
        view: state.view_mode,
        grid_active: state.view_mode == ViewMode::Grid,
        list_active: state.view_mode == ViewMode::List,
        context_menu: state.context_menu_position,
    }
}

/// What the content area draws for `state`.
pub fn content_plan<P: Copy>(state: &Macos26Sidebar<P>) -> (plan: ContentPlan<P>)
    ensures
        plan == plan_for(*state),
        plan.view == state.view_mode,
        plan.grid_active == (state.view_mode == ViewMode::Grid),
        plan.list_active == (state.view_mode == ViewMode::List),
        plan.context_menu == state.context_menu_position,
{
    ContentPlan {
        view: state.view_mode,
        grid_active: state.view_mode == ViewMode::Grid,
        list_active: state.view_mode == ViewMode::List,
        context_menu: state.context_menu_position,
    }
}

/// The number of empty rows drawn under the rows of the list.
pub const FILLER_ROWS: usize = 18;

/// A line of the list view: its position from the top and the row drawn on
/// it, or none for an empty filler line.
#[derive(Clone, Copy, Debug)]
pub struct ListSlot {
    pub index: usize,
    pub row: Option<ListRow>,
}

/// The list view: the rows at positions `0..n`, then the filler lines at
/// positions `n..n + FILLER_ROWS`.
pub open spec fn slots_valid(slots: Seq<ListSlot>) -> bool {
    &&& slots.len() == row_table().len() + FILLER_ROWS
    &&& forall|i: int|
        0 <= i < slots.len() ==> (#[trigger] slots[i]).index == i && slots[i].row == (if i
            < row_table().len() {
            Some(row_table()[i])
        } else {
            None
        })
}

/// The background of a line of the list view.
pub open spec fn slot_background(slot: ListSlot) -> Option<crate::style::Color> {
    match slot.row {
        Some(r) => row_background(slot.index as int, r.selected),
        None => row_background(slot.index as int, false),
    }
}

/// The lines of the list view, rows first, then the empty filler lines.
pub fn list_slots() -> (v: Vec<ListSlot>)
    ensures
        slots_valid(v@),
{
    let rows = list_rows();
    let row_count = rows.len();
    let mut v: Vec<ListSlot> = Vec::new();
    let mut i: usize = 0;
    while i < row_count
        invariant
            rows@ == row_table(),
            row_count == rows@.len(),
            i <= row_count,
            v@.len() == i,
            forall|j: int| 0 <= j < i ==> (#[trigger] v@[j]).index == j && v@[j].row == Some(row_table()[j]),
        decreases row_count - i,
    {
        v.push(ListSlot { index: i, row: Some(rows[i]) });
        i = i + 1;
    }
    let mut k: usize = 0;
    while k < FILLER_ROWS
        invariant
            rows@ == row_table(),
            row_count == rows@.len(),
            k <= FILLER_ROWS,
            v@.len() == row_count + k,
            forall|j: int| 0 <= j < v@.len() ==> (#[trigger] v@[j]).index == j && v@[j].row == (if j
                < row_count {
                Some(row_table()[j])
            } else {
                None
            }),
        decreases FILLER_ROWS - k,
    {
        v.push(ListSlot { index: row_count + k, row: None });
        k = k + 1;
    }
    v
}

/// The content area shows the listing of the selected view mode, exactly one
/// view button is active, the one of that mode, and the context menu is drawn
/// exactly while it is open, where it stands.
pub proof fn lemma_plan_matches_state<P>(state: Macos26Sidebar<P>)
    ensures
        plan_for(state).view == state.view_mode,
        plan_for(state).grid_active == (state.view_mode == ViewMode::Grid),
        plan_for(state).list_active == (state.view_mode == ViewMode::List),
        plan_for(state).context_menu == state.context_menu_position,
        plan_for(state).grid_active != plan_for(state).list_active,
        plan_for(state).grid_active <==> plan_for(state).view == ViewMode::Grid,
        plan_for(state).list_active <==> plan_for(state).view == ViewMode::List,
        plan_for(state).context_menu is Some <==> state.context_menu_position is Some,
{
}

/// A narrow window shows the overflow button and no search field; a wide one
/// shows the search field and no overflow button; the view group is always
/// first.
pub proof fn lemma_compact_toolbar(compact: bool)
    ensures
        trailing_layout(compact)[0] == TrailingControl::Group(ToolbarGroup::View),
        compact ==> trailing_layout(compact).len() == 2,
        !compact ==> trailing_layout(compact).len() == 4
            && trailing_layout(compact)[1] == TrailingControl::Group(ToolbarGroup::Sort)
            && trailing_layout(compact)[2] == TrailingControl::Group(ToolbarGroup::File),
        trailing_layout(compact).contains(TrailingControl::CompactMore) == compact,
        trailing_layout(compact).contains(TrailingControl::SearchField) == !compact,
{
    if compact {
        assert(trailing_layout(compact)[1] == TrailingControl::CompactMore);
        assert(!trailing_layout(compact).contains(TrailingControl::SearchField)) by {
            if trailing_layout(compact).contains(TrailingControl::SearchField) {
                let j = choose|j: int| 0 <= j < trailing_layout(compact).len()
                    && trailing_layout(compact)[j] == TrailingControl::SearchField;
                assert(j == 0 || j == 1);
            }
        }
    } else {
        assert(trailing_layout(compact)[3] == TrailingControl::SearchField);
        assert(!trailing_layout(compact).contains(TrailingControl::CompactMore)) by {
            if trailing_layout(compact).contains(TrailingControl::CompactMore) {
                let j = choose|j: int| 0 <= j < trailing_layout(compact).len()
                    && trailing_layout(compact)[j] == TrailingControl::CompactMore;
                assert(0 <= j < 4);
            }
        }
    }
}

/// The stripes of the list run on through the filler lines: two
/// neighbouring lines that are not selected never share a background.
pub proof fn lemma_stripes_continue(slots: Seq<ListSlot>, i: int)
    requires
        slots_valid(slots),
        0 <= i,
        i + 1 < slots.len(),
        !(slots[i].row matches Some(r) && r.selected),
        !(slots[i + 1].row matches Some(r) && r.selected),
    ensures
        slot_background(slots[i]) != slot_background(slots[i + 1]),
{
    assert(slots[i].index == i);
    assert(slots[i + 1].index == i + 1);
}

/// The list view has sixteen rows followed by eighteen empty lines.
pub proof fn lemma_list_length(slots: Seq<ListSlot>)
    requires
        slots_valid(slots),
    ensures
        slots.len() == 34,
        forall|i: int| 0 <= i < slots.len() ==> ((#[trigger] slots[i]).row is Some <==> i < 16),
{
    assert(row_table().len() == 16);
}

} // verus!
