use vstd::prelude::*;

verus! {

/// How the folder area lays out the folders of the current directory.
#[derive(Clone, Copy, Debug, PartialEq, Eq, Structural)]
pub enum ViewMode {
    Grid,
    List,
}

/// The state of the window that input changes: the active view mode and,
/// while the context menu is open, the point where it stands.
///
/// `P` is the type of a point on screen; the library only carries it.
pub struct Macos26Sidebar<P> {
    pub view_mode: ViewMode,
    pub context_menu_position: Option<P>,
}

/// An input that one of the window's listeners receives.
pub enum Event<P> {
    /// A click on the grid or list button of the view toolbar.
    ViewButtonClicked(ViewMode),
    /// A primary press on an entry of the context menu.
    MenuItemPressed,
    /// A secondary press in the content area; the payload is where the menu
    /// is to stand, already placed inside the window.
    ContentSecondaryPress(P),
    /// A primary press in the content area.
    ContentPrimaryPress,
    /// A primary press on the title bar strip with the traffic lights.
    TitleBarPrimaryPress,
}

/// What the window has to do after a listener ran.
#[derive(Clone, Copy, Debug, PartialEq, Eq, Structural)]
pub struct Reaction {
    /// The view must be rendered again.
    pub notify: bool,
    /// The event must not reach the listeners of enclosing elements.
    pub stop_propagation: bool,
    /// The platform must start moving the window with the pointer.
    pub start_window_move: bool,
}

pub open spec fn quiet() -> Reaction {
    Reaction { notify: false, stop_propagation: false, start_window_move: false }
}

pub open spec fn redraw() -> Reaction {
    Reaction { notify: true, stop_propagation: false, start_window_move: false }
}

/// The state after `event`.
pub open spec fn next_state<P>(s: Macos26Sidebar<P>, event: Event<P>) -> Macos26Sidebar<P> {
    match event {
        Event::ViewButtonClicked(mode) => Macos26Sidebar { view_mode: mode, ..s },
        Event::MenuItemPressed => Macos26Sidebar { context_menu_position: None, ..s },
        Event::ContentSecondaryPress(p) => Macos26Sidebar { context_menu_position: Some(p), ..s },
        Event::ContentPrimaryPress => Macos26Sidebar { context_menu_position: None, ..s },
        Event::TitleBarPrimaryPress => s,
    }
}

/// What the window does after `event` arrives in state `s`.
pub open spec fn reaction<P>(s: Macos26Sidebar<P>, event: Event<P>) -> Reaction {
    match event {
        Event::ViewButtonClicked(_) => redraw(),
        Event::MenuItemPressed => redraw(),
        Event::ContentSecondaryPress(_) => Reaction {
            notify: true,
            stop_propagation: true,
            start_window_move: false,
        },
        Event::ContentPrimaryPress => Reaction {
            notify: s.context_menu_position is Some,
            stop_propagation: false,
            start_window_move: false,
        },
        Event::TitleBarPrimaryPress => Reaction {
            notify: false,
            stop_propagation: false,
            start_window_move: true,
        },
    }
}

/// Whether the context menu is open.
pub open spec fn menu_open<P>(s: Macos26Sidebar<P>) -> bool {
    s.context_menu_position is Some
}

/// A view button switches to its mode and leaves the context menu as it was.
pub proof fn lemma_view_button_sets_mode<P>(s: Macos26Sidebar<P>, mode: ViewMode)
    ensures
        next_state(s, Event::ViewButtonClicked(mode)).view_mode == mode,
        next_state(s, Event::ViewButtonClicked(mode)).context_menu_position
            == s.context_menu_position,
        reaction(s, Event::<P>::ViewButtonClicked(mode)).notify,
{
}

/// Clicking the same view button twice has the effect of one click.
pub proof fn lemma_view_button_idempotent<P>(s: Macos26Sidebar<P>, mode: ViewMode)
    ensures
        next_state(next_state(s, Event::ViewButtonClicked(mode)), Event::ViewButtonClicked(mode))
            == next_state(s, Event::ViewButtonClicked(mode)),
{
}

/// Only a view button changes the view mode.
pub proof fn lemma_only_view_buttons_change_mode<P>(s: Macos26Sidebar<P>, event: Event<P>)
    requires
        !(event is ViewButtonClicked),
    ensures
        next_state(s, event).view_mode == s.view_mode,
{
}

/// A secondary press in the content area opens the menu where the press
/// asked for it, keeps the view mode, and keeps the press from reaching
/// enclosing elements.
pub proof fn lemma_secondary_press_opens_menu<P>(s: Macos26Sidebar<P>, position: P)
    ensures
        next_state(s, Event::ContentSecondaryPress(position)).context_menu_position
            == Some(position),
        next_state(s, Event::ContentSecondaryPress(position)).view_mode == s.view_mode,
        reaction(s, Event::ContentSecondaryPress(position)).notify,
        reaction(s, Event::ContentSecondaryPress(position)).stop_propagation,
{
}

/// A press on a menu entry or on the content area leaves the menu closed.
pub proof fn lemma_primary_presses_close_menu<P>(s: Macos26Sidebar<P>)
    ensures
        !menu_open(next_state(s, Event::MenuItemPressed)),
        !menu_open(next_state(s, Event::ContentPrimaryPress)),
{
}

/// A primary press in the content area redraws exactly when a menu was
/// open; with no menu open it changes nothing.
pub proof fn lemma_content_press_redraws_iff_menu_open<P>(s: Macos26Sidebar<P>)
    ensures
        reaction(s, Event::<P>::ContentPrimaryPress).notify == menu_open(s),
        !menu_open(s) ==> next_state(s, Event::ContentPrimaryPress) == s
            && reaction(s, Event::<P>::ContentPrimaryPress) == quiet(),
{
}

/// Opening the menu and then pressing the content area brings the window
/// back to its state before, with the menu closed.
pub proof fn lemma_open_then_dismiss<P>(s: Macos26Sidebar<P>, position: P)
    ensures
        next_state(next_state(s, Event::ContentSecondaryPress(position)), Event::ContentPrimaryPress)
            == (Macos26Sidebar { context_menu_position: None, ..s }),
        next_state(next_state(s, Event::ContentSecondaryPress(position)), Event::MenuItemPressed)
            == (Macos26Sidebar { context_menu_position: None, ..s }),
        reaction(next_state(s, Event::ContentSecondaryPress(position)), Event::<P>::ContentPrimaryPress).notify,
{
}

/// A press on the title bar only moves the window.
pub proof fn lemma_title_bar_moves_window<P>(s: Macos26Sidebar<P>)
    ensures
        next_state(s, Event::TitleBarPrimaryPress) == s,
        reaction(s, Event::<P>::TitleBarPrimaryPress)
            == (Reaction { notify: false, stop_propagation: false, start_window_move: true }),
{
}

/// Only a press on the title bar moves the window, and only a secondary press
/// in the content area keeps its event from enclosing elements, in every state.
pub proof fn lemma_reaction_flags<P>(s: Macos26Sidebar<P>, event: Event<P>)
    ensures
        reaction(s, event).start_window_move <==> event is TitleBarPrimaryPress,
        reaction(s, event).stop_propagation <==> event is ContentSecondaryPress,
        event is TitleBarPrimaryPress ==> !reaction(s, event).notify,
        event is ContentPrimaryPress ==> (reaction(s, event).notify <==> menu_open(s)),
        !(event is TitleBarPrimaryPress) && !(event is ContentPrimaryPress) ==> reaction(s, event).notify,
{
}

/// Every event that changes the state asks for the view to be rendered again.
pub proof fn lemma_change_implies_redraw<P>(s: Macos26Sidebar<P>, event: Event<P>)
    ensures
        next_state(s, event) != s ==> reaction(s, event).notify,
{
}

/// The state after `events`, in order, starting from `s`.
pub open spec fn run<P>(s: Macos26Sidebar<P>, events: Seq<Event<P>>) -> Macos26Sidebar<P>
    decreases events.len(),
{
    if events.len() == 0 {
        s
    } else {
        next_state(run(s, events.drop_last()), events.last())
    }
}

/// The mode of the last view button among `events`, or `start` if none was
/// clicked.
pub open spec fn last_selected_mode<P>(start: ViewMode, events: Seq<Event<P>>) -> ViewMode
    decreases events.len(),
{
    if events.len() == 0 {
        start
    } else {
        match events.last() {
            Event::ViewButtonClicked(mode) => mode,
            _ => last_selected_mode(start, events.drop_last()),
        }
    }
}

/// Where the menu stands after `events`: at the point of the last secondary
/// press if no primary press on the content or a menu entry came after it,
/// closed if one did, and as in `start` if no such event came at all.
pub open spec fn last_menu_position<P>(start: Option<P>, events: Seq<Event<P>>) -> Option<P>
    decreases events.len(),
{
    if events.len() == 0 {
        start
    } else {
        match events.last() {
            Event::ContentSecondaryPress(p) => Some(p),
            Event::ContentPrimaryPress => None,
            Event::MenuItemPressed => None,
            _ => last_menu_position(start, events.drop_last()),
        }
    }
}

/// Over any run of input, the view shows the mode of the last view button
/// clicked, and the menu stands where the last secondary press put it unless
/// a primary press closed it since.
pub proof fn lemma_run_follows_last_events<P>(s: Macos26Sidebar<P>, events: Seq<Event<P>>)
    ensures
        run(s, events).view_mode == last_selected_mode(s.view_mode, events),
        run(s, events).context_menu_position == last_menu_position(s.context_menu_position, events),
    decreases events.len(),
{
    if events.len() > 0 {
        lemma_run_follows_last_events(s, events.drop_last());
    }
}

impl<P> Macos26Sidebar<P> {
    /// The window as it opens: grid view, no context menu.
    pub fn new() -> (s: Self)
        ensures
            s.view_mode == ViewMode::Grid,
            s.context_menu_position is None,
    {
        Macos26Sidebar { view_mode: ViewMode::Grid, context_menu_position: None }
    }

    /// A click on a view toolbar button switches to its mode.
    pub fn select_view(&mut self, mode: ViewMode) -> (r: Reaction)
        ensures
            *final(self) == next_state(*old(self), Event::ViewButtonClicked(mode)),
            r == reaction(*old(self), Event::<P>::ViewButtonClicked(mode)),
    {
        self.view_mode = mode;
        Reaction { notify: true, stop_propagation: false, start_window_move: false }
    }

    /// A press on a context menu entry closes the menu.
    pub fn press_menu_item(&mut self) -> (r: Reaction)
        ensures
            *final(self) == next_state(*old(self), Event::MenuItemPressed),
            r == reaction(*old(self), Event::<P>::MenuItemPressed),
    {
        self.context_menu_position = None;
        Reaction { notify: true, stop_propagation: false, start_window_move: false }
    }

    /// A secondary press in the content area opens the menu at `position`.
    pub fn open_context_menu(&mut self, position: P) -> (r: Reaction)
        ensures
            *final(self) == next_state(*old(self), Event::ContentSecondaryPress(position)),
            r == reaction(*old(self), Event::ContentSecondaryPress(position)),
    {
        self.context_menu_position = Some(position);
        Reaction { notify: true, stop_propagation: true, start_window_move: false }
    }

    /// A primary press in the content area closes the menu; the view is
    /// rendered again only if the menu was open.
    pub fn press_content(&mut self) -> (r: Reaction)
        ensures
            *final(self) == next_state(*old(self), Event::ContentPrimaryPress),
            r == reaction(*old(self), Event::<P>::ContentPrimaryPress),
    {
        let was_open = self.context_menu_position.take().is_some();
        Reaction { notify: was_open, stop_propagation: false, start_window_move: false }
    }

    /// A primary press on the title bar strip moves the window.
    pub fn press_title_bar(&self) -> (r: Reaction)
        ensures
            r == reaction(*self, Event::<P>::TitleBarPrimaryPress),
    {
        Reaction { notify: false, stop_propagation: false, start_window_move: true }
    }

    /// Runs the listener that `event` is meant for.
    pub fn handle(&mut self, event: Event<P>) -> (r: Reaction)
        ensures
            *final(self) == next_state(*old(self), event),
            r == reaction(*old(self), event),
    {
        match event {
            Event::ViewButtonClicked(mode) => self.select_view(mode),
            Event::MenuItemPressed => self.press_menu_item(),
            Event::ContentSecondaryPress(p) => self.open_context_menu(p),
            Event::ContentPrimaryPress => self.press_content(),
            Event::TitleBarPrimaryPress => self.press_title_bar(),
        }
    }
}

} // verus!
