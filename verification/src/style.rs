use vstd::prelude::*;

verus! {

/// A color as the window writes it: 24-bit `0xRRGGBB`, or 32-bit
/// `0xRRGGBBAA` with alpha.
#[derive(Clone, Copy, Debug, PartialEq, Eq, Structural)]
pub enum Color {
    Rgb(u32),
    Rgba(u32),
}

/// The font weights that the window's labels use.
#[derive(Clone, Copy, Debug, PartialEq, Eq, Structural)]
pub enum Weight {
    Normal,
    Medium,
    Semibold,
}

/// The tint that marks a folder as red; every other tint draws a blue folder.
pub const RED_TINT: u32 = 0xef334c;

/// The colors of a large folder icon.
#[derive(Clone, Copy, Debug, PartialEq, Eq, Structural)]
pub struct FolderPalette {
    pub tab: Color,
    pub back: Color,
    pub face_top: Color,
    pub face_bottom: Color,
    pub edge: Color,
    pub glyph: Color,
}

pub open spec fn red_folder_palette() -> FolderPalette {
    FolderPalette {
        tab: Color::Rgb(0xff435c),
        back: Color::Rgb(0xc91e37),
        face_top: Color::Rgb(0xff425a),
        face_bottom: Color::Rgb(0xe51f3c),
        edge: Color::Rgba(0xff8796a8),
        glyph: Color::Rgba(0x8e10286e),
    }
}

pub open spec fn blue_folder_palette() -> FolderPalette {
    FolderPalette {
        tab: Color::Rgb(0x55caed),
        back: Color::Rgb(0x168bbf),
        face_top: Color::Rgb(0x62d5f2),
        face_bottom: Color::Rgb(0x269fd5),
        edge: Color::Rgba(0xa1e9f8b8),
        glyph: Color::Rgba(0x0c719c82),
    }
}

/// The palette of the large folder icon for `tint`: only the red tint gives a
/// red folder, every other tint a blue one.
pub open spec fn palette_for_tint(tint: u32) -> FolderPalette {
    if tint == RED_TINT {
        red_folder_palette()
    } else {
        blue_folder_palette()
    }
}

/// The colors of the large folder icon drawn for `tint`.
pub fn folder_palette(tint: u32) -> (p: FolderPalette)
    ensures
        tint == RED_TINT ==> reddish(p.tab) && reddish(p.back) && reddish(p.face_top)
            && reddish(p.face_bottom) && reddish(p.edge) && reddish(p.glyph),
        tint != RED_TINT ==> bluish(p.tab) && bluish(p.back) && bluish(p.face_top)
            && bluish(p.face_bottom) && bluish(p.edge) && bluish(p.glyph),
        p == palette_for_tint(tint),
{
    let red = tint == RED_TINT;
    FolderPalette {
        tab: Color::Rgb(if red { 0xff435c } else { 0x55caed }),
        back: Color::Rgb(if red { 0xc91e37 } else { 0x168bbf }),
        face_top: Color::Rgb(if red { 0xff425a } else { 0x62d5f2 }),
        face_bottom: Color::Rgb(if red { 0xe51f3c } else { 0x269fd5 }),
        edge: Color::Rgba(if red { 0xff8796a8 } else { 0xa1e9f8b8 }),
        glyph: Color::Rgba(if red { 0x8e10286e } else { 0x0c719c82 }),
    }
}

/// The colors of the small folder icon in a list row.
#[derive(Clone, Copy, Debug, PartialEq, Eq, Structural)]
pub struct MiniFolderPalette {
    pub tab: Color,
    pub back: Color,
    pub face: Color,
}

pub open spec fn red_mini_folder_palette() -> MiniFolderPalette {
    MiniFolderPalette { tab: Color::Rgb(0xff425a), back: Color::Rgb(0xc91e37), face: Color::Rgb(0xee2945) }
}

pub open spec fn blue_mini_folder_palette() -> MiniFolderPalette {
    MiniFolderPalette { tab: Color::Rgb(0x58cef0), back: Color::Rgb(0x168dbf), face: Color::Rgb(0x35addb) }
}

/// The colors of the small folder icon, red or blue.
pub fn mini_folder_palette(red: bool) -> (p: MiniFolderPalette)
    ensures
        red ==> reddish(p.tab) && reddish(p.back) && reddish(p.face),
        !red ==> bluish(p.tab) && bluish(p.back) && bluish(p.face),
        p == (if red { red_mini_folder_palette() } else { blue_mini_folder_palette() }),
{
    MiniFolderPalette {
        tab: Color::Rgb(if red { 0xff425a } else { 0x58cef0 }),
        back: Color::Rgb(if red { 0xc91e37 } else { 0x168dbf }),
        face: Color::Rgb(if red { 0xee2945 } else { 0x35addb }),
    }
}

/// The background of every other row of the list.
pub open spec fn stripe_color() -> Color {
    Color::Rgba(0xffffff08)
}

/// The background of the selected row of the list.
pub open spec fn selected_row_color() -> Color {
    Color::Rgba(0x4a4b586e)
}

/// The background of the list row at `index`: the selection color when the
/// row is selected, otherwise the stripe on odd rows and nothing on even rows.
pub open spec fn row_background(index: int, selected: bool) -> Option<Color> {
    if selected {
        Some(selected_row_color())
    } else if index % 2 == 1 {
        Some(stripe_color())
    } else {
        None
    }
}

/// The background of the list row at `index`.
pub fn list_row_background(index: usize, selected: bool) -> (c: Option<Color>)
    ensures
        selected ==> c == Some(Color::Rgba(0x4a4b586e)),
        !selected && index % 2 == 1 ==> c == Some(Color::Rgba(0xffffff08)),
        !selected && index % 2 == 0 ==> c is None,
        c == row_background(index as int, selected),
{
    let mut background: Option<Color> = None;
    if index % 2 == 1 {
        background = Some(Color::Rgba(0xffffff08));
    }
    if selected {
        background = Some(Color::Rgba(0x4a4b586e));
    }
    background
}

/// The background of an empty filler row at `index`: striped like an
/// unselected row.
pub fn empty_row_background(index: usize) -> (c: Option<Color>)
    ensures
        index % 2 == 1 ==> c == Some(Color::Rgba(0xffffff08)),
        index % 2 == 0 ==> c is None,
        c == row_background(index as int, false),
{
    if index % 2 == 1 {
        Some(Color::Rgba(0xffffff08))
    } else {
        None
    }
}

/// The background shared by hovered buttons and rows.
pub open spec fn hover_color() -> Color {
    Color::Rgba(0xffffff14)
}

/// How a sidebar entry is drawn.
#[derive(Clone, Copy, Debug, PartialEq, Eq, Structural)]
pub struct ItemStyle {
    pub weight: Weight,
    pub background: Option<Color>,
    pub hover_background: Option<Color>,
}

/// A selected sidebar entry is semibold on a fixed highlight; another one is
/// medium weight and lights up on hover.
pub fn sidebar_item_style(selected: bool) -> (s: ItemStyle)
    ensures
        selected ==> s.weight == Weight::Semibold && s.background is Some && s.hover_background is None,
        !selected ==> s.weight == Weight::Medium && s.background is None
            && s.hover_background == Some(Color::Rgba(0xffffff14)),
        s == (if selected {
            ItemStyle {
                weight: Weight::Semibold,
                background: Some(Color::Rgba(0x3a39488f)),
                hover_background: None,
            }
        } else {
            ItemStyle { weight: Weight::Medium, background: None, hover_background: Some(hover_color()) }
        }),
{
    if selected {
        ItemStyle {
            weight: Weight::Semibold,
            background: Some(Color::Rgba(0x3a39488f)),
            hover_background: None,
        }
    } else {
        ItemStyle {
            weight: Weight::Medium,
            background: None,
            hover_background: Some(Color::Rgba(0xffffff14)),
        }
    }
}

/// The dot in front of a tag: a ring or a filled circle.
#[derive(Clone, Copy, Debug, PartialEq, Eq, Structural)]
pub enum TagDot {
    Ring(Color),
    Filled(Color),
}

/// An outlined tag has a light ring; another one is filled with its color.
pub fn tag_dot(color: u32, outlined: bool) -> (d: TagDot)
    ensures
        !outlined ==> d == TagDot::Filled(Color::Rgb(color)),
        outlined ==> d is Ring && red_of(d->Ring_0) >= 0xf0 && green_of(d->Ring_0) >= 0xf0
            && blue_of(d->Ring_0) >= 0xf0,
        d == (if outlined { TagDot::Ring(Color::Rgba(0xf5f3f9db)) } else { TagDot::Filled(Color::Rgb(color)) }),
{
    if outlined {
        TagDot::Ring(Color::Rgba(0xf5f3f9db))
    } else {
        TagDot::Filled(Color::Rgb(color))
    }
}

/// How a view toolbar button is drawn.
#[derive(Clone, Copy, Debug, PartialEq, Eq, Structural)]
pub struct ButtonStyle {
    pub background: Option<Color>,
    pub border: Option<Color>,
    pub hover_background: Option<Color>,
}

/// The button of the active view mode sits on a bordered plate; the other
/// one lights up on hover.
pub fn view_button_style(active: bool) -> (s: ButtonStyle)
    ensures
        active ==> s.background is Some && s.border is Some && s.hover_background is None,
        !active ==> s.background is None && s.border is None
            && s.hover_background == Some(Color::Rgba(0xffffff14)),
        s == (if active {
            ButtonStyle {
                background: Some(Color::Rgba(0x55566675)),
                border: Some(Color::Rgba(0xffffff12)),
                hover_background: None,
            }
        } else {
            ButtonStyle { background: None, border: None, hover_background: Some(hover_color()) }
        }),
{
    if active {
        ButtonStyle {
            background: Some(Color::Rgba(0x55566675)),
            border: Some(Color::Rgba(0xffffff12)),
            hover_background: None,
        }
    } else {
        ButtonStyle { background: None, border: None, hover_background: Some(Color::Rgba(0xffffff14)) }
    }
}

/// The colors of a context menu entry.
#[derive(Clone, Copy, Debug, PartialEq, Eq, Structural)]
pub struct MenuItemColors {
    pub text: Color,
    pub icon: Color,
}

/// A destructive entry is drawn in red, another one in near white.
pub fn menu_item_colors(danger: bool) -> (c: MenuItemColors)
    ensures
        danger ==> reddish(c.text) && reddish(c.icon),
        !danger ==> red_of(c.text) >= 0xe0 && green_of(c.text) >= 0xe0 && blue_of(c.text) >= 0xe0
            && red_of(c.icon) >= 0xe0 && green_of(c.icon) >= 0xe0 && blue_of(c.icon) >= 0xe0,
        c == (if danger {
            MenuItemColors { text: Color::Rgba(0xff6b73ef), icon: Color::Rgba(0xff7078ef) }
        } else {
            MenuItemColors { text: Color::Rgba(0xf5f2f8ed), icon: Color::Rgba(0xece8f2d6) }
        }),
{
    if danger {
        MenuItemColors { text: Color::Rgba(0xff6b73ef), icon: Color::Rgba(0xff7078ef) }
    } else {
        MenuItemColors { text: Color::Rgba(0xf5f2f8ed), icon: Color::Rgba(0xece8f2d6) }
    }
}

/// The list is striped: of two neighbouring unselected rows exactly one
/// carries the stripe, the pattern repeats every two rows, and a selected
/// row stands out from both of its neighbours.
pub proof fn lemma_rows_alternate(index: int)
    requires
        0 <= index,
    ensures
        row_background(index, false) != row_background(index + 1, false),
        row_background(index, false) == row_background(index + 2, false),
        row_background(index, true) != row_background(index + 1, false),
        index > 0 ==> row_background(index, true) != row_background(index - 1, false),
{
}

/// A red folder and a blue folder share no color, large or small.
pub proof fn lemma_folder_palettes_differ(tint: u32)
    ensures
        tint == RED_TINT <==> palette_for_tint(tint) == red_folder_palette(),
        red_folder_palette().tab != blue_folder_palette().tab,
        red_folder_palette().back != blue_folder_palette().back,
        red_folder_palette().face_top != blue_folder_palette().face_top,
        red_folder_palette().face_bottom != blue_folder_palette().face_bottom,
        red_folder_palette().edge != blue_folder_palette().edge,
        red_folder_palette().glyph != blue_folder_palette().glyph,
        red_mini_folder_palette().tab != blue_mini_folder_palette().tab,
        red_mini_folder_palette().back != blue_mini_folder_palette().back,
        red_mini_folder_palette().face != blue_mini_folder_palette().face,
{
}

/// The red channel of a color, `0..=255`.
pub open spec fn red_of(c: Color) -> int {
    match c {
        Color::Rgb(v) => (v / 0x10000) as int % 0x100,
        Color::Rgba(v) => (v / 0x1000000) as int % 0x100,
    }
}

/// The green channel of a color, `0..=255`.
pub open spec fn green_of(c: Color) -> int {
    match c {
        Color::Rgb(v) => (v / 0x100) as int % 0x100,
        Color::Rgba(v) => (v / 0x10000) as int % 0x100,
    }
}

/// The blue channel of a color, `0..=255`.
pub open spec fn blue_of(c: Color) -> int {
    match c {
        Color::Rgb(v) => v as int % 0x100,
        Color::Rgba(v) => (v / 0x100) as int % 0x100,
    }
}

/// The opacity of a color, `0..=255`; a color without alpha is opaque.
pub open spec fn alpha_of(c: Color) -> int {
    match c {
        Color::Rgb(_) => 255,
        Color::Rgba(v) => v as int % 0x100,
    }
}

/// The brightness of a color as the sum of its channels.
pub open spec fn lightness(c: Color) -> int {
    red_of(c) + green_of(c) + blue_of(c)
}

pub open spec fn reddish(c: Color) -> bool {
    red_of(c) > green_of(c) && red_of(c) > blue_of(c)
}

pub open spec fn bluish(c: Color) -> bool {
    blue_of(c) > red_of(c) && blue_of(c) > green_of(c)
}

/// A folder's colors are red for the red tint and blue for every other tint,
/// large icon and small; the tab and face of a folder are lighter than its
/// back, and the face runs from light at the top to dark at the bottom.
pub proof fn lemma_folder_colors(tint: u32)
    ensures
        ({
            let p = palette_for_tint(tint);
            &&& tint == RED_TINT ==> reddish(p.tab) && reddish(p.back) && reddish(p.face_top)
                && reddish(p.face_bottom) && reddish(p.edge) && reddish(p.glyph)
            &&& tint != RED_TINT ==> bluish(p.tab) && bluish(p.back) && bluish(p.face_top)
                && bluish(p.face_bottom) && bluish(p.edge) && bluish(p.glyph)
            &&& lightness(p.tab) > lightness(p.back)
            &&& lightness(p.face_top) > lightness(p.face_bottom)
            &&& alpha_of(p.tab) == 255 && alpha_of(p.back) == 255
            &&& alpha_of(p.face_top) == 255 && alpha_of(p.face_bottom) == 255
        }),
        reddish(red_mini_folder_palette().tab) && reddish(red_mini_folder_palette().back)
            && reddish(red_mini_folder_palette().face),
        bluish(blue_mini_folder_palette().tab) && bluish(blue_mini_folder_palette().back)
            && bluish(blue_mini_folder_palette().face),
        lightness(red_mini_folder_palette().tab) > lightness(red_mini_folder_palette().face)
            > lightness(red_mini_folder_palette().back),
        lightness(blue_mini_folder_palette().tab) > lightness(blue_mini_folder_palette().face)
            > lightness(blue_mini_folder_palette().back),
{
}

/// Stripes and hover are faint white overlays, the hover stronger than the
/// stripe, and the selection is far more opaque than either.
pub proof fn lemma_row_overlays()
    ensures
        red_of(stripe_color()) == 255 && green_of(stripe_color()) == 255 && blue_of(stripe_color()) == 255,
        red_of(hover_color()) == 255 && green_of(hover_color()) == 255 && blue_of(hover_color()) == 255,
        0 < alpha_of(stripe_color()) < alpha_of(hover_color()) < 0x20,
        alpha_of(selected_row_color()) > 4 * alpha_of(hover_color()),
{
}

} // verus!
