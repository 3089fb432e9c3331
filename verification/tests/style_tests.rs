use macos26_sidebar::style::{
    empty_row_background, folder_palette, list_row_background, menu_item_colors,
    mini_folder_palette, sidebar_item_style, tag_dot, view_button_style, Color, TagDot, Weight,
    RED_TINT,
};

#[test]
fn red_tint_gives_red_folder() {
    let p = folder_palette(RED_TINT);
    assert_eq!(p.tab, Color::Rgb(0xff435c));
    assert_eq!(p.back, Color::Rgb(0xc91e37));
    assert_eq!(p.face_top, Color::Rgb(0xff425a));
    assert_eq!(p.face_bottom, Color::Rgb(0xe51f3c));
    assert_eq!(p.edge, Color::Rgba(0xff8796a8));
    assert_eq!(p.glyph, Color::Rgba(0x8e10286e));
}

#[test]
fn other_tints_give_blue_folder() {
    for tint in [0x52c8ed, 0, 0xef334d, 0xffffff] {
        let p = folder_palette(tint);
        assert_eq!(p.tab, Color::Rgb(0x55caed));
        assert_eq!(p.back, Color::Rgb(0x168bbf));
        assert_eq!(p.face_top, Color::Rgb(0x62d5f2));
        assert_eq!(p.face_bottom, Color::Rgb(0x269fd5));
        assert_eq!(p.edge, Color::Rgba(0xa1e9f8b8));
        assert_eq!(p.glyph, Color::Rgba(0x0c719c82));
    }
}

#[test]
fn mini_folder_colors() {
    let red = mini_folder_palette(true);
    assert_eq!((red.tab, red.back, red.face), (Color::Rgb(0xff425a), Color::Rgb(0xc91e37), Color::Rgb(0xee2945)));
    let blue = mini_folder_palette(false);
    assert_eq!((blue.tab, blue.back, blue.face), (Color::Rgb(0x58cef0), Color::Rgb(0x168dbf), Color::Rgb(0x35addb)));
}

#[test]
fn rows_are_striped_and_selection_wins() {
    assert_eq!(list_row_background(0, false), None);
    assert_eq!(list_row_background(1, false), Some(Color::Rgba(0xffffff08)));
    assert_eq!(list_row_background(2, false), None);
    assert_eq!(list_row_background(15, false), Some(Color::Rgba(0xffffff08)));
    assert_eq!(list_row_background(0, true), Some(Color::Rgba(0x4a4b586e)));
    assert_eq!(list_row_background(1, true), Some(Color::Rgba(0x4a4b586e)));
}

#[test]
fn filler_rows_continue_the_stripes() {
    for i in 0..40usize {
        assert_eq!(empty_row_background(i), list_row_background(i, false));
        assert_ne!(empty_row_background(i), empty_row_background(i + 1));
    }
}

#[test]
fn sidebar_item_styles() {
    let sel = sidebar_item_style(true);
    assert_eq!(sel.weight, Weight::Semibold);
    assert_eq!(sel.background, Some(Color::Rgba(0x3a39488f)));
    assert_eq!(sel.hover_background, None);
    let plain = sidebar_item_style(false);
    assert_eq!(plain.weight, Weight::Medium);
    assert_eq!(plain.background, None);
    assert_eq!(plain.hover_background, Some(Color::Rgba(0xffffff14)));
}

#[test]
fn tag_dots() {
    assert_eq!(tag_dot(0x0a84ff, false), TagDot::Filled(Color::Rgb(0x0a84ff)));
    assert_eq!(tag_dot(0, true), TagDot::Ring(Color::Rgba(0xf5f3f9db)));
    assert_eq!(tag_dot(0x00d85a, true), TagDot::Ring(Color::Rgba(0xf5f3f9db)));
}

#[test]
fn view_button_styles() {
    let on = view_button_style(true);
    assert_eq!(on.background, Some(Color::Rgba(0x55566675)));
    assert_eq!(on.border, Some(Color::Rgba(0xffffff12)));
    assert_eq!(on.hover_background, None);
    let off = view_button_style(false);
    assert_eq!(off.background, None);
    assert_eq!(off.border, None);
    assert_eq!(off.hover_background, Some(Color::Rgba(0xffffff14)));
}

#[test]
fn menu_item_color_choice() {
    let danger = menu_item_colors(true);
    assert_eq!(danger.text, Color::Rgba(0xff6b73ef));
    assert_eq!(danger.icon, Color::Rgba(0xff7078ef));
    let plain = menu_item_colors(false);
    assert_eq!(plain.text, Color::Rgba(0xf5f2f8ed));
    assert_eq!(plain.icon, Color::Rgba(0xece8f2d6));
}
