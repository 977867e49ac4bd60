use iota_rb::{
    cell_of, get_color, get_style, key_of_raw, translate_event, Cell, CharColor, CharStyle,
    DrawOp, EditorEvent, Frontend, HeadlessFrontend, Key, NativeColor, NativeStyle, RawEvent,
};

const ALL_COLORS: [CharColor; 11] = [
    CharColor::Blue,
    CharColor::Red,
    CharColor::Black,
    CharColor::Magenta,
    CharColor::Green,
    CharColor::Yellow,
    CharColor::White,
    CharColor::Cyan,
    CharColor::Orange,
    CharColor::Gray,
    CharColor::DarkGray,
];

#[test]
fn colors_map_to_distinct_backend_colors() {
    let mapped: Vec<NativeColor> = ALL_COLORS.iter().map(|c| get_color(*c)).collect();
    for i in 0..mapped.len() {
        for j in 0..mapped.len() {
            if i != j {
                assert_ne!(mapped[i], mapped[j]);
            }
        }
    }
}

#[test]
fn base_colors_map_by_name() {
    assert_eq!(get_color(CharColor::Blue), NativeColor::Blue);
    assert_eq!(get_color(CharColor::Red), NativeColor::Red);
    assert_eq!(get_color(CharColor::Black), NativeColor::Black);
    assert_eq!(get_color(CharColor::Magenta), NativeColor::Magenta);
    assert_eq!(get_color(CharColor::Green), NativeColor::Green);
    assert_eq!(get_color(CharColor::Yellow), NativeColor::Yellow);
    assert_eq!(get_color(CharColor::White), NativeColor::White);
    assert_eq!(get_color(CharColor::Cyan), NativeColor::Cyan);
}

#[test]
fn extended_colors_map_to_palette_indices() {
    assert_eq!(get_color(CharColor::Orange), NativeColor::Byte(0x10));
    assert_eq!(get_color(CharColor::Gray), NativeColor::Byte(0x08));
    assert_eq!(get_color(CharColor::DarkGray), NativeColor::Byte(19));
}

#[test]
fn normal_style_has_no_attributes() {
    let s = get_style(CharStyle::Normal);
    assert_eq!(s, NativeStyle { bold: false, underline: false, reverse: false });
    assert_eq!(s, NativeStyle::empty());
}

#[test]
fn plain_character_key() {
    let ev = translate_event(Some(RawEvent::KeyRaw(0, 0, 0x41)));
    assert_eq!(ev, Some(EditorEvent::KeyEvent(Some(Key::Char('A')))));
}

#[test]
fn surrogate_character_gives_no_key() {
    let ev = translate_event(Some(RawEvent::KeyRaw(0, 0, 0xD800)));
    assert_eq!(ev, Some(EditorEvent::KeyEvent(None)));
    assert_eq!(key_of_raw(0, 0xDFFF), None);
    assert_eq!(key_of_raw(0, 0x110000), None);
}

#[test]
fn largest_scalar_value_is_a_character() {
    assert_eq!(key_of_raw(0, 0x10FFFF), Some(Key::Char('\u{10FFFF}')));
    assert_eq!(key_of_raw(0, 0xE9), Some(Key::Char('é')));
}

#[test]
fn unknown_special_code_gives_no_key() {
    assert_eq!(translate_event(Some(RawEvent::KeyRaw(0, 200, 0))), Some(EditorEvent::KeyEvent(None)));
    assert_eq!(translate_event(Some(RawEvent::KeyRaw(0, 65513, 0x41))), Some(EditorEvent::KeyEvent(None)));
}

#[test]
fn special_codes_resolve_to_named_keys() {
    assert_eq!(Key::from_special_code(1), Some(Key::Ctrl('a')));
    assert_eq!(Key::from_special_code(8), Some(Key::Ctrl('h')));
    assert_eq!(Key::from_special_code(9), Some(Key::Tab));
    assert_eq!(Key::from_special_code(13), Some(Key::Enter));
    assert_eq!(Key::from_special_code(26), Some(Key::Ctrl('z')));
    assert_eq!(Key::from_special_code(27), Some(Key::Esc));
    assert_eq!(Key::from_special_code(28), Some(Key::Ctrl('\\')));
    assert_eq!(Key::from_special_code(32), Some(Key::Char(' ')));
    assert_eq!(Key::from_special_code(127), Some(Key::Backspace));
    assert_eq!(Key::from_special_code(65535), Some(Key::F(1)));
    assert_eq!(Key::from_special_code(65524), Some(Key::F(12)));
    assert_eq!(Key::from_special_code(65523), Some(Key::Insert));
    assert_eq!(Key::from_special_code(65522), Some(Key::Delete));
    assert_eq!(Key::from_special_code(65521), Some(Key::Home));
    assert_eq!(Key::from_special_code(65520), Some(Key::End));
    assert_eq!(Key::from_special_code(65519), Some(Key::PageUp));
    assert_eq!(Key::from_special_code(65518), Some(Key::PageDown));
    assert_eq!(Key::from_special_code(65517), Some(Key::Up));
    assert_eq!(Key::from_special_code(65516), Some(Key::Down));
    assert_eq!(Key::from_special_code(65515), Some(Key::Left));
    assert_eq!(Key::from_special_code(65514), Some(Key::Right));
    assert_eq!(Key::from_special_code(0), None);
    assert_eq!(Key::from_special_code(33), None);
}

#[test]
fn special_code_wins_over_character() {
    let ev = translate_event(Some(RawEvent::KeyRaw(0, 65517, 0x41)));
    assert_eq!(ev, Some(EditorEvent::KeyEvent(Some(Key::Up))));
}

#[test]
fn resize_event_gives_dimensions() {
    assert_eq!(translate_event(Some(RawEvent::Resize(120, 40))), Some(EditorEvent::Resize(120, 40)));
}

#[test]
fn other_event_is_unsupported() {
    assert_eq!(translate_event(Some(RawEvent::Other)), Some(EditorEvent::UnSupported));
}

#[test]
fn failed_poll_yields_nothing() {
    assert_eq!(translate_event(Some(RawEvent::NoEvent)), None);
    assert_eq!(translate_event(None), None);
    assert_eq!(translate_event(None), None);
}

#[test]
fn headless_polls_follow_script() {
    let script = vec![
        Some(RawEvent::KeyRaw(0, 0, 0x41)),
        None,
        Some(RawEvent::Resize(120, 40)),
        Some(RawEvent::KeyRaw(0, 300, 0)),
    ];
    let mut f = HeadlessFrontend::new(script, 80, 24);
    assert_eq!(f.poll_event(), Some(EditorEvent::KeyEvent(Some(Key::Char('A')))));
    assert_eq!(f.poll_event(), None);
    assert_eq!(f.poll_event(), Some(EditorEvent::Resize(120, 40)));
    assert_eq!(f.poll_event(), Some(EditorEvent::KeyEvent(None)));
    assert_eq!(f.poll_event(), None);
    assert_eq!(f.poll_event(), None);
}

#[test]
fn drawing_is_hidden_until_present() {
    let mut f = HeadlessFrontend::new(Vec::new(), 80, 24);
    f.draw_char(3, 4, 'x', CharColor::Orange, CharColor::Black, CharStyle::Normal);
    f.draw_cursor(5, 6);
    assert!(f.shown().is_empty());
    assert_eq!(f.queued().len(), 2);
    f.present();
    let cell = Cell {
        ch: 'x',
        fg: NativeColor::Byte(0x10),
        bg: NativeColor::Black,
        style: NativeStyle::empty(),
    };
    assert_eq!(f.shown(), &vec![DrawOp::Put(3, 4, cell), DrawOp::Cursor(5, 6)]);
    assert!(f.queued().is_empty());
    f.draw_cursor(0, 0);
    assert_eq!(f.shown().len(), 2);
    f.present();
    assert_eq!(f.shown().len(), 3);
    assert_eq!(f.shown()[2], DrawOp::Cursor(0, 0));
}

#[test]
fn cell_resolves_colors_and_style() {
    let c = cell_of('q', CharColor::Gray, CharColor::DarkGray, CharStyle::Normal);
    assert_eq!(c.ch, 'q');
    assert_eq!(c.fg, NativeColor::Byte(0x08));
    assert_eq!(c.bg, NativeColor::Byte(19));
    assert_eq!(c.style, NativeStyle::empty());
}

fn drive<F: Frontend>(f: &mut F) -> (Option<EditorEvent>, usize, usize) {
    let ev = f.poll_event();
    f.draw_char(0, 0, 'a', CharColor::White, CharColor::Blue, CharStyle::Normal);
    f.present();
    (ev, f.get_window_width(), f.get_window_height())
}

#[test]
fn headless_through_trait() {
    let mut f = HeadlessFrontend::new(vec![Some(RawEvent::Other)], 100, 30);
    let (ev, w, h) = drive(&mut f);
    assert_eq!(ev, Some(EditorEvent::UnSupported));
    assert_eq!((w, h), (100, 30));
    assert_eq!(f.shown().len(), 1);
}

#[test]
fn headless_size_follows_resize() {
    let script = vec![Some(RawEvent::Resize(120, 40)), Some(RawEvent::Other), Some(RawEvent::NoEvent)];
    let mut f = HeadlessFrontend::new(script, 80, 24);
    assert_eq!(f.get_window_width(), 80);
    assert_eq!(f.get_window_height(), 24);
    assert_eq!(f.poll_event(), Some(EditorEvent::Resize(120, 40)));
    assert_eq!(f.get_window_width(), 120);
    assert_eq!(f.get_window_height(), 40);
    assert_eq!(f.poll_event(), Some(EditorEvent::UnSupported));
    assert_eq!(f.poll_event(), None);
    assert_eq!(f.get_window_width(), 120);
    assert_eq!(f.get_window_height(), 40);
}
