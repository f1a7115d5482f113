use win32_shell::wide::convert_to_win32_wide_string;

#[test]
fn wide_empty_is_just_the_terminator() {
    assert_eq!(convert_to_win32_wide_string(""), vec![0u16]);
}

#[test]
fn wide_ascii() {
    assert_eq!(convert_to_win32_wide_string("A"), vec![0x41u16, 0]);
    assert_eq!(
        convert_to_win32_wide_string("win32-window"),
        vec![
            0x77u16, 0x69, 0x6E, 0x33, 0x32, 0x2D, 0x77, 0x69, 0x6E, 0x64, 0x6F, 0x77, 0,
        ]
    );
}

#[test]
fn wide_hello_text_has_one_unit_per_char_plus_terminator() {
    let wide = convert_to_win32_wide_string("Hello, World in Rust");
    assert_eq!(wide.len(), 21);
    assert_eq!(wide[0], 'H' as u16);
    assert_eq!(*wide.last().unwrap(), 0);
}

#[test]
fn wide_bmp_non_ascii() {
    // U+00E9 and U+4E16 each fit in a single UTF-16 unit.
    assert_eq!(convert_to_win32_wide_string("\u{E9}"), vec![0x00E9u16, 0]);
    assert_eq!(convert_to_win32_wide_string("\u{4E16}"), vec![0x4E16u16, 0]);
}

#[test]
fn wide_supplementary_plane_uses_surrogate_pair() {
    // U+1D11E (musical G clef) encodes as the pair D834 DD1E.
    assert_eq!(
        convert_to_win32_wide_string("\u{1D11E}"),
        vec![0xD834u16, 0xDD1E, 0]
    );
}
