use torus_trooper::letter::Letter;

#[test]
fn glyph_indices_of_characters() {
    assert_eq!(Letter::convert_char_to_int('0'), 0);
    assert_eq!(Letter::convert_char_to_int('9'), 9);
    assert_eq!(Letter::convert_char_to_int('A'), 10);
    assert_eq!(Letter::convert_char_to_int('z'), 35);
    assert_eq!(Letter::convert_char_to_int('.'), 36);
    assert_eq!(Letter::convert_char_to_int('_'), 37);
    assert_eq!(Letter::convert_char_to_int('-'), 38);
    assert_eq!(Letter::convert_char_to_int('+'), 39);
    assert_eq!(Letter::convert_char_to_int('!'), 42);
    assert_eq!(Letter::convert_char_to_int('/'), 43);
}

#[test]
fn string_glyphs_skip_spaces() {
    assert_eq!(
        Letter::string_glyphs("GAME OVER"),
        vec![Some(16), Some(10), Some(22), Some(14), None, Some(24), Some(31), Some(14), Some(27)]
    );
}

#[test]
fn num_glyphs_least_significant_first() {
    assert_eq!(Letter::num_glyphs(1205, 0), vec![5, 0, 2, 1]);
    assert_eq!(Letter::num_glyphs(0, 0), vec![0]);
    assert_eq!(Letter::num_glyphs(7, 3), vec![7, 0, 0]);
    assert_eq!(Letter::num_glyphs(123, -4), vec![3, 2, 1]);
}

#[test]
fn time_glyphs_of_a_clock() {
    // 1 minute 23.456 seconds
    assert_eq!(
        Letter::time_glyphs(83456),
        vec![(6, None), (5, None), (4, None), (3, Some(41)), (2, None), (1, Some(40))]
    );
    assert_eq!(Letter::time_glyphs(0), vec![(0, None)]);
    assert_eq!(Letter::time_glyphs(-5), vec![(0, None)]);
    assert_eq!(Letter::time_glyphs(120), vec![(0, None), (2, None), (1, None)]);
}
