use drafftink_core::mathtext::math_to_ascii;

#[test]
fn italic_letters_map_to_ascii() {
    assert_eq!(math_to_ascii('\u{1D434}'), Some('A')); // italic A
    assert_eq!(math_to_ascii('\u{1D44D}'), Some('Z')); // italic Z
    assert_eq!(math_to_ascii('\u{1D44E}'), Some('a')); // italic a
    assert_eq!(math_to_ascii('\u{1D454}'), Some('g')); // italic g
    assert_eq!(math_to_ascii('\u{1D456}'), Some('i')); // italic i
    assert_eq!(math_to_ascii('\u{1D467}'), Some('z')); // italic z
}

#[test]
fn italic_h_hole_uses_planck_constant() {
    // U+1D455 is unassigned; the italic h lives at U+210E
    assert_eq!(math_to_ascii('\u{1D455}'), None);
    assert_eq!(math_to_ascii('\u{210E}'), Some('h'));
}

#[test]
fn bold_and_bold_italic_letters_map_to_ascii() {
    assert_eq!(math_to_ascii('\u{1D400}'), Some('A')); // bold A
    assert_eq!(math_to_ascii('\u{1D433}'), Some('z')); // bold z
    assert_eq!(math_to_ascii('\u{1D468}'), Some('A')); // bold italic A
    assert_eq!(math_to_ascii('\u{1D49B}'), Some('z')); // bold italic z
}

#[test]
fn sans_and_monospace_letters_map_to_ascii() {
    assert_eq!(math_to_ascii('\u{1D5A0}'), Some('A')); // sans A
    assert_eq!(math_to_ascii('\u{1D5D3}'), Some('z')); // sans z
    assert_eq!(math_to_ascii('\u{1D670}'), Some('A')); // monospace A
    assert_eq!(math_to_ascii('\u{1D68A}'), Some('a')); // monospace a
}

#[test]
fn styled_digits_map_to_ascii() {
    assert_eq!(math_to_ascii('\u{1D7CE}'), Some('0')); // bold 0
    assert_eq!(math_to_ascii('\u{1D7D8}'), Some('0')); // double-struck 0
    assert_eq!(math_to_ascii('\u{1D7E2}'), Some('0')); // sans 0
    assert_eq!(math_to_ascii('\u{1D7F5}'), Some('9')); // sans bold 9
    assert_eq!(math_to_ascii('\u{1D7FF}'), Some('9')); // monospace 9
}

#[test]
fn plain_characters_are_not_mapped() {
    assert_eq!(math_to_ascii('A'), None);
    assert_eq!(math_to_ascii('x'), None);
    assert_eq!(math_to_ascii('0'), None);
    assert_eq!(math_to_ascii('\u{2211}'), None);
}
