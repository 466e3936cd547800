use arithmos::{extended, standard};

#[test]
fn render_zero_is_zero_glyph_and_terminator() {
    let s = standard::GreekNumeral::new(0).unwrap();
    assert_eq!(s.to_uppercase(), "𐆊'");
    assert_eq!(s.to_lowercase(), "𐆊'");
    let e = extended::GreekNumeral::new(0).unwrap();
    assert_eq!(e.to_uppercase(), "𐆊'");
    assert_eq!(e.to_lowercase(), "𐆊'");
}

#[test]
fn render_one_is_single_units_glyph() {
    let g = standard::GreekNumeral::new(1).unwrap();
    assert_eq!(g.to_uppercase(), "Α'");
    assert_eq!(g.to_lowercase(), "α'");
}

#[test]
fn render_forty_two() {
    let g = standard::GreekNumeral::new(42).unwrap();
    assert_eq!(g.to_uppercase(), "ΜΒ'");
    assert_eq!(g.to_lowercase(), "μβ'");
    let e = extended::GreekNumeral::new(42).unwrap();
    assert_eq!(e.to_uppercase(), "ΜΒ'");
    assert_eq!(e.to_lowercase(), "μβ'");
}

#[test]
fn render_standard_maximum() {
    let g = standard::GreekNumeral::new(9_999).unwrap();
    assert_eq!(g.to_uppercase(), "͵ΘϠϘΘ'");
    assert_eq!(g.to_lowercase(), "͵θϡϙθ'");
}

#[test]
fn render_extended_maximum() {
    let g = extended::GreekNumeral::new(999_999).unwrap();
    assert_eq!(g.to_uppercase(), "͵Ϡ͵Ϙ͵ΘϠϘΘ'");
    assert_eq!(g.to_lowercase(), "͵ϡ͵ϙ͵θϡϙθ'");
}

#[test]
fn render_six_hundred_sixteen() {
    let g = extended::GreekNumeral::new(616).unwrap();
    assert_eq!(g.to_uppercase(), "ΧΙϜ'");
    assert_eq!(g.to_lowercase(), "χιϝ'");
}

#[test]
fn render_extended_thousands() {
    assert_eq!(
        extended::GreekNumeral::new(10_000).unwrap().to_uppercase(),
        "͵Ι'"
    );
    assert_eq!(
        extended::GreekNumeral::new(49_999).unwrap().to_uppercase(),
        "͵Μ͵ΘϠϘΘ'"
    );
    assert_eq!(
        extended::GreekNumeral::new(99_999).unwrap().to_uppercase(),
        "͵Ϙ͵ΘϠϘΘ'"
    );
    assert_eq!(
        extended::GreekNumeral::new(100_000).unwrap().to_uppercase(),
        "͵Ρ'"
    );
}

#[test]
fn glyph_collisions_are_preserved() {
    // The historical system writes 100, 300 and 400 with the same glyph, and
    // likewise 5,000 and 6,000.
    let hundred = standard::GreekNumeral::new(100).unwrap().to_uppercase();
    assert_eq!(hundred, "Ρ'");
    assert_eq!(
        standard::GreekNumeral::new(300).unwrap().to_uppercase(),
        hundred
    );
    assert_eq!(
        standard::GreekNumeral::new(400).unwrap().to_uppercase(),
        hundred
    );
    assert_eq!(
        standard::GreekNumeral::new(5_000).unwrap().to_uppercase(),
        "͵Ε'"
    );
    assert_eq!(
        standard::GreekNumeral::new(6_000).unwrap().to_uppercase(),
        "͵Ε'"
    );
}

#[test]
fn case_renderings_have_equal_length() {
    for v in 0..=9_999_u32 {
        let g = standard::GreekNumeral::new(v).unwrap();
        let upper = g.to_uppercase();
        let lower = g.to_lowercase();
        assert_eq!(upper.chars().count(), lower.chars().count());
        assert!(upper.ends_with('\''));
        assert!(lower.ends_with('\''));
    }
    for v in [10_000_u32, 49_999, 123_456, 500_000, 999_999] {
        let g = extended::GreekNumeral::new(v).unwrap();
        assert_eq!(
            g.to_uppercase().chars().count(),
            g.to_lowercase().chars().count()
        );
    }
}
