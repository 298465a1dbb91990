use midi_auto_crossfader::ui::{render_bar, BAR_WIDTH};

fn bar_with(cells: &[(usize, char)]) -> String {
    let mut chars = vec!['-'; BAR_WIDTH];
    for (i, c) in cells {
        chars[*i] = *c;
    }
    chars.into_iter().collect()
}

#[test]
fn star_only() {
    assert_eq!(render_bar(20, None), bar_with(&[(20, '*')]));
    assert_eq!(render_bar(20, None).chars().count(), 41);
    assert_eq!(render_bar(0, None), bar_with(&[(0, '*')]));
}

#[test]
fn position_past_the_end_is_clamped() {
    assert_eq!(render_bar(40, None), bar_with(&[(40, '*')]));
    assert_eq!(render_bar(1000, None), bar_with(&[(40, '*')]));
}

#[test]
fn arrow_pushes_from_behind() {
    assert_eq!(render_bar(20, Some('<')), bar_with(&[(20, '*'), (21, '<')]));
    assert_eq!(render_bar(20, Some('>')), bar_with(&[(19, '>'), (20, '*')]));
}

#[test]
fn arrow_falls_back_at_the_edges() {
    assert_eq!(render_bar(40, Some('<')), bar_with(&[(39, '<'), (40, '*')]));
    assert_eq!(render_bar(0, Some('>')), bar_with(&[(0, '*'), (1, '>')]));
    assert_eq!(render_bar(0, Some('<')), bar_with(&[(0, '*'), (1, '<')]));
    assert_eq!(render_bar(40, Some('>')), bar_with(&[(39, '>'), (40, '*')]));
}

#[test]
fn rendering_matches_the_original_layout() {
    assert_eq!(
        render_bar(3, Some('>')),
        "-->*-------------------------------------"
    );
}
