use gelato::content::{Content, PaneControl};
use gelato::style::Button;

#[test]
fn channels_are_handed_out_in_turn() {
    let channels = vec!["#a".to_string(), "#b".to_string(), "#c".to_string()];
    let c = Content::new(4, &channels);
    assert_eq!(c.id, 4);
    assert_eq!(c.channel_name, "#b");
    assert_eq!(Content::new(0, &channels).channel_name, "#a");
}

#[test]
fn close_is_offered_only_with_several_panes() {
    let c = Content::new(0, &vec!["#a".to_string()]);
    assert_eq!(c.controls(1), vec![PaneControl::SplitHorizontal, PaneControl::SplitVertical]);
    assert_eq!(
        c.controls(2),
        vec![PaneControl::SplitHorizontal, PaneControl::SplitVertical, PaneControl::Close]
    );
    let labels: Vec<&str> = c.controls(3).iter().map(|p| p.label()).collect();
    assert_eq!(labels, vec!["H", "V", "X"]);
    assert_eq!(PaneControl::Close.style(), Button::Primary);
}
