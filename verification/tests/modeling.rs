use petunia_ui::modeling::{action_tooltip, revolve_segments, subdivide_cuts, transform_activation, ProfileDraft};
use petunia_ui::tool_fields::ModalKind;

#[test]
fn sliders_store_clamped_counts() {
    assert_eq!(subdivide_cuts(0), 1);
    assert_eq!(subdivide_cuts(4), 4);
    assert_eq!(subdivide_cuts(9), 6);
    assert_eq!(revolve_segments(-2), 3);
    assert_eq!(revolve_segments(32), 32);
    assert_eq!(revolve_segments(100), 64);
}

#[test]
fn action_buttons_explain_or_show_their_key() {
    assert_eq!(action_tooltip(&Some("Enter Edit mode".to_string()), "W"), "Enter Edit mode");
    assert_eq!(action_tooltip(&None, "W"), "W");
}

#[test]
fn transform_card_arms_the_chosen_operator() {
    assert_eq!(transform_activation(ModalKind::Rotate), Some(("rotate", ModalKind::Rotate, ModalKind::Rotate)));
    assert_eq!(transform_activation(ModalKind::Bevel), None);
}

#[test]
fn profiles_close_with_three_points_and_reopen_on_undo() {
    let mut p = ProfileDraft { points: vec![(0, 0), (1, 0)], closed: false };
    p.close();
    assert!(!p.closed);
    p.points.push((1, 1));
    p.close();
    assert!(p.closed);
    p.undo_point();
    assert!(!p.closed);
    assert_eq!(p.points, vec![(0, 0), (1, 0)]);
    p.clear();
    assert!(p.points.is_empty() && !p.closed);
}
