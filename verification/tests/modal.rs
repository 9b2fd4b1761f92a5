use petunia_ui::modal::{
    constraint_after_key, constraint_badge, hud_hint, locked_axes, modal_cancels, modal_commits, modal_label,
    modal_unit, pending_step, value_snaps, NumericEntry, PendingStep,
};
use petunia_ui::tokens::Rgba;
use petunia_ui::tool_fields::ModalKind;
use petunia_ui::viewport::ModalConstraint;

#[test]
fn axis_keys_lock_and_release() {
    let x = constraint_after_key(ModalConstraint::Free, 0, false);
    assert_eq!(x, ModalConstraint::Axis(0));
    assert_eq!(constraint_after_key(x, 0, false), ModalConstraint::Free);
    assert_eq!(constraint_after_key(x, 0, true), ModalConstraint::Plane(0));
    assert_eq!(constraint_after_key(x, 2, false), ModalConstraint::Axis(2));
    assert_eq!(locked_axes(ModalConstraint::Axis(1)), [false, true, false]);
    assert_eq!(locked_axes(ModalConstraint::Plane(1)), [true, false, true]);
    assert_eq!(locked_axes(ModalConstraint::Free), [false, false, false]);
}

#[test]
fn numbers_are_typed_whole_or_not_at_all() {
    let mut entry = NumericEntry::new();
    assert!(entry.is_empty());
    entry.type_text("1,5", false);
    assert_eq!(entry.text(), "1.5");
    entry.type_text("x", false);
    assert_eq!(entry.text(), "1.5");
    entry.type_text("2", true);
    assert_eq!(entry.text(), "1.5");
    entry.type_text("-", false);
    assert_eq!(entry.text(), "1.5-");
    entry.backspace();
    entry.backspace();
    assert_eq!(entry.text(), "1.");
    let mut long = NumericEntry::new();
    long.type_text(&"9".repeat(64), false);
    assert_eq!(long.text().len(), 64);
    long.type_text("1", false);
    assert_eq!(long.text().len(), 64);
    let mut empty = NumericEntry::new();
    empty.backspace();
    assert!(empty.is_empty());
}

#[test]
fn the_hud_names_the_operation_and_its_constraint() {
    assert_eq!(modal_label(ModalKind::Bevel), "Chanfro");
    assert_eq!(modal_unit(ModalKind::Rotate), "°");
    assert_eq!(modal_unit(ModalKind::Inset), " fator");
    assert_eq!(modal_unit(ModalKind::Move), " m");
    assert_eq!(constraint_badge(ModalConstraint::Axis(0)), ("AXIS X", Rgba { r: 0xe0, g: 0x3c, b: 0x42, a: 255 }));
    assert_eq!(constraint_badge(ModalConstraint::Plane(2)).0, "PLANE XY (Shift+Z)");
    assert_eq!(constraint_badge(ModalConstraint::Axis(5)).0, "FREE");
    assert_eq!(hud_hint(false), "Valor inválido — ajuste ou cancele");
}

#[test]
fn operations_start_commit_and_cancel() {
    assert_eq!(pending_step(true, true), PendingStep::Drop);
    assert_eq!(pending_step(false, true), PendingStep::Start);
    assert_eq!(pending_step(false, false), PendingStep::Wait);
    assert!(modal_cancels(false, true));
    assert!(!modal_cancels(false, false));
    assert!(modal_commits(false, true, false, false, false, false, true));
    assert!(!modal_commits(true, true, true, false, true, false, true));
    assert!(!modal_commits(false, true, true, false, true, false, false));
    assert!(modal_commits(false, false, true, true, false, true, true));
    assert!(!modal_commits(false, false, true, true, true, false, true));
    assert!(value_snaps(true, false, false));
    assert!(!value_snaps(true, true, true));
}
