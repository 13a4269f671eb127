//! Native file dialogs.

use copperline::dialog::{pick, HeldPaints};

#[test]
fn pick_returns_what_the_picker_chose() {
    let chosen = std::path::PathBuf::from("df0.adf");
    let expected = chosen.clone();
    assert_eq!(pick(move || Some(chosen)), Some(expected));
}

#[test]
fn pick_returns_a_cancelled_picker() {
    assert_eq!(pick(|| Option::<std::path::PathBuf>::None), None);
}

#[test]
fn held_paints_name_each_window_once() {
    let mut paints = HeldPaints::new();
    paints.hold(7);
    paints.hold(9);
    paints.hold(7);
    assert_eq!(paints.windows, vec![7, 9]);
}
