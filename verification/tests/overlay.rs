use raybox::overlay::keybindings_text;
use raybox::runner::runner_window_title;

#[test]
fn keybindings_are_listed_one_per_line() {
    let bindings = [("B", "Toggle embedded preview mode"), ("P", "Toggle flat/physical UI overlay")];
    assert_eq!(
        keybindings_text(&bindings),
        "B: Toggle embedded preview mode\nP: Toggle flat/physical UI overlay"
    );
    assert_eq!(keybindings_text(&[("K", "Show keys")]), "K: Show keys");
    assert_eq!(keybindings_text(&[]), "");
}

#[test]
fn runner_title_names_the_demo() {
    assert_eq!(runner_window_title(12, "Mixed UI World"), "Demo 12: Mixed UI World | K: show keys");
    assert_eq!(runner_window_title(0, "Empty"), "Demo 0: Empty | K: show keys");
}
