use raybox::ui2d_runtime::{Ui2dDeckHost, Ui2dSceneDeck};

#[derive(Debug, Clone, Copy, PartialEq)]
struct Ui2DViewState {
    offset: [f32; 2],
    scale: f32,
    rotation: f32,
}

impl Default for Ui2DViewState {
    fn default() -> Self {
        Self { offset: [0.0, 0.0], scale: 1.0, rotation: 0.0 }
    }
}

#[derive(Default)]
struct MockDeckHost {
    view_state: Ui2DViewState,
    prepare_count: usize,
    resize_count: usize,
    resize_lazy_count: usize,
    ensure_ready_count: usize,
    needs_redraw: bool,
}

impl Ui2dDeckHost for MockDeckHost {
    type ViewState = Ui2DViewState;

    fn view_state(&self) -> Ui2DViewState {
        self.view_state
    }

    fn set_view_state(&mut self, view_state: Ui2DViewState) {
        self.view_state = view_state;
    }

    fn needs_redraw(&self) -> bool {
        self.needs_redraw
    }

    fn reset_rotation(&mut self) {
        self.view_state.rotation = 0.0;
    }

    fn reset_all(&mut self) {
        self.view_state = Ui2DViewState::default();
    }

    fn prepare_frame(&mut self) {
        self.prepare_count += 1;
    }

    fn resize(&mut self, _width: u32, _height: u32) {
        self.resize_count += 1;
    }

    fn resize_lazy(&mut self, _width: u32, _height: u32) {
        self.resize_lazy_count += 1;
    }

    fn ensure_ready(&mut self) {
        self.ensure_ready_count += 1;
    }
}

#[test]
fn generic_scene_deck_preserves_view_state_on_switch() {
    let mut deck = Ui2dSceneDeck::new(vec![MockDeckHost::default(), MockDeckHost::default()]);
    deck.set_view_state(Ui2DViewState { offset: [12.0, -6.0], scale: 1.5, rotation: 0.25 });

    assert!(deck.set_active_scene(1));
    assert_eq!(deck.view_state(), Ui2DViewState { offset: [12.0, -6.0], scale: 1.5, rotation: 0.25 });
    assert_eq!(deck.active_host().ensure_ready_count, 1);
}

#[test]
fn generic_scene_deck_uses_eager_and_lazy_resize_paths() {
    let mut deck = Ui2dSceneDeck::new(vec![MockDeckHost::default(), MockDeckHost::default()]);

    deck.resize(800, 600);

    assert_eq!(deck.host(0).unwrap().resize_count, 1);
    assert_eq!(deck.host(0).unwrap().resize_lazy_count, 0);
    assert_eq!(deck.host(1).unwrap().resize_count, 0);
    assert_eq!(deck.host(1).unwrap().resize_lazy_count, 1);
}

#[test]
fn generic_scene_deck_reports_pending_redraw_from_active_host() {
    let mut deck = Ui2dSceneDeck::new(vec![
        MockDeckHost::default(),
        MockDeckHost { needs_redraw: true, ..Default::default() },
    ]);

    assert!(!deck.needs_redraw());
    assert!(deck.set_active_scene(1));
    assert!(deck.needs_redraw());
}
