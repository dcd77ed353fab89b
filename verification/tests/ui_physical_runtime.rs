use raybox::ui2d_runtime::{DeckCall, Ui2dRuntimeTextUpdate, Ui2dRuntimeUiUpdate, Ui2dRuntimeUpdate};
use raybox::ui_physical_runtime::{
    fits_config, recolor_physical_char_instances, PhysicalCharInstance, UiPhysicalDeckHost,
    UiPhysicalHostConfig, UiPhysicalRuntimeTextUpdate, UiPhysicalRuntimeUiUpdate, UiPhysicalRuntimeUpdate,
    UiPhysicalSceneCounts, UiPhysicalSceneDeck,
};
use raybox::ui_physical_theme::{TextColors, ThemeId, UiPhysicalThemeState};

#[derive(Debug, Clone, PartialEq)]
struct FixedTextScenePatch {
    run_updates: Vec<(usize, Vec<f32>)>,
    char_count: u32,
    changed_cells: Vec<u32>,
}

#[derive(Debug, Clone, PartialEq)]
struct GpuUiPatch {
    offset: usize,
    primitives: Vec<[f32; 4]>,
}

#[test]
fn physical_runtime_update_converts_partial_updates_without_full_rebuild() {
    let update: Ui2dRuntimeUpdate<(), FixedTextScenePatch, (), Vec<GpuUiPatch>> = Ui2dRuntimeUpdate {
        text: Some(Ui2dRuntimeTextUpdate::Partial(FixedTextScenePatch {
            run_updates: vec![(0, Vec::<f32>::new())],
            char_count: 3,
            changed_cells: vec![1, 2],
        })),
        ui: Some(Ui2dRuntimeUiUpdate::Partial(vec![GpuUiPatch {
            offset: 4,
            primitives: vec![[0.0; 4]],
        }])),
    };

    let runtime_update = UiPhysicalRuntimeUpdate::from_ui2d(update);
    assert!(!runtime_update.needs_full_rebuild());

    match runtime_update.text {
        Some(UiPhysicalRuntimeTextUpdate::Partial(text_patch)) => {
            assert_eq!(text_patch.char_count, 3);
            assert_eq!(text_patch.changed_cells, vec![1, 2]);
        }
        _ => panic!("expected partial text update"),
    }

    match runtime_update.ui {
        Some(UiPhysicalRuntimeUiUpdate::Partial(ui_patches)) => {
            assert_eq!(ui_patches.len(), 1);
            assert_eq!(ui_patches[0].offset, 4);
        }
        _ => panic!("expected partial ui update"),
    }
}

#[test]
fn full_text_update_needs_full_rebuild() {
    let update: UiPhysicalRuntimeUpdate<u8, (), u8, ()> = UiPhysicalRuntimeUpdate {
        text: Some(UiPhysicalRuntimeTextUpdate::Full(1)),
        ui: None,
    };
    assert!(update.needs_full_rebuild());
    let none: UiPhysicalRuntimeUpdate<u8, (), u8, ()> = UiPhysicalRuntimeUpdate { text: None, ui: None };
    assert!(!none.needs_full_rebuild());
}

#[derive(Default)]
struct MockPhysicalDeckHost {
    ready_calls: usize,
    prepare_calls: usize,
    resize_calls: Vec<(u32, u32)>,
    resize_lazy_calls: Vec<(u32, u32)>,
    colors: Vec<TextColors>,
    needs_redraw: bool,
}

impl UiPhysicalDeckHost for MockPhysicalDeckHost {
    fn needs_redraw(&self) -> bool {
        self.needs_redraw
    }

    fn prepare_frame(&mut self) {
        self.prepare_calls += 1;
    }

    fn resize(&mut self, width: u32, height: u32) {
        self.resize_calls.push((width, height));
    }

    fn resize_lazy(&mut self, width: u32, height: u32) {
        self.resize_lazy_calls.push((width, height));
    }

    fn ensure_ready(&mut self) {
        self.ready_calls += 1;
    }

    fn set_text_colors(&mut self, text_colors: TextColors) {
        self.colors.push(text_colors);
    }
}

#[test]
fn physical_scene_deck_cycles_and_resizes_active_scene_eagerly() {
    let mut deck = UiPhysicalSceneDeck::new(vec![
        MockPhysicalDeckHost::default(),
        MockPhysicalDeckHost::default(),
    ]);

    assert_eq!(deck.active_index(), 0);
    assert!(deck.cycle_next());
    assert_eq!(deck.active_index(), 1);
    assert_eq!(deck.active_host().ready_calls, 1);

    deck.resize(800, 600);
    assert_eq!(deck.host(0).unwrap().resize_lazy_calls, vec![(800, 600)]);
    assert_eq!(deck.host(1).unwrap().resize_calls, vec![(800, 600)]);
}

#[test]
fn physical_scene_deck_sets_text_colors_for_all_scenes() {
    let mut deck = UiPhysicalSceneDeck::new(vec![
        MockPhysicalDeckHost::default(),
        MockPhysicalDeckHost::default(),
    ]);
    let colors = TextColors {
        heading: [255, 0, 0],
        active: [0, 255, 0],
        completed: [0, 0, 255],
        placeholder: [255, 255, 0],
        body: [255, 0, 255],
        info: [0, 255, 255],
    };

    deck.set_text_colors(colors);

    assert_eq!(deck.host(0).unwrap().colors.len(), 1);
    assert_eq!(deck.host(1).unwrap().colors.len(), 1);
    assert_eq!(deck.host(0).unwrap().colors[0].heading, [255, 0, 0]);
    assert_eq!(deck.host(1).unwrap().colors[0].heading, [255, 0, 0]);
}

#[test]
fn physical_scene_deck_reports_pending_redraw_from_active_host() {
    let mut deck = UiPhysicalSceneDeck::new(vec![
        MockPhysicalDeckHost::default(),
        MockPhysicalDeckHost { needs_redraw: true, ..Default::default() },
    ]);

    assert!(!deck.needs_redraw());
    assert!(deck.cycle_next());
    assert!(deck.needs_redraw());
}

#[test]
fn physical_deck_applies_theme_colors_only_when_dirty() {
    let mut deck = UiPhysicalSceneDeck::new(vec![MockPhysicalDeckHost::default()]);
    let mut theme = UiPhysicalThemeState::new(ThemeId::Professional, true);
    deck.set_text_colors_if_dirty(&theme);
    assert!(deck.host(0).unwrap().colors.is_empty());
    theme.cycle_theme();
    deck.prepare_frame_with_theme(&theme);
    assert_eq!(deck.host(0).unwrap().colors.len(), 1);
    assert_eq!(deck.host(0).unwrap().colors[0].heading, [220, 100, 105]);
    assert_eq!(deck.host(0).unwrap().ready_calls, 1);
    assert_eq!(deck.host(0).unwrap().prepare_calls, 1);
    assert!(!deck.cycle_next());
}

#[test]
fn grown_config_fits_the_scene() {
    let config = UiPhysicalHostConfig {
        label: "ui".to_string(),
        max_char_instances: 512,
        max_ui_primitives: 256,
        max_grid_indices: 100,
        grid_cell_capacity: 16,
    };
    let counts = UiPhysicalSceneCounts { char_instances: 600, grid_indices: 50, grid_cells: 20, ui_primitives: 10 };
    assert!(!fits_config(&counts, &config));
    let grown = config.grown_to_fit(&counts);
    assert_eq!(grown.max_char_instances, 600);
    assert_eq!(grown.max_ui_primitives, 256);
    assert_eq!(grown.max_grid_indices, 100);
    assert_eq!(grown.grid_cell_capacity, 20);
    assert_eq!(grown.label, "ui");
    assert!(fits_config(&counts, &grown));
}

#[test]
fn recoloring_follows_role_codes() {
    let colors = TextColors {
        heading: [1, 1, 1],
        active: [2, 2, 2],
        completed: [3, 3, 3],
        placeholder: [4, 4, 4],
        body: [5, 5, 5],
        info: [6, 6, 6],
    };
    let instances: Vec<PhysicalCharInstance<u32>> = (0..8u8)
        .map(|role| PhysicalCharInstance { pos_and_char: role as u32 * 10, color: [0, 0, 0], role })
        .collect();
    let out = recolor_physical_char_instances(&instances, &colors);
    let got: Vec<[u8; 3]> = out.iter().map(|i| i.color).collect();
    assert_eq!(
        got,
        vec![[2, 2, 2], [3, 3, 3], [1, 1, 1], [4, 4, 4], [5, 5, 5], [6, 6, 6], [2, 2, 2], [2, 2, 2]]
    );
    assert_eq!(out[7].pos_and_char, 70);
    let _ = DeckCall::EnsureReady;
}

#[test]
fn physical_bootstrap_fit_check_uses_config_limits() {
    let bootstrap = raybox::ui_physical_runtime::UiPhysicalSceneCounts {
        char_instances: 8,
        grid_indices: 16,
        grid_cells: 1,
        ui_primitives: 4,
    };

    let fit = raybox::ui_physical_runtime::UiPhysicalHostConfig {
        label: "fit".to_string(),
        max_char_instances: 8,
        max_ui_primitives: 4,
        max_grid_indices: 16,
        grid_cell_capacity: 4,
    };
    let overflow = raybox::ui_physical_runtime::UiPhysicalHostConfig {
        label: "overflow".to_string(),
        max_char_instances: 7,
        max_ui_primitives: 4,
        max_grid_indices: 16,
        grid_cell_capacity: 4,
    };

    assert!(fits_config(&bootstrap, &fit));
    assert!(!fits_config(&bootstrap, &overflow));
}
