use raybox::retained_ui_shared::SharedRetainedUiUpdate;
use raybox::ui2d_runtime::{FixedUi2dSceneUpdate, RuntimeResourceUpdate, Ui2dRuntimeUpdate};
use raybox::ui_physical_runtime::UiPhysicalRuntimeUpdate;

#[test]
fn partial_scene_update_without_ui_patches_has_no_ui_update() {
    let update: FixedUi2dSceneUpdate<u8, u8, u16, u32> =
        FixedUi2dSceneUpdate::Partial { ui_patches: vec![], text_patch: Some(7) };
    let flat: Ui2dRuntimeUpdate<u8, u16, u8, Vec<u32>> = update.into();
    assert!(matches!(flat.text, Some(RuntimeResourceUpdate::Partial(7))));
    assert!(flat.ui.is_none());
    assert!(!flat.needs_full_rebuild());

    let physical: UiPhysicalRuntimeUpdate<u8, u16, u8, Vec<u32>> = flat.into();
    assert!(matches!(physical.text, Some(RuntimeResourceUpdate::Partial(7))));
    assert!(physical.ui.is_none());
}

#[test]
fn scene_updates_convert_for_every_runtime() {
    let full: FixedUi2dSceneUpdate<u8, u8, u16, u32> = FixedUi2dSceneUpdate::Full { text_data: 1, ui_data: 2 };
    let physical: UiPhysicalRuntimeUpdate<u8, u16, u8, Vec<u32>> = full.into();
    assert!(physical.needs_full_rebuild());
    assert!(matches!(physical.ui, Some(RuntimeResourceUpdate::Full(2))));

    let patches: FixedUi2dSceneUpdate<u8, u8, u16, u32> =
        FixedUi2dSceneUpdate::Partial { ui_patches: vec![4, 5], text_patch: None };
    let shared: SharedRetainedUiUpdate<u8, u8, u16, Vec<u32>> = patches.into();
    match shared {
        SharedRetainedUiUpdate::Partial { text, ui } => {
            assert!(text.is_none());
            assert!(matches!(ui, Some(RuntimeResourceUpdate::Partial(p)) if p == vec![4, 5]));
        }
        SharedRetainedUiUpdate::Full(_) => panic!("patches stay partial"),
    }
    let full: FixedUi2dSceneUpdate<u8, u8, u16, u32> = FixedUi2dSceneUpdate::Full { text_data: 1, ui_data: 2 };
    let shared: SharedRetainedUiUpdate<u8, u8, u16, Vec<u32>> = full.into();
    assert!(shared.needs_full_rebuild());
}
