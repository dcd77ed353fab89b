//! The mixed UI and world demo: a 3D world under a TodoMVC overlay, or the
//! TodoMVC page with the world in a preview rectangle. This module decides
//! which scenes a frame shows, which UI receives commands, and what each
//! demo key does.
use crate::control::KeyCode;
use crate::frame_graph::{
    is_composite_of, is_offscreen_ui, is_offscreen_world, ComposedScene, CompositeMode, FramePacket,
    FrameTarget, NormalizedRect, UiLayer, UiLayerStyle, WorldView, black_color, fullscreen_rect,
};
use crate::ui_physical_theme::{ThemeId, UiPhysicalThemeState, next_theme, canonical_dark};
use vstd::prelude::*;

verus! {

pub const MIXED_WORLD_TARGET: &'static str = "mixed_world";
pub const MIXED_UI_TARGET: &'static str = "mixed_ui";
pub const MIXED_PHYSICAL_UI_TARGET: &'static str = "mixed_ui_physical";
pub const MIXED_EMBEDDED_UI_TARGET: &'static str = "mixed_ui_embedded";
pub const MIXED_PREVIEW_TARGET: &'static str = "mixed_world_preview";

/// Where the world preview sits when the UI is in front: from (0.66, 0.12),
/// 0.24 wide and high.
pub open spec fn preview_rect() -> NormalizedRect {
    NormalizedRect { origin: [6600, 1200], size: [2400, 2400] }
}

pub fn mixed_preview_rect() -> (r: NormalizedRect)
    ensures
        r == preview_rect(),
{
    NormalizedRect::new([6600, 1200], [2400, 2400])
}

/// Which scene is in front.
#[derive(Clone, Copy, Debug, PartialEq, Eq, Structural)]
pub enum MixedUiWorldMode {
    /// The world fills the frame and the UI is drawn over it.
    WorldWithUiOverlay,
    /// The UI fills the frame and the world shows in a preview rectangle.
    UiWithEmbeddedWorld,
}

/// How the overlay UI is rendered.
#[derive(Clone, Copy, Debug, PartialEq, Eq, Structural)]
pub enum OverlayUiMode {
    Flat,
    Physical,
}

/// The UI host that is shown and receives list and scroll commands.
#[derive(Clone, Copy, Debug, PartialEq, Eq, Structural)]
pub enum ActiveUi {
    FlatOverlay,
    PhysicalOverlay,
    Embedded,
}

/// The UI host that `mode` and `overlay` make active.
pub open spec fn active_ui_of(mode: MixedUiWorldMode, overlay: OverlayUiMode) -> ActiveUi {
    match mode {
        MixedUiWorldMode::WorldWithUiOverlay => match overlay {
            OverlayUiMode::Flat => ActiveUi::FlatOverlay,
            OverlayUiMode::Physical => ActiveUi::PhysicalOverlay,
        },
        MixedUiWorldMode::UiWithEmbeddedWorld => ActiveUi::Embedded,
    }
}

pub open spec fn overlay_style_of(overlay: OverlayUiMode) -> UiLayerStyle {
    match overlay {
        OverlayUiMode::Flat => UiLayerStyle::Flat,
        OverlayUiMode::Physical => UiLayerStyle::Physical,
    }
}

pub open spec fn overlay_target_of(overlay: OverlayUiMode) -> Seq<char> {
    match overlay {
        OverlayUiMode::Flat => MIXED_UI_TARGET@,
        OverlayUiMode::Physical => MIXED_PHYSICAL_UI_TARGET@,
    }
}

pub open spec fn toggled_mode(mode: MixedUiWorldMode) -> MixedUiWorldMode {
    match mode {
        MixedUiWorldMode::WorldWithUiOverlay => MixedUiWorldMode::UiWithEmbeddedWorld,
        MixedUiWorldMode::UiWithEmbeddedWorld => MixedUiWorldMode::WorldWithUiOverlay,
    }
}

pub open spec fn toggled_overlay(overlay: OverlayUiMode) -> OverlayUiMode {
    match overlay {
        OverlayUiMode::Flat => OverlayUiMode::Physical,
        OverlayUiMode::Physical => OverlayUiMode::Flat,
    }
}

/// The demo's choices, with the theme of its physically lit overlay.
pub struct MixedUiWorldState {
    pub mode: MixedUiWorldMode,
    pub overlay_ui_mode: OverlayUiMode,
    pub overlay_theme: UiPhysicalThemeState,
}

impl MixedUiWorldState {
    /// The world in front under a flat overlay; the physical overlay starts
    /// with the classic theme in light mode.
    pub fn new() -> (r: Self)
        ensures
            r.mode == MixedUiWorldMode::WorldWithUiOverlay,
            r.overlay_ui_mode == OverlayUiMode::Flat,
            r.overlay_theme.wf(),
            r.overlay_theme.spec_theme() == ThemeId::Classic2D,
            r.overlay_theme.spec_dark_mode() == canonical_dark(ThemeId::Classic2D, false),
            !r.overlay_theme.spec_dirty(),
    {
        MixedUiWorldState {
            mode: MixedUiWorldMode::WorldWithUiOverlay,
            overlay_ui_mode: OverlayUiMode::Flat,
            overlay_theme: UiPhysicalThemeState::new(ThemeId::Classic2D, false),
        }
    }

    pub fn active_overlay_style(&self) -> (r: UiLayerStyle)
        ensures
            r == overlay_style_of(self.overlay_ui_mode),
    {
        match self.overlay_ui_mode {
            OverlayUiMode::Flat => UiLayerStyle::Flat,
            OverlayUiMode::Physical => UiLayerStyle::Physical,
        }
    }

    /// The offscreen target the overlay renders into.
    pub fn active_overlay_target(&self) -> (r: &'static str)
        ensures
            r@ == overlay_target_of(self.overlay_ui_mode),
    {
        match self.overlay_ui_mode {
            OverlayUiMode::Flat => MIXED_UI_TARGET,
            OverlayUiMode::Physical => MIXED_PHYSICAL_UI_TARGET,
        }
    }

    pub fn toggle_mode(&mut self)
        ensures
            final(self).mode == toggled_mode(old(self).mode),
            final(self).overlay_ui_mode == old(self).overlay_ui_mode,
            final(self).overlay_theme == old(self).overlay_theme,
    {
        self.mode = match self.mode {
            MixedUiWorldMode::WorldWithUiOverlay => MixedUiWorldMode::UiWithEmbeddedWorld,
            MixedUiWorldMode::UiWithEmbeddedWorld => MixedUiWorldMode::WorldWithUiOverlay,
        };
    }

    pub fn toggle_overlay_ui_mode(&mut self)
        ensures
            final(self).overlay_ui_mode == toggled_overlay(old(self).overlay_ui_mode),
            final(self).mode == old(self).mode,
            final(self).overlay_theme == old(self).overlay_theme,
    {
        self.overlay_ui_mode = match self.overlay_ui_mode {
            OverlayUiMode::Flat => OverlayUiMode::Physical,
            OverlayUiMode::Physical => OverlayUiMode::Flat,
        };
    }

    /// The UI host that is shown and receives list and scroll commands.
    pub fn active_ui(&self) -> (r: ActiveUi)
        ensures
            r == active_ui_of(self.mode, self.overlay_ui_mode),
    {
        match self.mode {
            MixedUiWorldMode::WorldWithUiOverlay => match self.overlay_ui_mode {
                OverlayUiMode::Flat => ActiveUi::FlatOverlay,
                OverlayUiMode::Physical => ActiveUi::PhysicalOverlay,
            },
            MixedUiWorldMode::UiWithEmbeddedWorld => ActiveUi::Embedded,
        }
    }

    /// The host that draws a UI layer of `style`: in front of the world,
    /// the overlay of that style; otherwise the embedded page.
    pub fn ui_layer_host(&self, style: UiLayerStyle) -> (r: ActiveUi)
        ensures
            r == match self.mode {
                MixedUiWorldMode::WorldWithUiOverlay => match style {
                    UiLayerStyle::Flat => ActiveUi::FlatOverlay,
                    UiLayerStyle::Physical => ActiveUi::PhysicalOverlay,
                },
                MixedUiWorldMode::UiWithEmbeddedWorld => ActiveUi::Embedded,
            },
    {
        match self.mode {
            MixedUiWorldMode::WorldWithUiOverlay => match style {
                UiLayerStyle::Flat => ActiveUi::FlatOverlay,
                UiLayerStyle::Physical => ActiveUi::PhysicalOverlay,
            },
            MixedUiWorldMode::UiWithEmbeddedWorld => ActiveUi::Embedded,
        }
    }

    /// Whether another frame is needed: the world animates on its own, or
    /// the active UI host has pending work (the physical overlay also when
    /// its theme changed). The arguments are what the hosts report.
    pub fn needs_redraw(
        &self,
        world_wants_continuous_redraw: bool,
        flat_overlay_needs_redraw: bool,
        physical_overlay_scene_needs_redraw: bool,
        embedded_needs_redraw: bool,
    ) -> (r: bool)
        ensures
            r == (world_wants_continuous_redraw || match active_ui_of(self.mode, self.overlay_ui_mode) {
                ActiveUi::FlatOverlay => flat_overlay_needs_redraw,
                ActiveUi::PhysicalOverlay => physical_overlay_scene_needs_redraw
                    || self.overlay_theme.spec_dirty(),
                ActiveUi::Embedded => embedded_needs_redraw,
            }),
    {
        let active_ui_needs_redraw = match self.active_ui() {
            ActiveUi::FlatOverlay => flat_overlay_needs_redraw,
            ActiveUi::PhysicalOverlay => physical_overlay_scene_needs_redraw || self.overlay_theme.is_dirty(),
            ActiveUi::Embedded => embedded_needs_redraw,
        };
        world_wants_continuous_redraw || active_ui_needs_redraw
    }

    /// The frame: the world offscreen under the overlay, or the embedded
    /// page offscreen with the world in the preview rectangle.
    pub fn build_frame_packet(&self) -> (r: FramePacket)
        ensures
            r.spec_items().len() == 4,
            self.mode == MixedUiWorldMode::WorldWithUiOverlay ==> {
                &&& is_offscreen_world(r.spec_items()[0], "Mixed World"@, MIXED_WORLD_TARGET@)
                &&& is_composite_of(
                    r.spec_items()[1],
                    "Mixed World"@,
                    r.spec_items()[0]->WorldView_0.target,
                    CompositeMode::Replace,
                    Some(black_color()),
                    fullscreen_rect(),
                )
                &&& is_offscreen_ui(
                    r.spec_items()[2],
                    "Mixed UI Overlay"@,
                    overlay_style_of(self.overlay_ui_mode),
                    overlay_target_of(self.overlay_ui_mode),
                )
                &&& is_composite_of(
                    r.spec_items()[3],
                    "Mixed UI Overlay"@,
                    r.spec_items()[2]->UiLayer_0.target,
                    CompositeMode::Over,
                    None,
                    fullscreen_rect(),
                )
            },
            self.mode == MixedUiWorldMode::UiWithEmbeddedWorld ==> {
                &&& is_offscreen_ui(r.spec_items()[0], "Mixed UI"@, UiLayerStyle::Flat, MIXED_EMBEDDED_UI_TARGET@)
                &&& is_composite_of(
                    r.spec_items()[1],
                    "Mixed UI"@,
                    r.spec_items()[0]->UiLayer_0.target,
                    CompositeMode::Over,
                    None,
                    fullscreen_rect(),
                )
                &&& is_offscreen_world(r.spec_items()[2], "Embedded World"@, MIXED_PREVIEW_TARGET@)
                &&& is_composite_of(
                    r.spec_items()[3],
                    "Embedded World"@,
                    r.spec_items()[2]->WorldView_0.target,
                    CompositeMode::Over,
                    None,
                    preview_rect(),
                )
            },
    {
        match self.mode {
            MixedUiWorldMode::WorldWithUiOverlay => ComposedScene::from_world_with_ui_overlay(
                WorldView::new("Mixed World").to_offscreen(MIXED_WORLD_TARGET),
                UiLayer::new("Mixed UI Overlay", self.active_overlay_style()).to_offscreen(
                    self.active_overlay_target(),
                ).transparent(),
            ).into_frame_packet(),
            MixedUiWorldMode::UiWithEmbeddedWorld => ComposedScene::from_ui_with_embedded_world_view(
                UiLayer::new("Mixed UI", UiLayerStyle::Flat).to_offscreen(MIXED_EMBEDDED_UI_TARGET).transparent(),
                WorldView::new("Embedded World").to_offscreen(MIXED_PREVIEW_TARGET),
                mixed_preview_rect(),
            ).into_frame_packet(),
        }
    }

    /// Handles a demo key: `B` swaps the scenes, `P` switches the overlay
    /// between flat and physical, and, while the physical overlay is in
    /// front, `N` cycles its theme and `M` toggles its dark mode. Returns
    /// whether the key was used; an unused key changes nothing.
    pub fn handle_key_pressed(&mut self, code: KeyCode) -> (used: bool)
        requires
            old(self).overlay_theme.wf(),
        ensures
            final(self).overlay_theme.wf(),
            ({
                let physical_in_front = old(self).mode == MixedUiWorldMode::WorldWithUiOverlay
                    && old(self).overlay_ui_mode == OverlayUiMode::Physical;
                let t = old(self).overlay_theme;
                if code == KeyCode::Letter(1) {
                    &&& used
                    &&& final(self).mode == toggled_mode(old(self).mode)
                    &&& final(self).overlay_ui_mode == old(self).overlay_ui_mode
                    &&& final(self).overlay_theme == t
                } else if code == KeyCode::Letter(15) {
                    &&& used
                    &&& final(self).mode == old(self).mode
                    &&& final(self).overlay_ui_mode == toggled_overlay(old(self).overlay_ui_mode)
                    &&& final(self).overlay_theme == t
                } else if code == KeyCode::Letter(13) && physical_in_front {
                    &&& used
                    &&& final(self).mode == old(self).mode
                    &&& final(self).overlay_ui_mode == old(self).overlay_ui_mode
                    &&& final(self).overlay_theme.spec_theme() == next_theme(t.spec_theme())
                    &&& final(self).overlay_theme.spec_dark_mode() == canonical_dark(
                        next_theme(t.spec_theme()),
                        t.spec_dark_mode(),
                    )
                    &&& final(self).overlay_theme.spec_dirty()
                } else if code == KeyCode::Letter(12) && physical_in_front {
                    &&& used
                    &&& final(self).mode == old(self).mode
                    &&& final(self).overlay_ui_mode == old(self).overlay_ui_mode
                    &&& final(self).overlay_theme.spec_theme() == t.spec_theme()
                    &&& final(self).overlay_theme.spec_dark_mode() == canonical_dark(
                        t.spec_theme(),
                        !t.spec_dark_mode(),
                    )
                    &&& final(self).overlay_theme.spec_dirty()
                } else {
                    !used && *final(self) == *old(self)
                }
            }),
    {
        let physical_in_front = self.mode == MixedUiWorldMode::WorldWithUiOverlay && self.overlay_ui_mode
            == OverlayUiMode::Physical;
        if code == KeyCode::Letter(1) {
            self.toggle_mode();
            true
        } else if code == KeyCode::Letter(15) {
            self.toggle_overlay_ui_mode();
            true
        } else if code == KeyCode::Letter(13) && physical_in_front {
            self.overlay_theme.cycle_theme();
            true
        } else if code == KeyCode::Letter(12) && physical_in_front {
            self.overlay_theme.toggle_dark_mode();
            true
        } else {
            false
        }
    }
}

/// Swapping the scenes twice, or the overlay style twice, restores the
/// demo's choices.
pub proof fn lemma_mixed_toggles_are_involutions(mode: MixedUiWorldMode, overlay: OverlayUiMode)
    ensures
        toggled_mode(toggled_mode(mode)) == mode,
        toggled_overlay(toggled_overlay(overlay)) == overlay,
{
}

} // verus!
