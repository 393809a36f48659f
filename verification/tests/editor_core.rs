use cave_editor::atlas::build_atlas;
use cave_editor::camera::{
    begin_drag, continue_drag, end_drag, zoom, CameraDragState, CameraState,
};
use cave_editor::cursor::{cursor_to_world, Viewport};
use cave_editor::editor::{AppFlow, EditorInput, EditorSession};
use cave_editor::fixed::Vec2i;
use cave_editor::menu::{menu_interaction, Interaction, MenuButtonAction, MenuCommand};
use cave_editor::states::{GameState, LoadPoll, LoadStatus, poll_assets};
use cave_editor::tiles::{PlaceError, TileCanvas};

fn one_tile_atlas() -> cave_editor::atlas::CaveAtlases {
    build_atlas(b"name,x,y,w,h\ntile,0,0,100,100\n", 100, 100).unwrap()
}

#[test]
fn zoom_keeps_world_point_under_cursor() {
    let vp = Viewport { width: 800, height: 600 };
    let mut cam = CameraState::default();
    let cursor = Vec2i { x: 500, y: 200 };
    let before = cursor_to_world(cursor, vp, &cam).unwrap();
    assert_eq!(before, Vec2i { x: 100_000, y: 100_000 });
    zoom(&mut cam, 1000, before, false);
    assert_eq!(cam.scale, 900);
    assert_eq!(cam.x, 10_000);
    assert_eq!(cam.y, 10_000);
    let after = cursor_to_world(cursor, vp, &cam).unwrap();
    assert_eq!(after, before);
}

#[test]
fn zoom_keeps_cursor_point_over_many_steps() {
    let vp = Viewport { width: 1024, height: 768 };
    let mut cam = CameraState { x: 44_000, y: -3_000, scale: 700 };
    let cursor = Vec2i { x: 31, y: 700 };
    let amounts: [i64; 6] = [1000, -2000, 500, 3000, -1000, 250];
    for a in amounts {
        let before = cursor_to_world(cursor, vp, &cam).unwrap();
        zoom(&mut cam, a, before, false);
        let after = cursor_to_world(cursor, vp, &cam).unwrap();
        assert_eq!(after, before);
        assert!(cam.scale >= 100 && cam.scale <= 2000);
    }
}

#[test]
fn zoom_scale_clamps_low_and_high() {
    let mut cam = CameraState::default();
    zoom(&mut cam, 1_000_000, Vec2i { x: 0, y: 0 }, false);
    assert_eq!(cam.scale, 100);
    let mut cam2 = CameraState::default();
    zoom(&mut cam2, -1_000_000, Vec2i { x: 0, y: 0 }, false);
    assert_eq!(cam2.scale, 2000);
}

#[test]
fn zoom_with_zero_amount_changes_nothing() {
    let mut cam = CameraState { x: 5, y: 6, scale: 1500 };
    zoom(&mut cam, 0, Vec2i { x: 77, y: 88 }, false);
    assert_eq!(cam, CameraState { x: 5, y: 6, scale: 1500 });
}

#[test]
fn drag_moves_camera_against_cursor_with_y_inverted() {
    let mut cam = CameraState::default();
    let mut drag = CameraDragState::default();
    begin_drag(&mut drag, Vec2i { x: 100, y: 100 }, false);
    assert!(drag.is_dragging);
    continue_drag(&mut cam, &mut drag, Vec2i { x: 110, y: 90 }, false);
    assert_eq!(cam.x, -10_000);
    assert_eq!(cam.y, -10_000);
    assert_eq!(drag.last_mouse_position, Some(Vec2i { x: 110, y: 90 }));
    end_drag(&mut drag);
    assert!(!drag.is_dragging);
    assert_eq!(drag.last_mouse_position, None);
}

#[test]
fn drag_speed_scales_with_zoom() {
    let mut cam = CameraState { x: 0, y: 0, scale: 500 };
    let mut drag = CameraDragState::default();
    begin_drag(&mut drag, Vec2i { x: 0, y: 0 }, false);
    continue_drag(&mut cam, &mut drag, Vec2i { x: 4, y: 0 }, false);
    assert_eq!(cam.x, -2_000);
}

#[test]
fn inactive_drag_is_a_no_op() {
    let mut cam = CameraState::default();
    let mut drag = CameraDragState::default();
    continue_drag(&mut cam, &mut drag, Vec2i { x: 50, y: 50 }, false);
    assert_eq!(cam, CameraState::default());
    assert!(!drag.is_dragging);
}

#[test]
fn cursor_outside_viewport_maps_to_none() {
    let vp = Viewport { width: 800, height: 600 };
    let cam = CameraState::default();
    assert_eq!(cursor_to_world(Vec2i { x: 900, y: 100 }, vp, &cam), None);
    assert_eq!(cursor_to_world(Vec2i { x: 100, y: -1 }, vp, &cam), None);
    assert!(cursor_to_world(Vec2i { x: 800, y: 600 }, vp, &cam).is_some());
}

#[test]
fn placed_tile_render_size_is_one_fifth_of_region() {
    let atlas = one_tile_atlas();
    let mut canvas = TileCanvas::new();
    let t = canvas
        .try_place(Vec2i { x: 0, y: 0 }, 0, &atlas, false)
        .unwrap();
    assert_eq!(t.render_size, Vec2i { x: 20_000, y: 20_000 });
    let r = canvas.try_place(Vec2i { x: 9_000, y: -9_000 }, 0, &atlas, false);
    assert_eq!(r, Err(PlaceError::Occupied));
}

#[test]
fn placement_on_box_border_is_rejected() {
    let atlas = one_tile_atlas();
    let mut canvas = TileCanvas::new();
    canvas.try_place(Vec2i { x: 0, y: 0 }, 0, &atlas, false).unwrap();
    let on_border = canvas.try_place(Vec2i { x: 10_000, y: 0 }, 0, &atlas, false);
    assert_eq!(on_border, Err(PlaceError::Occupied));
    let outside = canvas.try_place(Vec2i { x: 10_001, y: 0 }, 0, &atlas, false);
    assert!(outside.is_ok());
}

#[test]
fn double_place_at_same_point_rejects_second() {
    let atlas = one_tile_atlas();
    let mut canvas = TileCanvas::new();
    let p = Vec2i { x: 1234, y: -777 };
    assert!(canvas.try_place(p, 0, &atlas, false).is_ok());
    assert_eq!(canvas.try_place(p, 0, &atlas, false), Err(PlaceError::Occupied));
}

#[test]
fn place_then_remove_leaves_no_tile_at_point() {
    let atlas = one_tile_atlas();
    let mut canvas = TileCanvas::new();
    let p = Vec2i { x: 5_000, y: 5_000 };
    canvas.try_place(p, 0, &atlas, false).unwrap();
    let removed = canvas.try_remove_at(p, false);
    assert_eq!(removed, 1);
    assert_eq!(canvas.len(), 0);
    assert!(!canvas.occupied_at(p));
}

#[test]
fn remove_is_exhaustive_over_overlapping_tiles() {
    let atlas = one_tile_atlas();
    let mut canvas = TileCanvas::new();
    canvas.try_place(Vec2i { x: 0, y: 0 }, 0, &atlas, false).unwrap();
    canvas.try_place(Vec2i { x: 15_000, y: 0 }, 0, &atlas, false).unwrap();
    canvas.try_place(Vec2i { x: 60_000, y: 0 }, 0, &atlas, false).unwrap();
    let removed = canvas.try_remove_at(Vec2i { x: 7_500, y: 0 }, false);
    assert_eq!(removed, 2);
    assert_eq!(canvas.len(), 1);
    assert_eq!(canvas.get(0).world_position, Vec2i { x: 60_000, y: 0 });
}

#[test]
fn empty_atlas_placement_is_index_out_of_range() {
    let atlas = build_atlas(b"name,x,y,w,h\n", 1, 1).unwrap();
    let mut canvas = TileCanvas::new();
    let r = canvas.try_place(Vec2i { x: 0, y: 0 }, 0, &atlas, false);
    assert_eq!(r, Err(PlaceError::IndexOutOfRange));
}

#[test]
fn pointer_capture_rejects_placement_and_removal() {
    let atlas = one_tile_atlas();
    let mut canvas = TileCanvas::new();
    let r = canvas.try_place(Vec2i { x: 0, y: 0 }, 0, &atlas, true);
    assert_eq!(r, Err(PlaceError::PointerCaptured));
    assert_eq!(canvas.len(), 0);
    canvas.try_place(Vec2i { x: 0, y: 0 }, 0, &atlas, false).unwrap();
    let removed = canvas.try_remove_at(Vec2i { x: 0, y: 0 }, true);
    assert_eq!(removed, 0);
    assert_eq!(canvas.len(), 1);
}

#[test]
fn pointer_capture_blocks_camera_and_tiles() {
    let atlas = one_tile_atlas();
    let mut s = EditorSession::new();
    let before = s.clone();
    s.apply(EditorInput::BeginDrag { cursor: Vec2i { x: 10, y: 10 } }, true, &atlas);
    s.apply(EditorInput::ContinueDrag { cursor: Vec2i { x: 90, y: 40 } }, true, &atlas);
    s.apply(EditorInput::Zoom { amount: 3000 }, true, &atlas);
    s.apply(EditorInput::Place, true, &atlas);
    s.apply(EditorInput::Remove, true, &atlas);
    s.apply(EditorInput::EndDrag, true, &atlas);
    assert_eq!(s.camera, before.camera);
    assert_eq!(s.canvas, before.canvas);
    assert!(!s.drag.is_dragging);
}

#[test]
fn drag_release_clears_even_under_pointer_capture() {
    let atlas = one_tile_atlas();
    let mut s = EditorSession::new();
    s.apply(EditorInput::BeginDrag { cursor: Vec2i { x: 10, y: 10 } }, false, &atlas);
    assert!(s.drag.is_dragging);
    s.apply(EditorInput::EndDrag, true, &atlas);
    assert!(!s.drag.is_dragging);
    assert_eq!(s.drag.last_mouse_position, None);
}

#[test]
fn session_events_drive_placement_through_cursor() {
    let atlas = one_tile_atlas();
    let vp = Viewport { width: 800, height: 600 };
    let mut s = EditorSession::new();
    s.apply(
        EditorInput::CursorMoved { cursor: Vec2i { x: 450, y: 250 }, viewport: vp },
        false,
        &atlas,
    );
    assert_eq!(s.cursor_world.0, Vec2i { x: 50_000, y: 50_000 });
    s.apply(EditorInput::SelectTile { index: 0 }, false, &atlas);
    s.apply(EditorInput::Place, false, &atlas);
    assert_eq!(s.canvas.len(), 1);
    assert_eq!(s.canvas.get(0).world_position, Vec2i { x: 50_000, y: 50_000 });
    assert_eq!(s.canvas.get(0).atlas_index, 0);
    s.apply(EditorInput::Remove, false, &atlas);
    assert_eq!(s.canvas.len(), 0);
}

#[test]
fn reentering_editor_resets_session() {
    let atlas = one_tile_atlas();
    let mut app = AppFlow::new();
    assert_eq!(app.state, GameState::MainMenu);
    app.set_state(GameState::LevelEditor);
    {
        let s = app.editor.as_mut().unwrap();
        s.apply(EditorInput::Place, false, &atlas);
        s.apply(EditorInput::Zoom { amount: 2000 }, false, &atlas);
        s.apply(EditorInput::SelectTile { index: 3 }, false, &atlas);
        assert_eq!(s.canvas.len(), 1);
    }
    app.set_state(GameState::MainMenu);
    assert!(app.editor.is_none());
    app.set_state(GameState::LevelEditor);
    let s = app.editor.as_ref().unwrap();
    assert_eq!(s.canvas.len(), 0);
    assert_eq!(s.camera, CameraState::default());
    assert_eq!(s.selected.index, 0);
    assert!(!s.drag.is_dragging);
}

#[test]
fn menu_buttons_issue_their_commands() {
    let (color, cmd) = menu_interaction(Interaction::Pressed, MenuButtonAction::Play);
    assert_eq!(color, (350, 750, 350));
    assert_eq!(cmd, Some(MenuCommand::Transition(GameState::InGame)));
    let (_, cmd2) = menu_interaction(Interaction::Pressed, MenuButtonAction::LevelEditor);
    assert_eq!(cmd2, Some(MenuCommand::Transition(GameState::LevelEditor)));
    let (_, cmd3) = menu_interaction(Interaction::Pressed, MenuButtonAction::Quit);
    assert_eq!(cmd3, Some(MenuCommand::Exit));
    let (hov, none1) = menu_interaction(Interaction::Hovered, MenuButtonAction::Quit);
    assert_eq!(hov, (250, 250, 250));
    assert_eq!(none1, None);
    let (idle, none2) = menu_interaction(Interaction::Inactive, MenuButtonAction::Play);
    assert_eq!(idle, (150, 150, 150));
    assert_eq!(none2, None);
}

#[test]
fn loading_gate_waits_builds_and_aborts() {
    assert_eq!(poll_assets(LoadStatus::Pending, LoadStatus::Pending), LoadPoll::Wait);
    assert_eq!(poll_assets(LoadStatus::Ready, LoadStatus::Pending), LoadPoll::Wait);
    assert_eq!(poll_assets(LoadStatus::Pending, LoadStatus::Ready), LoadPoll::Wait);
    assert_eq!(poll_assets(LoadStatus::Ready, LoadStatus::Ready), LoadPoll::Build);
    assert_eq!(poll_assets(LoadStatus::Failed, LoadStatus::Ready), LoadPoll::Abort);
    assert_eq!(poll_assets(LoadStatus::Ready, LoadStatus::Failed), LoadPoll::Abort);
    assert_eq!(poll_assets(LoadStatus::Failed, LoadStatus::Failed), LoadPoll::Abort);
}
