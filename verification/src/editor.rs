//! The level-editor session and its per-tick step function.
//!
//! A session owns the camera, the drag bookkeeping, the tile canvas, the
//! selected atlas index and the most recent cursor world position. Each
//! tick the UI overlay runs first and reports whether it claims the
//! pointer; every world-interaction event is then applied through
//! [`EditorSession::apply`], which consults that claim before touching
//! anything. The overlay's own controls (tile selection) act regardless of
//! the claim, and its state-transition control feeds [`AppFlow::set_state`]
//! directly.
use vstd::prelude::*;

use crate::atlas::CaveAtlases;
use crate::camera::{
    begin_drag, camera_init, continue_drag, drag_init, end_drag, spec_begin_drag,
    spec_continue_drag, spec_zoom, zoom, CameraDragState, CameraState, AMOUNT_LIMIT,
};
use crate::cursor::{cursor_to_world, spec_cursor_world, Viewport, WorldCoordinates};
use crate::fixed::{Vec2i, PIXEL_LIMIT, WORLD_INPUT_LIMIT};
use crate::states::GameState;
use crate::tiles::{spec_new_tile, spec_occupied, spec_remove_hits, TileCanvas};

verus! {

/// The atlas index the next placement will use.
#[derive(Clone, Copy, PartialEq, Eq, Structural, Debug)]
pub struct SelectedTile {
    pub index: usize,
}

impl Default for SelectedTile {
    /// The first atlas entry is selected until the picker is used.
    fn default() -> (r: SelectedTile)
        ensures
            r.index == 0,
    {
        SelectedTile { index: 0 }
    }
}

/// Everything the level editor owns while its mode is active.
#[derive(Clone, PartialEq, Eq, Debug)]
pub struct EditorSession {
    pub camera: CameraState,
    pub drag: CameraDragState,
    pub canvas: TileCanvas,
    pub selected: SelectedTile,
    pub cursor_world: WorldCoordinates,
}

impl EditorSession {
    /// Camera, drag state and tiles are well-formed, and the held cursor
    /// world position is within the bounds the operations expect.
    pub open spec fn wf(self) -> bool {
        &&& self.camera.wf()
        &&& self.drag.wf()
        &&& self.canvas.wf()
        &&& self.cursor_world.0.within(WORLD_INPUT_LIMIT)
    }

    /// A freshly initialized session: default camera, idle drag, no tiles,
    /// first atlas entry selected, cursor position at the origin.
    pub open spec fn is_fresh(self) -> bool {
        &&& self.camera == camera_init()
        &&& self.drag == drag_init()
        &&& self.canvas@ == Seq::<crate::tiles::Tile>::empty()
        &&& self.selected.index == 0
        &&& self.cursor_world.0 == (Vec2i { x: 0, y: 0 })
    }

    /// Creates the fresh session that entering the editor mode installs.
    pub fn new() -> (r: EditorSession)
        ensures
            r.is_fresh(),
            r.wf(),
    {
        EditorSession {
            camera: Default::default(),
            drag: Default::default(),
            canvas: TileCanvas::new(),
            selected: Default::default(),
            cursor_world: Default::default(),
        }
    }
}

/// One world-interaction or picker event of a tick, already reduced to
/// plain values by the input layer.
#[derive(Clone, Copy, PartialEq, Eq, Structural, Debug)]
pub enum EditorInput {
    /// The pan trigger was pressed at this device cursor position.
    BeginDrag { cursor: Vec2i },
    /// The cursor moved while the pan trigger is held.
    ContinueDrag { cursor: Vec2i },
    /// The pan trigger was released.
    EndDrag,
    /// The wheel turned by this amount (milli-notches), anchored at the
    /// held cursor world position.
    Zoom { amount: i64 },
    /// The cursor moved to this device position within this viewport.
    CursorMoved { cursor: Vec2i, viewport: Viewport },
    /// The place trigger was pressed.
    Place,
    /// The erase trigger was pressed.
    Remove,
    /// The picker chose this atlas index.
    SelectTile { index: usize },
}

/// The payload bounds the step function expects of an event.
pub open spec fn event_ok(e: EditorInput) -> bool {
    match e {
        EditorInput::BeginDrag { cursor } => cursor.within(PIXEL_LIMIT),
        EditorInput::ContinueDrag { cursor } => cursor.within(PIXEL_LIMIT),
        EditorInput::EndDrag => true,
        EditorInput::Zoom { amount } => -AMOUNT_LIMIT <= amount <= AMOUNT_LIMIT,
        EditorInput::CursorMoved { cursor, viewport } => viewport.wf(),
        EditorInput::Place => true,
        EditorInput::Remove => true,
        EditorInput::SelectTile { index } => true,
    }
}

/// How one event carries a session to its successor, given the UI
/// overlay's pointer claim and the atlas. Every camera or tile mutation is
/// suppressed under the claim; the picker acts regardless, since it is the
/// overlay's own control, and a pan release always returns the drag state
/// to idle.
pub open spec fn spec_apply(
    s: EditorSession,
    e: EditorInput,
    ui_captured: bool,
    atlas: CaveAtlases,
    t: EditorSession,
) -> bool {
    match e {
        EditorInput::BeginDrag { cursor } => {
            &&& t.camera == s.camera
            &&& t.canvas@ == s.canvas@
            &&& t.selected == s.selected
            &&& t.cursor_world == s.cursor_world
            &&& t.drag == (if ui_captured {
                s.drag
            } else {
                spec_begin_drag(cursor)
            })
        },
        EditorInput::ContinueDrag { cursor } => {
            &&& (t.camera, t.drag) == (if ui_captured {
                (s.camera, s.drag)
            } else {
                spec_continue_drag(s.camera, s.drag, cursor)
            })
            &&& t.canvas@ == s.canvas@
            &&& t.selected == s.selected
            &&& t.cursor_world == s.cursor_world
        },
        EditorInput::EndDrag => {
            &&& t.camera == s.camera
            &&& t.canvas@ == s.canvas@
            &&& t.selected == s.selected
            &&& t.cursor_world == s.cursor_world
            &&& t.drag == drag_init()
        },
        EditorInput::Zoom { amount } => {
            &&& t.camera == (if ui_captured {
                s.camera
            } else {
                spec_zoom(s.camera, amount as int, s.cursor_world.0)
            })
            &&& t.drag == s.drag
            &&& t.canvas@ == s.canvas@
            &&& t.selected == s.selected
            &&& t.cursor_world == s.cursor_world
        },
        EditorInput::CursorMoved { cursor, viewport } => {
            &&& t.camera == s.camera
            &&& t.drag == s.drag
            &&& t.canvas@ == s.canvas@
            &&& t.selected == s.selected
            &&& t.cursor_world.0 == (match spec_cursor_world(cursor, viewport, s.camera) {
                Some(p) => p,
                None => s.cursor_world.0,
            })
        },
        EditorInput::Place => {
            &&& t.camera == s.camera
            &&& t.drag == s.drag
            &&& t.selected == s.selected
            &&& t.cursor_world == s.cursor_world
            &&& t.canvas@ == (if !ui_captured && !spec_occupied(s.canvas@, s.cursor_world.0)
                && s.selected.index < atlas.regions@.len() {
                s.canvas@.push(
                    spec_new_tile(
                        s.cursor_world.0,
                        s.selected.index,
                        atlas.regions@[s.selected.index as int],
                    ),
                )
            } else {
                s.canvas@
            })
        },
        EditorInput::Remove => {
            &&& t.camera == s.camera
            &&& t.drag == s.drag
            &&& t.selected == s.selected
            &&& t.cursor_world == s.cursor_world
            &&& t.canvas@ == (if ui_captured {
                s.canvas@
            } else {
                spec_remove_hits(s.canvas@, s.cursor_world.0)
            })
        },
        EditorInput::SelectTile { index } => {
            &&& t.camera == s.camera
            &&& t.drag == s.drag
            &&& t.canvas@ == s.canvas@
            &&& t.selected.index == index
            &&& t.cursor_world == s.cursor_world
        },
    }
}

impl EditorSession {
    /// Applies one event to the session, under the UI overlay's pointer
    /// claim of this tick.
    pub fn apply(&mut self, e: EditorInput, ui_captured: bool, atlas: &CaveAtlases)
        requires
            old(self).wf(),
            event_ok(e),
        ensures
            final(self).wf(),
            spec_apply(*old(self), e, ui_captured, *atlas, *final(self)),
    {
        match e {
            EditorInput::BeginDrag { cursor } => {
                begin_drag(&mut self.drag, cursor, ui_captured);
            },
            EditorInput::ContinueDrag { cursor } => {
                continue_drag(&mut self.camera, &mut self.drag, cursor, ui_captured);
            },
            EditorInput::EndDrag => {
                end_drag(&mut self.drag);
            },
            EditorInput::Zoom { amount } => {
                let anchor: Vec2i = self.cursor_world.0;
                zoom(&mut self.camera, amount, anchor, ui_captured);
            },
            EditorInput::CursorMoved { cursor, viewport } => {
                match cursor_to_world(cursor, viewport, &self.camera) {
                    Some(p) => {
                        self.cursor_world = WorldCoordinates(p);
                    },
                    None => {},
                }
            },
            EditorInput::Place => {
                let p: Vec2i = self.cursor_world.0;
                let idx: usize = self.selected.index;
                let _ = self.canvas.try_place(p, idx, atlas, ui_captured);
            },
            EditorInput::Remove => {
                let p: Vec2i = self.cursor_world.0;
                let _ = self.canvas.try_remove_at(p, ui_captured);
            },
            EditorInput::SelectTile { index } => {
                self.selected = SelectedTile { index };
            },
        }
    }
}

/// Law: one event under an active pointer claim leaves camera and tiles
/// alone.
pub proof fn lemma_capture_blocks_step(
    s: EditorSession,
    e: EditorInput,
    atlas: CaveAtlases,
    t: EditorSession,
)
    requires
        spec_apply(s, e, true, atlas, t),
    ensures
        t.camera == s.camera,
        t.canvas@ == s.canvas@,
{
}

/// Law: with the UI overlay claiming the pointer, no input sequence of any
/// length mutates the camera state or the tile set. `trace` lists the
/// session before and after each event of `events`, each step related by
/// `spec_apply` under an active claim.
pub proof fn lemma_capture_blocks_world(
    trace: Seq<EditorSession>,
    events: Seq<EditorInput>,
    atlas: CaveAtlases,
)
    requires
        trace.len() == events.len() + 1,
        forall|i: int|
            0 <= i < events.len() ==> spec_apply(trace[i], events[i], true, atlas, trace[i + 1]),
    ensures
        trace.last().camera == trace[0].camera,
        trace.last().canvas@ == trace[0].canvas@,
    decreases events.len(),
{
    if events.len() > 0 {
        lemma_capture_blocks_world(trace.drop_last(), events.drop_last(), atlas);
        let n = events.len() as int;
        assert(spec_apply(trace[n - 1], events[n - 1], true, atlas, trace[n]));
        lemma_capture_blocks_step(trace[n - 1], events[n - 1], atlas, trace[n]);
        assert(trace.drop_last().last() == trace[n - 1]);
        assert(trace.drop_last()[0] == trace[0]);
    }
}

/// The application shell: the current mode and, exactly while the mode is
/// the level editor, the session it owns.
#[derive(Clone, PartialEq, Eq, Debug)]
pub struct AppFlow {
    pub state: GameState,
    pub editor: Option<EditorSession>,
}

impl AppFlow {
    /// A session exists exactly in editor mode, and is well-formed.
    pub open spec fn wf(self) -> bool {
        &&& self.state is LevelEditor <==> self.editor is Some
        &&& self.editor is Some ==> self.editor->0.wf()
    }

    /// The shell as the application starts: at the main menu, no session.
    pub fn new() -> (r: AppFlow)
        ensures
            r.state == GameState::MainMenu,
            r.editor is None,
            r.wf(),
    {
        AppFlow { state: GameState::MainMenu, editor: None }
    }

    /// Moves the mode machine to `target`. A repeated target changes
    /// nothing; entering the editor installs a fresh session; leaving it
    /// tears the session down unconditionally, placed tiles included.
    pub fn set_state(&mut self, target: GameState)
        requires
            old(self).wf(),
        ensures
            final(self).wf(),
            spec_set_state(*old(self), target, *final(self)),
    {
        if self.state == target {
            return;
        }
        self.state = target;
        if target == GameState::LevelEditor {
            self.editor = Some(EditorSession::new());
        } else {
            self.editor = None;
        }
    }
}

/// How `set_state` carries the shell from `s` to `t`.
pub open spec fn spec_set_state(s: AppFlow, target: GameState, t: AppFlow) -> bool {
    if target == s.state {
        t == s
    } else {
        &&& t.state == target
        &&& (target is LevelEditor ==> t.editor is Some && t.editor->0.is_fresh())
        &&& (!(target is LevelEditor) ==> t.editor is None)
    }
}

/// Law: leaving the level editor and entering it again always yields an
/// empty tile set and a freshly default-initialized camera, whatever the
/// prior session held.
pub proof fn lemma_reenter_editor_fresh(a0: AppFlow, a1: AppFlow, a2: AppFlow)
    requires
        a0.state is LevelEditor,
        spec_set_state(a0, GameState::MainMenu, a1),
        spec_set_state(a1, GameState::LevelEditor, a2),
    ensures
        a2.editor is Some,
        a2.editor->0.is_fresh(),
        a2.editor->0.canvas@.len() == 0,
        a2.editor->0.camera == camera_init(),
{
}

} // verus!
