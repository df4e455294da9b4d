//! The shared command flags of the interface and the state of the mouse
//! cursor: which picture it shows and how it reacts to what lies under it.
use vstd::prelude::*;

verus! {

/// What the cursor currently offers to do.
#[derive(Clone, Copy, PartialEq, Eq, Structural, Debug)]
pub enum CursorState {
    Relocate,
    Select,
    Build,
    Standard,
}

impl Default for CursorState {
    fn default() -> (r: Self)
        ensures
            r == CursorState::Standard,
    {
        CursorState::Standard
    }
}

/// Flags shared by the input systems.
#[derive(Clone, Copy, PartialEq, Eq, Structural, Debug)]
pub struct GameCommands {
    /// The player is dragging a selection box.
    pub drag_select: bool,
    /// At least one unit is selected.
    pub is_any_selected: bool,
    /// The mouse is over the command interface.
    pub hvr_cmd_interface: bool,
}

impl Default for GameCommands {
    fn default() -> (r: Self)
        ensures
            !r.drag_select,
            !r.is_any_selected,
            !r.hvr_cmd_interface,
    {
        GameCommands { drag_select: false, is_any_selected: false, hvr_cmd_interface: false }
    }
}

/// What a ray cast from the cursor into the scene found.
#[derive(Clone, Copy, PartialEq, Eq, Structural, Debug)]
pub enum CursorHit {
    /// The ray hit nothing.
    Nothing,
    /// The ray hit something that is not a unit.
    Other,
    /// The ray hit a unit.
    Unit,
}

/// The cursor's next state, as `update_cursor_img` decides it.
pub open spec fn spec_next_cursor_state(state: CursorState, game_cmds: GameCommands, hit: CursorHit) -> CursorState {
    if hit != CursorHit::Nothing && !game_cmds.drag_select && state != CursorState::Build
        && !game_cmds.hvr_cmd_interface {
        if hit == CursorHit::Unit {
            CursorState::Select
        } else {
            state
        }
    } else if game_cmds.is_any_selected && !game_cmds.drag_select {
        CursorState::Relocate
    } else if !game_cmds.drag_select && state != CursorState::Build {
        CursorState::Standard
    } else {
        state
    }
}

/// The picture the cursor shows.
#[derive(Clone, Copy, PartialEq, Eq, Structural, Debug)]
pub enum CursorImage {
    Relocate,
    Standard,
    Select,
}

/// How the cursor is drawn: whether it is visible, its picture, and the
/// picture's hot spot in pixels.
#[derive(Clone, Copy, PartialEq, Eq, Structural, Debug)]
pub struct CursorLook {
    pub visible: bool,
    pub image: CursorImage,
    pub hotspot_x: u16,
    pub hotspot_y: u16,
}

/// How the cursor is drawn in each state (hidden while a structure is being
/// placed).
pub open spec fn spec_cursor_look(state: CursorState) -> CursorLook {
    match state {
        CursorState::Relocate => CursorLook { visible: true, image: CursorImage::Relocate, hotspot_x: 2, hotspot_y: 2 },
        CursorState::Standard => CursorLook { visible: true, image: CursorImage::Standard, hotspot_x: 0, hotspot_y: 0 },
        CursorState::Select => CursorLook { visible: true, image: CursorImage::Select, hotspot_x: 25, hotspot_y: 25 },
        CursorState::Build => CursorLook { visible: false, image: CursorImage::Relocate, hotspot_x: 0, hotspot_y: 0 },
    }
}

/// Updates the cursor state from what lies under the cursor and returns how
/// the cursor must be drawn.  Over a unit (not dragging, not building, not on
/// the interface) the cursor offers to select it; with units selected it
/// offers to move them; otherwise it is the standard cursor, except that a
/// drag keeps the state and build mode is kept unless units are selected.
pub fn update_cursor_img(game_cmds: &GameCommands, hit: CursorHit, cursor_state: &mut CursorState) -> (r: CursorLook)
    ensures
        *final(cursor_state) == spec_next_cursor_state(*old(cursor_state), *game_cmds, hit),
        r == spec_cursor_look(*final(cursor_state)),
        *final(cursor_state) == CursorState::Relocate ==> r.image == CursorImage::Relocate && r.visible
            && r.hotspot_x == 2 && r.hotspot_y == 2,
        *final(cursor_state) == CursorState::Select ==> r.image == CursorImage::Select && r.visible
            && r.hotspot_x == 25 && r.hotspot_y == 25,
        *final(cursor_state) == CursorState::Standard ==> r.image == CursorImage::Standard && r.visible
            && r.hotspot_x == 0 && r.hotspot_y == 0,
        r.visible <==> *final(cursor_state) != CursorState::Build,
{
    if hit != CursorHit::Nothing && !game_cmds.drag_select && *cursor_state != CursorState::Build
        && !game_cmds.hvr_cmd_interface {
        if hit == CursorHit::Unit {
            *cursor_state = CursorState::Select;
        }
    } else if game_cmds.is_any_selected && !game_cmds.drag_select {
        *cursor_state = CursorState::Relocate;
    } else if !game_cmds.drag_select && *cursor_state != CursorState::Build {
        *cursor_state = CursorState::Standard;
    }
    match *cursor_state {
        CursorState::Relocate => CursorLook { visible: true, image: CursorImage::Relocate, hotspot_x: 2, hotspot_y: 2 },
        CursorState::Standard => CursorLook { visible: true, image: CursorImage::Standard, hotspot_x: 0, hotspot_y: 0 },
        CursorState::Select => CursorLook { visible: true, image: CursorImage::Select, hotspot_x: 25, hotspot_y: 25 },
        CursorState::Build => CursorLook { visible: false, image: CursorImage::Relocate, hotspot_x: 0, hotspot_y: 0 },
    }
}

/// Law: while a selection box is being dragged the cursor keeps its state.
pub proof fn lemma_drag_keeps_cursor(state: CursorState, game_cmds: GameCommands, hit: CursorHit)
    requires
        game_cmds.drag_select,
    ensures
        spec_next_cursor_state(state, game_cmds, hit) == state,
{
}

/// Law: build mode is only left for the move cursor, and only when units are
/// selected; with nothing selected, placing a structure keeps build mode.
pub proof fn lemma_build_mode_sticks(game_cmds: GameCommands, hit: CursorHit)
    ensures
        spec_next_cursor_state(CursorState::Build, game_cmds, hit) == CursorState::Build
            || spec_next_cursor_state(CursorState::Build, game_cmds, hit) == CursorState::Relocate,
        !game_cmds.is_any_selected ==> spec_next_cursor_state(CursorState::Build, game_cmds, hit)
            == CursorState::Build,
{
}

/// Law: the cursor is hidden exactly in build mode.
pub proof fn lemma_cursor_hidden_only_when_building(state: CursorState)
    ensures
        !spec_cursor_look(state).visible <==> state == CursorState::Build,
{
}

/// Law: whenever the cursor is shown, its picture is the one of its state:
/// the move picture when relocating, the select picture when selecting, the
/// standard one otherwise, with hot spots (2, 2), (25, 25) and (0, 0).
pub proof fn lemma_cursor_picture_matches_state(state: CursorState)
    ensures
        state == CursorState::Relocate ==> spec_cursor_look(state).image == CursorImage::Relocate
            && spec_cursor_look(state).hotspot_x == 2 && spec_cursor_look(state).hotspot_y == 2,
        state == CursorState::Select ==> spec_cursor_look(state).image == CursorImage::Select
            && spec_cursor_look(state).hotspot_x == 25 && spec_cursor_look(state).hotspot_y == 25,
        state == CursorState::Standard ==> spec_cursor_look(state).image == CursorImage::Standard
            && spec_cursor_look(state).hotspot_x == 0 && spec_cursor_look(state).hotspot_y == 0,
        spec_cursor_look(state).visible && spec_cursor_look(state).image == CursorImage::Relocate ==> state
            == CursorState::Relocate,
        spec_cursor_look(state).image == CursorImage::Select ==> state == CursorState::Select,
{
}

/// Law: with units selected and no drag under way, the cursor over open
/// ground shows the move picture.
pub proof fn lemma_selection_shows_move_cursor(state: CursorState, game_cmds: GameCommands)
    requires
        game_cmds.is_any_selected,
        !game_cmds.drag_select,
    ensures
        spec_next_cursor_state(state, game_cmds, CursorHit::Nothing) == CursorState::Relocate,
        spec_cursor_look(spec_next_cursor_state(state, game_cmds, CursorHit::Nothing)).image == CursorImage::Relocate,
{
}

} // verus!
