//! How mouse clicks become selection and movement orders.
use vstd::prelude::*;

use crate::cursor::GameCommands;

verus! {

/// The state of the mouse buttons this frame.
#[derive(Clone, Copy, PartialEq, Eq, Structural, Debug)]
pub struct MouseButtons {
    pub just_pressed_left: bool,
    pub pressed_left: bool,
    pub just_released_left: bool,
    pub just_released_right: bool,
}

/// What a ray cast from the cursor into the scene found; `E` identifies an
/// entity of the scene.
#[derive(Debug)]
pub enum RayHit<E> {
    /// There is no physics context to cast the ray in.
    Unavailable,
    /// The ray hit nothing.
    Nothing,
    /// The ray hit something that is not a unit.
    Other,
    /// The ray hit this unit.
    Unit(E),
}

/// The orders the mouse sends this frame, in the order they are sent.
#[derive(Debug)]
pub enum MouseAction<E> {
    /// Recompute whether a drag selection is under way.
    SetDragSelect,
    /// Anchor the selection box at the cursor.
    SetStartBoxCoords,
    /// Stretch the selection box to the cursor.
    SetBoxCoords,
    /// Select the units inside the selection box.
    HandleDragSelect,
    /// Forget the selection box.
    ClearBoxCoords,
    /// Deselect every unit.
    DeselectAll,
    /// Select this unit.
    SelectSingleUnit(E),
    /// Send the selected units to the cursor.
    SetUnitDestination,
}

/// The orders that releasing the left button sends after clearing the box.
pub open spec fn spec_release_left<E>(game_cmds: GameCommands, hit: RayHit<E>) -> Seq<MouseAction<E>> {
    if game_cmds.drag_select {
        seq![]
    } else {
        match hit {
            RayHit::Unavailable => seq![],
            RayHit::Unit(e) => seq![MouseAction::DeselectAll, MouseAction::SelectSingleUnit(e)],
            _ => if !game_cmds.is_any_selected {
                seq![MouseAction::DeselectAll]
            } else {
                seq![MouseAction::SetUnitDestination]
            },
        }
    }
}

/// The orders the mouse sends this frame: nothing over the command
/// interface; otherwise the drag state is refreshed, then a press anchors the
/// selection box, a held button stretches it (and selects inside it while
/// dragging), and a release either ends the drag or, for a click, selects the
/// unit under the cursor, deselects everything, or sends the selection to the
/// cursor; releasing the right button deselects everything.
pub open spec fn spec_mouse_input<E>(game_cmds: GameCommands, input: MouseButtons, hit: RayHit<E>) -> Seq<
    MouseAction<E>,
> {
    if game_cmds.hvr_cmd_interface {
        seq![]
    } else if input.just_pressed_left {
        seq![MouseAction::SetDragSelect, MouseAction::SetStartBoxCoords]
    } else if input.pressed_left {
        if game_cmds.drag_select {
            seq![MouseAction::SetDragSelect, MouseAction::SetBoxCoords, MouseAction::HandleDragSelect]
        } else {
            seq![MouseAction::SetDragSelect, MouseAction::SetBoxCoords]
        }
    } else if input.just_released_left {
        seq![MouseAction::SetDragSelect, MouseAction::ClearBoxCoords] + spec_release_left(game_cmds, hit)
    } else if input.just_released_right {
        seq![MouseAction::SetDragSelect, MouseAction::DeselectAll]
    } else {
        seq![MouseAction::SetDragSelect]
    }
}

/// Turns this frame's mouse buttons into orders, as `spec_mouse_input`.
/// `hit` is what lies under the cursor; it matters only for a click.
pub fn mouse_input<E: Copy>(game_cmds: &GameCommands, input: &MouseButtons, hit: RayHit<E>) -> (r: Vec<
    MouseAction<E>,
>)
    ensures
        r@ == spec_mouse_input(*game_cmds, *input, hit),
        !game_cmds.hvr_cmd_interface && game_cmds.drag_select && !input.just_pressed_left && !input.pressed_left
            && input.just_released_left ==> r@ == seq![MouseAction::<E>::SetDragSelect, MouseAction::<E>::ClearBoxCoords],
{
    let mut actions: Vec<MouseAction<E>> = Vec::new();
    if game_cmds.hvr_cmd_interface {
        return actions;
    }
    actions.push(MouseAction::SetDragSelect);
    if input.just_pressed_left {
        actions.push(MouseAction::SetStartBoxCoords);
        assert(actions@ =~= spec_mouse_input(*game_cmds, *input, hit));
        return actions;
    }
    if input.pressed_left {
        actions.push(MouseAction::SetBoxCoords);
        if game_cmds.drag_select {
            actions.push(MouseAction::HandleDragSelect);
        }
        assert(actions@ =~= spec_mouse_input(*game_cmds, *input, hit));
        return actions;
    }
    if input.just_released_left {
        actions.push(MouseAction::ClearBoxCoords);
        if !game_cmds.drag_select {
            match hit {
                RayHit::Unavailable => {},
                RayHit::Unit(e) => {
                    actions.push(MouseAction::DeselectAll);
                    actions.push(MouseAction::SelectSingleUnit(e));
                },
                _ => {
                    if !game_cmds.is_any_selected {
                        actions.push(MouseAction::DeselectAll);
                    } else {
                        actions.push(MouseAction::SetUnitDestination);
                    }
                },
            }
        }
        assert(actions@ =~= spec_mouse_input(*game_cmds, *input, hit));
        return actions;
    }
    if input.just_released_right {
        actions.push(MouseAction::DeselectAll);
    }
    assert(actions@ =~= spec_mouse_input(*game_cmds, *input, hit));
    actions
}

/// Whether a click sends the selected units to the cursor: only when the
/// cursor is over the map and no object lies under it.
pub fn set_unit_destination(in_bounds: bool, hit_something: bool) -> (r: bool)
    ensures
        r == (in_bounds && !hit_something),
{
    in_bounds && !hit_something
}

/// Law: a click on a unit always ends with exactly that unit being selected
/// (after everything else was deselected).
pub proof fn lemma_click_on_unit_selects_it<E>(game_cmds: GameCommands, input: MouseButtons, e: E)
    requires
        !game_cmds.hvr_cmd_interface,
        !game_cmds.drag_select,
        !input.just_pressed_left,
        !input.pressed_left,
        input.just_released_left,
    ensures
        ({
            let s = spec_mouse_input(game_cmds, input, RayHit::Unit(e));
            &&& s.len() == 4
            &&& s[2] == MouseAction::<E>::DeselectAll
            &&& s[3] == MouseAction::SelectSingleUnit(e)
        }),
{
}

/// Law: a click on open ground sends the selected units there, and with no
/// unit selected it only deselects; units are never moved without a
/// selection.
pub proof fn lemma_move_needs_selection<E>(game_cmds: GameCommands, input: MouseButtons, hit: RayHit<E>, i: int)
    requires
        0 <= i < spec_mouse_input(game_cmds, input, hit).len(),
        spec_mouse_input(game_cmds, input, hit)[i] == MouseAction::<E>::SetUnitDestination,
    ensures
        game_cmds.is_any_selected,
        !game_cmds.drag_select,
        !game_cmds.hvr_cmd_interface,
        !(hit is Unit),
{
}

/// Law: over the command interface the mouse sends no order at all.
pub proof fn lemma_interface_blocks_orders<E>(game_cmds: GameCommands, input: MouseButtons, hit: RayHit<E>)
    requires
        game_cmds.hvr_cmd_interface,
    ensures
        spec_mouse_input(game_cmds, input, hit).len() == 0,
{
}

/// Law: releasing the left button at the end of a drag selection only clears
/// the box: the units the box selected stay selected, nothing else is
/// selected, and nobody is sent anywhere.
pub proof fn lemma_drag_release_keeps_selection<E>(game_cmds: GameCommands, input: MouseButtons, hit: RayHit<E>, i: int)
    requires
        !game_cmds.hvr_cmd_interface,
        game_cmds.drag_select,
        !input.just_pressed_left,
        !input.pressed_left,
        input.just_released_left,
        0 <= i < spec_mouse_input(game_cmds, input, hit).len(),
    ensures
        spec_mouse_input(game_cmds, input, hit).len() == 2,
        spec_mouse_input(game_cmds, input, hit)[0] == MouseAction::<E>::SetDragSelect,
        spec_mouse_input(game_cmds, input, hit)[1] == MouseAction::<E>::ClearBoxCoords,
        !(spec_mouse_input(game_cmds, input, hit)[i] is DeselectAll),
        !(spec_mouse_input(game_cmds, input, hit)[i] is SelectSingleUnit),
        !(spec_mouse_input(game_cmds, input, hit)[i] is SetUnitDestination),
{
}

/// Law: every unit is deselected by a release only when no drag selection is
/// under way.
pub proof fn lemma_deselect_needs_no_drag<E>(game_cmds: GameCommands, input: MouseButtons, hit: RayHit<E>, i: int)
    requires
        0 <= i < spec_mouse_input(game_cmds, input, hit).len(),
        spec_mouse_input(game_cmds, input, hit)[i] is DeselectAll,
        !input.just_released_right,
    ensures
        !game_cmds.drag_select,
        !game_cmds.hvr_cmd_interface,
{
}

} // verus!
