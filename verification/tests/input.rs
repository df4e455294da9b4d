use rts_game::camera::stop_scroll;
use rts_game::cmd_interface::{
    build_structure_btn_interaction, build_unit_btn_interaction, cancel_build_structure,
    cmd_interface_interaction, reset_info_ctr_hvr_state, select_structure,
    BuildStructureSelectEv, ButtonColor, InfoContainerData, Interaction,
};
use rts_game::bank::Bank;
use rts_game::cursor::{update_cursor_img, CursorHit, CursorImage, CursorState, GameCommands};
use rts_game::mouse::{mouse_input, MouseAction, MouseButtons, RayHit};
use rts_game::structures::{
    PositionMilli, RigidBodyKind, SizeMilli, StructureModel, StructurePlaceholder, StructureType,
};
use rts_game::units::{BuildUnitEv, UnitType};

fn buttons() -> MouseButtons {
    MouseButtons {
        just_pressed_left: false,
        pressed_left: false,
        just_released_left: false,
        just_released_right: false,
    }
}

fn names(actions: &[MouseAction<u32>]) -> Vec<String> {
    actions.iter().map(|a| format!("{:?}", a)).collect()
}

#[test]
fn mouse_press_anchors_the_box() {
    let gc = GameCommands::default();
    let input = MouseButtons { just_pressed_left: true, pressed_left: true, ..buttons() };
    let r = mouse_input(&gc, &input, RayHit::<u32>::Nothing);
    assert_eq!(names(&r), vec!["SetDragSelect", "SetStartBoxCoords"]);
}

#[test]
fn mouse_drag_selects_inside_the_box() {
    let gc = GameCommands { drag_select: true, ..GameCommands::default() };
    let input = MouseButtons { pressed_left: true, ..buttons() };
    let r = mouse_input(&gc, &input, RayHit::<u32>::Nothing);
    assert_eq!(names(&r), vec!["SetDragSelect", "SetBoxCoords", "HandleDragSelect"]);
}

#[test]
fn mouse_click_on_unit_selects_it() {
    let gc = GameCommands { is_any_selected: true, ..GameCommands::default() };
    let input = MouseButtons { just_released_left: true, ..buttons() };
    let r = mouse_input(&gc, &input, RayHit::Unit(7u32));
    assert_eq!(
        names(&r),
        vec!["SetDragSelect", "ClearBoxCoords", "DeselectAll", "SelectSingleUnit(7)"]
    );
}

#[test]
fn mouse_click_on_ground_moves_selection() {
    let gc = GameCommands { is_any_selected: true, ..GameCommands::default() };
    let input = MouseButtons { just_released_left: true, ..buttons() };
    let r = mouse_input(&gc, &input, RayHit::<u32>::Other);
    assert_eq!(names(&r), vec!["SetDragSelect", "ClearBoxCoords", "SetUnitDestination"]);
    let none_selected = GameCommands::default();
    let r = mouse_input(&none_selected, &input, RayHit::<u32>::Nothing);
    assert_eq!(names(&r), vec!["SetDragSelect", "ClearBoxCoords", "DeselectAll"]);
    let r = mouse_input(&gc, &input, RayHit::<u32>::Unavailable);
    assert_eq!(names(&r), vec!["SetDragSelect", "ClearBoxCoords"]);
}

#[test]
fn mouse_over_interface_and_right_click() {
    let over = GameCommands { hvr_cmd_interface: true, ..GameCommands::default() };
    let input = MouseButtons { just_released_right: true, ..buttons() };
    assert!(mouse_input(&over, &input, RayHit::<u32>::Nothing).is_empty());
    let r = mouse_input(&GameCommands::default(), &input, RayHit::<u32>::Nothing);
    assert_eq!(names(&r), vec!["SetDragSelect", "DeselectAll"]);
}

#[test]
fn cursor_follows_what_is_under_it() {
    let gc = GameCommands::default();
    let mut state = CursorState::default();
    let look = update_cursor_img(&gc, CursorHit::Unit, &mut state);
    assert_eq!(state, CursorState::Select);
    assert_eq!(look.image, CursorImage::Select);
    assert_eq!((look.hotspot_x, look.hotspot_y), (25, 25));
    let selected = GameCommands { is_any_selected: true, ..gc };
    update_cursor_img(&selected, CursorHit::Nothing, &mut state);
    assert_eq!(state, CursorState::Relocate);
    update_cursor_img(&gc, CursorHit::Nothing, &mut state);
    assert_eq!(state, CursorState::Standard);
    let mut building = CursorState::Build;
    let look = update_cursor_img(&gc, CursorHit::Unit, &mut building);
    assert_eq!(building, CursorState::Build);
    assert!(!look.visible);
    let dragging = GameCommands { drag_select: true, is_any_selected: true, ..gc };
    let mut s = CursorState::Select;
    update_cursor_img(&dragging, CursorHit::Nothing, &mut s);
    assert_eq!(s, CursorState::Select);
}

#[test]
fn scroll_stops_over_interface_or_while_placing() {
    assert!(stop_scroll(false, false));
    assert!(!stop_scroll(true, false));
    assert!(!stop_scroll(false, true));
}

#[test]
fn interface_hover_detection() {
    assert!(!cmd_interface_interaction(&vec![Interaction::Idle], &vec![Interaction::Idle]));
    assert!(cmd_interface_interaction(&vec![Interaction::Idle], &vec![Interaction::Pressed]));
    assert!(cmd_interface_interaction(&vec![Interaction::Hovered], &vec![]));
}

#[test]
fn structure_button_needs_funds() {
    let mut info = InfoContainerData::default();
    let rich = Bank { funds: 2000, displayed_funds: 0 };
    let poor = Bank { funds: 1999, displayed_funds: 0 };
    let r = build_structure_btn_interaction(Interaction::Pressed, StructureType::VehicleDepot, &rich, &mut info);
    assert_eq!(r.select, Some(BuildStructureSelectEv(StructureType::VehicleDepot)));
    assert!(info.active);
    let r = build_structure_btn_interaction(Interaction::Pressed, StructureType::VehicleDepot, &poor, &mut info);
    assert_eq!(r.select, None);
    assert!(r.insufficient_funds);
    let r = build_structure_btn_interaction(Interaction::Hovered, StructureType::Barracks, &poor, &mut info);
    assert_eq!(r.color, ButtonColor::Highlight);
    assert_eq!(info.name, "Barracks");
    assert_eq!(info.cost, 500);
    assert_eq!(info.build_time, 10);
    assert_eq!(info.hp, None);
    reset_info_ctr_hvr_state(&mut info);
    assert!(!info.active);
    let r = build_structure_btn_interaction(Interaction::Idle, StructureType::Barracks, &poor, &mut info);
    assert_eq!(r.color, ButtonColor::Normal);
    assert!(!info.active);
}

#[test]
fn unit_button_fills_panel_and_orders() {
    let mut info = InfoContainerData::default();
    let r = build_unit_btn_interaction(Interaction::Hovered, UnitType::TankGen1, false, &mut info);
    assert_eq!(r.build, None);
    assert_eq!(info.name, "Tank Gen I");
    assert_eq!(info.hp, Some(100));
    assert_eq!(info.dmg, Some(10));
    assert_eq!(info.speed, Some(500));
    assert_eq!(info.build_time, 2);
    let r = build_unit_btn_interaction(Interaction::Pressed, UnitType::TankGen1, true, &mut info);
    assert_eq!(r.build, Some(BuildUnitEv(UnitType::TankGen1)));
    let r = build_unit_btn_interaction(Interaction::Pressed, UnitType::TankGen1, false, &mut info);
    assert_eq!(r.build, None);
}

#[test]
fn start_and_cancel_placement() {
    let mut cursor = CursorState::Standard;
    let existing: Vec<u64> = vec![7, 11];
    let sel = select_structure(&BuildStructureSelectEv(StructureType::Cannon), &existing, &mut cursor);
    assert_eq!(cursor, CursorState::Build);
    assert_eq!(sel.despawn, vec![7, 11]);
    assert!(sel.deselect_all);
    assert_eq!(sel.structure, StructureType::Cannon);
    assert_eq!(sel.spawn.placeholder, StructurePlaceholder { is_valid: true, structure: StructureType::Cannon });
    assert_eq!(sel.spawn.model, StructureModel::PlaceholderValid(StructureType::Cannon));
    assert_eq!(sel.spawn.collider_half_extents, SizeMilli { x: 5000, y: 375, z: 5000 });
    assert_eq!(sel.spawn.body, RigidBodyKind::Dynamic);
    assert_eq!(sel.spawn_at, PositionMilli { x: 100_000_000, y: 0, z: 0 });
    let sel = select_structure(&BuildStructureSelectEv(StructureType::Barracks), &vec![], &mut cursor);
    assert!(sel.despawn.is_empty());
    assert!(sel.deselect_all);
    assert!(!cancel_build_structure(false, 1, &mut cursor));
    assert_eq!(cursor, CursorState::Build);
    assert!(cancel_build_structure(true, 1, &mut cursor));
    assert_eq!(cursor, CursorState::Standard);
    let mut other = CursorState::Relocate;
    assert!(cancel_build_structure(true, 0, &mut other));
    assert_eq!(other, CursorState::Relocate);
}
