use rts_game::structures::{
    mark_structure_built, mark_structure_removed, place_structure, placement_collides, select_structure,
    validate_structure_placement, BorderSize, IntersectionPair, PlaceInput, RigidBodyKind,
    SizeMilli, StructureModel, StructurePlaceholder, StructureSelection, StructureType,
    StructuresBuilt,
};
use rts_game::cursor::CursorState;
use rts_game::units::{
    handle_build_unit, mark_available_units, spawn_unit_ctrs, BuildUnitEv, QueueSolderEv,
    QueueVehicleEv, UnitQueueEv, UnitType, UnlockedUnits,
};

#[test]
fn unit_catalogue_values() {
    assert_eq!(UnitType::Rifleman.hp(), 20);
    assert_eq!(UnitType::TankGen1.hp(), 100);
    assert_eq!(UnitType::TankGen2.hp(), 200);
    assert_eq!(UnitType::Rifleman.cost(), 50);
    assert_eq!(UnitType::TankGen1.cost(), 500);
    assert_eq!(UnitType::TankGen2.cost(), 800);
    assert_eq!(UnitType::TankGen1.build_time(), 2);
    assert_eq!(UnitType::Rifleman.build_time(), 1);
    assert_eq!(UnitType::TankGen2.dmg(), 20);
    assert_eq!(UnitType::Rifleman.speed(), 100);
    assert_eq!(UnitType::TankGen1.speed(), 500);
    assert_eq!(UnitType::TankGen2.name(), "Tank Gen II");
    assert_eq!(UnitType::Rifleman.source(), StructureType::Barracks);
    assert_eq!(UnitType::TankGen2.source(), StructureType::VehicleDepot);
    assert_eq!(UnitType::TankGen1.size(), SizeMilli { x: 6500, y: 3100, z: 10750 });
    assert_eq!(UnitType::all().len(), 3);
    let codes: Vec<u64> = UnitType::all().iter().map(|u| u.code()).collect();
    assert_eq!(codes, vec![0, 1, 2]);
}

#[test]
fn structure_catalogue_values() {
    assert_eq!(StructureType::VehicleDepot.cost(), 2000);
    assert_eq!(StructureType::ResearchCenter.cost(), 1500);
    assert_eq!(StructureType::Cannon.build_time(), 5);
    assert_eq!(StructureType::SatelliteDish.build_time(), 25);
    assert_eq!(StructureType::VehicleDepot.to_string(), "Vehicle Depot");
    assert_eq!(
        StructureType::VehicleDepot.select_border(),
        BorderSize { width: 140, height: 100 }
    );
    assert_eq!(StructureType::Cannon.placeholder_size(), SizeMilli { x: 10000, y: 750, z: 10000 });
    let all = StructureType::all();
    assert_eq!(all.len(), 5);
    assert_eq!(all[0], StructureType::Cannon);
    assert_eq!(all[4], StructureType::SatelliteDish);
}

#[test]
fn build_requests_go_to_the_producing_structure() {
    assert_eq!(
        handle_build_unit(&BuildUnitEv(UnitType::Rifleman)),
        Some(UnitQueueEv::Soldier(QueueSolderEv(UnitType::Rifleman)))
    );
    assert_eq!(
        handle_build_unit(&BuildUnitEv(UnitType::TankGen2)),
        Some(UnitQueueEv::Vehicle(QueueVehicleEv(UnitType::TankGen2)))
    );
}

#[test]
fn depot_unlocks_tanks_and_barracks_unlocks_rifleman() {
    let mut built = StructuresBuilt::default();
    let mut unlocked = UnlockedUnits::default();
    mark_available_units(1, &built, &mut unlocked);
    assert_eq!(unlocked, UnlockedUnits::default());
    built.vehicle_depot = 1;
    mark_available_units(0, &built, &mut unlocked);
    assert!(!unlocked.tank_gen1);
    mark_available_units(1, &built, &mut unlocked);
    assert!(unlocked.tank_gen1 && unlocked.tank_gen2 && !unlocked.rifleman);
    assert_eq!(spawn_unit_ctrs(&unlocked), vec![UnitType::TankGen1, UnitType::TankGen2]);
    built.barracks = 2;
    mark_available_units(3, &built, &mut unlocked);
    assert!(unlocked.rifleman);
    assert_eq!(
        spawn_unit_ctrs(&unlocked),
        vec![UnitType::Rifleman, UnitType::TankGen1, UnitType::TankGen2]
    );
    // unlocks never go back
    built.vehicle_depot = 0;
    mark_available_units(1, &built, &mut unlocked);
    assert!(unlocked.tank_gen1);
}

#[test]
fn structures_built_counts_each_kind() {
    let mut built = StructuresBuilt::default();
    mark_structure_built(
        &vec![StructureType::Cannon, StructureType::VehicleDepot, StructureType::Cannon],
        &mut built,
    );
    assert_eq!(built.cannon, 2);
    assert_eq!(built.vehicle_depot, 1);
    assert_eq!(built.barracks, 0);
    mark_structure_built(&vec![], &mut built);
    assert_eq!(built.cannon, 2);
}

#[test]
fn last_non_ground_pair_decides_collision() {
    let ground = IntersectionPair { touches_map_base: true, intersecting: true };
    let hit = IntersectionPair { touches_map_base: false, intersecting: true };
    let near = IntersectionPair { touches_map_base: false, intersecting: false };
    assert!(!placement_collides(&vec![]));
    assert!(!placement_collides(&vec![ground]));
    assert!(placement_collides(&vec![hit, ground]));
    assert!(!placement_collides(&vec![hit, near]));
    assert!(placement_collides(&vec![near, hit, ground]));

    let mut p = StructurePlaceholder::new(StructureType::Barracks);
    assert!(p.is_valid);
    let model = validate_structure_placement(&vec![hit], &mut p);
    assert!(!p.is_valid);
    assert_eq!(p.structure, StructureType::Barracks);
    assert_eq!(model, StructureModel::PlaceholderInvalid(StructureType::Barracks));
    let model = validate_structure_placement(&vec![near], &mut p);
    assert!(p.is_valid);
    assert_eq!(model, StructureModel::PlaceholderValid(StructureType::Barracks));
}

#[test]
fn placing_charges_the_price_and_leaves_build_mode() {
    let input = PlaceInput {
        cursor: CursorState::Build,
        hvr_cmd_interface: false,
        just_pressed_left: true,
    };
    let mut cursor = CursorState::Build;
    let placement =
        place_structure(&input, Some(StructurePlaceholder::new(StructureType::VehicleDepot)), &mut cursor)
            .expect("a valid placeholder is placed");
    assert_eq!(placement.charge.0, -2000);
    assert_eq!(cursor, CursorState::Standard);
    assert_eq!(placement.placed.structure, StructureType::VehicleDepot);
    assert_eq!(placement.placed.model, StructureModel::Built(StructureType::VehicleDepot));
    assert_eq!(placement.placed.body, RigidBodyKind::Fixed);
    assert!(!placement.placed.sensor);
    assert!(!placement.placed.collision_events);
    assert_eq!(placement.placed.border, BorderSize { width: 140, height: 100 });
    assert_eq!(placement.placed.name, "Vehicle Depot");

    let mut cursor = CursorState::Build;
    let invalid = StructurePlaceholder { is_valid: false, structure: StructureType::Cannon };
    assert!(place_structure(&input, Some(invalid), &mut cursor).is_none());
    assert_eq!(cursor, CursorState::Build);

    let over_ui = PlaceInput { hvr_cmd_interface: true, ..input };
    assert!(place_structure(&over_ui, Some(StructurePlaceholder::new(StructureType::Cannon)), &mut cursor).is_none());
    assert!(place_structure(&input, None, &mut cursor).is_none());
    assert_eq!(cursor, CursorState::Build);
}

#[test]
fn clicking_a_structure() {
    assert_eq!(select_structure(true, false), StructureSelection::ConsumeNewlyPlaced);
    assert_eq!(select_structure(false, true), StructureSelection::Ignore);
    assert_eq!(select_structure(false, false), StructureSelection::Select);
}

#[test]
fn placeholder_for_a_vehicle_depot() {
    let b = StructureType::VehicleDepot.build_placeholder();
    assert_eq!(b.model, StructureModel::PlaceholderValid(StructureType::VehicleDepot));
    assert_eq!(b.size, SizeMilli { x: 60000, y: 4000, z: 40000 });
    assert_eq!(b.collider_half_extents, SizeMilli { x: 30000, y: 2000, z: 20000 });
    assert_eq!(b.body, RigidBodyKind::Dynamic);
    assert!(b.sensor);
    assert!(b.collision_events);
    assert_eq!(b.placeholder, StructurePlaceholder { is_valid: true, structure: StructureType::VehicleDepot });
}

#[test]
fn placeholder_collider_is_half_the_footprint() {
    for s in StructureType::all() {
        let b = s.build_placeholder();
        assert_eq!(b.collider_half_extents.x * 2, b.size.x);
        assert_eq!(b.collider_half_extents.y * 2, b.size.y);
        assert_eq!(b.collider_half_extents.z * 2, b.size.z);
        assert_eq!(b.size, s.placeholder_size());
        assert_eq!(b.model, s.valid_placement());
        assert_ne!(b.model, s.invalid_placement());
    }
    let cannon = StructureType::Cannon.build_placeholder();
    assert_eq!(cannon.collider_half_extents, SizeMilli { x: 5000, y: 375, z: 5000 });
}

#[test]
fn placing_turns_the_placeholder_into_the_building() {
    let placed = StructureType::Barracks.place();
    assert_eq!(placed.structure, StructureType::Barracks);
    assert_eq!(placed.model, StructureModel::Built(StructureType::Barracks));
    assert_eq!(placed.body, RigidBodyKind::Fixed);
    assert!(!placed.sensor && !placed.collision_events);
    assert_eq!(placed.border, BorderSize { width: 75, height: 75 });
    assert_eq!(placed.name, "Barracks");
}

#[test]
fn removing_structures_lowers_the_tally() {
    let mut built = StructuresBuilt::default();
    mark_structure_built(
        &vec![StructureType::Cannon, StructureType::Barracks, StructureType::Cannon],
        &mut built,
    );
    mark_structure_removed(&vec![StructureType::Cannon], &mut built);
    assert_eq!(built.cannon, 1);
    assert_eq!(built.barracks, 1);
    mark_structure_removed(&vec![StructureType::Cannon, StructureType::Barracks], &mut built);
    assert_eq!(built, StructuresBuilt::default());
    mark_structure_removed(&vec![], &mut built);
    assert_eq!(built, StructuresBuilt::default());
}
