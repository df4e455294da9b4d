//! The unit catalogue: what each unit costs, how strong it is and which
//! structure produces it.
use vstd::prelude::*;

use crate::structures::{SizeMilli, StructureType, StructuresBuilt};
use crate::{SPEED_RIFELMAN, SPEED_TANK_GEN_1, SPEED_TANK_GEN_2};

verus! {

/// The kinds of unit a player can build.
#[derive(Clone, Copy, PartialEq, Eq, Structural, Debug, Hash)]
pub enum UnitType {
    Rifleman,
    TankGen1,
    TankGen2,
}

/// Hit points of each unit kind.
pub open spec fn spec_unit_hp(u: UnitType) -> int {
    match u {
        UnitType::Rifleman => 20,
        UnitType::TankGen1 => 100,
        UnitType::TankGen2 => 200,
    }
}

/// Price of each unit kind.
pub open spec fn spec_unit_cost(u: UnitType) -> int {
    match u {
        UnitType::Rifleman => 50,
        UnitType::TankGen1 => 500,
        UnitType::TankGen2 => 800,
    }
}

/// Build time of each unit kind, in seconds.
pub open spec fn spec_unit_build_time(u: UnitType) -> int {
    match u {
        UnitType::Rifleman => 1,
        UnitType::TankGen1 => 2,
        UnitType::TankGen2 => 2,
    }
}

/// Damage dealt by each unit kind.
pub open spec fn spec_unit_dmg(u: UnitType) -> int {
    match u {
        UnitType::Rifleman => 1,
        UnitType::TankGen1 => 10,
        UnitType::TankGen2 => 20,
    }
}

/// Speed of each unit kind.
pub open spec fn spec_unit_speed(u: UnitType) -> int {
    match u {
        UnitType::Rifleman => SPEED_RIFELMAN as int,
        UnitType::TankGen1 => SPEED_TANK_GEN_1 as int,
        UnitType::TankGen2 => SPEED_TANK_GEN_2 as int,
    }
}

/// The structure that produces each unit kind.
pub open spec fn spec_unit_source(u: UnitType) -> StructureType {
    match u {
        UnitType::Rifleman => StructureType::Barracks,
        UnitType::TankGen1 => StructureType::VehicleDepot,
        UnitType::TankGen2 => StructureType::VehicleDepot,
    }
}

/// A number that identifies each unit kind.
pub open spec fn spec_unit_code(u: UnitType) -> u64 {
    match u {
        UnitType::Rifleman => 0,
        UnitType::TankGen1 => 1,
        UnitType::TankGen2 => 2,
    }
}

impl UnitType {
    /// Every unit kind, in declaration order.
    pub fn all() -> (r: Vec<UnitType>)
        ensures
            r@ == seq![UnitType::Rifleman, UnitType::TankGen1, UnitType::TankGen2],
    {
        vec![UnitType::Rifleman, UnitType::TankGen1, UnitType::TankGen2]
    }

    /// The structure that produces this unit.
    pub fn source(&self) -> (r: StructureType)
        ensures
            r == spec_unit_source(*self),
            (*self == UnitType::Rifleman) <==> r == StructureType::Barracks,
            (*self == UnitType::TankGen1 || *self == UnitType::TankGen2) <==> r == StructureType::VehicleDepot,
    {
        match self {
            UnitType::Rifleman => StructureType::Barracks,
            UnitType::TankGen1 => StructureType::VehicleDepot,
            UnitType::TankGen2 => StructureType::VehicleDepot,
        }
    }

    /// Movement speed, in world units per second.
    pub fn speed(&self) -> (r: u32)
        ensures
            r == spec_unit_speed(*self),
    {
        match self {
            UnitType::Rifleman => SPEED_RIFELMAN,
            UnitType::TankGen1 => SPEED_TANK_GEN_1,
            UnitType::TankGen2 => SPEED_TANK_GEN_2,
        }
    }

    /// Damage per shot.
    pub fn dmg(&self) -> (r: i32)
        ensures
            r == spec_unit_dmg(*self),
    {
        match self {
            UnitType::Rifleman => 1,
            UnitType::TankGen1 => 10,
            UnitType::TankGen2 => 20,
        }
    }

    /// Build time, in seconds.
    pub fn build_time(&self) -> (r: u64)
        ensures
            r == spec_unit_build_time(*self),
    {
        match self {
            UnitType::Rifleman => 1,
            UnitType::TankGen1 => 2,
            UnitType::TankGen2 => 2,
        }
    }

    /// Price.
    pub fn cost(&self) -> (r: i32)
        ensures
            r == spec_unit_cost(*self),
    {
        match self {
            UnitType::Rifleman => 50,
            UnitType::TankGen1 => 500,
            UnitType::TankGen2 => 800,
        }
    }

    /// Half extents of the unit's collider, in thousandths of a world unit.
    pub fn size(&self) -> (r: SizeMilli)
        ensures
            r == match *self {
                UnitType::Rifleman => SizeMilli { x: 2000, y: 2000, z: 2000 },
                UnitType::TankGen1 => SizeMilli { x: 6500, y: 3100, z: 10750 },
                UnitType::TankGen2 => SizeMilli { x: 7500, y: 3100, z: 13000 },
            },
    {
        match self {
            UnitType::Rifleman => SizeMilli { x: 2000, y: 2000, z: 2000 },
            UnitType::TankGen1 => SizeMilli { x: 6500, y: 3100, z: 10750 },
            UnitType::TankGen2 => SizeMilli { x: 7500, y: 3100, z: 13000 },
        }
    }

    /// A number that identifies the unit kind.
    pub fn code(&self) -> (r: u64)
        ensures
            r == spec_unit_code(*self),
    {
        match self {
            UnitType::Rifleman => 0,
            UnitType::TankGen1 => 1,
            UnitType::TankGen2 => 2,
        }
    }

    /// Hit points.
    pub fn hp(&self) -> (r: i32)
        ensures
            r == spec_unit_hp(*self),
    {
        match self {
            UnitType::Rifleman => 20,
            UnitType::TankGen1 => 100,
            UnitType::TankGen2 => 200,
        }
    }

    pub fn name(&self) -> (r: String)
        ensures
            r@ == match *self {
                UnitType::Rifleman => "Rifleman"@,
                UnitType::TankGen1 => "Tank Gen I"@,
                UnitType::TankGen2 => "Tank Gen II"@,
            },
    {
        match self {
            UnitType::Rifleman => "Rifleman".to_string(),
            UnitType::TankGen1 => "Tank Gen I".to_string(),
            UnitType::TankGen2 => "Tank Gen II".to_string(),
        }
    }
}

/// Law: different unit kinds have different codes.
pub proof fn lemma_unit_code_injective(a: UnitType, b: UnitType)
    ensures
        spec_unit_code(a) == spec_unit_code(b) ==> a == b,
{
}

/// A request from the interface to build a unit.
#[derive(Clone, Copy, PartialEq, Eq, Structural, Debug)]
pub struct BuildUnitEv(pub UnitType);

/// A request to queue a vehicle at the vehicle depot.
#[derive(Clone, Copy, PartialEq, Eq, Structural, Debug)]
pub struct QueueVehicleEv(pub UnitType);

/// A request to queue a soldier at the barracks.
#[derive(Clone, Copy, PartialEq, Eq, Structural, Debug)]
pub struct QueueSolderEv(pub UnitType);

/// Where a build request goes.
#[derive(Clone, Copy, PartialEq, Eq, Structural, Debug)]
pub enum UnitQueueEv {
    Soldier(QueueSolderEv),
    Vehicle(QueueVehicleEv),
}

/// Sends a build request to the structure that produces the unit: soldiers
/// to the barracks, vehicles to the vehicle depot.
pub fn handle_build_unit(trigger: &BuildUnitEv) -> (r: Option<UnitQueueEv>)
    ensures
        spec_unit_source(trigger.0) == StructureType::Barracks ==> r == Some(
            UnitQueueEv::Soldier(QueueSolderEv(trigger.0)),
        ),
        spec_unit_source(trigger.0) == StructureType::VehicleDepot ==> r == Some(
            UnitQueueEv::Vehicle(QueueVehicleEv(trigger.0)),
        ),
        spec_unit_source(trigger.0) != StructureType::Barracks && spec_unit_source(trigger.0)
            != StructureType::VehicleDepot ==> r is None,
        trigger.0 == UnitType::Rifleman ==> r == Some(UnitQueueEv::Soldier(QueueSolderEv(UnitType::Rifleman))),
        trigger.0 == UnitType::TankGen1 ==> r == Some(UnitQueueEv::Vehicle(QueueVehicleEv(UnitType::TankGen1))),
        trigger.0 == UnitType::TankGen2 ==> r == Some(UnitQueueEv::Vehicle(QueueVehicleEv(UnitType::TankGen2))),
{
    let unit_type = trigger.0;
    match unit_type.source() {
        StructureType::Barracks => Some(UnitQueueEv::Soldier(QueueSolderEv(unit_type))),
        StructureType::VehicleDepot => Some(UnitQueueEv::Vehicle(QueueVehicleEv(unit_type))),
        _ => None,
    }
}

/// Which units the player may build.
#[derive(Clone, Copy, PartialEq, Eq, Structural, Debug)]
pub struct UnlockedUnits {
    /// A barracks has been built.
    pub rifleman: bool,
    /// A vehicle depot has been built.
    pub tank_gen1: bool,
    /// A vehicle depot has been built.
    pub tank_gen2: bool,
}

impl Default for UnlockedUnits {
    fn default() -> (r: Self)
        ensures
            !r.rifleman,
            !r.tank_gen1,
            !r.tank_gen2,
    {
        UnlockedUnits { rifleman: false, tank_gen1: false, tank_gen2: false }
    }
}

/// The unlocks after `added` structures were newly placed.
pub open spec fn spec_unlocks(added: nat, built: StructuresBuilt, u: UnlockedUnits) -> UnlockedUnits {
    if added == 0 {
        u
    } else {
        UnlockedUnits {
            rifleman: u.rifleman || built.barracks > 0,
            tank_gen1: u.tank_gen1 || built.vehicle_depot > 0,
            tank_gen2: u.tank_gen2 || built.vehicle_depot > 0,
        }
    }
}

/// When new structures were placed (`added` of them this frame), unlocks
/// the tanks once a vehicle depot stands and the rifleman once a barracks
/// stands.
pub fn mark_available_units(added: usize, structures_built: &StructuresBuilt, available_units: &mut UnlockedUnits)
    ensures
        *final(available_units) == spec_unlocks(added as nat, *structures_built, *old(available_units)),
        !old(available_units).rifleman && structures_built.barracks == 0 ==> !final(available_units).rifleman,
        !old(available_units).tank_gen1 && structures_built.vehicle_depot == 0 ==> !final(available_units).tank_gen1,
        !old(available_units).tank_gen2 && structures_built.vehicle_depot == 0 ==> !final(available_units).tank_gen2,
        added > 0 && structures_built.barracks > 0 ==> final(available_units).rifleman,
        added > 0 && structures_built.vehicle_depot > 0 ==> final(available_units).tank_gen1
            && final(available_units).tank_gen2,
{
    let mut i: usize = 0;
    while i < added
        invariant
            0 <= i <= added,
            i == 0 ==> *available_units == *old(available_units),
            i > 0 ==> *available_units == spec_unlocks(1, *structures_built, *old(available_units)),
        decreases added - i,
    {
        if structures_built.vehicle_depot > 0 {
            available_units.tank_gen1 = true;
            available_units.tank_gen2 = true;
        }
        if structures_built.barracks > 0 {
            available_units.rifleman = true;
        }
        i = i + 1;
    }
}

/// Law: units once unlocked stay unlocked.
pub proof fn lemma_unlocks_monotone(added: nat, built: StructuresBuilt, u: UnlockedUnits)
    ensures
        u.rifleman ==> spec_unlocks(added, built, u).rifleman,
        u.tank_gen1 ==> spec_unlocks(added, built, u).tank_gen1,
        u.tank_gen2 ==> spec_unlocks(added, built, u).tank_gen2,
{
}

/// Law: recomputing the unlocks from the same tally changes nothing more.
pub proof fn lemma_unlocks_idempotent(added: nat, built: StructuresBuilt, u: UnlockedUnits)
    ensures
        spec_unlocks(added, built, spec_unlocks(added, built, u)) == spec_unlocks(added, built, u),
{
}

/// The build buttons the unit column shows, in order: rifleman, first and
/// second generation tank, each only when unlocked.
pub open spec fn spec_unit_buttons(u: UnlockedUnits) -> Seq<UnitType> {
    (if u.rifleman { seq![UnitType::Rifleman] } else { seq![] })
        + (if u.tank_gen1 { seq![UnitType::TankGen1] } else { seq![] })
        + (if u.tank_gen2 { seq![UnitType::TankGen2] } else { seq![] })
}

/// The unit kinds whose build buttons the unit column shows, in order.
pub fn spawn_unit_ctrs(unlocked_units: &UnlockedUnits) -> (r: Vec<UnitType>)
    ensures
        r@ == spec_unit_buttons(*unlocked_units),
{
    let mut r: Vec<UnitType> = Vec::new();
    if unlocked_units.rifleman {
        r.push(UnitType::Rifleman);
    }
    if unlocked_units.tank_gen1 {
        r.push(UnitType::TankGen1);
    }
    if unlocked_units.tank_gen2 {
        r.push(UnitType::TankGen2);
    }
    assert(r@ =~= spec_unit_buttons(*unlocked_units));
    r
}

/// Law: a locked unit is unlocked only by its own producing structure: the
/// rifleman by a barracks, the two tanks by a vehicle depot; and once one of
/// them stands, the next placement unlocks its units.
pub proof fn lemma_unlock_needs_own_structure(added: nat, built: StructuresBuilt, u: UnlockedUnits)
    ensures
        !u.rifleman && built.barracks == 0 ==> !spec_unlocks(added, built, u).rifleman,
        !u.tank_gen1 && built.vehicle_depot == 0 ==> !spec_unlocks(added, built, u).tank_gen1,
        !u.tank_gen2 && built.vehicle_depot == 0 ==> !spec_unlocks(added, built, u).tank_gen2,
        added > 0 && built.barracks > 0 ==> spec_unlocks(added, built, u).rifleman,
        added > 0 && built.vehicle_depot > 0 ==> spec_unlocks(added, built, u).tank_gen1
            && spec_unlocks(added, built, u).tank_gen2,
        added == 0 ==> spec_unlocks(added, built, u) == u,
{
}

/// Law: the vehicles (both tanks) come from the vehicle depot and only the
/// rifleman from the barracks; no unit comes from any other structure.
pub proof fn lemma_vehicles_come_from_the_depot(u: UnitType)
    ensures
        (u == UnitType::TankGen1 || u == UnitType::TankGen2) <==> spec_unit_source(u) == StructureType::VehicleDepot,
        u == UnitType::Rifleman <==> spec_unit_source(u) == StructureType::Barracks,
{
}

} // verus!
