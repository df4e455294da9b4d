//! The command interface: hovering, the structure and unit build buttons, the
//! information panel they fill, and starting or cancelling a placement.
use vstd::prelude::*;

use crate::bank::Bank;
use crate::cursor::CursorState;
use crate::structures::{
    spec_build_placeholder, spec_structure_build_time, spec_structure_cost, PlaceholderBuild,
    PositionMilli, StructureType,
};
use crate::units::{
    spec_unit_build_time, spec_unit_cost, spec_unit_dmg, spec_unit_hp, spec_unit_speed, BuildUnitEv,
    UnitType,
};

verus! {

/// How the pointer relates to an interface element this frame.
#[derive(Clone, Copy, PartialEq, Eq, Structural, Debug)]
pub enum Interaction {
    Pressed,
    Hovered,
    Idle,
}

/// Whether the pointer is over (or pressing) any element of the command
/// interface: its container or one of its build buttons.
pub open spec fn spec_hovering(parents: Seq<Interaction>, children: Seq<Interaction>) -> bool {
    (exists|i: int| 0 <= i < parents.len() && #[trigger] parents[i] != Interaction::Idle)
        || (exists|i: int| 0 <= i < children.len() && #[trigger] children[i] != Interaction::Idle)
}

/// Whether any of the interactions is a hover or a press.
fn any_active(states: &Vec<Interaction>) -> (r: bool)
    ensures
        r == exists|i: int| 0 <= i < states@.len() && #[trigger] states@[i] != Interaction::Idle,
{
    let mut i: usize = 0;
    while i < states.len()
        invariant
            0 <= i <= states@.len(),
            forall|j: int| 0 <= j < i ==> #[trigger] states@[j] == Interaction::Idle,
        decreases states@.len() - i,
    {
        if states[i] != Interaction::Idle {
            return true;
        }
        i = i + 1;
    }
    false
}

/// Decides whether the pointer is over the command interface, from the
/// interactions of the interface containers and of the build buttons.
pub fn cmd_interface_interaction(parents: &Vec<Interaction>, children: &Vec<Interaction>) -> (r: bool)
    ensures
        r == spec_hovering(parents@, children@),
{
    let hvr_parent = any_active(parents);
    let hvr_child = any_active(children);
    hvr_parent || hvr_child
}

/// What the information panel shows about the hovered build option.
pub struct InfoContainerData {
    pub active: bool,
    pub name: String,
    pub cost: i32,
    pub build_time: u64,
    pub hp: Option<i32>,
    pub dmg: Option<i32>,
    pub speed: Option<u32>,
}

impl Default for InfoContainerData {
    fn default() -> (r: Self)
        ensures
            !r.active,
            r.name@ == Seq::<char>::empty(),
            r.cost == 0,
            r.build_time == 0,
            r.hp is None,
            r.dmg is None,
            r.speed is None,
    {
        InfoContainerData {
            active: false,
            name: String::new(),
            cost: 0,
            build_time: 0,
            hp: None,
            dmg: None,
            speed: None,
        }
    }
}

/// Hides the information panel; a hovered button shows it again.
pub fn reset_info_ctr_hvr_state(info_ctr_data: &mut InfoContainerData)
    ensures
        !final(info_ctr_data).active,
        final(info_ctr_data).name@ == old(info_ctr_data).name@,
        final(info_ctr_data).cost == old(info_ctr_data).cost,
        final(info_ctr_data).build_time == old(info_ctr_data).build_time,
        final(info_ctr_data).hp == old(info_ctr_data).hp,
        final(info_ctr_data).dmg == old(info_ctr_data).dmg,
        final(info_ctr_data).speed == old(info_ctr_data).speed,
{
    info_ctr_data.active = false;
}

/// The tint of a build button.
#[derive(Clone, Copy, PartialEq, Eq, Structural, Debug)]
pub enum ButtonColor {
    /// Not hovered.
    Normal,
    /// Hovered or pressed.
    Highlight,
}

/// The player picked a structure to place.
#[derive(Clone, Copy, PartialEq, Eq, Structural, Debug)]
pub struct BuildStructureSelectEv(pub StructureType);

/// What pressing or hovering a structure button does.
#[derive(Clone, Copy, PartialEq, Eq, Structural, Debug)]
pub struct StructureButtonOutcome {
    pub color: ButtonColor,
    /// The structure to start placing.
    pub select: Option<BuildStructureSelectEv>,
    /// The button was pressed without the funds to pay for the structure.
    pub insufficient_funds: bool,
}

/// Reacts to the pointer on the build button of `structure`: a press shows
/// the panel and starts placing the structure if the funds cover its price;
/// a hover fills the panel with the structure's name, price and build time
/// (a structure has no hit points, damage or speed).
pub fn build_structure_btn_interaction(
    interaction: Interaction,
    structure: StructureType,
    bank: &Bank,
    info_ctr_data: &mut InfoContainerData,
) -> (r: StructureButtonOutcome)
    ensures
        interaction == Interaction::Idle ==> r == (StructureButtonOutcome {
            color: ButtonColor::Normal,
            select: None,
            insufficient_funds: false,
        }) && final(info_ctr_data).active == old(info_ctr_data).active,
        interaction == Interaction::Pressed ==> {
            &&& r.color == ButtonColor::Highlight
            &&& final(info_ctr_data).active
            &&& (bank.funds >= spec_structure_cost(structure) ==> r.select == Some(
                BuildStructureSelectEv(structure),
            ) && !r.insufficient_funds)
            &&& (bank.funds < spec_structure_cost(structure) ==> r.select is None && r.insufficient_funds)
        },
        interaction == Interaction::Hovered ==> {
            &&& r == (StructureButtonOutcome {
                color: ButtonColor::Highlight,
                select: None,
                insufficient_funds: false,
            })
            &&& final(info_ctr_data).active
            &&& final(info_ctr_data).cost == spec_structure_cost(structure)
            &&& final(info_ctr_data).build_time == spec_structure_build_time(structure)
            &&& final(info_ctr_data).hp is None
            &&& final(info_ctr_data).dmg is None
            &&& final(info_ctr_data).speed is None
        },
        interaction != Interaction::Hovered ==> {
            &&& final(info_ctr_data).name@ == old(info_ctr_data).name@
            &&& final(info_ctr_data).cost == old(info_ctr_data).cost
            &&& final(info_ctr_data).build_time == old(info_ctr_data).build_time
            &&& final(info_ctr_data).hp == old(info_ctr_data).hp
            &&& final(info_ctr_data).dmg == old(info_ctr_data).dmg
            &&& final(info_ctr_data).speed == old(info_ctr_data).speed
        },
        interaction == Interaction::Hovered ==> final(info_ctr_data).name@ == match structure {
            StructureType::Cannon => "Cannon"@,
            StructureType::Barracks => "Barracks"@,
            StructureType::VehicleDepot => "Vehicle Depot"@,
            StructureType::ResearchCenter => "Research Center"@,
            StructureType::SatelliteDish => "Satellite Dish"@,
        },
{
    match interaction {
        Interaction::Idle => StructureButtonOutcome {
            color: ButtonColor::Normal,
            select: None,
            insufficient_funds: false,
        },
        Interaction::Pressed => {
            info_ctr_data.active = true;
            if bank.funds >= structure.cost() {
                StructureButtonOutcome {
                    color: ButtonColor::Highlight,
                    select: Some(BuildStructureSelectEv(structure)),
                    insufficient_funds: false,
                }
            } else {
                StructureButtonOutcome {
                    color: ButtonColor::Highlight,
                    select: None,
                    insufficient_funds: true,
                }
            }
        },
        Interaction::Hovered => {
            info_ctr_data.active = true;
            info_ctr_data.name = structure.to_string();
            info_ctr_data.cost = structure.cost();
            info_ctr_data.build_time = structure.build_time() as u64;
            info_ctr_data.hp = None;
            info_ctr_data.dmg = None;
            info_ctr_data.speed = None;
            StructureButtonOutcome {
                color: ButtonColor::Highlight,
                select: None,
                insufficient_funds: false,
            }
        },
    }
}

/// What pressing or hovering a unit button does.
#[derive(Clone, Copy, PartialEq, Eq, Structural, Debug)]
pub struct UnitButtonOutcome {
    pub color: ButtonColor,
    /// The unit to build.
    pub build: Option<BuildUnitEv>,
}

/// Reacts to the pointer on the build button of `unit`: a press shows the
/// panel and, on the frame the left button goes down, orders the unit; a
/// hover fills the panel with the unit's name, price, build time, hit points,
/// damage and speed.
pub fn build_unit_btn_interaction(
    interaction: Interaction,
    unit: UnitType,
    just_pressed_left: bool,
    info_ctr_data: &mut InfoContainerData,
) -> (r: UnitButtonOutcome)
    ensures
        interaction == Interaction::Idle ==> r == (UnitButtonOutcome { color: ButtonColor::Normal, build: None })
            && final(info_ctr_data).active == old(info_ctr_data).active,
        interaction == Interaction::Pressed ==> {
            &&& r.color == ButtonColor::Highlight
            &&& final(info_ctr_data).active
            &&& r.build == if just_pressed_left {
                Some(BuildUnitEv(unit))
            } else {
                None
            }
        },
        interaction == Interaction::Hovered ==> {
            &&& r == (UnitButtonOutcome { color: ButtonColor::Highlight, build: None })
            &&& final(info_ctr_data).active
            &&& final(info_ctr_data).cost == spec_unit_cost(unit)
            &&& final(info_ctr_data).build_time == spec_unit_build_time(unit)
            &&& final(info_ctr_data).hp == Some(spec_unit_hp(unit) as i32)
            &&& final(info_ctr_data).dmg == Some(spec_unit_dmg(unit) as i32)
            &&& final(info_ctr_data).speed == Some(spec_unit_speed(unit) as u32)
            &&& final(info_ctr_data).name@ == match unit {
                UnitType::Rifleman => "Rifleman"@,
                UnitType::TankGen1 => "Tank Gen I"@,
                UnitType::TankGen2 => "Tank Gen II"@,
            }
        },
        interaction != Interaction::Hovered ==> {
            &&& final(info_ctr_data).name@ == old(info_ctr_data).name@
            &&& final(info_ctr_data).cost == old(info_ctr_data).cost
            &&& final(info_ctr_data).build_time == old(info_ctr_data).build_time
            &&& final(info_ctr_data).hp == old(info_ctr_data).hp
            &&& final(info_ctr_data).dmg == old(info_ctr_data).dmg
            &&& final(info_ctr_data).speed == old(info_ctr_data).speed
        },
{
    match interaction {
        Interaction::Idle => UnitButtonOutcome { color: ButtonColor::Normal, build: None },
        Interaction::Pressed => {
            info_ctr_data.active = true;
            if just_pressed_left {
                UnitButtonOutcome { color: ButtonColor::Highlight, build: Some(BuildUnitEv(unit)) }
            } else {
                UnitButtonOutcome { color: ButtonColor::Highlight, build: None }
            }
        },
        Interaction::Hovered => {
            info_ctr_data.active = true;
            info_ctr_data.name = unit.name();
            info_ctr_data.cost = unit.cost();
            info_ctr_data.build_time = unit.build_time();
            info_ctr_data.hp = Some(unit.hp());
            info_ctr_data.dmg = Some(unit.dmg());
            info_ctr_data.speed = Some(unit.speed());
            UnitButtonOutcome { color: ButtonColor::Highlight, build: None }
        },
    }
}

/// What starting a placement asks of the world.
#[derive(Clone, Debug)]
pub struct StructureSelect {
    /// The placeholders to remove: every one that exists.
    pub despawn: Vec<u64>,
    /// Every unit is to be deselected.
    pub deselect_all: bool,
    /// The structure being placed.
    pub structure: StructureType,
    /// The new placeholder.
    pub spawn: PlaceholderBuild,
    /// Where it appears: far off the map until the cursor moves it, so that
    /// it does not flash at the origin.
    pub spawn_at: PositionMilli,
}

/// Starts placing the picked structure: the existing placeholders (given by
/// their entity ids) are removed, every unit is deselected, a new valid
/// placeholder for that structure is spawned off the map, and the cursor
/// enters build mode.
pub fn select_structure(
    trigger: &BuildStructureSelectEv,
    existing_placeholders: &Vec<u64>,
    cursor_state: &mut CursorState,
) -> (r: StructureSelect)
    ensures
        r.despawn@ == existing_placeholders@,
        r.deselect_all,
        r.structure == trigger.0,
        r.spawn == spec_build_placeholder(trigger.0),
        r.spawn_at == (PositionMilli { x: 100_000_000, y: 0, z: 0 }),
        *final(cursor_state) == CursorState::Build,
{
    let mut despawn: Vec<u64> = Vec::new();
    let mut i: usize = 0;
    while i < existing_placeholders.len()
        invariant
            0 <= i <= existing_placeholders@.len(),
            despawn@ == existing_placeholders@.take(i as int),
        decreases existing_placeholders@.len() - i,
    {
        despawn.push(existing_placeholders[i]);
        i = i + 1;
        assert(despawn@ =~= existing_placeholders@.take(i as int));
    }
    assert(existing_placeholders@.take(existing_placeholders@.len() as int) =~= existing_placeholders@);
    let spawn = trigger.0.build_placeholder();
    *cursor_state = CursorState::Build;
    StructureSelect {
        despawn,
        deselect_all: true,
        structure: trigger.0,
        spawn,
        spawn_at: PositionMilli { x: 100_000_000, y: 0, z: 0 },
    }
}

/// A right click cancels the placement: every placeholder is to be removed
/// (the result says so) and, if there was one, the cursor returns to its
/// standard state.
pub fn cancel_build_structure(just_pressed_right: bool, placeholders: usize, cursor_state: &mut CursorState) -> (r: bool)
    ensures
        r == just_pressed_right,
        *final(cursor_state) == if just_pressed_right && placeholders > 0 {
            CursorState::Standard
        } else {
            *old(cursor_state)
        },
{
    if just_pressed_right {
        let mut i: usize = 0;
        while i < placeholders
            invariant
                0 <= i <= placeholders,
                *cursor_state == if i > 0 {
                    CursorState::Standard
                } else {
                    *old(cursor_state)
                },
            decreases placeholders - i,
        {
            *cursor_state = CursorState::Standard;
            i = i + 1;
        }
    }
    just_pressed_right
}

} // verus!
