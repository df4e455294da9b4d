//! The structure catalogue, the tally of built structures, and the rules for
//! placing a new structure on the map.
use vstd::prelude::*;

use crate::bank::AdjustFundsEv;
use crate::cursor::CursorState;

verus! {

/// The kinds of structure a player can build.
#[derive(Clone, Copy, PartialEq, Eq, Structural, Debug, Hash)]
pub enum StructureType {
    Cannon,
    Barracks,
    VehicleDepot,
    ResearchCenter,
    SatelliteDish,
}

/// On-screen size of a selection border, in pixels.
#[derive(Clone, Copy, PartialEq, Eq, Structural, Debug)]
pub struct BorderSize {
    pub width: u32,
    pub height: u32,
}

/// A size in world units, in thousandths of a unit.
#[derive(Clone, Copy, PartialEq, Eq, Structural, Debug)]
pub struct SizeMilli {
    pub x: u32,
    pub y: u32,
    pub z: u32,
}

/// A position in world units, in thousandths of a unit.
#[derive(Clone, Copy, PartialEq, Eq, Structural, Debug)]
pub struct PositionMilli {
    pub x: i64,
    pub y: i64,
    pub z: i64,
}

/// The scene a structure entity shows.
#[derive(Clone, Copy, PartialEq, Eq, Structural, Debug)]
pub enum StructureModel {
    /// The placeholder that says the structure fits where it stands.
    PlaceholderValid(StructureType),
    /// The placeholder that says it does not fit there.
    PlaceholderInvalid(StructureType),
    /// The finished building.
    Built(StructureType),
}

/// How the physics engine moves a body.
#[derive(Clone, Copy, PartialEq, Eq, Structural, Debug)]
pub enum RigidBodyKind {
    /// Moved by the simulation (and by the cursor, for a placeholder).
    Dynamic,
    /// Never moves.
    Fixed,
}

/// Everything a new placeholder entity is made of.
#[derive(Clone, Copy, PartialEq, Eq, Structural, Debug)]
pub struct PlaceholderBuild {
    pub model: StructureModel,
    /// Half of the footprint along each axis: the cuboid collider.
    pub collider_half_extents: SizeMilli,
    pub body: RigidBodyKind,
    /// The collider only detects intersections; it pushes nothing.
    pub sensor: bool,
    /// The collider reports collision events.
    pub collision_events: bool,
    pub placeholder: StructurePlaceholder,
    /// The full footprint.
    pub size: SizeMilli,
}

/// What a placeholder becomes once it is placed.
#[derive(Clone, Debug)]
pub struct PlacedStructure {
    pub structure: StructureType,
    pub model: StructureModel,
    pub body: RigidBodyKind,
    /// The placeholder's sensor is taken off.
    pub sensor: bool,
    /// The placeholder's collision events are taken off.
    pub collision_events: bool,
    pub border: BorderSize,
    pub name: String,
}

/// Footprint of each structure while it is being placed, in thousandths.
pub open spec fn spec_placeholder_size(s: StructureType) -> SizeMilli {
    match s {
        StructureType::Cannon => SizeMilli { x: 10000, y: 750, z: 10000 },
        StructureType::Barracks => SizeMilli { x: 30000, y: 12000, z: 25000 },
        StructureType::VehicleDepot => SizeMilli { x: 60000, y: 4000, z: 40000 },
        StructureType::ResearchCenter => SizeMilli { x: 30000, y: 18000, z: 30000 },
        StructureType::SatelliteDish => SizeMilli { x: 32000, y: 8000, z: 32000 },
    }
}

/// The parts of a new placeholder for `s`.
pub open spec fn spec_build_placeholder(s: StructureType) -> PlaceholderBuild {
    PlaceholderBuild {
        model: StructureModel::PlaceholderValid(s),
        collider_half_extents: SizeMilli {
            x: spec_placeholder_size(s).x / 2,
            y: spec_placeholder_size(s).y / 2,
            z: spec_placeholder_size(s).z / 2,
        },
        body: RigidBodyKind::Dynamic,
        sensor: true,
        collision_events: true,
        placeholder: StructurePlaceholder { is_valid: true, structure: s },
        size: spec_placeholder_size(s),
    }
}

/// Display name of each structure.
pub open spec fn spec_structure_name(s: StructureType) -> Seq<char> {
    match s {
        StructureType::Cannon => "Cannon"@,
        StructureType::Barracks => "Barracks"@,
        StructureType::VehicleDepot => "Vehicle Depot"@,
        StructureType::ResearchCenter => "Research Center"@,
        StructureType::SatelliteDish => "Satellite Dish"@,
    }
}

/// Selection border of each structure.
pub open spec fn spec_select_border(s: StructureType) -> BorderSize {
    match s {
        StructureType::Cannon => BorderSize { width: 40, height: 40 },
        StructureType::Barracks => BorderSize { width: 75, height: 75 },
        StructureType::VehicleDepot => BorderSize { width: 140, height: 100 },
        StructureType::ResearchCenter => BorderSize { width: 100, height: 100 },
        StructureType::SatelliteDish => BorderSize { width: 75, height: 90 },
    }
}

/// Build time of each structure, in seconds.
pub open spec fn spec_structure_build_time(s: StructureType) -> int {
    match s {
        StructureType::Cannon => 5,
        StructureType::Barracks => 10,
        StructureType::VehicleDepot => 15,
        StructureType::ResearchCenter => 20,
        StructureType::SatelliteDish => 25,
    }
}

/// Price of each structure.
pub open spec fn spec_structure_cost(s: StructureType) -> int {
    match s {
        StructureType::Cannon => 500,
        StructureType::Barracks => 500,
        StructureType::VehicleDepot => 2000,
        StructureType::ResearchCenter => 1500,
        StructureType::SatelliteDish => 1000,
    }
}

impl StructureType {
    /// Every structure kind, in the order the build menu lists them.
    pub fn all() -> (r: Vec<StructureType>)
        ensures
            r@ == seq![
                StructureType::Cannon,
                StructureType::Barracks,
                StructureType::VehicleDepot,
                StructureType::ResearchCenter,
                StructureType::SatelliteDish,
            ],
    {
        vec![
            StructureType::Cannon,
            StructureType::Barracks,
            StructureType::VehicleDepot,
            StructureType::ResearchCenter,
            StructureType::SatelliteDish,
        ]
    }

    /// Size of the selection border drawn around a selected structure.
    pub fn select_border(&self) -> (r: BorderSize)
        ensures
            r == spec_select_border(*self),
    {
        match self {
            StructureType::Cannon => BorderSize { width: 40, height: 40 },
            StructureType::Barracks => BorderSize { width: 75, height: 75 },
            StructureType::VehicleDepot => BorderSize { width: 140, height: 100 },
            StructureType::ResearchCenter => BorderSize { width: 100, height: 100 },
            StructureType::SatelliteDish => BorderSize { width: 75, height: 90 },
        }
    }

    /// Build time, in seconds.
    pub fn build_time(&self) -> (r: i32)
        ensures
            r == spec_structure_build_time(*self),
    {
        match self {
            StructureType::Cannon => 5,
            StructureType::Barracks => 10,
            StructureType::VehicleDepot => 15,
            StructureType::ResearchCenter => 20,
            StructureType::SatelliteDish => 25,
        }
    }

    /// Price.
    pub fn cost(&self) -> (r: i32)
        ensures
            r == spec_structure_cost(*self),
    {
        match self {
            StructureType::Cannon => 500,
            StructureType::Barracks => 500,
            StructureType::VehicleDepot => 2000,
            StructureType::ResearchCenter => 1500,
            StructureType::SatelliteDish => 1000,
        }
    }

    /// Display name.
    pub fn to_string(&self) -> (r: String)
        ensures
            r@ == spec_structure_name(*self),
    {
        match self {
            StructureType::Cannon => "Cannon".to_string(),
            StructureType::Barracks => "Barracks".to_string(),
            StructureType::VehicleDepot => "Vehicle Depot".to_string(),
            StructureType::ResearchCenter => "Research Center".to_string(),
            StructureType::SatelliteDish => "Satellite Dish".to_string(),
        }
    }

    /// Full size of the structure's footprint while it is being placed, in
    /// thousandths of a world unit.
    pub fn placeholder_size(&self) -> (r: SizeMilli)
        ensures
            r == spec_placeholder_size(*self),
    {
        match self {
            StructureType::Cannon => SizeMilli { x: 10000, y: 750, z: 10000 },
            StructureType::Barracks => SizeMilli { x: 30000, y: 12000, z: 25000 },
            StructureType::VehicleDepot => SizeMilli { x: 60000, y: 4000, z: 40000 },
            StructureType::ResearchCenter => SizeMilli { x: 30000, y: 18000, z: 30000 },
            StructureType::SatelliteDish => SizeMilli { x: 32000, y: 8000, z: 32000 },
        }
    }

    /// The scene of a placeholder that fits where it stands.
    pub fn valid_placement(&self) -> (r: StructureModel)
        ensures
            r == StructureModel::PlaceholderValid(*self),
    {
        StructureModel::PlaceholderValid(*self)
    }

    /// The scene of a placeholder that does not fit where it stands.
    pub fn invalid_placement(&self) -> (r: StructureModel)
        ensures
            r == StructureModel::PlaceholderInvalid(*self),
    {
        StructureModel::PlaceholderInvalid(*self)
    }

    /// A new placeholder for this structure: it shows the valid placeholder
    /// scene, has a dynamic body and a sensor cuboid collider of half the
    /// footprint each way that reports collisions, and carries a valid
    /// placeholder record.
    pub fn build_placeholder(&self) -> (r: PlaceholderBuild)
        ensures
            r.model == StructureModel::PlaceholderValid(*self),
            r.size == spec_placeholder_size(*self),
            r.collider_half_extents == (SizeMilli {
                x: r.size.x / 2,
                y: r.size.y / 2,
                z: r.size.z / 2,
            }),
            r.collider_half_extents.x * 2 == r.size.x,
            r.collider_half_extents.y * 2 == r.size.y,
            r.collider_half_extents.z * 2 == r.size.z,
            r.body == RigidBodyKind::Dynamic,
            r.sensor,
            r.collision_events,
            r.placeholder == (StructurePlaceholder { is_valid: true, structure: *self }),
            r == spec_build_placeholder(*self),
    {
        let size = self.placeholder_size();
        let half = SizeMilli { x: size.x / 2, y: size.y / 2, z: size.z / 2 };
        PlaceholderBuild {
            model: self.valid_placement(),
            collider_half_extents: half,
            body: RigidBodyKind::Dynamic,
            sensor: true,
            collision_events: true,
            placeholder: StructurePlaceholder::new(*self),
            size,
        }
    }

    /// What a placed placeholder turns into: the finished building's scene on
    /// a fixed body, without the sensor and collision events, with its
    /// selection border and its name.
    pub fn place(&self) -> (r: PlacedStructure)
        ensures
            r.structure == *self,
            r.model == StructureModel::Built(*self),
            r.body == RigidBodyKind::Fixed,
            !r.sensor,
            !r.collision_events,
            r.border == spec_select_border(*self),
            r.name@ == spec_structure_name(*self),
    {
        PlacedStructure {
            structure: *self,
            model: StructureModel::Built(*self),
            body: RigidBodyKind::Fixed,
            sensor: false,
            collision_events: false,
            border: self.select_border(),
            name: self.to_string(),
        }
    }
}

/// A structure that follows the cursor until the player places it.
#[derive(Clone, Copy, PartialEq, Eq, Structural, Debug)]
pub struct StructurePlaceholder {
    pub is_valid: bool,
    pub structure: StructureType,
}

impl StructurePlaceholder {
    /// A placeholder for `structure`, valid until a collision says otherwise.
    pub fn new(structure: StructureType) -> (r: Self)
        ensures
            r.is_valid,
            r.structure == structure,
    {
        Self { is_valid: true, structure }
    }
}

/// One intersection reported by the physics engine for the placeholder.
#[derive(Clone, Copy, PartialEq, Eq, Structural, Debug)]
pub struct IntersectionPair {
    /// One of the two colliders is the map's ground.
    pub touches_map_base: bool,
    /// The two colliders currently intersect.
    pub intersecting: bool,
}

/// Whether the placeholder collides with something: the verdict of the last
/// reported pair that does not involve the ground, or no collision when there
/// is no such pair.
pub open spec fn spec_placement_collides(pairs: Seq<IntersectionPair>) -> bool
    decreases pairs.len(),
{
    if pairs.len() == 0 {
        false
    } else if !pairs.last().touches_map_base {
        pairs.last().intersecting
    } else {
        spec_placement_collides(pairs.drop_last())
    }
}

/// Decides whether the placeholder collides, as `spec_placement_collides`.
pub fn placement_collides(pairs: &Vec<IntersectionPair>) -> (r: bool)
    ensures
        r == spec_placement_collides(pairs@),
{
    let mut is_colliding = false;
    let mut i: usize = 0;
    while i < pairs.len()
        invariant
            0 <= i <= pairs@.len(),
            is_colliding == spec_placement_collides(pairs@.take(i as int)),
        decreases pairs@.len() - i,
    {
        let pair = pairs[i];
        assert(pairs@.take(i + 1).drop_last() =~= pairs@.take(i as int));
        if !pair.touches_map_base {
            is_colliding = pair.intersecting;
        }
        i = i + 1;
    }
    assert(pairs@.take(pairs@.len() as int) =~= pairs@);
    is_colliding
}

/// Marks the placeholder valid exactly when it does not collide, and gives
/// the scene it shows then.
pub fn validate_structure_placement(pairs: &Vec<IntersectionPair>, placeholder: &mut StructurePlaceholder) -> (r: StructureModel)
    ensures
        final(placeholder).is_valid == !spec_placement_collides(pairs@),
        final(placeholder).structure == old(placeholder).structure,
        r == if spec_placement_collides(pairs@) {
            StructureModel::PlaceholderInvalid(old(placeholder).structure)
        } else {
            StructureModel::PlaceholderValid(old(placeholder).structure)
        },
{
    let is_colliding = placement_collides(pairs);
    if is_colliding {
        placeholder.is_valid = false;
        placeholder.structure.invalid_placement()
    } else {
        placeholder.is_valid = true;
        placeholder.structure.valid_placement()
    }
}

/// What the mouse button did this frame while a structure is being placed.
pub struct PlaceInput {
    pub cursor: CursorState,
    pub hvr_cmd_interface: bool,
    pub just_pressed_left: bool,
}

/// Whether a left click places the (single) placeholder: only in build mode,
/// away from the command interface, and only where the placeholder is valid.
pub open spec fn spec_places(input: PlaceInput, placeholder: Option<StructurePlaceholder>) -> bool {
    &&& input.cursor == CursorState::Build
    &&& !input.hvr_cmd_interface
    &&& placeholder is Some
    &&& input.just_pressed_left
    &&& placeholder.unwrap().is_valid
}

/// A placement that went through: the charge to the bank and what the
/// placeholder becomes (the placement sound plays with it).
#[derive(Clone, Debug)]
pub struct Placement {
    pub charge: AdjustFundsEv,
    pub placed: PlacedStructure,
}

/// Places the structure when the click allows it: the cursor returns to its
/// standard state, the structure's price is charged and the placeholder turns
/// into the finished structure.  Returns `None` when nothing is placed (and
/// then the cursor is untouched).
pub fn place_structure(
    input: &PlaceInput,
    placeholder: Option<StructurePlaceholder>,
    cursor_state: &mut CursorState,
) -> (r: Option<Placement>)
    ensures
        spec_places(*input, placeholder) ==> {
            &&& r matches Some(p)
            &&& p.charge.0 == -spec_structure_cost(placeholder.unwrap().structure)
            &&& p.placed.structure == placeholder.unwrap().structure
            &&& p.placed.model == StructureModel::Built(placeholder.unwrap().structure)
            &&& p.placed.body == RigidBodyKind::Fixed
            &&& !p.placed.sensor
            &&& !p.placed.collision_events
            &&& p.placed.border == spec_select_border(placeholder.unwrap().structure)
            &&& p.placed.name@ == spec_structure_name(placeholder.unwrap().structure)
            &&& *final(cursor_state) == CursorState::Standard
        },
        !spec_places(*input, placeholder) ==> r is None && *final(cursor_state) == *old(cursor_state),
        !input.just_pressed_left ==> r is None && *final(cursor_state) == *old(cursor_state),
        r is Some ==> {
            &&& input.just_pressed_left
            &&& input.cursor == CursorState::Build
            &&& !input.hvr_cmd_interface
            &&& placeholder matches Some(p) && p.is_valid
        },
{
    if input.cursor != CursorState::Build || input.hvr_cmd_interface {
        return None;
    }
    match placeholder {
        None => None,
        Some(p) => {
            if input.just_pressed_left && p.is_valid {
                *cursor_state = CursorState::Standard;
                let placed = p.structure.place();
                Some(Placement { charge: AdjustFundsEv(-p.structure.cost()), placed })
            } else {
                None
            }
        },
    }
}

/// What clicking a placed structure does.
#[derive(Clone, Copy, PartialEq, Eq, Structural, Debug)]
pub enum StructureSelection {
    /// The click was the one that placed the structure: only forget that.
    ConsumeNewlyPlaced,
    /// The pointer is over the command interface: nothing happens.
    Ignore,
    /// Select the structure and outline it.
    Select,
}

/// Decides what clicking a structure does: the click that has just placed a
/// structure does not also select it, and clicks over the command interface
/// are ignored.
pub fn select_structure(newly_placed: bool, hvr_cmd_interface: bool) -> (r: StructureSelection)
    ensures
        r == if newly_placed {
            StructureSelection::ConsumeNewlyPlaced
        } else if hvr_cmd_interface {
            StructureSelection::Ignore
        } else {
            StructureSelection::Select
        },
{
    if newly_placed {
        StructureSelection::ConsumeNewlyPlaced
    } else if hvr_cmd_interface {
        StructureSelection::Ignore
    } else {
        StructureSelection::Select
    }
}

/// How many structures of each kind the player has standing: placed and not
/// yet destroyed.
#[derive(Clone, Copy, PartialEq, Eq, Structural, Debug)]
pub struct StructuresBuilt {
    pub barracks: u32,
    pub cannon: u32,
    pub vehicle_depot: u32,
    pub research_center: u32,
    pub satellite_dish: u32,
}

impl Default for StructuresBuilt {
    fn default() -> (r: Self)
        ensures
            r.barracks == 0,
            r.cannon == 0,
            r.vehicle_depot == 0,
            r.research_center == 0,
            r.satellite_dish == 0,
    {
        StructuresBuilt { barracks: 0, cannon: 0, vehicle_depot: 0, research_center: 0, satellite_dish: 0 }
    }
}

/// How many times `t` occurs in `s`.
pub open spec fn count_of(s: Seq<StructureType>, t: StructureType) -> nat
    decreases s.len(),
{
    if s.len() == 0 {
        0
    } else {
        count_of(s.drop_last(), t) + if s.last() == t {
            1nat
        } else {
            0nat
        }
    }
}

/// The tally's entry for `t`.
pub open spec fn built_of(b: StructuresBuilt, t: StructureType) -> int {
    match t {
        StructureType::Cannon => b.cannon as int,
        StructureType::Barracks => b.barracks as int,
        StructureType::VehicleDepot => b.vehicle_depot as int,
        StructureType::ResearchCenter => b.research_center as int,
        StructureType::SatelliteDish => b.satellite_dish as int,
    }
}

impl StructuresBuilt {
    /// How many structures of kind `kind` have been built.
    pub fn of_kind(&self, kind: StructureType) -> (r: u32)
        ensures
            r == built_of(*self, kind),
    {
        match kind {
            StructureType::Cannon => self.cannon,
            StructureType::Barracks => self.barracks,
            StructureType::VehicleDepot => self.vehicle_depot,
            StructureType::ResearchCenter => self.research_center,
            StructureType::SatelliteDish => self.satellite_dish,
        }
    }
}

/// A prefix holds no more occurrences than the whole sequence.
proof fn lemma_count_of_prefix(s: Seq<StructureType>, t: StructureType, i: int)
    requires
        0 <= i <= s.len(),
    ensures
        count_of(s.take(i), t) <= count_of(s, t),
    decreases s.len() - i,
{
    if i < s.len() {
        lemma_count_of_prefix(s, t, i + 1);
        assert(s.take(i + 1).drop_last() =~= s.take(i));
    } else {
        assert(s.take(i) =~= s);
    }
}

/// Counts the structures that were just placed, one per entry of `added`
/// (`mark_structure_removed` takes destroyed ones off again).
pub fn mark_structure_built(added: &Vec<StructureType>, structures_built: &mut StructuresBuilt)
    requires
        forall|t: StructureType| built_of(*old(structures_built), t) + count_of(added@, t) <= u32::MAX,
    ensures
        forall|t: StructureType|
            #[trigger] built_of(*final(structures_built), t) == built_of(*old(structures_built), t)
                + count_of(added@, t),
{
    let ghost start = *structures_built;
    let mut i: usize = 0;
    while i < added.len()
        invariant
            0 <= i <= added@.len(),
            forall|t: StructureType| built_of(start, t) + count_of(added@, t) <= u32::MAX,
            forall|t: StructureType|
                #[trigger] built_of(*structures_built, t) == built_of(start, t) + count_of(
                    added@.take(i as int),
                    t,
                ),
        decreases added@.len() - i,
    {
        let s = added[i];
        assert(added@.take(i + 1).drop_last() =~= added@.take(i as int));
        proof {
            lemma_count_of_prefix(added@, s, i + 1);
            assert forall|t: StructureType|
                #[trigger] count_of(added@.take(i + 1), t) == count_of(added@.take(i as int), t)
                    + (if s == t { 1nat } else { 0nat }) by {
                assert(added@.take(i + 1).last() == s);
            }
            assert(built_of(*structures_built, s) == built_of(start, s) + count_of(added@.take(i as int), s));
            assert(built_of(start, s) + count_of(added@, s) <= u32::MAX);
        }
        let ghost prev = *structures_built;
        match s {
            StructureType::Cannon => {
                structures_built.cannon = structures_built.cannon + 1;
            },
            StructureType::Barracks => {
                structures_built.barracks = structures_built.barracks + 1;
            },
            StructureType::VehicleDepot => {
                structures_built.vehicle_depot = structures_built.vehicle_depot + 1;
            },
            StructureType::ResearchCenter => {
                structures_built.research_center = structures_built.research_center + 1;
            },
            StructureType::SatelliteDish => {
                structures_built.satellite_dish = structures_built.satellite_dish + 1;
            },
        }
        assert forall|t: StructureType|
            #[trigger] built_of(*structures_built, t) == built_of(prev, t) + (if s == t { 1int } else { 0int })
            by {}
        i = i + 1;
    }
    assert(added@.take(added@.len() as int) =~= added@);
}

/// Takes the structures that were just removed (destroyed) off the tally, one
/// per entry of `removed`.
pub fn mark_structure_removed(removed: &Vec<StructureType>, structures_built: &mut StructuresBuilt)
    requires
        forall|t: StructureType| count_of(removed@, t) <= built_of(*old(structures_built), t),
    ensures
        forall|t: StructureType|
            #[trigger] built_of(*final(structures_built), t) == built_of(*old(structures_built), t)
                - count_of(removed@, t),
{
    let ghost start = *structures_built;
    let mut i: usize = 0;
    while i < removed.len()
        invariant
            0 <= i <= removed@.len(),
            forall|t: StructureType| count_of(removed@, t) <= built_of(start, t),
            forall|t: StructureType|
                #[trigger] built_of(*structures_built, t) == built_of(start, t) - count_of(
                    removed@.take(i as int),
                    t,
                ),
        decreases removed@.len() - i,
    {
        let s = removed[i];
        assert(removed@.take(i + 1).drop_last() =~= removed@.take(i as int));
        proof {
            lemma_count_of_prefix(removed@, s, i + 1);
            assert forall|t: StructureType|
                #[trigger] count_of(removed@.take(i + 1), t) == count_of(removed@.take(i as int), t)
                    + (if s == t { 1nat } else { 0nat }) by {
                assert(removed@.take(i + 1).last() == s);
            }
            assert(built_of(*structures_built, s) == built_of(start, s) - count_of(removed@.take(i as int), s));
            assert(count_of(removed@, s) <= built_of(start, s));
        }
        let ghost prev = *structures_built;
        match s {
            StructureType::Cannon => {
                structures_built.cannon = structures_built.cannon - 1;
            },
            StructureType::Barracks => {
                structures_built.barracks = structures_built.barracks - 1;
            },
            StructureType::VehicleDepot => {
                structures_built.vehicle_depot = structures_built.vehicle_depot - 1;
            },
            StructureType::ResearchCenter => {
                structures_built.research_center = structures_built.research_center - 1;
            },
            StructureType::SatelliteDish => {
                structures_built.satellite_dish = structures_built.satellite_dish - 1;
            },
        }
        assert forall|t: StructureType|
            #[trigger] built_of(*structures_built, t) == built_of(prev, t) - (if s == t { 1int } else { 0int })
            by {}
        i = i + 1;
    }
    assert(removed@.take(removed@.len() as int) =~= removed@);
}

/// Law: over a placement and a removal, each kind's tally moves by the number
/// placed minus the number removed; removing exactly what was placed gives
/// the tally back unchanged.
pub proof fn lemma_tally_places_minus_removes(
    before: StructuresBuilt,
    placed: StructuresBuilt,
    after: StructuresBuilt,
    added: Seq<StructureType>,
    removed: Seq<StructureType>,
)
    requires
        forall|t: StructureType| #[trigger] built_of(placed, t) == built_of(before, t) + count_of(added, t),
        forall|t: StructureType| #[trigger] built_of(after, t) == built_of(placed, t) - count_of(removed, t),
    ensures
        forall|t: StructureType|
            #[trigger] built_of(after, t) == built_of(before, t) + count_of(added, t) - count_of(removed, t),
        added == removed ==> after == before,
{
    assert(built_of(after, StructureType::Cannon) == built_of(before, StructureType::Cannon) + count_of(added, StructureType::Cannon) - count_of(removed, StructureType::Cannon));
    assert(built_of(after, StructureType::Barracks) == built_of(before, StructureType::Barracks) + count_of(added, StructureType::Barracks) - count_of(removed, StructureType::Barracks));
    assert(built_of(after, StructureType::VehicleDepot) == built_of(before, StructureType::VehicleDepot) + count_of(added, StructureType::VehicleDepot) - count_of(removed, StructureType::VehicleDepot));
    assert(built_of(after, StructureType::ResearchCenter) == built_of(before, StructureType::ResearchCenter) + count_of(added, StructureType::ResearchCenter) - count_of(removed, StructureType::ResearchCenter));
    assert(built_of(after, StructureType::SatelliteDish) == built_of(before, StructureType::SatelliteDish) + count_of(added, StructureType::SatelliteDish) - count_of(removed, StructureType::SatelliteDish));
}

/// Law: a structure is placed (and paid for) only on a frame in which the
/// left button was just pressed, in build mode, away from the command
/// interface, and only from a valid placeholder; every such click places it.
pub proof fn lemma_placing_needs_a_click(input: PlaceInput, placeholder: Option<StructurePlaceholder>)
    ensures
        spec_places(input, placeholder) ==> input.just_pressed_left,
        spec_places(input, placeholder) ==> input.cursor == CursorState::Build,
        spec_places(input, placeholder) ==> !input.hvr_cmd_interface,
        spec_places(input, placeholder) ==> (placeholder matches Some(p) && p.is_valid),
        (input.just_pressed_left && input.cursor == CursorState::Build && !input.hvr_cmd_interface
            && (placeholder matches Some(p) && p.is_valid)) ==> spec_places(input, placeholder),
{
}

} // verus!
