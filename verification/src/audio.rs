//! Unit voice lines: the catalogue of recorded lines, where their files sit,
//! and which line answers a command.
use std::collections::HashMap;
use vstd::prelude::*;
use vstd::std_specs::iter::IteratorSpec;

use crate::units::{spec_unit_code, UnitType};

verus! {

/// What a unit is answering to.
#[derive(Clone, Copy, PartialEq, Eq, Structural, Debug, Hash)]
pub enum AudioCmd {
    Relocate,
    Select,
    Ready,
}

/// The request to play a voice line of `unit` for `cmd`.
#[derive(Clone, Copy, PartialEq, Eq, Structural, Debug)]
pub struct UnitAudioEv {
    pub cmd: AudioCmd,
    pub unit: UnitType,
}

impl UnitAudioEv {
    pub fn new(cmd: AudioCmd, unit: UnitType) -> (r: Self)
        ensures
            r == (UnitAudioEv { cmd, unit }),
    {
        Self { cmd, unit }
    }
}

/// A number that identifies each command.
pub open spec fn spec_cmd_code(c: AudioCmd) -> u64 {
    match c {
        AudioCmd::Relocate => 0,
        AudioCmd::Select => 1,
        AudioCmd::Ready => 2,
    }
}

/// The key under which the lines of `unit` for `cmd` are filed.
pub open spec fn sound_key(unit: UnitType, cmd: AudioCmd) -> u64 {
    (spec_unit_code(unit) * 3 + spec_cmd_code(cmd)) as u64
}

fn key_of(unit: UnitType, cmd: AudioCmd) -> (r: u64)
    ensures
        r == sound_key(unit, cmd),
{
    let c: u64 = match cmd {
        AudioCmd::Relocate => 0,
        AudioCmd::Select => 1,
        AudioCmd::Ready => 2,
    };
    unit.code() * 3 + c
}

proof fn lemma_sound_key_injective(u1: UnitType, c1: AudioCmd, u2: UnitType, c2: AudioCmd)
    requires
        (u1, c1) != (u2, c2),
    ensures
        sound_key(u1, c1) != sound_key(u2, c2),
{
}

/// The recorded voice lines (of any handle type `H`), filed by unit and
/// command, and the sound played when a structure is placed.
pub struct MyAudio<H> {
    pub place_structure: H,
    pub unit_cmds: HashMap<u64, Vec<H>>,
}

impl<H> MyAudio<H> {
    /// The lines recorded for `unit` answering `cmd`, in the order they were
    /// added.
    pub open spec fn lines(&self, unit: UnitType, cmd: AudioCmd) -> Seq<H> {
        if self.unit_cmds@.contains_key(sound_key(unit, cmd)) {
            self.unit_cmds@[sound_key(unit, cmd)]@
        } else {
            seq![]
        }
    }

    /// A catalogue with no voice lines.
    pub fn new(place_structure: H) -> (r: Self)
        ensures
            r.place_structure == place_structure,
            forall|u: UnitType, c: AudioCmd| #[trigger] r.lines(u, c) == Seq::<H>::empty(),
    {
        MyAudio { place_structure, unit_cmds: HashMap::new() }
    }

    /// Files one more line of `unit` answering `cmd`.
    pub fn add_line(&mut self, unit: UnitType, cmd: AudioCmd, handle: H)
        ensures
            final(self).place_structure == old(self).place_structure,
            final(self).lines(unit, cmd) == old(self).lines(unit, cmd).push(handle),
            forall|u: UnitType, c: AudioCmd|
                (u, c) != (unit, cmd) ==> #[trigger] final(self).lines(u, c) == old(self).lines(u, c),
    {
        let key = key_of(unit, cmd);
        let mut list: Vec<H> = match self.unit_cmds.remove(&key) {
            Some(l) => l,
            None => Vec::new(),
        };
        list.push(handle);
        self.unit_cmds.insert(key, list);
        proof {
            assert forall|u: UnitType, c: AudioCmd| (u, c) != (unit, cmd) implies #[trigger] self.lines(u, c)
                == old(self).lines(u, c) by {
                lemma_sound_key_injective(u, c, unit, cmd);
            }
        }
    }

    /// The lines recorded for `unit` answering `cmd`.
    pub fn get_lines(&self, unit: UnitType, cmd: AudioCmd) -> (r: Option<&Vec<H>>)
        ensures
            r matches Some(l) ==> l@ == self.lines(unit, cmd),
            r is None ==> self.lines(unit, cmd).len() == 0,
    {
        let key = key_of(unit, cmd);
        self.unit_cmds.get(&key)
    }
}

/// Calls `rand::seq::IndexedRandom::choose` with the thread-local generator
/// (`rand::rng`).  Claimed of it: it returns nothing exactly when the list is
/// empty, and otherwise one of the list's items; which one is left to chance.
#[verifier::external_body]
fn choose_random<H>(items: &Vec<H>) -> (r: Option<&H>)
    ensures
        r is None <==> items@.len() == 0,
        r matches Some(x) ==> items@.contains(*x),
{
    rand::seq::IndexedRandom::choose(items.as_slice(), &mut rand::rng())
}

/// Picks, at random, the line to play for the request: one of the lines
/// recorded for the unit and command, or nothing when none is recorded.
pub fn unit_audio<'a, H>(trigger: &UnitAudioEv, my_audio: &'a MyAudio<H>) -> (r: Option<&'a H>)
    ensures
        r is None <==> my_audio.lines(trigger.unit, trigger.cmd).len() == 0,
        r matches Some(x) ==> my_audio.lines(trigger.unit, trigger.cmd).contains(*x),
{
    match my_audio.get_lines(trigger.unit, trigger.cmd) {
        Some(handles) => choose_random(handles),
        None => None,
    }
}

/// How many times `u` occurs in `s`.
pub open spec fn count_units(s: Seq<UnitType>, u: UnitType) -> nat
    decreases s.len(),
{
    if s.len() == 0 {
        0
    } else {
        count_units(s.drop_last(), u) + if s.last() == u {
            1nat
        } else {
            0nat
        }
    }
}

/// Every unit of a nonempty list is of some kind that occurs in it.
proof fn lemma_count_units_positive(s: Seq<UnitType>, i: int)
    requires
        0 <= i < s.len(),
    ensures
        count_units(s, s[i]) > 0,
    decreases s.len(),
{
    if i < s.len() - 1 {
        lemma_count_units_positive(s.drop_last(), i);
    }
}

/// How many units of kind `u` the list holds.
fn count_kind(units: &Vec<UnitType>, u: UnitType) -> (r: usize)
    ensures
        r == count_units(units@, u),
{
    let mut n: usize = 0;
    let mut i: usize = 0;
    while i < units.len()
        invariant
            0 <= i <= units@.len(),
            n == count_units(units@.take(i as int), u),
            n <= i,
        decreases units@.len() - i,
    {
        assert(units@.take(i + 1).drop_last() =~= units@.take(i as int));
        if units[i] == u {
            n = n + 1;
        }
        i = i + 1;
    }
    assert(units@.take(units@.len() as int) =~= units@);
    n
}

/// The most common kind among the units, or nothing for an empty list.  Of
/// several equally common kinds any may be returned.
pub fn most_common_unit(units: &Vec<UnitType>) -> (r: Option<UnitType>)
    ensures
        r is None <==> units@.len() == 0,
        r matches Some(m) ==> count_units(units@, m) > 0 && forall|u: UnitType|
            #[trigger] count_units(units@, u) <= count_units(units@, m),
{
    let kinds = UnitType::all();
    let mut best: Option<UnitType> = None;
    let mut best_count: usize = 0;
    let mut k: usize = 0;
    while k < kinds.len()
        invariant
            kinds@ == seq![UnitType::Rifleman, UnitType::TankGen1, UnitType::TankGen2],
            0 <= k <= 3,
            best is None ==> best_count == 0,
            best matches Some(m) ==> best_count == count_units(units@, m) && best_count > 0,
            forall|j: int| 0 <= j < k ==> count_units(units@, #[trigger] kinds@[j]) <= best_count,
        decreases 3 - k,
    {
        let u = kinds[k];
        let c = count_kind(units, u);
        if c > best_count {
            best = Some(u);
            best_count = c;
        }
        k = k + 1;
    }
    proof {
        assert forall|u: UnitType| count_units(units@, u) <= best_count by {
            match u {
                UnitType::Rifleman => assert(kinds@[0] == u),
                UnitType::TankGen1 => assert(kinds@[1] == u),
                UnitType::TankGen2 => assert(kinds@[2] == u),
            }
        }
        if units@.len() > 0 {
            lemma_count_units_positive(units@, 0);
        }
    }
    best
}

/// The line to play when several units are selected: a "select" line of the
/// most common selected kind.
pub fn multiple_select(units: &Vec<UnitType>) -> (r: Option<UnitAudioEv>)
    ensures
        r is None <==> units@.len() == 0,
        r matches Some(ev) ==> ev.cmd == AudioCmd::Select && forall|u: UnitType|
            #[trigger] count_units(units@, u) <= count_units(units@, ev.unit),
{
    match most_common_unit(units) {
        Some(u) => Some(UnitAudioEv::new(AudioCmd::Select, u)),
        None => None,
    }
}

/// The line to play when selected units are sent somewhere: a "move" line of
/// the most common selected kind.
pub fn relocate_cmd(units: &Vec<UnitType>) -> (r: Option<UnitAudioEv>)
    ensures
        r is None <==> units@.len() == 0,
        r matches Some(ev) ==> ev.cmd == AudioCmd::Relocate && forall|u: UnitType|
            #[trigger] count_units(units@, u) <= count_units(units@, ev.unit),
{
    match most_common_unit(units) {
        Some(u) => Some(UnitAudioEv::new(AudioCmd::Relocate, u)),
        None => None,
    }
}

/// The line to play when one unit is selected: a "select" line of its kind
/// (nothing when the selected entity is not a unit).
pub fn single_select(unit: Option<UnitType>) -> (r: Option<UnitAudioEv>)
    ensures
        r == match unit {
            Some(u) => Some(UnitAudioEv { cmd: AudioCmd::Select, unit: u }),
            None => None,
        },
{
    match unit {
        Some(u) => Some(UnitAudioEv::new(AudioCmd::Select, u)),
        None => None,
    }
}

/// The pieces of `s` between `/` characters (an empty string is one empty
/// piece, as `str::split` gives).
pub open spec fn split_slash(s: Seq<char>) -> Seq<Seq<char>>
    decreases s.len(),
{
    if s.len() == 0 {
        seq![Seq::<char>::empty()]
    } else {
        let prev = split_slash(s.drop_last());
        if s.last() == '/' {
            prev.push(Seq::<char>::empty())
        } else {
            prev.update(prev.len() - 1, prev.last().push(s.last()))
        }
    }
}

proof fn lemma_split_slash_nonempty(s: Seq<char>)
    ensures
        split_slash(s).len() >= 1,
    decreases s.len(),
{
    if s.len() > 0 {
        lemma_split_slash_nonempty(s.drop_last());
    }
}

/// The command a folder name stands for.
pub open spec fn spec_parse_cmd(s: Seq<char>) -> Option<AudioCmd> {
    if s == seq!['m', 'o', 'v', 'e'] {
        Some(AudioCmd::Relocate)
    } else if s == seq!['s', 'e', 'l', 'e', 'c', 't'] {
        Some(AudioCmd::Select)
    } else if s == seq!['r', 'e', 'a', 'd', 'y'] {
        Some(AudioCmd::Ready)
    } else {
        None
    }
}

/// The unit a folder name stands for.
pub open spec fn spec_parse_unit(s: Seq<char>) -> Option<UnitType> {
    if s == seq!['r', 'i', 'f', 'l', 'e', 'm', 'a', 'n'] {
        Some(UnitType::Rifleman)
    } else if s == seq!['t', 'a', 'n', 'k', '_', 'g', 'e', 'n', '_', '1'] {
        Some(UnitType::TankGen1)
    } else if s == seq!['t', 'a', 'n', 'k', '_', 'g', 'e', 'n', '_', '2'] {
        Some(UnitType::TankGen2)
    } else {
        None
    }
}

/// Why a voice line's file path was not understood.
#[derive(Clone, Copy, PartialEq, Eq, Structural, Debug)]
pub enum AudioPathError {
    /// The path has fewer than five pieces.
    UnexpectedPath,
    /// The unit or command folder is not one the game knows.
    UnknownUnitOrCmd,
}

/// The unit and command a voice line's path names: voice lines live at
/// `audio/unit_cmds/<unit>/<command>/<file>`, the unit being `rifleman`,
/// `tank_gen_1` or `tank_gen_2` and the command `move`, `select` or
/// `ready`.
pub open spec fn spec_parse_unit_cmd_path(path: Seq<char>) -> Result<(UnitType, AudioCmd), AudioPathError> {
    let parts = split_slash(path);
    if parts.len() < 5 {
        Err(AudioPathError::UnexpectedPath)
    } else {
        match (spec_parse_unit(parts[2]), spec_parse_cmd(parts[3])) {
            (Some(u), Some(c)) => Ok((u, c)),
            _ => Err(AudioPathError::UnknownUnitOrCmd),
        }
    }
}

/// Whether the two character lists are equal.
fn same_chars(a: &Vec<char>, b: &Vec<char>) -> (r: bool)
    ensures
        r == (a@ == b@),
{
    if a.len() != b.len() {
        return false;
    }
    let mut i: usize = 0;
    while i < a.len()
        invariant
            a@.len() == b@.len(),
            0 <= i <= a@.len(),
            forall|j: int| 0 <= j < i ==> a@[j] == b@[j],
        decreases a@.len() - i,
    {
        if a[i] != b[i] {
            return false;
        }
        i = i + 1;
    }
    assert(a@ =~= b@);
    true
}

fn parse_cmd(s: &Vec<char>) -> (r: Option<AudioCmd>)
    ensures
        r == spec_parse_cmd(s@),
{
    if same_chars(s, &vec!['m', 'o', 'v', 'e']) {
        Some(AudioCmd::Relocate)
    } else if same_chars(s, &vec!['s', 'e', 'l', 'e', 'c', 't']) {
        Some(AudioCmd::Select)
    } else if same_chars(s, &vec!['r', 'e', 'a', 'd', 'y']) {
        Some(AudioCmd::Ready)
    } else {
        None
    }
}

fn parse_unit(s: &Vec<char>) -> (r: Option<UnitType>)
    ensures
        r == spec_parse_unit(s@),
{
    if same_chars(s, &vec!['r', 'i', 'f', 'l', 'e', 'm', 'a', 'n']) {
        Some(UnitType::Rifleman)
    } else if same_chars(s, &vec!['t', 'a', 'n', 'k', '_', 'g', 'e', 'n', '_', '1']) {
        Some(UnitType::TankGen1)
    } else if same_chars(s, &vec!['t', 'a', 'n', 'k', '_', 'g', 'e', 'n', '_', '2']) {
        Some(UnitType::TankGen2)
    } else {
        None
    }
}

/// Reads the unit and command from a voice line's path, as
/// `spec_parse_unit_cmd_path`.
pub fn parse_unit_cmd_path(asset_path: &str) -> (r: Result<(UnitType, AudioCmd), AudioPathError>)
    ensures
        r == spec_parse_unit_cmd_path(asset_path@),
{
    let mut parts: Vec<Vec<char>> = Vec::new();
    parts.push(Vec::new());
    let chars = asset_path.chars();
    for c in it: chars
        invariant
            it.seq() == asset_path@,
            parts@.len() == split_slash(asset_path@.take(it.index() as int)).len(),
            forall|k: int|
                0 <= k < parts@.len() ==> #[trigger] parts@[k]@ == split_slash(
                    asset_path@.take(it.index() as int),
                )[k],
    {
        let ghost i = it.index() as int;
        proof {
            assert(asset_path@.take(i + 1).drop_last() =~= asset_path@.take(i));
            assert(asset_path@.take(i + 1).last() == c);
            lemma_split_slash_nonempty(asset_path@.take(i));
        }
        if c == '/' {
            parts.push(Vec::new());
        } else {
            let mut last = parts.pop().unwrap();
            last.push(c);
            parts.push(last);
        }
    }
    proof {
        assert(asset_path@.take(asset_path@.len() as int) =~= asset_path@);
    }
    if parts.len() < 5 {
        return Err(AudioPathError::UnexpectedPath);
    }
    match (parse_unit(&parts[2]), parse_cmd(&parts[3])) {
        (Some(u), Some(cmd)) => Ok((u, cmd)),
        _ => Err(AudioPathError::UnknownUnitOrCmd),
    }
}

} // verus!
