use rts_game::audio::{
    most_common_unit, multiple_select, parse_unit_cmd_path, relocate_cmd, single_select,
    unit_audio, AudioCmd, AudioPathError, MyAudio, UnitAudioEv,
};
use rts_game::map::{spawn_grid, spawn_light};
use rts_game::path_finding::{find_path, heuristic, successors, Grid};
use rts_game::resources::DbgOptions;
use rts_game::tank::{border_size, ceil_sqrt, grid_cells, spawn_tank, spawn_tanks};
use rts_game::units::UnitType;

#[test]
fn successors_of_a_corner_and_a_middle_cell() {
    let mut g = Grid::new(3);
    let s = successors(&g, 0, 0);
    assert_eq!(s, vec![((1, 0), 1), ((0, 1), 1), ((1, 1), 1)]);
    let s = successors(&g, 1, 1);
    assert_eq!(s.len(), 8);
    assert_eq!(s[0], ((0, 1), 1));
    assert_eq!(s[7], ((2, 2), 1));
    g.set_occupied(1, 1, true);
    let s = successors(&g, 0, 0);
    assert_eq!(s, vec![((1, 0), 1), ((0, 1), 1)]);
    // a coordinate past i32::MAX is read as the negative i32 it casts to
    let s = successors(&g, u32::MAX, 0);
    assert_eq!(s, vec![((0, 0), 1), ((0, 1), 1)]);
}

#[test]
fn heuristic_is_manhattan_distance() {
    assert_eq!(heuristic(0, 0, 3, 4), 7);
    assert_eq!(heuristic(5, 2, 1, 9), 11);
    assert_eq!(heuristic(4, 4, 4, 4), 0);
}

#[test]
fn find_path_goes_around_walls() {
    let mut g = Grid::new(5);
    for r in 0..4 {
        g.set_occupied(r, 2, true);
    }
    let p = find_path(&g, (0, 0), (0, 4)).expect("a path exists");
    assert_eq!(p[0], (0, 0));
    assert_eq!(*p.last().unwrap(), (0, 4));
    assert!(p.contains(&(4, 2)));
    for cell in &p[1..] {
        assert!(!g.cells[cell.0 as usize][cell.1 as usize].occupied);
    }
    for w in p.windows(2) {
        let (a, b) = (w[0], w[1]);
        assert!(successors(&g, a.0, a.1).contains(&(b, 1)));
    }
    // close the gap: no path
    g.set_occupied(4, 2, true);
    assert_eq!(find_path(&g, (0, 0), (0, 4)), None);
    // start is the goal
    assert_eq!(find_path(&g, (1, 1), (1, 1)), Some(vec![(1, 1)]));
}

#[test]
fn map_grid_and_light() {
    let g = spawn_grid();
    assert_eq!(g.cells.len(), 120);
    assert!(g.cells.iter().all(|r| r.len() == 120 && r.iter().all(|c| !c.occupied)));
    let light = spawn_light();
    assert_eq!(light.illuminance, 5000);
    assert!(light.shadows_enabled);
    assert_eq!(light.rotation_x_milliradians, -700);
    assert_eq!(light.rotation_y_milliradians, 200);
    let p = find_path(&g, (0, 0), (119, 119)).expect("open map");
    assert_eq!(p.len(), 120);
}

#[test]
fn tank_formations() {
    assert_eq!(ceil_sqrt(50), 8);
    assert_eq!(ceil_sqrt(49), 7);
    assert_eq!(ceil_sqrt(0), 0);
    assert_eq!(ceil_sqrt(1), 1);
    assert_eq!(ceil_sqrt(2), 2);
    assert_eq!(ceil_sqrt(1_000_001), 1001);
    assert_eq!(ceil_sqrt(4_000_000_000), 63246);
    let (side, cells) = grid_cells(10);
    assert_eq!(side, 4);
    assert_eq!(cells.len(), 10);
    assert_eq!(cells[9], (2, 1));
    let tanks = spawn_tanks();
    assert_eq!(tanks.len(), 100);
    assert_eq!((tanks[0].x, tanks[0].y, tanks[0].z, tanks[0].yaw_degrees), (-200, 2, 0, -90));
    assert_eq!((tanks[9].x, tanks[9].z), (-170, 30));
    assert_eq!((tanks[49].x, tanks[49].z), (-20, 30));
    assert_eq!((tanks[50].x, tanks[50].z, tanks[50].yaw_degrees), (200, 0, 90));
    assert_eq!((tanks[99].x, tanks[99].z), (20, 30));
    assert!(tanks.iter().all(|t| t.unit == UnitType::TankGen1));
    let mut spots: Vec<(i32, i32)> = tanks.iter().map(|t| (t.x, t.z)).collect();
    spots.sort();
    spots.dedup();
    assert_eq!(spots.len(), 100);
    let demo = spawn_tank();
    assert_eq!(demo.len(), 3);
    assert_eq!(demo[0].unit, UnitType::TankGen1);
    assert_eq!(demo[1].x, -25);
    assert_eq!(border_size().width, 50);
}

#[test]
fn voice_line_paths() {
    assert_eq!(
        parse_unit_cmd_path("audio/unit_cmds/tank_gen_1/select/1.ogg"),
        Ok((UnitType::TankGen1, AudioCmd::Select))
    );
    assert_eq!(
        parse_unit_cmd_path("audio/unit_cmds/rifleman/move/a.ogg"),
        Ok((UnitType::Rifleman, AudioCmd::Relocate))
    );
    assert_eq!(
        parse_unit_cmd_path("audio/unit_cmds/tank_gen_2/ready"),
        Err(AudioPathError::UnexpectedPath)
    );
    assert_eq!(
        parse_unit_cmd_path("audio/unit_cmds/tank/ready/x.ogg"),
        Err(AudioPathError::UnknownUnitOrCmd)
    );
    assert_eq!(parse_unit_cmd_path(""), Err(AudioPathError::UnexpectedPath));
}

#[test]
fn voice_line_choice() {
    let mut audio = MyAudio::new("place");
    let ev = UnitAudioEv::new(AudioCmd::Select, UnitType::TankGen1);
    assert_eq!(unit_audio(&ev, &audio), None);
    audio.add_line(UnitType::TankGen1, AudioCmd::Select, "a");
    audio.add_line(UnitType::TankGen1, AudioCmd::Select, "b");
    audio.add_line(UnitType::TankGen1, AudioCmd::Ready, "c");
    for _ in 0..20 {
        let h = unit_audio(&ev, &audio).expect("two lines recorded");
        assert!(*h == "a" || *h == "b");
    }
    let ready = UnitAudioEv::new(AudioCmd::Ready, UnitType::TankGen1);
    assert_eq!(unit_audio(&ready, &audio), Some(&"c"));
    let other = UnitAudioEv::new(AudioCmd::Select, UnitType::TankGen2);
    assert_eq!(unit_audio(&other, &audio), None);
    assert_eq!(audio.get_lines(UnitType::TankGen1, AudioCmd::Select).map(|l| l.len()), Some(2));
}

#[test]
fn most_common_selected_unit_speaks() {
    assert_eq!(most_common_unit(&vec![]), None);
    let sel = vec![UnitType::TankGen1, UnitType::Rifleman, UnitType::TankGen1];
    assert_eq!(most_common_unit(&sel), Some(UnitType::TankGen1));
    assert_eq!(
        multiple_select(&sel),
        Some(UnitAudioEv { cmd: AudioCmd::Select, unit: UnitType::TankGen1 })
    );
    assert_eq!(
        relocate_cmd(&vec![UnitType::TankGen2]),
        Some(UnitAudioEv { cmd: AudioCmd::Relocate, unit: UnitType::TankGen2 })
    );
    assert_eq!(relocate_cmd(&vec![]), None);
    assert_eq!(
        single_select(Some(UnitType::Rifleman)),
        Some(UnitAudioEv { cmd: AudioCmd::Select, unit: UnitType::Rifleman })
    );
    assert_eq!(single_select(None), None);
}

#[test]
fn debug_flag_from_args() {
    let args = vec!["game".to_string(), "-debug".to_string()];
    assert!(DbgOptions::from_args(&args).print_statements);
    let args = vec!["game".to_string(), "-debugx".to_string()];
    assert!(!DbgOptions::from_args(&args).print_statements);
}
