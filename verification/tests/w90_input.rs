use w90::input;
use w90::input::{
    AngularMomentum, AtomCoordinate, Cell, Disentanglement, LatticeUnits, MLWFIterationMode,
    PositionCoordinateType, Positions, Projection, ProjectionSite,
};
use w90::number::{Binary64, Real};
use w90::serialize;
use w90::text::{Piece, Text};

fn given(x: f64) -> Real {
    Real::Given(Binary64 { bits: x.to_bits() })
}

fn number(r: &Real) -> f64 {
    match r {
        Real::Given(x) => f64::from_bits(x.bits),
        Real::Product(a, b) => f64::from_bits(a.bits) * f64::from_bits(b.bits),
    }
}

fn print(text: &Text) -> String {
    let mut out = String::new();
    for piece in &text.pieces {
        match piece {
            Piece::Text(s) => out.push_str(s),
            Piece::Number(r) => out.push_str(&format!("{}", number(r))),
        }
    }
    out
}

fn uniform_grid(nk: [u64; 3]) -> Vec<[Real; 3]> {
    let mut ks = Vec::new();
    for i0 in 0..nk[0] {
        for i1 in 0..nk[1] {
            for i2 in 0..nk[2] {
                ks.push([
                    given(i0 as f64 / nk[0] as f64),
                    given(i1 as f64 / nk[1] as f64),
                    given(i2 as f64 / nk[2] as f64),
                ]);
            }
        }
    }
    ks
}

fn species_projection(species: &str, l: AngularMomentum) -> Projection {
    Projection::Site {
        site: ProjectionSite::Species(String::from(species)),
        ang_mtm: vec![l],
        zaxis: None,
        xaxis: None,
        radial: None,
        zona: None,
    }
}

fn worked_example() -> input::Input {
    let disentanglement = Some(Disentanglement {
        dis_win_min: given(-6.5582),
        dis_win_max: given(8.4418),
        dis_froz_min: given(-4.5582),
        dis_froz_max: given(6.4418),
        dis_num_iter: 1000,
        dis_mix_ratio: given(0.5),
    });

    let projections = vec![
        species_projection("Se", AngularMomentum::P),
        species_projection("W", AngularMomentum::D),
    ];

    let unit_cell_cart = Cell {
        units: LatticeUnits::Bohr,
        cell: [
            [given(3.13603975949), given(-5.43178019799), given(0.0)],
            [given(3.13603975949), given(5.43178019799), given(0.0)],
            [given(0.0), given(0.0), given(68.6629186029)],
        ],
    };

    let positions = Positions {
        coordinate_type: PositionCoordinateType::Crystal,
        coordinates: vec![
            AtomCoordinate {
                species: String::from("Se"),
                r: [given(0.0), given(0.0), given(0.275217856494)],
            },
            AtomCoordinate {
                species: String::from("W"),
                r: [given(0.333333333333), given(0.666666666667), given(0.321438654707)],
            },
            AtomCoordinate {
                species: String::from("Se"),
                r: [given(0.0), given(0.0), given(0.36765945292)],
            },
        ],
    };

    input::Input {
        num_bands: 44,
        num_wann: 22,
        write_hr: Some(true),
        mlwf_iteration_mode: MLWFIterationMode::ProjectionOnly,
        disentanglement,
        spinors: true,
        projection_units: None,
        projections,
        unit_cell_cart,
        positions,
        kpoints: [9, 9, 1],
    }
}

#[test]
fn generate_input() {
    let test_input = worked_example();

    let input_text =
        serialize::make_input_file(&test_input, &uniform_grid(test_input.kpoints)).unwrap();

    println!("{}", print(&input_text));
}

#[test]
fn worked_example_header_and_blocks() {
    let test_input = worked_example();
    let text = print(
        &serialize::make_input_file(&test_input, &uniform_grid(test_input.kpoints)).unwrap(),
    );
    let lines: Vec<&str> = text.split('\n').collect();

    assert_eq!(lines[0], "num_bands = 44");
    assert_eq!(lines[1], "num_wann = 22");
    assert_eq!(lines[2], "num_iter = 0");
    assert_eq!(lines[3], "write_hr=.true.");

    let grid = lines.iter().position(|l| *l == "mp_grid = 9 9 1").unwrap();
    assert_eq!(lines[grid + 1], "begin kpoints");
    assert_eq!(lines.len(), grid + 2 + 81 + 1);
    assert_eq!(lines[lines.len() - 1], "end kpoints");

    let begin = lines.iter().position(|l| *l == "begin atoms_frac").unwrap();
    assert_eq!(lines[begin + 1], " Se 0 0 0.275217856494");
    assert_eq!(lines[begin + 2], " W 0.333333333333 0.666666666667 0.321438654707");
    assert_eq!(lines[begin + 3], " Se 0 0 0.36765945292");
    assert_eq!(lines[begin + 4], "end atoms_frac");
    assert!(!lines.contains(&"begin atoms_cart"));
}

#[test]
fn worked_example_whole_text_before_the_kpoints() {
    let test_input = worked_example();
    let text = print(
        &serialize::make_input_file(&test_input, &uniform_grid(test_input.kpoints)).unwrap(),
    );
    let expected = "num_bands = 44\n\
num_wann = 22\n\
num_iter = 0\n\
write_hr=.true.\n\
dis_win_min = -6.5582\n\
dis_win_max = 8.4418\n\
dis_froz_min = -4.5582\n\
dis_froz_max = 6.4418\n\
dis_num_iter = 1000\n\
dis_mix_ratio = 0.5\n\
spinors=.true.\n\
begin projections\n\
Se:l=1\n\
W:l=2\n\
end projections\n\
begin unit_cell_cart\n\
bohr\n\
\x20 3.13603975949  -5.43178019799  0\n\
\x20 3.13603975949  5.43178019799  0\n\
\x20 0  0  68.6629186029\n\
end unit_cell_cart\n\
begin atoms_frac\n\
\x20Se 0 0 0.275217856494\n\
\x20W 0.333333333333 0.666666666667 0.321438654707\n\
\x20Se 0 0 0.36765945292\n\
end atoms_frac\n\
mp_grid = 9 9 1\n\
begin kpoints\n\
0 0 0\n";
    assert!(text.starts_with(expected));
    assert!(text.ends_with("\n0.8888888888888888 0.8888888888888888 0\nend kpoints"));
}

#[test]
fn small_file_is_written_exactly() {
    let test_input = input::Input {
        num_bands: 4,
        num_wann: 2,
        write_hr: None,
        mlwf_iteration_mode: MLWFIterationMode::MLWF { num_iter: 100 },
        disentanglement: None,
        spinors: false,
        projection_units: Some(LatticeUnits::Angstrom),
        projections: vec![Projection::Random],
        unit_cell_cart: Cell {
            units: LatticeUnits::Angstrom,
            cell: [
                [given(1.5), given(0.0), given(0.0)],
                [given(0.0), given(2.0), given(0.0)],
                [given(0.0), given(0.0), given(2.5)],
            ],
        },
        positions: Positions {
            coordinate_type: PositionCoordinateType::AngstromCartesian,
            coordinates: vec![
                AtomCoordinate { species: String::from("Si"), r: [given(0.0), given(0.0), given(0.0)] },
                AtomCoordinate {
                    species: String::from("C"),
                    r: [given(0.25), given(0.25), given(0.25)],
                },
            ],
        },
        kpoints: [2, 1, 1],
    };
    let text = print(&serialize::make_input_file(&test_input, &uniform_grid([2, 1, 1])).unwrap());
    let expected = "num_bands = 4\n\
num_wann = 2\n\
num_iter = 100\n\
spinors=.false.\n\
begin projections\n\
ang\n\
random\n\
end projections\n\
begin unit_cell_cart\n\
ang\n\
\x20 1.5  0  0\n\
\x20 0  2  0\n\
\x20 0  0  2.5\n\
end unit_cell_cart\n\
begin atoms_cart\n\
ang\n\
\x20Si 0 0 0\n\
\x20C 0.25 0.25 0.25\n\
end atoms_cart\n\
mp_grid = 2 1 1\n\
begin kpoints\n\
0 0 0\n\
0.5 0 0\n\
end kpoints";
    assert_eq!(text, expected);
}

#[test]
fn writing_twice_gives_the_same_text() {
    let test_input = worked_example();
    let grid = uniform_grid(test_input.kpoints);
    let first = print(&serialize::make_input_file(&test_input, &grid).unwrap());
    let second = print(&serialize::make_input_file(&test_input, &grid).unwrap());
    assert_eq!(first.as_bytes(), second.as_bytes());
}

#[test]
fn projections_keep_their_order() {
    let mut test_input = worked_example();
    test_input.projections = vec![
        species_projection("W", AngularMomentum::D),
        Projection::Random,
        species_projection("Se", AngularMomentum::P),
    ];
    let text = print(&serialize::make_projections(&test_input));
    assert_eq!(text, "spinors=.true.\nbegin projections\nW:l=2\nrandom\nSe:l=1\nend projections");
}

#[test]
fn no_text_for_a_configuration_that_breaks_a_rule() {
    let mut test_input = worked_example();
    test_input.projections = vec![Projection::Random, Projection::Random];
    let r = serialize::make_input_file(&test_input, &uniform_grid(test_input.kpoints));
    match r {
        Err(serialize::Error::Input(list)) => {
            assert_eq!(list.errs, vec![input::Error::RandomCount]);
        }
        Ok(_) => panic!("a text was written"),
    }
}

#[test]
fn the_listed_kpoints_are_written_as_listed() {
    let test_input = worked_example();
    let listed = vec![
        [given(0.5), given(0.25), given(0.0)],
        [given(0.0), given(0.0), given(0.0)],
    ];
    let text = print(&serialize::make_kpoints(&test_input, &listed));
    assert_eq!(text, "mp_grid = 9 9 1\nbegin kpoints\n0.5 0.25 0\n0 0 0\nend kpoints");
}

#[test]
fn no_kpoints_listed() {
    let test_input = worked_example();
    let text = print(&serialize::make_kpoints(&test_input, &Vec::new()));
    assert_eq!(text, "mp_grid = 9 9 1\nbegin kpoints\nend kpoints");
}

#[test]
fn a_copied_configuration_is_the_same_configuration() {
    let mut test_input = worked_example();
    test_input.projections.push(Projection::Random);
    test_input.projections.push(Projection::Site {
        site: ProjectionSite::CenterCrystal([given(0.5), given(0.5), given(0.0)]),
        ang_mtm: vec![AngularMomentum::S, AngularMomentum::F],
        zaxis: Some([given(0.0), given(0.0), given(1.0)]),
        xaxis: None,
        radial: Some(2),
        zona: Some(given(1.5)),
    });
    let copy = test_input.clone();
    assert_eq!(copy, test_input);
    assert_eq!(copy.positions.clone(), test_input.positions);
    assert_eq!(copy.projections[1].clone(), test_input.projections[1]);

    let broken = input::ErrorList { errs: vec![input::Error::RandomCount] };
    assert_eq!(broken.clone(), broken);
}
