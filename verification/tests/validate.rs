use w90::input::{
    validate, AngularMomentum, Cell, Error, Input, LatticeUnits, MLWFIterationMode,
    PositionCoordinateType, Positions, Projection, ProjectionSite,
};
use w90::number::{Binary64, Real};

fn given(x: f64) -> Real {
    Real::Given(Binary64 { bits: x.to_bits() })
}

fn site(species: &str) -> Projection {
    Projection::Site {
        site: ProjectionSite::Species(String::from(species)),
        ang_mtm: vec![AngularMomentum::S],
        zaxis: None,
        xaxis: None,
        radial: None,
        zona: None,
    }
}

fn input_with(projections: Vec<Projection>) -> Input {
    Input {
        num_bands: 8,
        num_wann: 4,
        write_hr: None,
        mlwf_iteration_mode: MLWFIterationMode::ProjectionOnly,
        disentanglement: None,
        spinors: false,
        projection_units: None,
        projections,
        unit_cell_cart: Cell {
            units: LatticeUnits::Bohr,
            cell: [
                [given(1.0), given(0.0), given(0.0)],
                [given(0.0), given(1.0), given(0.0)],
                [given(0.0), given(0.0), given(1.0)],
            ],
        },
        positions: Positions {
            coordinate_type: PositionCoordinateType::Crystal,
            coordinates: Vec::new(),
        },
        kpoints: [1, 1, 1],
    }
}

#[test]
fn no_projections_at_all() {
    assert!(validate(&input_with(Vec::new())).is_ok());
}

#[test]
fn no_random_projection() {
    assert!(validate(&input_with(vec![site("Se"), site("W")])).is_ok());
}

#[test]
fn one_random_projection() {
    assert!(validate(&input_with(vec![Projection::Random])).is_ok());
    assert!(validate(&input_with(vec![site("Se"), Projection::Random, site("W")])).is_ok());
}

#[test]
fn two_random_projections() {
    let r = validate(&input_with(vec![Projection::Random, Projection::Random]));
    assert_eq!(r.unwrap_err().errs, vec![Error::RandomCount]);
}

#[test]
fn random_projections_apart() {
    let r = validate(&input_with(vec![Projection::Random, site("Se"), Projection::Random]));
    assert_eq!(r.unwrap_err().errs, vec![Error::RandomCount]);
}

#[test]
fn many_random_projections_are_one_error() {
    let r = validate(&input_with(vec![
        Projection::Random,
        Projection::Random,
        site("W"),
        Projection::Random,
        Projection::Random,
    ]));
    assert_eq!(r.unwrap_err().errs, vec![Error::RandomCount]);
}

#[test]
fn more_projections_than_wannier_functions_pass() {
    let mut input = input_with(vec![site("Se"), site("W"), site("Se")]);
    input.num_wann = 1;
    assert!(validate(&input).is_ok());
}

#[test]
fn the_rule_in_words() {
    assert_eq!(
        Error::RandomCount.message(),
        "`Random` may appear at most once in the list of projections."
    );
}
