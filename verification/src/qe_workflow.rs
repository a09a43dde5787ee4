//! From one stage of a plane-wave calculation to the next, and from the last
//! stage to the Wannierization.
use vstd::prelude::*;
use crate::input::AtomCoordinate as W90AtomCoordinate;
use crate::input::AtomCoordinateView as W90AtomCoordinateView;
use crate::input::Cell as W90Cell;
use crate::input::Input as W90Input;
use crate::input::InputView as W90InputView;
use crate::input::LatticeUnits as W90LatticeUnits;
use crate::input::PositionCoordinateType as W90Coord;
use crate::input::Positions as W90Positions;
use crate::input::PositionsView as W90PositionsView;
use crate::input::{Disentanglement, MLWFIterationMode, Projection, ProjectionView};
use crate::number::{give3, given3, scale3, scaled3, Binary64, Real};
use crate::pw::AtomCoordinate as PwAtomCoordinate;
use crate::pw::AtomCoordinateView as PwAtomCoordinateView;
use crate::pw::Input as PwInput;
use crate::pw::InputView as PwInputView;
use crate::pw::LatticeUnits as PwLatticeUnits;
use crate::pw::PositionCoordinateType as PwCoord;
use crate::pw::{
    Calculation, Ibrav, KPoints, KPointsView, Occupations, PathVertex, Smearing, SpinType, System,
};

verus! {

/// Why a stage cannot be derived from the one that was given.
#[derive(Debug, Clone, Copy, PartialEq, Eq, Structural)]
pub enum Error {
    WrongCalculation,
    NoSym,
    NumBands,
    WrongKPointsNscf,
    WrongKPointsBands,
    CrystalSG,
}

impl Error {
    /// The reason, in words.
    pub open spec fn text(self) -> Seq<char> {
        match self {
            Error::WrongCalculation => "Unexpected type of calculation input."@,
            Error::NoSym => "Must have `nosym = true` in nscf calculation."@,
            Error::NumBands => "Must specify `nbnd` in nscf calculation."@,
            Error::WrongKPointsNscf => "Must have `KPoints::CrystalUniform` in nscf calculation."@,
            Error::WrongKPointsBands => "Must input `KPoints::CrystalBands`."@,
            Error::CrystalSG => "`CrystalSG` positions unsupported."@,
        }
    }

    /// The reason, in words.
    pub fn message(&self) -> (s: String)
        ensures
            s@ == self.text(),
    {
        String::from_str(
            match self {
                Error::WrongCalculation => "Unexpected type of calculation input.",
                Error::NoSym => "Must have `nosym = true` in nscf calculation.",
                Error::NumBands => "Must specify `nbnd` in nscf calculation.",
                Error::WrongKPointsNscf => "Must have `KPoints::CrystalUniform` in nscf calculation.",
                Error::WrongKPointsBands => "Must input `KPoints::CrystalBands`.",
                Error::CrystalSG => "`CrystalSG` positions unsupported.",
            },
        )
    }
}

/// The non-self-consistent stage that follows the self-consistent stage `scf`:
/// `scf` with its calculation, its occupations and its k-points replaced.
/// Nothing but a self-consistent stage has such a successor.
pub open spec fn nscf_from(
    scf: PwInputView,
    diago_thr_init: Binary64,
    num_bands: u64,
    smearing_type: Smearing,
    smearing_size: Binary64,
    nscf_nk: [u64; 3],
) -> Result<PwInputView, Error> {
    if scf.calculation is Scf {
        Ok(
            PwInputView {
                calculation: Calculation::Nscf {
                    diago_thr_init,
                    nbnd: Some(num_bands),
                    nosym: Some(true),
                },
                system: System {
                    occupations: Occupations::Smearing(smearing_type, smearing_size),
                    ..scf.system
                },
                k_points: KPointsView::CrystalUniform(nscf_nk),
                ..scf
            },
        )
    } else {
        Err(Error::WrongCalculation)
    }
}

/// Derives the non-self-consistent stage from the self-consistent stage `scf`.
/// The new stage computes `num_bands` bands on the uniform grid `nscf_nk`,
/// without reducing the grid by symmetry.
pub fn nscf_input(
    scf: &PwInput,
    diago_thr_init: Binary64,
    num_bands: u64,
    smearing_type: &Smearing,
    smearing_size: Binary64,
    nscf_nk: [u64; 3],
) -> (r: Result<PwInput, Error>)
    ensures
        match r {
            Ok(nscf) => nscf_from(
                scf@,
                diago_thr_init,
                num_bands,
                *smearing_type,
                smearing_size,
                nscf_nk,
            ) == Ok::<PwInputView, Error>(nscf@),
            Err(e) => nscf_from(
                scf@,
                diago_thr_init,
                num_bands,
                *smearing_type,
                smearing_size,
                nscf_nk,
            ) == Err::<PwInputView, Error>(e),
        },
        r is Ok <==> scf.calculation is Scf,
        r matches Ok(nscf) ==> nscf@.k_points == KPointsView::CrystalUniform(nscf_nk),
        r matches Err(e) ==> e == Error::WrongCalculation,
{
    if let Calculation::Scf = scf.calculation {
        let mut nscf = scf.clone();
        nscf.calculation = Calculation::Nscf {
            diago_thr_init,
            nbnd: Some(num_bands),
            nosym: Some(true),
        };
        nscf.system.occupations = Occupations::Smearing(*smearing_type, smearing_size);
        nscf.k_points = KPoints::CrystalUniform(nscf_nk);

        Ok(nscf)
    } else {
        Err(Error::WrongCalculation)
    }
}

/// The band-structure stage that follows the non-self-consistent stage `nscf`
/// along the path `bands_kpoints`: `nscf` with its calculation and its
/// k-points replaced. The non-self-consistent stage must have visited the
/// whole grid, that is, have `nosym` set.
pub open spec fn bands_from(nscf: PwInputView, bands_kpoints: KPointsView) -> Result<
    PwInputView,
    Error,
> {
    match nscf.calculation {
        Calculation::Nscf { diago_thr_init, nbnd, nosym } => {
            if nosym != Some(true) {
                Err(Error::NoSym)
            } else if !(bands_kpoints is CrystalBands) {
                Err(Error::WrongKPointsBands)
            } else {
                Ok(
                    PwInputView {
                        calculation: Calculation::Bands { diago_thr_init, nbnd, nosym },
                        k_points: bands_kpoints,
                        ..nscf
                    },
                )
            }
        },
        _ => Err(Error::WrongCalculation),
    }
}

/// Derives the band-structure stage from the non-self-consistent stage `nscf`.
pub fn bands_input(nscf: &PwInput, bands_kpoints: &KPoints) -> (r: Result<PwInput, Error>)
    ensures
        match r {
            Ok(bands) => bands_from(nscf@, bands_kpoints@) == Ok::<PwInputView, Error>(bands@),
            Err(e) => bands_from(nscf@, bands_kpoints@) == Err::<PwInputView, Error>(e),
        },
        nscf.calculation is Nscf && nscf.calculation->Nscf_nosym != Some(true) ==> r
            == Err::<PwInput, Error>(Error::NoSym),
        nscf.calculation is Nscf && nscf.calculation->Nscf_nosym == Some(true)
            && bands_kpoints is CrystalBands ==> (r matches Ok(bands) && bands@.calculation
            == (Calculation::Bands {
                diago_thr_init: nscf.calculation->Nscf_diago_thr_init,
                nbnd: nscf.calculation->Nscf_nbnd,
                nosym: Some(true),
            }) && bands@.k_points == bands_kpoints@),
{
    let (diago_thr_init, nbnd, nosym) = match nscf.calculation {
        Calculation::Nscf { diago_thr_init, nbnd, nosym } => (diago_thr_init, nbnd, nosym),
        _ => {
            return Err(Error::WrongCalculation);
        },
    };
    match nosym {
        Some(nosym) => {
            if !nosym {
                return Err(Error::NoSym);
            }
        },
        None => {
            return Err(Error::NoSym);
        },
    };

    let mut bands = nscf.clone();
    bands.calculation = Calculation::Bands { diago_thr_init, nbnd, nosym };

    bands.k_points = match bands_kpoints {
        KPoints::CrystalBands { .. } => bands_kpoints.clone(),
        _ => {
            return Err(Error::WrongKPointsBands);
        },
    };

    Ok(bands)
}

/// Whether the spin treatment calls for spinor Wannier functions: only the
/// non-collinear one does.
pub open spec fn spinors_from(spin_type: Option<SpinType>) -> bool {
    spin_type == Some(SpinType::Noncollinear)
}

/// The lattice vectors `cell`, each component multiplied by `alat`.
pub open spec fn scaled_cell(cell: [[Binary64; 3]; 3], alat: Binary64) -> [[Real; 3]; 3] {
    [scaled3(cell[0], alat), scaled3(cell[1], alat), scaled3(cell[2], alat)]
}

/// The lattice vectors `cell`, as they were given.
pub open spec fn given_cell(cell: [[Binary64; 3]; 3]) -> [[Real; 3]; 3] {
    [given3(cell[0]), given3(cell[1]), given3(cell[2])]
}

/// The cell of the Wannierization. Lattice vectors in units of the lattice
/// parameter are multiplied by it and are then in Bohr; vectors in Bohr or in
/// Angstrom stay as they are, in their units.
pub open spec fn cell_from(system: System) -> W90Cell {
    match system.ibrav {
        Ibrav::Free(cell) => match cell.units {
            PwLatticeUnits::Alat => W90Cell {
                units: W90LatticeUnits::Bohr,
                cell: scaled_cell(cell.cell, system.alat),
            },
            PwLatticeUnits::Bohr => W90Cell {
                units: W90LatticeUnits::Bohr,
                cell: given_cell(cell.cell),
            },
            PwLatticeUnits::Angstrom => W90Cell {
                units: W90LatticeUnits::Angstrom,
                cell: given_cell(cell.cell),
            },
        },
    }
}

/// The atoms `coordinates`, each coordinate multiplied by `alat`.
pub open spec fn scaled_coords(coordinates: Seq<PwAtomCoordinateView>, alat: Binary64) -> Seq<
    W90AtomCoordinateView,
> {
    coordinates.map_values(
        |c: PwAtomCoordinateView| W90AtomCoordinateView { species: c.species, r: scaled3(c.r, alat) },
    )
}

/// The atoms `coordinates`, as they were given.
pub open spec fn given_coords(coordinates: Seq<PwAtomCoordinateView>) -> Seq<
    W90AtomCoordinateView,
> {
    coordinates.map_values(
        |c: PwAtomCoordinateView| W90AtomCoordinateView { species: c.species, r: given3(c.r) },
    )
}

/// The atoms of the Wannierization. Cartesian coordinates in units of the
/// lattice parameter are multiplied by it and are then in Bohr; Cartesian
/// coordinates in Bohr or in Angstrom and crystal coordinates stay as they
/// are, in their frame. Crystal coordinates given by way of the space group
/// have no counterpart.
pub open spec fn positions_from(nscf: PwInputView) -> Result<W90PositionsView, Error> {
    let coordinates = nscf.atomic_positions.coordinates;
    match nscf.atomic_positions.coordinate_type {
        PwCoord::AlatCartesian => Ok(
            W90PositionsView {
                coordinate_type: W90Coord::BohrCartesian,
                coordinates: scaled_coords(coordinates, nscf.system.alat),
            },
        ),
        PwCoord::BohrCartesian => Ok(
            W90PositionsView {
                coordinate_type: W90Coord::BohrCartesian,
                coordinates: given_coords(coordinates),
            },
        ),
        PwCoord::AngstromCartesian => Ok(
            W90PositionsView {
                coordinate_type: W90Coord::AngstromCartesian,
                coordinates: given_coords(coordinates),
            },
        ),
        PwCoord::Crystal => Ok(
            W90PositionsView {
                coordinate_type: W90Coord::Crystal,
                coordinates: given_coords(coordinates),
            },
        ),
        PwCoord::CrystalSG => Err(Error::CrystalSG),
    }
}

/// The Wannierization that follows the non-self-consistent stage `nscf`. The
/// stage gives the number of bands, the spin treatment, the cell, the atoms
/// and the k-point grid; the rest is the caller's. The Hamiltonian is always
/// written out in real space.
///
/// The stage is looked at in this order, and the first fault found is the
/// one reported: the calculation, the atoms, the k-points.
pub open spec fn w90_from(
    nscf: PwInputView,
    num_wann: u64,
    mlwf_iteration_mode: MLWFIterationMode,
    disentanglement: Disentanglement,
    projection_units: Option<W90LatticeUnits>,
    projections: Seq<ProjectionView>,
) -> Result<W90InputView, Error> {
    match nscf.calculation {
        Calculation::Nscf { nbnd: Some(num_bands), .. } => match positions_from(nscf) {
            Ok(positions) => match nscf.k_points {
                KPointsView::CrystalUniform(kpoints) => Ok(
                    W90InputView {
                        num_bands,
                        num_wann,
                        write_hr: Some(true),
                        mlwf_iteration_mode,
                        disentanglement: Some(disentanglement),
                        spinors: spinors_from(nscf.system.spin_type),
                        projection_units,
                        projections,
                        unit_cell_cart: cell_from(nscf.system),
                        positions,
                        kpoints,
                    },
                ),
                _ => Err(Error::WrongKPointsNscf),
            },
            Err(e) => Err(e),
        },
        Calculation::Nscf { nbnd: None, .. } => Err(Error::NumBands),
        _ => Err(Error::WrongCalculation),
    }
}

/// Derives the Wannierization from the non-self-consistent stage `nscf`.
pub fn w90_input(
    nscf: &PwInput,
    num_wann: u64,
    mlwf_iteration_mode: &MLWFIterationMode,
    disentanglement: &Disentanglement,
    projection_units: Option<W90LatticeUnits>,
    projections: Vec<Projection>,
) -> (r: Result<W90Input, Error>)
    ensures
        match r {
            Ok(w90) => w90_from(
                nscf@,
                num_wann,
                *mlwf_iteration_mode,
                *disentanglement,
                projection_units,
                projections@.map_values(|p: Projection| p@),
            ) == Ok::<W90InputView, Error>(w90@),
            Err(e) => w90_from(
                nscf@,
                num_wann,
                *mlwf_iteration_mode,
                *disentanglement,
                projection_units,
                projections@.map_values(|p: Projection| p@),
            ) == Err::<W90InputView, Error>(e),
        },
        r matches Ok(w90) ==> w90.write_hr == Some(true) && w90.unit_cell_cart == cell_from(
            nscf.system,
        ),
{
    let num_bands = match nscf.calculation {
        Calculation::Nscf { nbnd, .. } => {
            if let Some(nbnd) = nbnd {
                nbnd
            } else {
                return Err(Error::NumBands);
            }
        },
        _ => {
            return Err(Error::WrongCalculation);
        },
    };

    let spinors = match nscf.system.spin_type {
        Some(spin_type) => match spin_type {
            SpinType::NonPolarized | SpinType::CollinearPolarized => false,
            SpinType::Noncollinear => true,
        },
        None => false,
    };

    let (lattice_units, cell) = match nscf.system.ibrav {
        Ibrav::Free(cell) => match cell.units {
            PwLatticeUnits::Alat => {
                let alat = nscf.system.alat;
                let lat_vecs = scale_cell(cell.cell, alat);
                (W90LatticeUnits::Bohr, lat_vecs)
            },
            PwLatticeUnits::Bohr => (W90LatticeUnits::Bohr, give_cell(cell.cell)),
            PwLatticeUnits::Angstrom => (W90LatticeUnits::Angstrom, give_cell(cell.cell)),
        },
    };
    let unit_cell_cart = W90Cell { units: lattice_units, cell };

    let (coordinate_type, coordinates) = match nscf.atomic_positions.coordinate_type {
        PwCoord::AlatCartesian => {
            let alat = nscf.system.alat;
            let coordinates = scale_coords(&nscf.atomic_positions.coordinates, alat);
            (W90Coord::BohrCartesian, coordinates)
        },
        PwCoord::BohrCartesian => (
            W90Coord::BohrCartesian,
            map_coords(&nscf.atomic_positions.coordinates),
        ),
        PwCoord::AngstromCartesian => (
            W90Coord::AngstromCartesian,
            map_coords(&nscf.atomic_positions.coordinates),
        ),
        PwCoord::Crystal => (W90Coord::Crystal, map_coords(&nscf.atomic_positions.coordinates)),
        PwCoord::CrystalSG => {
            return Err(Error::CrystalSG);
        },
    };
    let positions = W90Positions { coordinate_type, coordinates };

    let kpoints = match nscf.k_points {
        KPoints::CrystalUniform(k_points) => k_points,
        _ => {
            return Err(Error::WrongKPointsNscf);
        },
    };

    Ok(
        W90Input {
            num_bands,
            num_wann,
            write_hr: Some(true),
            mlwf_iteration_mode: *mlwf_iteration_mode,
            disentanglement: Some(*disentanglement),
            spinors,
            projection_units,
            projections,
            unit_cell_cart,
            positions,
            kpoints,
        },
    )
}

/// The cell of the Wannierization, component by component. A cell in units
/// of the lattice parameter comes out in Bohr, each component as its product
/// with the lattice parameter; a cell in Bohr or in Angstrom comes out in its
/// own units, each component as it was given.
pub proof fn lemma_cell_from_components(system: System, i: int, j: int)
    requires
        0 <= i < 3,
        0 <= j < 3,
    ensures
        system.ibrav->Free_0.units == PwLatticeUnits::Alat ==> cell_from(system).units
            == W90LatticeUnits::Bohr && cell_from(system).cell[i][j] == Real::Product(
            system.alat,
            system.ibrav->Free_0.cell[i][j],
        ),
        system.ibrav->Free_0.units == PwLatticeUnits::Bohr ==> cell_from(system).units
            == W90LatticeUnits::Bohr && cell_from(system).cell[i][j] == Real::Given(
            system.ibrav->Free_0.cell[i][j],
        ),
        system.ibrav->Free_0.units == PwLatticeUnits::Angstrom ==> cell_from(system).units
            == W90LatticeUnits::Angstrom && cell_from(system).cell[i][j] == Real::Given(
            system.ibrav->Free_0.cell[i][j],
        ),
{
}

/// A non-self-consistent stage that was derived from a self-consistent one
/// can be followed by a band-structure stage along any path, with the
/// threshold and the number of bands that were asked of it.
pub proof fn lemma_bands_follow_nscf(
    scf: PwInputView,
    diago_thr_init: Binary64,
    num_bands: u64,
    smearing_type: Smearing,
    smearing_size: Binary64,
    nscf_nk: [u64; 3],
    path: Seq<PathVertex>,
)
    requires
        scf.calculation is Scf,
    ensures
        nscf_from(scf, diago_thr_init, num_bands, smearing_type, smearing_size, nscf_nk) is Ok,
        bands_from(
            nscf_from(scf, diago_thr_init, num_bands, smearing_type, smearing_size, nscf_nk)->Ok_0,
            KPointsView::CrystalBands { path },
        ) is Ok,
        bands_from(
            nscf_from(scf, diago_thr_init, num_bands, smearing_type, smearing_size, nscf_nk)->Ok_0,
            KPointsView::CrystalBands { path },
        )->Ok_0.calculation == (Calculation::Bands {
            diago_thr_init,
            nbnd: Some(num_bands),
            nosym: Some(true),
        }),
{
}

/// A non-self-consistent stage that was derived from a self-consistent one
/// can be followed by a Wannierization, unless the atoms are given by way of
/// the space group. The Wannierization has the number of bands and the grid
/// that were asked of the stage.
pub proof fn lemma_w90_follows_nscf(
    scf: PwInputView,
    diago_thr_init: Binary64,
    num_bands: u64,
    smearing_type: Smearing,
    smearing_size: Binary64,
    nscf_nk: [u64; 3],
    num_wann: u64,
    mlwf_iteration_mode: MLWFIterationMode,
    disentanglement: Disentanglement,
    projection_units: Option<W90LatticeUnits>,
    projections: Seq<ProjectionView>,
)
    requires
        scf.calculation is Scf,
        scf.atomic_positions.coordinate_type != PwCoord::CrystalSG,
    ensures
        nscf_from(scf, diago_thr_init, num_bands, smearing_type, smearing_size, nscf_nk) is Ok,
        w90_from(
            nscf_from(scf, diago_thr_init, num_bands, smearing_type, smearing_size, nscf_nk)->Ok_0,
            num_wann,
            mlwf_iteration_mode,
            disentanglement,
            projection_units,
            projections,
        ) is Ok,
        w90_from(
            nscf_from(scf, diago_thr_init, num_bands, smearing_type, smearing_size, nscf_nk)->Ok_0,
            num_wann,
            mlwf_iteration_mode,
            disentanglement,
            projection_units,
            projections,
        )->Ok_0.num_bands == num_bands,
        w90_from(
            nscf_from(scf, diago_thr_init, num_bands, smearing_type, smearing_size, nscf_nk)->Ok_0,
            num_wann,
            mlwf_iteration_mode,
            disentanglement,
            projection_units,
            projections,
        )->Ok_0.kpoints == nscf_nk,
{
}

/// Multiplies each component of the lattice vectors by `alat`.
fn scale_cell(cell: [[Binary64; 3]; 3], alat: Binary64) -> (r: [[Real; 3]; 3])
    ensures
        r == scaled_cell(cell, alat),
{
    let a0 = scale3(&cell[0], alat);
    let a1 = scale3(&cell[1], alat);
    let a2 = scale3(&cell[2], alat);

    let r = [a0, a1, a2];
    assert(r =~= scaled_cell(cell, alat));
    r
}

/// Takes the lattice vectors as they were given.
fn give_cell(cell: [[Binary64; 3]; 3]) -> (r: [[Real; 3]; 3])
    ensures
        r == given_cell(cell),
{
    let r = [give3(&cell[0]), give3(&cell[1]), give3(&cell[2])];
    assert(r =~= given_cell(cell));
    r
}

/// Multiplies each coordinate of each atom by `alat`.
fn scale_coords(coordinates: &Vec<PwAtomCoordinate>, alat: Binary64) -> (r: Vec<W90AtomCoordinate>)
    ensures
        r@.map_values(|c: W90AtomCoordinate| c@) == scaled_coords(
            coordinates@.map_values(|c: PwAtomCoordinate| c@),
            alat,
        ),
{
    let n = coordinates.len();
    let mut r: Vec<W90AtomCoordinate> = Vec::new();
    let mut i: usize = 0;
    while i < n
        invariant
            i <= n,
            n == coordinates@.len(),
            r@.len() == i,
            forall|j: int|
                0 <= j < i ==> r@[j]@ == (W90AtomCoordinateView {
                    species: coordinates@[j].species@,
                    r: scaled3(coordinates@[j].r, alat),
                }),
        decreases n - i,
    {
        let c = &coordinates[i];
        r.push(W90AtomCoordinate { species: c.species.clone(), r: scale3(&c.r, alat) });
        i += 1;
    }
    assert(r@.map_values(|c: W90AtomCoordinate| c@) =~= scaled_coords(
        coordinates@.map_values(|c: PwAtomCoordinate| c@),
        alat,
    ));
    r
}

/// Takes each atom as it was given.
fn map_coords(coordinates: &Vec<PwAtomCoordinate>) -> (r: Vec<W90AtomCoordinate>)
    ensures
        r@.map_values(|c: W90AtomCoordinate| c@) == given_coords(
            coordinates@.map_values(|c: PwAtomCoordinate| c@),
        ),
{
    let n = coordinates.len();
    let mut r: Vec<W90AtomCoordinate> = Vec::new();
    let mut i: usize = 0;
    while i < n
        invariant
            i <= n,
            n == coordinates@.len(),
            r@.len() == i,
            forall|j: int|
                0 <= j < i ==> r@[j]@ == (W90AtomCoordinateView {
                    species: coordinates@[j].species@,
                    r: given3(coordinates@[j].r),
                }),
        decreases n - i,
    {
        let c = &coordinates[i];
        r.push(W90AtomCoordinate { species: c.species.clone(), r: give3(&c.r) });
        i += 1;
    }
    assert(r@.map_values(|c: W90AtomCoordinate| c@) =~= given_coords(
        coordinates@.map_values(|c: PwAtomCoordinate| c@),
    ));
    r
}

} // verus!
