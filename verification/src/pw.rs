//! The input of a plane-wave calculation, as far as the derivations read and
//! write it: the kind of calculation, the cell, the atoms, the spin treatment,
//! the occupations and the k-points.
use vstd::prelude::*;
use crate::number::Binary64;

verus! {

/// One stage of a plane-wave calculation.
#[derive(Debug, PartialEq, Eq)]
pub struct Input {
    pub calculation: Calculation,
    pub system: System,
    pub atomic_positions: Positions,
    pub k_points: KPoints,
}

#[derive(Debug, Clone, Copy, PartialEq, Eq, Structural)]
pub enum Calculation {
    /// Self-consistent field.
    Scf,
    /// Non-self-consistent field. `nosym` set means that the k-points are not
    /// reduced by symmetry.
    Nscf { diago_thr_init: Binary64, nbnd: Option<u64>, nosym: Option<bool> },
    /// Band structure.
    Bands { diago_thr_init: Binary64, nbnd: Option<u64>, nosym: Option<bool> },
}

#[derive(Debug, Clone, Copy, PartialEq, Eq)]
pub struct System {
    pub ibrav: Ibrav,
    /// The lattice parameter, in Bohr.
    pub alat: Binary64,
    pub spin_type: Option<SpinType>,
    pub occupations: Occupations,
}

/// How the cell is given. Only one way is known: by its lattice vectors.
#[derive(Debug, Clone, Copy, PartialEq, Eq)]
pub enum Ibrav {
    Free(Cell),
}

/// The lattice vectors, one per row, in the given units.
#[derive(Debug, Clone, Copy, PartialEq, Eq)]
pub struct Cell {
    pub units: LatticeUnits,
    pub cell: [[Binary64; 3]; 3],
}

#[derive(Debug, Clone, Copy, PartialEq, Eq, Structural)]
pub enum LatticeUnits {
    /// In units of the lattice parameter.
    Alat,
    Bohr,
    Angstrom,
}

#[derive(Debug, Clone, Copy, PartialEq, Eq, Structural)]
pub enum SpinType {
    NonPolarized,
    CollinearPolarized,
    Noncollinear,
}

#[derive(Debug, Clone, Copy, PartialEq, Eq, Structural)]
pub enum Occupations {
    /// Smearing of the given kind and width.
    Smearing(Smearing, Binary64),
    /// Any way of filling the bands without smearing.
    Other,
}

#[derive(Debug, Clone, Copy, PartialEq, Eq, Structural)]
pub enum Smearing {
    Gaussian,
    MethfesselPaxton,
    MarzariVanderbilt,
    FermiDirac,
}

/// The atoms, all in one coordinate frame.
#[derive(Debug, PartialEq, Eq)]
pub struct Positions {
    pub coordinate_type: PositionCoordinateType,
    pub coordinates: Vec<AtomCoordinate>,
}

#[derive(Debug, Clone, Copy, PartialEq, Eq, Structural)]
pub enum PositionCoordinateType {
    /// Cartesian, in units of the lattice parameter.
    AlatCartesian,
    BohrCartesian,
    AngstromCartesian,
    Crystal,
    /// Crystal coordinates given by way of the space group.
    CrystalSG,
}

#[derive(Debug, PartialEq, Eq)]
pub struct AtomCoordinate {
    pub species: String,
    pub r: [Binary64; 3],
}

/// A corner of a path through the Brillouin zone.
#[derive(Debug, Clone, Copy, PartialEq, Eq)]
pub struct PathVertex {
    /// The corner, in crystal coordinates.
    pub k: [Binary64; 3],
    /// The number of points from this corner to the next.
    pub points: u64,
}

#[derive(Debug, PartialEq, Eq)]
pub enum KPoints {
    /// A uniform grid in crystal coordinates, by the number of points along each axis.
    CrystalUniform([u64; 3]),
    /// A path for a band structure, in crystal coordinates.
    CrystalBands { path: Vec<PathVertex> },
    /// Any other way of giving the k-points.
    Other,
}

/// What an [`AtomCoordinate`] holds.
pub struct AtomCoordinateView {
    pub species: Seq<char>,
    pub r: [Binary64; 3],
}

/// What a [`Positions`] holds.
pub struct PositionsView {
    pub coordinate_type: PositionCoordinateType,
    pub coordinates: Seq<AtomCoordinateView>,
}

/// What a [`KPoints`] holds.
pub enum KPointsView {
    CrystalUniform([u64; 3]),
    CrystalBands { path: Seq<PathVertex> },
    Other,
}

/// What an [`Input`] holds.
pub struct InputView {
    pub calculation: Calculation,
    pub system: System,
    pub atomic_positions: PositionsView,
    pub k_points: KPointsView,
}

impl View for AtomCoordinate {
    type V = AtomCoordinateView;

    open spec fn view(&self) -> AtomCoordinateView {
        AtomCoordinateView { species: self.species@, r: self.r }
    }
}

impl View for Positions {
    type V = PositionsView;

    open spec fn view(&self) -> PositionsView {
        PositionsView {
            coordinate_type: self.coordinate_type,
            coordinates: self.coordinates@.map_values(|c: AtomCoordinate| c@),
        }
    }
}

impl View for KPoints {
    type V = KPointsView;

    open spec fn view(&self) -> KPointsView {
        match *self {
            KPoints::CrystalUniform(nk) => KPointsView::CrystalUniform(nk),
            KPoints::CrystalBands { path } => KPointsView::CrystalBands { path: path@ },
            KPoints::Other => KPointsView::Other,
        }
    }
}

impl View for Input {
    type V = InputView;

    open spec fn view(&self) -> InputView {
        InputView {
            calculation: self.calculation,
            system: self.system,
            atomic_positions: self.atomic_positions@,
            k_points: self.k_points@,
        }
    }
}

impl Clone for AtomCoordinate {
    fn clone(&self) -> (c: Self)
        ensures
            c@ == self@,
    {
        AtomCoordinate { species: self.species.clone(), r: self.r }
    }
}

impl Clone for Positions {
    fn clone(&self) -> (p: Self)
        ensures
            p@ == self@,
    {
        let n = self.coordinates.len();
        let mut coordinates: Vec<AtomCoordinate> = Vec::new();
        let mut i: usize = 0;
        while i < n
            invariant
                i <= n,
                n == self.coordinates@.len(),
                coordinates@.len() == i,
                forall|j: int| 0 <= j < i ==> coordinates@[j]@ == self.coordinates@[j]@,
            decreases n - i,
        {
            let c = self.coordinates[i].clone();
            coordinates.push(c);
            i += 1;
        }
        assert(coordinates@.map_values(|c: AtomCoordinate| c@) =~= self@.coordinates);
        Positions { coordinate_type: self.coordinate_type, coordinates }
    }
}

impl Clone for KPoints {
    fn clone(&self) -> (k: Self)
        ensures
            k@ == self@,
    {
        match self {
            KPoints::CrystalUniform(nk) => KPoints::CrystalUniform(*nk),
            KPoints::CrystalBands { path } => {
                let n = path.len();
                let mut copy: Vec<PathVertex> = Vec::new();
                let mut i: usize = 0;
                while i < n
                    invariant
                        i <= n,
                        n == path@.len(),
                        copy@ == path@.take(i as int),
                    decreases n - i,
                {
                    copy.push(path[i]);
                    assert(copy@ =~= path@.take(i + 1));
                    i += 1;
                }
                assert(path@.take(n as int) =~= path@);
                KPoints::CrystalBands { path: copy }
            },
            KPoints::Other => KPoints::Other,
        }
    }
}

impl Clone for Input {
    fn clone(&self) -> (c: Self)
        ensures
            c@ == self@,
    {
        Input {
            calculation: self.calculation,
            system: self.system,
            atomic_positions: self.atomic_positions.clone(),
            k_points: self.k_points.clone(),
        }
    }
}

} // verus!
