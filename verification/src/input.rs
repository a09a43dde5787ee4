//! The configuration of a Wannierization, and the check of what its types
//! leave open.
use vstd::prelude::*;
use crate::number::Real;

verus! {

/// What one Wannier90 input file says, but for the list of its k-points.
#[derive(Debug, PartialEq, Eq)]
pub struct Input {
    pub num_bands: u64,
    pub num_wann: u64,
    pub write_hr: Option<bool>,
    pub mlwf_iteration_mode: MLWFIterationMode,
    pub disentanglement: Option<Disentanglement>,
    pub spinors: bool,
    pub projection_units: Option<LatticeUnits>,
    pub projections: Vec<Projection>,
    pub unit_cell_cart: Cell,
    pub positions: Positions,
    pub kpoints: [u64; 3],
}

#[derive(Debug, Clone, Copy, PartialEq, Eq, Structural)]
pub enum MLWFIterationMode {
    /// Use projected wavefunctions only: do not mix to achieve maximal localization.
    /// `num_iter` is set to 0 in the input file.
    ProjectionOnly,
    /// Mix projected wavefunctions to achieve maximal localization, using a maximum
    /// of `num_iter` iterations.
    MLWF { num_iter: u64 },
}

/// The energy windows of the disentanglement, and how long it iterates.
#[derive(Debug, Clone, Copy, PartialEq, Eq, Structural)]
pub struct Disentanglement {
    pub dis_win_min: Real,
    pub dis_win_max: Real,
    pub dis_froz_min: Real,
    pub dis_froz_max: Real,
    pub dis_num_iter: u64,
    pub dis_mix_ratio: Real,
}

/// An initial guess for the orbitals.
#[derive(Debug, PartialEq, Eq)]
pub enum Projection {
    Random,
    Site {
        site: ProjectionSite,
        ang_mtm: Vec<AngularMomentum>,
        zaxis: Option<[Real; 3]>,
        xaxis: Option<[Real; 3]>,
        radial: Option<u64>,
        zona: Option<Real>,
    },
}

#[derive(Debug, PartialEq, Eq)]
pub enum ProjectionSite {
    /// Projection centered on all atoms of the given species.
    Species(String),
    /// `c = x, y, z` type of projection centered at Cartesian position (x, y, z).
    CenterCartesian([Real; 3]),
    /// `f = r1, r2, r3` type of projection centered at lattice coordinate position (r1, r2, r3).
    CenterCrystal([Real; 3]),
}

#[derive(Debug, Clone, Copy, PartialEq, Eq, Structural)]
pub enum AngularMomentum {
    S,
    P,
    D,
    F,
}

/// The lattice vectors, one per row, in the given units.
#[derive(Debug, Clone, Copy, PartialEq, Eq)]
pub struct Cell {
    pub units: LatticeUnits,
    pub cell: [[Real; 3]; 3],
}

#[derive(Debug, Clone, Copy, PartialEq, Eq, Structural)]
pub enum LatticeUnits {
    Bohr,
    Angstrom,
}

/// The atoms, all in one coordinate frame.
#[derive(Debug, PartialEq, Eq)]
pub struct Positions {
    pub coordinate_type: PositionCoordinateType,
    pub coordinates: Vec<AtomCoordinate>,
}

#[derive(Debug, Clone, Copy, PartialEq, Eq, Structural)]
pub enum PositionCoordinateType {
    BohrCartesian,
    AngstromCartesian,
    Crystal,
}

#[derive(Debug, PartialEq, Eq)]
pub struct AtomCoordinate {
    pub species: String,
    pub r: [Real; 3],
}

/// What a [`ProjectionSite`] holds.
pub enum ProjectionSiteView {
    Species(Seq<char>),
    CenterCartesian([Real; 3]),
    CenterCrystal([Real; 3]),
}

/// What a [`Projection`] holds.
pub enum ProjectionView {
    Random,
    Site {
        site: ProjectionSiteView,
        ang_mtm: Seq<AngularMomentum>,
        zaxis: Option<[Real; 3]>,
        xaxis: Option<[Real; 3]>,
        radial: Option<u64>,
        zona: Option<Real>,
    },
}

/// What an [`AtomCoordinate`] holds.
pub struct AtomCoordinateView {
    pub species: Seq<char>,
    pub r: [Real; 3],
}

/// What a [`Positions`] holds.
pub struct PositionsView {
    pub coordinate_type: PositionCoordinateType,
    pub coordinates: Seq<AtomCoordinateView>,
}

/// What an [`Input`] holds.
pub struct InputView {
    pub num_bands: u64,
    pub num_wann: u64,
    pub write_hr: Option<bool>,
    pub mlwf_iteration_mode: MLWFIterationMode,
    pub disentanglement: Option<Disentanglement>,
    pub spinors: bool,
    pub projection_units: Option<LatticeUnits>,
    pub projections: Seq<ProjectionView>,
    pub unit_cell_cart: Cell,
    pub positions: PositionsView,
    pub kpoints: [u64; 3],
}

impl View for ProjectionSite {
    type V = ProjectionSiteView;

    open spec fn view(&self) -> ProjectionSiteView {
        match *self {
            ProjectionSite::Species(species) => ProjectionSiteView::Species(species@),
            ProjectionSite::CenterCartesian(r) => ProjectionSiteView::CenterCartesian(r),
            ProjectionSite::CenterCrystal(r) => ProjectionSiteView::CenterCrystal(r),
        }
    }
}

impl View for Projection {
    type V = ProjectionView;

    open spec fn view(&self) -> ProjectionView {
        match *self {
            Projection::Random => ProjectionView::Random,
            Projection::Site { site, ang_mtm, zaxis, xaxis, radial, zona } => ProjectionView::Site {
                site: site@,
                ang_mtm: ang_mtm@,
                zaxis,
                xaxis,
                radial,
                zona,
            },
        }
    }
}

impl View for AtomCoordinate {
    type V = AtomCoordinateView;

    open spec fn view(&self) -> AtomCoordinateView {
        AtomCoordinateView { species: self.species@, r: self.r }
    }
}

impl View for Positions {
    type V = PositionsView;

    open spec fn view(&self) -> PositionsView {
        PositionsView {
            coordinate_type: self.coordinate_type,
            coordinates: self.coordinates@.map_values(|c: AtomCoordinate| c@),
        }
    }
}

impl View for Input {
    type V = InputView;

    open spec fn view(&self) -> InputView {
        InputView {
            num_bands: self.num_bands,
            num_wann: self.num_wann,
            write_hr: self.write_hr,
            mlwf_iteration_mode: self.mlwf_iteration_mode,
            disentanglement: self.disentanglement,
            spinors: self.spinors,
            projection_units: self.projection_units,
            projections: self.projections@.map_values(|p: Projection| p@),
            unit_cell_cart: self.unit_cell_cart,
            positions: self.positions@,
            kpoints: self.kpoints,
        }
    }
}

impl Clone for ProjectionSite {
    fn clone(&self) -> (c: Self)
        ensures
            c@ == self@,
    {
        match self {
            ProjectionSite::Species(species) => ProjectionSite::Species(species.clone()),
            ProjectionSite::CenterCartesian(r) => ProjectionSite::CenterCartesian(*r),
            ProjectionSite::CenterCrystal(r) => ProjectionSite::CenterCrystal(*r),
        }
    }
}

impl Clone for Projection {
    fn clone(&self) -> (c: Self)
        ensures
            c@ == self@,
    {
        match self {
            Projection::Random => Projection::Random,
            Projection::Site { site, ang_mtm, zaxis, xaxis, radial, zona } => {
                let n = ang_mtm.len();
                let mut momenta: Vec<AngularMomentum> = Vec::new();
                let mut i: usize = 0;
                while i < n
                    invariant
                        i <= n,
                        n == ang_mtm@.len(),
                        momenta@ == ang_mtm@.take(i as int),
                    decreases n - i,
                {
                    momenta.push(ang_mtm[i]);
                    assert(momenta@ =~= ang_mtm@.take(i + 1));
                    i += 1;
                }
                assert(ang_mtm@.take(n as int) =~= ang_mtm@);
                Projection::Site {
                    site: site.clone(),
                    ang_mtm: momenta,
                    zaxis: *zaxis,
                    xaxis: *xaxis,
                    radial: *radial,
                    zona: *zona,
                }
            },
        }
    }
}

impl Clone for AtomCoordinate {
    fn clone(&self) -> (c: Self)
        ensures
            c@ == self@,
    {
        AtomCoordinate { species: self.species.clone(), r: self.r }
    }
}

impl Clone for Positions {
    fn clone(&self) -> (p: Self)
        ensures
            p@ == self@,
    {
        let n = self.coordinates.len();
        let mut coordinates: Vec<AtomCoordinate> = Vec::new();
        let mut i: usize = 0;
        while i < n
            invariant
                i <= n,
                n == self.coordinates@.len(),
                coordinates@.len() == i,
                forall|j: int| 0 <= j < i ==> coordinates@[j]@ == self.coordinates@[j]@,
            decreases n - i,
        {
            let c = self.coordinates[i].clone();
            coordinates.push(c);
            i += 1;
        }
        assert(coordinates@.map_values(|c: AtomCoordinate| c@) =~= self@.coordinates);
        Positions { coordinate_type: self.coordinate_type, coordinates }
    }
}

impl Clone for Input {
    fn clone(&self) -> (c: Self)
        ensures
            c@ == self@,
    {
        let n = self.projections.len();
        let mut projections: Vec<Projection> = Vec::new();
        let mut i: usize = 0;
        while i < n
            invariant
                i <= n,
                n == self.projections@.len(),
                projections@.len() == i,
                forall|j: int| 0 <= j < i ==> projections@[j]@ == self.projections@[j]@,
            decreases n - i,
        {
            let p = self.projections[i].clone();
            projections.push(p);
            i += 1;
        }
        assert(projections@.map_values(|p: Projection| p@) =~= self@.projections);
        Input {
            num_bands: self.num_bands,
            num_wann: self.num_wann,
            write_hr: self.write_hr,
            mlwf_iteration_mode: self.mlwf_iteration_mode,
            disentanglement: self.disentanglement,
            spinors: self.spinors,
            projection_units: self.projection_units,
            projections,
            unit_cell_cart: self.unit_cell_cart,
            positions: self.positions.clone(),
            kpoints: self.kpoints,
        }
    }
}

/// A rule that an [`Input`] breaks.
#[derive(Debug, Clone, Copy, PartialEq, Eq, Structural)]
pub enum Error {
    /// `Random` appears more than once in the list of projections.
    RandomCount,
}

impl Error {
    /// The rule, in words.
    pub fn message(&self) -> (s: String)
        ensures
            s@ == "`Random` may appear at most once in the list of projections."@,
    {
        match self {
            Error::RandomCount => String::from_str(
                "`Random` may appear at most once in the list of projections.",
            ),
        }
    }
}

/// All the rules that an [`Input`] breaks, each once.
#[derive(Debug, PartialEq, Eq)]
pub struct ErrorList {
    pub errs: Vec<Error>,
}

impl Clone for ErrorList {
    fn clone(&self) -> (c: Self)
        ensures
            c.errs@ == self.errs@,
    {
        let n = self.errs.len();
        let mut errs: Vec<Error> = Vec::new();
        let mut i: usize = 0;
        while i < n
            invariant
                i <= n,
                n == self.errs@.len(),
                errs@ == self.errs@.take(i as int),
            decreases n - i,
        {
            errs.push(self.errs[i]);
            assert(errs@ =~= self.errs@.take(i + 1));
            i += 1;
        }
        assert(self.errs@.take(n as int) =~= self.errs@);
        ErrorList { errs }
    }
}

/// The `Random` entries among the projections.
pub open spec fn random_projections(projections: Seq<ProjectionView>) -> Seq<ProjectionView> {
    projections.filter(|p: ProjectionView| p is Random)
}

/// The rules that `input` breaks, in the order in which they are checked.
///
/// Two things are not checked: that the species of each atom-centered
/// projection occurs among the positions, and that the number of projections
/// agrees with `num_wann` where none of them is `Random`.
pub open spec fn violations(input: InputView) -> Seq<Error> {
    if random_projections(input.projections).len() > 1 {
        seq![Error::RandomCount]
    } else {
        Seq::empty()
    }
}

/// Checks `input` against the rules and reports every rule that it breaks.
pub fn validate(input: &Input) -> (r: Result<(), ErrorList>)
    ensures
        random_projections(input@.projections).len() <= 1 ==> r is Ok,
        random_projections(input@.projections).len() >= 2 ==> (r matches Err(list) && list.errs@
            == seq![Error::RandomCount]),
        r is Ok <==> violations(input@).len() == 0,
        r matches Err(list) ==> list.errs@ == violations(input@),
{
    let mut errs: Vec<Error> = Vec::new();

    let n = input.projections.len();
    let mut random_count: usize = 0;
    let mut i: usize = 0;
    while i < n
        invariant
            i <= n,
            n == input.projections@.len(),
            random_count == random_projections(input@.projections.take(i as int)).len(),
            random_count <= i,
        decreases n - i,
    {
        proof {
            let seen = input@.projections.take(i as int);
            let next = input@.projections.take(i + 1);
            assert(next.drop_last() =~= seen);
            assert(next.last() == input.projections@[i as int]@);
            reveal(Seq::filter);
        }
        match input.projections[i] {
            Projection::Random => {
                random_count += 1;
            },
            _ => {},
        }
        i += 1;
    }
    assert(input@.projections.take(n as int) =~= input@.projections);
    if random_count > 1 {
        errs.push(Error::RandomCount);
    }

    if errs.len() == 0 {
        Ok(())
    } else {
        Err(ErrorList { errs })
    }
}

} // verus!
