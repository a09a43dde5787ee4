//! The text of a Wannier90 input file.
use vstd::prelude::*;
use crate::input;
use crate::input::{
    AngularMomentum, AtomCoordinate, AtomCoordinateView, Cell, Disentanglement, Input, InputView,
    LatticeUnits, MLWFIterationMode, PositionCoordinateType, PositionsView, Projection,
    ProjectionSite, ProjectionSiteView, ProjectionView,
};
use crate::number::Real;
use crate::text::{chars, decimal, join, triple, views, Glyph, Text};

verus! {

/// Why no text was written.
#[derive(Debug)]
pub enum Error {
    /// The configuration breaks the rules listed.
    Input(input::ErrorList),
}

impl From<input::ErrorList> for Error {
    fn from(errs: input::ErrorList) -> (e: Error) {
        Error::Input(errs)
    }
}

impl vstd::std_specs::convert::FromSpecImpl<input::ErrorList> for Error {
    open spec fn obeys_from_spec() -> bool {
        true
    }

    open spec fn from_spec(errs: input::ErrorList) -> Error {
        Error::Input(errs)
    }
}

/// A `Field` has a method `value()` which returns its textual representation on the
/// right-hand side of a `field_name = value` expression in the Wannier90 input file.
pub trait Field {
    /// The representation, place by place.
    spec fn token(&self) -> Seq<Glyph>;

    fn value(&self) -> (text: Text)
        ensures
            text@ == self.token(),
    ;
}

/// The number of iterations that the mode allows: none where only the
/// projections are used.
pub open spec fn num_iter(mode: MLWFIterationMode) -> u64 {
    match mode {
        MLWFIterationMode::ProjectionOnly => 0,
        MLWFIterationMode::MLWF { num_iter } => num_iter,
    }
}

impl Field for MLWFIterationMode {
    open spec fn token(&self) -> Seq<Glyph> {
        chars(decimal(num_iter(*self) as nat))
    }

    fn value(&self) -> (text: Text) {
        let mut text = Text::new();
        text.push_decimal(
            match *self {
                MLWFIterationMode::ProjectionOnly => 0,
                MLWFIterationMode::MLWF { num_iter } => num_iter,
            },
        );
        assert(text@ =~= self.token());
        text
    }
}

impl Field for LatticeUnits {
    open spec fn token(&self) -> Seq<Glyph> {
        match *self {
            LatticeUnits::Bohr => chars("bohr"@),
            LatticeUnits::Angstrom => chars("ang"@),
        }
    }

    fn value(&self) -> (text: Text) {
        Text::from_str(
            match *self {
                LatticeUnits::Bohr => "bohr",
                LatticeUnits::Angstrom => "ang",
            },
        )
    }
}

impl Field for AngularMomentum {
    open spec fn token(&self) -> Seq<Glyph> {
        match *self {
            AngularMomentum::S => chars("l=0"@),
            AngularMomentum::P => chars("l=1"@),
            AngularMomentum::D => chars("l=2"@),
            AngularMomentum::F => chars("l=3"@),
        }
    }

    fn value(&self) -> (text: Text) {
        Text::from_str(
            match *self {
                AngularMomentum::S => "l=0",
                AngularMomentum::P => "l=1",
                AngularMomentum::D => "l=2",
                AngularMomentum::F => "l=3",
            },
        )
    }
}

/// Where a projection is centered: the species by its name, a point by
/// `c =` or `f =` and its three coordinates.
pub open spec fn site_token(site: ProjectionSiteView) -> Seq<Glyph> {
    match site {
        ProjectionSiteView::Species(species) => chars(species),
        ProjectionSiteView::CenterCartesian(r) => chars("c = "@) + triple(r, ", "@),
        ProjectionSiteView::CenterCrystal(r) => chars("f = "@) + triple(r, ", "@),
    }
}

impl Field for ProjectionSite {
    open spec fn token(&self) -> Seq<Glyph> {
        site_token(self@)
    }

    fn value(&self) -> (text: Text) {
        match self {
            ProjectionSite::Species(species) => Text::from_str(species.as_str()),
            ProjectionSite::CenterCartesian(r) => {
                let mut text = Text::from_str("c = ");
                text.push_triple(r, ", ");
                text
            },
            ProjectionSite::CenterCrystal(r) => {
                let mut text = Text::from_str("f = ");
                text.push_triple(r, ", ");
                text
            },
        }
    }
}

/// The angular momenta, with `;` between each two.
pub open spec fn momenta(ang_mtm: Seq<AngularMomentum>) -> Seq<Glyph> {
    join(ang_mtm.map_values(|l: AngularMomentum| l.token()), chars(";"@))
}

/// An axis, where one is set: `label` and the three components with commas.
pub open spec fn axis(label: Seq<char>, r: Option<[Real; 3]>) -> Seq<Glyph> {
    match r {
        Some(r) => chars(label) + triple(r, ","@),
        None => Seq::empty(),
    }
}

/// The radial index, where one is set.
pub open spec fn radial_part(radial: Option<u64>) -> Seq<Glyph> {
    match radial {
        Some(n) => chars(":r="@) + chars(decimal(n as nat)),
        None => Seq::empty(),
    }
}

/// The diffuseness, where one is set.
pub open spec fn zona_part(zona: Option<Real>) -> Seq<Glyph> {
    match zona {
        Some(v) => chars(":zona="@).push(Glyph::Number(v)),
        None => Seq::empty(),
    }
}

/// One line of the projections block: `random`, or the site, a colon, the
/// angular momenta, and then each of the z-axis, the x-axis, the radial index
/// and the diffuseness that is set, in this order.
pub open spec fn projection_token(projection: ProjectionView) -> Seq<Glyph> {
    match projection {
        ProjectionView::Random => chars("random"@),
        ProjectionView::Site { site, ang_mtm, zaxis, xaxis, radial, zona } => site_token(site)
            + chars(":"@) + momenta(ang_mtm) + axis(":z="@, zaxis) + axis(":x="@, xaxis)
            + radial_part(radial) + zona_part(zona),
    }
}

impl Field for Projection {
    open spec fn token(&self) -> Seq<Glyph> {
        projection_token(self@)
    }

    fn value(&self) -> (text: Text) {
        match self {
            Projection::Random => Text::from_str("random"),
            Projection::Site { site, ang_mtm, zaxis, xaxis, radial, zona } => {
                let mut proj = site.value();
                proj.push_str(":");
                proj.append(&make_momenta(ang_mtm));
                push_axis(&mut proj, ":z=", zaxis);
                push_axis(&mut proj, ":x=", xaxis);
                if let Some(radial) = radial {
                    proj.push_str(":r=");
                    proj.push_decimal(*radial);
                }
                assert(proj@ =~= site_token(site@) + chars(":"@) + momenta(ang_mtm@) + axis(
                    ":z="@,
                    *zaxis,
                ) + axis(":x="@, *xaxis) + radial_part(*radial));
                if let Some(zona) = zona {
                    proj.push_str(":zona=");
                    proj.push_number(*zona);
                }
                assert(proj@ =~= projection_token(self@));
                proj
            },
        }
    }
}

/// Writes the angular momenta, with `;` between each two.
fn make_momenta(ang_mtm: &Vec<AngularMomentum>) -> (text: Text)
    ensures
        text@ == momenta(ang_mtm@),
{
    let n = ang_mtm.len();
    let mut tokens: Vec<Text> = Vec::new();
    let mut i: usize = 0;
    while i < n
        invariant
            i <= n,
            n == ang_mtm@.len(),
            tokens@.len() == i,
            forall|j: int| 0 <= j < i ==> tokens@[j]@ == ang_mtm@[j].token(),
        decreases n - i,
    {
        tokens.push(ang_mtm[i].value());
        i += 1;
    }
    assert(views(tokens@) =~= ang_mtm@.map_values(|l: AngularMomentum| l.token()));
    Text::join(&tokens, ";")
}

/// Appends an axis to `text`, if one is set.
fn push_axis(text: &mut Text, label: &str, r: &Option<[Real; 3]>)
    ensures
        final(text)@ == old(text)@ + axis(label@, *r),
{
    if let Some(r) = r {
        text.push_str(label);
        text.push_triple(r, ",");
    }
    assert(final(text)@ =~= old(text)@ + axis(label@, *r));
}

/// The end of a line.
pub open spec fn newline() -> Seq<Glyph> {
    chars("\n"@)
}

/// The line `name=.true.` or `name=.false.` where the flag is set, and no
/// line where it is not.
pub open spec fn bool_field(name: Seq<char>, b: Option<bool>) -> Seq<Seq<Glyph>> {
    match b {
        Some(b) => seq![
            chars(name) + chars("="@) + chars(
                if b {
                    ".true."@
                } else {
                    ".false."@
                },
            ),
        ],
        None => Seq::empty(),
    }
}

/// The line `name = n`.
pub open spec fn count_field(name: Seq<char>, n: u64) -> Seq<Glyph> {
    chars(name) + chars(" = "@) + chars(decimal(n as nat))
}

/// The line `name = x`.
pub open spec fn real_field(name: Seq<char>, x: Real) -> Seq<Glyph> {
    (chars(name) + chars(" = "@)).push(Glyph::Number(x))
}

/// The lines of the header: the number of bands, of Wannier functions and of
/// iterations, and the flag `write_hr` for the Hamiltonian in real space,
/// where it is set.
pub open spec fn header_lines(input: InputView) -> Seq<Seq<Glyph>> {
    seq![
        count_field("num_bands"@, input.num_bands),
        count_field("num_wann"@, input.num_wann),
        chars("num_iter"@) + chars(" = "@) + input.mlwf_iteration_mode.token(),
    ] + bool_field("write_hr"@, input.write_hr)
}

/// The shape of the header. Its first three lines give the number of bands,
/// of Wannier functions and of iterations. Where the flag for the
/// Hamiltonian in real space is set, a fourth line gives it as
/// `write_hr=.true.` or `write_hr=.false.`; where it is not, there is no
/// fourth line.
pub proof fn lemma_header_block(input: InputView)
    ensures
        header_lines(input).len() == if input.write_hr is Some {
            4int
        } else {
            3int
        },
        header_lines(input)[0] == count_field("num_bands"@, input.num_bands),
        header_lines(input)[1] == count_field("num_wann"@, input.num_wann),
        header_lines(input)[2] == chars("num_iter"@) + chars(" = "@) + chars(
            decimal(num_iter(input.mlwf_iteration_mode) as nat),
        ),
        input.write_hr == Some(true) ==> header_lines(input)[3] == chars("write_hr"@) + chars(
            "="@,
        ) + chars(".true."@),
        input.write_hr == Some(false) ==> header_lines(input)[3] == chars("write_hr"@) + chars(
            "="@,
        ) + chars(".false."@),
{
}

/// The six lines of the disentanglement.
pub open spec fn disentanglement_lines(dis: Disentanglement) -> Seq<Seq<Glyph>> {
    seq![
        real_field("dis_win_min"@, dis.dis_win_min),
        real_field("dis_win_max"@, dis.dis_win_max),
        real_field("dis_froz_min"@, dis.dis_froz_min),
        real_field("dis_froz_max"@, dis.dis_froz_max),
        count_field("dis_num_iter"@, dis.dis_num_iter),
        real_field("dis_mix_ratio"@, dis.dis_mix_ratio),
    ]
}

/// The units of the projections as a line, where they are set.
pub open spec fn units_line(units: Option<LatticeUnits>) -> Seq<Seq<Glyph>> {
    match units {
        Some(units) => seq![units.token()],
        None => Seq::empty(),
    }
}

/// The lines of the projections: the spinor flag, then the block with the
/// units, where they are set, and one line for each projection, in their order.
pub open spec fn projections_lines(input: InputView) -> Seq<Seq<Glyph>> {
    bool_field("spinors"@, Some(input.spinors)) + seq![chars("begin projections"@)] + units_line(
        input.projection_units,
    ) + input.projections.map_values(|p: ProjectionView| projection_token(p)) + seq![
        chars("end projections"@),
    ]
}

/// One lattice vector as a line.
pub open spec fn cell_row(a: [Real; 3]) -> Seq<Glyph> {
    chars("  "@) + triple(a, "  "@)
}

/// The lines of the unit cell: its units and its three lattice vectors.
pub open spec fn unit_cell_lines(cell: Cell) -> Seq<Seq<Glyph>> {
    seq![
        chars("begin unit_cell_cart"@),
        cell.units.token(),
        cell_row(cell.cell[0]),
        cell_row(cell.cell[1]),
        cell_row(cell.cell[2]),
        chars("end unit_cell_cart"@),
    ]
}

/// The lines that open the block of the atoms: for Cartesian coordinates the
/// block is `atoms_cart` and its first line gives the units, for crystal
/// coordinates it is `atoms_frac`, which has no such line.
pub open spec fn positions_begin(coordinate_type: PositionCoordinateType) -> Seq<Seq<Glyph>> {
    match coordinate_type {
        PositionCoordinateType::BohrCartesian => seq![
            chars("begin atoms_cart"@),
            chars("bohr"@),
        ],
        PositionCoordinateType::AngstromCartesian => seq![
            chars("begin atoms_cart"@),
            chars("ang"@),
        ],
        PositionCoordinateType::Crystal => seq![chars("begin atoms_frac"@)],
    }
}

/// The line that closes the block of the atoms.
pub open spec fn positions_end(coordinate_type: PositionCoordinateType) -> Seq<Glyph> {
    match coordinate_type {
        PositionCoordinateType::BohrCartesian | PositionCoordinateType::AngstromCartesian => chars(
            "end atoms_cart"@,
        ),
        PositionCoordinateType::Crystal => chars("end atoms_frac"@),
    }
}

/// One atom as a line: its species and its three coordinates.
pub open spec fn atom_line(atom: AtomCoordinateView) -> Seq<Glyph> {
    chars(" "@) + chars(atom.species) + chars(" "@) + triple(atom.r, " "@)
}

/// The lines of the atoms, in their order.
pub open spec fn positions_lines(positions: PositionsView) -> Seq<Seq<Glyph>> {
    positions_begin(positions.coordinate_type) + positions.coordinates.map_values(
        |atom: AtomCoordinateView| atom_line(atom),
    ) + seq![positions_end(positions.coordinate_type)]
}

/// The shape of the block of the atoms. In crystal coordinates it is
/// `begin atoms_frac`, one line for each atom and `end atoms_frac`, with no
/// line for the units; in Cartesian coordinates it is `begin atoms_cart`, the
/// units, one line for each atom and `end atoms_cart`.
pub proof fn lemma_positions_block(positions: PositionsView)
    ensures
        positions.coordinate_type == PositionCoordinateType::Crystal ==> {
            &&& positions_lines(positions).len() == positions.coordinates.len() + 2
            &&& positions_lines(positions).first() == chars("begin atoms_frac"@)
            &&& positions_lines(positions).last() == chars("end atoms_frac"@)
            &&& forall|i: int|
                0 <= i < positions.coordinates.len() ==> #[trigger] positions_lines(positions)[1
                    + i] == atom_line(positions.coordinates[i])
        },
        positions.coordinate_type != PositionCoordinateType::Crystal ==> {
            &&& positions_lines(positions).len() == positions.coordinates.len() + 3
            &&& positions_lines(positions).first() == chars("begin atoms_cart"@)
            &&& positions_lines(positions)[1] == chars(
                if positions.coordinate_type == PositionCoordinateType::BohrCartesian {
                    "bohr"@
                } else {
                    "ang"@
                },
            )
            &&& positions_lines(positions).last() == chars("end atoms_cart"@)
            &&& forall|i: int|
                0 <= i < positions.coordinates.len() ==> #[trigger] positions_lines(positions)[2
                    + i] == atom_line(positions.coordinates[i])
        },
{
}

/// The line with the shape of the k-point grid.
pub open spec fn mp_grid_line(nk: [u64; 3]) -> Seq<Glyph> {
    chars("mp_grid = "@) + chars(decimal(nk[0] as nat)) + chars(" "@) + chars(
        decimal(nk[1] as nat),
    ) + chars(" "@) + chars(decimal(nk[2] as nat))
}

/// The lines of the k-points: the shape of the grid, and the points of the
/// grid, one per line, in the order in which they are listed.
pub open spec fn kpoints_lines(nk: [u64; 3], kpoint_list: Seq<[Real; 3]>) -> Seq<Seq<Glyph>> {
    seq![mp_grid_line(nk), chars("begin kpoints"@)] + kpoint_list.map_values(
        |k: [Real; 3]| triple(k, " "@),
    ) + seq![chars("end kpoints"@)]
}

/// The lines, each but the last ended by a newline.
pub open spec fn section(lines: Seq<Seq<Glyph>>) -> Seq<Glyph> {
    join(lines, newline())
}

/// The disentanglement as a section, where there is one.
pub open spec fn disentanglement_sections(dis: Option<Disentanglement>) -> Seq<Seq<Glyph>> {
    match dis {
        Some(dis) => seq![section(disentanglement_lines(dis))],
        None => Seq::empty(),
    }
}

/// The sections of the file, in their order: header, disentanglement,
/// projections, unit cell, atoms, k-points.
pub open spec fn sections(input: InputView, kpoint_list: Seq<[Real; 3]>) -> Seq<Seq<Glyph>> {
    seq![section(header_lines(input))] + disentanglement_sections(input.disentanglement) + seq![
        section(projections_lines(input)),
        section(unit_cell_lines(input.unit_cell_cart)),
        section(positions_lines(input.positions)),
        section(kpoints_lines(input.kpoints, kpoint_list)),
    ]
}

/// The file for a configuration that breaks no rule: the sections, with a
/// newline between each two.
pub open spec fn document(input: InputView, kpoint_list: Seq<[Real; 3]>) -> Seq<Glyph> {
    join(sections(input, kpoint_list), newline())
}

/// What [`make_input_file`] is to give: the rules that the configuration
/// breaks, if there are any, and its file, if there are none.
pub open spec fn input_file(input: InputView, kpoint_list: Seq<[Real; 3]>) -> Result<
    Seq<Glyph>,
    Seq<input::Error>,
> {
    if input::violations(input).len() == 0 {
        Ok(document(input, kpoint_list))
    } else {
        Err(input::violations(input))
    }
}

/// Whether `r` is what [`make_input_file`] may give for `input` and `kpoint_list`.
pub open spec fn written(input: InputView, kpoint_list: Seq<[Real; 3]>, r: Result<Text, Error>) -> bool {
    match r {
        Ok(text) => input_file(input, kpoint_list) == Ok::<Seq<Glyph>, Seq<input::Error>>(text@),
        Err(Error::Input(list)) => input_file(input, kpoint_list) == Err::<
            Seq<Glyph>,
            Seq<input::Error>,
        >(list.errs@),
    }
}

/// Whether the two say the same: the same text, or the same rules broken.
pub open spec fn same_outcome(first: Result<Text, Error>, second: Result<Text, Error>) -> bool {
    match (first, second) {
        (Ok(a), Ok(b)) => a@ == b@,
        (Err(Error::Input(a)), Err(Error::Input(b))) => a.errs@ == b.errs@,
        _ => false,
    }
}

/// Writing the file is repeatable: whatever [`make_input_file`] gives for a
/// configuration and its k-points, it gives again when it is asked again.
pub proof fn lemma_make_input_file_repeatable(
    input: InputView,
    kpoint_list: Seq<[Real; 3]>,
    first: Result<Text, Error>,
    second: Result<Text, Error>,
)
    requires
        written(input, kpoint_list, first),
        written(input, kpoint_list, second),
    ensures
        same_outcome(first, second),
{
}

/// Checks `input` and writes the file for it. `kpoint_list` holds the points
/// of the k-point grid of `input`, in the order in which the file is to list
/// them. No text is written for a configuration that breaks a rule.
pub fn make_input_file(input: &Input, kpoint_list: &Vec<[Real; 3]>) -> (r: Result<Text, Error>)
    ensures
        written(input@, kpoint_list@, r),
        r is Ok <==> input::violations(input@).len() == 0,
{
    match input::validate(input) {
        Ok(()) => {},
        Err(errs) => {
            return Err(Error::from(errs));
        },
    }

    let header = make_header(input);

    let mut input_sections: Vec<Text> = Vec::new();
    input_sections.push(header);

    if let Some(disentanglement) = &input.disentanglement {
        input_sections.push(make_disentanglement(disentanglement));
    }
    let projections = make_projections(input);
    let cell = make_unit_cell(input);
    let positions = make_positions(input);
    let k_points = make_kpoints(input, kpoint_list);

    input_sections.push(projections);
    input_sections.push(cell);
    input_sections.push(positions);
    input_sections.push(k_points);
    assert(views(input_sections@) =~= sections(input@, kpoint_list@));

    let input_text = Text::join(&input_sections, "\n");

    Ok(input_text)
}

/// The line `name = n`.
fn count_line(name: &str, n: u64) -> (line: Text)
    ensures
        line@ == count_field(name@, n),
{
    let mut line = Text::from_str(name);
    line.push_str(" = ");
    line.push_decimal(n);
    line
}

/// The line `name = x`.
fn real_line(name: &str, x: Real) -> (line: Text)
    ensures
        line@ == real_field(name@, x),
{
    let mut line = Text::from_str(name);
    line.push_str(" = ");
    line.push_number(x);
    line
}

/// Writes the header.
pub fn make_header(input: &Input) -> (text: Text)
    ensures
        text@ == section(header_lines(input@)),
{
    let mut lines: Vec<Text> = Vec::new();

    lines.push(count_line("num_bands", input.num_bands));
    lines.push(count_line("num_wann", input.num_wann));
    let mut line = Text::from_str("num_iter");
    line.push_str(" = ");
    line.append(&input.mlwf_iteration_mode.value());
    lines.push(line);
    assert(views(lines@) =~= header_lines(input@).take(3));

    push_bool_field(&mut lines, "write_hr", input.write_hr);
    assert(views(lines@) =~= header_lines(input@));

    Text::join(&lines, "\n")
}

/// Appends the line for a flag to `lines`, if the flag is set.
pub fn push_bool_field(lines: &mut Vec<Text>, name: &str, b: Option<bool>)
    ensures
        views(final(lines)@) == views(old(lines)@) + bool_field(name@, b),
{
    if let Some(b) = b {
        let val = if b {
            ".true."
        } else {
            ".false."
        };

        let mut line = Text::from_str(name);
        line.push_str("=");
        line.push_str(val);
        lines.push(line);
    };
    assert(views(final(lines)@) =~= views(old(lines)@) + bool_field(name@, b));
}

/// Writes the disentanglement.
pub fn make_disentanglement(dis: &Disentanglement) -> (text: Text)
    ensures
        text@ == section(disentanglement_lines(*dis)),
{
    let mut lines: Vec<Text> = Vec::new();

    lines.push(real_line("dis_win_min", dis.dis_win_min));
    lines.push(real_line("dis_win_max", dis.dis_win_max));
    lines.push(real_line("dis_froz_min", dis.dis_froz_min));
    lines.push(real_line("dis_froz_max", dis.dis_froz_max));
    lines.push(count_line("dis_num_iter", dis.dis_num_iter));
    lines.push(real_line("dis_mix_ratio", dis.dis_mix_ratio));
    assert(views(lines@) =~= disentanglement_lines(*dis));

    Text::join(&lines, "\n")
}

/// Writes the projections.
pub fn make_projections(input: &Input) -> (text: Text)
    ensures
        text@ == section(projections_lines(input@)),
{
    let mut lines: Vec<Text> = Vec::new();

    push_bool_field(&mut lines, "spinors", Some(input.spinors));

    lines.push(Text::from_str("begin projections"));

    if let Some(units) = &input.projection_units {
        lines.push(units.value());
    }
    let ghost start = views(lines@);
    assert(start =~= bool_field("spinors"@, Some(input.spinors)) + seq![
        chars("begin projections"@),
    ] + units_line(input.projection_units));
    let n = input.projections.len();
    let mut i: usize = 0;
    while i < n
        invariant
            i <= n,
            n == input.projections@.len(),
            lines@.len() == start.len() + i,
            forall|j: int| 0 <= j < start.len() ==> lines@[j]@ == start[j],
            forall|j: int|
                0 <= j < i ==> lines@[start.len() + j]@ == projection_token(
                    input.projections@[j]@,
                ),
        decreases n - i,
    {
        lines.push(input.projections[i].value());
        i += 1;
    }

    lines.push(Text::from_str("end projections"));
    assert(views(lines@) =~= projections_lines(input@));

    Text::join(&lines, "\n")
}

/// Writes the unit cell.
pub fn make_unit_cell(input: &Input) -> (text: Text)
    ensures
        text@ == section(unit_cell_lines(input@.unit_cell_cart)),
{
    let cell = &input.unit_cell_cart;
    let mut lines: Vec<Text> = Vec::new();
    lines.push(Text::from_str("begin unit_cell_cart"));
    lines.push(cell.units.value());

    let mut i: usize = 0;
    while i < 3
        invariant
            i <= 3,
            lines@.len() == 2 + i,
            forall|j: int| 0 <= j < 2 + i ==> lines@[j]@ == unit_cell_lines(*cell)[j],
        decreases 3 - i,
    {
        let a = &cell.cell[i];
        let mut line = Text::from_str("  ");
        line.push_triple(a, "  ");
        lines.push(line);
        i += 1;
    }

    lines.push(Text::from_str("end unit_cell_cart"));
    assert(views(lines@) =~= unit_cell_lines(*cell));

    Text::join(&lines, "\n")
}

/// One atom as a line.
fn make_atom_line(coord: &AtomCoordinate) -> (line: Text)
    ensures
        line@ == atom_line(coord@),
{
    let mut line = Text::from_str(" ");
    line.push_str(coord.species.as_str());
    line.push_str(" ");
    line.push_triple(&coord.r, " ");
    line
}

/// Writes the atoms.
pub fn make_positions(input: &Input) -> (text: Text)
    ensures
        text@ == section(positions_lines(input@.positions)),
{
    let mut lines: Vec<Text> = Vec::new();

    let pos = &input.positions;
    match pos.coordinate_type {
        PositionCoordinateType::BohrCartesian => {
            lines.push(Text::from_str("begin atoms_cart"));
            lines.push(Text::from_str("bohr"));
        },
        PositionCoordinateType::AngstromCartesian => {
            lines.push(Text::from_str("begin atoms_cart"));
            lines.push(Text::from_str("ang"));
        },
        PositionCoordinateType::Crystal => {
            lines.push(Text::from_str("begin atoms_frac"));
        },
    }
    let ghost start = views(lines@);
    assert(start =~= positions_begin(pos.coordinate_type));

    let n = pos.coordinates.len();
    let mut i: usize = 0;
    while i < n
        invariant
            i <= n,
            n == pos.coordinates@.len(),
            lines@.len() == start.len() + i,
            forall|j: int| 0 <= j < start.len() ==> lines@[j]@ == start[j],
            forall|j: int|
                0 <= j < i ==> lines@[start.len() + j]@ == atom_line(pos.coordinates@[j]@),
        decreases n - i,
    {
        lines.push(make_atom_line(&pos.coordinates[i]));
        i += 1;
    }

    match pos.coordinate_type {
        PositionCoordinateType::BohrCartesian | PositionCoordinateType::AngstromCartesian => {
            lines.push(Text::from_str("end atoms_cart"));
        },
        PositionCoordinateType::Crystal => {
            lines.push(Text::from_str("end atoms_frac"));
        },
    }
    assert(views(lines@) =~= positions_lines(pos@));

    Text::join(&lines, "\n")
}

/// Writes the k-points: the shape of the grid of `input`, and the points
/// `kpoint_list`.
pub fn make_kpoints(input: &Input, kpoint_list: &Vec<[Real; 3]>) -> (text: Text)
    ensures
        text@ == section(kpoints_lines(input@.kpoints, kpoint_list@)),
{
    let nk = input.kpoints;

    let mut line = Text::from_str("mp_grid = ");
    line.push_decimal(nk[0]);
    line.push_str(" ");
    line.push_decimal(nk[1]);
    line.push_str(" ");
    line.push_decimal(nk[2]);
    let mut lines: Vec<Text> = Vec::new();
    lines.push(line);
    lines.push(Text::from_str("begin kpoints"));
    let ghost start = views(lines@);
    assert(start =~= seq![mp_grid_line(nk), chars("begin kpoints"@)]);

    let n = kpoint_list.len();
    let mut i: usize = 0;
    while i < n
        invariant
            i <= n,
            n == kpoint_list@.len(),
            lines@.len() == start.len() + i,
            forall|j: int| 0 <= j < start.len() ==> lines@[j]@ == start[j],
            forall|j: int| 0 <= j < i ==> lines@[start.len() + j]@ == triple(kpoint_list@[j], " "@),
        decreases n - i,
    {
        let mut line = Text::new();
        line.push_triple(&kpoint_list[i], " ");
        lines.push(line);
        i += 1;
    }

    lines.push(Text::from_str("end kpoints"));
    assert(views(lines@) =~= kpoints_lines(nk, kpoint_list@));
    Text::join(&lines, "\n")
}

} // verus!
