//! Scanning a wall for ledges that the player can hang from.
//!
//! Ray origins stand in a grid of `rows` by `columns` in front of the
//! player. Every cell `(column, row)` with `row < rows - 1` is tested for a
//! ledge, columns in order and rows in order within a column, by up to four
//! probes:
//! 1. a ray forward from the cell's origin must hit a wall;
//! 2. a ray forward from the origin one row up, just past the wall's face,
//!    must hit nothing (there is room above the ledge);
//! 3. a ray down from the end of the second ray must hit the ledge's top;
//! 4. the player's body placed at the hold must not overlap the ground.
//!
//! A cell holds a hand hold exactly when all four probes come out that way;
//! a probe that comes out otherwise ends the cell's test.
//!
//! The probes themselves are physics queries made by the caller: the scan
//! says which probe to make next, and takes its outcome back.
use vstd::prelude::*;

verus! {

/// The size of the grid of ray origins.
#[derive(Clone, Copy, Debug)]
pub struct ScanGrid {
    pub columns: usize,
    pub rows: usize,
}

impl ScanGrid {
    /// A grid that can be scanned: where it has columns it has rows.
    pub open spec fn valid(self) -> bool {
        self.columns == 0 || self.rows >= 1
    }

    /// The number of rows tested in each column (the top row only serves
    /// the probes of the row below it).
    pub open spec fn tested_rows(self) -> nat {
        if self.rows == 0 {
            0
        } else {
            (self.rows - 1) as nat
        }
    }

    /// The number of cells tested.
    pub open spec fn cell_count(self) -> nat {
        (self.columns as nat) * self.tested_rows()
    }
}

/// The probe a cell's test is at.
#[derive(Clone, Copy, Debug, PartialEq, Eq, Structural)]
pub enum ScanPhase {
    Wall,
    Clearance,
    Floor,
    Fit,
}

/// The outcome of a probe: whether the ray or the body shape met the ground.
#[derive(Clone, Copy, Debug, PartialEq, Eq, Structural)]
pub enum ProbeOutcome {
    Hit,
    Miss,
}

/// What the scan asks the caller to do next. `column` and `row` index the
/// grid of ray origins.
#[derive(Clone, Copy, Debug, PartialEq, Eq, Structural)]
pub enum ScanRequest {
    /// Cast a ray forward from the origin at (`column`, `row`).
    CastWall { column: usize, row: usize },
    /// Cast a ray forward from the origin at (`column`, `row`), as long as
    /// the wall ray's distance plus the least ledge depth.
    CastClearance { column: usize, row: usize },
    /// Cast a ray down from the end of the clearance ray, which started at
    /// the origin at (`column`, `row`).
    CastFloor { column: usize, row: usize },
    /// Place the player's body at the hold found for the cell
    /// (`column`, `row`) and test it against the ground.
    CheckFit { column: usize, row: usize },
    /// Every cell has been tested.
    Finished,
}

/// What one step of the scan hands back.
#[derive(Clone, Copy, Debug)]
pub struct ScanStep {
    /// The next thing to do.
    pub request: ScanRequest,
    /// Whether the cell just tested holds a hand hold, to be kept.
    pub accept: bool,
}

/// The abstract state of a scan: the grid, and the cell and probe it is at,
/// or `None` once every cell has been tested.
pub struct ScanView {
    pub grid: ScanGrid,
    pub at: Option<(nat, nat, ScanPhase)>,
}

/// A scan of a grid of ray origins for ledges.
pub struct LedgeScan {
    grid: ScanGrid,
    column: usize,
    row: usize,
    phase: ScanPhase,
    finished: bool,
}

/// The rank of a probe within a cell's test.
pub open spec fn phase_rank(phase: ScanPhase) -> nat {
    match phase {
        ScanPhase::Wall => 0,
        ScanPhase::Clearance => 1,
        ScanPhase::Floor => 2,
        ScanPhase::Fit => 3,
    }
}

/// The index of the cell (`column`, `row`) in the order of the scan.
pub open spec fn cell_index(grid: ScanGrid, column: nat, row: nat) -> nat {
    column * grid.tested_rows() + row
}

/// How far the scan has come: four steps per cell, one per probe. It grows
/// with every step and reaches `4 * cell_count` when the scan is finished.
pub open spec fn progress(v: ScanView) -> nat {
    match v.at {
        None => 4 * v.grid.cell_count(),
        Some((c, r, p)) => 4 * cell_index(v.grid, c, r) + phase_rank(p),
    }
}

/// A scan state that can occur: a valid grid, and a cell inside it.
pub open spec fn view_wf(v: ScanView) -> bool {
    &&& v.grid.valid()
    &&& match v.at {
        None => true,
        Some((c, r, _)) => c < v.grid.columns && r < v.grid.tested_rows(),
    }
}

/// The first probe of the cell after (`column`, `row`), or the end of the
/// scan after the last cell.
pub open spec fn next_cell(grid: ScanGrid, column: nat, row: nat) -> Option<(nat, nat, ScanPhase)> {
    if row + 1 < grid.tested_rows() {
        Some((column, (row + 1) as nat, ScanPhase::Wall))
    } else if column + 1 < grid.columns {
        Some(((column + 1) as nat, 0, ScanPhase::Wall))
    } else {
        None
    }
}

/// Where the scan goes after the probe it is at came out as `outcome`.
pub open spec fn advance_at(grid: ScanGrid, at: Option<(nat, nat, ScanPhase)>, outcome: ProbeOutcome) -> Option<
    (nat, nat, ScanPhase),
> {
    match at {
        None => None,
        Some((c, r, p)) => match (p, outcome) {
            (ScanPhase::Wall, ProbeOutcome::Hit) => Some((c, r, ScanPhase::Clearance)),
            (ScanPhase::Clearance, ProbeOutcome::Miss) => Some((c, r, ScanPhase::Floor)),
            (ScanPhase::Floor, ProbeOutcome::Hit) => Some((c, r, ScanPhase::Fit)),
            _ => next_cell(grid, c, r),
        },
    }
}

/// Whether the probe the scan is at, coming out as `outcome`, completes a
/// hand hold: the body fits at the hold.
pub open spec fn accepts(at: Option<(nat, nat, ScanPhase)>, outcome: ProbeOutcome) -> bool {
    match at {
        Some((_, _, ScanPhase::Fit)) => outcome == ProbeOutcome::Miss,
        _ => false,
    }
}

/// The request that goes with a scan state.
pub open spec fn request_at(at: Option<(nat, nat, ScanPhase)>) -> ScanRequest {
    match at {
        None => ScanRequest::Finished,
        Some((c, r, ScanPhase::Wall)) => ScanRequest::CastWall { column: c as usize, row: r as usize },
        Some((c, r, ScanPhase::Clearance)) => ScanRequest::CastClearance {
            column: c as usize,
            row: (r + 1) as usize,
        },
        Some((c, r, ScanPhase::Floor)) => ScanRequest::CastFloor {
            column: c as usize,
            row: (r + 1) as usize,
        },
        Some((c, r, ScanPhase::Fit)) => ScanRequest::CheckFit { column: c as usize, row: r as usize },
    }
}

/// A request names only origins inside the grid.
pub open spec fn request_in_grid(request: ScanRequest, grid: ScanGrid) -> bool {
    match request {
        ScanRequest::CastWall { column, row } => column < grid.columns && row < grid.rows,
        ScanRequest::CastClearance { column, row } => column < grid.columns && row < grid.rows,
        ScanRequest::CastFloor { column, row } => column < grid.columns && row < grid.rows,
        ScanRequest::CheckFit { column, row } => column < grid.columns && row < grid.rows,
        ScanRequest::Finished => true,
    }
}

impl View for LedgeScan {
    type V = ScanView;

    closed spec fn view(&self) -> ScanView {
        ScanView {
            grid: self.grid,
            at: if self.finished {
                None
            } else {
                Some((self.column as nat, self.row as nat, self.phase))
            },
        }
    }
}

proof fn lemma_next_cell_index(grid: ScanGrid, column: nat, row: nat)
    requires
        column < grid.columns,
        row < grid.tested_rows(),
    ensures
        match next_cell(grid, column, row) {
            None => cell_index(grid, column, row) + 1 == grid.cell_count(),
            Some((c, r, p)) => {
                &&& c < grid.columns
                &&& r < grid.tested_rows()
                &&& p == ScanPhase::Wall
                &&& cell_index(grid, c, r) == cell_index(grid, column, row) + 1
            },
        },
{
    let h = grid.tested_rows();
    assert((column + 1) * h == column * h + h) by (nonlinear_arith);
    if column + 1 >= grid.columns {
        assert(column + 1 == grid.columns);
    }
}

proof fn lemma_cell_in_range(grid: ScanGrid, column: nat, row: nat)
    requires
        column < grid.columns,
        row < grid.tested_rows(),
    ensures
        cell_index(grid, column, row) < grid.cell_count(),
{
    let h = grid.tested_rows();
    assert(column * h + row < grid.columns * h) by (nonlinear_arith)
        requires
            column < grid.columns,
            row < h,
    ;
}

impl LedgeScan {
    /// The state is one that can occur.
    pub closed spec fn wf(&self) -> bool {
        &&& view_wf(self@)
        &&& (self.finished ==> self.column == 0 && self.row == 0 && self.phase == ScanPhase::Wall)
    }

    /// Starts a scan of `grid`, and returns it with its first request: the
    /// wall ray of cell (0, 0), or `Finished` where the grid has no cell to
    /// test.
    pub fn new(grid: ScanGrid) -> (res: (LedgeScan, ScanRequest))
        requires
            grid.valid(),
        ensures
            res.0.wf(),
            res.0@.grid == grid,
            res.0@.at == (if grid.cell_count() == 0 {
                None
            } else {
                Some((0nat, 0nat, ScanPhase::Wall))
            }),
            res.1 == request_at(res.0@.at),
    {
        let empty = grid.columns == 0 || grid.rows <= 1;
        proof {
            if !empty {
                assert(grid.cell_count() > 0) by (nonlinear_arith)
                    requires
                        grid.columns >= 1,
                        grid.tested_rows() >= 1,
                        grid.cell_count() == grid.columns * grid.tested_rows(),
                ;
            }
        }
        let scan = LedgeScan { grid, column: 0, row: 0, phase: ScanPhase::Wall, finished: empty };
        let request = if empty {
            ScanRequest::Finished
        } else {
            ScanRequest::CastWall { column: 0, row: 0 }
        };
        (scan, request)
    }

    /// Takes the outcome of the probe the scan asked for, moves on, and says
    /// what to do next and whether the cell just tested holds a hand hold.
    pub fn advance(&mut self, outcome: ProbeOutcome) -> (step: ScanStep)
        requires
            old(self).wf(),
        ensures
            final(self).wf(),
            final(self)@.grid == old(self)@.grid,
            final(self)@.at == advance_at(old(self)@.grid, old(self)@.at, outcome),
            step.request == request_at(final(self)@.at),
            step.accept == accepts(old(self)@.at, outcome),
    {
        if self.finished {
            return ScanStep { request: ScanRequest::Finished, accept: false };
        }
        let accept = self.phase == ScanPhase::Fit && outcome == ProbeOutcome::Miss;
        let stay = match (self.phase, outcome) {
            (ScanPhase::Wall, ProbeOutcome::Hit) => Some(ScanPhase::Clearance),
            (ScanPhase::Clearance, ProbeOutcome::Miss) => Some(ScanPhase::Floor),
            (ScanPhase::Floor, ProbeOutcome::Hit) => Some(ScanPhase::Fit),
            _ => None,
        };
        match stay {
            Some(phase) => {
                self.phase = phase;
            },
            None => {
                if self.row + 1 < self.grid.rows - 1 {
                    self.row = self.row + 1;
                } else if self.column + 1 < self.grid.columns {
                    self.column = self.column + 1;
                    self.row = 0;
                } else {
                    self.column = 0;
                    self.row = 0;
                    self.finished = true;
                }
                self.phase = ScanPhase::Wall;
            },
        }
        let request = if self.finished {
            ScanRequest::Finished
        } else {
            match self.phase {
                ScanPhase::Wall => ScanRequest::CastWall { column: self.column, row: self.row },
                ScanPhase::Clearance => ScanRequest::CastClearance {
                    column: self.column,
                    row: self.row + 1,
                },
                ScanPhase::Floor => ScanRequest::CastFloor { column: self.column, row: self.row + 1 },
                ScanPhase::Fit => ScanRequest::CheckFit { column: self.column, row: self.row },
            }
        };
        ScanStep { request, accept }
    }
}

/// Every step of an unfinished scan moves it forward, and never past the
/// end: the scan ends after at most four steps per cell.
pub proof fn lemma_scan_progresses(v: ScanView, outcome: ProbeOutcome)
    requires
        view_wf(v),
        v.at is Some,
    ensures
        progress(v) < progress(ScanView { grid: v.grid, at: advance_at(v.grid, v.at, outcome) }),
        progress(ScanView { grid: v.grid, at: advance_at(v.grid, v.at, outcome) }) <= 4
            * v.grid.cell_count(),
        view_wf(ScanView { grid: v.grid, at: advance_at(v.grid, v.at, outcome) }),
{
    let (c, r, p) = v.at->0;
    lemma_next_cell_index(v.grid, c, r);
    lemma_cell_in_range(v.grid, c, r);
    if let Some((c2, r2, _)) = next_cell(v.grid, c, r) {
        lemma_cell_in_range(v.grid, c2, r2);
    }
}

/// When a cell's test ends, the scan moves to the very next cell in order
/// (same column, next row; or next column, first row), starting with its
/// wall ray; so every cell is tested once, in order.
pub proof fn lemma_cells_in_order(v: ScanView, outcome: ProbeOutcome)
    requires
        view_wf(v),
        v.at is Some,
        advance_at(v.grid, v.at, outcome) matches Some((_, _, ScanPhase::Wall)),
    ensures
        ({
            let (c, r, _) = v.at->0;
            let (c2, r2, _) = advance_at(v.grid, v.at, outcome)->0;
            cell_index(v.grid, c2, r2) == cell_index(v.grid, c, r) + 1
        }),
{
    let (c, r, p) = v.at->0;
    lemma_next_cell_index(v.grid, c, r);
}

/// A hand hold is accepted only at the last probe of a cell, after the wall
/// was hit, the room above it found clear and the ledge's top hit; and
/// only where the body fits there.
pub proof fn lemma_accept_only_on_fit(v: ScanView, outcome: ProbeOutcome)
    requires
        accepts(v.at, outcome),
    ensures
        v.at matches Some((c, r, ScanPhase::Fit)) && advance_at(v.grid, v.at, outcome) == next_cell(
            v.grid,
            c,
            r,
        ),
        outcome == ProbeOutcome::Miss,
{
}

/// Every request of a scan names origins inside the grid.
pub proof fn lemma_requests_in_grid(v: ScanView)
    requires
        view_wf(v),
    ensures
        request_in_grid(request_at(v.at), v.grid),
{
}

/// The outcome each probe must have for the cell to hold a hand hold: the
/// wall ray hits, the clearance ray misses, the floor ray hits, the body
/// shape meets nothing.
pub open spec fn expected_outcome(phase: ScanPhase) -> ProbeOutcome {
    match phase {
        ScanPhase::Wall => ProbeOutcome::Hit,
        ScanPhase::Clearance => ProbeOutcome::Miss,
        ScanPhase::Floor => ProbeOutcome::Hit,
        ScanPhase::Fit => ProbeOutcome::Miss,
    }
}

/// One step of the scan, in terms of the order of the cells. At cell
/// (`c`, `r`), probe `p`:
/// - where the probe comes out as a ledge needs and is not the last one,
///   the scan stays at the cell and goes to the next probe;
/// - otherwise the cell's test ends, and the scan goes to the wall probe of
///   the very next cell in order, or, after the last cell only, finishes;
/// - the cell is accepted exactly when its last probe (the body's fit)
///   comes out as a ledge needs.
///
/// So no outcome at any cell ends the scan early or skips a cell.
pub proof fn lemma_scan_step(v: ScanView, outcome: ProbeOutcome)
    requires
        view_wf(v),
        v.at is Some,
    ensures
        ({
            let (c, r, p) = v.at->0;
            let next = advance_at(v.grid, v.at, outcome);
            let index = cell_index(v.grid, c, r);
            &&& (outcome == expected_outcome(p) && p != ScanPhase::Fit) ==> (next matches Some((
                c2,
                r2,
                p2,
            )) && c2 == c && r2 == r && phase_rank(p2) == phase_rank(p) + 1)
            &&& !(outcome == expected_outcome(p) && p != ScanPhase::Fit) ==> {
                &&& next is None <==> index + 1 == v.grid.cell_count()
                &&& next matches Some((c2, r2, p2)) ==> {
                    &&& p2 == ScanPhase::Wall
                    &&& c2 < v.grid.columns
                    &&& r2 < v.grid.tested_rows()
                    &&& cell_index(v.grid, c2, r2) == index + 1
                }
            }
            &&& accepts(v.at, outcome) <==> (p == ScanPhase::Fit && outcome == expected_outcome(
                ScanPhase::Fit,
            ))
        }),
{
    let (c, r, p) = v.at->0;
    lemma_next_cell_index(v.grid, c, r);
    lemma_cell_in_range(v.grid, c, r);
    if let Some((c2, r2, _)) = next_cell(v.grid, c, r) {
        lemma_cell_in_range(v.grid, c2, r2);
    }
}

/// A finished scan has no more steps: every further outcome leaves it
/// finished, with nothing accepted.
pub proof fn lemma_finished_stays_finished(grid: ScanGrid, outcome: ProbeOutcome)
    ensures
        advance_at(grid, None, outcome) is None,
        !accepts(None, outcome),
{
}

} // verus!
