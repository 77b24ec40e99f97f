use climber::scan::{LedgeScan, ProbeOutcome, ScanGrid, ScanRequest};

/// Runs a scan, answering each request with `answer`, and returns the
/// requests made and the cells accepted.
fn run(grid: ScanGrid, answer: impl Fn(ScanRequest) -> ProbeOutcome) -> (Vec<ScanRequest>, Vec<(usize, usize)>) {
    let (mut scan, mut request) = LedgeScan::new(grid);
    let mut requests = Vec::new();
    let mut accepted = Vec::new();
    while request != ScanRequest::Finished {
        requests.push(request);
        let step = scan.advance(answer(request));
        if step.accept {
            match request {
                ScanRequest::CheckFit { column, row } => accepted.push((column, row)),
                _ => panic!("accepted outside a fit check"),
            }
        }
        request = step.request;
        assert!(requests.len() < 10_000);
    }
    (requests, accepted)
}

#[test]
fn empty_grids_finish_at_once() {
    for grid in [
        ScanGrid { columns: 0, rows: 0 },
        ScanGrid { columns: 0, rows: 5 },
        ScanGrid { columns: 4, rows: 1 },
    ] {
        let (mut scan, request) = LedgeScan::new(grid);
        assert_eq!(request, ScanRequest::Finished);
        let step = scan.advance(ProbeOutcome::Hit);
        assert_eq!(step.request, ScanRequest::Finished);
        assert!(!step.accept);
    }
}

#[test]
fn no_wall_visits_every_cell_in_order() {
    let grid = ScanGrid { columns: 2, rows: 3 };
    let (requests, accepted) = run(grid, |_| ProbeOutcome::Miss);
    assert_eq!(
        requests,
        vec![
            ScanRequest::CastWall { column: 0, row: 0 },
            ScanRequest::CastWall { column: 0, row: 1 },
            ScanRequest::CastWall { column: 1, row: 0 },
            ScanRequest::CastWall { column: 1, row: 1 },
        ]
    );
    assert!(accepted.is_empty());
}

#[test]
fn full_ledge_goes_through_all_probes() {
    let grid = ScanGrid { columns: 1, rows: 2 };
    let (requests, accepted) = run(grid, |r| match r {
        ScanRequest::CastWall { .. } => ProbeOutcome::Hit,
        ScanRequest::CastClearance { .. } => ProbeOutcome::Miss,
        ScanRequest::CastFloor { .. } => ProbeOutcome::Hit,
        ScanRequest::CheckFit { .. } => ProbeOutcome::Miss,
        ScanRequest::Finished => unreachable!(),
    });
    assert_eq!(
        requests,
        vec![
            ScanRequest::CastWall { column: 0, row: 0 },
            ScanRequest::CastClearance { column: 0, row: 1 },
            ScanRequest::CastFloor { column: 0, row: 1 },
            ScanRequest::CheckFit { column: 0, row: 0 },
        ]
    );
    assert_eq!(accepted, vec![(0, 0)]);
}

#[test]
fn blocked_body_is_not_accepted() {
    let grid = ScanGrid { columns: 1, rows: 2 };
    let (requests, accepted) = run(grid, |r| match r {
        ScanRequest::CastClearance { .. } => ProbeOutcome::Miss,
        _ => ProbeOutcome::Hit,
    });
    assert_eq!(requests.len(), 4);
    assert!(accepted.is_empty());
}

#[test]
fn wall_above_ends_the_cell() {
    let grid = ScanGrid { columns: 1, rows: 3 };
    let (requests, accepted) = run(grid, |_| ProbeOutcome::Hit);
    assert_eq!(
        requests,
        vec![
            ScanRequest::CastWall { column: 0, row: 0 },
            ScanRequest::CastClearance { column: 0, row: 1 },
            ScanRequest::CastWall { column: 0, row: 1 },
            ScanRequest::CastClearance { column: 0, row: 2 },
        ]
    );
    assert!(accepted.is_empty());
}

#[test]
fn missing_floor_ends_the_cell() {
    let grid = ScanGrid { columns: 2, rows: 2 };
    let (requests, accepted) = run(grid, |r| match r {
        ScanRequest::CastWall { .. } => ProbeOutcome::Hit,
        _ => ProbeOutcome::Miss,
    });
    assert_eq!(
        requests,
        vec![
            ScanRequest::CastWall { column: 0, row: 0 },
            ScanRequest::CastClearance { column: 0, row: 1 },
            ScanRequest::CastFloor { column: 0, row: 1 },
            ScanRequest::CastWall { column: 1, row: 0 },
            ScanRequest::CastClearance { column: 1, row: 1 },
            ScanRequest::CastFloor { column: 1, row: 1 },
        ]
    );
    assert!(accepted.is_empty());
}

#[test]
fn ledges_found_where_the_wall_ends() {
    // A wall two rows high in column 0 and three rows high in column 2;
    // column 1 has no wall.
    let grid = ScanGrid { columns: 3, rows: 5 };
    let height = |column: usize| match column {
        0 => 2,
        1 => 0,
        _ => 3,
    };
    let (requests, accepted) = run(grid, |r| match r {
        ScanRequest::CastWall { column, row } => {
            if row < height(column) { ProbeOutcome::Hit } else { ProbeOutcome::Miss }
        }
        ScanRequest::CastClearance { column, row } => {
            if row < height(column) { ProbeOutcome::Hit } else { ProbeOutcome::Miss }
        }
        ScanRequest::CastFloor { .. } => ProbeOutcome::Hit,
        ScanRequest::CheckFit { .. } => ProbeOutcome::Miss,
        ScanRequest::Finished => unreachable!(),
    });
    assert_eq!(accepted, vec![(0, 1), (2, 2)]);
    let walls = requests.iter().filter(|r| matches!(r, ScanRequest::CastWall { .. })).count();
    assert_eq!(walls, 12);
    for r in &requests {
        match *r {
            ScanRequest::CastWall { column, row }
            | ScanRequest::CastClearance { column, row }
            | ScanRequest::CastFloor { column, row }
            | ScanRequest::CheckFit { column, row } => assert!(column < 3 && row < 5),
            ScanRequest::Finished => unreachable!(),
        }
    }
}

#[test]
fn finished_scan_stays_finished() {
    let (mut scan, _) = LedgeScan::new(ScanGrid { columns: 1, rows: 2 });
    let step = scan.advance(ProbeOutcome::Miss);
    assert_eq!(step.request, ScanRequest::Finished);
    for outcome in [ProbeOutcome::Hit, ProbeOutcome::Miss] {
        let step = scan.advance(outcome);
        assert_eq!(step.request, ScanRequest::Finished);
        assert!(!step.accept);
    }
}
