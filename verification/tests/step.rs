use gpio_keyboard::error::KeyboardError;
use gpio_keyboard::step::ScanStep;

/// The operations of one cycle in which every line takes what it is asked.
fn cycle(rows: usize, cols: usize) -> Vec<ScanStep> {
    let mut steps = vec![];
    let mut step = ScanStep::first(cols);
    while step != ScanStep::Finished {
        steps.push(step);
        step = step.after(true, rows, cols).unwrap();
        assert!(steps.len() <= cols * (rows + 2));
    }
    steps
}

#[test]
fn cycle_of_two_by_two_runs_in_column_major_order() {
    assert_eq!(
        cycle(2, 2),
        vec![
            ScanStep::Enable(0),
            ScanStep::Sample(0, 0),
            ScanStep::Sample(1, 0),
            ScanStep::Disable(0),
            ScanStep::Enable(1),
            ScanStep::Sample(0, 1),
            ScanStep::Sample(1, 1),
            ScanStep::Disable(1),
        ]
    );
}

#[test]
fn cycle_has_every_operation_of_every_column_once() {
    for rows in 0..5 {
        for cols in 0..5 {
            let steps = cycle(rows, cols);
            assert_eq!(steps.len(), cols * (rows + 2));
            for col in 0..cols {
                let start = col * (rows + 2);
                assert_eq!(steps[start], ScanStep::Enable(col));
                for row in 0..rows {
                    assert_eq!(steps[start + 1 + row], ScanStep::Sample(row, col));
                }
                assert_eq!(steps[start + rows + 1], ScanStep::Disable(col));
            }
        }
    }
}

#[test]
fn first_step_enables_the_first_column() {
    assert_eq!(ScanStep::first(1), ScanStep::Enable(0));
    assert_eq!(ScanStep::first(7), ScanStep::Enable(0));
    assert_eq!(ScanStep::first(0), ScanStep::Finished);
}

#[test]
fn refused_operation_ends_the_cycle_with_its_error() {
    assert_eq!(ScanStep::Enable(0).after(false, 2, 2), Err(KeyboardError::SetColumnHigh));
    assert_eq!(ScanStep::Enable(1).after(false, 2, 2), Err(KeyboardError::SetColumnHigh));
    assert_eq!(ScanStep::Sample(0, 0).after(false, 2, 2), Err(KeyboardError::GetRow));
    assert_eq!(ScanStep::Sample(1, 1).after(false, 2, 2), Err(KeyboardError::GetRow));
    assert_eq!(ScanStep::Disable(0).after(false, 2, 2), Err(KeyboardError::SetColumnLow));
    assert_eq!(ScanStep::Disable(1).after(false, 2, 2), Err(KeyboardError::SetColumnLow));
}

#[test]
fn taken_operation_leads_to_the_next() {
    assert_eq!(ScanStep::Enable(0).after(true, 2, 2), Ok(ScanStep::Sample(0, 0)));
    assert_eq!(ScanStep::Sample(0, 0).after(true, 2, 2), Ok(ScanStep::Sample(1, 0)));
    assert_eq!(ScanStep::Sample(1, 0).after(true, 2, 2), Ok(ScanStep::Disable(0)));
    assert_eq!(ScanStep::Disable(0).after(true, 2, 2), Ok(ScanStep::Enable(1)));
    assert_eq!(ScanStep::Disable(1).after(true, 2, 2), Ok(ScanStep::Finished));
    // a matrix without rows strobes its columns all the same
    assert_eq!(ScanStep::Enable(0).after(true, 0, 2), Ok(ScanStep::Disable(0)));
}

#[test]
fn end_of_the_cycle_stays() {
    assert_eq!(ScanStep::Finished.after(true, 2, 2), Ok(ScanStep::Finished));
    assert_eq!(ScanStep::Finished.after(false, 2, 2), Ok(ScanStep::Finished));
}
