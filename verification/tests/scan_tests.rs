use keymatrix::KeyReport;
use keymatrix::MatrixState;
use keymatrix::ScanAction;
use keymatrix::USB_HOST_POLL_MS;
use keymatrix::column_events;
use keymatrix::coord_for_usage;
use keymatrix::press_release_actions;
use keymatrix::scan_pass_actions;
use keymatrix::usage_for;

fn sends(trace: &[ScanAction]) -> Vec<ScanAction> {
    trace
        .iter()
        .copied()
        .filter(|a| matches!(a, ScanAction::SendDown { .. } | ScanAction::SendUp))
        .collect()
}

fn matrix_with(row: u8, col: u8) -> MatrixState {
    MatrixState {
        row0_col0: row == 0 && col == 0,
        row1_col0: row == 1 && col == 0,
        row0_col1: row == 0 && col == 1,
        row1_col1: row == 1 && col == 1,
    }
}

#[test]
fn keymap_matches_layout() {
    assert_eq!(usage_for(0, 0), Some(0x07));
    assert_eq!(usage_for(1, 0), Some(0x09));
    assert_eq!(usage_for(0, 1), Some(0x0d));
    assert_eq!(usage_for(1, 1), Some(0x0e));
}

#[test]
fn keymap_rejects_undefined_coordinates() {
    assert_eq!(usage_for(2, 0), None);
    assert_eq!(usage_for(0, 2), None);
    assert_eq!(usage_for(255, 255), None);
}

#[test]
fn keymap_round_trips_through_reverse_table() {
    for row in 0..2u8 {
        for col in 0..2u8 {
            let usage = usage_for(row, col).unwrap();
            assert_eq!(coord_for_usage(usage), Some((row, col)));
        }
    }
}

#[test]
fn reverse_table_rejects_unmapped_codes() {
    assert_eq!(coord_for_usage(0x00), None);
    assert_eq!(coord_for_usage(0x04), None);
    assert_eq!(coord_for_usage(0xff), None);
}

#[test]
fn key_down_report_fills_first_slot_only() {
    let r = KeyReport::key_down(0x07);
    assert_eq!(r.modifier, 0);
    assert_eq!(r.reserved, 0);
    assert_eq!(r.leds, 0);
    assert_eq!(r.keycodes, [0x07, 0, 0, 0, 0, 0]);
}

#[test]
fn released_report_is_all_zero() {
    let r = KeyReport::released();
    assert_eq!(r.to_bytes(), vec![0u8; 9]);
}

#[test]
fn report_wire_bytes_follow_fixed_layout() {
    let r = KeyReport { modifier: 2, reserved: 0, leds: 1, keycodes: [4, 5, 6, 7, 8, 9] };
    assert_eq!(r.to_bytes(), vec![2, 0, 1, 4, 5, 6, 7, 8, 9]);
}

#[test]
fn press_release_holds_one_dwell_between_down_and_up() {
    let v = press_release_actions(0x0d);
    assert_eq!(
        v,
        vec![
            ScanAction::SendDown { usage: 0x0d },
            ScanAction::Dwell { ms: USB_HOST_POLL_MS as u32 },
            ScanAction::SendUp,
            ScanAction::Dwell { ms: USB_HOST_POLL_MS as u32 },
        ]
    );
}

#[test]
fn column_events_reports_closed_rows_in_order() {
    assert_eq!(column_events(0, false, false), Vec::<u8>::new());
    assert_eq!(column_events(0, true, false), vec![0x07]);
    assert_eq!(column_events(0, false, true), vec![0x09]);
    assert_eq!(column_events(0, true, true), vec![0x07, 0x09]);
    assert_eq!(column_events(1, true, true), vec![0x0d, 0x0e]);
}

#[test]
fn single_closed_switch_sends_one_pair_and_nothing_else() {
    let expected = [0x07u8, 0x09, 0x0d, 0x0e];
    let mut k = 0;
    for col in 0..2u8 {
        for row in 0..2u8 {
            let trace = scan_pass_actions(&matrix_with(row, col));
            assert_eq!(
                sends(&trace),
                vec![ScanAction::SendDown { usage: expected[k] }, ScanAction::SendUp]
            );
            k += 1;
        }
    }
}

#[test]
fn pass_activates_each_column_once_and_releases_it_first() {
    let m = MatrixState { row0_col0: true, row1_col0: true, row0_col1: true, row1_col1: true };
    let cols: Vec<ScanAction> = scan_pass_actions(&m)
        .into_iter()
        .filter(|a| matches!(a, ScanAction::Activate { .. } | ScanAction::Deactivate { .. }))
        .collect();
    assert_eq!(
        cols,
        vec![
            ScanAction::Activate { col: 0 },
            ScanAction::Deactivate { col: 0 },
            ScanAction::Activate { col: 1 },
            ScanAction::Deactivate { col: 1 },
        ]
    );
}

#[test]
fn idle_matrix_sends_nothing_on_every_pass() {
    let m = MatrixState::all_open();
    let first = scan_pass_actions(&m);
    assert_eq!(sends(&first), Vec::<ScanAction>::new());
    for _ in 0..10 {
        let again = scan_pass_actions(&m);
        assert_eq!(sends(&again), Vec::<ScanAction>::new());
        assert_eq!(again, first);
    }
}

#[test]
fn every_down_is_paced_by_the_poll_interval() {
    let m = MatrixState { row0_col0: true, row1_col0: false, row0_col1: true, row1_col1: true };
    let trace = scan_pass_actions(&m);
    let dwell = ScanAction::Dwell { ms: USB_HOST_POLL_MS as u32 };
    let mut downs = 0;
    for (i, a) in trace.iter().enumerate() {
        if let ScanAction::SendDown { .. } = a {
            downs += 1;
            assert!(i + 3 < trace.len());
            assert_eq!(trace[i + 1], dwell);
            assert_eq!(trace[i + 2], ScanAction::SendUp);
            assert_eq!(trace[i + 3], dwell);
        }
    }
    assert_eq!(downs, 3);
}

#[test]
fn pass_starts_with_usb_poll() {
    let trace = scan_pass_actions(&MatrixState::all_open());
    assert_eq!(trace[0], ScanAction::PollUsb);
}

#[test]
fn all_four_closed_sends_pairs_in_scan_order() {
    let m = MatrixState { row0_col0: true, row1_col0: true, row0_col1: true, row1_col1: true };
    let trace = scan_pass_actions(&m);
    assert_eq!(
        sends(&trace),
        vec![
            ScanAction::SendDown { usage: 0x07 },
            ScanAction::SendUp,
            ScanAction::SendDown { usage: 0x09 },
            ScanAction::SendUp,
            ScanAction::SendDown { usage: 0x0d },
            ScanAction::SendUp,
            ScanAction::SendDown { usage: 0x0e },
            ScanAction::SendUp,
        ]
    );
}

#[test]
fn matrix_sampling_reads_the_addressed_switch() {
    let m = MatrixState { row0_col0: false, row1_col0: true, row0_col1: false, row1_col1: true };
    assert!(!m.is_pressed(0, 0));
    assert!(m.is_pressed(1, 0));
    assert!(!m.is_pressed(0, 1));
    assert!(m.is_pressed(1, 1));
}
