//! The matrix scanner and report transmitter, modelled as the ordered trace of
//! actions one scan pass performs.
//!
//! A pass services the USB bus, then visits column 0 and column 1 in turn:
//! each column is driven active, both rows are sampled while it is active, a
//! timed key-down / key-up report pair is emitted for every closed switch
//! found, and the column is driven inactive again before the next one starts.
//! The hardware loop outside this crate executes the actions in trace order:
//! it drives the column lines, pushes the reports on the USB endpoint and
//! performs the dwell holds.

use vstd::prelude::*;

use crate::keymap::usage_of;
use crate::keymap::KEY_D;
use crate::keymap::KEY_F;
use crate::keymap::KEY_J;
use crate::keymap::KEY_K;

verus! {

/// The HID polling interval advertised to the host, in milliseconds. A
/// transmitted report is held for this long (the dwell interval) so the host
/// polls the down state at least once before the matching release goes out.
pub const USB_HOST_POLL_MS: u8 = 10;

/// A snapshot of the switch matrix: whether each of the four switches is
/// closed. A row sample taken while column `c` is active reads the closure
/// state of the switch at (row, `c`).
#[derive(Clone, Copy, Debug, PartialEq, Eq)]
pub struct MatrixState {
    pub row0_col0: bool,
    pub row1_col0: bool,
    pub row0_col1: bool,
    pub row1_col1: bool,
}

impl MatrixState {
    /// Whether the switch at (`row`, `col`) is closed. Meaningful only for
    /// the four defined coordinates.
    pub open spec fn pressed(self, row: int, col: int) -> bool {
        if col == 0 {
            if row == 0 {
                self.row0_col0
            } else {
                self.row1_col0
            }
        } else {
            if row == 0 {
                self.row0_col1
            } else {
                self.row1_col1
            }
        }
    }

    /// The snapshot with every switch open.
    pub fn all_open() -> (m: MatrixState)
        ensures
            forall|row: int, col: int| !m.pressed(row, col),
    {
        MatrixState { row0_col0: false, row1_col0: false, row0_col1: false, row1_col1: false }
    }

    /// Read the closure state of the switch at (`row`, `col`).
    pub fn is_pressed(&self, row: u8, col: u8) -> (b: bool)
        requires
            row < 2,
            col < 2,
        ensures
            b == self.pressed(row as int, col as int),
    {
        if col == 0 {
            if row == 0 {
                self.row0_col0
            } else {
                self.row1_col0
            }
        } else {
            if row == 0 {
                self.row0_col1
            } else {
                self.row1_col1
            }
        }
    }
}

/// One step of a scan pass, in the order the device performs them.
#[derive(Clone, Copy, Debug, PartialEq, Eq)]
pub enum ScanAction {
    /// Service the USB bus so the host sees the device in time.
    PollUsb,
    /// Drive the given column line to its active level.
    Activate { col: u8 },
    /// Return the given column line to its inactive level.
    Deactivate { col: u8 },
    /// Transmit the report that announces `usage` as pressed.
    SendDown { usage: u8 },
    /// Transmit the all-zero report that announces every key released.
    SendUp,
    /// Hold for the given number of milliseconds.
    Dwell { ms: u32 },
}

/// The transmission sequence for one detected key: the key-down report, a
/// dwell of one host poll interval, the key-up report, and a second dwell.
pub open spec fn spec_tx(usage: u8) -> Seq<ScanAction> {
    seq![
        (ScanAction::SendDown { usage }),
        (ScanAction::Dwell { ms: USB_HOST_POLL_MS as u32 }),
        ScanAction::SendUp,
        (ScanAction::Dwell { ms: USB_HOST_POLL_MS as u32 }),
    ]
}

/// The transmission sequences of a batch of detected keys, in order.
pub open spec fn spec_tx_all(usages: Seq<u8>) -> Seq<ScanAction>
    decreases usages.len(),
{
    if usages.len() == 0 {
        Seq::empty()
    } else {
        spec_tx(usages[0]) + spec_tx_all(usages.drop_first())
    }
}

/// The usage codes a column phase detects, in row order: the code mapped to
/// (0, `col`) if row 0 sampled closed, then the code mapped to (1, `col`) if
/// row 1 sampled closed.
pub open spec fn spec_column_usages(col: u8, row0: bool, row1: bool) -> Seq<u8> {
    (if row0 {
        seq![usage_of(0, col as int)]
    } else {
        Seq::<u8>::empty()
    }) + (if row1 {
        seq![usage_of(1, col as int)]
    } else {
        Seq::<u8>::empty()
    })
}

/// One column phase: activate the column, transmit a down/up pair for every
/// switch sampled closed on it, deactivate the column.
pub open spec fn spec_column_phase(col: u8, row0: bool, row1: bool) -> Seq<ScanAction> {
    seq![(ScanAction::Activate { col })] + spec_tx_all(spec_column_usages(col, row0, row1))
        + seq![(ScanAction::Deactivate { col })]
}

/// A whole scan pass over the matrix snapshot `m`: service the bus, then the
/// column 0 phase, then the column 1 phase.
pub open spec fn spec_scan_pass(m: MatrixState) -> Seq<ScanAction> {
    seq![ScanAction::PollUsb] + spec_column_phase(0, m.pressed(0, 0), m.pressed(1, 0))
        + spec_column_phase(1, m.pressed(0, 1), m.pressed(1, 1))
}

/// Append the timed down/up transmission pair for one key.
fn append_tx(v: &mut Vec<ScanAction>, usage: u8)
    ensures
        final(v)@ == old(v)@ + spec_tx(usage),
{
    v.push(ScanAction::SendDown { usage });
    v.push(ScanAction::Dwell { ms: USB_HOST_POLL_MS as u32 });
    v.push(ScanAction::SendUp);
    v.push(ScanAction::Dwell { ms: USB_HOST_POLL_MS as u32 });
    proof {
        assert(v@ =~= old(v)@ + spec_tx(usage));
    }
}

/// The actions that press and release one key: transmit its key-down report,
/// hold one dwell interval, transmit the key-up report, hold again.
pub fn press_release_actions(usage: u8) -> (v: Vec<ScanAction>)
    ensures
        v@ == spec_tx(usage),
{
    let mut v: Vec<ScanAction> = Vec::new();
    append_tx(&mut v, usage);
    proof {
        assert(v@ =~= spec_tx(usage));
    }
    v
}

/// The usage codes to emit for column `col` given the two row samples taken
/// while it was active, in row order.
pub fn column_events(col: u8, row0: bool, row1: bool) -> (v: Vec<u8>)
    requires
        col < 2,
    ensures
        v@ == spec_column_usages(col, row0, row1),
{
    let mut v: Vec<u8> = Vec::new();
    if row0 {
        v.push(if col == 0 {
            KEY_D
        } else {
            KEY_J
        });
    }
    if row1 {
        v.push(if col == 0 {
            KEY_F
        } else {
            KEY_K
        });
    }
    proof {
        assert(v@ =~= spec_column_usages(col, row0, row1));
    }
    v
}

/// Append one column phase to a trace under construction.
fn append_column_phase(v: &mut Vec<ScanAction>, col: u8, row0: bool, row1: bool)
    requires
        col < 2,
    ensures
        final(v)@ == old(v)@ + spec_column_phase(col, row0, row1),
{
    v.push(ScanAction::Activate { col });
    let u0 = if col == 0 {
        KEY_D
    } else {
        KEY_J
    };
    let u1 = if col == 0 {
        KEY_F
    } else {
        KEY_K
    };
    if row0 {
        append_tx(v, u0);
    }
    if row1 {
        append_tx(v, u1);
    }
    v.push(ScanAction::Deactivate { col });
    proof {
        reveal_with_fuel(spec_tx_all, 3);
        let us = spec_column_usages(col, row0, row1);
        if row0 && row1 {
            assert(us =~= seq![u0, u1]);
            assert(us.drop_first() =~= seq![u1]);
            assert(seq![u1].drop_first() =~= Seq::<u8>::empty());
        } else if row0 {
            assert(us =~= seq![u0]);
            assert(us.drop_first() =~= Seq::<u8>::empty());
        } else if row1 {
            assert(us =~= seq![u1]);
            assert(us.drop_first() =~= Seq::<u8>::empty());
        } else {
            assert(us =~= Seq::<u8>::empty());
        }
        assert(v@ =~= old(v)@ + spec_column_phase(col, row0, row1));
    }
}

/// The full ordered action trace of one scan pass over the matrix snapshot
/// `m`: what the device does during one loop body while the matrix holds the
/// state `m`.
pub fn scan_pass_actions(m: &MatrixState) -> (v: Vec<ScanAction>)
    ensures
        v@ == spec_scan_pass(*m),
{
    let mut v: Vec<ScanAction> = Vec::new();
    v.push(ScanAction::PollUsb);
    append_column_phase(&mut v, 0, m.row0_col0, m.row1_col0);
    append_column_phase(&mut v, 1, m.row0_col1, m.row1_col1);
    proof {
        assert(v@ =~= spec_scan_pass(*m));
    }
    v
}

} // verus!
