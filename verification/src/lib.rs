//! Core logic of a small USB keyboard: a 2x2 switch matrix is scanned one
//! column at a time, closed switches are mapped to fixed HID usage codes, and
//! each detected closure is emitted as a timed key-down / key-up report pair.
//!
//! Hardware access (GPIO lines, the USB bus, the delay timer) lives outside
//! this crate; this library decides what to drive, what to sample, which
//! reports to build and in what order to send them.

mod keymap;
mod laws;
mod report;
mod scan;

pub use keymap::coord_for_usage;
pub use keymap::lemma_keymap_injective;
pub use keymap::lemma_keymap_round_trip;
pub use keymap::spec_coord_of;
pub use keymap::usage_for;
pub use keymap::usage_of;
pub use keymap::KEY_D;
pub use keymap::KEY_F;
pub use keymap::KEY_J;
pub use keymap::KEY_K;
pub use laws::column_actions_of;
pub use laws::count_activations;
pub use laws::down_up_pairs;
pub use laws::downs_paced;
pub use laws::lemma_idle_passes_send_nothing;
pub use laws::lemma_pass_column_discipline;
pub use laws::lemma_pass_dwell_pacing;
pub use laws::lemma_pass_sends;
pub use laws::lemma_single_closed_switch;
pub use laws::pass_usages;
pub use laws::sends_of;
pub use laws::spec_scan_passes;
pub use report::KeyReport;
pub use scan::column_events;
pub use scan::press_release_actions;
pub use scan::scan_pass_actions;
pub use scan::spec_column_phase;
pub use scan::spec_column_usages;
pub use scan::spec_scan_pass;
pub use scan::spec_tx;
pub use scan::spec_tx_all;
pub use scan::MatrixState;
pub use scan::ScanAction;
pub use scan::USB_HOST_POLL_MS;
