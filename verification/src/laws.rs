//! The behavioural laws of a scan pass, stated and proved over the action
//! traces of the scanner: which reports a pass transmits, how the column
//! lines are sequenced, and how transmissions are paced.

use vstd::prelude::*;

use crate::keymap::usage_of;
use crate::scan::MatrixState;
use crate::scan::ScanAction;
use crate::scan::USB_HOST_POLL_MS;
use crate::scan::spec_column_usages;
use crate::scan::spec_column_phase;
use crate::scan::spec_scan_pass;
use crate::scan::spec_tx;
use crate::scan::spec_tx_all;

verus! {

/// Whether an action transmits a report.
pub open spec fn is_send(a: ScanAction) -> bool {
    a is SendDown || a is SendUp
}

/// Whether an action drives a column line.
pub open spec fn is_column_action(a: ScanAction) -> bool {
    a is Activate || a is Deactivate
}

/// The subsequence of report transmissions in a trace, in order.
pub open spec fn sends_of(s: Seq<ScanAction>) -> Seq<ScanAction>
    decreases s.len(),
{
    if s.len() == 0 {
        Seq::empty()
    } else if is_send(s[0]) {
        seq![s[0]] + sends_of(s.drop_first())
    } else {
        sends_of(s.drop_first())
    }
}

/// The subsequence of column drive actions in a trace, in order.
pub open spec fn column_actions_of(s: Seq<ScanAction>) -> Seq<ScanAction>
    decreases s.len(),
{
    if s.len() == 0 {
        Seq::empty()
    } else if is_column_action(s[0]) {
        seq![s[0]] + column_actions_of(s.drop_first())
    } else {
        column_actions_of(s.drop_first())
    }
}

/// How many column activations a trace performs.
pub open spec fn count_activations(s: Seq<ScanAction>) -> nat
    decreases s.len(),
{
    if s.len() == 0 {
        0
    } else {
        (if s[0] is Activate {
            1nat
        } else {
            0nat
        }) + count_activations(s.drop_first())
    }
}

/// The transmissions a batch of detected keys produces: one key-down report
/// and one key-up report per key, in order, with nothing in between.
pub open spec fn down_up_pairs(usages: Seq<u8>) -> Seq<ScanAction>
    decreases usages.len(),
{
    if usages.len() == 0 {
        Seq::empty()
    } else {
        seq![(ScanAction::SendDown { usage: usages[0] }), ScanAction::SendUp] + down_up_pairs(
            usages.drop_first(),
        )
    }
}

/// Every key-down transmission in the trace is followed, immediately, by a
/// dwell of one host poll interval, its matching key-up transmission, and a
/// second dwell.
pub open spec fn downs_paced(s: Seq<ScanAction>) -> bool {
    forall|i: int|
        0 <= i < s.len() && #[trigger] s[i] is SendDown ==> i + 3 < s.len() && s[i + 1]
            == (ScanAction::Dwell { ms: USB_HOST_POLL_MS as u32 }) && s[i + 2] is SendUp && s[i
            + 3] == (ScanAction::Dwell { ms: USB_HOST_POLL_MS as u32 })
}

proof fn lemma_sends_of_add(s1: Seq<ScanAction>, s2: Seq<ScanAction>)
    ensures
        sends_of(s1 + s2) == sends_of(s1) + sends_of(s2),
    decreases s1.len(),
{
    if s1.len() == 0 {
        assert(s1 + s2 =~= s2);
        assert(sends_of(s1) + sends_of(s2) =~= sends_of(s2));
    } else {
        assert((s1 + s2).drop_first() =~= s1.drop_first() + s2);
        lemma_sends_of_add(s1.drop_first(), s2);
        assert(sends_of(s1 + s2) =~= sends_of(s1) + sends_of(s2));
    }
}

proof fn lemma_column_actions_of_add(s1: Seq<ScanAction>, s2: Seq<ScanAction>)
    ensures
        column_actions_of(s1 + s2) == column_actions_of(s1) + column_actions_of(s2),
    decreases s1.len(),
{
    if s1.len() == 0 {
        assert(s1 + s2 =~= s2);
        assert(column_actions_of(s1) + column_actions_of(s2) =~= column_actions_of(s2));
    } else {
        assert((s1 + s2).drop_first() =~= s1.drop_first() + s2);
        lemma_column_actions_of_add(s1.drop_first(), s2);
        assert(column_actions_of(s1 + s2) =~= column_actions_of(s1) + column_actions_of(s2));
    }
}

proof fn lemma_count_activations_add(s1: Seq<ScanAction>, s2: Seq<ScanAction>)
    ensures
        count_activations(s1 + s2) == count_activations(s1) + count_activations(s2),
    decreases s1.len(),
{
    if s1.len() == 0 {
        assert(s1 + s2 =~= s2);
    } else {
        assert((s1 + s2).drop_first() =~= s1.drop_first() + s2);
        lemma_count_activations_add(s1.drop_first(), s2);
    }
}

proof fn lemma_down_up_pairs_add(u1: Seq<u8>, u2: Seq<u8>)
    ensures
        down_up_pairs(u1 + u2) == down_up_pairs(u1) + down_up_pairs(u2),
    decreases u1.len(),
{
    if u1.len() == 0 {
        assert(u1 + u2 =~= u2);
        assert(down_up_pairs(u1) + down_up_pairs(u2) =~= down_up_pairs(u2));
    } else {
        assert((u1 + u2).drop_first() =~= u1.drop_first() + u2);
        lemma_down_up_pairs_add(u1.drop_first(), u2);
        assert(down_up_pairs(u1 + u2) =~= down_up_pairs(u1) + down_up_pairs(u2));
    }
}

proof fn lemma_paced_add(s1: Seq<ScanAction>, s2: Seq<ScanAction>)
    requires
        downs_paced(s1),
        downs_paced(s2),
    ensures
        downs_paced(s1 + s2),
{
    let s = s1 + s2;
    assert forall|i: int|
        0 <= i < s.len() && #[trigger] s[i] is SendDown implies i + 3 < s.len() && s[i + 1]
        == (ScanAction::Dwell { ms: USB_HOST_POLL_MS as u32 }) && s[i + 2] is SendUp && s[i + 3]
        == (ScanAction::Dwell { ms: USB_HOST_POLL_MS as u32 }) by {
        if i < s1.len() {
            assert(s1[i] is SendDown);
            assert(i + 3 < s1.len());
        } else {
            let j = i - s1.len();
            assert(s2[j] is SendDown);
            assert(j + 3 < s2.len());
        }
    }
}

/// What one key's transmission sequence contributes to each view of a trace.
proof fn lemma_tx_facts(usage: u8)
    ensures
        sends_of(spec_tx(usage)) == seq![(ScanAction::SendDown { usage }), ScanAction::SendUp],
        column_actions_of(spec_tx(usage)) == Seq::<ScanAction>::empty(),
        count_activations(spec_tx(usage)) == 0,
        downs_paced(spec_tx(usage)),
{
    reveal_with_fuel(sends_of, 6);
    reveal_with_fuel(column_actions_of, 6);
    reveal_with_fuel(count_activations, 6);
    let s = spec_tx(usage);
    assert(s.drop_first() =~= seq![
        (ScanAction::Dwell { ms: USB_HOST_POLL_MS as u32 }),
        ScanAction::SendUp,
        (ScanAction::Dwell { ms: USB_HOST_POLL_MS as u32 }),
    ]);
    assert(s.drop_first().drop_first() =~= seq![
        ScanAction::SendUp,
        (ScanAction::Dwell { ms: USB_HOST_POLL_MS as u32 }),
    ]);
    assert(s.drop_first().drop_first().drop_first() =~= seq![
        (ScanAction::Dwell { ms: USB_HOST_POLL_MS as u32 }),
    ]);
    assert(s.drop_first().drop_first().drop_first().drop_first() =~= Seq::<ScanAction>::empty());
    assert(sends_of(s) =~= seq![(ScanAction::SendDown { usage }), ScanAction::SendUp]);
    assert(column_actions_of(s) =~= Seq::<ScanAction>::empty());
    assert forall|i: int|
        0 <= i < s.len() && #[trigger] s[i] is SendDown implies i + 3 < s.len() && s[i + 1]
        == (ScanAction::Dwell { ms: USB_HOST_POLL_MS as u32 }) && s[i + 2] is SendUp && s[i + 3]
        == (ScanAction::Dwell { ms: USB_HOST_POLL_MS as u32 }) by {
        assert(i == 0);
    }
}

/// What a batch of transmissions contributes to each view of a trace.
proof fn lemma_tx_all_facts(usages: Seq<u8>)
    ensures
        sends_of(spec_tx_all(usages)) == down_up_pairs(usages),
        column_actions_of(spec_tx_all(usages)) == Seq::<ScanAction>::empty(),
        count_activations(spec_tx_all(usages)) == 0,
        downs_paced(spec_tx_all(usages)),
    decreases usages.len(),
{
    if usages.len() == 0 {
        assert(downs_paced(Seq::<ScanAction>::empty()));
    } else {
        let head = spec_tx(usages[0]);
        let tail = spec_tx_all(usages.drop_first());
        lemma_tx_facts(usages[0]);
        lemma_tx_all_facts(usages.drop_first());
        lemma_sends_of_add(head, tail);
        lemma_column_actions_of_add(head, tail);
        lemma_count_activations_add(head, tail);
        lemma_paced_add(head, tail);
        assert(sends_of(spec_tx_all(usages)) =~= down_up_pairs(usages));
        assert(column_actions_of(spec_tx_all(usages)) =~= Seq::<ScanAction>::empty());
    }
}

/// What one column phase contributes to each view of a trace.
proof fn lemma_column_phase_facts(col: u8, row0: bool, row1: bool)
    ensures
        sends_of(spec_column_phase(col, row0, row1)) == down_up_pairs(
            spec_column_usages(col, row0, row1),
        ),
        column_actions_of(spec_column_phase(col, row0, row1)) == seq![
            (ScanAction::Activate { col }),
            (ScanAction::Deactivate { col }),
        ],
        count_activations(spec_column_phase(col, row0, row1)) == 1,
        downs_paced(spec_column_phase(col, row0, row1)),
{
    reveal_with_fuel(sends_of, 2);
    reveal_with_fuel(column_actions_of, 2);
    reveal_with_fuel(count_activations, 2);
    let act = seq![(ScanAction::Activate { col })];
    let deact = seq![(ScanAction::Deactivate { col })];
    let mid = spec_tx_all(spec_column_usages(col, row0, row1));
    lemma_tx_all_facts(spec_column_usages(col, row0, row1));
    assert(act.drop_first() =~= Seq::<ScanAction>::empty());
    assert(deact.drop_first() =~= Seq::<ScanAction>::empty());
    assert(downs_paced(act));
    assert(downs_paced(deact));
    lemma_sends_of_add(act, mid);
    lemma_sends_of_add(act + mid, deact);
    lemma_column_actions_of_add(act, mid);
    lemma_column_actions_of_add(act + mid, deact);
    lemma_count_activations_add(act, mid);
    lemma_count_activations_add(act + mid, deact);
    lemma_paced_add(act, mid);
    lemma_paced_add(act + mid, deact);
    assert(sends_of(spec_column_phase(col, row0, row1)) =~= down_up_pairs(
        spec_column_usages(col, row0, row1),
    ));
    assert(column_actions_of(spec_column_phase(col, row0, row1)) =~= seq![
        (ScanAction::Activate { col }),
        (ScanAction::Deactivate { col }),
    ]);
}

/// The usage codes one whole pass over the snapshot `m` detects, in scan
/// order: column 0's closed switches first, then column 1's, rows in order
/// within each column.
pub open spec fn pass_usages(m: MatrixState) -> Seq<u8> {
    spec_column_usages(0, m.pressed(0, 0), m.pressed(1, 0)) + spec_column_usages(
        1,
        m.pressed(0, 1),
        m.pressed(1, 1),
    )
}

/// Law: a scan pass transmits exactly one key-down / key-up report pair for
/// every switch found closed, in scan order, and transmits nothing else.
pub proof fn lemma_pass_sends(m: MatrixState)
    ensures
        sends_of(spec_scan_pass(m)) == down_up_pairs(pass_usages(m)),
{
    reveal_with_fuel(sends_of, 2);
    let poll = seq![ScanAction::PollUsb];
    let ph0 = spec_column_phase(0, m.pressed(0, 0), m.pressed(1, 0));
    let ph1 = spec_column_phase(1, m.pressed(0, 1), m.pressed(1, 1));
    let us0 = spec_column_usages(0, m.pressed(0, 0), m.pressed(1, 0));
    let us1 = spec_column_usages(1, m.pressed(0, 1), m.pressed(1, 1));
    lemma_column_phase_facts(0, m.pressed(0, 0), m.pressed(1, 0));
    lemma_column_phase_facts(1, m.pressed(0, 1), m.pressed(1, 1));
    assert(poll.drop_first() =~= Seq::<ScanAction>::empty());
    lemma_sends_of_add(poll, ph0);
    lemma_sends_of_add(poll + ph0, ph1);
    lemma_down_up_pairs_add(us0, us1);
    assert(sends_of(spec_scan_pass(m)) =~= down_up_pairs(pass_usages(m)));
}

/// Law: a scan pass activates a column exactly twice — column 0 then column 1
/// — and each activation is followed by the deactivation of that same column
/// before the other column is activated, so no two columns are ever driven at
/// once.
pub proof fn lemma_pass_column_discipline(m: MatrixState)
    ensures
        column_actions_of(spec_scan_pass(m)) == seq![
            (ScanAction::Activate { col: 0 }),
            (ScanAction::Deactivate { col: 0 }),
            (ScanAction::Activate { col: 1 }),
            (ScanAction::Deactivate { col: 1 }),
        ],
        count_activations(spec_scan_pass(m)) == 2,
{
    reveal_with_fuel(column_actions_of, 2);
    reveal_with_fuel(count_activations, 2);
    let poll = seq![ScanAction::PollUsb];
    let ph0 = spec_column_phase(0, m.pressed(0, 0), m.pressed(1, 0));
    let ph1 = spec_column_phase(1, m.pressed(0, 1), m.pressed(1, 1));
    lemma_column_phase_facts(0, m.pressed(0, 0), m.pressed(1, 0));
    lemma_column_phase_facts(1, m.pressed(0, 1), m.pressed(1, 1));
    assert(poll.drop_first() =~= Seq::<ScanAction>::empty());
    lemma_column_actions_of_add(poll, ph0);
    lemma_column_actions_of_add(poll + ph0, ph1);
    lemma_count_activations_add(poll, ph0);
    lemma_count_activations_add(poll + ph0, ph1);
    assert(column_actions_of(spec_scan_pass(m)) =~= seq![
        (ScanAction::Activate { col: 0 }),
        (ScanAction::Deactivate { col: 0 }),
        (ScanAction::Activate { col: 1 }),
        (ScanAction::Deactivate { col: 1 }),
    ]);
}

/// Law: in every scan pass, each key-down transmission is followed,
/// immediately, by a dwell of one host poll interval, its matching key-up
/// transmission, and a second dwell — the interval between a key-down report
/// and its key-up report is the configured dwell interval.
pub proof fn lemma_pass_dwell_pacing(m: MatrixState)
    ensures
        downs_paced(spec_scan_pass(m)),
{
    let poll = seq![ScanAction::PollUsb];
    let ph0 = spec_column_phase(0, m.pressed(0, 0), m.pressed(1, 0));
    let ph1 = spec_column_phase(1, m.pressed(0, 1), m.pressed(1, 1));
    lemma_column_phase_facts(0, m.pressed(0, 0), m.pressed(1, 0));
    lemma_column_phase_facts(1, m.pressed(0, 1), m.pressed(1, 1));
    assert(downs_paced(poll));
    lemma_paced_add(poll, ph0);
    lemma_paced_add(poll + ph0, ph1);
}

/// Law: a pass over a matrix with exactly one switch closed transmits exactly
/// one key-down / key-up pair, for the usage code mapped to that switch, and
/// no report for any other key.
pub proof fn lemma_single_closed_switch(m: MatrixState, row: u8, col: u8)
    requires
        row < 2,
        col < 2,
        m.pressed(row as int, col as int),
        forall|r: int, c: int|
            0 <= r < 2 && 0 <= c < 2 && !(r == row && c == col) ==> !m.pressed(r, c),
    ensures
        sends_of(spec_scan_pass(m)) == seq![
            (ScanAction::SendDown { usage: usage_of(row as int, col as int) }),
            ScanAction::SendUp,
        ],
{
    reveal_with_fuel(down_up_pairs, 3);
    lemma_pass_sends(m);
    assert(pass_usages(m) =~= seq![usage_of(row as int, col as int)]);
    let us = seq![usage_of(row as int, col as int)];
    assert(us.drop_first() =~= Seq::<u8>::empty());
    assert(down_up_pairs(us) =~= seq![
        (ScanAction::SendDown { usage: usage_of(row as int, col as int) }),
        ScanAction::SendUp,
    ]);
}

/// Repeated scan passes over one unchanged snapshot, concatenated in order.
pub open spec fn spec_scan_passes(m: MatrixState, n: nat) -> Seq<ScanAction>
    decreases n,
{
    if n == 0 {
        Seq::empty()
    } else {
        spec_scan_pass(m) + spec_scan_passes(m, (n - 1) as nat)
    }
}

/// Law: scanning an unchanged all-open matrix any number of times transmits
/// nothing at all.
pub proof fn lemma_idle_passes_send_nothing(m: MatrixState, n: nat)
    requires
        forall|r: int, c: int| 0 <= r < 2 && 0 <= c < 2 ==> !m.pressed(r, c),
    ensures
        sends_of(spec_scan_passes(m, n)) == Seq::<ScanAction>::empty(),
    decreases n,
{
    if n == 0 {
    } else {
        lemma_pass_sends(m);
        assert(pass_usages(m) =~= Seq::<u8>::empty());
        lemma_idle_passes_send_nothing(m, (n - 1) as nat);
        lemma_sends_of_add(spec_scan_pass(m), spec_scan_passes(m, (n - 1) as nat));
        assert(sends_of(spec_scan_passes(m, n)) =~= Seq::<ScanAction>::empty());
    }
}

} // verus!
