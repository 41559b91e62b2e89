//! Facts about the TCode v0.3 wire format, proved over the payload
//! definitions that the encoder's contracts use.

use vstd::prelude::*;

use crate::decimal::{ascii_digit, decimal, zero_padded};
use crate::encoder::{
    axis_label, pair_count, position_line, position_lines, position_payload, timed_position_lines,
    timed_position_payload, vibrate_payload,
};

verus! {

/// `line` is the command line of axis `i` with a three-digit position:
/// the channel letter (`L` for the first three axes, `R` after), the
/// channel digit, three decimal digits and a newline.
pub open spec fn is_axis_line(line: Seq<u8>, i: nat) -> bool {
    &&& line.len() == 6
    &&& line[0] == if i < 3 { 76u8 } else { 82u8 }
    &&& line[1] == if i < 3 { ascii_digit(i) } else { ascii_digit((i - 3) as nat) }
    &&& forall|k: int| 2 <= k < 5 ==> 48u8 <= #[trigger] line[k] <= 57u8
    &&& line[5] == 10u8
}

proof fn lemma_decimal_digits(n: nat)
    ensures
        decimal(n).len() >= 1,
        forall|k: int| 0 <= k < decimal(n).len() ==> 48u8 <= #[trigger] decimal(n)[k] <= 57u8,
        n < 10 ==> decimal(n).len() == 1,
        n < 100 ==> decimal(n).len() <= 2,
        n < 1000 ==> decimal(n).len() <= 3,
    decreases n,
{
    if n >= 10 {
        lemma_decimal_digits(n / 10);
    }
}

proof fn lemma_padded_three_digits(n: nat)
    requires
        n <= 999,
    ensures
        zero_padded(n, 3).len() == 3,
        forall|k: int| 0 <= k < 3 ==> 48u8 <= #[trigger] zero_padded(n, 3)[k] <= 57u8,
{
    lemma_decimal_digits(n);
    let d = decimal(n);
    let p = zero_padded(n, 3);
    assert forall|k: int| 0 <= k < 3 implies 48u8 <= #[trigger] p[k] <= 57u8 by {
        if d.len() < 3 {
            let z = Seq::new((3 - d.len()) as nat, |_i: int| 48u8);
            if k >= z.len() {
                assert(p[k] == d[k - z.len()]);
            }
        }
    }
}

proof fn lemma_position_line_shape(i: nat, position: u32)
    requires
        i < 6,
        position <= 999,
    ensures
        is_axis_line(position_line(i, position), i),
{
    lemma_padded_three_digits(position as nat);
    let line = position_line(i, position);
    let pad = zero_padded(position as nat, 3);
    if i < 3 {
        assert(decimal(i) == seq![ascii_digit(i)]);
    } else {
        assert(decimal((i - 3) as nat) == seq![ascii_digit((i - 3) as nat)]);
    }
    assert(axis_label(i).len() == 2);
    assert forall|k: int| 2 <= k < 5 implies 48u8 <= #[trigger] line[k] <= 57u8 by {
        assert(line[k] == pad[k - 2]);
    }
}

proof fn lemma_position_lines_split(positions: Seq<u32>, n: nat)
    requires
        n <= positions.len() <= 6,
        forall|j: int| 0 <= j < positions.len() ==> positions[j] <= 999,
    ensures
        position_lines(positions, n).len() == 6 * n,
        forall|i: int|
            0 <= i < n ==> #[trigger] position_lines(positions, n).subrange(6 * i, 6 * i + 6)
                == position_line(i as nat, positions[i]),
    decreases n,
{
    if n > 0 {
        let m = (n - 1) as nat;
        lemma_position_lines_split(positions, m);
        lemma_position_line_shape(m, positions[m as int]);
        let prev = position_lines(positions, m);
        let all = position_lines(positions, n);
        assert forall|i: int| 0 <= i < n implies #[trigger] all.subrange(6 * i, 6 * i + 6)
            == position_line(i as nat, positions[i]) by {
            if i < m {
                assert(all.subrange(6 * i, 6 * i + 6) =~= prev.subrange(6 * i, 6 * i + 6));
            } else {
                assert(all.subrange(6 * i, 6 * i + 6) =~= position_line(m, positions[m as int]));
            }
        }
    }
}

/// For at most six axes with positions up to 999, a position payload is
/// six bytes per axis, and the `i`-th six-byte line is the line of axis
/// `i`: `L{i}` or `R{i-3}`, three digits, newline. So the payload has one
/// line per axis.
pub proof fn lemma_position_payload_lines(positions: Seq<u32>)
    requires
        positions.len() <= 6,
        forall|j: int| 0 <= j < positions.len() ==> positions[j] <= 999,
    ensures
        position_payload(positions).len() == 6 * positions.len(),
        forall|i: int|
            0 <= i < positions.len() ==> #[trigger] position_payload(positions).subrange(
                6 * i,
                6 * i + 6,
            ) == position_line(i as nat, positions[i]) && is_axis_line(
                position_line(i as nat, positions[i]),
                i as nat,
            ),
{
    lemma_position_lines_split(positions, positions.len());
    assert forall|i: int| 0 <= i < positions.len() implies is_axis_line(
        position_line(i as nat, positions[i]),
        i as nat,
    ) by {
        lemma_position_line_shape(i as nat, positions[i]);
    }
}

/// The encoder keeps no state: its payloads are functions of the inputs
/// alone, so equal inputs give byte-identical payloads for every command.
pub proof fn lemma_payloads_depend_on_inputs_only(
    positions1: Seq<u32>,
    positions2: Seq<u32>,
    durations1: Seq<u32>,
    durations2: Seq<u32>,
    feature_index1: u32,
    feature_index2: u32,
    speed1: u32,
    speed2: u32,
)
    requires
        positions1.len() == positions2.len(),
        forall|j: int| 0 <= j < positions1.len() ==> positions1[j] == positions2[j],
        durations1.len() == durations2.len(),
        forall|j: int| 0 <= j < durations1.len() ==> durations1[j] == durations2[j],
        feature_index1 == feature_index2,
        speed1 == speed2,
    ensures
        position_payload(positions1) == position_payload(positions2),
        timed_position_payload(positions1, durations1) == timed_position_payload(
            positions2,
            durations2,
        ),
        vibrate_payload(feature_index1, speed1) == vibrate_payload(feature_index2, speed2),
{
    assert(positions1 =~= positions2);
    assert(durations1 =~= durations2);
}

proof fn lemma_timed_lines_prefix(
    positions: Seq<u32>,
    durations: Seq<u32>,
    m: nat,
    n: nat,
)
    requires
        n <= m <= positions.len(),
        m <= durations.len(),
    ensures
        timed_position_lines(positions, durations, n) == timed_position_lines(
            positions.take(m as int),
            durations.take(m as int),
            n,
        ),
    decreases n,
{
    if n > 0 {
        lemma_timed_lines_prefix(positions, durations, m, (n - 1) as nat);
    }
}

/// Pairs are taken while both lists last: a timed payload is that of the
/// two lists cut to the shorter length.
pub proof fn lemma_timed_payload_truncates(positions: Seq<u32>, durations: Seq<u32>)
    ensures
        ({
            let m = pair_count(positions, durations);
            &&& timed_position_payload(positions, durations) == timed_position_payload(
                positions.take(m as int),
                durations.take(m as int),
            )
            &&& positions.take(m as int).len() == m
            &&& durations.take(m as int).len() == m
        }),
{
    let m = pair_count(positions, durations);
    lemma_timed_lines_prefix(positions, durations, m, m);
    assert(pair_count(positions.take(m as int), durations.take(m as int)) == m);
}

} // verus!
