//! Decoding undoes encoding.
//!
//! The proof follows the nibbles: the encoder writes one hexadecimal digit per nibble and
//! folds runs of equal digits into markers, and the decoder unfolds each run into the same
//! nibbles again. [`lemma_decode_inverts_encode`] is the statement; the rest leads up to it.

use vstd::prelude::*;
use super::{
    decode, decode_prefix, decode_step, fill, hex_value, initial_state, is_hex_digit,
    is_score_marker, is_unit_marker, marker_value, push_nibbles, DecodeState, MAX_DECODED_SIZE,
};
use super::encode::{
    compress_from, encode, hex_text, lemma_run_length_bounds, run_length, run_markers,
    score_marker, unit_marker, upper_digit, MAX_RUN,
};

verus! {

/// The state after feeding all characters of `s` to the decoder, starting from `st`.
pub open spec fn run_steps(st: DecodeState, s: Seq<char>, bytes_per_row: nat) -> DecodeState
    decreases s.len(),
{
    if s.len() == 0 {
        st
    } else {
        run_steps(decode_step(st, s[0], bytes_per_row), s.drop_first(), bytes_per_row)
    }
}

/// Feeding `a + b` is feeding `a` and then `b`.
pub proof fn lemma_run_steps_concat(st: DecodeState, a: Seq<char>, b: Seq<char>, bytes_per_row: nat)
    ensures
        run_steps(st, a + b, bytes_per_row) == run_steps(
            run_steps(st, a, bytes_per_row),
            b,
            bytes_per_row,
        ),
    decreases a.len(),
{
    if a.len() > 0 {
        assert((a + b).drop_first() =~= a.drop_first() + b);
        lemma_run_steps_concat(
            decode_step(st, a[0], bytes_per_row),
            a.drop_first(),
            b,
            bytes_per_row,
        );
    }
}

/// Feeding a single character is one step.
pub proof fn lemma_run_steps_one(st: DecodeState, c: char, bytes_per_row: nat)
    ensures
        run_steps(st, seq![c], bytes_per_row) == decode_step(st, c, bytes_per_row),
{
    let s = seq![c];
    assert(run_steps(decode_step(st, c, bytes_per_row), s.drop_first(), bytes_per_row)
        == decode_step(st, c, bytes_per_row));
}

/// The state after a prefix of the input is the state after feeding that prefix.
pub proof fn lemma_prefix_is_run_steps(text: Seq<char>, n: nat, bytes_per_row: nat)
    requires
        n <= text.len(),
    ensures
        decode_prefix(text, n, bytes_per_row) == run_steps(
            initial_state(),
            text.subrange(0, n as int),
            bytes_per_row,
        ),
    decreases n,
{
    if n > 0 {
        let head = text.subrange(0, n - 1);
        let last = seq![text[n - 1]];
        lemma_prefix_is_run_steps(text, (n - 1) as nat, bytes_per_row);
        assert(text.subrange(0, n as int) =~= head + last);
        lemma_run_steps_concat(initial_state(), head, last, bytes_per_row);
        lemma_run_steps_one(
            run_steps(initial_state(), head, bytes_per_row),
            text[n - 1],
            bytes_per_row,
        );
    }
}

/// Nibble `i` of the decoder's output: two per byte, then the waiting high nibble.
pub open spec fn nibble_at(out: Seq<u8>, high: Option<u8>, i: int) -> u8 {
    if i < 2 * out.len() {
        if i % 2 == 0 {
            out[i / 2] / 16
        } else {
            out[i / 2] % 16
        }
    } else {
        match high {
            Some(h) => h,
            None => 0,
        }
    }
}

/// All nibbles the decoder holds, in the order in which they arrived.
pub open spec fn nibbles(out: Seq<u8>, high: Option<u8>) -> Seq<u8> {
    Seq::new(
        2 * out.len() + if high is Some {
            1nat
        } else {
            0nat
        },
        |i: int| nibble_at(out, high, i),
    )
}

/// The values of the digits of a hexadecimal text.
pub open spec fn digit_values(text: Seq<char>) -> Seq<u8> {
    Seq::new(text.len(), |i: int| hex_value(text[i]))
}

/// The digits that the encoder writes: `0..9` and `A..F`.
pub open spec fn is_upper_digit(c: char) -> bool {
    ||| '0' as u32 <= c as u32 <= '9' as u32
    ||| 'A' as u32 <= c as u32 <= 'F' as u32
}

/// Below the cap, feeding `n` nibbles appends exactly those `n` nibbles.
pub proof fn lemma_push_nibbles_appends(out: Seq<u8>, high: Option<u8>, val: u8, n: nat)
    requires
        val < 16,
        high matches Some(h) ==> h < 16,
        nibbles(out, high).len() + n <= 2 * MAX_DECODED_SIZE,
    ensures
        ({
            let (out2, high2) = push_nibbles(out, high, val, n);
            &&& nibbles(out2, high2) == nibbles(out, high) + fill(val, n)
            &&& high2 matches Some(h) ==> h < 16
        }),
    decreases n,
{
    if n > 0 {
        match high {
            Some(h) => {
                let grown = out.push((h * 16 + val) as u8);
                assert(nibbles(grown, None) =~= nibbles(out, high) + seq![val]);
                lemma_push_nibbles_appends(grown, None, val, (n - 1) as nat);
            },
            None => {
                lemma_push_nibbles_appends(out, Some(val), val, (n - 1) as nat);
            },
        }
    }
}

/// All characters of a run are equal to its first.
pub proof fn lemma_run_uniform(text: Seq<char>, i: int, count: nat)
    requires
        0 <= i,
        1 <= count,
        i + count <= text.len(),
        forall|j: int| i <= j < i + count ==> text[j] == text[i],
    ensures
        forall|j: int| i <= j < i + run_length(text, i, count) ==> text[j] == text[i],
    decreases text.len() - i - count,
{
    if i + count < text.len() && text[i + count] == text[i] && count < MAX_RUN {
        lemma_run_uniform(text, i, count + 1);
    }
}

/// The markers of a run followed by its digit make the decoder feed the digit's nibble
/// as many times as the run is long.
pub proof fn lemma_decode_run(st: DecodeState, digit: char, count: nat, bytes_per_row: nat)
    requires
        st.multiplier == 0,
        is_upper_digit(digit),
        1 <= count <= MAX_RUN,
    ensures
        ({
            let (out, high) = push_nibbles(st.out, st.high, hex_value(digit), count);
            run_steps(st, run_markers(count) + seq![digit], bytes_per_row) == DecodeState {
                out,
                multiplier: 0,
                high,
                row_ended: false,
            }
        }),
{
    let bpr = bytes_per_row;
    let last = seq![digit];
    if count <= 1 {
        lemma_run_steps_one(st, digit, bpr);
    } else {
        let factor = count / 20;
        let units = count % 20;
        let st1 = if count >= 20 {
            decode_step(st, score_marker(factor), bpr)
        } else {
            st
        };
        let scores = if count >= 20 {
            seq![score_marker(factor)]
        } else {
            Seq::<char>::empty()
        };
        if count >= 20 {
            lemma_run_steps_one(st, score_marker(factor), bpr);
        }
        let st2 = if units > 0 {
            decode_step(st1, unit_marker(units), bpr)
        } else {
            st1
        };
        let ones = if units > 0 {
            seq![unit_marker(units)]
        } else {
            Seq::<char>::empty()
        };
        if units > 0 {
            lemma_run_steps_one(st1, unit_marker(units), bpr);
        }
        lemma_run_steps_concat(st, scores, ones, bpr);
        lemma_run_steps_concat(st, scores + ones, last, bpr);
        lemma_run_steps_one(st2, digit, bpr);
    }
}

/// From a state that holds the nibbles of `hex[..i]`, feeding the compressed form of
/// `hex[i..]` leads to a state that holds the nibbles of all of `hex`.
pub proof fn lemma_decode_compressed(st: DecodeState, hex: Seq<char>, i: int, bytes_per_row: nat)
    requires
        0 <= i <= hex.len() <= 2 * MAX_DECODED_SIZE,
        forall|j: int| 0 <= j < hex.len() ==> is_upper_digit(#[trigger] hex[j]),
        st.multiplier == 0,
        st.high matches Some(h) ==> h < 16,
        nibbles(st.out, st.high) == digit_values(hex.subrange(0, i)),
    ensures
        ({
            let end = run_steps(st, compress_from(hex, i), bytes_per_row);
            nibbles(end.out, end.high) == digit_values(hex)
        }),
    decreases hex.len() - i,
{
    if i < hex.len() {
        let count = run_length(hex, i, 1);
        lemma_run_length_bounds(hex, i, 1);
        lemma_run_uniform(hex, i, 1);
        let digit = hex[i];
        let val = hex_value(digit);
        let segment = run_markers(count) + seq![digit];
        let rest = compress_from(hex, i + count);
        lemma_run_steps_concat(st, segment, rest, bytes_per_row);
        assert(nibbles(st.out, st.high).len() == i);
        lemma_decode_run(st, digit, count, bytes_per_row);
        lemma_push_nibbles_appends(st.out, st.high, val, count);
        let st1 = run_steps(st, segment, bytes_per_row);
        assert(digit_values(hex.subrange(0, i + count)) =~= digit_values(hex.subrange(0, i))
            + fill(val, count));
        lemma_decode_compressed(st1, hex, i + count, bytes_per_row);
    }
}

/// The digit written for a nibble has that nibble as its value.
pub proof fn lemma_upper_digit_value(v: u8)
    requires
        v < 16,
    ensures
        is_upper_digit(upper_digit(v)),
        hex_value(upper_digit(v)) == v,
{
}

/// **Round trip.** Decoding the encoded form of a bitmap gives the bitmap back, whatever
/// row length the decoder is told, for every bitmap that fits under the decoder's cap.
pub proof fn lemma_decode_inverts_encode(bitmap: Seq<u8>, bytes_per_row: nat)
    requires
        bitmap.len() <= MAX_DECODED_SIZE,
    ensures
        decode(encode(bitmap), bytes_per_row) == bitmap,
{
    let hex = hex_text(bitmap);
    let text = encode(bitmap);
    lemma_prefix_is_run_steps(text, text.len(), bytes_per_row);
    assert(text.subrange(0, text.len() as int) =~= text);
    assert(nibbles(initial_state().out, initial_state().high) =~= digit_values(
        hex.subrange(0, 0),
    ));
    lemma_decode_compressed(initial_state(), hex, 0, bytes_per_row);
    let end = decode_prefix(text, text.len(), bytes_per_row);
    let all = nibbles(end.out, end.high);
    assert(all.len() == 2 * bitmap.len());
    assert forall|k: int| 0 <= k < bitmap.len() implies end.out[k] == bitmap[k] by {
        lemma_upper_digit_value(bitmap[k] / 16);
        lemma_upper_digit_value(bitmap[k] % 16);
        assert(all[2 * k] == end.out[k] / 16);
        assert(all[2 * k + 1] == end.out[k] % 16);
    }
}

} // verus!
