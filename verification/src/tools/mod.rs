//! The run-length bitmap codec of the raw-graphic command.
//!
//! The compressed form is text. Hexadecimal digits carry the data, two per byte with the
//! high nibble first. The letters `G..Y` and `g..z` are repeat markers that add up and apply
//! to the next hexadecimal digit, and `:`, `,` and `!` finish rows when the row length is known.
//!
//! [`decode`] is the mathematical meaning of a compressed text and [`zpl_decode`] computes it.
//! The inverse direction lives in [`encode`], and [`roundtrip`] proves that the two agree.

use vstd::prelude::*;
use crate::text::chars_of;

pub mod encode;
pub mod roundtrip;

pub use encode::zpl_encode;

verus! {

/// The decoder never produces more than this many bytes: repeated digits, fills and
/// copied rows all stop at it.
pub const MAX_DECODED_SIZE: usize = 10485760;

/// The most nibbles one hexadecimal digit can stand for, whatever multiplier precedes it.
pub const MAX_DIGIT_REPEAT: usize = 10000;

/// The most whole rows one `:` can add, whatever multiplier precedes it.
pub const MAX_ROW_REPEAT: usize = 1000;

/// What the decoder remembers between two characters of input.
pub struct DecodeState {
    /// The bytes produced so far.
    pub out: Seq<u8>,
    /// The sum of the repeat markers seen since the last digit or row character.
    pub multiplier: nat,
    /// A high nibble that still waits for its low nibble.
    pub high: Option<u8>,
    /// Whether the last meaningful character was a row character.
    pub row_ended: bool,
}

/// The state before any input is read.
pub open spec fn initial_state() -> DecodeState {
    DecodeState { out: Seq::empty(), multiplier: 0, high: None, row_ended: false }
}

/// `G..Y` stand for 1..19.
pub open spec fn is_unit_marker(c: char) -> bool {
    'G' as u32 <= c as u32 <= 'Y' as u32
}

/// `g..z` stand for 20, 40, .. 400.
pub open spec fn is_score_marker(c: char) -> bool {
    'g' as u32 <= c as u32 <= 'z' as u32
}

/// The amount a repeat marker adds to the multiplier.
pub open spec fn marker_value(c: char) -> nat {
    if is_unit_marker(c) {
        (c as u32 - 'G' as u32 + 1) as nat
    } else if is_score_marker(c) {
        ((c as u32 - 'g' as u32 + 1) * 20) as nat
    } else {
        0
    }
}

/// Hexadecimal digits in either case.
pub open spec fn is_hex_digit(c: char) -> bool {
    ||| '0' as u32 <= c as u32 <= '9' as u32
    ||| 'A' as u32 <= c as u32 <= 'F' as u32
    ||| 'a' as u32 <= c as u32 <= 'f' as u32
}

/// The value 0..15 of a hexadecimal digit.
pub open spec fn hex_value(c: char) -> u8 {
    if '0' as u32 <= c as u32 <= '9' as u32 {
        (c as u32 - '0' as u32) as u8
    } else if 'A' as u32 <= c as u32 <= 'F' as u32 {
        (c as u32 - 'A' as u32 + 10) as u8
    } else if 'a' as u32 <= c as u32 <= 'f' as u32 {
        (c as u32 - 'a' as u32 + 10) as u8
    } else {
        0
    }
}

/// A multiplier of zero means "once"; anything above `cap` means `cap`.
pub open spec fn effective_count(multiplier: nat, cap: nat) -> nat {
    if multiplier == 0 {
        1
    } else if multiplier > cap {
        cap
    } else {
        multiplier
    }
}

/// `n` copies of `byte`.
pub open spec fn fill(byte: u8, n: nat) -> Seq<u8> {
    Seq::new(n, |i: int| byte)
}

/// A waiting high nibble is written out with `low` as its low nibble.
pub open spec fn flush_high(out: Seq<u8>, high: Option<u8>, low: u8) -> Seq<u8> {
    match high {
        Some(h) => out.push((h * 16 + low) as u8),
        None => out,
    }
}

/// Feeds the nibble `val` up to `n` times, pairing nibbles into bytes, and stops early
/// when the output has reached `MAX_DECODED_SIZE` bytes.
pub open spec fn push_nibbles(out: Seq<u8>, high: Option<u8>, val: u8, n: nat) -> (Seq<u8>, Option<u8>)
    decreases n,
{
    if n == 0 || out.len() >= MAX_DECODED_SIZE {
        (out, high)
    } else {
        match high {
            Some(h) => push_nibbles(out.push((h * 16 + val) as u8), None, val, (n - 1) as nat),
            None => push_nibbles(out, Some(val), val, (n - 1) as nat),
        }
    }
}

/// Appends `row` up to `n` times, and stops before the copy that would take the output
/// beyond `MAX_DECODED_SIZE` bytes.
pub open spec fn append_rows(out: Seq<u8>, row: Seq<u8>, n: nat) -> Seq<u8>
    decreases n,
{
    if n == 0 || out.len() + row.len() > MAX_DECODED_SIZE {
        out
    } else {
        append_rows(out + row, row, (n - 1) as nat)
    }
}

/// The number of bytes that still fit under the cap.
pub open spec fn room(out: Seq<u8>) -> nat {
    if out.len() >= MAX_DECODED_SIZE {
        0
    } else {
        (MAX_DECODED_SIZE - out.len()) as nat
    }
}

/// `wanted` bytes, or as many as still fit under the cap.
pub open spec fn fitting(out: Seq<u8>, wanted: nat) -> nat {
    if wanted > room(out) {
        room(out)
    } else {
        wanted
    }
}

/// Ends the current row with `byte`: a started row is filled up to its end, and on a
/// row boundary a whole row is added if the previous character ended a row as well.
/// The fill stops at the cap.
pub open spec fn pad_row(out: Seq<u8>, bytes_per_row: nat, byte: u8, row_ended: bool) -> Seq<u8> {
    if bytes_per_row == 0 {
        out
    } else if out.len() % bytes_per_row != 0 {
        out + fill(byte, fitting(out, (bytes_per_row - out.len() % bytes_per_row) as nat))
    } else if row_ended {
        out + fill(byte, fitting(out, bytes_per_row))
    } else {
        out
    }
}

/// Finishes a started row with the bytes that stand at the same columns of the row
/// above, or with zeros where there is no row above. The row stops at the cap.
pub open spec fn complete_row(out: Seq<u8>, bytes_per_row: nat) -> Seq<u8>
    recommends
        bytes_per_row > 0,
        out.len() % bytes_per_row != 0,
{
    let pos = out.len() % bytes_per_row;
    let missing = fitting(out, (bytes_per_row - pos) as nat);
    if out.len() - pos >= bytes_per_row {
        out + out.subrange(out.len() - bytes_per_row, out.len() - bytes_per_row + missing)
    } else {
        out + fill(0, missing)
    }
}

/// The last complete row of `out`, or a row of zeros if `out` is shorter than a row.
pub open spec fn last_row(out: Seq<u8>, bytes_per_row: nat) -> Seq<u8> {
    if out.len() >= bytes_per_row {
        out.subrange(out.len() - bytes_per_row, out.len() as int)
    } else {
        fill(0, bytes_per_row)
    }
}

/// The effect of `:` on the output, once a waiting high nibble has been flushed:
/// a started row is completed from the row above, which counts as the first repeat,
/// and the last row is then repeated for the rest of the multiplier.
pub open spec fn repeat_row(out: Seq<u8>, multiplier: nat, bytes_per_row: nat) -> Seq<u8> {
    if bytes_per_row == 0 {
        out
    } else {
        let total = if multiplier == 0 { 1 } else { multiplier };
        let started = out.len() % bytes_per_row != 0;
        let out1 = if started { complete_row(out, bytes_per_row) } else { out };
        let done: nat = if started { 1 } else { 0 };
        if done < total {
            let left = (total - done) as nat;
            let copies = if left > MAX_ROW_REPEAT { MAX_ROW_REPEAT as nat } else { left };
            append_rows(out1, last_row(out1, bytes_per_row), copies)
        } else {
            out1
        }
    }
}

/// The state after one more character of input.
pub open spec fn decode_step(st: DecodeState, c: char, bytes_per_row: nat) -> DecodeState {
    if is_unit_marker(c) || is_score_marker(c) {
        DecodeState { multiplier: st.multiplier + marker_value(c), ..st }
    } else if c == ':' {
        DecodeState {
            out: repeat_row(flush_high(st.out, st.high, 0), st.multiplier, bytes_per_row),
            multiplier: 0,
            high: None,
            row_ended: true,
        }
    } else if is_hex_digit(c) {
        let count = effective_count(st.multiplier, MAX_DIGIT_REPEAT as nat);
        let (out, high) = push_nibbles(st.out, st.high, hex_value(c), count);
        DecodeState { out, multiplier: 0, high, row_ended: false }
    } else if c == ',' {
        DecodeState {
            out: pad_row(flush_high(st.out, st.high, 0), bytes_per_row, 0x00, st.row_ended),
            multiplier: 0,
            high: None,
            row_ended: true,
        }
    } else if c == '!' {
        DecodeState {
            out: pad_row(flush_high(st.out, st.high, 0x0F), bytes_per_row, 0xFF, st.row_ended),
            multiplier: 0,
            high: None,
            row_ended: true,
        }
    } else {
        st
    }
}

/// The state after the first `n` characters of `text`.
pub open spec fn decode_prefix(text: Seq<char>, n: nat, bytes_per_row: nat) -> DecodeState
    decreases n,
{
    if n == 0 {
        initial_state()
    } else {
        decode_step(
            decode_prefix(text, (n - 1) as nat, bytes_per_row),
            text[n - 1],
            bytes_per_row,
        )
    }
}

/// The bytes that a compressed text stands for: the output after all of its characters,
/// with a high nibble left waiting at the end written out as `nibble * 16`.
pub open spec fn decode(text: Seq<char>, bytes_per_row: nat) -> Seq<u8> {
    let st = decode_prefix(text, text.len(), bytes_per_row);
    flush_high(st.out, st.high, 0)
}

/// What holds of every state the decoder can reach: nibbles are below 16, the output
/// is within the cap, and a high nibble only waits below the cap.
pub open spec fn state_bounded(st: DecodeState, bytes_per_row: nat) -> bool {
    &&& st.out.len() <= MAX_DECODED_SIZE
    &&& st.high matches Some(h) ==> h < 16 && st.out.len() < MAX_DECODED_SIZE
}

/// `push_nibbles` never passes the cap, and leaves a nibble waiting only below it.
pub proof fn lemma_push_nibbles_bounded(out: Seq<u8>, high: Option<u8>, val: u8, n: nat)
    requires
        val < 16,
        high matches Some(h) ==> h < 16 && out.len() < MAX_DECODED_SIZE,
        out.len() <= MAX_DECODED_SIZE,
    ensures
        push_nibbles(out, high, val, n).0.len() <= MAX_DECODED_SIZE,
        push_nibbles(out, high, val, n).1 matches Some(h) ==> h < 16 && push_nibbles(
            out,
            high,
            val,
            n,
        ).0.len() < MAX_DECODED_SIZE,
    decreases n,
{
    if n > 0 && out.len() < MAX_DECODED_SIZE {
        match high {
            Some(h) => lemma_push_nibbles_bounded(
                out.push((h * 16 + val) as u8),
                None,
                val,
                (n - 1) as nat,
            ),
            None => lemma_push_nibbles_bounded(out, Some(val), val, (n - 1) as nat),
        }
    }
}

/// `append_rows` only ever adds, and never passes the cap by doing so.
pub proof fn lemma_append_rows_bounded(out: Seq<u8>, row: Seq<u8>, n: nat)
    ensures
        append_rows(out, row, n).len() >= out.len(),
        append_rows(out, row, n).len() <= out.len() || append_rows(out, row, n).len()
            <= MAX_DECODED_SIZE,
    decreases n,
{
    if n > 0 && out.len() + row.len() <= MAX_DECODED_SIZE {
        lemma_append_rows_bounded(out + row, row, (n - 1) as nat);
    }
}

/// One step keeps a bounded state bounded.
pub proof fn lemma_step_bounded(st: DecodeState, c: char, bytes_per_row: nat)
    requires
        state_bounded(st, bytes_per_row),
    ensures
        state_bounded(decode_step(st, c, bytes_per_row), bytes_per_row),
{
    if is_unit_marker(c) || is_score_marker(c) {
        // the output stays as it is
    } else if c == ':' {
        let flushed = flush_high(st.out, st.high, 0);
        if bytes_per_row > 0 {
            let started = flushed.len() % bytes_per_row != 0;
            let out1 = if started {
                complete_row(flushed, bytes_per_row)
            } else {
                flushed
            };
            let total = if st.multiplier == 0 {
                1
            } else {
                st.multiplier
            };
            let done: nat = if started {
                1
            } else {
                0
            };
            if done < total {
                let left = (total - done) as nat;
                let copies = if left > MAX_ROW_REPEAT {
                    MAX_ROW_REPEAT as nat
                } else {
                    left
                };
                lemma_append_rows_bounded(out1, last_row(out1, bytes_per_row), copies);
            }
        }
    } else if is_hex_digit(c) {
        let count = effective_count(st.multiplier, MAX_DIGIT_REPEAT as nat);
        lemma_push_nibbles_bounded(st.out, st.high, hex_value(c), count);
    } else if c == ',' {
        lemma_pad_row_bounded(flush_high(st.out, st.high, 0), bytes_per_row, 0x00, st.row_ended);
    } else if c == '!' {
        lemma_pad_row_bounded(
            flush_high(st.out, st.high, 0x0F),
            bytes_per_row,
            0xFF,
            st.row_ended,
        );
    }
}

/// `pad_row` only ever adds, at most one row, and never passes the cap by doing so.
pub proof fn lemma_pad_row_bounded(out: Seq<u8>, bytes_per_row: nat, byte: u8, row_ended: bool)
    ensures
        out.len() <= pad_row(out, bytes_per_row, byte, row_ended).len() <= out.len()
            + bytes_per_row,
        out.len() <= MAX_DECODED_SIZE ==> pad_row(out, bytes_per_row, byte, row_ended).len()
            <= MAX_DECODED_SIZE,
{
}

/// Every prefix of every input leaves the decoder in a bounded state.
pub proof fn lemma_prefix_bounded(text: Seq<char>, n: nat, bytes_per_row: nat)
    ensures
        state_bounded(decode_prefix(text, n, bytes_per_row), bytes_per_row),
    decreases n,
{
    if n > 0 {
        lemma_prefix_bounded(text, (n - 1) as nat, bytes_per_row);
        lemma_step_bounded(
            decode_prefix(text, (n - 1) as nat, bytes_per_row),
            text[n - 1],
            bytes_per_row,
        );
    }
}

/// **Codec bounds.** However the input is built and whatever row length is given, the
/// decoded bytes stay within the cap.
pub proof fn lemma_decode_bounded(text: Seq<char>, bytes_per_row: nat)
    ensures
        decode(text, bytes_per_row).len() <= MAX_DECODED_SIZE,
{
    lemma_prefix_bounded(text, text.len(), bytes_per_row);
}

/// Appends `v[from..to]` to `v`.
fn append_range(v: &mut Vec<u8>, from: usize, to: usize)
    requires
        from <= to <= old(v)@.len(),
    ensures
        final(v)@ == old(v)@ + old(v)@.subrange(from as int, to as int),
{
    let ghost start = v@;
    let mut j: usize = from;
    while j < to
        invariant
            from <= j <= to <= start.len(),
            v@ == start + start.subrange(from as int, j as int),
        decreases to - j,
    {
        let byte = v[j];
        v.push(byte);
        j += 1;
    }
}

/// Appends `n` copies of `byte` to `v`.
fn append_fill(v: &mut Vec<u8>, byte: u8, n: usize)
    ensures
        final(v)@ == old(v)@ + fill(byte, n as nat),
{
    let ghost start = v@;
    let mut j: usize = 0;
    while j < n
        invariant
            j <= n,
            v@ == start + fill(byte, j as nat),
        decreases n - j,
    {
        v.push(byte);
        j += 1;
    }
}

/// Appends the row `v[start..start + row_len]` up to `copies` times, within the cap.
fn append_row_copies(v: &mut Vec<u8>, start: usize, row_len: usize, copies: usize)
    requires
        start + row_len <= old(v)@.len(),
    ensures
        final(v)@ == append_rows(
            old(v)@,
            old(v)@.subrange(start as int, start + row_len),
            copies as nat,
        ),
{
    let ghost first = v@;
    let ghost row = v@.subrange(start as int, start + row_len);
    let mut k: usize = 0;
    while k < copies
        invariant_except_break
            k <= copies,
            append_rows(v@, row, (copies - k) as nat) == append_rows(first, row, copies as nat),
        invariant
            start + row_len <= v@.len(),
            row == v@.subrange(start as int, start + row_len),
            row.len() == row_len,
        ensures
            v@ == append_rows(first, row, copies as nat),
        decreases copies - k,
    {
        if v.len() > MAX_DECODED_SIZE || row_len > MAX_DECODED_SIZE - v.len() {
            break ;
        }
        append_range(v, start, start + row_len);
        k += 1;
    }
}

/// Appends a row of `row_len` zeros up to `copies` times, within the cap.
fn append_zero_rows(v: &mut Vec<u8>, row_len: usize, copies: usize)
    ensures
        final(v)@ == append_rows(old(v)@, fill(0, row_len as nat), copies as nat),
{
    let ghost first = v@;
    let ghost row = fill(0, row_len as nat);
    let mut k: usize = 0;
    while k < copies
        invariant_except_break
            k <= copies,
            append_rows(v@, row, (copies - k) as nat) == append_rows(first, row, copies as nat),
        invariant
            row == fill(0, row_len as nat),
        ensures
            v@ == append_rows(first, row, copies as nat),
        decreases copies - k,
    {
        if v.len() > MAX_DECODED_SIZE || row_len > MAX_DECODED_SIZE - v.len() {
            break ;
        }
        append_fill(v, 0, row_len);
        k += 1;
    }
}

/// Feeds the nibble `val` up to `count` times, within the cap.
fn feed_nibbles(v: &mut Vec<u8>, high: Option<u8>, val: u8, count: usize) -> (left: Option<u8>)
    requires
        val < 16,
        high matches Some(h) ==> h < 16,
    ensures
        (final(v)@, left) == push_nibbles(old(v)@, high, val, count as nat),
        left matches Some(h) ==> h < 16,
{
    let ghost first = v@;
    let mut waiting = high;
    let mut k: usize = 0;
    while k < count
        invariant_except_break
            k <= count,
            push_nibbles(v@, waiting, val, (count - k) as nat) == push_nibbles(
                first,
                high,
                val,
                count as nat,
            ),
        invariant
            val < 16,
            waiting matches Some(h) ==> h < 16,
        ensures
            (v@, waiting) == push_nibbles(first, high, val, count as nat),
        decreases count - k,
    {
        if v.len() >= MAX_DECODED_SIZE {
            break ;
        }
        match waiting {
            Some(h) => {
                v.push(h * 16 + val);
                waiting = None;
            },
            None => {
                waiting = Some(val);
            },
        }
        k += 1;
    }
    waiting
}

/// Whether the working multiplier `held` stands for the exact sum `exact`: they are
/// equal unless the sum has outgrown the machine word, where `held` stays at the top.
pub open spec fn holds_multiplier(held: usize, exact: nat) -> bool {
    if exact <= usize::MAX {
        held == exact
    } else {
        held == usize::MAX
    }
}

/// Writes out a waiting high nibble with `low` as its low nibble.
fn flush_nibble(v: &mut Vec<u8>, high: Option<u8>, low: u8)
    requires
        low < 16,
        high matches Some(h) ==> h < 16,
    ensures
        final(v)@ == flush_high(old(v)@, high, low),
{
    if let Some(h) = high {
        v.push(h * 16 + low);
    }
}

/// `wanted` bytes, or as many as still fit under the cap.
fn fit(v: &Vec<u8>, wanted: usize) -> (n: usize)
    ensures
        n == fitting(v@, wanted as nat),
{
    let room = if v.len() >= MAX_DECODED_SIZE {
        0
    } else {
        MAX_DECODED_SIZE - v.len()
    };
    if wanted > room {
        room
    } else {
        wanted
    }
}

/// Ends the current row with `byte`, as `pad_row` says.
fn end_row(v: &mut Vec<u8>, bytes_per_row: usize, byte: u8, row_ended: bool)
    ensures
        final(v)@ == pad_row(old(v)@, bytes_per_row as nat, byte, row_ended),
{
    if bytes_per_row > 0 {
        let pos = v.len() % bytes_per_row;
        if pos != 0 {
            let n = fit(v, bytes_per_row - pos);
            append_fill(v, byte, n);
        } else if row_ended {
            let n = fit(v, bytes_per_row);
            append_fill(v, byte, n);
        }
    }
}

/// Carries out `:` on the output, as `repeat_row` says.
fn repeat_previous_row(v: &mut Vec<u8>, multiplier: usize, bytes_per_row: usize, Ghost(exact): Ghost<nat>)
    requires
        holds_multiplier(multiplier, exact),
    ensures
        final(v)@ == repeat_row(old(v)@, exact, bytes_per_row as nat),
{
    if bytes_per_row > 0 {
        let pos = v.len() % bytes_per_row;
        let total = if multiplier == 0 {
            1
        } else {
            multiplier
        };
        let mut done: usize = 0;
        if pos > 0 {
            assert(pos <= v.len()) by {
                vstd::arithmetic::div_mod::lemma_mod_decreases(v.len() as nat, bytes_per_row as nat);
            }
            let row_start = v.len() - pos;
            let missing = fit(v, bytes_per_row - pos);
            if row_start >= bytes_per_row {
                let above = v.len() - bytes_per_row;
                append_range(v, above, above + missing);
            } else {
                append_fill(v, 0, missing);
            }
            done = 1;
        }
        if done < total {
            let left = total - done;
            let copies = if left > MAX_ROW_REPEAT {
                MAX_ROW_REPEAT
            } else {
                left
            };
            if v.len() >= bytes_per_row {
                let start = v.len() - bytes_per_row;
                append_row_copies(v, start, bytes_per_row, copies);
            } else {
                append_zero_rows(v, bytes_per_row, copies);
            }
        }
    }
}

/// Whether `c` is a repeat marker, and the amount it adds.
fn marker_amount(c: char) -> (amount: Option<usize>)
    ensures
        amount is Some <==> is_unit_marker(c) || is_score_marker(c),
        amount matches Some(a) ==> a == marker_value(c),
{
    let code = c as u32;
    if code >= 'G' as u32 && code <= 'Y' as u32 {
        Some((code - 'G' as u32 + 1) as usize)
    } else if code >= 'g' as u32 && code <= 'z' as u32 {
        Some(((code - 'g' as u32 + 1) * 20) as usize)
    } else {
        None
    }
}

/// Whether `c` is a hexadecimal digit, and its value.
pub fn hex_digit(c: char) -> (digit: Option<u8>)
    ensures
        digit is Some <==> is_hex_digit(c),
        digit matches Some(d) ==> d == hex_value(c) && d < 16,
{
    let code = c as u32;
    if code >= '0' as u32 && code <= '9' as u32 {
        Some((code - '0' as u32) as u8)
    } else if code >= 'A' as u32 && code <= 'F' as u32 {
        Some((code - 'A' as u32 + 10) as u8)
    } else if code >= 'a' as u32 && code <= 'f' as u32 {
        Some((code - 'a' as u32 + 10) as u8)
    } else {
        None
    }
}

/// Decodes the compressed bitmap text of a raw-graphic command.
///
/// The result is exactly [`decode`] of the text. Decoding never fails: characters outside
/// the alphabet are skipped, and row characters do nothing when `bytes_per_row` is zero.
/// The result is never longer than `MAX_DECODED_SIZE` bytes, whatever the text and the
/// row length are.
pub fn zpl_decode(encoded_str: &str, bytes_per_row: usize) -> (output: Vec<u8>)
    ensures
        output@ == decode(encoded_str@, bytes_per_row as nat),
        output@.len() <= MAX_DECODED_SIZE,
{
    let chars = chars_of(encoded_str);
    let mut output: Vec<u8> = Vec::new();
    let mut multiplier: usize = 0;
    let mut high: Option<u8> = None;
    let mut row_ended = false;
    let ghost text = encoded_str@;
    let ghost bpr = bytes_per_row as nat;
    let mut i: usize = 0;
    while i < chars.len()
        invariant
            i <= chars.len(),
            chars@ == text,
            bpr == bytes_per_row as nat,
            ({
                let st = decode_prefix(text, i as nat, bpr);
                &&& output@ == st.out
                &&& holds_multiplier(multiplier, st.multiplier)
                &&& high == st.high
                &&& row_ended == st.row_ended
            }),
            high matches Some(h) ==> h < 16,
        decreases chars.len() - i,
    {
        let c = chars[i];
        let ghost st = decode_prefix(text, i as nat, bpr);
        if let Some(amount) = marker_amount(c) {
            multiplier = multiplier.saturating_add(amount);
        } else if c == ':' {
            flush_nibble(&mut output, high, 0);
            high = None;
            repeat_previous_row(&mut output, multiplier, bytes_per_row, Ghost(st.multiplier));
            multiplier = 0;
            row_ended = true;
        } else if let Some(val) = hex_digit(c) {
            let count = if multiplier == 0 {
                1
            } else if multiplier > MAX_DIGIT_REPEAT {
                MAX_DIGIT_REPEAT
            } else {
                multiplier
            };
            multiplier = 0;
            high = feed_nibbles(&mut output, high, val, count);
            row_ended = false;
        } else if c == ',' {
            flush_nibble(&mut output, high, 0);
            high = None;
            end_row(&mut output, bytes_per_row, 0x00, row_ended);
            multiplier = 0;
            row_ended = true;
        } else if c == '!' {
            flush_nibble(&mut output, high, 0x0F);
            high = None;
            end_row(&mut output, bytes_per_row, 0xFF, row_ended);
            multiplier = 0;
            row_ended = true;
        }
        i += 1;
    }
    flush_nibble(&mut output, high, 0);
    proof {
        lemma_decode_bounded(text, bpr);
    }
    output
}

} // verus!
