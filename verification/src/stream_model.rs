//! Simulator-independent model for the stream-throughput benchmark.
//!
//! The model drives a ready/valid source and sink around a device under test
//! and checks, cycle by cycle, that every transfer carries the payload that a
//! seeded pseudo-random schedule predicts.

use vstd::prelude::*;
use vstd::arithmetic::div_mod::{lemma_mod_multiples_vanish, lemma_mul_mod_noop_left, lemma_small_mod};
use crate::text::{bool_text, dec, hex_padded, push_bool, push_dec, push_hex_padded};

verus! {

/// Cycles held in reset before the stream starts.
pub const RESET_CYCLES: u64 = 4;

pub const DATA_XOR: u64 = 0xd6e8_feb8_6659_fd93;
pub const DATA_ADD: u64 = 0xa5a5_5a5a_1234_5678;
pub const GOLDEN_GAMMA: u64 = 0x9e37_79b9_7f4a_7c15;
pub const MIX_MUL_1: u64 = 0xbf58_476d_1ce4_e5b9;
pub const MIX_MUL_2: u64 = 0x94d0_49bb_1331_11eb;
pub const USER_SALT: u64 = 0x6a09_e667_f3bc_c909;
pub const SOURCE_MUL: u64 = 0xd134_2543_de82_ef95;
pub const READY_SALT: u64 = 0xa409_3822_299f_31d0;

/// Values sampled from the device under test at the end of a cycle.
#[derive(Clone, Copy, Debug, PartialEq, Eq, Structural)]
pub struct BenchInputs {
    pub s_ready: u8,
    pub m_valid: u8,
    pub m_data: u64,
    pub m_id: u16,
    pub m_last: u8,
    pub m_user: u8,
    pub accepted_count: u64,
}

impl Default for BenchInputs {
    fn default() -> (r: Self)
        ensures
            r == (BenchInputs {
                s_ready: 0,
                m_valid: 0,
                m_data: 0,
                m_id: 0,
                m_last: 0,
                m_user: 0,
                accepted_count: 0,
            }),
    {
        BenchInputs { s_ready: 0, m_valid: 0, m_data: 0, m_id: 0, m_last: 0, m_user: 0, accepted_count: 0 }
    }
}

/// Values driven into the device under test for the next cycle.
#[derive(Clone, Copy, Debug, PartialEq, Eq, Structural)]
pub struct BenchOutputs {
    pub reset_n: u8,
    pub s_valid: u8,
    pub s_data: u64,
    pub s_id: u16,
    pub s_last: u8,
    pub s_user: u8,
    pub m_ready: u8,
    pub inject_error: u8,
}

impl Default for BenchOutputs {
    fn default() -> (r: Self)
        ensures
            r == zero_outputs(),
    {
        BenchOutputs {
            reset_n: 0,
            s_valid: 0,
            s_data: 0,
            s_id: 0,
            s_last: 0,
            s_user: 0,
            m_ready: 0,
            inject_error: 0,
        }
    }
}

/// Every output at zero.
pub open spec fn zero_outputs() -> BenchOutputs {
    BenchOutputs {
        reset_n: 0,
        s_valid: 0,
        s_data: 0,
        s_id: 0,
        s_last: 0,
        s_user: 0,
        m_ready: 0,
        inject_error: 0,
    }
}

/// The summary reported when the target number of transfers completes.
#[derive(Clone, Copy, Debug, PartialEq, Eq, Structural)]
pub struct BenchReport {
    pub transactions: u64,
    pub cycles: u64,
    pub digest: u64,
    pub trace_digest: u64,
}

/// What one cycle of the model concluded.
#[derive(Clone, Debug, PartialEq, Eq)]
pub enum StepStatus {
    Continue,
    Pass(BenchReport),
    Fail(String),
}

/// The benchmark checker and stimulus generator.
pub struct BenchModel {
    target: u64,
    seed: u64,
    inject_error: bool,
    cycles: u64,
    transactions: u64,
    digest: u64,
    trace_digest: u64,
}

/// The abstract state of a [`BenchModel`].
#[derive(Clone, Copy)]
pub struct BenchState {
    pub target: u64,
    pub seed: u64,
    pub inject_error: bool,
    pub cycles: u64,
    pub transactions: u64,
    pub digest: u64,
    pub trace_digest: u64,
}

impl View for BenchModel {
    type V = BenchState;

    closed spec fn view(&self) -> BenchState {
        BenchState {
            target: self.target,
            seed: self.seed,
            inject_error: self.inject_error,
            cycles: self.cycles,
            transactions: self.transactions,
            digest: self.digest,
            trace_digest: self.trace_digest,
        }
    }
}

// ---------------------------------------------------------------------------
// The pure functions of the schedule
// ---------------------------------------------------------------------------

/// Left rotation of a 64-bit word by `n` bits, `0 < n < 64`.
pub open spec fn rotl(x: u64, n: u64) -> u64
    recommends
        0 < n < 64,
{
    (x << n) | (x >> (64 - n) as u64)
}

pub open spec fn bool_u8(b: bool) -> u8 {
    if b {
        1
    } else {
        0
    }
}

/// The splitmix64 finalizer.
pub open spec fn spec_mix64(value: u64) -> u64 {
    let a = value.wrapping_add(GOLDEN_GAMMA);
    let b = (a ^ (a >> 30u64)).wrapping_mul(MIX_MUL_1);
    let c = (b ^ (b >> 27u64)).wrapping_mul(MIX_MUL_2);
    c ^ (c >> 31u64)
}

pub open spec fn spec_payload(seed: u64, index: u64) -> u64 {
    spec_mix64(seed ^ index.wrapping_mul(GOLDEN_GAMMA))
}

pub open spec fn spec_user_value(seed: u64, index: u64) -> u8 {
    (spec_mix64(seed ^ index ^ USER_SALT) >> 56u64) as u8
}

pub open spec fn spec_source_open(seed: u64, cycle: u64) -> bool {
    spec_mix64(seed ^ cycle.wrapping_mul(SOURCE_MUL)) & 0x7 != 0
}

pub open spec fn spec_ready_open(seed: u64, cycle: u64) -> bool {
    spec_mix64(seed ^ cycle.wrapping_mul(MIX_MUL_2) ^ READY_SALT) & 0xf != 0
}

pub open spec fn spec_transform_data(data: u64, id: u16) -> u64 {
    rotl(data ^ DATA_XOR, 13).wrapping_add(DATA_ADD).wrapping_add(id as u64)
}

pub open spec fn spec_digest_update(digest: u64, data: u64, id: u16, last: u8, user: u8) -> u64 {
    let sidebands = (id as u64) | ((last as u64) << 16u64) | ((user as u64) << 24u64);
    rotl(digest, 7) ^ data ^ sidebands.wrapping_mul(GOLDEN_GAMMA)
}

pub open spec fn spec_trace_digest_update(
    digest: u64,
    cycle: u64,
    inputs: BenchInputs,
    outputs: BenchOutputs,
) -> u64 {
    let m_on = inputs.m_valid != 0;
    let s_on = outputs.s_valid != 0;
    let m_data: u64 = if m_on { inputs.m_data } else { 0 };
    let s_data: u64 = if s_on { outputs.s_data } else { 0 };
    let m_id: u16 = if m_on { inputs.m_id } else { 0 };
    let m_last: u8 = if m_on { inputs.m_last } else { 0 };
    let m_user: u8 = if m_on { inputs.m_user } else { 0 };
    let s_id: u16 = if s_on { outputs.s_id } else { 0 };
    let s_last: u8 = if s_on { outputs.s_last } else { 0 };
    let s_user: u8 = if s_on { outputs.s_user } else { 0 };
    let flags: u64 = (outputs.reset_n as u64) | ((outputs.s_valid as u64) << 1u64) | ((
    inputs.s_ready as u64) << 2u64) | ((inputs.m_valid as u64) << 3u64) | ((outputs.m_ready as u64)
        << 4u64) | ((m_last as u64) << 5u64) | ((s_last as u64) << 6u64) | ((m_user as u64) << 8u64)
        | ((s_user as u64) << 16u64);
    let sidebands: u64 = (m_id as u64) | ((s_id as u64) << 16u64) | (flags << 32u64);
    spec_mix64(
        digest ^ spec_mix64(cycle) ^ spec_mix64(inputs.accepted_count) ^ spec_mix64(m_data)
            ^ spec_mix64(s_data) ^ spec_mix64(sidebands),
    )
}

/// The splitmix64 finalizer: a fixed avalanche permutation of a 64-bit word.
pub fn mix64(value: u64) -> (r: u64)
    ensures
        r == spec_mix64(value),
{
    let mut value = value;
    value = value.wrapping_add(GOLDEN_GAMMA);
    value = (value ^ (value >> 30u64)).wrapping_mul(MIX_MUL_1);
    value = (value ^ (value >> 27u64)).wrapping_mul(MIX_MUL_2);
    value ^ (value >> 31u64)
}

/// Multiplying modulo 2^64 by `m` and then by `inv` gives the word back
/// when `m * inv` is one more than a multiple of 2^64.
proof fn lemma_mul_undone(x: u64, m: u64, inv: u64, k: int)
    requires
        k >= 0,
        m as int * inv as int == 1 + k * 0x1_0000_0000_0000_0000,
    ensures
        x.wrapping_mul(m).wrapping_mul(inv) == x,
{
    let r: int = 0x1_0000_0000_0000_0000;
    let p: int = x as int * m as int;
    lemma_mul_mod_noop_left(p, inv as int, r);
    assert(p * inv as int == x as int + r * (x as int * k)) by (nonlinear_arith)
        requires
            p == x as int * m as int,
            m as int * inv as int == 1 + k * r,
    ;
    lemma_mod_multiples_vanish(x as int * k, x as int, r);
    lemma_small_mod(x as nat, r as nat);
}

/// Each xor-shift stage of the finalizer loses no information.
proof fn lemma_xorshift_injective(x: u64, y: u64)
    ensures
        x ^ (x >> 30u64) == y ^ (y >> 30u64) ==> x == y,
        x ^ (x >> 27u64) == y ^ (y >> 27u64) ==> x == y,
        x ^ (x >> 31u64) == y ^ (y >> 31u64) ==> x == y,
{
    assert(x ^ (x >> 30u64) == y ^ (y >> 30u64) ==> x == y) by (bit_vector);
    assert(x ^ (x >> 27u64) == y ^ (y >> 27u64) ==> x == y) by (bit_vector);
    assert(x ^ (x >> 31u64) == y ^ (y >> 31u64) ==> x == y) by (bit_vector);
}

/// The finalizer is a permutation of 64-bit words: distinct words never
/// mix to the same value (every stage, adding a constant, `x ^ (x >> k)`
/// and multiplying by an odd constant, can be undone).
pub proof fn lemma_mix64_injective(a: u64, b: u64)
    ensures
        spec_mix64(a) == spec_mix64(b) ==> a == b,
{
    let a1 = a.wrapping_add(GOLDEN_GAMMA);
    let b1 = b.wrapping_add(GOLDEN_GAMMA);
    let a2 = (a1 ^ (a1 >> 30u64)).wrapping_mul(MIX_MUL_1);
    let b2 = (b1 ^ (b1 >> 30u64)).wrapping_mul(MIX_MUL_1);
    let a3 = (a2 ^ (a2 >> 27u64)).wrapping_mul(MIX_MUL_2);
    let b3 = (b2 ^ (b2 >> 27u64)).wrapping_mul(MIX_MUL_2);
    if spec_mix64(a) == spec_mix64(b) {
        lemma_xorshift_injective(a3, b3);
        assert(a3 == b3);
        lemma_mul_undone(a2 ^ (a2 >> 27u64), MIX_MUL_2, 0x3196_42b2_d24d_8ec3, 2077064247507883091);
        lemma_mul_undone(b2 ^ (b2 >> 27u64), MIX_MUL_2, 0x3196_42b2_d24d_8ec3, 2077064247507883091);
        lemma_xorshift_injective(a2, b2);
        assert(a2 == b2);
        lemma_mul_undone(a1 ^ (a1 >> 30u64), MIX_MUL_1, 0x96de_1b17_3f11_9089, 8125545580553827436);
        lemma_mul_undone(b1 ^ (b1 >> 30u64), MIX_MUL_1, 0x96de_1b17_3f11_9089, 8125545580553827436);
        lemma_xorshift_injective(a1, b1);
        assert(a1 == b1);
    }
}

/// The payload word the source sends as transfer `index`.
pub fn payload(seed: u64, index: u64) -> (r: u64)
    ensures
        r == spec_payload(seed, index),
{
    mix64(seed ^ index.wrapping_mul(GOLDEN_GAMMA))
}

/// The user sideband the source sends with transfer `index`.
pub fn user_value(seed: u64, index: u64) -> (r: u8)
    ensures
        r == spec_user_value(seed, index),
{
    let m = mix64(seed ^ index ^ USER_SALT);
    assert((m >> 56u64) <= 0xff) by (bit_vector);
    (m >> 56u64) as u8
}

/// Whether the source offers a transfer in active cycle `cycle`.
pub fn source_open(seed: u64, cycle: u64) -> (r: bool)
    ensures
        r == spec_source_open(seed, cycle),
{
    mix64(seed ^ cycle.wrapping_mul(SOURCE_MUL)) & 0x7 != 0
}

/// Whether the sink is ready in active cycle `cycle`.
pub fn ready_open(seed: u64, cycle: u64) -> (r: bool)
    ensures
        r == spec_ready_open(seed, cycle),
{
    mix64(seed ^ cycle.wrapping_mul(MIX_MUL_2) ^ READY_SALT) & 0xf != 0
}

/// The data word the device must emit for `data` sent with identifier `id`.
pub fn transform_data(data: u64, id: u16) -> (r: u64)
    ensures
        r == spec_transform_data(data, id),
{
    let x = data ^ DATA_XOR;
    let rotated = (x << 13u64) | (x >> 51u64);
    rotated.wrapping_add(DATA_ADD).wrapping_add(id as u64)
}

/// Fold one emitted transfer into the running digest.
pub fn digest_update(digest: u64, data: u64, id: u16, last: u8, user: u8) -> (r: u64)
    ensures
        r == spec_digest_update(digest, data, id, last, user),
{
    let sidebands = (id as u64) | ((last as u64) << 16u64) | ((user as u64) << 24u64);
    let rotated = (digest << 7u64) | (digest >> 57u64);
    rotated ^ data ^ sidebands.wrapping_mul(GOLDEN_GAMMA)
}

/// Fold one cycle's visible interface state into the trace digest.
pub fn trace_digest_update(
    digest: u64,
    cycle: u64,
    inputs: &BenchInputs,
    outputs: &BenchOutputs,
) -> (r: u64)
    ensures
        r == spec_trace_digest_update(digest, cycle, *inputs, *outputs),
{
    let m_data = if inputs.m_valid != 0 {
        inputs.m_data
    } else {
        0
    };
    let s_data = if outputs.s_valid != 0 {
        outputs.s_data
    } else {
        0
    };
    let (m_id, m_last, m_user): (u16, u8, u8) = if inputs.m_valid != 0 {
        (inputs.m_id, inputs.m_last, inputs.m_user)
    } else {
        (0, 0, 0)
    };
    let (s_id, s_last, s_user): (u16, u8, u8) = if outputs.s_valid != 0 {
        (outputs.s_id, outputs.s_last, outputs.s_user)
    } else {
        (0, 0, 0)
    };
    let flags: u64 = (outputs.reset_n as u64) | ((outputs.s_valid as u64) << 1u64) | ((
    inputs.s_ready as u64) << 2u64) | ((inputs.m_valid as u64) << 3u64) | ((outputs.m_ready as u64)
        << 4u64) | ((m_last as u64) << 5u64) | ((s_last as u64) << 6u64) | ((m_user as u64) << 8u64)
        | ((s_user as u64) << 16u64);
    let sidebands: u64 = (m_id as u64) | ((s_id as u64) << 16u64) | (flags << 32u64);
    mix64(
        digest ^ mix64(cycle) ^ mix64(inputs.accepted_count) ^ mix64(m_data) ^ mix64(s_data)
            ^ mix64(sidebands),
    )
}


// ---------------------------------------------------------------------------
// The cycle rules
// ---------------------------------------------------------------------------

/// The sideband `last` flag of transfer `index`: set on every 256th transfer.
pub open spec fn last_flag(index: u64) -> u8 {
    bool_u8((index & 0xff) == 0xff)
}

/// The outputs after the source is loaded for active cycle `active_cycle`
/// with the next transfer (`index`), or left idle.
pub open spec fn loaded_outputs(
    st: BenchState,
    active_cycle: u64,
    o: BenchOutputs,
) -> BenchOutputs {
    let index = st.transactions;
    let o1 = if spec_source_open(st.seed, active_cycle) {
        BenchOutputs {
            s_valid: 1,
            s_data: spec_payload(st.seed, index),
            s_id: index as u16,
            s_last: last_flag(index),
            s_user: spec_user_value(st.seed, index),
            ..o
        }
    } else {
        BenchOutputs { s_valid: 0, ..o }
    };
    BenchOutputs { inject_error: bool_u8(st.inject_error), ..o1 }
}

/// A transfer on the model's sink side: the source's valid met the device's ready.
pub open spec fn accepted(i: BenchInputs, o: BenchOutputs) -> bool {
    o.s_valid != 0 && i.s_ready != 0
}

/// A transfer on the model's source side: the device's valid met our ready.
pub open spec fn emitted(i: BenchInputs, o: BenchOutputs) -> bool {
    i.m_valid != 0 && o.m_ready != 0
}

/// The device shows the data, identifier, last flag and user value that
/// transfer `index` must carry.
pub open spec fn payload_matches(seed: u64, index: u64, i: BenchInputs) -> bool {
    &&& i.m_data == spec_transform_data(spec_payload(seed, index), index as u16)
    &&& i.m_id == index as u16
    &&& i.m_last == last_flag(index)
    &&& i.m_user == spec_user_value(seed, index)
}

pub open spec fn reset_active_message(i: BenchInputs) -> Seq<char> {
    "DUT was active during reset: m_valid="@ + dec(i.m_valid as nat) + " accepted_count="@ + dec(
        i.accepted_count as nat,
    )
}

pub open spec fn transfer_message(cycle: u64, input: bool, output: bool) -> Seq<char> {
    "ready/valid transfer disagreement at cycle "@ + dec(cycle as nat) + ": input="@ + bool_text(
        input,
    ) + " output="@ + bool_text(output)
}

pub open spec fn ready_message(cycle: u64, s_ready: u8, m_ready: u8) -> Seq<char> {
    "ready path mismatch at cycle "@ + dec(cycle as nat) + ": s_ready="@ + dec(s_ready as nat)
        + " m_ready="@ + dec(m_ready as nat)
}

pub open spec fn valid_message(cycle: u64, m_valid: u8, s_valid: u8) -> Seq<char> {
    "valid path mismatch at cycle "@ + dec(cycle as nat) + ": m_valid="@ + dec(m_valid as nat)
        + " s_valid="@ + dec(s_valid as nat)
}

pub open spec fn payload_message(seed: u64, index: u64, i: BenchInputs) -> Seq<char> {
    "payload mismatch for transfer "@ + dec(index as nat) + ": got data=0x"@ + hex_padded(
        i.m_data as nat,
        16,
    ) + " id=0x"@ + hex_padded(i.m_id as nat, 4) + " last="@ + dec(i.m_last as nat)
        + " user=0x"@ + hex_padded(i.m_user as nat, 2) + "; expected data=0x"@ + hex_padded(
        spec_transform_data(spec_payload(seed, index), index as u16) as nat,
        16,
    ) + " id=0x"@ + hex_padded((index as u16) as nat, 4) + " last="@ + dec(
        last_flag(index) as nat,
    ) + " user=0x"@ + hex_padded(spec_user_value(seed, index) as nat, 2)
}

pub open spec fn count_message(cycle: u64, got: u64, expected: u64) -> Seq<char> {
    "DUT accepted_count mismatch at cycle "@ + dec(cycle as nat) + ": got "@ + dec(got as nat)
        + ", expected "@ + dec(expected as nat)
}

/// The first protocol or payload check that an active cycle fails, if any.
pub open spec fn active_failure(
    seed: u64,
    cycle: u64,
    index: u64,
    i: BenchInputs,
    o: BenchOutputs,
) -> Option<Seq<char>> {
    if accepted(i, o) != emitted(i, o) {
        Some(transfer_message(cycle, accepted(i, o), emitted(i, o)))
    } else if i.s_ready != o.m_ready {
        Some(ready_message(cycle, i.s_ready, o.m_ready))
    } else if i.m_valid != o.s_valid {
        Some(valid_message(cycle, i.m_valid, o.s_valid))
    } else if i.m_valid != 0 && !payload_matches(seed, index, i) {
        Some(payload_message(seed, index, i))
    } else {
        None
    }
}

/// What a status says, as plain values: the report of a pass, the message of a failure.
pub open spec fn status_view(s: StepStatus) -> (Option<BenchReport>, Option<Seq<char>>) {
    match s {
        StepStatus::Continue => (None, None),
        StepStatus::Pass(r) => (Some(r), None),
        StepStatus::Fail(m) => (None, Some(m@)),
    }
}

/// One cycle of the benchmark: the next model state, the next outputs, and
/// the report (on a pass) or message (on a failure); neither means continue.
pub open spec fn step_spec(pre: BenchState, i: BenchInputs, o: BenchOutputs) -> (
    BenchState,
    BenchOutputs,
    Option<BenchReport>,
    Option<Seq<char>>,
) {
    let cycle = (pre.cycles + 1) as u64;
    let st = BenchState {
        cycles: cycle,
        trace_digest: spec_trace_digest_update(pre.trace_digest, cycle, i, o),
        ..pre
    };
    if o.reset_n == 0 {
        if i.m_valid != 0 || i.accepted_count != 0 {
            (st, o, None, Some(reset_active_message(i)))
        } else if cycle >= RESET_CYCLES {
            let o1 = BenchOutputs { reset_n: 1, m_ready: bool_u8(spec_ready_open(pre.seed, 0)), ..o };
            (st, loaded_outputs(st, 0, o1), None, None)
        } else {
            (st, o, None, None)
        }
    } else {
        match active_failure(pre.seed, cycle, pre.transactions, i, o) {
            Some(msg) => (st, o, None, Some(msg)),
            None => {
                let moved = i.m_valid != 0 && emitted(i, o);
                let st2 = if moved {
                    BenchState {
                        digest: spec_digest_update(
                            pre.digest,
                            i.m_data,
                            i.m_id,
                            i.m_last,
                            i.m_user,
                        ),
                        transactions: (pre.transactions + 1) as u64,
                        ..st
                    }
                } else {
                    st
                };
                if i.accepted_count != st2.transactions {
                    (st2, o, None, Some(count_message(cycle, i.accepted_count, st2.transactions)))
                } else if st2.transactions == pre.target {
                    (
                        st2,
                        BenchOutputs { s_valid: 0, ..o },
                        Some(
                            BenchReport {
                                transactions: st2.transactions,
                                cycles: (cycle - RESET_CYCLES) as u64,
                                digest: st2.digest,
                                trace_digest: st2.trace_digest,
                            },
                        ),
                        None,
                    )
                } else {
                    let active = (cycle - RESET_CYCLES) as u64;
                    let o1 = BenchOutputs { m_ready: bool_u8(spec_ready_open(pre.seed, active)), ..o };
                    if accepted(i, o) || o.s_valid == 0 {
                        (st2, loaded_outputs(st2, active, o1), None, None)
                    } else {
                        (st2, o1, None, None)
                    }
                }
            },
        }
    }
}

/// The step reaches the active-phase schedule, where it counts cycles from
/// the end of reset.
pub open spec fn reaches_schedule(pre: BenchState, i: BenchInputs, o: BenchOutputs) -> bool {
    let cycle = (pre.cycles + 1) as u64;
    let moved = i.m_valid != 0 && emitted(i, o);
    let tx = if moved {
        pre.transactions + 1
    } else {
        pre.transactions as int
    };
    &&& o.reset_n != 0
    &&& active_failure(pre.seed, cycle, pre.transactions, i, o) is None
    &&& i.accepted_count == tx
}

/// Whether the device shows exactly the payload of transfer `index`.
fn payload_ok(seed: u64, index: u64, i: &BenchInputs) -> (r: bool)
    ensures
        r == payload_matches(seed, index, *i),
{
    let last: u8 = if (index & 0xff) == 0xff {
        1
    } else {
        0
    };
    i.m_data == transform_data(payload(seed, index), index as u16) && i.m_id == index as u16
        && i.m_last == last && i.m_user == user_value(seed, index)
}

fn reset_active_fail(i: &BenchInputs) -> (s: String)
    ensures
        s@ == reset_active_message(*i),
{
    let mut s = String::new();
    s.append("DUT was active during reset: m_valid=");
    push_dec(&mut s, i.m_valid as u64);
    s.append(" accepted_count=");
    push_dec(&mut s, i.accepted_count);
    s
}

fn transfer_fail(cycle: u64, input: bool, output: bool) -> (s: String)
    ensures
        s@ == transfer_message(cycle, input, output),
{
    let mut s = String::new();
    s.append("ready/valid transfer disagreement at cycle ");
    push_dec(&mut s, cycle);
    s.append(": input=");
    push_bool(&mut s, input);
    s.append(" output=");
    push_bool(&mut s, output);
    s
}

fn ready_fail(cycle: u64, s_ready: u8, m_ready: u8) -> (s: String)
    ensures
        s@ == ready_message(cycle, s_ready, m_ready),
{
    let mut s = String::new();
    s.append("ready path mismatch at cycle ");
    push_dec(&mut s, cycle);
    s.append(": s_ready=");
    push_dec(&mut s, s_ready as u64);
    s.append(" m_ready=");
    push_dec(&mut s, m_ready as u64);
    s
}

fn valid_fail(cycle: u64, m_valid: u8, s_valid: u8) -> (s: String)
    ensures
        s@ == valid_message(cycle, m_valid, s_valid),
{
    let mut s = String::new();
    s.append("valid path mismatch at cycle ");
    push_dec(&mut s, cycle);
    s.append(": m_valid=");
    push_dec(&mut s, m_valid as u64);
    s.append(" s_valid=");
    push_dec(&mut s, s_valid as u64);
    s
}

fn payload_fail(
    index: u64,
    i: &BenchInputs,
    expected_data: u64,
    expected_id: u16,
    expected_last: u8,
    expected_user: u8,
) -> (s: String)
    ensures
        s@ == "payload mismatch for transfer "@ + dec(index as nat) + ": got data=0x"@ + hex_padded(
            i.m_data as nat,
            16,
        ) + " id=0x"@ + hex_padded(i.m_id as nat, 4) + " last="@ + dec(i.m_last as nat)
            + " user=0x"@ + hex_padded(i.m_user as nat, 2) + "; expected data=0x"@ + hex_padded(
            expected_data as nat,
            16,
        ) + " id=0x"@ + hex_padded(expected_id as nat, 4) + " last="@ + dec(
            expected_last as nat,
        ) + " user=0x"@ + hex_padded(expected_user as nat, 2),
{
    let mut s = String::new();
    s.append("payload mismatch for transfer ");
    push_dec(&mut s, index);
    s.append(": got data=0x");
    push_hex_padded(&mut s, i.m_data, 16);
    s.append(" id=0x");
    push_hex_padded(&mut s, i.m_id as u64, 4);
    s.append(" last=");
    push_dec(&mut s, i.m_last as u64);
    s.append(" user=0x");
    push_hex_padded(&mut s, i.m_user as u64, 2);
    s.append("; expected data=0x");
    push_hex_padded(&mut s, expected_data, 16);
    s.append(" id=0x");
    push_hex_padded(&mut s, expected_id as u64, 4);
    s.append(" last=");
    push_dec(&mut s, expected_last as u64);
    s.append(" user=0x");
    push_hex_padded(&mut s, expected_user as u64, 2);
    s
}

fn count_fail(cycle: u64, got: u64, expected: u64) -> (s: String)
    ensures
        s@ == count_message(cycle, got, expected),
{
    let mut s = String::new();
    s.append("DUT accepted_count mismatch at cycle ");
    push_dec(&mut s, cycle);
    s.append(": got ");
    push_dec(&mut s, got);
    s.append(", expected ");
    push_dec(&mut s, expected);
    s
}

impl BenchModel {
    /// Well-formed: a positive target, and no more transfers than cycles.
    pub open spec fn wf(&self) -> bool {
        &&& self@.target > 0
        &&& self@.transactions <= self@.cycles
    }

    /// A model for `target` transfers under `seed`, and the outputs to drive
    /// before the first cycle (reset asserted, sink not ready).
    pub fn new(target: u64, seed: u64, inject_error: bool) -> (r: (Self, BenchOutputs))
        requires
            target > 0,
        ensures
            r.0.wf(),
            r.0@ == (BenchState {
                target,
                seed,
                inject_error,
                cycles: 0,
                transactions: 0,
                digest: 0,
                trace_digest: 0,
            }),
            r.1 == (BenchOutputs { inject_error: bool_u8(inject_error), ..zero_outputs() }),
    {
        let outputs = BenchOutputs {
            reset_n: 0,
            s_valid: 0,
            s_data: 0,
            s_id: 0,
            s_last: 0,
            s_user: 0,
            m_ready: 0,
            inject_error: if inject_error {
                1
            } else {
                0
            },
        };
        (
            BenchModel {
                target,
                seed,
                inject_error,
                cycles: 0,
                transactions: 0,
                digest: 0,
                trace_digest: 0,
            },
            outputs,
        )
    }

    /// Check the cycle that just completed and prepare the next cycle's outputs.
    pub fn step(&mut self, inputs: &BenchInputs, outputs: &mut BenchOutputs) -> (r: StepStatus)
        requires
            old(self).wf(),
            old(self)@.cycles < u64::MAX,
            reaches_schedule(old(self)@, *inputs, *old(outputs)) ==> old(self)@.cycles + 1
                >= RESET_CYCLES,
        ensures
            final(self).wf(),
            final(self)@ == step_spec(old(self)@, *inputs, *old(outputs)).0,
            *final(outputs) == step_spec(old(self)@, *inputs, *old(outputs)).1,
            status_view(r) == (
                step_spec(old(self)@, *inputs, *old(outputs)).2,
                step_spec(old(self)@, *inputs, *old(outputs)).3,
            ),
    {
        self.cycles = self.cycles + 1;
        self.trace_digest = trace_digest_update(self.trace_digest, self.cycles, inputs, outputs);

        if outputs.reset_n == 0 {
            if inputs.m_valid != 0 || inputs.accepted_count != 0 {
                return StepStatus::Fail(reset_active_fail(inputs));
            }
            if self.cycles >= RESET_CYCLES {
                outputs.reset_n = 1;
                outputs.m_ready = if ready_open(self.seed, 0) {
                    1
                } else {
                    0
                };
                self.load_source_for_cycle(0, outputs);
            }
            return StepStatus::Continue;
        }
        let accepted = outputs.s_valid != 0 && inputs.s_ready != 0;
        let emitted = inputs.m_valid != 0 && outputs.m_ready != 0;
        if accepted != emitted {
            return StepStatus::Fail(transfer_fail(self.cycles, accepted, emitted));
        }
        if inputs.s_ready != outputs.m_ready {
            return StepStatus::Fail(ready_fail(self.cycles, inputs.s_ready, outputs.m_ready));
        }
        if inputs.m_valid != outputs.s_valid {
            return StepStatus::Fail(valid_fail(self.cycles, inputs.m_valid, outputs.s_valid));
        }
        if inputs.m_valid != 0 {
            let index = self.transactions;
            let expected_data = transform_data(payload(self.seed, index), index as u16);
            let expected_id = index as u16;
            let expected_last: u8 = if (index & 0xff) == 0xff {
                1
            } else {
                0
            };
            let expected_user = user_value(self.seed, index);
            if inputs.m_data != expected_data || inputs.m_id != expected_id || inputs.m_last
                != expected_last || inputs.m_user != expected_user {
                return StepStatus::Fail(
                    payload_fail(
                        index,
                        inputs,
                        expected_data,
                        expected_id,
                        expected_last,
                        expected_user,
                    ),
                );
            }
            if emitted {
                self.digest = digest_update(
                    self.digest,
                    inputs.m_data,
                    inputs.m_id,
                    inputs.m_last,
                    inputs.m_user,
                );
                self.transactions = self.transactions + 1;
            }
        }
        if inputs.accepted_count != self.transactions {
            return StepStatus::Fail(
                count_fail(self.cycles, inputs.accepted_count, self.transactions),
            );
        }
        if self.transactions == self.target {
            outputs.s_valid = 0;
            return StepStatus::Pass(
                BenchReport {
                    transactions: self.transactions,
                    cycles: self.cycles - RESET_CYCLES,
                    digest: self.digest,
                    trace_digest: self.trace_digest,
                },
            );
        }
        let active_cycle = self.cycles - RESET_CYCLES;
        outputs.m_ready = if ready_open(self.seed, active_cycle) {
            1
        } else {
            0
        };
        if accepted || outputs.s_valid == 0 {
            self.load_source_for_cycle(active_cycle, outputs);
        }
        StepStatus::Continue
    }

    /// Whether [`BenchModel::step`] may take these values: the cycle count
    /// has room for one more, and a step that gets past every check to the
    /// active schedule comes after reset has run its cycles.
    pub fn step_allowed(&self, inputs: &BenchInputs, outputs: &BenchOutputs) -> (r: bool)
        ensures
            r == (self@.cycles < u64::MAX && (reaches_schedule(self@, *inputs, *outputs)
                ==> self@.cycles + 1 >= RESET_CYCLES)),
    {
        if self.cycles == u64::MAX {
            return false;
        }
        if self.cycles + 1 >= RESET_CYCLES || outputs.reset_n == 0 {
            return true;
        }
        let accepted = outputs.s_valid != 0 && inputs.s_ready != 0;
        let emitted = inputs.m_valid != 0 && outputs.m_ready != 0;
        if accepted != emitted || inputs.s_ready != outputs.m_ready || inputs.m_valid
            != outputs.s_valid {
            return true;
        }
        if inputs.m_valid != 0 && !payload_ok(self.seed, self.transactions, inputs) {
            return true;
        }
        let moved = inputs.m_valid != 0 && emitted;
        let counted = if moved {
            self.transactions < u64::MAX && inputs.accepted_count == self.transactions + 1
        } else {
            inputs.accepted_count == self.transactions
        };
        !counted
    }

    fn load_source_for_cycle(&self, active_cycle: u64, outputs: &mut BenchOutputs)
        ensures
            *final(outputs) == loaded_outputs(self@, active_cycle, *old(outputs)),
    {
        if source_open(self.seed, active_cycle) {
            let index = self.transactions;
            outputs.s_valid = 1;
            outputs.s_data = payload(self.seed, index);
            outputs.s_id = index as u16;
            outputs.s_last = if (index & 0xff) == 0xff {
                1
            } else {
                0
            };
            outputs.s_user = user_value(self.seed, index);
        } else {
            outputs.s_valid = 0;
        }
        outputs.inject_error = if self.inject_error {
            1
        } else {
            0
        };
    }
}


// ---------------------------------------------------------------------------
// Laws of the cycle rules
// ---------------------------------------------------------------------------

/// A step neither concluded nor failed.
pub open spec fn continues(pre: BenchState, i: BenchInputs, o: BenchOutputs) -> bool {
    step_spec(pre, i, o).2 is None && step_spec(pre, i, o).3 is None
}

/// Every step counts exactly one cycle and keeps the configuration
/// (target, seed, error injection).
pub proof fn lemma_step_counts_one_cycle(pre: BenchState, i: BenchInputs, o: BenchOutputs)
    requires
        pre.cycles < u64::MAX,
    ensures
        step_spec(pre, i, o).0.cycles == pre.cycles + 1,
        step_spec(pre, i, o).0.target == pre.target,
        step_spec(pre, i, o).0.seed == pre.seed,
        step_spec(pre, i, o).0.inject_error == pre.inject_error,
{
}

/// The transfer count grows by at most one per cycle, and only for a
/// transfer the device emitted outside reset with exactly the expected payload.
pub proof fn lemma_transfers_advance_by_at_most_one(
    pre: BenchState,
    i: BenchInputs,
    o: BenchOutputs,
)
    requires
        pre.transactions < u64::MAX,
    ensures
        ({
            let post = step_spec(pre, i, o).0;
            &&& post.transactions == pre.transactions || post.transactions == pre.transactions + 1
            &&& post.transactions == pre.transactions + 1 ==> {
                &&& o.reset_n != 0
                &&& emitted(i, o)
                &&& payload_matches(pre.seed, pre.transactions, i)
            }
        }),
{
}

/// Reset lasts exactly [`RESET_CYCLES`] cycles: a quiet device during reset
/// never fails the benchmark, and reset is released on the cycle that reaches the count.
pub proof fn lemma_reset_release(pre: BenchState, i: BenchInputs, o: BenchOutputs)
    requires
        pre.cycles < u64::MAX,
        o.reset_n == 0,
        i.m_valid == 0,
        i.accepted_count == 0,
    ensures
        continues(pre, i, o),
        step_spec(pre, i, o).0.transactions == pre.transactions,
        (step_spec(pre, i, o).1.reset_n == 1) == (pre.cycles + 1 >= RESET_CYCLES),
{
}

/// A device that shows anything during reset fails the benchmark.
pub proof fn lemma_activity_in_reset_fails(pre: BenchState, i: BenchInputs, o: BenchOutputs)
    requires
        o.reset_n == 0,
        i.m_valid != 0 || i.accepted_count != 0,
    ensures
        step_spec(pre, i, o).3 == Some(reset_active_message(i)),
{
}

/// A device that shows a transfer whose data or sidebands differ from the
/// expected ones fails the benchmark (once the handshake itself is consistent),
/// so a corrupting device never passes.
pub proof fn lemma_corrupted_transfer_fails(pre: BenchState, i: BenchInputs, o: BenchOutputs)
    requires
        o.reset_n != 0,
        i.m_valid != 0,
        accepted(i, o) == emitted(i, o),
        i.s_ready == o.m_ready,
        i.m_valid == o.s_valid,
        !payload_matches(pre.seed, pre.transactions, i),
    ensures
        step_spec(pre, i, o).3 == Some(payload_message(pre.seed, pre.transactions, i)),
        step_spec(pre, i, o).2 is None,
{
}

/// A pass reports exactly the target number of transfers and the cycles
/// counted from the end of reset, and withdraws the source's valid.
pub proof fn lemma_pass_reports_target(pre: BenchState, i: BenchInputs, o: BenchOutputs)
    requires
        step_spec(pre, i, o).2 is Some,
    ensures
        ({
            let (post, out, report, _) = step_spec(pre, i, o);
            &&& report->0.transactions == pre.target
            &&& report->0.transactions == post.transactions
            &&& report->0.cycles == (post.cycles - RESET_CYCLES) as u64
            &&& report->0.digest == post.digest
            &&& report->0.trace_digest == post.trace_digest
            &&& out.s_valid == 0
            &&& step_spec(pre, i, o).3 is None
        }),
{
}

/// While the device is not ready, the source holds its offered transfer:
/// valid, data, identifier, last flag and user value are all retained.
/// The rest of the outputs stay as they were, but for the sink's ready,
/// which follows the seeded ready schedule of the cycle just counted.
pub proof fn lemma_stalled_source_retained(pre: BenchState, i: BenchInputs, o: BenchOutputs)
    requires
        pre.cycles < u64::MAX,
        pre.cycles + 1 >= RESET_CYCLES,
        o.reset_n != 0,
        o.s_valid != 0,
        i.s_ready == 0,
        continues(pre, i, o),
    ensures
        ({
            let out = step_spec(pre, i, o).1;
            &&& out.s_valid == o.s_valid
            &&& out.s_data == o.s_data
            &&& out.s_id == o.s_id
            &&& out.s_last == o.s_last
            &&& out.s_user == o.s_user
            &&& out.reset_n == o.reset_n
            &&& out.inject_error == o.inject_error
            &&& out.m_ready == bool_u8(
                spec_ready_open(pre.seed, (pre.cycles + 1 - RESET_CYCLES) as u64),
            )
        }),
{
}

/// Every failure is found before any output is written: a failing step
/// leaves the outputs exactly as they were.
pub proof fn lemma_failure_leaves_outputs(pre: BenchState, i: BenchInputs, o: BenchOutputs)
    ensures
        step_spec(pre, i, o).3 is Some ==> step_spec(pre, i, o).1 == o,
{
}

/// Outside reset, whatever the source offers is the next transfer that has
/// not completed yet.
pub open spec fn source_offers_next(st: BenchState, o: BenchOutputs) -> bool {
    o.reset_n != 0 && o.s_valid != 0 ==> {
        &&& o.s_data == spec_payload(st.seed, st.transactions)
        &&& o.s_id == st.transactions as u16
        &&& o.s_last == last_flag(st.transactions)
        &&& o.s_user == spec_user_value(st.seed, st.transactions)
    }
}

/// Every cycle keeps the source offering the next untransferred payload:
/// a stalled transfer is the same transfer, and a completed one is followed
/// by its successor.
pub proof fn lemma_source_offers_next_transfer(pre: BenchState, i: BenchInputs, o: BenchOutputs)
    requires
        pre.cycles < u64::MAX,
        pre.transactions < u64::MAX,
        source_offers_next(pre, o),
        o.reset_n == 0 ==> o.s_valid == 0,
        step_spec(pre, i, o).3 is None,
    ensures
        source_offers_next(step_spec(pre, i, o).0, step_spec(pre, i, o).1),
        step_spec(pre, i, o).1.reset_n == 0 ==> step_spec(pre, i, o).1.s_valid == 0,
{
    let cycle = (pre.cycles + 1) as u64;
    let st = BenchState {
        cycles: cycle,
        trace_digest: spec_trace_digest_update(pre.trace_digest, cycle, i, o),
        ..pre
    };
    if o.reset_n == 0 {
        if cycle >= RESET_CYCLES {
            let o1 = BenchOutputs { reset_n: 1, m_ready: bool_u8(spec_ready_open(pre.seed, 0)), ..o };
            assert(step_spec(pre, i, o).1 == loaded_outputs(st, 0, o1));
        }
    } else {
        assert(active_failure(pre.seed, cycle, pre.transactions, i, o) is None);
        let moved = i.m_valid != 0 && emitted(i, o);
        if accepted(i, o) {
            assert(moved);
        } else if o.s_valid != 0 {
            assert(!emitted(i, o));
            assert(step_spec(pre, i, o).0.transactions == pre.transactions);
        }
    }
}

// ---------------------------------------------------------------------------
// Whole runs
// ---------------------------------------------------------------------------

/// The model state after the calls `calls` from `st`: each call gives the
/// inputs sampled in its cycle and the outputs it hands to the step.
pub open spec fn state_after_calls(st: BenchState, calls: Seq<(BenchInputs, BenchOutputs)>) -> BenchState
    decreases calls.len(),
{
    if calls.len() == 0 {
        st
    } else {
        step_spec(state_after_calls(st, calls.drop_last()), calls.last().0, calls.last().1).0
    }
}

/// What the last of the calls gives: next state, outputs, report, message.
pub open spec fn last_call(st: BenchState, calls: Seq<(BenchInputs, BenchOutputs)>) -> (
    BenchState,
    BenchOutputs,
    Option<BenchReport>,
    Option<Seq<char>>,
)
    recommends
        calls.len() > 0,
{
    step_spec(state_after_calls(st, calls.drop_last()), calls.last().0, calls.last().1)
}

/// Every call met what the step asks of it (an active cycle is counted only
/// after reset has run) and none of them failed.
pub open spec fn calls_ok(st: BenchState, calls: Seq<(BenchInputs, BenchOutputs)>) -> bool
    decreases calls.len(),
{
    calls.len() == 0 || {
        let pre = state_after_calls(st, calls.drop_last());
        let (i, o) = calls.last();
        &&& calls_ok(st, calls.drop_last())
        &&& reaches_schedule(pre, i, o) ==> pre.cycles + 1 >= RESET_CYCLES
        &&& step_spec(pre, i, o).3 is None
    }
}

/// The digest of the calls: starting from `st`'s, every transfer the device
/// emitted in a call whose outputs were out of reset with the sink ready is
/// folded in, in the order of the calls.
pub open spec fn calls_digest(st: BenchState, calls: Seq<(BenchInputs, BenchOutputs)>) -> u64
    decreases calls.len(),
{
    if calls.len() == 0 {
        st.digest
    } else {
        let d = calls_digest(st, calls.drop_last());
        let (i, o) = calls.last();
        if o.reset_n != 0 && i.m_valid != 0 && o.m_ready != 0 {
            spec_digest_update(d, i.m_data, i.m_id, i.m_last, i.m_user)
        } else {
            d
        }
    }
}

/// The state a fresh model starts from.
pub open spec fn initial_state(target: u64, seed: u64, inject_error: bool) -> BenchState {
    BenchState { target, seed, inject_error, cycles: 0, transactions: 0, digest: 0, trace_digest: 0 }
}

/// Along calls without failures, the model counts one cycle per call, keeps
/// its configuration, and holds the digest of the calls.
pub proof fn lemma_calls_invariant(st: BenchState, calls: Seq<(BenchInputs, BenchOutputs)>)
    requires
        st.cycles + calls.len() <= u64::MAX,
        calls_ok(st, calls),
    ensures
        state_after_calls(st, calls).cycles == st.cycles + calls.len(),
        state_after_calls(st, calls).target == st.target,
        state_after_calls(st, calls).seed == st.seed,
        state_after_calls(st, calls).digest == calls_digest(st, calls),
    decreases calls.len(),
{
    if calls.len() > 0 {
        lemma_calls_invariant(st, calls.drop_last());
    }
}

/// A passing step got past every check to the active schedule.
proof fn lemma_pass_reaches_schedule(pre: BenchState, i: BenchInputs, o: BenchOutputs)
    requires
        pre.target > 0,
        step_spec(pre, i, o).2 is Some,
    ensures
        reaches_schedule(pre, i, o),
{
    let cycle = (pre.cycles + 1) as u64;
    if o.reset_n == 0 {
        assert(step_spec(pre, i, o).2 is None);
    } else if active_failure(pre.seed, cycle, pre.transactions, i, o) is Some {
        assert(step_spec(pre, i, o).2 is None);
    } else {
        let moved = i.m_valid != 0 && emitted(i, o);
        let tx2: u64 = if moved {
            (pre.transactions + 1) as u64
        } else {
            pre.transactions
        };
        assert(step_spec(pre, i, o).0.transactions == tx2);
        assert(i.accepted_count == tx2);
        assert(tx2 == pre.target);
        if moved && pre.transactions == u64::MAX {
            let t = pre.transactions;
            assert(((t + 1) as u64) == 0u64) by (bit_vector)
                requires
                    t == 0xffff_ffff_ffff_ffffu64,
            ;
        }
    }
}

/// Calls to a fresh model that pass on the last call, after no call failed,
/// report exactly the target number of transfers, the calls counted from the
/// end of reset, and the digest of every transfer the device emitted while
/// the sink was ready, in order; the last call leaves the outputs it was
/// given, with the source's valid withdrawn.
pub proof fn lemma_run_pass_report(
    target: u64,
    seed: u64,
    inject_error: bool,
    calls: Seq<(BenchInputs, BenchOutputs)>,
)
    requires
        target > 0,
        0 < calls.len() <= u64::MAX,
        calls_ok(initial_state(target, seed, inject_error), calls),
        last_call(initial_state(target, seed, inject_error), calls).2 is Some,
    ensures
        ({
            let st = initial_state(target, seed, inject_error);
            let report = last_call(st, calls).2->0;
            &&& report.transactions == target
            &&& report.cycles == calls.len() - RESET_CYCLES
            &&& report.digest == calls_digest(st, calls)
            &&& last_call(st, calls).1 == (BenchOutputs { s_valid: 0, ..calls.last().1 })
        }),
{
    let st = initial_state(target, seed, inject_error);
    lemma_calls_invariant(st, calls);
    lemma_calls_invariant(st, calls.drop_last());
    let pre = state_after_calls(st, calls.drop_last());
    let (i, o) = calls.last();
    lemma_pass_reaches_schedule(pre, i, o);
    lemma_pass_reports_target(pre, i, o);
}

// ---------------------------------------------------------------------------
// Laws of the checks and digests
// ---------------------------------------------------------------------------

/// Outside reset, a cycle in which the source's valid met the device's
/// ready on one side but not the device's valid and the model's ready on the
/// other fails with the transfer message, leaving the outputs as they were.
pub proof fn lemma_transfer_disagreement_fails(pre: BenchState, i: BenchInputs, o: BenchOutputs)
    requires
        pre.cycles < u64::MAX,
        o.reset_n != 0,
        (o.s_valid != 0 && i.s_ready != 0) != (i.m_valid != 0 && o.m_ready != 0),
    ensures
        step_spec(pre, i, o).3 == Some(
            transfer_message(
                (pre.cycles + 1) as u64,
                o.s_valid != 0 && i.s_ready != 0,
                i.m_valid != 0 && o.m_ready != 0,
            ),
        ),
        step_spec(pre, i, o).1 == o,
        step_spec(pre, i, o).2 is None,
{
}

/// Outside reset, with the handshake agreeing, a device whose ready differs
/// from the model's ready fails with the ready-path message.
pub proof fn lemma_ready_path_mismatch_fails(pre: BenchState, i: BenchInputs, o: BenchOutputs)
    requires
        pre.cycles < u64::MAX,
        o.reset_n != 0,
        (o.s_valid != 0 && i.s_ready != 0) == (i.m_valid != 0 && o.m_ready != 0),
        i.s_ready != o.m_ready,
    ensures
        step_spec(pre, i, o).3 == Some(ready_message((pre.cycles + 1) as u64, i.s_ready, o.m_ready)),
        step_spec(pre, i, o).1 == o,
        step_spec(pre, i, o).2 is None,
{
}

/// Outside reset, with the handshake agreeing and the ready paths equal, a
/// device whose valid differs from the source's valid (for instance one that
/// withdraws its valid during a stall) fails with the valid-path message.
pub proof fn lemma_valid_path_mismatch_fails(pre: BenchState, i: BenchInputs, o: BenchOutputs)
    requires
        pre.cycles < u64::MAX,
        o.reset_n != 0,
        (o.s_valid != 0 && i.s_ready != 0) == (i.m_valid != 0 && o.m_ready != 0),
        i.s_ready == o.m_ready,
        i.m_valid != o.s_valid,
    ensures
        step_spec(pre, i, o).3 == Some(valid_message((pre.cycles + 1) as u64, i.m_valid, o.s_valid)),
        step_spec(pre, i, o).1 == o,
        step_spec(pre, i, o).2 is None,
{
}

/// Outside reset, a device whose transfer counter differs from the number of
/// transfers completed (this cycle's included) fails with the count message,
/// once every other check holds.
pub proof fn lemma_count_mismatch_fails(pre: BenchState, i: BenchInputs, o: BenchOutputs)
    requires
        pre.cycles < u64::MAX,
        pre.transactions < u64::MAX,
        o.reset_n != 0,
        (o.s_valid != 0 && i.s_ready != 0) == (i.m_valid != 0 && o.m_ready != 0),
        i.s_ready == o.m_ready,
        i.m_valid == o.s_valid,
        i.m_valid != 0 ==> payload_matches(pre.seed, pre.transactions, i),
        i.accepted_count != pre.transactions + (if i.m_valid != 0 && o.m_ready != 0 {
            1int
        } else {
            0int
        }),
    ensures
        step_spec(pre, i, o).3 == Some(
            count_message(
                (pre.cycles + 1) as u64,
                i.accepted_count,
                (pre.transactions + (if i.m_valid != 0 && o.m_ready != 0 {
                    1int
                } else {
                    0int
                })) as u64,
            ),
        ),
        step_spec(pre, i, o).1 == o,
{
}

/// A step gets through to the active schedule exactly when it is out of
/// reset and does not fail.
pub proof fn lemma_schedule_reached_exactly_without_failure(
    pre: BenchState,
    i: BenchInputs,
    o: BenchOutputs,
)
    requires
        pre.transactions < u64::MAX,
    ensures
        reaches_schedule(pre, i, o) == (o.reset_n != 0 && step_spec(pre, i, o).3 is None),
{
}

/// Folding a transfer into the digest tells every sideband apart: two
/// transfers with the same data but a different identifier (all sixteen
/// bits of it), last flag or user value give different digests.
pub proof fn lemma_digest_distinguishes_sidebands(
    digest: u64,
    data: u64,
    id_a: u16,
    last_a: u8,
    user_a: u8,
    id_b: u16,
    last_b: u8,
    user_b: u8,
)
    requires
        id_a != id_b || last_a != last_b || user_a != user_b,
    ensures
        spec_digest_update(digest, data, id_a, last_a, user_a) != spec_digest_update(
            digest,
            data,
            id_b,
            last_b,
            user_b,
        ),
{
    let sa: u64 = (id_a as u64) | ((last_a as u64) << 16u64) | ((user_a as u64) << 24u64);
    let sb: u64 = (id_b as u64) | ((last_b as u64) << 16u64) | ((user_b as u64) << 24u64);
    assert(sa == sb ==> id_a == id_b && last_a == last_b && user_a == user_b) by (bit_vector)
        requires
            sa == (id_a as u64) | ((last_a as u64) << 16u64) | ((user_a as u64) << 24u64),
            sb == (id_b as u64) | ((last_b as u64) << 16u64) | ((user_b as u64) << 24u64),
    ;
    lemma_mul_undone(sa, GOLDEN_GAMMA, 0xf1de_83e1_9937_733d, 10771413168148108919);
    lemma_mul_undone(sb, GOLDEN_GAMMA, 0xf1de_83e1_9937_733d, 10771413168148108919);
    let ma = sa.wrapping_mul(GOLDEN_GAMMA);
    let mb = sb.wrapping_mul(GOLDEN_GAMMA);
    let x = rotl(digest, 7);
    assert(x ^ data ^ ma == x ^ data ^ mb ==> ma == mb) by (bit_vector);
}

/// Folding a transfer into the digest tells the data apart: two transfers
/// with the same sidebands but different data give different digests.
pub proof fn lemma_digest_distinguishes_data(
    digest: u64,
    data_a: u64,
    data_b: u64,
    id: u16,
    last: u8,
    user: u8,
)
    requires
        data_a != data_b,
    ensures
        spec_digest_update(digest, data_a, id, last, user) != spec_digest_update(
            digest,
            data_b,
            id,
            last,
            user,
        ),
{
    let m = ((id as u64) | ((last as u64) << 16u64) | ((user as u64) << 24u64)).wrapping_mul(
        GOLDEN_GAMMA,
    );
    let x = rotl(digest, 7);
    assert(x ^ data_a ^ m == x ^ data_b ^ m ==> data_a == data_b) by (bit_vector);
}

/// The trace digest of a cycle ignores what the device shows on its data,
/// identifier, last and user lanes while its valid is low, and what the
/// source shows on its lanes while the source's valid is low: two cycles that
/// differ only there give the same trace digest.
pub proof fn lemma_trace_digest_ignores_idle_lanes(
    digest: u64,
    cycle: u64,
    i1: BenchInputs,
    o1: BenchOutputs,
    i2: BenchInputs,
    o2: BenchOutputs,
)
    requires
        i1.s_ready == i2.s_ready,
        i1.m_valid == i2.m_valid,
        i1.accepted_count == i2.accepted_count,
        i1.m_valid != 0 ==> i1.m_data == i2.m_data && i1.m_id == i2.m_id && i1.m_last == i2.m_last
            && i1.m_user == i2.m_user,
        o1.reset_n == o2.reset_n,
        o1.s_valid == o2.s_valid,
        o1.m_ready == o2.m_ready,
        o1.s_valid != 0 ==> o1.s_data == o2.s_data && o1.s_id == o2.s_id && o1.s_last == o2.s_last
            && o1.s_user == o2.s_user,
    ensures
        spec_trace_digest_update(digest, cycle, i1, o1) == spec_trace_digest_update(
            digest,
            cycle,
            i2,
            o2,
        ),
{
}

/// Xor-ing the same words around two words keeps them apart.
proof fn lemma_xor_frame(a: u64, b: u64, c: u64, e: u64, f: u64, x: u64, y: u64)
    ensures
        a ^ b ^ c ^ x ^ e ^ f == a ^ b ^ c ^ y ^ e ^ f ==> x == y,
        a ^ b ^ c ^ e ^ x ^ f == a ^ b ^ c ^ e ^ y ^ f ==> x == y,
{
    assert(a ^ b ^ c ^ x ^ e ^ f == a ^ b ^ c ^ y ^ e ^ f ==> x == y) by (bit_vector);
    assert(a ^ b ^ c ^ e ^ x ^ f == a ^ b ^ c ^ e ^ y ^ f ==> x == y) by (bit_vector);
}

/// The trace digest of a cycle sees the device's data while its valid is
/// high: two cycles that differ only in that data give different digests.
pub proof fn lemma_trace_digest_sees_device_data(
    digest: u64,
    cycle: u64,
    i: BenchInputs,
    o: BenchOutputs,
    other: u64,
)
    requires
        i.m_valid != 0,
        other != i.m_data,
    ensures
        spec_trace_digest_update(digest, cycle, i, o) != spec_trace_digest_update(
            digest,
            cycle,
            BenchInputs { m_data: other, ..i },
            o,
        ),
{
    let j = BenchInputs { m_data: other, ..i };
    let s_data: u64 = if o.s_valid != 0 {
        o.s_data
    } else {
        0
    };
    let a = digest;
    let b = spec_mix64(cycle);
    let c = spec_mix64(i.accepted_count);
    let e = spec_mix64(s_data);
    let x = spec_mix64(i.m_data);
    let y = spec_mix64(other);
    let t1 = spec_trace_digest_update(digest, cycle, i, o);
    let t2 = spec_trace_digest_update(digest, cycle, j, o);
    let f1 = choose|f: u64| t1 == spec_mix64(a ^ b ^ c ^ x ^ e ^ f) && t2 == spec_mix64(
        a ^ b ^ c ^ y ^ e ^ f,
    );
    lemma_mix64_injective(i.m_data, other);
    lemma_mix64_injective(a ^ b ^ c ^ x ^ e ^ f1, a ^ b ^ c ^ y ^ e ^ f1);
    lemma_xor_frame(a, b, c, e, f1, x, y);
}

/// The trace digest of a cycle sees the source's data while its valid is
/// high: two cycles that differ only in that data give different digests.
pub proof fn lemma_trace_digest_sees_source_data(
    digest: u64,
    cycle: u64,
    i: BenchInputs,
    o: BenchOutputs,
    other: u64,
)
    requires
        o.s_valid != 0,
        other != o.s_data,
    ensures
        spec_trace_digest_update(digest, cycle, i, o) != spec_trace_digest_update(
            digest,
            cycle,
            i,
            BenchOutputs { s_data: other, ..o },
        ),
{
    let p = BenchOutputs { s_data: other, ..o };
    let m_data: u64 = if i.m_valid != 0 {
        i.m_data
    } else {
        0
    };
    let a = digest;
    let b = spec_mix64(cycle);
    let c = spec_mix64(i.accepted_count);
    let e = spec_mix64(m_data);
    let x = spec_mix64(o.s_data);
    let y = spec_mix64(other);
    let t1 = spec_trace_digest_update(digest, cycle, i, o);
    let t2 = spec_trace_digest_update(digest, cycle, i, p);
    let f1 = choose|f: u64| t1 == spec_mix64(a ^ b ^ c ^ e ^ x ^ f) && t2 == spec_mix64(
        a ^ b ^ c ^ e ^ y ^ f,
    );
    lemma_mix64_injective(o.s_data, other);
    lemma_mix64_injective(a ^ b ^ c ^ e ^ x ^ f1, a ^ b ^ c ^ e ^ y ^ f1);
    lemma_xor_frame(a, b, c, e, f1, x, y);
}

} // verus!


