//! The value logic of the simulator programming interface: object
//! classification, handle kinds and their errors, four-state vector words,
//! simulation-time words, and the callback registrations with their
//! ownership rules.
//!
//! The simulator's objects are named here by their address, an opaque
//! integer; the calls that cross into the simulator are made by the layer
//! that owns the raw pointers, which hands this module the plain values it
//! read and takes back the plain values to write.

use vstd::prelude::*;
use vstd::arithmetic::power2::pow2;
use crate::gpi_sys::{
    t_vpi_vecval, CB_AFTER_DELAY, CB_END_OF_SIMULATION, CB_NEXT_SIM_TIME, CB_READ_ONLY_SYNCH,
    CB_READ_WRITE_SYNCH, CB_START_OF_SIMULATION, CB_VALUE_CHANGE, VPI_BIT_VAR, VPI_BYTE_VAR,
    VPI_ENUM_VAR, VPI_INTEGER_VAR, VPI_INT_VAR, VPI_LONG_INT_VAR, VPI_MEMORY, VPI_MODULE, VPI_NET,
    VPI_PORT, VPI_REG, VPI_SHORT_INT_VAR,
};
use crate::text::{dec, int_text, push_dec, push_i32};

verus! {

// ===========================================================================
// Errors
// ===========================================================================

/// Failure to obtain a handle of the wanted kind.
#[derive(Debug, Clone, PartialEq, Eq)]
pub enum HandleError {
    /// The name did not resolve in the scope.
    NotFound { name: String, scope: String },
    /// The object exists but is not the requested kind.
    WrongKind { name: String, expected: &'static str, actual: String },
    NoTopModule,
}

/// The human-readable text of a handle error.
pub open spec fn handle_error_text(e: HandleError) -> Seq<char> {
    match e {
        HandleError::NotFound { name, scope } => "no object named '"@ + name@ + "' in scope '"@
            + scope@ + "'"@,
        HandleError::WrongKind { name, expected, actual } => "'"@ + name@ + "' is a "@ + actual@
            + ", expected "@ + expected@,
        HandleError::NoTopModule => "no top-level module found"@,
    }
}

impl HandleError {
    /// The human-readable text of this error.
    pub fn message(&self) -> (r: String)
        ensures
            r@ == handle_error_text(*self),
    {
        let mut s = String::new();
        match self {
            HandleError::NotFound { name, scope } => {
                s.append("no object named '");
                s.append(name.as_str());
                s.append("' in scope '");
                s.append(scope.as_str());
                s.append("'");
            },
            HandleError::WrongKind { name, expected, actual } => {
                s.append("'");
                s.append(name.as_str());
                s.append("' is a ");
                s.append(actual.as_str());
                s.append(", expected ");
                s.append(expected);
            },
            HandleError::NoTopModule => {
                s.append("no top-level module found");
            },
        }
        s
    }
}

/// Failure to read a signal value as an integer.
#[derive(Debug, Clone, PartialEq, Eq)]
pub enum ValueError {
    /// The value has x/z bits; the binary string shows them.
    FourState(String),
    Width { want: u32, have: usize },
}

/// The human-readable text of a value error.
pub open spec fn value_error_text(e: ValueError) -> Seq<char> {
    match e {
        ValueError::FourState(s) => "value '"@ + s@ + "' has x/z bits"@,
        ValueError::Width { want, have } => "width mismatch: want "@ + dec(want as nat)
            + ", have "@ + dec(have as nat),
    }
}

impl ValueError {
    /// The human-readable text of this error.
    pub fn message(&self) -> (r: String)
        ensures
            r@ == value_error_text(*self),
    {
        let mut s = String::new();
        match self {
            ValueError::FourState(bits) => {
                s.append("value '");
                s.append(bits.as_str());
                s.append("' has x/z bits");
            },
            ValueError::Width { want, have } => {
                s.append("width mismatch: want ");
                push_dec(&mut s, *want as u64);
                s.append(", have ");
                push_dec(&mut s, *have as u64);
            },
        }
        s
    }
}

// ===========================================================================
// Handles
// ===========================================================================

/// A simulator object, named by its address. Valid for the whole simulation.
#[derive(Copy, Clone, Debug, PartialEq, Eq, Structural)]
pub struct ObjHandle {
    pub addr: usize,
}

/// The object type codes that carry a value: nets, registers, variables,
/// ports, memories.
pub open spec fn is_signal_code(t: i32) -> bool {
    t == VPI_NET || t == VPI_REG || t == VPI_INTEGER_VAR || t == VPI_PORT || t == VPI_MEMORY || t
        == VPI_LONG_INT_VAR || t == VPI_SHORT_INT_VAR || t == VPI_INT_VAR || t == VPI_BYTE_VAR || t
        == VPI_ENUM_VAR || t == VPI_BIT_VAR
}

/// Whether an object of type `t` is a signal, whose width must be read.
pub fn is_signal_type(t: i32) -> (r: bool)
    ensures
        r == is_signal_code(t),
{
    t == VPI_NET || t == VPI_REG || t == VPI_INTEGER_VAR || t == VPI_PORT || t == VPI_MEMORY || t
        == VPI_LONG_INT_VAR || t == VPI_SHORT_INT_VAR || t == VPI_INT_VAR || t == VPI_BYTE_VAR || t
        == VPI_ENUM_VAR || t == VPI_BIT_VAR
}

/// Any simulator object, classified by type.
#[derive(Copy, Clone, Debug)]
pub enum AnyHandle {
    Hierarchy(HierarchyHandle),
    Logic(LogicHandle),
    /// Neither a module nor a signal; the object's type code is kept.
    Other(ObjHandle, i32),
}

/// A module/scope handle.
#[derive(Copy, Clone, Debug, PartialEq, Eq, Structural)]
pub struct HierarchyHandle {
    pub h: ObjHandle,
}

/// A value-bearing signal handle, with its width cached at classification.
#[derive(Copy, Clone, Debug, PartialEq, Eq, Structural)]
pub struct LogicHandle {
    pub h: ObjHandle,
    pub width: u32,
}

/// The width cached for a signal whose size property reads `size`.
pub open spec fn cached_width(size: i32) -> u32 {
    if size < 0 {
        0
    } else {
        size as u32
    }
}

/// The classification of object `h` of type code `t` whose size property is `size`.
pub open spec fn spec_classify(h: ObjHandle, t: i32, size: i32) -> AnyHandle {
    if t == VPI_MODULE {
        AnyHandle::Hierarchy(HierarchyHandle { h })
    } else if is_signal_code(t) {
        AnyHandle::Logic(LogicHandle { h, width: cached_width(size) })
    } else {
        AnyHandle::Other(h, t)
    }
}

/// What a wrong-kind error calls an object of this kind.
pub open spec fn kind_name(a: AnyHandle) -> Seq<char> {
    match a {
        AnyHandle::Hierarchy(_) => "module"@,
        AnyHandle::Logic(_) => "signal"@,
        AnyHandle::Other(_, t) => "vpiType "@ + int_text(t as int),
    }
}

/// `e` is the wrong-kind error for object `name` of kind `actual` where a
/// `expected` was wanted.
pub open spec fn is_wrong_kind(e: HandleError, name: Seq<char>, expected: Seq<char>, actual: Seq<char>) -> bool {
    e matches HandleError::WrongKind { name: n, expected: x, actual: a } && n@ == name && x@
        == expected && a@ == actual
}

impl AnyHandle {
    /// Classify object `h` of type code `type_code`; `size` is its size
    /// property, read only for signals (its value is unused otherwise).
    pub fn classify(h: ObjHandle, type_code: i32, size: i32) -> (r: AnyHandle)
        ensures
            type_code == VPI_MODULE ==> r == AnyHandle::Hierarchy(HierarchyHandle { h }),
            is_signal_code(type_code) ==> r == AnyHandle::Logic(
                LogicHandle { h, width: cached_width(size) },
            ),
            type_code != VPI_MODULE && !is_signal_code(type_code) ==> r == AnyHandle::Other(
                h,
                type_code,
            ),
            r == spec_classify(h, type_code, size),
    {
        if type_code == VPI_MODULE {
            AnyHandle::Hierarchy(HierarchyHandle { h })
        } else if is_signal_type(type_code) {
            let width: u32 = if size < 0 {
                0
            } else {
                size as u32
            };
            AnyHandle::Logic(LogicHandle { h, width })
        } else {
            AnyHandle::Other(h, type_code)
        }
    }

    /// The handle as a signal; otherwise a wrong-kind error naming the object
    /// by `full_name`, its full hierarchical name.
    pub fn as_logic(self, full_name: String) -> (r: Result<LogicHandle, HandleError>)
        ensures
            match self {
                AnyHandle::Logic(l) => r == Ok::<LogicHandle, HandleError>(l),
                _ => r matches Err(e) && is_wrong_kind(e, full_name@, "signal"@, kind_name(self)),
            },
    {
        match self {
            AnyHandle::Logic(l) => Ok(l),
            AnyHandle::Hierarchy(_) => Err(
                HandleError::WrongKind {
                    name: full_name,
                    expected: "signal",
                    actual: String::from_str("module"),
                },
            ),
            AnyHandle::Other(_, t) => {
                let mut actual = String::from_str("vpiType ");
                push_i32(&mut actual, t);
                Err(HandleError::WrongKind { name: full_name, expected: "signal", actual })
            },
        }
    }

    /// The handle as a module; otherwise a wrong-kind error naming the object
    /// by `full_name`, its full hierarchical name.
    pub fn as_hierarchy(self, full_name: String) -> (r: Result<HierarchyHandle, HandleError>)
        ensures
            match self {
                AnyHandle::Hierarchy(h) => r == Ok::<HierarchyHandle, HandleError>(h),
                _ => r matches Err(e) && is_wrong_kind(e, full_name@, "module"@, kind_name(self)),
            },
    {
        match self {
            AnyHandle::Hierarchy(h) => Ok(h),
            AnyHandle::Logic(_) => Err(
                HandleError::WrongKind {
                    name: full_name,
                    expected: "module",
                    actual: String::from_str("signal"),
                },
            ),
            AnyHandle::Other(_, t) => {
                let mut actual = String::from_str("vpiType ");
                push_i32(&mut actual, t);
                Err(HandleError::WrongKind { name: full_name, expected: "module", actual })
            },
        }
    }
}

/// Whether a text holds a NUL character.
pub open spec fn contains_nul(s: Seq<char>) -> bool {
    exists|i: int| 0 <= i < s.len() && s[i] == '\0'
}

impl HierarchyHandle {
    /// A handle to nothing (address zero), for tests that never touch the design.
    pub fn null_for_test() -> (r: HierarchyHandle)
        ensures
            r.h.addr == 0,
    {
        HierarchyHandle { h: ObjHandle { addr: 0 } }
    }

    /// The outcome of looking up child `name`: `found` is the classified
    /// object the simulator resolved, if any; `scope` is this module's full name.
    pub fn child(&self, name: &str, found: Option<AnyHandle>, scope: String) -> (r: Result<
        AnyHandle,
        HandleError,
    >)
        requires
            !contains_nul(name@),
        ensures
            match found {
                Some(a) => r matches Ok(b) && b == a,
                None => r matches Err(HandleError::NotFound { name: n, scope: sc }) && n@ == name@
                    && sc@ == scope@,
            },
    {
        match found {
            Some(a) => Ok(a),
            None => Err(HandleError::NotFound { name: String::from_str(name), scope }),
        }
    }
}

/// One object a scan of a scope returned: its address, its type code, and
/// its size property (read only for signals; unused otherwise).
#[derive(Copy, Clone, Debug, PartialEq, Eq, Structural)]
pub struct Scanned {
    pub h: ObjHandle,
    pub type_code: i32,
    pub size: i32,
}

/// The classifications of scanned objects, in scan order.
pub open spec fn classify_all(s: Seq<Scanned>) -> Seq<AnyHandle> {
    s.map_values(|o: Scanned| spec_classify(o.h, o.type_code, o.size))
}

fn push_classified(out: &mut Vec<AnyHandle>, scan: &[Scanned])
    ensures
        final(out)@ == old(out)@ + classify_all(scan@),
{
    let ghost start = out@;
    let mut i: usize = 0;
    while i < scan.len()
        invariant
            i <= scan@.len(),
            out@ == start + classify_all(scan@.take(i as int)),
        decreases scan@.len() - i,
    {
        let o = scan[i];
        out.push(AnyHandle::classify(o.h, o.type_code, o.size));
        proof {
            assert(classify_all(scan@.take(i + 1)) =~= classify_all(scan@.take(i as int)).push(
                spec_classify(o.h, o.type_code, o.size),
            ));
        }
        i = i + 1;
    }
    assert(scan@.take(scan@.len() as int) =~= scan@);
}

impl HierarchyHandle {
    /// The children of this scope: the objects of its module scan, then of
    /// its net scan, then of its register scan, each classified, in scan order.
    pub fn children(&self, modules: &[Scanned], nets: &[Scanned], regs: &[Scanned]) -> (r: Vec<
        AnyHandle,
    >)
        ensures
            r@ == classify_all(modules@ + nets@ + regs@),
    {
        let mut out: Vec<AnyHandle> = Vec::new();
        push_classified(&mut out, modules);
        push_classified(&mut out, nets);
        push_classified(&mut out, regs);
        proof {
            assert(classify_all(modules@ + nets@ + regs@) =~= classify_all(modules@) + classify_all(
                nets@,
            ) + classify_all(regs@));
        }
        out
    }
}

/// The first top-level module, or `NoTopModule` when there is none.
pub fn top_module(modules: &[HierarchyHandle]) -> (r: Result<HierarchyHandle, HandleError>)
    ensures
        modules@.len() > 0 ==> r == Ok::<HierarchyHandle, HandleError>(modules@[0]),
        modules@.len() == 0 ==> r matches Err(HandleError::NoTopModule),
{
    if modules.len() > 0 {
        Ok(modules[0])
    } else {
        Err(HandleError::NoTopModule)
    }
}

// ===========================================================================
// Four-state vector words
// ===========================================================================

/// The width used for integer access: at least one bit.
pub open spec fn access_width(width: u32) -> u32 {
    if width == 0 {
        1
    } else {
        width
    }
}

/// Number of 32-bit words that hold `width` bits.
pub open spec fn word_count(width: u32) -> nat {
    ((width as nat) + 31) / 32
}

/// The unsigned value of the `aval` bits of the first `count` words (at most two).
pub open spec fn vector_value(words: Seq<t_vpi_vecval>, count: nat) -> nat {
    if count <= 1 {
        words[0].aval as nat
    } else {
        words[0].aval as nat + words[1].aval as nat * 0x1_0000_0000
    }
}

/// Whether one of the first `count` words marks an x/z bit.
pub open spec fn has_unknown_bits(words: Seq<t_vpi_vecval>, count: nat) -> bool {
    exists|i: int| 0 <= i < count && words[i].bval != 0
}

/// The integer that `width` value bits (1 to 64) in `words` hold, or none
/// if any of them is x/z.
pub open spec fn spec_assemble(width: u32, words: Seq<t_vpi_vecval>) -> Option<u64> {
    if has_unknown_bits(words, word_count(width)) {
        None
    } else {
        Some((vector_value(words, word_count(width)) % pow2(width as nat)) as u64)
    }
}

/// The words that write integer `v` into a signal `width` bits wide
/// (zero-extended or truncated by the simulator to the width).
pub open spec fn spec_vector_words(width: u32, v: u64) -> Seq<t_vpi_vecval> {
    Seq::new(
        word_count(width),
        |i: int|
            if i == 0 {
                t_vpi_vecval { aval: v as u32, bval: 0 }
            } else if i == 1 {
                t_vpi_vecval { aval: (v >> 32u64) as u32, bval: 0 }
            } else {
                t_vpi_vecval { aval: 0, bval: 0 }
            },
    )
}

impl LogicHandle {
    /// The signal width in bits, as cached at classification.
    pub fn size(&self) -> (r: u32)
        ensures
            r == self.width,
    {
        self.width
    }

    /// How many vector words an integer read takes, or the width error of a
    /// signal wider than 64 bits.
    pub fn u64_word_count(&self) -> (r: Result<usize, ValueError>)
        ensures
            access_width(self.width) > 64 ==> (r matches Err(ValueError::Width { want, have })
                && want == access_width(self.width) && have == 64),
            access_width(self.width) <= 64 ==> (r matches Ok(n) && n == word_count(
                access_width(self.width),
            )),
    {
        let width = if self.width == 0 {
            1
        } else {
            self.width
        };
        if width > 64 {
            return Err(ValueError::Width { want: width, have: 64 });
        }
        Ok(((width + 31) / 32) as usize)
    }

    /// The vector words that write `v` into this signal immediately.
    pub fn vector_words(&self, v: u64) -> (r: Vec<t_vpi_vecval>)
        ensures
            r@ == spec_vector_words(access_width(self.width), v),
    {
        let width = if self.width == 0 {
            1
        } else {
            self.width
        };
        let count: u64 = ((width as u64) + 31) / 32;
        let mut words: Vec<t_vpi_vecval> = Vec::new();
        let mut i: u64 = 0;
        while i < count
            invariant
                count == word_count(width),
                width == access_width(self.width),
                i <= count,
                words@.len() == i,
                forall|j: int|
                    0 <= j < i ==> words@[j] == spec_vector_words(width, v)[j],
            decreases count - i,
        {
            let aval: u32 = if i == 0 {
                v as u32
            } else if i == 1 {
                (v >> 32u64) as u32
            } else {
                0
            };
            words.push(t_vpi_vecval { aval, bval: 0 });
            i = i + 1;
        }
        assert(words@ =~= spec_vector_words(width, v));
        words
    }
}

proof fn lemma_mask_is_mod(x: u64, w: u32)
    requires
        w < 64,
    ensures
        x & (((1u64 << w) - 1) as u64) == x % (pow2(w as nat) as u64),
        pow2(w as nat) <= u64::MAX,
        (1u64 << w) >= 1,
{
    vstd::arithmetic::power2::lemma_pow2_pos(w as nat);
    vstd::bits::lemma_u64_pow2_no_overflow(w as nat);
    vstd::bits::lemma_u64_shl_is_mul(1, w as u64);
    assert((1u64 << w) == (1u64 << (w as u64))) by (bit_vector);
    vstd::bits::lemma_u64_low_bits_mask_is_mod(x, w as nat);
}

/// The integer that the `width` value bits (1 to 64) of `words` hold, or
/// `None` if any of them is x/z.
pub fn assemble_u64(width: u32, words: &[t_vpi_vecval]) -> (r: Option<u64>)
    requires
        1 <= width <= 64,
        words@.len() >= word_count(width),
    ensures
        r == spec_assemble(width, words@),
{
    let count: usize = ((width + 31) / 32) as usize;
    let mut result: u64 = 0;
    let mut index: usize = 0;
    while index < count
        invariant
            count == word_count(width),
            1 <= count <= 2,
            words@.len() >= count,
            index <= count,
            forall|j: int| 0 <= j < index ==> words@[j].bval == 0,
            index == 0 ==> result == 0,
            index == 1 ==> result == words@[0].aval as u64,
            index >= 2 ==> result == vector_value(words@, 2),
        decreases count - index,
    {
        let word = words[index];
        if word.bval != 0 {
            return None;
        }
        if index == 0 {
            result = word.aval as u64;
        } else {
            let lo = result;
            let hi = word.aval;
            assert(lo <= u32::MAX ==> (lo | ((hi as u64) << 32u64)) == lo + (hi as u64)
                * 0x1_0000_0000) by (bit_vector);
            result = lo | ((hi as u64) << 32u64);
        }
        index = index + 1;
    }
    assert(result as nat == vector_value(words@, count as nat));
    assert(!has_unknown_bits(words@, count as nat));
    if width < 64 {
        proof {
            lemma_mask_is_mod(result, width);
        }
        result = result & ((1u64 << width) - 1);
        assert(result as nat == vector_value(words@, count as nat) % pow2(width as nat));
    } else {
        proof {
            assert(pow2(64) == 0x1_0000_0000_0000_0000nat) by {
                vstd::arithmetic::power2::lemma2_to64();
                vstd::arithmetic::power2::lemma2_to64_rest();
            }
            vstd::arithmetic::div_mod::lemma_small_mod(result as nat, pow2(64));
            assert(result as nat == vector_value(words@, count as nat) % pow2(width as nat));
        }
    }
    Some(result)
}

// ===========================================================================
// Simulation time
// ===========================================================================

/// A 64-bit simulation time split into its high and low 32-bit words.
#[derive(Copy, Clone, Debug, PartialEq, Eq, Structural)]
pub struct SimTime {
    pub high: u32,
    pub low: u32,
}

/// The time `steps` precision units, split into words.
pub fn simtime(steps: u64) -> (r: SimTime)
    ensures
        r.high == (steps >> 32u64) as u32,
        r.low == (steps & 0xFFFF_FFFF) as u32,
{
    SimTime { high: (steps >> 32u64) as u32, low: (steps & 0xFFFF_FFFF) as u32 }
}

/// The simulation time in precision steps that words `t` hold.
pub fn sim_time_steps(t: SimTime) -> (r: u64)
    ensures
        r == t.high as nat * 0x1_0000_0000 + t.low as nat,
{
    let high = t.high;
    let low = t.low;
    assert(((high as u64) << 32u64) | (low as u64) == (high as u64) * 0x1_0000_0000 + (low as u64))
        by (bit_vector);
    ((t.high as u64) << 32u64) | (t.low as u64)
}

/// Splitting a time into words and joining them again gives the same time.
pub proof fn lemma_simtime_round_trip(steps: u64)
    ensures
        ((steps >> 32u64) as u32) as nat * 0x1_0000_0000 + ((steps & 0xFFFF_FFFF) as u32) as nat
            == steps,
{
    assert(((steps >> 32u64) as u32) as u64 * 0x1_0000_0000 + ((steps & 0xFFFF_FFFF) as u32) as u64
        == steps) by (bit_vector);
}

/// What is read back from a signal of width `width` (1 to 64) after writing
/// integer `v` with its vector words: `v` reduced to the signal's width.
pub proof fn lemma_vector_words_read_back(width: u32, v: u64)
    requires
        1 <= width <= 64,
    ensures
        spec_assemble(width, spec_vector_words(width, v)) == Some((v as nat % pow2(width as nat)) as u64),
{
    let words = spec_vector_words(width, v);
    let count = word_count(width);
    assert(!has_unknown_bits(words, count));
    if count == 1 {
        assert(width <= 32);
        assert((v as u32) as nat == v as nat % 0x1_0000_0000) by {
            assert((v as u32) as u64 == v % 0x1_0000_0000) by (bit_vector);
        }
        vstd::arithmetic::power2::lemma_pow2_adds(width as nat, (32 - width) as nat);
        vstd::arithmetic::power2::lemma2_to64();
        vstd::arithmetic::power2::lemma_pow2_pos(width as nat);
        vstd::arithmetic::power2::lemma_pow2_pos((32 - width) as nat);
        vstd::arithmetic::div_mod::lemma_mod_mod(
            v as int,
            pow2(width as nat) as int,
            pow2((32 - width) as nat) as int,
        );
    } else {
        assert(count == 2);
        assert(((v >> 32u64) as u32) as u64 * 0x1_0000_0000 + (v as u32) as u64 == v)
            by (bit_vector);
        assert(vector_value(words, count) == v as nat);
    }
}

// ===========================================================================
// Callbacks
// ===========================================================================

/// Whether a callback fires once or on every occurrence.
#[derive(Copy, Clone, Debug, PartialEq, Eq, Structural)]
pub enum CbKind {
    OneShot,
    Recurring,
}

/// The time a callback registration carries.
#[derive(Copy, Clone, Debug, PartialEq, Eq, Structural)]
pub enum CbTime {
    /// No time: the simulator ignores it for this reason.
    Suppress,
    /// A simulation time in precision steps, as words.
    Sim(SimTime),
}

/// A callback registration to hand to the simulator.
#[derive(Copy, Clone, Debug, PartialEq, Eq, Structural)]
pub struct CbRequest {
    pub kind: CbKind,
    pub reason: i32,
    /// The object a value-change callback watches; address zero otherwise.
    pub obj: ObjHandle,
    pub time: CbTime,
}

/// A registration with no object.
pub open spec fn global_request(kind: CbKind, reason: i32, time: CbTime) -> CbRequest {
    CbRequest { kind, reason, obj: ObjHandle { addr: 0 }, time }
}

/// The time zero, as words.
pub open spec fn time_zero() -> CbTime {
    CbTime::Sim(SimTime { high: 0, low: 0 })
}

/// One-shot callback after `steps` precision units.
pub fn register_timer(steps: u64) -> (r: CbRequest)
    ensures
        r == global_request(
            CbKind::OneShot,
            CB_AFTER_DELAY,
            CbTime::Sim(SimTime { high: (steps >> 32u64) as u32, low: (steps & 0xFFFF_FFFF) as u32 }),
        ),
{
    CbRequest {
        kind: CbKind::OneShot,
        reason: CB_AFTER_DELAY,
        obj: ObjHandle { addr: 0 },
        time: CbTime::Sim(simtime(steps)),
    }
}

/// Recurring callback on any value change of `sig`; edge filtering is the caller's.
pub fn register_value_change(sig: LogicHandle) -> (r: CbRequest)
    ensures
        r == (CbRequest { kind: CbKind::Recurring, reason: CB_VALUE_CHANGE, obj: sig.h, time: time_zero() }),
{
    CbRequest { kind: CbKind::Recurring, reason: CB_VALUE_CHANGE, obj: sig.h, time: CbTime::Sim(SimTime { high: 0, low: 0 }) }
}

/// One-shot callback at the next ReadWrite synch point.
pub fn register_read_write() -> (r: CbRequest)
    ensures
        r == global_request(CbKind::OneShot, CB_READ_WRITE_SYNCH, time_zero()),
{
    CbRequest {
        kind: CbKind::OneShot,
        reason: CB_READ_WRITE_SYNCH,
        obj: ObjHandle { addr: 0 },
        time: CbTime::Sim(SimTime { high: 0, low: 0 }),
    }
}

/// One-shot callback at the next ReadOnly synch point.
pub fn register_read_only() -> (r: CbRequest)
    ensures
        r == global_request(CbKind::OneShot, CB_READ_ONLY_SYNCH, time_zero()),
{
    CbRequest {
        kind: CbKind::OneShot,
        reason: CB_READ_ONLY_SYNCH,
        obj: ObjHandle { addr: 0 },
        time: CbTime::Sim(SimTime { high: 0, low: 0 }),
    }
}

/// One-shot callback at the next simulation time step.
pub fn register_next_sim_time() -> (r: CbRequest)
    ensures
        r == global_request(CbKind::OneShot, CB_NEXT_SIM_TIME, CbTime::Suppress),
{
    CbRequest { kind: CbKind::OneShot, reason: CB_NEXT_SIM_TIME, obj: ObjHandle { addr: 0 }, time: CbTime::Suppress }
}

/// One-shot callback at start of simulation.
pub fn register_start_of_simulation() -> (r: CbRequest)
    ensures
        r == global_request(CbKind::OneShot, CB_START_OF_SIMULATION, CbTime::Suppress),
{
    CbRequest {
        kind: CbKind::OneShot,
        reason: CB_START_OF_SIMULATION,
        obj: ObjHandle { addr: 0 },
        time: CbTime::Suppress,
    }
}

/// One-shot callback at end of simulation.
pub fn register_end_of_simulation() -> (r: CbRequest)
    ensures
        r == global_request(CbKind::OneShot, CB_END_OF_SIMULATION, CbTime::Suppress),
{
    CbRequest {
        kind: CbKind::OneShot,
        reason: CB_END_OF_SIMULATION,
        obj: ObjHandle { addr: 0 },
        time: CbTime::Suppress,
    }
}


/// The ownership state of one callback registration: whether the
/// simulator-side reference has been reclaimed, and whether the owning
/// handle was detached.
#[derive(Copy, Clone, Debug, PartialEq, Eq, Structural)]
pub struct CallbackState {
    pub kind: CbKind,
    pub released: bool,
    pub detached: bool,
}

/// What the trampoline does when the simulator fires a callback.
#[derive(Copy, Clone, Debug, PartialEq, Eq, Structural)]
pub enum FireAction {
    /// Remove the registration, reclaim the simulator-side reference, then
    /// run the one-shot closure.
    RunOnce,
    /// Run the recurring closure; the registration stays.
    RunAgain,
    /// A one-shot that already fired or was removed: do nothing.
    Ignore,
}

/// An event in the life of a registration.
#[derive(Copy, Clone, Debug, PartialEq, Eq, Structural)]
pub enum CbEvent {
    Fire,
    Forget,
    Drop,
}

/// One event: the next state, whether the simulator-side reference is
/// reclaimed (and the registration removed), and whether a closure runs.
pub open spec fn cb_step(st: CallbackState, e: CbEvent) -> (CallbackState, bool, bool) {
    match e {
        CbEvent::Fire => match st.kind {
            CbKind::OneShot => if st.released {
                (st, false, false)
            } else {
                (CallbackState { released: true, ..st }, true, true)
            },
            CbKind::Recurring => (st, false, true),
        },
        CbEvent::Forget => (CallbackState { detached: true, ..st }, false, false),
        CbEvent::Drop => if st.detached || st.released {
            (st, false, false)
        } else {
            (CallbackState { released: true, ..st }, true, false)
        },
    }
}

/// Run a sequence of events: the final state, how many times the
/// simulator-side reference was reclaimed, and how many one-shot runs happened.
pub open spec fn cb_run(st: CallbackState, events: Seq<CbEvent>) -> (CallbackState, nat, nat)
    decreases events.len(),
{
    if events.len() == 0 {
        (st, 0, 0)
    } else {
        let (mid, reclaims, runs) = cb_run(st, events.drop_last());
        let (next, reclaimed, ran) = cb_step(mid, events.last());
        (
            next,
            reclaims + if reclaimed { 1nat } else { 0nat },
            runs + if ran && st.kind == CbKind::OneShot { 1nat } else { 0nat },
        )
    }
}

impl CallbackState {
    /// A fresh registration, owned by a live handle.
    pub fn new(kind: CbKind) -> (r: CallbackState)
        ensures
            r == (CallbackState { kind, released: false, detached: false }),
    {
        CallbackState { kind, released: false, detached: false }
    }

    /// The simulator fired the callback.
    pub fn on_fire(&mut self) -> (r: FireAction)
        ensures
            *final(self) == cb_step(*old(self), CbEvent::Fire).0,
            (r == FireAction::RunOnce) == cb_step(*old(self), CbEvent::Fire).1,
            (r != FireAction::Ignore) == cb_step(*old(self), CbEvent::Fire).2,
            r == FireAction::RunAgain <==> old(self).kind == CbKind::Recurring,
    {
        match self.kind {
            CbKind::OneShot => {
                if self.released {
                    FireAction::Ignore
                } else {
                    self.released = true;
                    FireAction::RunOnce
                }
            },
            CbKind::Recurring => FireAction::RunAgain,
        }
    }

    /// Detach the owning handle without removing the registration.
    pub fn forget(&mut self)
        ensures
            *final(self) == cb_step(*old(self), CbEvent::Forget).0,
    {
        self.detached = true;
    }

    /// The owning handle is dropped: whether to remove the registration and
    /// reclaim the simulator-side reference now.
    pub fn on_drop(&mut self) -> (r: bool)
        ensures
            *final(self) == cb_step(*old(self), CbEvent::Drop).0,
            r == cb_step(*old(self), CbEvent::Drop).1,
    {
        if self.detached || self.released {
            false
        } else {
            self.released = true;
            true
        }
    }
}

/// Whatever happens to a registration — firings, detaching, dropping, in any
/// order — its simulator-side reference is reclaimed at most once, exactly
/// when the registration ends up released, and a one-shot closure runs at most once.
pub proof fn lemma_callback_reclaimed_at_most_once(kind: CbKind, events: Seq<CbEvent>)
    ensures
        ({
            let (fin, reclaims, runs) = cb_run(
                CallbackState { kind, released: false, detached: false },
                events,
            );
            &&& reclaims <= 1
            &&& (reclaims == 1 <==> fin.released)
            &&& runs <= 1
            &&& fin.kind == kind
        }),
    decreases events.len(),
{
    let st = CallbackState { kind, released: false, detached: false };
    if events.len() > 0 {
        lemma_callback_reclaimed_at_most_once(kind, events.drop_last());
        lemma_one_shot_runs_only_when_unreleased(kind, events.drop_last());
    }
}

proof fn lemma_one_shot_runs_only_when_unreleased(kind: CbKind, events: Seq<CbEvent>)
    ensures
        ({
            let (fin, reclaims, runs) = cb_run(
                CallbackState { kind, released: false, detached: false },
                events,
            );
            &&& runs <= reclaims
            &&& (kind == CbKind::Recurring ==> runs == 0)
        }),
    decreases events.len(),
{
    if events.len() > 0 {
        lemma_one_shot_runs_only_when_unreleased(kind, events.drop_last());
        lemma_callback_reclaimed_at_most_once(kind, events.drop_last());
    }
}

/// A detached one-shot releases its simulator-side reference when it fires,
/// and a live handle's drop removes a registration that has not fired.
pub proof fn lemma_callback_cleanup(kind: CbKind)
    ensures
        cb_step(
            cb_step(CallbackState { kind: CbKind::OneShot, released: false, detached: false }, CbEvent::Forget).0,
            CbEvent::Fire,
        ).1,
        cb_step(CallbackState { kind, released: false, detached: false }, CbEvent::Drop).1,
{
}

/// The VPI type codes of objects that carry a value: net, reg, integer,
/// port, memory, and the long-int, short-int, int, byte, enum and bit
/// variables.
pub open spec fn value_bearing_vpi_type(t: i32) -> bool {
    t == 36 || t == 48 || t == 25 || t == 44 || t == 29 || t == 610 || t == 611 || t == 612 || t
        == 614 || t == 617 || t == 620
}

/// Classification by VPI type code: a module (code 32) is a hierarchy; every
/// value-bearing object is a signal whose width is its size property (0 when
/// that is negative); anything else is kept as an other object with its code.
pub proof fn lemma_classification_by_type_code(h: ObjHandle, t: i32, size: i32)
    ensures
        t == 32 ==> spec_classify(h, t, size) == AnyHandle::Hierarchy(HierarchyHandle { h }),
        value_bearing_vpi_type(t) ==> spec_classify(h, t, size) == AnyHandle::Logic(
            LogicHandle {
                h,
                width: if size < 0 {
                    0u32
                } else {
                    size as u32
                },
            },
        ),
        t != 32 && !value_bearing_vpi_type(t) ==> spec_classify(h, t, size) == AnyHandle::Other(h, t),
{
}

} // verus!

