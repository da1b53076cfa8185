//! Backend-neutral cycle models and the values of the direct cycle ABI.
//!
//! A cycle model consumes plain values, produces the next cycle's drive
//! values, and returns a structured status. The same model can sit behind a
//! VPI adapter or a generated direct-port adapter.

use vstd::prelude::*;
use crate::text::push_char;
use vstd::std_specs::iter::IteratorSpec;

verus! {

broadcast use vstd::string::group_string_axioms;

/// Version of the direct cycle ABI described by [`CycleAbiInfo`].
pub const CYCLE_ABI_VERSION: u32 = 1;

/// What a cycle model reports after a cycle.
#[derive(Clone, Copy, Debug, PartialEq, Eq, Structural)]
pub enum CycleStatus {
    Continue,
    Pass,
    Fail,
}

/// The ABI's numbering of a status: `Continue` 0, `Pass` 1, `Fail` 2.
pub open spec fn status_code(s: CycleStatus) -> u32 {
    match s {
        CycleStatus::Continue => 0,
        CycleStatus::Pass => 1,
        CycleStatus::Fail => 2,
    }
}

impl CycleStatus {
    /// The status with ABI number `value`, if there is one.
    pub fn from_raw(value: u32) -> (r: Option<Self>)
        ensures
            r is Some <==> value <= 2,
            r matches Some(s) ==> status_code(s) == value,
    {
        match value {
            0 => Some(CycleStatus::Continue),
            1 => Some(CycleStatus::Pass),
            2 => Some(CycleStatus::Fail),
            _ => None,
        }
    }

    /// The ABI number of this status.
    pub fn to_raw(self) -> (r: u32)
        ensures
            r == status_code(self),
    {
        match self {
            CycleStatus::Continue => 0,
            CycleStatus::Pass => 1,
            CycleStatus::Fail => 2,
        }
    }
}

/// Round trip of the ABI numbering: reading back the number of a status gives
/// the status again, and every number the ABI defines names exactly one status.
pub proof fn lemma_status_code_round_trip(s: CycleStatus, value: u32)
    ensures
        status_code(s) <= 2,
        status_code(s) == value ==> (value == 0 ==> s == CycleStatus::Continue) && (value == 1
            ==> s == CycleStatus::Pass) && (value == 2 ==> s == CycleStatus::Fail),
{
}

/// The fixed prefix of the ABI description: version and total size.
#[derive(Clone, Copy, Debug, PartialEq, Eq, Structural)]
pub struct CycleAbiHeader {
    pub abi_version: u32,
    pub info_size: u32,
}

/// Layout description of a model's input and output records.
#[derive(Clone, Copy, Debug, PartialEq, Eq)]
pub struct CycleAbiInfo {
    pub abi_version: u32,
    pub info_size: u32,
    pub input_size: u32,
    pub input_align: u32,
    pub output_size: u32,
    pub output_align: u32,
    pub schema_hash: u64,
    pub reserved: [u64; 4],
}

impl CycleAbiInfo {
    /// Describe input type `I` and output type `O` under `schema_hash`.
    pub fn for_types<I, O>(schema_hash: u64) -> (r: Self)
        ensures
            r.abi_version == CYCLE_ABI_VERSION,
            r.info_size == vstd::layout::size_of::<CycleAbiInfo>() as u32,
            r.input_size == vstd::layout::size_of::<I>() as u32,
            r.input_align == vstd::layout::align_of::<I>() as u32,
            r.output_size == vstd::layout::size_of::<O>() as u32,
            r.output_align == vstd::layout::align_of::<O>() as u32,
            r.schema_hash == schema_hash,
            r.reserved@ == seq![0u64, 0u64, 0u64, 0u64],
    {
        let reserved: [u64; 4] = [0, 0, 0, 0];
        let r = CycleAbiInfo {
            abi_version: CYCLE_ABI_VERSION,
            info_size: core::mem::size_of::<CycleAbiInfo>() as u32,
            input_size: core::mem::size_of::<I>() as u32,
            input_align: core::mem::align_of::<I>() as u32,
            output_size: core::mem::size_of::<O>() as u32,
            output_align: core::mem::align_of::<O>() as u32,
            schema_hash,
            reserved,
        };
        assert(r.reserved@ =~= seq![0u64, 0u64, 0u64, 0u64]);
        r
    }
}

/// A synchronous value model independent of VPI and Verilator handles.
pub trait CycleModel<I, O>: Sized {
    /// Create the model and initialize the values driven before cycle zero.
    fn new(outputs: &mut O) -> Result<Self, String>;

    /// Observe the just-completed cycle and prepare drives for the next one.
    fn step(&mut self, inputs: &I, outputs: &mut O) -> Result<CycleStatus, String>;

    /// Optional end-of-simulation check; by default it passes and leaves the
    /// model as it is.
    fn finish(&mut self) -> (r: Result<(), String>)
        default_ensures
            r == Ok::<(), String>(()),
            *final(self) == *old(self),
    {
        Ok(())
    }
}

/// A message with every NUL character written as the two characters `\0`.
pub open spec fn escape_nuls(m: Seq<char>) -> Seq<char>
    decreases m.len(),
{
    if m.len() == 0 {
        Seq::empty()
    } else {
        let rest = escape_nuls(m.drop_last());
        if m.last() == '\0' {
            rest + seq!['\\', '0']
        } else {
            rest.push(m.last())
        }
    }
}

/// Whether a text holds a NUL character.
pub open spec fn has_nul(m: Seq<char>) -> bool {
    exists|i: int| 0 <= i < m.len() && m[i] == '\0'
}

/// Escaped messages hold no NUL, so the ABI can hand them out as C strings.
pub proof fn lemma_escaped_has_no_nul(m: Seq<char>)
    ensures
        !has_nul(escape_nuls(m)),
    decreases m.len(),
{
    if m.len() > 0 {
        lemma_escaped_has_no_nul(m.drop_last());
        let rest = escape_nuls(m.drop_last());
        let e = escape_nuls(m);
        assert forall|i: int| 0 <= i < e.len() implies e[i] != '\0' by {
            if i < rest.len() {
                assert(e[i] == rest[i]);
            }
        }
    }
}

/// Messages without NUL pass through unchanged.
pub proof fn lemma_escape_keeps_nul_free_text(m: Seq<char>)
    requires
        !has_nul(m),
    ensures
        escape_nuls(m) == m,
    decreases m.len(),
{
    if m.len() > 0 {
        assert(!has_nul(m.drop_last())) by {
            if has_nul(m.drop_last()) {
                let i = choose|i: int| 0 <= i < m.drop_last().len() && m.drop_last()[i] == '\0';
                assert(m[i] == '\0');
            }
        }
        lemma_escape_keeps_nul_free_text(m.drop_last());
        assert(m.last() != '\0') by {
            assert(m[m.len() - 1] == m.last());
        }
        assert(m.drop_last().push(m.last()) =~= m);
    }
}

/// Replace every NUL in `message` by the two characters `\0`.
pub fn escape_message(message: &str) -> (r: String)
    ensures
        r@ == escape_nuls(message@),
{
    let mut out = String::new();
    let mut chars = message.chars();
    let ghost mut k: int = 0;
    loop
        invariant
            0 <= k <= message@.len(),
            chars.remaining() == message@.skip(k),
            chars.obeys_prophetic_iter_laws(),
            out@ == escape_nuls(message@.take(k)),
        ensures
            out@ == escape_nuls(message@),
        decreases message@.len() - k,
    {
        let ghost before = chars;
        let next = chars.next();
        proof {
            vstd::string::next_postcondition(&before, &chars, next);
        }
        match next {
            None => {
                assert(message@.take(k) =~= message@);
                break;
            },
            Some(c) => {
                proof {
                    assert(c == message@[k]);
                    assert(message@.take(k + 1).drop_last() =~= message@.take(k));
                    assert(chars.remaining() =~= message@.skip(k + 1));
                }
                if c == '\0' {
                    push_char(&mut out, '\\');
                    push_char(&mut out, '0');
                    proof {
                        assert(out@ =~= escape_nuls(message@.take(k)) + seq!['\\', '0']);
                    }
                } else {
                    push_char(&mut out, c);
                }
                proof {
                    k = k + 1;
                }
            },
        }
    }
    out
}

/// A model together with the last error it reported, as the cycle ABI keeps it.
pub struct ExportContext<M> {
    model: M,
    error: String,
}

impl<M> ExportContext<M> {
    /// The error text held for the ABI: empty until a step or finish fails.
    pub closed spec fn error_text(&self) -> Seq<char> {
        self.error@
    }

    /// The model this context runs.
    pub closed spec fn model(&self) -> M {
        self.model
    }

    /// A context for a freshly created model, with no error recorded.
    pub fn new(model: M) -> (r: Self)
        ensures
            r.error_text() == Seq::<char>::empty(),
            r.model() == model,
    {
        ExportContext { model, error: String::new() }
    }

    /// The last error recorded, NUL-free.
    pub fn error(&self) -> (r: &String)
        ensures
            r@ == self.error_text(),
    {
        &self.error
    }

    /// Record what a step of the model returned, and give the ABI status number.
    pub fn record_step(&mut self, result: Result<CycleStatus, String>) -> (r: u32)
        ensures
            match result {
                Ok(s) => r == status_code(s) && final(self).error_text() == old(self).error_text(),
                Err(m) => r == status_code(CycleStatus::Fail) && final(self).error_text()
                    == escape_nuls(m@),
            },
    {
        match result {
            Ok(status) => status.to_raw(),
            Err(message) => {
                self.error = escape_message(message.as_str());
                CycleStatus::Fail.to_raw()
            },
        }
    }

    /// Record what the model's final check returned, and give the ABI status number.
    pub fn record_finish(&mut self, result: Result<(), String>) -> (r: u32)
        ensures
            match result {
                Ok(()) => r == status_code(CycleStatus::Pass) && final(self).error_text() == old(
                    self,
                ).error_text(),
                Err(m) => r == status_code(CycleStatus::Fail) && final(self).error_text()
                    == escape_nuls(m@),
            },
    {
        match result {
            Ok(()) => CycleStatus::Pass.to_raw(),
            Err(message) => {
                self.error = escape_message(message.as_str());
                CycleStatus::Fail.to_raw()
            },
        }
    }
}

impl<M> ExportContext<M> {
    /// Adopt what a model's constructor returned: the model, in a context
    /// with no error recorded, or the constructor's message unchanged.
    pub fn from_created(created: Result<M, String>) -> (r: Result<Self, String>)
        ensures
            match created {
                Ok(m) => r matches Ok(c) && c.model() == m && c.error_text() == Seq::<char>::empty(),
                Err(e) => r matches Err(x) && x == e,
            },
    {
        match created {
            Ok(model) => Ok(ExportContext::new(model)),
            Err(message) => Err(message),
        }
    }

    /// Create a model through its constructor, keeping it with an empty error.
    /// The constructor's own error message is handed back unchanged.
    pub fn create<I, O>(outputs: &mut O) -> (r: Result<Self, String>)
        where M: CycleModel<I, O>,
        ensures
            r matches Ok(c) ==> c.error_text() == Seq::<char>::empty(),
    {
        let created = M::new(outputs);
        Self::from_created(created)
    }

    /// Run one cycle of the model and record its outcome.
    pub fn step<I, O>(&mut self, inputs: &I, outputs: &mut O) -> (r: u32)
        where M: CycleModel<I, O>,
        ensures
            r <= 2,
            r != status_code(CycleStatus::Fail) ==> final(self).error_text() == old(
                self,
            ).error_text(),
    {
        let result = self.model.step(inputs, outputs);
        self.record_step(result)
    }

    /// Run the model's final check and record its outcome.
    pub fn finish<I, O>(&mut self) -> (r: u32)
        where M: CycleModel<I, O>,
        ensures
            r == status_code(CycleStatus::Pass) || r == status_code(CycleStatus::Fail),
            r == status_code(CycleStatus::Pass) ==> final(self).error_text() == old(
                self,
            ).error_text(),
    {
        let result = self.model.finish();
        self.record_finish(result)
    }
}


/// The result of running a model to its end: the run's error if it had one,
/// else the final check's error, else the status that ended the run.
pub fn run_outcome(result: Result<CycleStatus, String>, finish: Result<(), String>) -> (r: Result<
    CycleStatus,
    String,
>)
    ensures
        result matches Err(e) ==> (r matches Err(x) && x@ == e@),
        result matches Ok(s) ==> match finish {
            Err(e) => r matches Err(x) && x@ == e@,
            Ok(()) => r == Ok::<CycleStatus, String>(s),
        },
{
    match (result, finish) {
        (Err(error), _) => Err(error),
        (Ok(_), Err(error)) => Err(error),
        (Ok(status), Ok(())) => Ok(status),
    }
}

/// What the run loop does after a model step: keep running on `Continue`,
/// stop with the status otherwise.
pub fn keeps_running(status: CycleStatus) -> (r: bool)
    ensures
        r == (status == CycleStatus::Continue),
{
    match status {
        CycleStatus::Continue => true,
        _ => false,
    }
}

} // verus!
