use rustdv::cycle::{
    escape_message, CycleAbiHeader, CycleAbiInfo, CycleModel, CycleStatus, ExportContext,
    CYCLE_ABI_VERSION,
};

#[derive(Default)]
struct Inputs {
    value: u64,
}

#[derive(Default)]
struct Outputs {
    value: u64,
}

struct Model;

impl CycleModel<Inputs, Outputs> for Model {
    fn new(outputs: &mut Outputs) -> Result<Self, String> {
        outputs.value = 1;
        Ok(Self)
    }

    fn step(&mut self, inputs: &Inputs, outputs: &mut Outputs) -> Result<CycleStatus, String> {
        outputs.value += inputs.value;
        Ok(if outputs.value >= 4 {
            CycleStatus::Pass
        } else {
            CycleStatus::Continue
        })
    }
}

#[test]
fn erased_context_runs_the_pure_contract() {
    let mut outputs = Outputs::default();
    let context = ExportContext::<Model>::create::<Inputs, Outputs>(&mut outputs);
    assert!(context.is_ok());
    let mut context = context.ok().unwrap();
    assert_eq!(outputs.value, 1);
    let inputs = Inputs { value: 3 };
    let status = context.step::<Inputs, Outputs>(&inputs, &mut outputs);
    assert_eq!(CycleStatus::from_raw(status), Some(CycleStatus::Pass));
    assert_eq!(outputs.value, 4);
}

#[test]
fn abi_info_describes_actual_layout() {
    let info = CycleAbiInfo::for_types::<Inputs, Outputs>(0x1234);
    assert_eq!(info.abi_version, CYCLE_ABI_VERSION);
    assert_eq!(info.input_size as usize, std::mem::size_of::<Inputs>());
    assert_eq!(info.output_align as usize, std::mem::align_of::<Outputs>());
    assert_eq!(info.schema_hash, 0x1234);
}

#[test]
fn abi_header_is_two_words() {
    assert_eq!(std::mem::size_of::<CycleAbiHeader>(), 8);
    let info = CycleAbiInfo::for_types::<u8, u64>(0);
    assert_eq!(info.info_size as usize, std::mem::size_of::<CycleAbiInfo>());
    assert_eq!(info.info_size, 64);
    assert_eq!(info.reserved, [0; 4]);
}

#[test]
fn status_numbers_round_trip() {
    for s in [CycleStatus::Continue, CycleStatus::Pass, CycleStatus::Fail] {
        assert_eq!(CycleStatus::from_raw(s.to_raw()), Some(s));
    }
    assert_eq!(CycleStatus::Continue.to_raw(), 0);
    assert_eq!(CycleStatus::Pass.to_raw(), 1);
    assert_eq!(CycleStatus::Fail.to_raw(), 2);
    assert_eq!(CycleStatus::from_raw(3), None);
    assert_eq!(CycleStatus::from_raw(u32::MAX), None);
}

struct Failing;

impl CycleModel<Inputs, Outputs> for Failing {
    fn new(_outputs: &mut Outputs) -> Result<Self, String> {
        Ok(Failing)
    }

    fn step(&mut self, _inputs: &Inputs, _outputs: &mut Outputs) -> Result<CycleStatus, String> {
        Err("bad\0cycle".to_string())
    }

    fn finish(&mut self) -> Result<(), String> {
        Err("final check".to_string())
    }
}

struct Refusing;

impl CycleModel<Inputs, Outputs> for Refusing {
    fn new(_outputs: &mut Outputs) -> Result<Self, String> {
        Err("no model".to_string())
    }

    fn step(&mut self, _inputs: &Inputs, _outputs: &mut Outputs) -> Result<CycleStatus, String> {
        Ok(CycleStatus::Continue)
    }
}

#[test]
fn failing_step_records_an_escaped_error() {
    let mut outputs = Outputs::default();
    let mut context = ExportContext::<Failing>::create::<Inputs, Outputs>(&mut outputs).ok().unwrap();
    assert_eq!(context.error().as_str(), "");
    let status = context.step::<Inputs, Outputs>(&Inputs::default(), &mut outputs);
    assert_eq!(status, 2);
    assert_eq!(context.error().as_str(), "bad\\0cycle");
    assert_eq!(context.finish::<Inputs, Outputs>(), 2);
    assert_eq!(context.error().as_str(), "final check");
}

#[test]
fn default_finish_passes_and_keeps_the_error() {
    let mut outputs = Outputs::default();
    let mut context = ExportContext::<Model>::create::<Inputs, Outputs>(&mut outputs).ok().unwrap();
    assert_eq!(context.record_step(Err("x".to_string())), 2);
    assert_eq!(context.finish::<Inputs, Outputs>(), 1);
    assert_eq!(context.error().as_str(), "x");
    assert_eq!(context.record_step(Ok(CycleStatus::Continue)), 0);
    assert_eq!(context.error().as_str(), "x");
}

#[test]
fn refused_creation_hands_back_the_message() {
    let mut outputs = Outputs::default();
    match ExportContext::<Refusing>::create::<Inputs, Outputs>(&mut outputs) {
        Ok(_) => panic!("creation should fail"),
        Err(message) => assert_eq!(message, "no model"),
    }
}

#[test]
fn escape_replaces_every_nul() {
    assert_eq!(escape_message("a\0b\0\0"), "a\\0b\\0\\0");
    assert_eq!(escape_message(""), "");
    assert_eq!(escape_message("héllo"), "héllo");
    assert_eq!(escape_message("x\0"), "x\0".replace('\0', "\\0"));
}

#[test]
fn adopted_constructor_results() {
    let ok = ExportContext::<Model>::from_created(Ok(Model));
    assert_eq!(ok.ok().unwrap().error().as_str(), "");
    match ExportContext::<Model>::from_created(Err("nope".to_string())) {
        Ok(_) => panic!("an error must be handed back"),
        Err(message) => assert_eq!(message, "nope"),
    }
}

#[test]
fn default_finish_passes() {
    let mut outputs = Outputs::default();
    let mut model = <Model as CycleModel<Inputs, Outputs>>::new(&mut outputs).ok().unwrap();
    assert_eq!(CycleModel::<Inputs, Outputs>::finish(&mut model), Ok(()));
}
