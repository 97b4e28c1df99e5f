use voicevox_core::domain::{OperationMap, StyleType, TalkDomain, TalkOperation};
use voicevox_core::infer::{InputSignature, OutputSignature, RunModelError};
use voicevox_core::runtime::{InferenceRuntime, ModelBytesSupplier, PlainModelBytes, SessionOptions};
use voicevox_core::session_set::{ConstructionError, InferenceSessionSet, LoadDiagnostic};
use voicevox_core::signature::ParamInfo;
use voicevox_core::talk::{
    GenerateFullIntermediateInput, GenerateFullIntermediateOutput, PredictDurationInput,
    PredictDurationOutput, PredictIntonationInput, PredictIntonationOutput,
    RenderAudioSegmentInput, RenderAudioSegmentOutput,
};
use voicevox_core::tensor::{Tensor, TensorData, TensorDtype};

/// What the fake runtime reports for the model with a given tag byte.
fn declared_infos(tag: u8) -> (Vec<ParamInfo>, Vec<ParamInfo>) {
    match tag {
        0 => (
            PredictDurationInput::param_infos(),
            PredictDurationOutput::param_infos(),
        ),
        1 => (
            PredictIntonationInput::param_infos(),
            PredictIntonationOutput::param_infos(),
        ),
        2 => (
            GenerateFullIntermediateInput::param_infos(),
            GenerateFullIntermediateOutput::param_infos(),
        ),
        _ => (
            RenderAudioSegmentInput::param_infos(),
            RenderAudioSegmentOutput::param_infos(),
        ),
    }
}

struct FakeSession {
    tag: u8,
    calls: u32,
    fail_first_run: bool,
    echo_bits: Vec<u32>,
    starve_outputs: bool,
}

#[derive(Clone)]
struct FakeRuntime {
    introspection: bool,
    reject_load: bool,
    fail_first_run: bool,
    echo_bits: Vec<u32>,
    /// Report these instead of the true infos for the model with this tag.
    tamper: Option<(u8, Vec<ParamInfo>, Vec<ParamInfo>)>,
    /// Make runs return no tensors at all.
    starve_outputs: bool,
}

impl FakeRuntime {
    fn well_behaved() -> Self {
        FakeRuntime {
            introspection: true,
            reject_load: false,
            fail_first_run: false,
            echo_bits: vec![1.5f32.to_bits(), (-2.0f32).to_bits(), 0.25f32.to_bits()],
            tamper: None,
            starve_outputs: false,
        }
    }
}

impl InferenceRuntime for FakeRuntime {
    type Session = FakeSession;

    fn supports_param_introspection(&self) -> bool {
        self.introspection
    }

    fn new_session<S: ModelBytesSupplier>(
        &self,
        model: &mut S,
        _options: &SessionOptions,
    ) -> Result<(FakeSession, Vec<ParamInfo>, Vec<ParamInfo>), String> {
        if self.reject_load {
            return Err("the backend rejected the model".to_string());
        }
        let bytes = model.obtain()?;
        let tag = bytes[0];
        let (inputs, outputs) = match &self.tamper {
            Some((t, i, o)) if *t == tag => (i.clone(), o.clone()),
            _ => declared_infos(tag),
        };
        Ok((
            FakeSession {
                tag,
                calls: 0,
                fail_first_run: self.fail_first_run,
                echo_bits: self.echo_bits.clone(),
                starve_outputs: self.starve_outputs,
            },
            inputs,
            outputs,
        ))
    }

    fn run(session: &mut FakeSession, _inputs: Vec<Tensor>) -> Result<Vec<Tensor>, String> {
        session.calls += 1;
        if session.fail_first_run && session.calls == 1 {
            return Err("execution failed".to_string());
        }
        if session.starve_outputs {
            return Ok(vec![]);
        }
        let bits = session.echo_bits.clone();
        let t = match session.tag {
            2 => {
                let cols = bits.len();
                Tensor::matrix_f32_bits(1, cols, bits)
            }
            _ => Tensor::vector_f32_bits(bits),
        };
        Ok(vec![t])
    }
}

fn models() -> OperationMap<PlainModelBytes> {
    OperationMap {
        predict_duration: PlainModelBytes { bytes: vec![0] },
        predict_intonation: PlainModelBytes { bytes: vec![1] },
        generate_full_intermediate: PlainModelBytes { bytes: vec![2] },
        render_audio_segment: PlainModelBytes { bytes: vec![3] },
    }
}

fn options() -> OperationMap<SessionOptions> {
    OperationMap {
        predict_duration: SessionOptions::new(1, false),
        predict_intonation: SessionOptions::new(1, false),
        generate_full_intermediate: SessionOptions::new(2, true),
        render_audio_segment: SessionOptions::new(4, false),
    }
}

fn duration_input() -> PredictDurationInput {
    PredictDurationInput {
        phoneme_list: Tensor::vector_i64(vec![10, 20, 30]),
        speaker_id: Tensor::vector_i64(vec![1]),
    }
}

#[test]
fn construction_succeeds_when_reports_match() {
    let rt = FakeRuntime::well_behaved();
    let set = InferenceSessionSet::new(&rt, models(), &options()).unwrap();
    let diagnostics = set.load_diagnostics();
    assert_eq!(
        *diagnostics,
        vec![
            LoadDiagnostic {
                operation: TalkOperation::PredictDuration,
                options: SessionOptions::new(1, false),
            },
            LoadDiagnostic {
                operation: TalkOperation::PredictIntonation,
                options: SessionOptions::new(1, false),
            },
            LoadDiagnostic {
                operation: TalkOperation::GenerateFullIntermediate,
                options: SessionOptions::new(2, true),
            },
            LoadDiagnostic {
                operation: TalkOperation::RenderAudioSegment,
                options: SessionOptions::new(4, false),
            },
        ]
    );
}

#[test]
fn construction_fails_on_a_rank_mismatch_with_a_full_diagnostic() {
    let mut rt = FakeRuntime::well_behaved();
    let (mut inputs, outputs) = declared_infos(0);
    inputs[0] = ParamInfo::new("phoneme_list".to_string(), TensorDtype::Int64, Some(2));
    rt.tamper = Some((0, inputs, outputs));
    match InferenceSessionSet::new(&rt, models(), &options()) {
        Err(ConstructionError::SignatureMismatch { operation, error }) => {
            assert_eq!(operation, TalkOperation::PredictDuration);
            assert_eq!(
                error.message(),
                "expected {phoneme_list: int64[], speaker_id: int64[]}, \
                 got {phoneme_list: int64[][], speaker_id: int64[]}"
            );
        }
        other => panic!("expected a signature mismatch, got {:?}", other.map(|_| ())),
    }
}

#[test]
fn construction_fails_on_a_name_mismatch() {
    let mut rt = FakeRuntime::well_behaved();
    let (inputs, mut outputs) = declared_infos(3);
    outputs[0] = ParamInfo::new("waveform".to_string(), TensorDtype::Float32, Some(1));
    rt.tamper = Some((3, inputs, outputs));
    match InferenceSessionSet::new(&rt, models(), &options()) {
        Err(ConstructionError::SignatureMismatch { operation, error }) => {
            assert_eq!(operation, TalkOperation::RenderAudioSegment);
            assert_eq!(error.message(), "expected {wave: float32[]}, got {waveform: float32[]}");
        }
        other => panic!("expected a signature mismatch, got {:?}", other.map(|_| ())),
    }
}

#[test]
fn construction_fails_on_a_field_count_mismatch() {
    let mut rt = FakeRuntime::well_behaved();
    let (mut inputs, outputs) = declared_infos(2);
    inputs.pop();
    rt.tamper = Some((2, inputs, outputs));
    match InferenceSessionSet::new(&rt, models(), &options()) {
        Err(ConstructionError::SignatureMismatch { operation, .. }) => {
            assert_eq!(operation, TalkOperation::GenerateFullIntermediate);
        }
        other => panic!("expected a signature mismatch, got {:?}", other.map(|_| ())),
    }
}

#[test]
fn construction_fails_when_the_backend_rejects_a_model() {
    let mut rt = FakeRuntime::well_behaved();
    rt.reject_load = true;
    match InferenceSessionSet::new(&rt, models(), &options()) {
        Err(ConstructionError::ModelLoad { operation, source }) => {
            assert_eq!(operation, TalkOperation::PredictDuration);
            assert_eq!(source, "the backend rejected the model");
        }
        other => panic!("expected a load failure, got {:?}", other.map(|_| ())),
    }
}

#[test]
fn a_runtime_without_introspection_is_trusted_unchecked() {
    let mut rt = FakeRuntime::well_behaved();
    rt.introspection = false;
    let (_, outputs) = declared_infos(0);
    // Garbage reports for every operation are ignored without introspection.
    rt.tamper = Some((0, vec![], outputs));
    assert!(InferenceSessionSet::new(&rt, models(), &options()).is_ok());
}

#[test]
fn run_echoes_the_configured_output() {
    let rt = FakeRuntime::well_behaved();
    let set = InferenceSessionSet::new(&rt, models(), &options()).unwrap();
    let cell = set.get::<PredictDurationInput>();
    let output = cell.run(duration_input()).unwrap();
    assert_eq!(output.phoneme_length.rank(), 1);
    assert_eq!(output.phoneme_length.dtype(), TensorDtype::Float32);
    match &output.phoneme_length.data {
        TensorData::Float32Bits(bits) => {
            let values: Vec<f32> = bits.iter().map(|b| f32::from_bits(*b)).collect();
            assert_eq!(values, vec![1.5, -2.0, 0.25]);
        }
        other => panic!("wrong output buffer: {other:?}"),
    }
}

#[test]
fn every_operation_yields_an_output_fitting_its_declared_signature() {
    let rt = FakeRuntime::well_behaved();
    let set = InferenceSessionSet::new(&rt, models(), &options()).unwrap();

    let duration = set.get::<PredictDurationInput>().run(duration_input()).unwrap();
    assert_eq!(duration.phoneme_length.rank(), 1);

    let intonation_input = PredictIntonationInput {
        length: Tensor::scalar_i64(2),
        vowel_phoneme_list: Tensor::vector_i64(vec![1, 2]),
        consonant_phoneme_list: Tensor::vector_i64(vec![3, 4]),
        start_accent_list: Tensor::vector_i64(vec![0, 1]),
        end_accent_list: Tensor::vector_i64(vec![1, 0]),
        start_accent_phrase_list: Tensor::vector_i64(vec![1, 0]),
        end_accent_phrase_list: Tensor::vector_i64(vec![0, 1]),
        speaker_id: Tensor::vector_i64(vec![1]),
    };
    let intonation = set.get::<PredictIntonationInput>().run(intonation_input).unwrap();
    assert_eq!(intonation.f0_list.rank(), 1);
    assert_eq!(intonation.f0_list.dtype(), TensorDtype::Float32);

    let intermediate_input = GenerateFullIntermediateInput {
        f0: Tensor::matrix_f32_bits(2, 1, vec![0, 0]),
        phoneme: Tensor::matrix_f32_bits(2, 3, vec![0; 6]),
        speaker_id: Tensor::vector_i64(vec![1]),
    };
    let intermediate = set.get::<GenerateFullIntermediateInput>().run(intermediate_input).unwrap();
    assert_eq!(intermediate.spectrogram.rank(), 2);

    let render_input = RenderAudioSegmentInput {
        spectrogram: Tensor::matrix_f32_bits(1, 3, vec![0; 3]),
    };
    let wave = set.get::<RenderAudioSegmentInput>().run(render_input).unwrap();
    assert_eq!(wave.wave.rank(), 1);
}

#[test]
fn a_failed_run_reports_once_and_leaves_the_lock_released() {
    let mut rt = FakeRuntime::well_behaved();
    rt.fail_first_run = true;
    let set = InferenceSessionSet::new(&rt, models(), &options()).unwrap();
    let cell = set.get::<PredictDurationInput>();
    let second = cell.clone();
    match second.run(duration_input()) {
        Err(RunModelError::Execute(message)) => assert_eq!(message, "execution failed"),
        other => panic!("expected an execution failure, got {:?}", other.map(|_| ())),
    }
    // The lock was released on the failure path: a second run on the same
    // operation goes through at once and succeeds.
    assert!(cell.run(duration_input()).is_ok());
}

#[test]
fn a_wrong_number_of_result_tensors_is_a_conversion_error() {
    let mut rt = FakeRuntime::well_behaved();
    rt.starve_outputs = true;
    let set = InferenceSessionSet::new(&rt, models(), &options()).unwrap();
    let cell = set.get::<PredictDurationInput>();
    match cell.run(duration_input()) {
        Err(RunModelError::OutputArity { expected, actual }) => {
            assert_eq!(expected, 1);
            assert_eq!(actual, 0);
        }
        other => panic!("expected an arity error, got {:?}", other.map(|_| ())),
    }
}

#[test]
fn the_talk_domain_serves_the_talk_style() {
    assert_eq!(TalkDomain::style_types(), vec![StyleType::Talk]);
    assert_eq!(
        TalkOperation::all(),
        vec![
            TalkOperation::PredictDuration,
            TalkOperation::PredictIntonation,
            TalkOperation::GenerateFullIntermediate,
            TalkOperation::RenderAudioSegment,
        ]
    );
}

/// A supplier whose bytes can never be produced.
struct FailingSupplier;

impl ModelBytesSupplier for FailingSupplier {
    fn obtain(&mut self) -> Result<Vec<u8>, String> {
        Err("storage failed".to_string())
    }
}

/// A degraded runtime that streams models itself and never asks for bytes.
struct ByteIgnoringRuntime;

impl InferenceRuntime for ByteIgnoringRuntime {
    type Session = ();

    fn supports_param_introspection(&self) -> bool {
        false
    }

    fn new_session<S: ModelBytesSupplier>(
        &self,
        _model: &mut S,
        _options: &SessionOptions,
    ) -> Result<((), Vec<ParamInfo>, Vec<ParamInfo>), String> {
        Ok(((), vec![], vec![]))
    }

    fn run(_session: &mut (), _inputs: Vec<Tensor>) -> Result<Vec<Tensor>, String> {
        Ok(vec![])
    }
}

fn failing_models() -> OperationMap<FailingSupplier> {
    OperationMap {
        predict_duration: FailingSupplier,
        predict_intonation: FailingSupplier,
        generate_full_intermediate: FailingSupplier,
        render_audio_segment: FailingSupplier,
    }
}

#[test]
fn model_bytes_are_produced_only_when_the_runtime_asks() {
    // A runtime that never pulls the bytes builds a set even though the
    // supplier could not produce them.
    assert!(InferenceSessionSet::new(&ByteIgnoringRuntime, failing_models(), &options()).is_ok());
}

#[test]
fn a_supplier_failure_surfaces_as_a_load_error() {
    let rt = FakeRuntime::well_behaved();
    match InferenceSessionSet::new(&rt, failing_models(), &options()) {
        Err(ConstructionError::ModelLoad { operation, source }) => {
            assert_eq!(operation, TalkOperation::PredictDuration);
            assert_eq!(source, "storage failed");
        }
        other => panic!("expected a load failure, got {:?}", other.map(|_| ())),
    }
}
