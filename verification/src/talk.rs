//! The concrete input and output signature types of the talk domain's four
//! operations.
//!
//! Each input type declares, per field, the tensor signature the loaded
//! model must expose; each output type declares the signature its run
//! results must fit.

use vstd::prelude::*;
use vstd::string::StringExecFns;

use crate::domain::TalkOperation;
use crate::infer::{spec_tensors_fit, InputSignature, OutputSignature, RunModelError};
use crate::signature::{ParamInfo, ParamInfoView};
use crate::tensor::{Tensor, TensorDtype};

verus! {

fn info(name: &str, dtype: TensorDtype, rank: usize) -> (r: ParamInfo)
    ensures
        r@ == (ParamInfoView { name: name@, dtype, rank: Some(rank) }),
{
    ParamInfo { name: name.to_owned(), dtype, rank: Some(rank) }
}

/// Takes the lone result tensor of a run, checking arity, dtype and rank
/// against the declared output signature.
fn take_single_checked(raw: Vec<Tensor>, dtype: TensorDtype, rank: usize) -> (r: Result<
    Tensor,
    RunModelError,
>)
    ensures
        r is Ok <==> (raw@.len() == 1 && raw@[0].spec_dtype() == dtype && raw@[0].spec_rank()
            == rank),
        r matches Ok(t) ==> t == raw@[0],
        r matches Err(e) ==> !(e is Execute),
{
    if raw.len() != 1 {
        return Err(RunModelError::OutputArity { expected: 1, actual: raw.len() });
    }
    let fits = raw[0].dtype() == dtype && raw[0].rank() == rank;
    if !fits {
        return Err(RunModelError::OutputTensor { index: 0 });
    }
    let mut raw = raw;
    let t = raw.remove(0);
    Ok(t)
}

/// The single-field output signatures share this shape: one tensor of the
/// given dtype and rank under the given name.
pub open spec fn spec_single_infos(name: Seq<char>, dtype: TensorDtype, rank: usize) -> Seq<
    ParamInfoView,
> {
    seq![ParamInfoView { name, dtype, rank: Some(rank) }]
}

/// Phoneme ids and a speaker id, predicting one duration per phoneme.
pub struct PredictDurationInput {
    pub phoneme_list: Tensor,
    pub speaker_id: Tensor,
}

/// Per-phoneme durations.
pub struct PredictDurationOutput {
    pub phoneme_length: Tensor,
}

/// Phoneme and accent structure plus a speaker id, predicting a pitch
/// contour.
pub struct PredictIntonationInput {
    pub length: Tensor,
    pub vowel_phoneme_list: Tensor,
    pub consonant_phoneme_list: Tensor,
    pub start_accent_list: Tensor,
    pub end_accent_list: Tensor,
    pub start_accent_phrase_list: Tensor,
    pub end_accent_phrase_list: Tensor,
    pub speaker_id: Tensor,
}

/// The predicted pitch contour.
pub struct PredictIntonationOutput {
    pub f0_list: Tensor,
}

/// Pitch contour, phoneme features and a speaker id, generating the
/// intermediate spectral representation.
pub struct GenerateFullIntermediateInput {
    pub f0: Tensor,
    pub phoneme: Tensor,
    pub speaker_id: Tensor,
}

/// The intermediate spectral representation.
pub struct GenerateFullIntermediateOutput {
    pub spectrogram: Tensor,
}

/// The intermediate spectral representation, rendered to a waveform.
pub struct RenderAudioSegmentInput {
    pub spectrogram: Tensor,
}

/// The rendered waveform segment.
pub struct RenderAudioSegmentOutput {
    pub wave: Tensor,
}

impl InputSignature for PredictDurationInput {
    type Output = PredictDurationOutput;

    open spec fn spec_operation() -> TalkOperation {
        TalkOperation::PredictDuration
    }

    open spec fn spec_param_infos() -> Seq<ParamInfoView> {
        seq![
            ParamInfoView { name: "phoneme_list"@, dtype: TensorDtype::Int64, rank: Some(1) },
            ParamInfoView { name: "speaker_id"@, dtype: TensorDtype::Int64, rank: Some(1) },
        ]
    }

    open spec fn spec_tensors(&self) -> Seq<Tensor> {
        seq![self.phoneme_list, self.speaker_id]
    }

    fn operation() -> TalkOperation {
        TalkOperation::PredictDuration
    }

    fn param_infos() -> (r: Vec<ParamInfo>) {
        let mut r: Vec<ParamInfo> = Vec::new();
        r.push(info("phoneme_list", TensorDtype::Int64, 1));
        r.push(info("speaker_id", TensorDtype::Int64, 1));
        proof {
            assert(r.deep_view() =~= Self::spec_param_infos());
        }
        r
    }

    fn into_tensors(self) -> (r: Vec<Tensor>) {
        let mut r: Vec<Tensor> = Vec::new();
        r.push(self.phoneme_list);
        r.push(self.speaker_id);
        proof {
            assert(r@ =~= self.spec_tensors());
        }
        r
    }
}

impl OutputSignature for PredictDurationOutput {
    open spec fn spec_param_infos() -> Seq<ParamInfoView> {
        spec_single_infos("phoneme_length"@, TensorDtype::Float32, 1)
    }

    open spec fn spec_of_raw(raw: Seq<Tensor>) -> Self {
        PredictDurationOutput { phoneme_length: raw[0] }
    }

    open spec fn spec_tensors(&self) -> Seq<Tensor> {
        seq![self.phoneme_length]
    }

    fn param_infos() -> (r: Vec<ParamInfo>) {
        let mut r: Vec<ParamInfo> = Vec::new();
        r.push(info("phoneme_length", TensorDtype::Float32, 1));
        proof {
            assert(r.deep_view() =~= Self::spec_param_infos());
        }
        r
    }

    fn from_tensors(raw: Vec<Tensor>) -> (r: Result<Self, RunModelError>) {
        let ghost raw0 = raw@;
        match take_single_checked(raw, TensorDtype::Float32, 1) {
            Ok(t) => {
                let o = PredictDurationOutput { phoneme_length: t };
                proof {
                    assert(o.spec_tensors() =~= raw0);
                }
                Ok(o)
            },
            Err(e) => {
                proof {
                    lemma_single_unfit(Self::spec_param_infos(), raw0);
                }
                Err(e)
            },
        }
    }
}

/// A tensor list that fails the single-field check does not fit a
/// single-field signature.
proof fn lemma_single_unfit(infos: Seq<ParamInfoView>, raw: Seq<Tensor>)
    requires
        infos.len() == 1,
        infos[0].rank is Some,
        !(raw.len() == 1 && raw[0].spec_dtype() == infos[0].dtype && raw[0].spec_rank()
            == infos[0].rank->0),
    ensures
        !spec_tensors_fit(infos, raw),
{
}

impl InputSignature for PredictIntonationInput {
    type Output = PredictIntonationOutput;

    open spec fn spec_operation() -> TalkOperation {
        TalkOperation::PredictIntonation
    }

    open spec fn spec_param_infos() -> Seq<ParamInfoView> {
        seq![
            ParamInfoView { name: "length"@, dtype: TensorDtype::Int64, rank: Some(0) },
            ParamInfoView { name: "vowel_phoneme_list"@, dtype: TensorDtype::Int64, rank: Some(1) },
            ParamInfoView {
                name: "consonant_phoneme_list"@,
                dtype: TensorDtype::Int64,
                rank: Some(1),
            },
            ParamInfoView { name: "start_accent_list"@, dtype: TensorDtype::Int64, rank: Some(1) },
            ParamInfoView { name: "end_accent_list"@, dtype: TensorDtype::Int64, rank: Some(1) },
            ParamInfoView {
                name: "start_accent_phrase_list"@,
                dtype: TensorDtype::Int64,
                rank: Some(1),
            },
            ParamInfoView {
                name: "end_accent_phrase_list"@,
                dtype: TensorDtype::Int64,
                rank: Some(1),
            },
            ParamInfoView { name: "speaker_id"@, dtype: TensorDtype::Int64, rank: Some(1) },
        ]
    }

    open spec fn spec_tensors(&self) -> Seq<Tensor> {
        seq![
            self.length,
            self.vowel_phoneme_list,
            self.consonant_phoneme_list,
            self.start_accent_list,
            self.end_accent_list,
            self.start_accent_phrase_list,
            self.end_accent_phrase_list,
            self.speaker_id,
        ]
    }

    fn operation() -> TalkOperation {
        TalkOperation::PredictIntonation
    }

    fn param_infos() -> (r: Vec<ParamInfo>) {
        let mut r: Vec<ParamInfo> = Vec::new();
        r.push(info("length", TensorDtype::Int64, 0));
        r.push(info("vowel_phoneme_list", TensorDtype::Int64, 1));
        r.push(info("consonant_phoneme_list", TensorDtype::Int64, 1));
        r.push(info("start_accent_list", TensorDtype::Int64, 1));
        r.push(info("end_accent_list", TensorDtype::Int64, 1));
        r.push(info("start_accent_phrase_list", TensorDtype::Int64, 1));
        r.push(info("end_accent_phrase_list", TensorDtype::Int64, 1));
        r.push(info("speaker_id", TensorDtype::Int64, 1));
        proof {
            assert(r.deep_view() =~= Self::spec_param_infos());
        }
        r
    }

    fn into_tensors(self) -> (r: Vec<Tensor>) {
        let mut r: Vec<Tensor> = Vec::new();
        r.push(self.length);
        r.push(self.vowel_phoneme_list);
        r.push(self.consonant_phoneme_list);
        r.push(self.start_accent_list);
        r.push(self.end_accent_list);
        r.push(self.start_accent_phrase_list);
        r.push(self.end_accent_phrase_list);
        r.push(self.speaker_id);
        proof {
            assert(r@ =~= self.spec_tensors());
        }
        r
    }
}

impl OutputSignature for PredictIntonationOutput {
    open spec fn spec_param_infos() -> Seq<ParamInfoView> {
        spec_single_infos("f0_list"@, TensorDtype::Float32, 1)
    }

    open spec fn spec_of_raw(raw: Seq<Tensor>) -> Self {
        PredictIntonationOutput { f0_list: raw[0] }
    }

    open spec fn spec_tensors(&self) -> Seq<Tensor> {
        seq![self.f0_list]
    }

    fn param_infos() -> (r: Vec<ParamInfo>) {
        let mut r: Vec<ParamInfo> = Vec::new();
        r.push(info("f0_list", TensorDtype::Float32, 1));
        proof {
            assert(r.deep_view() =~= Self::spec_param_infos());
        }
        r
    }

    fn from_tensors(raw: Vec<Tensor>) -> (r: Result<Self, RunModelError>) {
        let ghost raw0 = raw@;
        match take_single_checked(raw, TensorDtype::Float32, 1) {
            Ok(t) => {
                let o = PredictIntonationOutput { f0_list: t };
                proof {
                    assert(o.spec_tensors() =~= raw0);
                }
                Ok(o)
            },
            Err(e) => {
                proof {
                    lemma_single_unfit(Self::spec_param_infos(), raw0);
                }
                Err(e)
            },
        }
    }
}

impl InputSignature for GenerateFullIntermediateInput {
    type Output = GenerateFullIntermediateOutput;

    open spec fn spec_operation() -> TalkOperation {
        TalkOperation::GenerateFullIntermediate
    }

    open spec fn spec_param_infos() -> Seq<ParamInfoView> {
        seq![
            ParamInfoView { name: "f0"@, dtype: TensorDtype::Float32, rank: Some(2) },
            ParamInfoView { name: "phoneme"@, dtype: TensorDtype::Float32, rank: Some(2) },
            ParamInfoView { name: "speaker_id"@, dtype: TensorDtype::Int64, rank: Some(1) },
        ]
    }

    open spec fn spec_tensors(&self) -> Seq<Tensor> {
        seq![self.f0, self.phoneme, self.speaker_id]
    }

    fn operation() -> TalkOperation {
        TalkOperation::GenerateFullIntermediate
    }

    fn param_infos() -> (r: Vec<ParamInfo>) {
        let mut r: Vec<ParamInfo> = Vec::new();
        r.push(info("f0", TensorDtype::Float32, 2));
        r.push(info("phoneme", TensorDtype::Float32, 2));
        r.push(info("speaker_id", TensorDtype::Int64, 1));
        proof {
            assert(r.deep_view() =~= Self::spec_param_infos());
        }
        r
    }

    fn into_tensors(self) -> (r: Vec<Tensor>) {
        let mut r: Vec<Tensor> = Vec::new();
        r.push(self.f0);
        r.push(self.phoneme);
        r.push(self.speaker_id);
        proof {
            assert(r@ =~= self.spec_tensors());
        }
        r
    }
}

impl OutputSignature for GenerateFullIntermediateOutput {
    open spec fn spec_param_infos() -> Seq<ParamInfoView> {
        spec_single_infos("spec"@, TensorDtype::Float32, 2)
    }

    open spec fn spec_of_raw(raw: Seq<Tensor>) -> Self {
        GenerateFullIntermediateOutput { spectrogram: raw[0] }
    }

    open spec fn spec_tensors(&self) -> Seq<Tensor> {
        seq![self.spectrogram]
    }

    fn param_infos() -> (r: Vec<ParamInfo>) {
        let mut r: Vec<ParamInfo> = Vec::new();
        r.push(info("spec", TensorDtype::Float32, 2));
        proof {
            assert(r.deep_view() =~= Self::spec_param_infos());
        }
        r
    }

    fn from_tensors(raw: Vec<Tensor>) -> (r: Result<Self, RunModelError>) {
        let ghost raw0 = raw@;
        match take_single_checked(raw, TensorDtype::Float32, 2) {
            Ok(t) => {
                let o = GenerateFullIntermediateOutput { spectrogram: t };
                proof {
                    assert(o.spec_tensors() =~= raw0);
                }
                Ok(o)
            },
            Err(e) => {
                proof {
                    lemma_single_unfit(Self::spec_param_infos(), raw0);
                }
                Err(e)
            },
        }
    }
}

impl InputSignature for RenderAudioSegmentInput {
    type Output = RenderAudioSegmentOutput;

    open spec fn spec_operation() -> TalkOperation {
        TalkOperation::RenderAudioSegment
    }

    open spec fn spec_param_infos() -> Seq<ParamInfoView> {
        seq![ParamInfoView { name: "spec"@, dtype: TensorDtype::Float32, rank: Some(2) }]
    }

    open spec fn spec_tensors(&self) -> Seq<Tensor> {
        seq![self.spectrogram]
    }

    fn operation() -> TalkOperation {
        TalkOperation::RenderAudioSegment
    }

    fn param_infos() -> (r: Vec<ParamInfo>) {
        let mut r: Vec<ParamInfo> = Vec::new();
        r.push(info("spec", TensorDtype::Float32, 2));
        proof {
            assert(r.deep_view() =~= Self::spec_param_infos());
        }
        r
    }

    fn into_tensors(self) -> (r: Vec<Tensor>) {
        let mut r: Vec<Tensor> = Vec::new();
        r.push(self.spectrogram);
        proof {
            assert(r@ =~= self.spec_tensors());
        }
        r
    }
}

impl OutputSignature for RenderAudioSegmentOutput {
    open spec fn spec_param_infos() -> Seq<ParamInfoView> {
        spec_single_infos("wave"@, TensorDtype::Float32, 1)
    }

    open spec fn spec_of_raw(raw: Seq<Tensor>) -> Self {
        RenderAudioSegmentOutput { wave: raw[0] }
    }

    open spec fn spec_tensors(&self) -> Seq<Tensor> {
        seq![self.wave]
    }

    fn param_infos() -> (r: Vec<ParamInfo>) {
        let mut r: Vec<ParamInfo> = Vec::new();
        r.push(info("wave", TensorDtype::Float32, 1));
        proof {
            assert(r.deep_view() =~= Self::spec_param_infos());
        }
        r
    }

    fn from_tensors(raw: Vec<Tensor>) -> (r: Result<Self, RunModelError>) {
        let ghost raw0 = raw@;
        match take_single_checked(raw, TensorDtype::Float32, 1) {
            Ok(t) => {
                let o = RenderAudioSegmentOutput { wave: t };
                proof {
                    assert(o.spec_tensors() =~= raw0);
                }
                Ok(o)
            },
            Err(e) => {
                proof {
                    lemma_single_unfit(Self::spec_param_infos(), raw0);
                }
                Err(e)
            },
        }
    }
}

} // verus!
