//! The talk inference domain: its closed set of operations and the voice
//! style categories it serves.

use vstd::prelude::*;

verus! {

/// A voice style category a domain can serve.
#[derive(Clone, Copy, Debug, PartialEq, Eq, Hash, Structural)]
pub enum StyleType {
    Talk,
    SingingTeacher,
    FrameDecode,
    Sing,
}

/// One stage of the talk pipeline.  The enumeration is closed: a session set
/// for this domain holds exactly one session per variant.
#[derive(Clone, Copy, Debug, PartialEq, Eq, Hash, Structural)]
pub enum TalkOperation {
    PredictDuration,
    PredictIntonation,
    GenerateFullIntermediate,
    RenderAudioSegment,
}

impl TalkOperation {
    /// Every operation of the domain, once each, in declaration order.
    pub fn all() -> (r: Vec<TalkOperation>)
        ensures
            r@ == seq![
                TalkOperation::PredictDuration,
                TalkOperation::PredictIntonation,
                TalkOperation::GenerateFullIntermediate,
                TalkOperation::RenderAudioSegment,
            ],
    {
        let mut r: Vec<TalkOperation> = Vec::new();
        r.push(TalkOperation::PredictDuration);
        r.push(TalkOperation::PredictIntonation);
        r.push(TalkOperation::GenerateFullIntermediate);
        r.push(TalkOperation::RenderAudioSegment);
        proof {
            assert(r@ =~= seq![
                TalkOperation::PredictDuration,
                TalkOperation::PredictIntonation,
                TalkOperation::GenerateFullIntermediate,
                TalkOperation::RenderAudioSegment,
            ]);
        }
        r
    }
}

/// The talk synthesis pipeline as a domain: four operations, serving the
/// `Talk` style category alone.
pub struct TalkDomain;

impl TalkDomain {
    /// The style categories this domain serves.
    pub fn style_types() -> (r: Vec<StyleType>)
        ensures
            r@ == seq![StyleType::Talk],
    {
        let mut r: Vec<StyleType> = Vec::new();
        r.push(StyleType::Talk);
        proof {
            assert(r@ =~= seq![StyleType::Talk]);
        }
        r
    }
}

/// A total map from talk operations to values: one field per operation, so a
/// value for every operation is enforced at construction, with no partial
/// sets.
pub struct OperationMap<T> {
    pub predict_duration: T,
    pub predict_intonation: T,
    pub generate_full_intermediate: T,
    pub render_audio_segment: T,
}

impl<T> OperationMap<T> {
    /// The value stored for one operation.
    pub open spec fn spec_get(&self, op: TalkOperation) -> &T {
        match op {
            TalkOperation::PredictDuration => &self.predict_duration,
            TalkOperation::PredictIntonation => &self.predict_intonation,
            TalkOperation::GenerateFullIntermediate => &self.generate_full_intermediate,
            TalkOperation::RenderAudioSegment => &self.render_audio_segment,
        }
    }

    pub fn get(&self, op: TalkOperation) -> (r: &T)
        ensures
            r == self.spec_get(op),
    {
        match op {
            TalkOperation::PredictDuration => &self.predict_duration,
            TalkOperation::PredictIntonation => &self.predict_intonation,
            TalkOperation::GenerateFullIntermediate => &self.generate_full_intermediate,
            TalkOperation::RenderAudioSegment => &self.render_audio_segment,
        }
    }
}

} // verus!
