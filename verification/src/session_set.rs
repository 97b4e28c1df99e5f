//! Session sets and session cells.
//!
//! A session set owns exactly one lock-guarded session per operation of the
//! talk domain.  It is built once: for every operation a model is loaded
//! through the runtime and its reported tensor signatures are validated
//! against the declared ones; any failure aborts the whole construction.
//! Afterwards the set is read only, and callers obtain cheap, typed session
//! cells to execute single operations; runs of the same operation are
//! serialized by the per-operation lock, runs of different operations are
//! independent.

use vstd::prelude::*;
use vstd::rwlock::RwLock;

use std::marker::PhantomData;
use std::sync::Arc;

use crate::domain::{OperationMap, TalkOperation};
use crate::ext::clone_arc;
use crate::infer::{spec_tensors_fit, InputSignature, OutputSignature, RunModelError};
use crate::runtime::{InferenceRuntime, ModelBytesSupplier, SessionOptions};
use crate::signature::{
    signatures_match, spec_signatures_match, ParamInfo, SignatureMismatchError,
};
use crate::talk::{
    GenerateFullIntermediateInput, PredictDurationInput, PredictIntonationInput,
    RenderAudioSegmentInput,
};

verus! {

/// A construction-time failure.  Construction is all or nothing: when this
/// is returned, no session set exists and no partially built state is
/// observable.
#[derive(Clone, Debug)]
pub enum ConstructionError {
    /// A declared tensor signature disagrees with what the loaded model
    /// reported; carries both lists for diagnostics.
    SignatureMismatch { operation: TalkOperation, error: SignatureMismatchError },
    /// The runtime rejected the model bytes or the options.
    ModelLoad { operation: TalkOperation, source: String },
}

/// The structured record emitted for each successful model load.
#[derive(Clone, Copy, Debug, PartialEq, Eq, Structural)]
pub struct LoadDiagnostic {
    pub operation: TalkOperation,
    pub options: SessionOptions,
}

/// Validates a loaded model's reported signatures against the declared ones.
///
/// With introspection available this succeeds exactly when the declared
/// input and output signature lists both accept the reported ones,
/// positionally; the inputs are checked first, and the first mismatch is
/// returned with both of its lists.  Without introspection (the degraded
/// escape hatch) the check is skipped deliberately and the declared
/// signature is trusted unchecked.
pub fn validate_signatures(
    introspection: bool,
    expected_input: Vec<ParamInfo>,
    expected_output: Vec<ParamInfo>,
    actual_input: Vec<ParamInfo>,
    actual_output: Vec<ParamInfo>,
) -> (r: Result<(), SignatureMismatchError>)
    ensures
        r is Ok <==> (!introspection || (spec_signatures_match(
            expected_input.deep_view(),
            actual_input.deep_view(),
        ) && spec_signatures_match(expected_output.deep_view(), actual_output.deep_view()))),
        r matches Err(e) ==> introspection && !spec_signatures_match(
            e.expected.deep_view(),
            e.actual.deep_view(),
        ),
        r matches Err(e) ==> if !spec_signatures_match(
            expected_input.deep_view(),
            actual_input.deep_view(),
        ) {
            e.expected@ == expected_input@ && e.actual@ == actual_input@
        } else {
            e.expected@ == expected_output@ && e.actual@ == actual_output@
        },
{
    if !introspection {
        return Ok(());
    }
    if !signatures_match(&expected_input, &actual_input) {
        return Err(SignatureMismatchError { expected: expected_input, actual: actual_input });
    }
    if !signatures_match(&expected_output, &actual_output) {
        return Err(SignatureMismatchError { expected: expected_output, actual: actual_output });
    }
    Ok(())
}

/// Whatever session value is stored under this lock satisfies the lock's
/// invariant, so a session can always be handed back after a run.
pub open spec fn session_lock_ok<R: InferenceRuntime>(
    lock: &Arc<RwLock<R::Session, spec_fn(R::Session) -> bool>>,
) -> bool {
    forall|s: R::Session| (**lock).inv(s)
}

/// Loads and validates one operation's session.
fn create_session<R: InferenceRuntime, S: ModelBytesSupplier>(
    rt: &R,
    introspection: bool,
    model: &mut S,
    options: &SessionOptions,
    op: TalkOperation,
    expected_input: Vec<ParamInfo>,
    expected_output: Vec<ParamInfo>,
) -> (r: Result<Arc<RwLock<R::Session, spec_fn(R::Session) -> bool>>, ConstructionError>)
    ensures
        r matches Ok(lock) ==> session_lock_ok::<R>(&lock),
        r matches Err(e) ==> (e matches ConstructionError::SignatureMismatch {
            operation,
            error,
        } ==> operation == op && introspection && !spec_signatures_match(
            error.expected.deep_view(),
            error.actual.deep_view(),
        )),
        r matches Err(e) ==> (e matches ConstructionError::ModelLoad { operation, .. }
            ==> operation == op),
{
    match rt.new_session(model, options) {
        Err(source) => Err(ConstructionError::ModelLoad { operation: op, source }),
        Ok((session, actual_input, actual_output)) => {
            match validate_signatures(
                introspection,
                expected_input,
                expected_output,
                actual_input,
                actual_output,
            ) {
                Err(error) => Err(ConstructionError::SignatureMismatch { operation: op, error }),
                Ok(()) => {
                    let lock = RwLock::<R::Session, spec_fn(R::Session) -> bool>::new(
                        session,
                        Ghost(|s: R::Session| true),
                    );
                    Ok(Arc::new(lock))
                },
            }
        },
    }
}

/// One validated, immutable session per operation of the talk domain.
pub struct InferenceSessionSet<R: InferenceRuntime> {
    sessions: OperationMap<Arc<RwLock<R::Session, spec_fn(R::Session) -> bool>>>,
    diagnostics: Vec<LoadDiagnostic>,
}

/// A cheap, cloneable handle for executing one operation, typed by the
/// operation's input signature so that it can only be run with that input
/// type and always yields the statically paired output type.
pub struct InferenceSessionCell<R: InferenceRuntime, I: InputSignature> {
    inner: Arc<RwLock<R::Session, spec_fn(R::Session) -> bool>>,
    marker: PhantomData<I>,
}

impl<R: InferenceRuntime> InferenceSessionSet<R> {
    /// The lock guarding one operation's session.
    pub closed spec fn spec_session_lock(
        &self,
        op: TalkOperation,
    ) -> &Arc<RwLock<R::Session, spec_fn(R::Session) -> bool>> {
        self.sessions.spec_get(op)
    }

    /// The load records emitted during construction, one per operation.
    pub closed spec fn spec_diagnostics(&self) -> Seq<LoadDiagnostic> {
        self.diagnostics@
    }

    #[verifier::type_invariant]
    spec fn type_inv(&self) -> bool {
        &&& session_lock_ok::<R>(&self.sessions.predict_duration)
        &&& session_lock_ok::<R>(&self.sessions.predict_intonation)
        &&& session_lock_ok::<R>(&self.sessions.generate_full_intermediate)
        &&& session_lock_ok::<R>(&self.sessions.render_audio_segment)
    }

    /// Builds the set: for every operation of the domain, loads a model
    /// through the runtime (pulling bytes through that operation's supplier
    /// only when the runtime asks), validates the reported signatures
    /// against the declared ones, and stores the session behind a lock.
    ///
    /// All or nothing: the first failure aborts the whole construction.  On
    /// success, one structured load record per operation was emitted, in
    /// operation order.
    pub fn new<S: ModelBytesSupplier>(
        rt: &R,
        models: OperationMap<S>,
        options: &OperationMap<SessionOptions>,
    ) -> (r: Result<InferenceSessionSet<R>, ConstructionError>)
        ensures
            r matches Err(ConstructionError::SignatureMismatch { error, .. })
                ==> !spec_signatures_match(error.expected.deep_view(), error.actual.deep_view()),
            r matches Ok(set) ==> set.spec_diagnostics() == seq![
                LoadDiagnostic {
                    operation: TalkOperation::PredictDuration,
                    options: options.predict_duration,
                },
                LoadDiagnostic {
                    operation: TalkOperation::PredictIntonation,
                    options: options.predict_intonation,
                },
                LoadDiagnostic {
                    operation: TalkOperation::GenerateFullIntermediate,
                    options: options.generate_full_intermediate,
                },
                LoadDiagnostic {
                    operation: TalkOperation::RenderAudioSegment,
                    options: options.render_audio_segment,
                },
            ],
    {
        let introspection = rt.supports_param_introspection();
        let mut models = models;
        let mut diagnostics: Vec<LoadDiagnostic> = Vec::new();

        let predict_duration = match create_session(
            rt,
            introspection,
            &mut models.predict_duration,
            &options.predict_duration,
            TalkOperation::PredictDuration,
            PredictDurationInput::param_infos(),
            <PredictDurationInput as InputSignature>::Output::param_infos(),
        ) {
            Ok(lock) => lock,
            Err(e) => {
                return Err(e);
            },
        };
        diagnostics.push(
            LoadDiagnostic {
                operation: TalkOperation::PredictDuration,
                options: *options.get(TalkOperation::PredictDuration),
            },
        );

        let predict_intonation = match create_session(
            rt,
            introspection,
            &mut models.predict_intonation,
            &options.predict_intonation,
            TalkOperation::PredictIntonation,
            PredictIntonationInput::param_infos(),
            <PredictIntonationInput as InputSignature>::Output::param_infos(),
        ) {
            Ok(lock) => lock,
            Err(e) => {
                return Err(e);
            },
        };
        diagnostics.push(
            LoadDiagnostic {
                operation: TalkOperation::PredictIntonation,
                options: *options.get(TalkOperation::PredictIntonation),
            },
        );

        let generate_full_intermediate = match create_session(
            rt,
            introspection,
            &mut models.generate_full_intermediate,
            &options.generate_full_intermediate,
            TalkOperation::GenerateFullIntermediate,
            GenerateFullIntermediateInput::param_infos(),
            <GenerateFullIntermediateInput as InputSignature>::Output::param_infos(),
        ) {
            Ok(lock) => lock,
            Err(e) => {
                return Err(e);
            },
        };
        diagnostics.push(
            LoadDiagnostic {
                operation: TalkOperation::GenerateFullIntermediate,
                options: *options.get(TalkOperation::GenerateFullIntermediate),
            },
        );

        let render_audio_segment = match create_session(
            rt,
            introspection,
            &mut models.render_audio_segment,
            &options.render_audio_segment,
            TalkOperation::RenderAudioSegment,
            RenderAudioSegmentInput::param_infos(),
            <RenderAudioSegmentInput as InputSignature>::Output::param_infos(),
        ) {
            Ok(lock) => lock,
            Err(e) => {
                return Err(e);
            },
        };
        diagnostics.push(
            LoadDiagnostic {
                operation: TalkOperation::RenderAudioSegment,
                options: *options.get(TalkOperation::RenderAudioSegment),
            },
        );

        let set = InferenceSessionSet {
            sessions: OperationMap {
                predict_duration,
                predict_intonation,
                generate_full_intermediate,
                render_audio_segment,
            },
            diagnostics,
        };
        proof {
            assert(set.spec_diagnostics() =~= seq![
                LoadDiagnostic {
                    operation: TalkOperation::PredictDuration,
                    options: options.predict_duration,
                },
                LoadDiagnostic {
                    operation: TalkOperation::PredictIntonation,
                    options: options.predict_intonation,
                },
                LoadDiagnostic {
                    operation: TalkOperation::GenerateFullIntermediate,
                    options: options.generate_full_intermediate,
                },
                LoadDiagnostic {
                    operation: TalkOperation::RenderAudioSegment,
                    options: options.render_audio_segment,
                },
            ]);
        }
        Ok(set)
    }

    /// The load records emitted during construction.
    pub fn load_diagnostics(&self) -> (r: &Vec<LoadDiagnostic>)
        ensures
            r@ == self.spec_diagnostics(),
    {
        &self.diagnostics
    }

    /// A typed cell for one operation's session.  Every call for the same
    /// operation hands out a handle to the same shared, lock-guarded
    /// session; nothing is loaded again.
    pub fn get<I: InputSignature>(&self) -> (cell: InferenceSessionCell<R, I>)
        ensures
            cell.wf(),
            cell.spec_lock() == *self.spec_session_lock(I::spec_operation()),
    {
        proof {
            use_type_invariant(self);
        }
        let lock = self.sessions.get(I::operation());
        InferenceSessionCell { inner: clone_arc(lock), marker: PhantomData }
    }
}

impl<R: InferenceRuntime, I: InputSignature> InferenceSessionCell<R, I> {
    /// The lock this cell refers to.
    pub closed spec fn spec_lock(&self) -> Arc<RwLock<R::Session, spec_fn(R::Session) -> bool>> {
        self.inner
    }

    /// The cell can always hand its session back to its lock.
    pub open spec fn wf(&self) -> bool {
        session_lock_ok::<R>(&self.spec_lock())
    }

    /// Executes the cell's operation on one input.
    ///
    /// Acquires the operation's lock (waiting for any in-flight run of the
    /// same operation), lowers the input to its tensors, invokes the
    /// runtime, releases the lock on every exit path, and converts the raw
    /// result tensors into the statically paired output type.  A successful
    /// run yields an output that fits the operation's declared output
    /// signature, field by field; an execution or conversion failure is
    /// reported once, as a typed error.
    pub fn run(self, input: I) -> (r: Result<<I as InputSignature>::Output, RunModelError>)
        requires
            self.wf(),
            input.well_formed(),
        ensures
            r matches Ok(o) ==> spec_tensors_fit(
                <I as InputSignature>::Output::spec_param_infos(),
                o.spec_tensors(),
            ),
    {
        let tensors = input.into_tensors();
        let (mut session, handle) = self.inner.acquire_write();
        let result = R::run(&mut session, tensors);
        handle.release_write(session);
        match result {
            Ok(raw) => <I as InputSignature>::Output::from_tensors(raw),
            Err(source) => Err(RunModelError::Execute(source)),
        }
    }
}

impl<R: InferenceRuntime, I: InputSignature> Clone for InferenceSessionCell<R, I> {
    /// Clones the handle alone: the clone refers to the same underlying
    /// session, and no runtime state is copied.
    fn clone(&self) -> (r: Self)
        ensures
            r == *self,
    {
        InferenceSessionCell { inner: clone_arc(&self.inner), marker: PhantomData }
    }
}

} // verus!
