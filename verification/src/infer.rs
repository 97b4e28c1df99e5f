//! The static linkage between operations and their typed input and output
//! signatures.
//!
//! Each concrete input type of a domain names its operation, declares the
//! tensor signature of every one of its fields, and lowers itself to the flat
//! tensor list the runtime consumes.  Each output type declares its own
//! signature and is rebuilt from the raw tensors a run returns; that
//! conversion checks arity, dtype and rank and fails as a [`RunModelError`],
//! never silently.

use vstd::prelude::*;

use crate::domain::TalkOperation;
use crate::signature::{ParamInfo, ParamInfoView};
use crate::tensor::Tensor;

verus! {

/// A call-time failure: the runtime's execution failed, or the raw result
/// tensors could not be converted into the operation's output type.
#[derive(Clone, Debug)]
pub enum RunModelError {
    /// The runtime's execution entry point failed.
    Execute(String),
    /// The run returned a wrong number of result tensors.
    OutputArity { expected: usize, actual: usize },
    /// The result tensor at this position has a dtype or rank other than the
    /// declared output signature's.
    OutputTensor { index: usize },
}

/// When a flat tensor list carries values for a declared signature list:
/// same length, and each tensor has the declared dtype and, where the
/// declaration fixes one, the declared rank.
pub open spec fn spec_tensors_fit(infos: Seq<ParamInfoView>, tensors: Seq<Tensor>) -> bool {
    &&& tensors.len() == infos.len()
    &&& forall|i: int|
        0 <= i < infos.len() ==> (#[trigger] tensors[i]).spec_dtype() == infos[i].dtype
    &&& forall|i: int|
        0 <= i < infos.len() ==> (infos[i].rank matches Some(r) ==> (
        #[trigger] tensors[i]).spec_rank() == r)
}

/// An input signature type: statically tied to one operation, it declares the
/// tensor signature of each of its fields and lowers itself to the tensor
/// list the runtime consumes.
pub trait InputSignature: Sized {
    /// The output type statically paired with this input's operation.
    type Output: OutputSignature;

    /// The operation this input type belongs to.
    spec fn spec_operation() -> TalkOperation;

    /// The declared signature of this input's fields, in field order.
    spec fn spec_param_infos() -> Seq<ParamInfoView>;

    /// The tensors this value lowers to.
    spec fn spec_tensors(&self) -> Seq<Tensor>;

    /// A value is well formed when each of its tensors is internally
    /// consistent and fits the declared signature.
    open spec fn well_formed(&self) -> bool {
        &&& spec_tensors_fit(Self::spec_param_infos(), self.spec_tensors())
        &&& forall|i: int|
            0 <= i < self.spec_tensors().len() ==> (#[trigger] self.spec_tensors()[i]).well_formed()
    }

    fn operation() -> (op: TalkOperation)
        ensures
            op == Self::spec_operation(),
    ;

    fn param_infos() -> (r: Vec<ParamInfo>)
        ensures
            r.deep_view() == Self::spec_param_infos(),
    ;

    fn into_tensors(self) -> (r: Vec<Tensor>)
        ensures
            r@ == self.spec_tensors(),
    ;
}

/// An output signature type: declares the tensor signature of its fields and
/// is rebuilt from the raw tensors a run returns.
pub trait OutputSignature: Sized {
    /// The declared signature of this output's fields, in field order.
    spec fn spec_param_infos() -> Seq<ParamInfoView>;

    /// The output value carried by a fitting raw tensor list.
    spec fn spec_of_raw(raw: Seq<Tensor>) -> Self;

    /// The tensors this value holds, in field order.
    spec fn spec_tensors(&self) -> Seq<Tensor>;

    fn param_infos() -> (r: Vec<ParamInfo>)
        ensures
            r.deep_view() == Self::spec_param_infos(),
    ;

    /// Rebuilds the typed output from the raw result tensors.  Succeeds
    /// exactly when the raw list fits the declared signature; on success the
    /// output holds exactly the raw tensors.
    fn from_tensors(raw: Vec<Tensor>) -> (r: Result<Self, RunModelError>)
        ensures
            r is Ok <==> spec_tensors_fit(Self::spec_param_infos(), raw@),
            r matches Ok(o) ==> o == Self::spec_of_raw(raw@) && o.spec_tensors() == raw@,
            r matches Err(e) ==> !(e is Execute),
    ;
}

} // verus!
