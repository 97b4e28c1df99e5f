//! Tensor signatures and signature matching.
//!
//! A [`ParamInfo`] describes one input or output value of a model: a name, a
//! dtype and an optional rank.  A rank of `None` means "accepts any rank" and
//! only ever appears on the side a runtime reports, never as a requirement.
//! Matching of a declared signature list against a reported one is positional
//! and ordered; a length mismatch is itself a failure before any per-field
//! check.

use vstd::prelude::*;

use crate::tensor::TensorDtype;
use vstd::string::StringExecFns;

verus! {

/// The mathematical value of a [`ParamInfo`]: the name as a character
/// sequence, the dtype and the optional rank.
pub struct ParamInfoView {
    pub name: Seq<char>,
    pub dtype: TensorDtype,
    pub rank: Option<usize>,
}

/// The declared or reported signature of one tensor field.
#[derive(Clone, Debug)]
pub struct ParamInfo {
    pub name: String,
    pub dtype: TensorDtype,
    /// `None` accepts any rank; used only on the reported side.
    pub rank: Option<usize>,
}

impl View for ParamInfo {
    type V = ParamInfoView;

    open spec fn view(&self) -> ParamInfoView {
        ParamInfoView { name: self.name@, dtype: self.dtype, rank: self.rank }
    }
}

impl DeepView for ParamInfo {
    type V = ParamInfoView;

    open spec fn deep_view(&self) -> ParamInfoView {
        self@
    }
}

/// When an expected field signature accepts a reported one: the names and
/// dtypes agree, and either the ranks agree or the expected side places no
/// requirement on the rank.
pub open spec fn spec_accepts(expected: ParamInfoView, actual: ParamInfoView) -> bool {
    &&& expected.name == actual.name
    &&& expected.dtype == actual.dtype
    &&& (expected.rank is None || expected.rank == actual.rank)
}

/// When a whole expected signature list accepts a reported one: equal length
/// and field-by-field acceptance, in order.
pub open spec fn spec_signatures_match(
    expected: Seq<ParamInfoView>,
    actual: Seq<ParamInfoView>,
) -> bool {
    &&& expected.len() == actual.len()
    &&& forall|i: int|
        0 <= i < expected.len() ==> spec_accepts(expected[i], actual[i])
}

impl ParamInfo {
    pub fn new(name: String, dtype: TensorDtype, rank: Option<usize>) -> (r: ParamInfo)
        ensures
            r@.name == name@,
            r@.dtype == dtype,
            r@.rank == rank,
    {
        ParamInfo { name, dtype, rank }
    }

    /// Whether this (expected) field signature accepts a reported one.
    pub fn accepts(&self, actual: &ParamInfo) -> (r: bool)
        ensures
            r == spec_accepts(self@, actual@),
    {
        let name_ok = self.name == actual.name;
        let dtype_ok = self.dtype == actual.dtype;
        let rank_ok = match (&self.rank, &actual.rank) {
            (Option::None, _) => true,
            (Option::Some(e), Option::Some(a)) => *e == *a,
            (Option::Some(_), Option::None) => false,
        };
        name_ok && dtype_ok && rank_ok
    }
}

/// Whether the expected signature list accepts the reported one, positionally.
pub fn signatures_match(expected: &Vec<ParamInfo>, actual: &Vec<ParamInfo>) -> (r: bool)
    ensures
        r == spec_signatures_match(expected.deep_view(), actual.deep_view()),
{
    if expected.len() != actual.len() {
        return false;
    }
    let n = expected.len();
    let mut i: usize = 0;
    while i < n
        invariant
            n == expected.len() == actual.len(),
            i <= n,
            forall|j: int| 0 <= j < i ==> spec_accepts(expected.deep_view()[j], actual.deep_view()[j]),
        decreases n - i,
    {
        if !expected[i].accepts(&actual[i]) {
            proof {
                assert(!spec_accepts(expected.deep_view()[i as int], actual.deep_view()[i as int]));
            }
            return false;
        }
        i += 1;
    }
    true
}

/// A rank has no requirement: rendered as an ellipsis bracket.  A fixed rank
/// `n`: rendered as `n` bracket pairs.
pub open spec fn spec_bracket_rep(n: nat) -> Seq<char>
    decreases n,
{
    if n == 0 {
        Seq::<char>::empty()
    } else {
        spec_bracket_rep((n - 1) as nat) + "[]"@
    }
}

pub open spec fn spec_rank_brackets(rank: Option<usize>) -> Seq<char> {
    match rank {
        Option::Some(n) => spec_bracket_rep(n as nat),
        Option::None => "[]..."@,
    }
}

pub open spec fn spec_dtype_name(dtype: TensorDtype) -> Seq<char> {
    match dtype {
        TensorDtype::Int64 => "int64"@,
        TensorDtype::Float32 => "float32"@,
    }
}

/// One field signature rendered as `name: dtype` followed by its brackets.
pub open spec fn spec_render_info(info: ParamInfoView) -> Seq<char> {
    info.name + ": "@ + spec_dtype_name(info.dtype) + spec_rank_brackets(info.rank)
}

/// A signature list rendered field by field, separated by `, `.
pub open spec fn spec_render_infos(infos: Seq<ParamInfoView>) -> Seq<char>
    decreases infos.len(),
{
    if infos.len() == 0 {
        Seq::<char>::empty()
    } else if infos.len() == 1 {
        spec_render_info(infos[0])
    } else {
        spec_render_infos(infos.drop_last()) + ", "@ + spec_render_info(infos.last())
    }
}

fn render_rank(out: &mut String, rank: &Option<usize>)
    ensures
        final(out)@ == old(out)@ + spec_rank_brackets(*rank),
{
    match rank {
        Option::None => {
            out.append("[]...");
        },
        Option::Some(n) => {
            let mut j: usize = 0;
            while j < *n
                invariant
                    j <= *n,
                    out@ == old(out)@ + spec_bracket_rep(j as nat),
                decreases *n - j,
            {
                out.append("[]");
                j += 1;
            }
        },
    }
}

fn render_info(out: &mut String, info: &ParamInfo)
    ensures
        final(out)@ == old(out)@ + spec_render_info(info@),
{
    out.append(info.name.as_str());
    out.append(": ");
    match info.dtype {
        TensorDtype::Int64 => out.append("int64"),
        TensorDtype::Float32 => out.append("float32"),
    }
    render_rank(out, &info.rank);
}

/// Renders a whole signature list for diagnostics, e.g.
/// `phoneme_list: int64[], speaker_id: int64[]`.
pub fn render_infos(infos: &Vec<ParamInfo>) -> (r: String)
    ensures
        r@ == spec_render_infos(infos.deep_view()),
{
    let mut out = String::new();
    let n = infos.len();
    let mut i: usize = 0;
    while i < n
        invariant
            n == infos.len(),
            i <= n,
            out@ == spec_render_infos(infos.deep_view().take(i as int)),
        decreases n - i,
    {
        if i > 0 {
            out.append(", ");
        }
        render_info(&mut out, &infos[i]);
        proof {
            let dv = infos.deep_view();
            assert(dv.take(i as int + 1).drop_last() =~= dv.take(i as int));
            assert(dv.take(i as int + 1).last() == dv[i as int]);
        }
        i += 1;
    }
    proof {
        assert(infos.deep_view().take(n as int) =~= infos.deep_view());
    }
    out
}

/// A construction-time mismatch between a declared signature list and the one
/// the loaded model reported.  Carries both lists for diagnostics.
#[derive(Clone, Debug)]
pub struct SignatureMismatchError {
    pub expected: Vec<ParamInfo>,
    pub actual: Vec<ParamInfo>,
}

impl SignatureMismatchError {
    /// The diagnostic text: `expected {..}, got {..}` with every field of
    /// both lists rendered as `name: dtype[rank]`.
    pub fn message(&self) -> (r: String)
        ensures
            r@ == "expected {"@ + spec_render_infos(self.expected.deep_view()) + "}, got {"@
                + spec_render_infos(self.actual.deep_view()) + "}"@,
    {
        let mut out = String::new();
        out.append("expected {");
        let e = render_infos(&self.expected);
        out.append(e.as_str());
        out.append("}, got {");
        let a = render_infos(&self.actual);
        out.append(a.as_str());
        out.append("}");
        out
    }
}

/// With no rank requirement on the expected side, acceptance is exactly
/// agreement of name and dtype, whatever the reported rank; and acceptance
/// never holds when the names or the dtypes differ.
pub proof fn lemma_accepts_rank_free(expected: ParamInfoView, actual: ParamInfoView)
    ensures
        expected.rank is None ==> spec_accepts(expected, actual) == (expected.name == actual.name
            && expected.dtype == actual.dtype),
        expected.name != actual.name ==> !spec_accepts(expected, actual),
        expected.dtype != actual.dtype ==> !spec_accepts(expected, actual),
{
}

} // verus!
