use voicevox_core::signature::{render_infos, signatures_match, ParamInfo, SignatureMismatchError};
use voicevox_core::tensor::TensorDtype;

fn p(name: &str, dtype: TensorDtype, rank: Option<usize>) -> ParamInfo {
    ParamInfo::new(name.to_string(), dtype, rank)
}

#[test]
fn accepts_ignores_rank_when_no_rank_is_expected() {
    let expected = p("x", TensorDtype::Float32, None);
    for actual_rank in [None, Some(0), Some(1), Some(7)] {
        let actual = p("x", TensorDtype::Float32, actual_rank);
        assert!(expected.accepts(&actual), "{actual_rank:?}");
    }
}

#[test]
fn accepts_rejects_name_or_dtype_differences() {
    let expected = p("x", TensorDtype::Float32, None);
    assert!(!expected.accepts(&p("y", TensorDtype::Float32, Some(1))));
    assert!(!expected.accepts(&p("x", TensorDtype::Int64, Some(1))));
    let ranked = p("x", TensorDtype::Float32, Some(1));
    assert!(!ranked.accepts(&p("y", TensorDtype::Float32, Some(1))));
    assert!(!ranked.accepts(&p("x", TensorDtype::Int64, Some(1))));
}

#[test]
fn accepts_compares_fixed_ranks() {
    let expected = p("x", TensorDtype::Float32, Some(1));
    assert!(expected.accepts(&p("x", TensorDtype::Float32, Some(1))));
    assert!(!expected.accepts(&p("x", TensorDtype::Float32, Some(2))));
    assert!(!expected.accepts(&p("x", TensorDtype::Float32, None)));
}

#[test]
fn matching_is_positional_and_checks_the_count_first() {
    let a = p("a", TensorDtype::Int64, Some(1));
    let b = p("b", TensorDtype::Int64, Some(1));
    assert!(signatures_match(&vec![a.clone(), b.clone()], &vec![a.clone(), b.clone()]));
    assert!(!signatures_match(&vec![a.clone(), b.clone()], &vec![b.clone(), a.clone()]));
    assert!(!signatures_match(&vec![a.clone(), b.clone()], &vec![a.clone()]));
    assert!(!signatures_match(&vec![a.clone()], &vec![a.clone(), b.clone()]));
    assert!(signatures_match(&vec![], &vec![]));
}

#[test]
fn ranks_render_as_bracket_pairs() {
    let infos = vec![
        p("x", TensorDtype::Float32, Some(0)),
        p("y", TensorDtype::Int64, Some(2)),
        p("z", TensorDtype::Float32, None),
    ];
    assert_eq!(render_infos(&infos), "x: float32, y: int64[][], z: float32[]...");
}

#[test]
fn mismatch_message_names_both_sides() {
    let e = SignatureMismatchError {
        expected: vec![p("x", TensorDtype::Float32, Some(1))],
        actual: vec![p("x", TensorDtype::Float32, Some(2))],
    };
    assert_eq!(e.message(), "expected {x: float32[]}, got {x: float32[][]}");
}
