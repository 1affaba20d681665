use tensor_meta::analysis::TensorAnalysis;
use tensor_meta::graph::weight_entry_count;
use tensor_meta::lang::{Id, Mdl, ACTNONE, ACTRELU, ACTSIGMOID, PSAME, PVALID};
use tensor_meta::metadata::{DataKind, MakeError, TensorHandle, ValTnsr};
use tensor_meta::name::parse_dims;

#[test]
fn parse_dims_extracts_dimension_list() {
    assert_eq!(parse_dims("w@3_3_4_8"), Some(vec![3, 3, 4, 8]));
    assert_eq!(parse_dims("x@1"), Some(vec![1]));
    assert_eq!(parse_dims("@2_2"), Some(vec![2, 2]));
    assert_eq!(parse_dims("x@2_2_"), None);
    assert_eq!(parse_dims("x"), None);
    assert_eq!(parse_dims("x@9999999999"), None);
}

fn scalar(v: i32) -> ValTnsr {
    ValTnsr::scalar(v)
}

fn symbol(s: &str) -> ValTnsr {
    ValTnsr::symbol(s.to_string())
}

#[test]
fn literal_passthrough() {
    let mut an = TensorAnalysis::default();
    let store: Vec<ValTnsr> = Vec::new();
    let r = an.make(&store, &Mdl::Num(42)).unwrap();
    assert_eq!(r.dtype, DataKind::Scalar);
    assert_eq!(r.val, 42);
    assert_eq!(r.meta, TensorHandle::Null);
    let r = an.make(&store, &Mdl::Num(-7)).unwrap();
    assert_eq!(r.val, -7);
}

#[test]
fn symbol_passthrough() {
    let mut an = TensorAnalysis::default();
    let store: Vec<ValTnsr> = Vec::new();
    let r = an.make(&store, &Mdl::Var("x@1_4_32_32".to_string())).unwrap();
    assert_eq!(r.dtype, DataKind::Name);
    assert_eq!(r.name, "x@1_4_32_32");
    // A string without '@' is still a fine symbol: the parse contract only
    // applies when Input or Weight consumes it.
    let r = an.make(&store, &Mdl::Var("no_at_sign".to_string())).unwrap();
    assert_eq!(r.dtype, DataKind::Name);
    assert_eq!(r.name, "no_at_sign");
}

#[test]
fn input_shape_matches_name() {
    let mut an = TensorAnalysis::default();
    let store = vec![symbol("x@1_4_32_32")];
    let r = an.make(&store, &Mdl::Input(Id(0))).unwrap();
    assert_eq!(r.dtype, DataKind::Tnsr);
    assert_eq!(an.graph.tensor_shape(r.meta), vec![1, 4, 32, 32]);
}

#[test]
fn weight_shape_matches_name() {
    let mut an = TensorAnalysis::default();
    let store = vec![symbol("w@3_3_4_8")];
    let r = an.make(&store, &Mdl::Weight(Id(0))).unwrap();
    assert_eq!(r.dtype, DataKind::Tnsr);
    let shape = an.graph.tensor_shape(r.meta);
    assert_eq!(shape.len(), 4);
    assert_eq!(shape, vec![3, 3, 4, 8]);
}

#[test]
fn rank_one_name() {
    let mut an = TensorAnalysis::default();
    let store = vec![symbol("v@17")];
    let r = an.make(&store, &Mdl::Input(Id(0))).unwrap();
    assert_eq!(an.graph.tensor_shape(r.meta), vec![17]);
}

#[test]
fn malformed_names_rejected() {
    let mut an = TensorAnalysis::default();
    for bad in [
        "no_at_sign",
        "two@at@signs_1",
        "x@",
        "x@3_",
        "x@_3",
        "x@3__4",
        "x@a_b",
        "x@0",
        "x@3_0_2",
        "x@-3",
        "x@+3",
        "x@2147483648",
        "",
    ] {
        let store = vec![symbol(bad)];
        assert_eq!(
            an.make(&store, &Mdl::Input(Id(0))),
            Err(MakeError::MalformedName),
            "name {:?} should be malformed",
            bad
        );
        assert_eq!(an.make(&store, &Mdl::Weight(Id(0))), Err(MakeError::MalformedName));
    }
    // Largest value that still fits the backend's i32 dimension.
    let store = vec![symbol("x@2147483647")];
    let r = an.make(&store, &Mdl::Input(Id(0))).unwrap();
    assert_eq!(an.graph.tensor_shape(r.meta), vec![i32::MAX]);
    // Leading zeros are plain decimal notation.
    let store = vec![symbol("x@007_5")];
    let r = an.make(&store, &Mdl::Input(Id(0))).unwrap();
    assert_eq!(an.graph.tensor_shape(r.meta), vec![7, 5]);
}

#[test]
fn mismatched_kinds_rejected() {
    let mut an = TensorAnalysis::default();
    // A Name where a Tensor is required.
    let store = vec![scalar(0), symbol("a@2_2"), symbol("b@2_2")];
    assert_eq!(
        an.make(&store, &Mdl::Matmul(Id(0), Id(1), Id(2))),
        Err(MakeError::GrammarViolation)
    );
    // A Scalar where a Name is required.
    let store = vec![scalar(3)];
    assert_eq!(an.make(&store, &Mdl::Input(Id(0))), Err(MakeError::GrammarViolation));
    // A Name where a Scalar is required.
    let store = vec![symbol("t@2_2")];
    let t = an.make(&store, &Mdl::Input(Id(0))).unwrap();
    let store = vec![symbol("one"), t.clone()];
    assert_eq!(
        an.make(&store, &Mdl::Split(Id(0), Id(1))),
        Err(MakeError::GrammarViolation)
    );
    // A Tensor where a TnsrTuple is required.
    let store = vec![t];
    assert_eq!(an.make(&store, &Mdl::Split0(Id(0))), Err(MakeError::GrammarViolation));
}

#[test]
fn bad_mode_encodings_rejected() {
    let mut an = TensorAnalysis::default();
    let store = vec![symbol("a@2_3")];
    let a = an.make(&store, &Mdl::Input(Id(0))).unwrap();
    let store = vec![symbol("b@3_4")];
    let b = an.make(&store, &Mdl::Input(Id(0))).unwrap();
    // Activation 4 is outside the fixed encoding {0, 1, 2, 3}.
    let store = vec![scalar(4), a.clone(), b.clone()];
    assert_eq!(
        an.make(&store, &Mdl::Matmul(Id(0), Id(1), Id(2))),
        Err(MakeError::GrammarViolation)
    );
    let store = vec![scalar(-1), a, b];
    assert_eq!(
        an.make(&store, &Mdl::Matmul(Id(0), Id(1), Id(2))),
        Err(MakeError::GrammarViolation)
    );
}

#[test]
fn matmul_shapes() {
    let mut an = TensorAnalysis::default();
    let store = vec![symbol("a@2_3")];
    let a = an.make(&store, &Mdl::Input(Id(0))).unwrap();
    let store = vec![symbol("b@3_4")];
    let b = an.make(&store, &Mdl::Input(Id(0))).unwrap();
    let store = vec![scalar(ACTNONE), a.clone(), b.clone()];
    let r = an.make(&store, &Mdl::Matmul(Id(0), Id(1), Id(2))).unwrap();
    assert_eq!(an.graph.tensor_shape(r.meta), vec![2, 4]);
    assert!(!an.graph.tensor_act(r.meta));
    // Fused activation marks the output.
    let store = vec![scalar(ACTSIGMOID), a.clone(), b.clone()];
    let r = an.make(&store, &Mdl::Matmul(Id(0), Id(1), Id(2))).unwrap();
    assert!(an.graph.tensor_act(r.meta));
    // Inner extents must agree.
    let store = vec![scalar(ACTNONE), b, a];
    assert_eq!(
        an.make(&store, &Mdl::Matmul(Id(0), Id(1), Id(2))),
        Err(MakeError::BackendRejection)
    );
}

#[test]
fn conv2d_same_relu() {
    let mut an = TensorAnalysis::default();
    let store = vec![symbol("w@3_3_4_8")];
    let w = an.make(&store, &Mdl::Weight(Id(0))).unwrap();
    let store = vec![symbol("x@1_4_32_32")];
    let x = an.make(&store, &Mdl::Input(Id(0))).unwrap();
    let store = vec![scalar(1), scalar(1), scalar(PSAME), scalar(ACTRELU), x, w];
    let r = an
        .make(&store, &Mdl::Conv2d(Id(0), Id(1), Id(2), Id(3), Id(4), Id(5)))
        .unwrap();
    assert_eq!(r.dtype, DataKind::Tnsr);
    assert_eq!(an.graph.tensor_shape(r.meta), vec![1, 8, 32, 32]);
    assert!(an.graph.tensor_act(r.meta));
}

#[test]
fn conv2d_valid_padding() {
    let mut an = TensorAnalysis::default();
    let store = vec![symbol("w@3_3_4_8")];
    let w = an.make(&store, &Mdl::Weight(Id(0))).unwrap();
    let store = vec![symbol("x@1_4_32_32")];
    let x = an.make(&store, &Mdl::Input(Id(0))).unwrap();
    let store = vec![scalar(2), scalar(2), scalar(PVALID), scalar(ACTNONE), x.clone(), w.clone()];
    let r = an
        .make(&store, &Mdl::Conv2d(Id(0), Id(1), Id(2), Id(3), Id(4), Id(5)))
        .unwrap();
    // VALID placements: (32 - 3) / 2 + 1 = 15 per spatial axis.
    assert_eq!(an.graph.tensor_shape(r.meta), vec![1, 8, 15, 15]);
    assert!(!an.graph.tensor_act(r.meta));
    // Channel mismatch: weight expects 4 input channels, x swapped with w.
    let store = vec![scalar(1), scalar(1), scalar(PSAME), scalar(ACTNONE), w, x];
    assert_eq!(
        an.make(&store, &Mdl::Conv2d(Id(0), Id(1), Id(2), Id(3), Id(4), Id(5))),
        Err(MakeError::BackendRejection)
    );
}

#[test]
fn elementwise_ops() {
    let mut an = TensorAnalysis::default();
    let store = vec![symbol("a@2_3")];
    let a = an.make(&store, &Mdl::Input(Id(0))).unwrap();
    let store = vec![symbol("b@2_3")];
    let b = an.make(&store, &Mdl::Input(Id(0))).unwrap();
    let store = vec![a.clone(), b.clone()];
    let r = an.make(&store, &Mdl::Ewadd(Id(0), Id(1))).unwrap();
    assert_eq!(an.graph.tensor_shape(r.meta), vec![2, 3]);
    let r = an.make(&store, &Mdl::Ewmul(Id(0), Id(1))).unwrap();
    assert_eq!(an.graph.tensor_shape(r.meta), vec![2, 3]);
    // Shapes must agree exactly.
    let store = vec![symbol("c@3_2")];
    let c = an.make(&store, &Mdl::Input(Id(0))).unwrap();
    let store = vec![a, c];
    assert_eq!(
        an.make(&store, &Mdl::Ewadd(Id(0), Id(1))),
        Err(MakeError::BackendRejection)
    );
}

#[test]
fn activations_mark_output() {
    let mut an = TensorAnalysis::default();
    let store = vec![symbol("x@2_3")];
    let x = an.make(&store, &Mdl::Input(Id(0))).unwrap();
    assert!(!an.graph.tensor_act(x.meta));
    let store = vec![x];
    for node in [Mdl::Relu(Id(0)), Mdl::Tanh(Id(0)), Mdl::Sigmoid(Id(0))] {
        let r = an.make(&store, &node).unwrap();
        assert_eq!(r.dtype, DataKind::Tnsr);
        assert_eq!(an.graph.tensor_shape(r.meta), vec![2, 3]);
        assert!(an.graph.tensor_act(r.meta));
    }
}

#[test]
fn pooling_shapes() {
    let mut an = TensorAnalysis::default();
    let store = vec![symbol("x@1_4_32_32")];
    let x = an.make(&store, &Mdl::Input(Id(0))).unwrap();
    let store = vec![
        x.clone(),
        scalar(3),
        scalar(3),
        scalar(1),
        scalar(1),
        scalar(PSAME),
        scalar(ACTNONE),
    ];
    let node = Mdl::Poolmax(Id(0), Id(1), Id(2), Id(3), Id(4), Id(5), Id(6));
    let r = an.make(&store, &node).unwrap();
    assert_eq!(an.graph.tensor_shape(r.meta), vec![1, 4, 32, 32]);
    let store = vec![
        x,
        scalar(2),
        scalar(2),
        scalar(2),
        scalar(2),
        scalar(PVALID),
        scalar(ACTNONE),
    ];
    let node = Mdl::Poolavg(Id(0), Id(1), Id(2), Id(3), Id(4), Id(5), Id(6));
    let r = an.make(&store, &node).unwrap();
    // VALID placements: (32 - 2) / 2 + 1 = 16 per spatial axis.
    assert_eq!(an.graph.tensor_shape(r.meta), vec![1, 4, 16, 16]);
}

#[test]
fn concat_adds_axis_extents() {
    let mut an = TensorAnalysis::default();
    let store = vec![symbol("a@2_3")];
    let a = an.make(&store, &Mdl::Input(Id(0))).unwrap();
    let store = vec![symbol("b@2_5")];
    let b = an.make(&store, &Mdl::Input(Id(0))).unwrap();
    let store = vec![scalar(1), scalar(2), a.clone(), b.clone()];
    let r = an.make(&store, &Mdl::Concat(Id(0), Id(1), Id(2), Id(3))).unwrap();
    assert_eq!(an.graph.tensor_shape(r.meta), vec![2, 8]);
    // Concatenation along axis 0 needs the other extents equal.
    let store = vec![scalar(0), scalar(2), a, b];
    assert_eq!(
        an.make(&store, &Mdl::Concat(Id(0), Id(1), Id(2), Id(3))),
        Err(MakeError::BackendRejection)
    );
}

#[test]
fn merge_multiplies_channels() {
    let mut an = TensorAnalysis::default();
    let store = vec![symbol("w@3_3_4_8")];
    let w = an.make(&store, &Mdl::Weight(Id(0))).unwrap();
    let store = vec![w, scalar(2)];
    let r = an.make(&store, &Mdl::Merge(Id(0), Id(1))).unwrap();
    assert_eq!(an.graph.tensor_shape(r.meta), vec![3, 3, 8, 8]);
}

#[test]
fn enlarge_takes_reference_kernel() {
    let mut an = TensorAnalysis::default();
    let store = vec![symbol("a@3_3_4_8")];
    let a = an.make(&store, &Mdl::Weight(Id(0))).unwrap();
    let store = vec![symbol("b@5_5_4_8")];
    let b = an.make(&store, &Mdl::Weight(Id(0))).unwrap();
    let store = vec![a, b];
    let r = an.make(&store, &Mdl::Enlarge(Id(0), Id(1))).unwrap();
    assert_eq!(an.graph.tensor_shape(r.meta), vec![5, 5, 4, 8]);
}

#[test]
fn split_and_projections() {
    let mut an = TensorAnalysis::default();
    let store = vec![symbol("t@2_4")];
    let t = an.make(&store, &Mdl::Input(Id(0))).unwrap();
    let edges_before = an.graph.edges.len();
    let store = vec![scalar(1), t];
    let pair = an.make(&store, &Mdl::Split(Id(0), Id(1))).unwrap();
    assert_eq!(pair.dtype, DataKind::TnsrTuple);
    assert_eq!(an.graph.tensor_shape(pair.meta), vec![2, 2]);
    assert_eq!(an.graph.tensor_shape(pair.meta_2), vec![2, 2]);
    // The split op is registered as an edge from the input's producer.
    assert_eq!(an.graph.edges.len(), edges_before + 1);
    // Each projection recovers exactly one stored handle.
    let store = vec![pair.clone()];
    let first = an.make(&store, &Mdl::Split0(Id(0))).unwrap();
    assert_eq!(first.dtype, DataKind::Tnsr);
    assert_eq!(first.meta, pair.meta);
    let second = an.make(&store, &Mdl::Split1(Id(0))).unwrap();
    assert_eq!(second.dtype, DataKind::Tnsr);
    assert_eq!(second.meta, pair.meta_2);
    assert_ne!(pair.meta, pair.meta_2);
}

#[test]
fn split_odd_extent() {
    let mut an = TensorAnalysis::default();
    let store = vec![symbol("t@2_5")];
    let t = an.make(&store, &Mdl::Input(Id(0))).unwrap();
    let store = vec![scalar(1), t.clone()];
    let pair = an.make(&store, &Mdl::Split(Id(0), Id(1))).unwrap();
    assert_eq!(an.graph.tensor_shape(pair.meta), vec![2, 3]);
    assert_eq!(an.graph.tensor_shape(pair.meta_2), vec![2, 2]);
    // The two halves recombine to the input extent.
    assert_eq!(
        an.graph.tensor_shape(pair.meta)[1] + an.graph.tensor_shape(pair.meta_2)[1],
        an.graph.tensor_shape(t.meta)[1]
    );
}

#[test]
fn split_rejected_by_backend() {
    let mut an = TensorAnalysis::default();
    let store = vec![symbol("t@2_4")];
    let t = an.make(&store, &Mdl::Input(Id(0))).unwrap();
    // Axis out of range.
    let store = vec![scalar(2), t.clone()];
    assert_eq!(
        an.make(&store, &Mdl::Split(Id(0), Id(1))),
        Err(MakeError::BackendRejection)
    );
    // An extent of 1 cannot be split two ways.
    let store = vec![symbol("u@1_3")];
    let u = an.make(&store, &Mdl::Input(Id(0))).unwrap();
    let store = vec![scalar(0), u];
    assert_eq!(
        an.make(&store, &Mdl::Split(Id(0), Id(1))),
        Err(MakeError::BackendRejection)
    );
}

#[test]
fn unimplemented_kinds_reported() {
    let mut an = TensorAnalysis::default();
    let store = vec![scalar(1), scalar(2)];
    for node in [
        Mdl::Smul(Id(0), Id(1)),
        Mdl::Transpose(Id(0)),
        Mdl::Cpool(Id(0), Id(1)),
        Mdl::Iconv(Id(0), Id(1)),
        Mdl::Imatmul,
        Mdl::Iewmul,
        Mdl::Merge(Id(0), Id(1)),
    ] {
        let r = an.make(&store, &node);
        if matches!(node, Mdl::Merge(_, _)) {
            // Merge is implemented; with two scalars it is a grammar error.
            assert_eq!(r, Err(MakeError::GrammarViolation));
        } else {
            assert_eq!(r, Err(MakeError::Unimplemented));
        }
    }
}

#[test]
fn merge_policy_keeps_first_record() {
    // Two classes judged equivalent by construction: the same node derived
    // in two sessions with the same history yields the same record, and
    // the merge policy accepts it without change.
    let mut an1 = TensorAnalysis::default();
    let mut an2 = TensorAnalysis::default();
    let store = vec![symbol("x@2_4")];
    let t1 = an1.make(&store, &Mdl::Input(Id(0))).unwrap();
    let t2 = an2.make(&store, &Mdl::Input(Id(0))).unwrap();
    assert_eq!(t1, t2);
    let store1 = vec![scalar(1), t1];
    let store2 = vec![scalar(1), t2];
    let mut p1 = an1.make(&store1, &Mdl::Split(Id(0), Id(1))).unwrap();
    let p2 = an2.make(&store2, &Mdl::Split(Id(0), Id(1))).unwrap();
    assert_eq!(p1, p2);
    let before = p1.clone();
    let changed = an1.merge(&mut p1, p2);
    assert!(!changed);
    assert_eq!(p1, before);
}

#[test]
fn modify_is_a_no_op() {
    let mut an = TensorAnalysis::default();
    let store = vec![symbol("x@2_4")];
    an.make(&store, &Mdl::Input(Id(0))).unwrap();
    let tensors = an.graph.tensors.len();
    let edges = an.graph.edges.len();
    an.modify(Id(0));
    assert_eq!(an.graph.tensors.len(), tensors);
    assert_eq!(an.graph.edges.len(), edges);
}

#[test]
fn defaults_are_explicit() {
    assert_eq!(DataKind::default(), DataKind::Name);
    let d = ValTnsr::default();
    assert_eq!(d.dtype, DataKind::Name);
    assert_eq!(d.val, 0);
    assert_eq!(d.name, "");
    assert_eq!(d.meta, TensorHandle::Null);
    assert_eq!(d.meta_2, TensorHandle::Null);
    let an = TensorAnalysis::default();
    assert_eq!(an.graph.tensors.len(), 0);
    assert_eq!(an.graph.edges.len(), 0);
    assert_eq!(an.graph.num_ops(), 0);
}

#[test]
fn weight_entry_count_is_element_count() {
    assert_eq!(weight_entry_count(&vec![3, 3, 4, 8]), Some(288));
    assert_eq!(weight_entry_count(&vec![17]), Some(17));
    assert_eq!(weight_entry_count(&vec![1, 1, 1]), Some(1));
    // Exceeds u64: 2^31 - 1 multiplied three times is fine, seven times is not.
    assert_eq!(
        weight_entry_count(&vec![i32::MAX; 7]),
        None
    );
}
