use recamera::infer::{ModelInfo, ModelLoad};
use recamera::pipeline::CallOutcome;
use recamera::error::Error;
use recamera::infer::{
    check_model_extension, has_input, input_copy_len, output_read_len, library_load_error_message, validate_model_path, NnCall,
    TensorShape,
};

#[test]
fn tensor_shape_total_elements() {
    let shape = TensorShape::new(vec![1, 3, 640, 640]);
    assert_eq!(shape.total_elements(), 1 * 3 * 640 * 640);
}

#[test]
fn tensor_shape_empty_dims() {
    let shape = TensorShape::new(vec![]);
    assert_eq!(shape.total_elements(), 1);
}

#[test]
fn tensor_shape_zero_dim_has_no_elements() {
    assert_eq!(TensorShape::new(vec![4, 0, 2]).total_elements(), 0);
    assert_eq!(TensorShape::new(vec![7]).total_elements(), 7);
}

#[test]
fn extension_validation_rejects_wrong_extension() {
    let path = "/tmp/model.onnx";
    let ext = std::path::Path::new(path).extension().and_then(|e| e.to_str());
    assert_ne!(ext, Some("cvimodel"));
    match validate_model_path(path) {
        Err(Error::Inference(m)) => assert_eq!(m, "expected .cvimodel extension, got: /tmp/model.onnx"),
        other => panic!("unexpected {:?}", other),
    }
}

#[test]
fn extension_validation_accepts_cvimodel() {
    assert!(validate_model_path("/userdata/models/yolo.cvimodel").is_ok());
    assert!(validate_model_path("/userdata/models/.cvimodel").is_err());
    assert!(validate_model_path("/userdata/models/yolo").is_err());
    assert!(check_model_extension("a", Some("cvimodel")).is_ok());
    assert!(check_model_extension("a", Some("CVIMODEL")).is_err());
    assert!(check_model_extension("a", None).is_err());
}

#[test]
fn nn_call_messages() {
    assert!(NnCall::Forward.check(0).is_ok());
    match NnCall::Forward.check(-7) {
        Err(Error::Inference(m)) => assert_eq!(m, "CVI_NN_Forward failed (rc=-7)"),
        other => panic!("unexpected {:?}", other),
    }
    match NnCall::RegisterModel.symbol_error("missing") {
        Error::Inference(m) => assert_eq!(m, "RegisterModel symbol: missing"),
        other => panic!("unexpected {:?}", other),
    }
    assert_eq!(library_load_error_message("oops"), "failed to load CVI libraries: oops");
}

#[test]
fn input_copy_len_is_minimum() {
    assert_eq!(input_copy_len(10, 4), 4);
    assert_eq!(input_copy_len(3, 4), 3);
}

#[test]
fn tensor_shape_from_raw_dims() {
    let s = TensorShape::from_raw_dims(&[1, 3, 224, 224]);
    assert_eq!(s.dims, vec![1, 3, 224, 224]);
    assert_eq!(TensorShape::from_raw_dims(&[-1]).dims, vec![-1i32 as usize]);
    assert!(TensorShape::from_raw_dims(&[]).dims.is_empty());
}

#[test]
fn model_load_sequence() {
    let mut load = ModelLoad::new();
    assert_eq!(load.next_call(), Some(NnCall::RegisterModel));
    load.report(&CallOutcome::Returned(0)).unwrap();
    assert_eq!(load.next_call(), Some(NnCall::GetInputOutputTensors));
    load.report(&CallOutcome::Returned(0)).unwrap();
    assert_eq!(load.next_call(), None);
    assert!(load.is_loaded());

    let mut failing = ModelLoad::new();
    failing.report(&CallOutcome::Returned(0)).unwrap();
    failing.report(&CallOutcome::Returned(-2)).unwrap();
    assert_eq!(failing.next_call(), Some(NnCall::CleanupModel));
    match failing.report(&CallOutcome::Returned(0)) {
        Err(Error::Inference(m)) => assert_eq!(m, "CVI_NN_GetInputOutputTensors failed (rc=-2)"),
        other => panic!("unexpected {:?}", other),
    }
    assert_eq!(failing.next_call(), None);
    assert!(!failing.is_loaded());

    let mut missing = ModelLoad::new();
    match missing.report(&CallOutcome::SymbolMissing("nope".into())) {
        Err(Error::Inference(m)) => assert_eq!(m, "RegisterModel symbol: nope"),
        other => panic!("unexpected {:?}", other),
    }
    let mut rejected = ModelLoad::new();
    match rejected.report(&CallOutcome::Returned(3)) {
        Err(Error::Inference(m)) => assert_eq!(m, "CVI_NN_RegisterModel failed (rc=3)"),
        other => panic!("unexpected {:?}", other),
    }
}

#[test]
fn model_info_from_parts() {
    let info = ModelInfo::from_parts(
        std::path::PathBuf::from("/m.cvimodel"),
        Some(&[1, 3, 8, 8]),
        &vec![vec![1, 10], vec![4]],
    );
    assert_eq!(info.path.to_str(), Some("/m.cvimodel"));
    assert_eq!(info.input_shape.dims, vec![1, 3, 8, 8]);
    assert_eq!(info.output_shapes.len(), 2);
    assert_eq!(info.output_shapes[1].dims, vec![4]);
    let none = ModelInfo::from_parts(std::path::PathBuf::from("/x"), None, &vec![]);
    assert!(none.input_shape.dims.is_empty());
    assert!(none.output_shapes.is_empty());
}

#[test]
fn extension_rule_matches_std_paths() {
    let paths = [
        "m.cvimodel", "dir/m.cvimodel/", "dir/m.cvimodel/.", "dir//m.cvimodel", ".cvimodel",
        "a/.cvimodel", "a/..cvimodel", "m.cvimodel/..", "/", ".", "./m.cvimodel", "m.CVIMODEL",
        "m.tar.cvimodel", "m.cvimodel.bak",
    ];
    for p in paths {
        let std_ok = std::path::Path::new(p).extension().and_then(|e| e.to_str()) == Some("cvimodel");
        assert_eq!(validate_model_path(p).is_ok(), std_ok, "path {p:?}");
    }
}

#[test]
fn input_is_described_only_when_reported_and_present() {
    assert!(has_input(1, true));
    assert!(has_input(3, true));
    assert!(!has_input(0, true));
    assert!(!has_input(-1, true));
    assert!(!has_input(2, false));
}

#[test]
fn output_is_empty_without_data_or_elements() {
    assert_eq!(output_read_len(true, 8400), 8400);
    assert_eq!(output_read_len(true, 0), 0);
    assert_eq!(output_read_len(false, 8400), 0);
    assert_eq!(output_read_len(false, 0), 0);
}
