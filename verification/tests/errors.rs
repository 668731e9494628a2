use obj_error::{make_error, ErrorCause, LoadError, LoadErrorKind, ObjError, ObjResult};

#[test]
fn phrase_of_each_kind() {
    assert_eq!(
        LoadErrorKind::UnexpectedStatement.phrase(),
        "Met unexpected statement"
    );
    assert_eq!(
        LoadErrorKind::WrongNumberOfArguments.phrase(),
        "Received wrong number of arguments"
    );
    assert_eq!(
        LoadErrorKind::WrongTypeOfArguments.phrase(),
        "Received unexpected type of arguments"
    );
    assert_eq!(
        LoadErrorKind::UntriangulatedModel.phrase(),
        "Model should be triangulated first to be loaded properly"
    );
    assert_eq!(
        LoadErrorKind::InsufficientData.phrase(),
        "Model cannot be transformed into requested form"
    );
}

#[test]
fn render_each_kind_with_message() {
    let cases = [
        (
            LoadErrorKind::UnexpectedStatement,
            "Met unexpected statement: mtllib",
        ),
        (
            LoadErrorKind::WrongNumberOfArguments,
            "Received wrong number of arguments: mtllib",
        ),
        (
            LoadErrorKind::WrongTypeOfArguments,
            "Received unexpected type of arguments: mtllib",
        ),
        (
            LoadErrorKind::UntriangulatedModel,
            "Model should be triangulated first to be loaded properly: mtllib",
        ),
        (
            LoadErrorKind::InsufficientData,
            "Model cannot be transformed into requested form: mtllib",
        ),
    ];
    for (kind, expected) in cases {
        assert_eq!(LoadError::new(kind, "mtllib").render(), expected);
    }
}

#[test]
fn render_is_pure() {
    let le = LoadError::new(LoadErrorKind::WrongNumberOfArguments, "f 1 2");
    assert_eq!(le.render(), le.render());
}

#[test]
fn io_wrap_round_trip() {
    let original = std::io::Error::new(std::io::ErrorKind::NotFound, "model.obj missing");
    let kind = original.kind();
    let text = original.to_string();
    let wrapped: ObjError = original.into();
    match wrapped.cause() {
        Some(ErrorCause::Io(inner)) => {
            assert_eq!(inner.kind(), kind);
            assert_eq!(inner.to_string(), text);
        }
        _ => panic!("an I/O failure must wrap into the Io variant"),
    }
}

#[test]
fn parse_int_wrap_round_trip() {
    let original = "twelve".parse::<i32>().unwrap_err();
    let wrapped: ObjError = original.clone().into();
    match wrapped.cause() {
        Some(ErrorCause::ParseInt(inner)) => assert_eq!(*inner, original),
        _ => panic!("an integer-parse failure must wrap into the ParseInt variant"),
    }
}

#[test]
fn parse_float_wrap_round_trip() {
    let original = "half".parse::<f32>().unwrap_err();
    let wrapped: ObjError = original.clone().into();
    match wrapped.cause() {
        Some(ErrorCause::ParseFloat(inner)) => assert_eq!(*inner, original),
        _ => panic!("a float-parse failure must wrap into the ParseFloat variant"),
    }
}

#[test]
fn load_wrap_round_trip() {
    let original = LoadError::new(LoadErrorKind::UnexpectedStatement, "bevel");
    let wrapped: ObjError = original.clone().into();
    match wrapped.cause() {
        Some(ErrorCause::Load(inner)) => assert_eq!(*inner, original),
        _ => panic!("a load failure must wrap into the Load variant"),
    }
}

#[test]
fn variant_tags_are_disjoint() {
    let io: ObjError = std::io::Error::new(std::io::ErrorKind::Other, "boom").into();
    let int: ObjError = "x".parse::<u8>().unwrap_err().into();
    let float: ObjError = "y".parse::<f64>().unwrap_err().into();
    let load: ObjError = LoadError::new(LoadErrorKind::InsufficientData, "normals").into();
    for (err, tag) in [(io, 0), (int, 1), (float, 2), (load, 3)] {
        let found = match err {
            ObjError::Io(_) => 0,
            ObjError::ParseInt(_) => 1,
            ObjError::ParseFloat(_) => 2,
            ObjError::Load(_) => 3,
        };
        assert_eq!(found, tag);
    }
}

#[test]
fn load_error_equality_is_structural() {
    let a = LoadError::new(LoadErrorKind::WrongNumberOfArguments, "face");
    let b = LoadError::new(LoadErrorKind::WrongNumberOfArguments, "face");
    let other_message = LoadError::new(LoadErrorKind::WrongNumberOfArguments, "vertex");
    let other_kind = LoadError::new(LoadErrorKind::WrongTypeOfArguments, "face");
    assert_eq!(a, b);
    assert_ne!(a, other_message);
    assert_ne!(a, other_kind);
}

#[test]
fn scenario_untriangulated_model() {
    let le = LoadError::new(
        LoadErrorKind::UntriangulatedModel,
        "compute_normals requires triangles",
    );
    let wrapped: ObjError = le.into();
    assert_eq!(
        wrapped.render(),
        "Model should be triangulated first to be loaded properly: compute_normals requires triangles"
    );
}

#[test]
fn scenario_malformed_float_token() {
    let failure = "1.0.0".parse::<f32>().unwrap_err();
    let own_text = failure.to_string();
    let wrapped: ObjError = failure.into();
    assert!(matches!(wrapped, ObjError::ParseFloat(_)));
    assert_eq!(wrapped.render(), own_text);
}

#[test]
fn render_delegates_to_each_cause() {
    let io = std::io::Error::new(std::io::ErrorKind::PermissionDenied, "locked");
    let io_text = io.to_string();
    let wrapped: ObjError = io.into();
    assert_eq!(wrapped.render(), io_text);

    let int = "7f".parse::<i64>().unwrap_err();
    let int_text = int.to_string();
    let wrapped: ObjError = int.into();
    assert_eq!(wrapped.render(), int_text);
}

#[test]
fn make_error_raises_wrapped_load_error() {
    let raised: ObjResult<u32> = make_error(LoadErrorKind::WrongTypeOfArguments, "usemtl");
    match raised {
        Err(ObjError::Load(le)) => {
            assert_eq!(le, LoadError::new(LoadErrorKind::WrongTypeOfArguments, "usemtl"));
            assert_eq!(le.render(), "Received unexpected type of arguments: usemtl");
        }
        _ => panic!("make_error must fail with the Load variant"),
    }
}

#[test]
fn cause_chain_is_one_hop_deep() {
    let wrapped: ObjError = LoadError::new(LoadErrorKind::InsufficientData, "no normals").into();
    match wrapped.cause() {
        Some(ErrorCause::Load(inner)) => assert!(inner.cause().is_none()),
        _ => panic!("the Load variant must expose its LoadError as the cause"),
    }
}

#[test]
fn cause_is_never_none() {
    let errors: Vec<ObjError> = vec![
        std::io::Error::new(std::io::ErrorKind::UnexpectedEof, "truncated").into(),
        "".parse::<u32>().unwrap_err().into(),
        "".parse::<f32>().unwrap_err().into(),
        LoadError::new(LoadErrorKind::UnexpectedStatement, "s off").into(),
    ];
    for err in &errors {
        assert!(err.cause().is_some());
    }
}
