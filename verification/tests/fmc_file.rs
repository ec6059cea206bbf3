use fmc_tfm::{
    check_shape, check_version, get_i32, project_version_supported, FmcFileError, MetaAttr,
    FORMAT_VERSION, PROJECT_FORMAT_VERSION,
};

#[test]
fn current_version_is_accepted() {
    assert!(check_version(Some(MetaAttr::Text(FORMAT_VERSION.to_string()))).is_ok());
    assert!(check_version(Some(MetaAttr::Text("1.0".to_string()))).is_ok());
}

#[test]
fn other_version_is_rejected_with_its_text() {
    let err = check_version(Some(MetaAttr::Text("9.9".to_string()))).unwrap_err();
    assert!(matches!(err, FmcFileError::UnsupportedVersion(v) if v == "9.9"));
}

#[test]
fn missing_or_non_text_version_is_missing_attribute() {
    assert!(matches!(
        check_version(None),
        Err(FmcFileError::MissingAttribute("version"))
    ));
    assert!(matches!(
        check_version(Some(MetaAttr::Int32(1))),
        Err(FmcFileError::MissingAttribute("version"))
    ));
}

#[test]
fn integer_attributes_of_both_widths_are_read() {
    assert_eq!(get_i32(Some(MetaAttr::Int32(64)), "num_elements").unwrap(), 64);
    assert_eq!(get_i32(Some(MetaAttr::Int64(1200)), "num_samples").unwrap(), 1200);
    // a 64-bit value keeps its low 32 bits
    assert_eq!(get_i32(Some(MetaAttr::Int64((1i64 << 32) + 7)), "num_samples").unwrap(), 7);
}

#[test]
fn missing_integer_attribute_names_the_attribute() {
    assert!(matches!(
        get_i32(None, "num_elements"),
        Err(FmcFileError::MissingAttribute("num_elements"))
    ));
    assert!(matches!(
        get_i32(Some(MetaAttr::Text("64".to_string())), "num_samples"),
        Err(FmcFileError::MissingAttribute("num_samples"))
    ));
    assert!(matches!(
        get_i32(Some(MetaAttr::Other), "num_samples"),
        Err(FmcFileError::MissingAttribute("num_samples"))
    ));
}

#[test]
fn matching_shape_is_accepted() {
    assert!(check_shape(2, 3, vec![2, 2, 3]).is_ok());
}

#[test]
fn shape_mismatch_reports_both_shapes() {
    match check_shape(2, 3, vec![2, 2, 2]) {
        Err(FmcFileError::ShapeMismatch { expected, actual }) => {
            assert_eq!(expected, [2, 2, 3]);
            assert_eq!(actual, vec![2, 2, 2]);
        }
        other => panic!("unexpected result {other:?}"),
    }
    assert!(matches!(
        check_shape(2, 3, vec![2, 2, 3, 1]),
        Err(FmcFileError::ShapeMismatch { .. })
    ));
}

#[test]
fn project_version_must_match() {
    assert!(project_version_supported(&PROJECT_FORMAT_VERSION.to_string()));
    assert!(project_version_supported(&"1.0".to_string()));
    assert!(!project_version_supported(&"2.0".to_string()));
    assert!(!project_version_supported(&String::new()));
}
