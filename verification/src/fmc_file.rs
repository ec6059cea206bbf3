use vstd::prelude::*;

verus! {

/// Format version stored in, and required of, the `version` root attribute
/// of an FMC file.
pub const FORMAT_VERSION: &'static str = "1.0";

/// The HDF5 library's error type, carried unchanged inside `FmcFileError`.
#[verifier::external_type_specification]
#[verifier::external_body]
pub struct ExHdf5Error(hdf5_pure::Error);

/// An attribute of an FMC file as it was found: an integer of either width,
/// a text (UTF-8 or ASCII) value, or a value of any other type.
#[derive(Clone, Debug, PartialEq)]
pub enum MetaAttr {
    Int32(i32),
    Int64(i64),
    Text(String),
    Other,
}

/// Why an FMC file could not be read.
#[derive(Debug)]
pub enum FmcFileError {
    /// The HDF5 layer failed (unreadable file, missing group or dataset...).
    Hdf5(hdf5_pure::Error),
    /// A required attribute is absent or has the wrong type.
    MissingAttribute(&'static str),
    /// The file declares a format version other than `FORMAT_VERSION`.
    UnsupportedVersion(String),
    /// The `fmc_data` dataset's shape disagrees with the metadata.
    ShapeMismatch { expected: [u64; 3], actual: Vec<u64> },
}

impl From<hdf5_pure::Error> for FmcFileError {
    fn from(e: hdf5_pure::Error) -> (r: Self) {
        FmcFileError::Hdf5(e)
    }
}

impl vstd::std_specs::convert::FromSpecImpl<hdf5_pure::Error> for FmcFileError {
    open spec fn obeys_from_spec() -> bool {
        true
    }

    open spec fn from_spec(e: hdf5_pure::Error) -> Self {
        FmcFileError::Hdf5(e)
    }
}

/// Accepts the file's `version` attribute when it is text equal to
/// `FORMAT_VERSION`. Other text is an unsupported version; a missing or
/// non-text attribute is reported as a missing `version` attribute.
pub fn check_version(attr: Option<MetaAttr>) -> (r: Result<(), FmcFileError>)
    ensures
        match attr {
            Some(MetaAttr::Text(v)) => if v@ == FORMAT_VERSION@ {
                r is Ok
            } else {
                r matches Err(FmcFileError::UnsupportedVersion(found)) && found == v
            },
            _ => r matches Err(FmcFileError::MissingAttribute(name)) && name == "version",
        },
{
    match attr {
        Some(MetaAttr::Text(v)) => {
            let expected = FORMAT_VERSION.to_owned();
            if v == expected {
                Ok(())
            } else {
                Err(FmcFileError::UnsupportedVersion(v))
            }
        },
        _ => Err(FmcFileError::MissingAttribute("version")),
    }
}

/// Reads an integer attribute as `i32`. A 64-bit value (the width in which
/// the HDF5 layer may hand integers back) is truncated to its low 32 bits;
/// an absent or non-integer attribute is reported as missing under `name`.
pub fn get_i32(attr: Option<MetaAttr>, name: &'static str) -> (r: Result<i32, FmcFileError>)
    ensures
        match attr {
            Some(MetaAttr::Int32(v)) => r == Ok::<i32, FmcFileError>(v),
            Some(MetaAttr::Int64(v)) => r == Ok::<i32, FmcFileError>(v as i32),
            _ => r matches Err(FmcFileError::MissingAttribute(n)) && n == name,
        },
{
    match attr {
        Some(MetaAttr::Int32(v)) => Ok(v),
        Some(MetaAttr::Int64(v)) => Ok(v as i32),
        _ => Err(FmcFileError::MissingAttribute(name)),
    }
}

/// The dataset shape that metadata with these counts calls for.
pub open spec fn expected_shape(num_elements: usize, num_samples: usize) -> Seq<u64> {
    seq![num_elements as u64, num_elements as u64, num_samples as u64]
}

/// Accepts the `fmc_data` shape exactly when it is
/// `[num_elements, num_elements, num_samples]`.
pub fn check_shape(num_elements: usize, num_samples: usize, shape: Vec<u64>) -> (r: Result<
    (),
    FmcFileError,
>)
    ensures
        (r is Ok) == (shape@ == seq![num_elements as u64, num_elements as u64, num_samples as u64]),
        r matches Err(FmcFileError::ShapeMismatch { expected, actual }) ==> expected@ == seq![
            num_elements as u64,
            num_elements as u64,
            num_samples as u64,
        ] && actual@ == shape@,
        shape@ == expected_shape(num_elements, num_samples) ==> r is Ok,
        shape@ != expected_shape(num_elements, num_samples) ==> (r matches Err(
            FmcFileError::ShapeMismatch { expected, actual },
        ) && expected@ == expected_shape(num_elements, num_samples) && actual == shape),
{
    let expected: [u64; 3] = [num_elements as u64, num_elements as u64, num_samples as u64];
    let matches = shape.len() == 3 && shape[0] == expected[0] && shape[1] == expected[1]
        && shape[2] == expected[2];
    if matches {
        assert(shape@ =~= expected_shape(num_elements, num_samples));
        Ok(())
    } else {
        assert(expected@ =~= expected_shape(num_elements, num_samples));
        Err(FmcFileError::ShapeMismatch { expected, actual: shape })
    }
}

} // verus!
