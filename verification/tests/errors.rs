use minicov::{CoverageWriteError, IncompatibleCoverageData};

#[test]
fn write_error_message() {
    assert_eq!(CoverageWriteError.message(), "error while writing coverage data");
}

#[test]
fn incompatible_data_message() {
    assert_eq!(IncompatibleCoverageData.message(), "incompatible coverage data");
}

#[test]
fn errors_are_plain_values() {
    let e = CoverageWriteError;
    let f = e;
    assert_eq!(e, f);
    let g = IncompatibleCoverageData;
    let h = g.clone();
    assert_eq!(g, h);
    assert_eq!(format!("{:?}", e), "CoverageWriteError");
    assert_eq!(format!("{:?}", g), "IncompatibleCoverageData");
}
