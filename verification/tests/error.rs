use geos::Error;

#[test]
fn error_texts() {
    assert_eq!(
        Error::GeosError(("GEOSArea_r", Some("bad input".to_string()))).to_string(),
        "GEOSArea_r failed with bad input"
    );
    assert_eq!(
        Error::GeosError(("GEOSArea_r", None)).to_string(),
        "GEOSArea_r failed"
    );
    assert_eq!(
        Error::ImpossibleOperation("no".to_string()).to_string(),
        "impossible operation: no"
    );
    assert_eq!(
        Error::ConversionError("oops".to_string()).to_string(),
        "impossible to convert geometry: oops"
    );
    assert_eq!(
        Error::GenericError("Geometry::transform_xy failed due to closure error".to_owned())
            .to_string(),
        "generic error: Geometry::transform_xy failed due to closure error"
    );
}

#[test]
fn error_clone_keeps_the_error() {
    let e = Error::GeosError(("GEOSisValid_r", Some("x".to_string())));
    assert_eq!(e.clone(), e);
    let g = Error::GenericError("y".to_string());
    assert_eq!(g.clone(), g);
}
