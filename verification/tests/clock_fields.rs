//! The bounded clock-field scanners and the h[:mm[:ss]] reading.

use when_core::{parse_24, parse_60, parse_hms, ErrorKind, HmsFormat};

#[test]
fn parse_24_bounds() {
    assert_eq!(parse_24("0", 0).unwrap(), (0, 1));
    assert_eq!(parse_24("23", 0).unwrap(), (23, 2));
    let err = parse_24("24", 0).unwrap_err();
    assert_eq!((err.at, err.kind), (0, ErrorKind::Bounds));
    let err = parse_24("x", 0).unwrap_err();
    assert_eq!((err.at, err.kind), (0, ErrorKind::Digit));
}

#[test]
fn parse_60_bounds() {
    assert_eq!(parse_60("59", 0).unwrap(), (59, 2));
    assert_eq!(parse_60("00", 0).unwrap(), (0, 2));
    let err = parse_60("60", 0).unwrap_err();
    assert_eq!((err.at, err.kind), (0, ErrorKind::Bounds));
}

#[test]
fn parse_hms_granularities() {
    assert_eq!(parse_hms("7", 0, HmsFormat::H24).unwrap(), ((7, 0, 0), 1));
    assert_eq!(parse_hms("7:05", 0, HmsFormat::H24).unwrap(), ((7, 5, 0), 4));
    assert_eq!(parse_hms("7:05:59", 0, HmsFormat::H24).unwrap(), ((7, 5, 59), 7));
    // the 12-hour convention rejects hour 0
    let err = parse_hms("0:30", 0, HmsFormat::H12).unwrap_err();
    assert_eq!((err.at, err.kind), (0, ErrorKind::Bounds));
    // a colon commits to a minute field
    let err = parse_hms("7:", 0, HmsFormat::H24).unwrap_err();
    assert_eq!((err.at, err.kind), (2, ErrorKind::Digit));
    // scanning may start mid-input
    assert_eq!(parse_hms("at 7:05", 3, HmsFormat::H24).unwrap(), ((7, 5, 0), 7));
}
