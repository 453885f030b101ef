use wipe::error::Error;

#[test]
fn from_std_io_error() {
    let io_err = std::io::Error::new(std::io::ErrorKind::Other, "123");
    let msg = io_err.to_string();
    let err: Error = io_err.into();

    assert_eq!(msg, err.message());
}

#[test]
fn from_ref_str() {
    let err: Error = "123".into();

    assert_eq!("123", err.message());
}
