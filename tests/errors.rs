use rascam::camera::check_status;
use rascam::{CameraError, ErrorKind, MmalError};

fn driver_parts(e: &CameraError) -> (String, u32) {
    match e.kind() {
        ErrorKind::Mmal(m) => (m.message().to_string(), m.status_code()),
        _ => panic!("expected a driver error"),
    }
}

#[test]
fn test_camera_error_status() {
    let err = MmalError::with_status("testing".to_string(), 0);
    assert_eq!(err.status(), "SUCCESS");

    let err = MmalError::with_status("testing".to_string(), 1);
    assert_eq!(err.status(), "ENOMEM");

    let err = MmalError::with_status("testing".to_string(), 3);
    assert_eq!(err.status(), "EINVAL");
}

#[test]
fn status_names_beyond_the_table_are_unknown() {
    assert_eq!(MmalError::with_status("x".to_string(), 15).status(), "EFAULT");
    assert_eq!(MmalError::with_status("x".to_string(), 16).status(), "UNKNOWN");
    assert_eq!(MmalError::with_status("x".to_string(), 0x7fff_ffff).status(), "UNKNOWN");
}

#[test]
fn describe_appends_the_status_name() {
    let err = MmalError::with_status("Unable to set ISO".to_string(), 3);
    assert_eq!(err.describe(), "Unable to set ISO Status: EINVAL");
    let err = MmalError::with_status("Unable to set ISO".to_string(), 0);
    assert_eq!(err.describe(), "Unable to set ISO");
}

#[test]
fn camera_error_kinds() {
    let e = CameraError::from(MmalError::with_status("m".to_string(), 2));
    assert_eq!(driver_parts(&e), ("m".to_string(), 2));
    let e = CameraError::from(std::sync::mpsc::RecvError);
    assert!(matches!(e.kind(), ErrorKind::Recv(_)));
    let e = CameraError::from(std::io::Error::new(std::io::ErrorKind::Other, "sink"));
    assert!(matches!(e.into_kind(), ErrorKind::Io(_)));
    assert!(matches!(CameraError::busy().kind(), ErrorKind::Busy));
}

#[test]
fn check_status_maps_failures_to_driver_errors() {
    assert!(check_status(0, "Unable to set shutter speed").is_ok());
    let e = check_status(11, "Unable to set shutter speed").unwrap_err();
    assert_eq!(driver_parts(&e), ("Unable to set shutter speed".to_string(), 11));
}
