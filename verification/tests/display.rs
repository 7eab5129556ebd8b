//! Display status defaults.
use carvera_spindle::display::{DisplayStatus, ErrorType};

#[test]
fn test_display_status_default() {
    // Documents the contract: default DisplayStatus represents idle spindle
    let status = DisplayStatus::default();
    assert_eq!(status.requested_rpm, 0);
    assert_eq!(status.actual_rpm, 0);
    assert_eq!(status.current_ma, 0);
    assert!(!status.error);
    assert_eq!(status.error_type, ErrorType::NoError);
    assert!(!status.enabled);
    assert!(status.stabilization_time_ms.is_none());
}
