//! Carvera Spindle Controller - core logic.
//!
//! Pure functions, detectors and state machines of the spindle controller.
pub mod adc;
pub mod calibration;
pub mod conversion;
pub mod display;
pub mod filters;
pub mod flash_store;
pub mod lcd;
pub mod speed;
pub mod stabilization;
pub mod stall;
pub mod state;
pub mod tasks;
pub mod temperature;
pub mod threshold;

pub use adc::adc_to_current_ma;
pub use conversion::{duty_to_rpm, frequency_to_rpm, motor_rpm_to_output_duty, spindle_to_motor_rpm};
pub use filters::CircularBuffer;
pub use speed::{is_valid_period, median_u32, period_us_to_frequency_mhz, periods_to_rpm};
pub use stabilization::{StabilizationStatus, StabilizationTracker};
pub use stall::{StallConfig, StallDetector, StallStatus};
pub use temperature::{
    adc_to_temp_c, adc_to_voltage_mv, voltage_to_temp_c, DEFAULT_ADC_VREF_MV,
    TEMP_SENSOR_SLOPE_UV_C, TEMP_SENSOR_V27_MV,
};
pub use threshold::{ThresholdDetector, ThresholdStatus};
