//! Board support for a pressure/temperature sensor on an I2C bus, an
//! ultrasonic range finder and an indicator LED: the protocols each device
//! speaks, the fixed-point arithmetic that turns raw readings into physical
//! values, and the registry that owns the hardware handles.
pub mod bmp180;
pub mod plan;
pub mod registry;
pub mod sr04;
pub mod indicator;
