//! Admission decisions for Pods: exemptions, settings validation, and the
//! mutation that pins `spec.enableServiceLinks` to `false`.

pub mod names;
pub mod pipeline;
pub mod pod;
pub mod settings;
