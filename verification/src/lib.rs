//! Device layer of a CPU-backed tensor computation engine.
//!
//! A device is the shared execution context that tensor operations refer
//! back to: it owns precomputed half-precision lookup tables for the
//! exponential and GELU functions, a synchronized handle to a worker pool,
//! and an optional name-keyed capture store used by tests to inspect
//! intermediate tensor values.

pub mod cache;
pub mod convert;
pub mod device;
pub mod options;
pub mod store;

pub use device::CapturedTensor;
pub use device::CpuTensorDevice;
pub use device::CpuTensorDeviceRef;
pub use options::CpuTensorDeviceOptions;
pub use options::TensorMetrics;
