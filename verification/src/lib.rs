//! Verified core of the reCamera SDK.
//!
//! - [`types`], [`error`]: shared frame types and the SDK error.
//! - [`camera`]: camera configuration, channels and frames.
//! - [`pipeline`], [`sensor`], [`session`]: the CVI video pipeline as
//!   planned call sequences, sensor detection, and the camera's streaming
//!   state.
//! - [`infer`]: tensor shapes, model path validation, NPU call judgements.
//! - [`loader`]: where the vendor libraries are looked for.
//! - [`system`]: device information parsing and sysfs LEDs.
//! - [`uart`]: serial port configuration.
//! - [`decimal`], [`text`]: integer rendering/parsing and text scanning
//!   with the semantics of the standard library's methods.

pub mod camera;
pub mod decimal;
pub mod error;
pub mod infer;
pub mod loader;
pub mod pipeline;
pub mod sensor;
pub mod session;
pub mod system;
pub mod text;
pub mod types;
pub mod uart;
