//! Control core of a two-operator FM synthesiser: wave-type names, the
//! frequency-modulation parameter model, saturating gains, the fixed node
//! graph handed to the audio host, the synthesiser's state machine, and the
//! split of a computed spectrum into real and imaginary parts.
//!
//! Numeric values are generic: the caller supplies the multiplication and
//! the comparison, and the audio host performs the parameter writes.
pub mod catalog;
pub mod fm;
pub mod gain;
pub mod spectrum;
pub mod synth;
pub mod topology;

pub use catalog::{resolve_wave_type, UnknownWaveType, WaveType};
pub use fm::{FmParams, ModulatorTargets};
pub use gain::saturate;
pub use spectrum::{SpectrumPair, TransformError};
pub use synth::{readback_buffer, FmOsc};
pub use topology::{connections, nodes, Connection, NodeId, Sink};
