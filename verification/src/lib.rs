//! Loudspeaker passive-radiator response model.
//!
//! A small set of independent physical measurements (driver mass, compliance,
//! radiating area, enclosure volume, ...) is propagated through a directed
//! acyclic graph of algebraic relations to derive the dependent quantities of
//! the Hurlburt passive-radiator formulation (resonant frequencies, quality
//! factors, time constants, tuning ratios).  From those, rational transfer
//! functions for the acoustic output, the cone and radiator displacements and
//! the electrical impedance are assembled as polynomial coefficient vectors
//! and sampled at arbitrary angular frequencies.
//!
//! All quantities are exact fixed-point numbers (integer multiples of
//! `10^-12`) with an explicit non-finite sentinel, so every arithmetic step
//! has a precise contract and the engine is deterministic by construction.

pub mod complex;
pub mod defaults;
pub mod equations;
pub mod evaluate;
pub mod event_loop;
pub mod laws;
pub mod params;
pub mod plot;
pub mod presets;
pub mod recompute;
pub mod scalar;
pub mod transfer;

pub use defaults::builtin_defaults;
pub use equations::Equation;
pub use evaluate::{bass_fn_point, BassFnData};
pub use event_loop::EventLoop;
pub use params::{BassError, Param, Parameters};
pub use plot::State;
pub use presets::{parse_value, split_str, trim_str, RecordOutcome};
pub use scalar::Scalar;
pub use transfer::{
    DriverDisplacement, EfficencyAdams, Impedance, PassiveDisplacement, Radiator, RadiatorAlt,
};
