//! A soft-real-time tone pipeline: a bounded lock-free frame queue shared by a
//! sample generator and a hardware-driven consumer, the synthesizer state that
//! the generator runs, and the bridge state machine that supervises a session.

pub mod generator;
pub mod stream;
pub mod subscription;
pub mod synthesizer;
