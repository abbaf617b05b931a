//! A reversible, capacity-aware bit-injection engine for embedding binary
//! payloads into a stream of discrete numeric carrier values ("angles").
//!
//! [`injector::InnerHic`] owns one payload buffer and decides, for each
//! carrier value presented to it, whether to overwrite its lowest bit with
//! the next payload bit, honouring a start offset, an inter-injection
//! padding interval, and a probe/commit phase discipline.
//! [`encoder::Hic`] composes two injectors -- a preamble ("pubkey") and a
//! main payload -- and switches from the first to the second once the first
//! is exhausted.

pub mod encoder;
pub mod injector;
pub mod laws;

pub use encoder::Hic;
pub use injector::InnerHic;
