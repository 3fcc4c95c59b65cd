//! A deterministic generator of test vectors for cSHAKE, KMAC, ParallelHash,
//! TupleHash, KangarooTwelve, BLAKE3 and FF1.
//!
//! - `primitives`: one adapter per primitive, over byte slices and byte
//!   lengths, with absent parameters read as empty.
//! - `record`: the record of one call and the corpus that collects them.
//! - `sweep`: the seeded byte source, the plan of calls, and the driver.
//! - `laws`: properties of the corpus, proved over the plan.
pub mod primitives;
pub mod record;
pub mod sweep;
pub mod laws;
