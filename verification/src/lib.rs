//! An incremental disassembler for ROM images.
//!
//! Bytes of a loaded image are classified as unknown, data, or code.  A
//! worklist-based discovery engine follows fallthrough and branch edges from a
//! seed offset and tags every reachable instruction start as code.  The engine
//! is independent of any one instruction set: a CPU plugs in through the
//! [`disassembler::Architecture`] trait, and a Game Boy model with a banked
//! address resolver is provided in [`gb`].  A navigation layer in
//! [`navigation`] keeps jump-target labels, explicit bank assignments, and a
//! back/forward history of visited offsets.  The exact effect of discovery
//! is specified in [`discovery`], together with proofs that it terminates,
//! is idempotent, and never downgrades a `Data` tag.

pub mod disassembler;
pub mod discovery;
pub mod gb;
pub mod navigation;
