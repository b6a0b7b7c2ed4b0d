//! Cleaning of the dynamic-linking table of ELF objects, so that runtime
//! linkers which reject newer dynamic entries can still load them.
//!
//! The dynamic section of an image is filtered by a small table of removal
//! rules and its extra-flags entry is masked down to the flags every linker
//! understands. Reading and writing of the container is done by the `object`
//! crate; the editing rules and everything stated about them are verified.
//!
//! - [`tags`]: tags, machines, the rule table and the flag mask.
//! - [`dynamic`]: dynamic entries and the two rules over a table.
//! - [`image`]: an image in memory, and the cleaning of all its sections.
//! - [`transform`]: bytes in, cleaned bytes and diagnostics out.
//! - [`report`]: the diagnostics as lines of text.
//! - [`laws`]: what holds of cleaning on every input.
//! - [`audit`]: the operation journal that may observe a transform.
//! - [`telemetry`]: the metrics sampler.
//! - [`text`], [`fields`], [`clock`]: numbers as text, text as fields, the
//!   wall clock.
pub mod text;
pub mod clock;
pub mod fields;
pub mod tags;
pub mod dynamic;
pub mod report;
pub mod error;
pub mod image;
pub mod transform;
pub mod laws;
pub mod audit;
pub mod telemetry;
