//! A safe bridge to a foreign template engine.
//!
//! The library prepares the two null-terminated buffers and the two flags
//! that the engine's entry point takes, tracks the ownership of the two
//! buffers that the engine hands back, and turns what the engine reported
//! into a typed outcome.
mod bridge;
mod error;
mod guard;
mod laws;
mod marshal;
mod options;
mod serialize;

pub use bridge::{
    prepare_invocation, prepare_render, prepare_serialized, prepared, prepared_from, request_of, Invocation, InvocationView,
    Render,
};
pub use error::{error_text, BoundaryField, ErrorKind, TemplateError};
pub use guard::{
    after_copy, after_release, fresh_view, guard_wf, released, step_of, translate,
    GuardStep, GuardView, ResultGuard, Slot,
};
pub use laws::{
    after_step, lemma_failed_serialization_builds_nothing, lemma_finished_guard_released_both, lemma_guard_run_releases_each_once,
    lemma_nul_never_crosses, lemma_options_set_only_flags, lemma_renders_release_two_each,
    run_steps, total_released,
};
pub use marshal::{
    check_nul_escape, first_nul_at, holds_nul, holds_nul_escape, marshal, nul_escape_at,
    nul_escape_from, refused_at, refused_escape_at,
};
pub use options::{MissingKeyPolicy, RenderOptions};
pub use serialize::{serialization_outcome, serialize_data, serialized};
