//! Browser-driven article extraction pipeline.
//!
//! The pipeline turns a URL into a `(title, markdown, html)` triple by
//! driving a rendering engine through a fixed sequence of stages:
//! navigation, lazy-load settling, DOM sanitization, article extraction,
//! and markdown conversion. The engine itself is outside this library;
//! the library decides each next action from the current state and the
//! event the engine reported, decodes the extraction envelope, and
//! states what each stage produces.

mod api;
mod envelope;
mod gate;
mod images;
mod markdown;
mod pipeline;
mod sanitize;
mod types;

pub use api::{
    error_response, is_alnum_char, raw_output_path, readable_html_path, readable_md_path,
    safe_file_stem, spec_file_char_kept, spec_kept_chars, spec_kind_prefix, spec_safe_stem,
    spec_trim_spaces, spec_underscored, success_response,
};
pub use envelope::{
    spec_empty_envelope, spec_or_empty, spec_parse_envelope, empty_envelope, envelope_fields_of,
    parse_envelope, EnvelopeModel, ExtractionEnvelope,
};
pub use gate::SessionGate;
pub use images::{
    is_promotable, lemma_repair_idempotent, repair_image, repair_images, resolve_source,
    spec_is_data_uri, spec_present, spec_promotable, spec_repair, spec_resolve, spec_text,
    view_attr, ImgElement, ImgModel,
};
pub use markdown::{markdown_of, to_markdown};
pub use pipeline::{
    engine_idle_timeout_secs, lemma_navigation_failure_closes, lemma_readable_happy_path, lemma_raw_happy_path, lemma_raw_result,
    lemma_readable_markdown_from_content, lemma_session_closed_exactly_once,
    lemma_step_preserves_inv, settle_after_nav_ms, settle_after_scroll_ms, spec_after_image_fix,
    spec_after_scroll,
    spec_fail, spec_holds_session, spec_init, spec_inv, spec_outcome_view,
    spec_settle_after_nav_ms, spec_settle_after_scroll_ms, spec_step, spec_succeed,
    spec_value_text, Action, ActionModel, ErrorModel, Event, EventModel, Pipeline, PipelineModel,
    ResultModel, Script, Stage,
};
pub use sanitize::{
    lemma_image_parent_never_removed, lemma_sanitize_preserves_images,
    lemma_strip_comments_preserves_images, sanitize, spec_has_image, spec_image_count,
    spec_image_count_children, spec_is_hidden, spec_model, spec_models, spec_removed,
    spec_sanitize, spec_sanitize_children, spec_strip_comments, spec_strip_comments_children,
    spec_wf, strip_comments, Node, NodeKind, NodeModel,
};
pub use types::{
    ErrorKind, ErrorResponse, ExtractionResult, Mode, ScrapeError, ScrapeRequest, ScrapeResponse,
    Scraper,
};
