//! A database-agnostic SQL statement builder.
//!
//! A [`Query`] is assembled through a consuming fluent interface, records
//! the statement shape together with its positional bind values, and is
//! rendered to SQL text by [`Query::build`].  The serialization algorithm
//! and the binding order (`values` first, then `params`) are stated as
//! contracts and proved; an execution layer outside this crate hands the
//! rendered text and the bound values to a concrete database backend.

mod laws;
mod query;
mod text;
mod value;
mod views;

pub use laws::lemma_binding_order;
pub use laws::lemma_build_idempotent;
pub use laws::lemma_builder_keeps_kind_and_wf;
pub use laws::lemma_call_order_irrelevant;
pub use laws::lemma_insert_placeholder_count;
pub use laws::lemma_select_projection;
pub use laws::lemma_select_projection_trimmed;
pub use laws::lemma_set_keeps_columns_and_values_parallel;
pub use laws::lemma_update_set_fragments;
pub use query::spec_build;
pub use query::spec_build_untrimmed;
pub use query::spec_set_fragments;
pub use query::JoinType;
pub use query::JoinView;
pub use query::Query;
pub use query::QueryType;
pub use query::QueryView;
pub use text::count_char;
pub use text::spec_decimal;
pub use text::spec_join;
pub use text::spec_placeholders;
pub use text::spec_trim_end;
pub use value::Value;
pub use value::ValueView;
