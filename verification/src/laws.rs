use vstd::prelude::*;

use crate::query::spec_build;
use crate::query::spec_build_untrimmed;
use crate::query::spec_set_fragment;
use crate::query::spec_set_fragments;
use crate::query::spec_verb_clause;
use crate::query::JoinType;
use crate::query::QueryView;
use crate::text::count_char;
use crate::text::lemma_placeholder_count;
use crate::text::lemma_trim_keeps_anchored_prefix;
use crate::text::spec_is_ws;
use crate::text::spec_join;
use crate::text::spec_placeholders;
use crate::value::ValueView;

verus! {

/// A sequence is a prefix of itself followed by anything.
proof fn lemma_prefix_of_concat(a: Seq<char>, b: Seq<char>)
    ensures
        a.is_prefix_of(a + b),
{
    assert(a =~= (a + b).subrange(0, a.len() as int));
}

/// Being a prefix is transitive.
proof fn lemma_prefix_transitive(a: Seq<char>, b: Seq<char>, c: Seq<char>)
    requires
        a.is_prefix_of(b),
        b.is_prefix_of(c),
    ensures
        a.is_prefix_of(c),
{
    assert(a =~= c.subrange(0, a.len() as int));
}

/// The verb clause opens the serialized statement.
proof fn lemma_verb_clause_prefix(v: QueryView)
    ensures
        spec_verb_clause(v).is_prefix_of(spec_build_untrimmed(v)),
{
    let verb = spec_verb_clause(v);
    let rest = spec_build_untrimmed(v).subrange(
        verb.len() as int,
        spec_build_untrimmed(v).len() as int,
    );
    assert(spec_build_untrimmed(v) =~= verb + rest);
    lemma_prefix_of_concat(verb, rest);
}

/// A Select's projection opens the statement: with columns tracked, the
/// serialized text (before the final trim) starts with `SELECT ` and the
/// columns joined by `, `; with no columns it starts with `SELECT *`.
pub proof fn lemma_select_projection(v: QueryView)
    requires
        v.query_type is Select,
    ensures
        v.columns.len() > 0 ==> ("SELECT "@ + spec_join(v.columns, ", "@)).is_prefix_of(
            spec_build_untrimmed(v),
        ),
        v.columns.len() == 0 ==> ("SELECT "@ + "*"@).is_prefix_of(spec_build_untrimmed(v)),
{
    lemma_verb_clause_prefix(v);
    if v.columns.len() > 0 {
        let head = "SELECT "@ + spec_join(v.columns, ", "@);
        lemma_prefix_of_concat(head, " "@);
        assert(spec_verb_clause(v) == head + " "@);
        lemma_prefix_transitive(head, spec_verb_clause(v), spec_build_untrimmed(v));
    } else {
        let head = "SELECT "@ + "*"@;
        lemma_prefix_of_concat(head, " "@);
        assert(spec_verb_clause(v) == head + " "@);
        lemma_prefix_transitive(head, spec_verb_clause(v), spec_build_untrimmed(v));
    }
}

/// A Select's projection survives the final trim whenever it does not
/// itself end in whitespace: the serialized statement starts with
/// `SELECT ` and the columns joined by `, ` (or `SELECT *` with no
/// columns tracked).
pub proof fn lemma_select_projection_trimmed(v: QueryView)
    requires
        v.query_type is Select,
        v.columns.len() > 0 ==> spec_join(v.columns, ", "@).len() > 0 && !spec_is_ws(
            spec_join(v.columns, ", "@).last(),
        ),
    ensures
        v.columns.len() > 0 ==> ("SELECT "@ + spec_join(v.columns, ", "@)).is_prefix_of(
            spec_build(v),
        ),
        v.columns.len() == 0 ==> ("SELECT "@ + "*"@).is_prefix_of(spec_build(v)),
{
    let head = if v.columns.len() > 0 {
        "SELECT "@ + spec_join(v.columns, ", "@)
    } else {
        "SELECT "@ + "*"@
    };
    if v.columns.len() == 0 {
        reveal_strlit("*");
    }
    assert(head.len() > 0 && !spec_is_ws(head.last()));
    let rest = spec_build_untrimmed(v).subrange(
        head.len() as int,
        spec_build_untrimmed(v).len() as int,
    );
    assert(spec_verb_clause(v) == head + " "@);
    lemma_prefix_of_concat(head, " "@);
    lemma_verb_clause_prefix(v);
    lemma_prefix_transitive(head, spec_verb_clause(v), spec_build_untrimmed(v));
    assert(spec_build_untrimmed(v) =~= head + rest);
    lemma_trim_keeps_anchored_prefix(head, rest);
}

/// An Insert's VALUES clause holds exactly one `?` placeholder per
/// tracked value, so placeholders and bound values correspond one to
/// one and in the same order.
pub proof fn lemma_insert_placeholder_count(v: QueryView)
    requires
        v.query_type is Insert,
    ensures
        count_char(spec_placeholders(v.values.len()), '?') == v.values.len(),
{
    lemma_placeholder_count(v.values.len());
}

/// An Update's SET clause joins exactly one `col = ?` fragment per
/// tracked column, in column order.
pub proof fn lemma_update_set_fragments(v: QueryView)
    requires
        v.query_type is Update,
    ensures
        spec_set_fragments(v.columns).len() == v.columns.len(),
        forall|i: int|
            0 <= i < v.columns.len() ==> spec_set_fragments(v.columns)[i] == v.columns[i]
                + " = ?"@,
{
    assert forall|i: int| 0 <= i < v.columns.len() implies spec_set_fragments(v.columns)[i]
        == v.columns[i] + " = ?"@ by {
        assert(spec_set_fragments(v.columns)[i] == spec_set_fragment(v.columns[i]));
    }
}

/// `set` appends one column name and one value per pair: the two lists
/// grow in step, so they never diverge in length.
pub proof fn lemma_set_keeps_columns_and_values_parallel(
    v: QueryView,
    col_vals: Seq<(Seq<char>, ValueView)>,
)
    ensures
        v.with_set(col_vals).columns.len() == v.columns.len() + col_vals.len(),
        v.with_set(col_vals).values.len() == v.values.len() + col_vals.len(),
{
}

/// Clause order is fixed by the serializer, not by call order: filtering
/// then ordering builds the same state, and so the same SQL text, as
/// ordering then filtering.
pub proof fn lemma_call_order_irrelevant(v: QueryView, cond: Seq<char>, ord: Seq<Seq<char>>)
    ensures
        v.with_condition(cond).with_order_by(ord) == v.with_order_by(ord).with_condition(cond),
        spec_build(v.with_condition(cond).with_order_by(ord)) == spec_build(
            v.with_order_by(ord).with_condition(cond),
        ),
{
    assert(v.with_condition(cond).with_order_by(ord) =~= v.with_order_by(ord).with_condition(
        cond,
    ));
}

/// Binding order is `values` then `params` however the calls interleave:
/// appending a param before or after appending values yields the same
/// bound sequence, all values first.
pub proof fn lemma_binding_order(v: QueryView, vals: Seq<ValueView>, p: ValueView)
    ensures
        v.with_values(vals).with_param(p).bound() == v.with_param(p).with_values(vals).bound(),
        v.with_values(vals).with_param(p).bound() == (v.values + vals) + v.params.push(p),
{
    assert(v.with_values(vals).with_param(p).bound() =~= (v.values + vals) + v.params.push(p));
    assert(v.with_param(p).with_values(vals).bound() =~= (v.values + vals) + v.params.push(p));
}

/// The kind is chosen once and no builder call changes it; none can
/// clear a table once set either, so a serializable statement stays
/// serializable through any chain of calls.
pub proof fn lemma_builder_keeps_kind_and_wf(
    v: QueryView,
    cols: Seq<Seq<char>>,
    text: Seq<char>,
    value: ValueView,
    vals: Seq<ValueView>,
    pairs: Seq<(Seq<char>, ValueView)>,
    join_type: JoinType,
    n: u64,
)
    ensures
        v.with_columns(cols).query_type == v.query_type && (v.wf() ==> v.with_columns(cols).wf()),
        v.with_table(text).query_type == v.query_type && v.with_table(text).wf(),
        v.with_condition(text).query_type == v.query_type && (v.wf() ==> v.with_condition(
            text,
        ).wf()),
        v.with_param(value).query_type == v.query_type && (v.wf() ==> v.with_param(value).wf()),
        v.with_values(vals).query_type == v.query_type && (v.wf() ==> v.with_values(vals).wf()),
        v.with_set(pairs).query_type == v.query_type && (v.wf() ==> v.with_set(pairs).wf()),
        v.with_join(join_type, text, text).query_type == v.query_type && (v.wf() ==> v.with_join(
            join_type,
            text,
            text,
        ).wf()),
        v.with_group_by(cols).query_type == v.query_type && (v.wf() ==> v.with_group_by(
            cols,
        ).wf()),
        v.with_having(text).query_type == v.query_type && (v.wf() ==> v.with_having(text).wf()),
        v.with_order_by(cols).query_type == v.query_type && (v.wf() ==> v.with_order_by(
            cols,
        ).wf()),
        v.with_limit(n).query_type == v.query_type && (v.wf() ==> v.with_limit(n).wf()),
        v.with_offset(n).query_type == v.query_type && (v.wf() ==> v.with_offset(n).wf()),
{
}

/// Serialization is a pure function of the completed statement: any two
/// renders of the same state are identical, character for character.
pub proof fn lemma_build_idempotent(v: QueryView, r1: Seq<char>, r2: Seq<char>)
    requires
        r1 == spec_build(v),
        r2 == spec_build(v),
    ensures
        r1 == r2,
{
}

} // verus!
