use vstd::prelude::*;
use vstd::string::StringExecFns;

use crate::text::join_strings;
use crate::text::placeholders;
use crate::text::spec_decimal;
use crate::text::spec_join;
use crate::text::spec_placeholders;
use crate::text::spec_trim_end;
use crate::text::trim_end_str;
use crate::text::u64_to_string;
use crate::value::Value;
use crate::value::ValueView;
use crate::views::lemma_vec_deep_view_index;

verus! {

/// The kind of statement, chosen by the constructor and immutable
/// afterwards.  It selects the serialization branch; builder calls that
/// are meaningless for a kind (such as `columns` on a Delete) are still
/// legal and simply do not show in the output.
#[derive(Debug, Clone, Copy, PartialEq, Eq, Structural)]
pub enum QueryType {
    Select,
    Insert,
    Update,
    Delete,
}

/// The kind of SQL join.
#[derive(Debug, Clone, Copy, PartialEq, Eq, Structural)]
pub enum JoinType {
    Inner,
    Left,
    Right,
    Full,
}

/// One join clause, as contracts see it.
#[verifier::ext_equal]
pub struct JoinView {
    pub join_type: JoinType,
    pub table: Seq<char>,
    pub condition: Seq<char>,
}

/// One join clause: kind, joined table, and ON condition.
#[derive(Debug, Clone)]
struct Join {
    join_type: JoinType,
    table: String,
    condition: String,
}

impl View for Join {
    type V = JoinView;

    closed spec fn view(&self) -> JoinView {
        JoinView { join_type: self.join_type, table: self.table@, condition: self.condition@ }
    }
}

impl DeepView for Join {
    type V = JoinView;

    closed spec fn deep_view(&self) -> JoinView {
        self.view()
    }
}

/// The builder state, as contracts see it: every attribute of a
/// statement under construction, over mathematical sequences.
#[verifier::ext_equal]
pub struct QueryView {
    pub query_type: QueryType,
    pub columns: Seq<Seq<char>>,
    pub table: Option<Seq<char>>,
    pub conditions: Seq<Seq<char>>,
    pub params: Seq<ValueView>,
    pub joins: Seq<JoinView>,
    pub values: Seq<ValueView>,
    pub group_by: Seq<Seq<char>>,
    pub having: Option<Seq<char>>,
    pub order_by: Seq<Seq<char>>,
    pub limit: Option<u64>,
    pub offset: Option<u64>,
}

impl QueryView {
    /// The state every constructor starts from: the chosen kind, the
    /// table if the constructor takes one, and everything else empty.
    pub open spec fn initial(query_type: QueryType, table: Option<Seq<char>>) -> QueryView {
        QueryView {
            query_type,
            columns: Seq::empty(),
            table,
            conditions: Seq::empty(),
            params: Seq::empty(),
            joins: Seq::empty(),
            values: Seq::empty(),
            group_by: Seq::empty(),
            having: None,
            order_by: Seq::empty(),
            limit: None,
            offset: None,
        }
    }

    pub open spec fn with_columns(self, cols: Seq<Seq<char>>) -> QueryView {
        QueryView { columns: cols, ..self }
    }

    pub open spec fn with_table(self, table: Seq<char>) -> QueryView {
        QueryView { table: Some(table), ..self }
    }

    pub open spec fn with_condition(self, condition: Seq<char>) -> QueryView {
        QueryView { conditions: self.conditions.push(condition), ..self }
    }

    pub open spec fn with_param(self, param: ValueView) -> QueryView {
        QueryView { params: self.params.push(param), ..self }
    }

    pub open spec fn with_values(self, vals: Seq<ValueView>) -> QueryView {
        QueryView { values: self.values + vals, ..self }
    }

    /// One column name and one value appended per pair, atomically.
    pub open spec fn with_set(self, col_vals: Seq<(Seq<char>, ValueView)>) -> QueryView {
        QueryView {
            columns: self.columns + col_vals.map_values(|cv: (Seq<char>, ValueView)| cv.0),
            values: self.values + col_vals.map_values(|cv: (Seq<char>, ValueView)| cv.1),
            ..self
        }
    }

    pub open spec fn with_join(
        self,
        join_type: JoinType,
        table: Seq<char>,
        condition: Seq<char>,
    ) -> QueryView {
        QueryView { joins: self.joins.push(JoinView { join_type, table, condition }), ..self }
    }

    pub open spec fn with_group_by(self, cols: Seq<Seq<char>>) -> QueryView {
        QueryView { group_by: cols, ..self }
    }

    pub open spec fn with_having(self, condition: Seq<char>) -> QueryView {
        QueryView { having: Some(condition), ..self }
    }

    pub open spec fn with_order_by(self, cols: Seq<Seq<char>>) -> QueryView {
        QueryView { order_by: cols, ..self }
    }

    pub open spec fn with_limit(self, limit: u64) -> QueryView {
        QueryView { limit: Some(limit), ..self }
    }

    pub open spec fn with_offset(self, offset: u64) -> QueryView {
        QueryView { offset: Some(offset), ..self }
    }

    /// A statement may be serialized once every kind but Select has its
    /// table set.  The four constructors establish this and every
    /// builder call preserves it.
    pub open spec fn wf(self) -> bool {
        self.query_type is Select || self.table is Some
    }

    /// The binding order handed to a backend: all of `values` in
    /// insertion order, then all of `params` in insertion order.
    pub open spec fn bound(self) -> Seq<ValueView> {
        self.values + self.params
    }
}

/// The `col = ?` assignment fragment of one column of an UPDATE.
pub open spec fn spec_set_fragment(col: Seq<char>) -> Seq<char> {
    col + " = ?"@
}

/// One assignment fragment per column, in column order.
pub open spec fn spec_set_fragments(cols: Seq<Seq<char>>) -> Seq<Seq<char>> {
    Seq::new(cols.len(), |i: int| spec_set_fragment(cols[i]))
}

/// The verb clause: the statement kind, its target, and for Insert and
/// Update the placeholder positions the bound values will fill.
pub open spec fn spec_verb_clause(v: QueryView) -> Seq<char> {
    match v.query_type {
        QueryType::Select => "SELECT "@ + (if v.columns.len() == 0 {
            "*"@
        } else {
            spec_join(v.columns, ", "@)
        }) + " "@,
        QueryType::Insert => "INSERT INTO "@ + v.table->0 + " ("@ + spec_join(v.columns, ", "@)
            + ") VALUES ("@ + spec_placeholders(v.values.len()) + ") "@,
        QueryType::Update => "UPDATE "@ + v.table->0 + " SET "@ + spec_join(
            spec_set_fragments(v.columns),
            ", "@,
        ) + " "@,
        QueryType::Delete => "DELETE FROM "@ + v.table->0 + " "@,
    }
}

/// The FROM clause: only a Select names its table here; for the other
/// kinds the table already stands in the verb clause.
pub open spec fn spec_from_clause(v: QueryView) -> Seq<char> {
    if v.query_type is Select && v.table is Some {
        "FROM "@ + v.table->0 + " "@
    } else {
        Seq::empty()
    }
}

/// The keyword a join kind renders as.
pub open spec fn spec_join_keyword(join_type: JoinType) -> Seq<char> {
    match join_type {
        JoinType::Inner => "INNER JOIN"@,
        JoinType::Left => "LEFT JOIN"@,
        JoinType::Right => "RIGHT JOIN"@,
        JoinType::Full => "FULL JOIN"@,
    }
}

/// One rendered join segment.
pub open spec fn spec_join_segment(j: JoinView) -> Seq<char> {
    spec_join_keyword(j.join_type) + " "@ + j.table + " ON "@ + j.condition + " "@
}

/// All join segments, in insertion order.
pub open spec fn spec_joins_clause(joins: Seq<JoinView>) -> Seq<char>
    decreases joins.len(),
{
    if joins.len() == 0 {
        Seq::empty()
    } else {
        spec_joins_clause(joins.drop_last()) + spec_join_segment(joins.last())
    }
}

/// The WHERE clause: the filter fragments joined with `AND`, omitted
/// entirely when there are none.
pub open spec fn spec_where_clause(v: QueryView) -> Seq<char> {
    if v.conditions.len() > 0 {
        "WHERE "@ + spec_join(v.conditions, " AND "@) + " "@
    } else {
        Seq::empty()
    }
}

pub open spec fn spec_group_clause(v: QueryView) -> Seq<char> {
    if v.group_by.len() > 0 {
        "GROUP BY "@ + spec_join(v.group_by, ", "@) + " "@
    } else {
        Seq::empty()
    }
}

pub open spec fn spec_having_clause(v: QueryView) -> Seq<char> {
    match v.having {
        Some(h) => "HAVING "@ + h + " "@,
        None => Seq::empty(),
    }
}

pub open spec fn spec_order_clause(v: QueryView) -> Seq<char> {
    if v.order_by.len() > 0 {
        "ORDER BY "@ + spec_join(v.order_by, ", "@) + " "@
    } else {
        Seq::empty()
    }
}

pub open spec fn spec_limit_clause(v: QueryView) -> Seq<char> {
    match v.limit {
        Some(n) => "LIMIT "@ + spec_decimal(n as nat) + " "@,
        None => Seq::empty(),
    }
}

pub open spec fn spec_offset_clause(v: QueryView) -> Seq<char> {
    match v.offset {
        Some(n) => "OFFSET "@ + spec_decimal(n as nat) + " "@,
        None => Seq::empty(),
    }
}

/// The serialized statement before the final trim: the clauses in their
/// fixed order, each ending in one space.
pub open spec fn spec_build_untrimmed(v: QueryView) -> Seq<char> {
    spec_verb_clause(v) + spec_from_clause(v) + spec_joins_clause(v.joins) + spec_where_clause(v)
        + spec_group_clause(v) + spec_having_clause(v) + spec_order_clause(v)
        + spec_limit_clause(v) + spec_offset_clause(v)
}

/// The serialized statement: the fixed clause order, trimmed at the end.
pub open spec fn spec_build(v: QueryView) -> Seq<char> {
    spec_trim_end(spec_build_untrimmed(v))
}

/// The builder: records the statement shape and its bound values, is
/// consumed and returned by each fluent call, and renders to SQL text
/// with [`Query::build`].
#[derive(Debug, Clone)]
pub struct Query {
    query_type: QueryType,
    columns: Vec<String>,
    table: Option<String>,
    conditions: Vec<String>,
    params: Vec<Value>,
    joins: Vec<Join>,
    values: Vec<Value>,
    group_by: Vec<String>,
    having: Option<String>,
    order_by: Vec<String>,
    limit: Option<u64>,
    offset: Option<u64>,
}

impl View for Query {
    type V = QueryView;

    closed spec fn view(&self) -> QueryView {
        QueryView {
            query_type: self.query_type,
            columns: self.columns.deep_view(),
            table: self.table.deep_view(),
            conditions: self.conditions.deep_view(),
            params: self.params.deep_view(),
            joins: self.joins.deep_view(),
            values: self.values.deep_view(),
            group_by: self.group_by.deep_view(),
            having: self.having.deep_view(),
            order_by: self.order_by.deep_view(),
            limit: self.limit,
            offset: self.offset,
        }
    }
}

impl Query {
    /// Constructor for SELECT statements.
    pub fn select() -> (r: Query)
        ensures
            r@ == QueryView::initial(QueryType::Select, None),
    {
        let r = Query {
            query_type: QueryType::Select,
            columns: Vec::new(),
            table: None,
            conditions: Vec::new(),
            params: Vec::new(),
            joins: Vec::new(),
            values: Vec::new(),
            group_by: Vec::new(),
            having: None,
            order_by: Vec::new(),
            limit: None,
            offset: None,
        };
        proof {
            assert(r@ =~= QueryView::initial(QueryType::Select, None));
        }
        r
    }

    /// Constructor for INSERT statements, targeting the given table.
    pub fn insert_into(table: &str) -> (r: Query)
        ensures
            r@ == QueryView::initial(QueryType::Insert, Some(table@)),
    {
        let r = Query {
            query_type: QueryType::Insert,
            columns: Vec::new(),
            table: Some(table.to_owned()),
            conditions: Vec::new(),
            params: Vec::new(),
            joins: Vec::new(),
            values: Vec::new(),
            group_by: Vec::new(),
            having: None,
            order_by: Vec::new(),
            limit: None,
            offset: None,
        };
        proof {
            assert(r@ =~= QueryView::initial(QueryType::Insert, Some(table@)));
        }
        r
    }

    /// Constructor for UPDATE statements, targeting the given table.
    pub fn update(table: &str) -> (r: Query)
        ensures
            r@ == QueryView::initial(QueryType::Update, Some(table@)),
    {
        let r = Query {
            query_type: QueryType::Update,
            columns: Vec::new(),
            table: Some(table.to_owned()),
            conditions: Vec::new(),
            params: Vec::new(),
            joins: Vec::new(),
            values: Vec::new(),
            group_by: Vec::new(),
            having: None,
            order_by: Vec::new(),
            limit: None,
            offset: None,
        };
        proof {
            assert(r@ =~= QueryView::initial(QueryType::Update, Some(table@)));
        }
        r
    }

    /// Constructor for DELETE statements, targeting the given table.
    pub fn delete_from(table: &str) -> (r: Query)
        ensures
            r@ == QueryView::initial(QueryType::Delete, Some(table@)),
    {
        let r = Query {
            query_type: QueryType::Delete,
            columns: Vec::new(),
            table: Some(table.to_owned()),
            conditions: Vec::new(),
            params: Vec::new(),
            joins: Vec::new(),
            values: Vec::new(),
            group_by: Vec::new(),
            having: None,
            order_by: Vec::new(),
            limit: None,
            offset: None,
        };
        proof {
            assert(r@ =~= QueryView::initial(QueryType::Delete, Some(table@)));
        }
        r
    }

    /// Replaces the column list: the projection of a Select, the target
    /// columns of an Insert.
    pub fn columns(self, cols: Vec<String>) -> (r: Query)
        ensures
            r@ == self@.with_columns(cols.deep_view()),
    {
        let ghost old_view = self@;
        let ghost cols_view = cols.deep_view();
        let r = Query { columns: cols, ..self };
        proof {
            assert(r@ =~= old_view.with_columns(cols_view));
        }
        r
    }

    /// Sets the table.
    pub fn from(self, table: &str) -> (r: Query)
        ensures
            r@ == self@.with_table(table@),
    {
        let ghost old_view = self@;
        let r = Query { table: Some(table.to_owned()), ..self };
        proof {
            assert(r@ =~= old_view.with_table(table@));
        }
        r
    }

    /// Appends one raw filter fragment; fragments are joined with `AND`
    /// at serialization time.
    pub fn where_clause(self, condition: &str) -> (r: Query)
        ensures
            r@ == self@.with_condition(condition@),
    {
        let ghost old_view = self@;
        let mut r = self;
        r.conditions.push(condition.to_owned());
        proof {
            assert(r@ =~= old_view.with_condition(condition@));
        }
        r
    }

    /// Appends one ad-hoc bind value; at execution time all `params`
    /// follow all `values` in binding order.
    pub fn add_param(self, param: Value) -> (r: Query)
        ensures
            r@ == self@.with_param(param@),
    {
        let ghost old_view = self@;
        let ghost param_view = param@;
        let mut r = self;
        r.params.push(param);
        proof {
            assert(r@ =~= old_view.with_param(param_view));
        }
        r
    }

    /// Appends bind values for an Insert (one placeholder per value) or
    /// an Update (one value per column set), in order.
    pub fn values(self, vals: Vec<Value>) -> (r: Query)
        ensures
            r@ == self@.with_values(vals.deep_view()),
    {
        let ghost old_view = self@;
        let ghost vals_view = vals.deep_view();
        let mut r = self;
        let mut vals = vals;
        r.values.append(&mut vals);
        proof {
            assert(r@ =~= old_view.with_values(vals_view));
        }
        r
    }

    /// Appends column-value pairs for an Update: each pair adds one
    /// column name and one value atomically, so the two lists never
    /// diverge in length.
    pub fn set(self, col_vals: Vec<(String, Value)>) -> (r: Query)
        ensures
            r@ == self@.with_set(col_vals.deep_view()),
    {
        let ghost old_view = self@;
        let ghost pairs = col_vals.deep_view();
        let mut cols: Vec<String> = Vec::new();
        let mut vals: Vec<Value> = Vec::new();
        let mut i: usize = 0;
        while i < col_vals.len()
            invariant
                i <= col_vals.len(),
                pairs == col_vals.deep_view(),
                cols@.len() == i,
                vals@.len() == i,
                forall|j: int| 0 <= j < i ==> #[trigger] cols@[j].deep_view() == pairs[j].0,
                forall|j: int| 0 <= j < i ==> #[trigger] vals@[j].deep_view() == pairs[j].1,
            decreases col_vals.len() - i,
        {
            let col = col_vals[i].0.clone();
            let val = col_vals[i].1.clone();
            proof {
                lemma_vec_deep_view_index(&col_vals);
            }
            cols.push(col);
            vals.push(val);
            i = i + 1;
        }
        let mut r = self;
        r.columns.append(&mut cols);
        r.values.append(&mut vals);
        proof {
            lemma_vec_deep_view_index(&col_vals);
            lemma_vec_deep_view_index(&r.columns);
            lemma_vec_deep_view_index(&r.values);
            assert(r.columns.deep_view() =~= old_view.columns + pairs.map_values(
                |cv: (Seq<char>, ValueView)| cv.0,
            ));
            assert(r.values.deep_view() =~= old_view.values + pairs.map_values(
                |cv: (Seq<char>, ValueView)| cv.1,
            ));
            assert(r@ =~= old_view.with_set(pairs));
        }
        r
    }

    /// Appends one join clause, rendered after the FROM clause in
    /// insertion order.
    pub fn join(self, join_type: JoinType, table: &str, condition: &str) -> (r: Query)
        ensures
            r@ == self@.with_join(join_type, table@, condition@),
    {
        let ghost old_view = self@;
        let mut r = self;
        r.joins.push(
            Join { join_type, table: table.to_owned(), condition: condition.to_owned() },
        );
        proof {
            assert(r@ =~= old_view.with_join(join_type, table@, condition@));
        }
        r
    }

    /// Replaces the GROUP BY column list.
    pub fn group_by(self, cols: Vec<String>) -> (r: Query)
        ensures
            r@ == self@.with_group_by(cols.deep_view()),
    {
        let ghost old_view = self@;
        let ghost cols_view = cols.deep_view();
        let r = Query { group_by: cols, ..self };
        proof {
            assert(r@ =~= old_view.with_group_by(cols_view));
        }
        r
    }

    /// Sets the HAVING condition.
    pub fn having(self, condition: &str) -> (r: Query)
        ensures
            r@ == self@.with_having(condition@),
    {
        let ghost old_view = self@;
        let r = Query { having: Some(condition.to_owned()), ..self };
        proof {
            assert(r@ =~= old_view.with_having(condition@));
        }
        r
    }

    /// Replaces the ORDER BY column list.
    pub fn order_by(self, cols: Vec<String>) -> (r: Query)
        ensures
            r@ == self@.with_order_by(cols.deep_view()),
    {
        let ghost old_view = self@;
        let ghost cols_view = cols.deep_view();
        let r = Query { order_by: cols, ..self };
        proof {
            assert(r@ =~= old_view.with_order_by(cols_view));
        }
        r
    }

    /// Sets the row limit.
    pub fn limit(self, limit: u64) -> (r: Query)
        ensures
            r@ == self@.with_limit(limit),
    {
        let ghost old_view = self@;
        let r = Query { limit: Some(limit), ..self };
        proof {
            assert(r@ =~= old_view.with_limit(limit));
        }
        r
    }

    /// Sets the row offset.
    pub fn offset(self, offset: u64) -> (r: Query)
        ensures
            r@ == self@.with_offset(offset),
    {
        let ghost old_view = self@;
        let r = Query { offset: Some(offset), ..self };
        proof {
            assert(r@ =~= old_view.with_offset(offset));
        }
        r
    }

    /// Whether the statement may be serialized: every kind but Select
    /// must have its table set.  Constructors establish this; no
    /// builder call can undo it.
    pub open spec fn wf(&self) -> bool {
        self@.wf()
    }

    /// Whether serialization may proceed: the construction contract
    /// demands a table for every kind but Select.  The four
    /// constructors already establish this, so it reports `true` for
    /// every statement they can reach; an unverified caller can test it
    /// before [`Query::build`] all the same.
    pub fn is_buildable(&self) -> (r: bool)
        ensures
            r == self.wf(),
    {
        match self.query_type {
            QueryType::Select => true,
            _ => self.table.is_some(),
        }
    }

    /// Renders the verb clause.
    fn render_verb(&self) -> (r: String)
        requires
            self.wf(),
        ensures
            r@ == spec_verb_clause(self@),
    {
        let ghost v = self@;
        match self.query_type {
            QueryType::Select => {
                let mut q = String::from_str("SELECT ");
                if self.columns.len() == 0 {
                    q.append("*");
                } else {
                    let cols = join_strings(&self.columns, ", ");
                    q.append(cols.as_str());
                }
                q.append(" ");
                q
            },
            QueryType::Insert => {
                let mut q = String::from_str("INSERT INTO ");
                q.append(self.table.as_ref().unwrap().as_str());
                q.append(" (");
                let cols = join_strings(&self.columns, ", ");
                q.append(cols.as_str());
                q.append(") VALUES (");
                let ph = placeholders(self.values.len());
                q.append(ph.as_str());
                q.append(") ");
                q
            },
            QueryType::Update => {
                let mut q = String::from_str("UPDATE ");
                q.append(self.table.as_ref().unwrap().as_str());
                q.append(" SET ");
                let mut frags: Vec<String> = Vec::new();
                let mut i: usize = 0;
                while i < self.columns.len()
                    invariant
                        i <= self.columns.len(),
                        v.columns == self.columns.deep_view(),
                        frags@.len() == i,
                        forall|j: int|
                            0 <= j < i ==> #[trigger] frags@[j].deep_view() == spec_set_fragment(
                                v.columns[j],
                            ),
                    decreases self.columns.len() - i,
                {
                    let mut f = self.columns[i].clone();
                    f.append(" = ?");
                    proof {
                        lemma_vec_deep_view_index(&self.columns);
                    }
                    frags.push(f);
                    i = i + 1;
                }
                let set_clause = join_strings(&frags, ", ");
                proof {
                    lemma_vec_deep_view_index(&frags);
                    lemma_vec_deep_view_index(&self.columns);
                    assert(frags.deep_view() =~= spec_set_fragments(v.columns));
                }
                q.append(set_clause.as_str());
                q.append(" ");
                q
            },
            QueryType::Delete => {
                let mut q = String::from_str("DELETE FROM ");
                q.append(self.table.as_ref().unwrap().as_str());
                q.append(" ");
                q
            },
        }
    }

    /// Renders the FROM clause.
    fn render_from(&self) -> (r: String)
        ensures
            r@ == spec_from_clause(self@),
    {
        let mut q = String::new();
        if let Some(table) = &self.table {
            match self.query_type {
                QueryType::Select => {
                    q.append("FROM ");
                    q.append(table.as_str());
                    q.append(" ");
                },
                _ => {},
            }
        }
        proof {
            assert(q@ =~= spec_from_clause(self@));
        }
        q
    }

    /// Renders the join segments, in insertion order.
    fn render_joins(&self) -> (r: String)
        ensures
            r@ == spec_joins_clause(self@.joins),
    {
        let ghost v = self@;
        let mut q = String::new();
        let mut ji: usize = 0;
        proof {
            assert(v.joins.take(0) =~= Seq::<JoinView>::empty());
            assert(q@ =~= spec_joins_clause(v.joins.take(0)));
        }
        while ji < self.joins.len()
            invariant
                ji <= self.joins.len(),
                v.joins == self.joins.deep_view(),
                q@ == spec_joins_clause(v.joins.take(ji as int)),
            decreases self.joins.len() - ji,
        {
            let j = &self.joins[ji];
            let keyword = match j.join_type {
                JoinType::Inner => "INNER JOIN",
                JoinType::Left => "LEFT JOIN",
                JoinType::Right => "RIGHT JOIN",
                JoinType::Full => "FULL JOIN",
            };
            q.append(keyword);
            q.append(" ");
            q.append(j.table.as_str());
            q.append(" ON ");
            q.append(j.condition.as_str());
            q.append(" ");
            proof {
                lemma_vec_deep_view_index(&self.joins);
                assert(v.joins.take(ji + 1).drop_last() =~= v.joins.take(ji as int));
                assert(v.joins.take(ji + 1).last() == v.joins[ji as int]);
                assert(q@ =~= spec_joins_clause(v.joins.take(ji + 1)));
            }
            ji = ji + 1;
        }
        proof {
            assert(v.joins.take(self.joins.len() as int) =~= v.joins);
        }
        q
    }

    /// Renders the WHERE clause.
    fn render_where(&self) -> (r: String)
        ensures
            r@ == spec_where_clause(self@),
    {
        let mut q = String::new();
        if self.conditions.len() > 0 {
            q.append("WHERE ");
            let conds = join_strings(&self.conditions, " AND ");
            q.append(conds.as_str());
            q.append(" ");
        }
        proof {
            assert(q@ =~= spec_where_clause(self@));
        }
        q
    }

    /// Renders the GROUP BY clause.
    fn render_group(&self) -> (r: String)
        ensures
            r@ == spec_group_clause(self@),
    {
        let mut q = String::new();
        if self.group_by.len() > 0 {
            q.append("GROUP BY ");
            let cols = join_strings(&self.group_by, ", ");
            q.append(cols.as_str());
            q.append(" ");
        }
        proof {
            assert(q@ =~= spec_group_clause(self@));
        }
        q
    }

    /// Renders the HAVING clause.
    fn render_having(&self) -> (r: String)
        ensures
            r@ == spec_having_clause(self@),
    {
        let mut q = String::new();
        if let Some(having) = &self.having {
            q.append("HAVING ");
            q.append(having.as_str());
            q.append(" ");
        }
        proof {
            assert(q@ =~= spec_having_clause(self@));
        }
        q
    }

    /// Renders the ORDER BY clause.
    fn render_order(&self) -> (r: String)
        ensures
            r@ == spec_order_clause(self@),
    {
        let mut q = String::new();
        if self.order_by.len() > 0 {
            q.append("ORDER BY ");
            let cols = join_strings(&self.order_by, ", ");
            q.append(cols.as_str());
            q.append(" ");
        }
        proof {
            assert(q@ =~= spec_order_clause(self@));
        }
        q
    }

    /// Renders the LIMIT clause.
    fn render_limit(&self) -> (r: String)
        ensures
            r@ == spec_limit_clause(self@),
    {
        let mut q = String::new();
        if let Some(limit) = self.limit {
            q.append("LIMIT ");
            let n = u64_to_string(limit);
            q.append(n.as_str());
            q.append(" ");
        }
        proof {
            assert(q@ =~= spec_limit_clause(self@));
        }
        q
    }

    /// Renders the OFFSET clause.
    fn render_offset(&self) -> (r: String)
        ensures
            r@ == spec_offset_clause(self@),
    {
        let mut q = String::new();
        if let Some(offset) = self.offset {
            q.append("OFFSET ");
            let n = u64_to_string(offset);
            q.append(n.as_str());
            q.append(" ");
        }
        proof {
            assert(q@ =~= spec_offset_clause(self@));
        }
        q
    }

    /// Renders the statement to its SQL text, placeholders included:
    /// a pure function of the builder state, assembling the clauses in
    /// their fixed order and trimming the end.
    pub fn build(&self) -> (r: String)
        requires
            self.wf(),
        ensures
            r@ == spec_build(self@),
    {
        let mut q = self.render_verb();
        let part = self.render_from();
        q.append(part.as_str());
        let part = self.render_joins();
        q.append(part.as_str());
        let part = self.render_where();
        q.append(part.as_str());
        let part = self.render_group();
        q.append(part.as_str());
        let part = self.render_having();
        q.append(part.as_str());
        let part = self.render_order();
        q.append(part.as_str());
        let part = self.render_limit();
        q.append(part.as_str());
        let part = self.render_offset();
        q.append(part.as_str());
        trim_end_str(q.as_str())
    }

    /// The values a backend must bind to the rendered placeholders, in
    /// binding order: all of `values` first, then all of `params`.
    pub fn bound_values(&self) -> (r: Vec<Value>)
        ensures
            r.deep_view() == self@.bound(),
    {
        let ghost vs = self@.values;
        let ghost ps = self@.params;
        let mut r: Vec<Value> = Vec::new();
        let mut i: usize = 0;
        while i < self.values.len()
            invariant
                i <= self.values.len(),
                vs == self.values.deep_view(),
                r@.len() == i,
                forall|j: int| 0 <= j < i ==> #[trigger] r@[j].deep_view() == vs[j],
            decreases self.values.len() - i,
        {
            let x = self.values[i].clone();
            proof {
                lemma_vec_deep_view_index(&self.values);
            }
            r.push(x);
            i = i + 1;
        }
        let mut i: usize = 0;
        while i < self.params.len()
            invariant
                i <= self.params.len(),
                vs == self.values.deep_view(),
                ps == self.params.deep_view(),
                r@.len() == vs.len() + i,
                forall|j: int| 0 <= j < vs.len() ==> #[trigger] r@[j].deep_view() == vs[j],
                forall|j: int|
                    0 <= j < i ==> #[trigger] r@[vs.len() + j].deep_view() == ps[j],
            decreases self.params.len() - i,
        {
            let x = self.params[i].clone();
            proof {
                lemma_vec_deep_view_index(&self.params);
            }
            r.push(x);
            i = i + 1;
        }
        proof {
            lemma_vec_deep_view_index(&r);
            assert forall|j: int| vs.len() <= j < r@.len() implies r@[j].deep_view() == ps[j
                - vs.len()] by {
                let j2: int = j - vs.len();
                assert(r@[vs.len() + j2].deep_view() == ps[j2]);
            }
            assert(r.deep_view() =~= self@.bound());
        }
        r
    }
}

} // verus!
