use vstd::prelude::*;
use vstd::string::*;
use crate::certify::{appears_on, refs_within, refs_within_either};
use crate::expr::{Expr, Table, Term};
use crate::kind::JoinKind;

verus! {

/// The mathematical model of a data source.
pub enum Shape {
    Table { name: Seq<char>, columns: Seq<Seq<char>> },
    Join { left: Box<Shape>, right: Box<Shape>, kind: JoinKind },
    JoinOn { join: Box<Shape>, on: Term },
}

/// The shape of the join of `left` and `right` under `kind`.
pub open spec fn joined(left: Shape, right: Shape, kind: JoinKind) -> Shape {
    Shape::Join { left: Box::new(left), right: Box::new(right), kind }
}

impl Shape {
    /// The shape with every bind value erased to zero. Two sources that
    /// differ only in bound values share it, so a prepared-statement cache
    /// can key on it.
    pub open spec fn query_id(self) -> Shape
        decreases self,
    {
        match self {
            Shape::Table { .. } => self,
            Shape::Join { left, right, kind } => joined(left.query_id(), right.query_id(), kind),
            Shape::JoinOn { join, on } => Shape::JoinOn {
                join: Box::new(join.query_id()),
                on: on.query_id(),
            },
        }
    }

    /// The SQL text of the from-clause.
    pub open spec fn sql(self) -> Seq<char>
        decreases self,
    {
        match self {
            Shape::Table { name, .. } => name,
            Shape::Join { left, right, kind } => left.sql() + kind.keyword() + " JOIN "@
                + right.sql(),
            Shape::JoinOn { join, on } => join.sql() + " ON "@ + on.sql(),
        }
    }

    /// The bind values of the from-clause, left to right.
    pub open spec fn binds(self) -> Seq<i64>
        decreases self,
    {
        match self {
            Shape::Table { .. } => Seq::empty(),
            Shape::Join { left, right, .. } => left.binds() + right.binds(),
            Shape::JoinOn { join, on } => join.binds() + on.binds(),
        }
    }

    /// Whether the from-clause may share a cached prepared statement.
    pub open spec fn safe(self) -> bool
        decreases self,
    {
        match self {
            Shape::Table { .. } => true,
            Shape::Join { left, right, kind } => left.safe() && kind.safe() && right.safe(),
            Shape::JoinOn { join, on } => join.safe() && on.safe(),
        }
    }

    /// The projection selected when no explicit one is given.
    pub open spec fn default_selection(self) -> Term
        decreases self,
    {
        match self {
            Shape::Table { name, columns } => Term::AllColumns { table: name, columns },
            Shape::Join { left, right, kind } => if kind.nullable_right() {
                Term::Pair(
                    Box::new(left.default_selection()),
                    Box::new(Term::Nullable(Box::new(right.default_selection()))),
                )
            } else {
                Term::Pair(Box::new(left.default_selection()), Box::new(right.default_selection()))
            },
            Shape::JoinOn { join, .. } => join.default_selection(),
        }
    }

    /// The number of nodes of the join tree.
    pub open spec fn size(self) -> nat
        decreases self,
    {
        match self {
            Shape::Table { .. } => 1,
            Shape::Join { left, right, .. } => 1 + left.size() + right.size(),
            Shape::JoinOn { join, .. } => 1 + join.size(),
        }
    }

    /// The columns reachable through the join tree, as (table, column) pairs.
    pub open spec fn columns(self) -> Set<(Seq<char>, Seq<char>)>
        decreases self,
    {
        match self {
            Shape::Table { name, columns } => Set::new(
                |p: (Seq<char>, Seq<char>)| p.0 == name && columns.contains(p.1),
            ),
            Shape::Join { left, right, .. } => left.columns() + right.columns(),
            Shape::JoinOn { join, .. } => join.columns(),
        }
    }

    /// The tables reachable through the join tree, with their columns.
    pub open spec fn tables(self) -> Set<(Seq<char>, Seq<Seq<char>>)>
        decreases self,
    {
        match self {
            Shape::Table { name, columns } => set![(name, columns)],
            Shape::Join { left, right, .. } => left.tables() + right.tables(),
            Shape::JoinOn { join, .. } => join.tables(),
        }
    }
}

/// A composable relation: a base table, a join, or a join with an explicit
/// predicate.
#[derive(Debug)]
pub enum Source {
    Table(Table),
    Join(Join),
    JoinOn(JoinOn),
}

/// The join of two sources under a join kind.
#[derive(Debug)]
pub struct Join {
    left: Box<Source>,
    right: Box<Source>,
    kind: JoinKind,
}

/// A join with an explicit `ON` predicate; the predicate refers only to columns
/// of tables of the join.
#[derive(Debug)]
pub struct JoinOn {
    join: Join,
    on: Expr,
}

/// Two tables that may be joined without an explicit predicate. A schema
/// layer implements it and supplies the predicate to use, which is attached
/// with [`Join::on`].
pub trait JoinTo<T> {
    fn join_on_clause() -> Expr;
}

/// The reason a composition is refused.
#[derive(Clone, Copy, Debug, PartialEq, Eq, Structural)]
pub enum JoinError {
    /// The predicate refers to a table outside the join.
    InvalidJoinPredicate,
}

impl Source {
    pub open spec fn shape(&self) -> Shape
        decreases self,
    {
        match self {
            Source::Table(t) => Shape::Table { name: t.name@, columns: t.column_names() },
            Source::Join(j) => j.shape(),
            Source::JoinOn(j) => j.shape(),
        }
    }

    /// Appends the SQL text of the from-clause.
    pub fn to_sql(&self, out: &mut String)
        ensures
            final(out)@ == old(out)@ + self.shape().sql(),
        decreases self,
    {
        match self {
            Source::Table(t) => out.append(t.name.as_str()),
            Source::Join(j) => j.to_sql(out),
            Source::JoinOn(j) => j.to_sql(out),
        }
    }

    /// Appends the bind values of the from-clause.
    pub fn collect_binds(&self, out: &mut Vec<i64>)
        ensures
            final(out)@ == old(out)@ + self.shape().binds(),
        decreases self,
    {
        match self {
            Source::Table(_) => {
                assert(final(out)@ =~= old(out)@ + self.shape().binds());
            },
            Source::Join(j) => j.collect_binds(out),
            Source::JoinOn(j) => j.collect_binds(out),
        }
    }

    pub fn is_safe_to_cache_prepared(&self) -> (r: bool)
        ensures
            r == self.shape().safe(),
        decreases self,
    {
        match self {
            Source::Table(_) => true,
            Source::Join(j) => j.is_safe_to_cache_prepared(),
            Source::JoinOn(j) => j.is_safe_to_cache_prepared(),
        }
    }

    pub fn default_selection(&self) -> (r: Expr)
        ensures
            r.term() == self.shape().default_selection(),
        decreases self,
    {
        match self {
            Source::Table(t) => t.all_columns(),
            Source::Join(j) => j.default_selection(),
            Source::JoinOn(j) => j.default_selection(),
        }
    }

    /// A copy of the source with every bind value erased to zero.
    pub fn query_id(&self) -> (r: Source)
        ensures
            r.shape() == self.shape().query_id(),
        decreases self,
    {
        match self {
            Source::Table(t) => Source::Table(t.clone()),
            Source::Join(j) => Source::Join(j.query_id()),
            Source::JoinOn(j) => Source::JoinOn(j.query_id()),
        }
    }

    /// Renders the from-clause: its SQL text, its bind values and whether it
    /// may share a cached prepared statement. The result depends on the
    /// structure alone, so two renderings of one structure agree.
    pub fn render(&self) -> (r: (String, Vec<i64>, bool))
        ensures
            r.0@ == self.shape().sql(),
            r.1@ == self.shape().binds(),
            r.2 == self.shape().safe(),
    {
        let mut sql = String::new();
        self.to_sql(&mut sql);
        let mut binds: Vec<i64> = Vec::new();
        self.collect_binds(&mut binds);
        assert(binds@ =~= self.shape().binds());
        assert(sql@ =~= self.shape().sql());
        (sql, binds, self.is_safe_to_cache_prepared())
    }

    /// Whether the join tree reaches a table named `table` with a column
    /// named `name`.
    pub fn has_column(&self, table: &String, name: &String) -> (r: bool)
        ensures
            r == self.shape().columns().contains((table@, name@)),
        decreases self,
    {
        match self {
            Source::Table(t) => t.name.eq(table) && t.has_column(name),
            Source::Join(j) => j.has_column(table, name),
            Source::JoinOn(j) => {
                assert(j.shape().columns() == j.join.shape().columns());
                j.join.has_column(table, name)
            },
        }
    }

    /// Whether the join tree reaches a table with the name and the columns
    /// of `table`.
    pub fn has_table(&self, table: &Table) -> (r: bool)
        ensures
            r == self.shape().tables().contains((table.name@, table.column_names())),
        decreases self,
    {
        match self {
            Source::Table(t) => {
                let found = t.same_as(table);
                assert(self.shape().tables() =~= set![(t.name@, t.column_names())]);
                found
            },
            Source::Join(j) => j.has_table(table),
            Source::JoinOn(j) => {
                assert(j.shape().tables() == j.join.shape().tables());
                j.join.has_table(table)
            },
        }
    }
}

impl Join {
    pub closed spec fn shape(&self) -> Shape
        decreases self,
    {
        Shape::Join {
            left: Box::new(self.left.shape()),
            right: Box::new(self.right.shape()),
            kind: self.kind,
        }
    }

    pub fn new(left: Source, right: Source, kind: JoinKind) -> (r: Join)
        ensures
            r.shape() == joined(left.shape(), right.shape(), kind),
    {
        Join { left: Box::new(left), right: Box::new(right), kind }
    }

    pub fn left(&self) -> (r: &Source)
        ensures
            self.shape() is Join,
            r.shape() == *self.shape()->left,
    {
        &self.left
    }

    pub fn right(&self) -> (r: &Source)
        ensures
            self.shape() is Join,
            r.shape() == *self.shape()->right,
    {
        &self.right
    }

    pub fn kind(&self) -> (r: JoinKind)
        ensures
            self.shape() is Join,
            r == self.shape()->kind,
    {
        self.kind
    }

    /// Attaches a predicate; refused unless every column it refers to is
    /// reachable through this join.
    pub fn on(self, on: Expr) -> (r: Result<JoinOn, JoinError>)
        ensures
            r is Ok <==> appears_on(on.term(), self.shape()),
            r is Ok ==> r->Ok_0.shape() == (Shape::JoinOn {
                join: Box::new(self.shape()),
                on: on.term(),
            }),
            r is Err ==> r->Err_0 == JoinError::InvalidJoinPredicate,
    {
        if refs_within_either(&on, &self.left, &self.right) {
            Ok(JoinOn { join: self, on })
        } else {
            Err(JoinError::InvalidJoinPredicate)
        }
    }

    /// Whether either side reaches a table named `table` with a column named
    /// `name`.
    pub fn has_column(&self, table: &String, name: &String) -> (r: bool)
        ensures
            r == self.shape().columns().contains((table@, name@)),
        decreases self,
    {
        self.left.has_column(table, name) || self.right.has_column(table, name)
    }

    /// Whether either side reaches a table with the name and the columns of
    /// `table`.
    pub fn has_table(&self, table: &Table) -> (r: bool)
        ensures
            r == self.shape().tables().contains((table.name@, table.column_names())),
        decreases self,
    {
        self.left.has_table(table) || self.right.has_table(table)
    }

    /// A copy of the join with every bind value erased to zero.
    pub fn query_id(&self) -> (r: Join)
        ensures
            r.shape() == self.shape().query_id(),
        decreases self,
    {
        Join { left: Box::new(self.left.query_id()), right: Box::new(self.right.query_id()), kind: self.kind }
    }

    /// Appends `left KIND JOIN right`.
    pub fn to_sql(&self, out: &mut String)
        ensures
            final(out)@ == old(out)@ + self.shape().sql(),
        decreases self,
    {
        self.left.to_sql(out);
        self.kind.to_sql(out);
        out.append(" JOIN ");
        self.right.to_sql(out);
        assert(final(out)@ =~= old(out)@ + self.shape().sql());
    }

    /// Appends the left side's binds, then the right side's.
    pub fn collect_binds(&self, out: &mut Vec<i64>)
        ensures
            final(out)@ == old(out)@ + self.shape().binds(),
        decreases self,
    {
        self.left.collect_binds(out);
        self.kind.collect_binds(out);
        self.right.collect_binds(out);
        assert(final(out)@ =~= old(out)@ + self.shape().binds());
    }

    pub fn is_safe_to_cache_prepared(&self) -> (r: bool)
        ensures
            r == self.shape().safe(),
        decreases self,
    {
        self.left.is_safe_to_cache_prepared() && self.kind.is_safe_to_cache_prepared()
            && self.right.is_safe_to_cache_prepared()
    }

    /// Both sides' default projections; the right one wrapped as nullable
    /// under a left outer join.
    pub fn default_selection(&self) -> (r: Expr)
        ensures
            r.term() == self.shape().default_selection(),
        decreases self,
    {
        let left = self.left.default_selection();
        let right = self.right.default_selection();
        match self.kind {
            JoinKind::Inner => Expr::Pair(Box::new(left), Box::new(right)),
            JoinKind::LeftOuter => Expr::Pair(Box::new(left), Box::new(right.nullable())),
        }
    }
}

impl JoinOn {
    pub closed spec fn shape(&self) -> Shape
        decreases self,
    {
        Shape::JoinOn { join: Box::new(self.join.shape()), on: self.on.term() }
    }

    /// The predicate refers only to columns reachable through the join.
    #[verifier::type_invariant]
    spec fn certified(self) -> bool {
        appears_on(self.on.term(), self.join.shape())
    }

    pub fn join(&self) -> (r: &Join)
        ensures
            self.shape() is JoinOn,
            r.shape() == *self.shape()->join,
    {
        &self.join
    }

    /// The predicate; it refers only to columns reachable through the join.
    pub fn predicate(&self) -> (r: &Expr)
        ensures
            self.shape() is JoinOn,
            r.term() == self.shape()->on,
            appears_on(r.term(), *self.shape()->join),
    {
        proof {
            use_type_invariant(self);
        }
        &self.on
    }

    /// A copy of the join and its predicate with every bind value erased to
    /// zero.
    pub fn query_id(&self) -> (r: JoinOn)
        ensures
            r.shape() == self.shape().query_id(),
        decreases self,
    {
        proof {
            use_type_invariant(self);
            lemma_query_id_reaches(self.join.shape());
            lemma_query_id_refs(self.on.term(), self.join.shape().columns(), self.join.shape().tables());
        }
        JoinOn { join: self.join.query_id(), on: self.on.query_id() }
    }

    /// Appends `join ON predicate`.
    pub fn to_sql(&self, out: &mut String)
        ensures
            final(out)@ == old(out)@ + self.shape().sql(),
        decreases self,
    {
        self.join.to_sql(out);
        out.append(" ON ");
        self.on.to_sql(out);
        assert(final(out)@ =~= old(out)@ + self.shape().sql());
    }

    /// Appends the join's binds, then the predicate's.
    pub fn collect_binds(&self, out: &mut Vec<i64>)
        ensures
            final(out)@ == old(out)@ + self.shape().binds(),
        decreases self,
    {
        self.join.collect_binds(out);
        self.on.collect_binds(out);
        assert(final(out)@ =~= old(out)@ + self.shape().binds());
    }

    pub fn is_safe_to_cache_prepared(&self) -> (r: bool)
        ensures
            r == self.shape().safe(),
        decreases self,
    {
        self.join.is_safe_to_cache_prepared() && self.on.is_safe_to_cache_prepared()
    }

    /// The wrapped join's default projection, unchanged.
    pub fn default_selection(&self) -> (r: Expr)
        ensures
            r.term() == self.shape().default_selection(),
        decreases self,
    {
        self.join.default_selection()
    }
}

/// Erasing bind values keeps the reachable columns and tables.
proof fn lemma_query_id_reaches(s: Shape)
    ensures
        s.query_id().columns() == s.columns(),
        s.query_id().tables() == s.tables(),
    decreases s,
{
    match s {
        Shape::Join { left, right, .. } => {
            lemma_query_id_reaches(*left);
            lemma_query_id_reaches(*right);
        },
        Shape::JoinOn { join, .. } => lemma_query_id_reaches(*join),
        _ => {},
    }
}

/// Erasing bind values keeps the columns and tables an expression refers to.
proof fn lemma_query_id_refs(
    t: Term,
    columns: Set<(Seq<char>, Seq<char>)>,
    tables: Set<(Seq<char>, Seq<Seq<char>>)>,
)
    ensures
        refs_within(t.query_id(), columns, tables) == refs_within(t, columns, tables),
    decreases t,
{
    match t {
        Term::Eq(a, b) | Term::And(a, b) | Term::Pair(a, b) => {
            lemma_query_id_refs(*a, columns, tables);
            lemma_query_id_refs(*b, columns, tables);
        },
        Term::Nullable(a) => lemma_query_id_refs(*a, columns, tables),
        _ => {},
    }
}

} // verus!
