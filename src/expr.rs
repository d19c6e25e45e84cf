use vstd::prelude::*;
use vstd::string::*;

verus! {

/// A base table: its name, as it appears in a from-clause, and its columns.
#[derive(Debug)]
pub struct Table {
    pub name: String,
    pub columns: Vec<String>,
}

/// The text of each string, in order.
pub open spec fn texts(v: Seq<String>) -> Seq<Seq<char>> {
    v.map_values(|c: String| c@)
}

impl Table {
    pub open spec fn column_names(&self) -> Seq<Seq<char>> {
        texts(self.columns@)
    }

    pub fn new(name: String, columns: Vec<String>) -> (r: Table)
        ensures
            r.name@ == name@,
            r.column_names() == texts(columns@),
    {
        Table { name, columns }
    }

    /// Whether the table has a column of this name.
    pub fn has_column(&self, name: &String) -> (r: bool)
        ensures
            r == self.column_names().contains(name@),
    {
        let mut i: usize = 0;
        while i < self.columns.len()
            invariant
                i <= self.columns.len(),
                forall|j: int| 0 <= j < i ==> self.column_names()[j] != name@,
            decreases self.columns.len() - i,
        {
            if self.columns[i].eq(name) {
                assert(self.column_names()[i as int] == name@);
                return true;
            }
            i += 1;
        }
        false
    }

    /// Whether both tables have the same name and the same columns, in order.
    pub fn same_as(&self, other: &Table) -> (r: bool)
        ensures
            r == (self.name@ == other.name@ && self.column_names() == other.column_names()),
    {
        if !self.name.eq(&other.name) {
            return false;
        }
        if self.columns.len() != other.columns.len() {
            assert(self.column_names().len() != other.column_names().len());
            return false;
        }
        let mut i: usize = 0;
        while i < self.columns.len()
            invariant
                i <= self.columns.len(),
                self.columns.len() == other.columns.len(),
                forall|j: int| 0 <= j < i ==> self.column_names()[j] == other.column_names()[j],
            decreases self.columns.len() - i,
        {
            if !self.columns[i].eq(&other.columns[i]) {
                assert(self.column_names()[i as int] != other.column_names()[i as int]);
                return false;
            }
            i += 1;
        }
        assert(self.column_names() =~= other.column_names());
        true
    }

    /// All columns of the table, the table's default projection.
    pub fn all_columns(&self) -> (r: Expr)
        ensures
            r.term() == (Term::AllColumns { table: self.name@, columns: self.column_names() }),
    {
        Expr::AllColumns(self.clone())
    }
}

impl Clone for Table {
    fn clone(&self) -> (r: Table)
        ensures
            r.name@ == self.name@,
            r.column_names() == self.column_names(),
    {
        let mut columns: Vec<String> = Vec::new();
        let mut i: usize = 0;
        while i < self.columns.len()
            invariant
                i <= self.columns.len(),
                columns@.len() == i,
                forall|j: int| 0 <= j < i ==> #[trigger] columns@[j]@ == self.columns@[j]@,
            decreases self.columns.len() - i,
        {
            columns.push(self.columns[i].clone());
            i += 1;
        }
        assert(texts(columns@) =~= self.column_names());
        Table { name: self.name.clone(), columns }
    }
}

/// The mathematical model of an expression.
pub enum Term {
    Column { table: Seq<char>, name: Seq<char> },
    AllColumns { table: Seq<char>, columns: Seq<Seq<char>> },
    Bind(i64),
    Literal(Seq<char>),
    Eq(Box<Term>, Box<Term>),
    And(Box<Term>, Box<Term>),
    Nullable(Box<Term>),
    Pair(Box<Term>, Box<Term>),
}

/// `t.c1, t.c2, ...` for the given columns of table `t`.
pub open spec fn columns_sql(table: Seq<char>, columns: Seq<Seq<char>>) -> Seq<char>
    decreases columns.len(),
{
    if columns.len() == 0 {
        Seq::empty()
    } else if columns.len() == 1 {
        table + "."@ + columns[0]
    } else {
        columns_sql(table, columns.drop_last()) + ", "@ + table + "."@ + columns.last()
    }
}

impl Term {
    /// The expression with every bind value erased to zero: what identifies
    /// the expression for a prepared-statement cache.
    pub open spec fn query_id(self) -> Term
        decreases self,
    {
        match self {
            Term::Bind(_) => Term::Bind(0),
            Term::Eq(a, b) => Term::Eq(Box::new(a.query_id()), Box::new(b.query_id())),
            Term::And(a, b) => Term::And(Box::new(a.query_id()), Box::new(b.query_id())),
            Term::Nullable(a) => Term::Nullable(Box::new(a.query_id())),
            Term::Pair(a, b) => Term::Pair(Box::new(a.query_id()), Box::new(b.query_id())),
            _ => self,
        }
    }

    /// The SQL text of the expression.
    pub open spec fn sql(self) -> Seq<char>
        decreases self,
    {
        match self {
            Term::Column { table, name } => table + "."@ + name,
            Term::AllColumns { table, columns } => columns_sql(table, columns),
            Term::Bind(_) => "?"@,
            Term::Literal(text) => text,
            Term::Eq(a, b) => a.sql() + " = "@ + b.sql(),
            Term::And(a, b) => a.sql() + " AND "@ + b.sql(),
            Term::Nullable(a) => a.sql(),
            Term::Pair(a, b) => a.sql() + ", "@ + b.sql(),
        }
    }

    /// The bind values of the expression, left to right.
    pub open spec fn binds(self) -> Seq<i64>
        decreases self,
    {
        match self {
            Term::Bind(v) => seq![v],
            Term::Eq(a, b) => a.binds() + b.binds(),
            Term::And(a, b) => a.binds() + b.binds(),
            Term::Nullable(a) => a.binds(),
            Term::Pair(a, b) => a.binds() + b.binds(),
            _ => Seq::empty(),
        }
    }

    /// Whether the text is the same for every call: false once literal SQL
    /// text is embedded anywhere.
    pub open spec fn safe(self) -> bool
        decreases self,
    {
        match self {
            Term::Literal(_) => false,
            Term::Eq(a, b) => a.safe() && b.safe(),
            Term::And(a, b) => a.safe() && b.safe(),
            Term::Nullable(a) => a.safe(),
            Term::Pair(a, b) => a.safe() && b.safe(),
            _ => true,
        }
    }
}

/// An expression usable as a projection or as a predicate.
#[derive(Debug)]
pub enum Expr {
    Column { table: String, name: String },
    AllColumns(Table),
    Bind(i64),
    SqlLiteral(String),
    Eq(Box<Expr>, Box<Expr>),
    And(Box<Expr>, Box<Expr>),
    Nullable(Box<Expr>),
    Pair(Box<Expr>, Box<Expr>),
}

impl Expr {
    pub open spec fn term(&self) -> Term
        decreases self,
    {
        match self {
            Expr::Column { table, name } => Term::Column { table: table@, name: name@ },
            Expr::AllColumns(t) => Term::AllColumns { table: t.name@, columns: t.column_names() },
            Expr::Bind(v) => Term::Bind(*v),
            Expr::SqlLiteral(s) => Term::Literal(s@),
            Expr::Eq(a, b) => Term::Eq(Box::new(a.term()), Box::new(b.term())),
            Expr::And(a, b) => Term::And(Box::new(a.term()), Box::new(b.term())),
            Expr::Nullable(a) => Term::Nullable(Box::new(a.term())),
            Expr::Pair(a, b) => Term::Pair(Box::new(a.term()), Box::new(b.term())),
        }
    }

    pub fn to_sql(&self, out: &mut String)
        ensures
            final(out)@ == old(out)@ + self.term().sql(),
        decreases self,
    {
        match self {
            Expr::Column { table, name } => {
                out.append(table.as_str());
                out.append(".");
                out.append(name.as_str());
                assert(final(out)@ =~= old(out)@ + self.term().sql());
            },
            Expr::AllColumns(t) => columns_to_sql(&t.name, &t.columns, out),
            Expr::Bind(_) => out.append("?"),
            Expr::SqlLiteral(s) => out.append(s.as_str()),
            Expr::Eq(a, b) => {
                a.to_sql(out);
                out.append(" = ");
                b.to_sql(out);
                assert(final(out)@ =~= old(out)@ + self.term().sql());
            },
            Expr::And(a, b) => {
                a.to_sql(out);
                out.append(" AND ");
                b.to_sql(out);
                assert(final(out)@ =~= old(out)@ + self.term().sql());
            },
            Expr::Nullable(a) => a.to_sql(out),
            Expr::Pair(a, b) => {
                a.to_sql(out);
                out.append(", ");
                b.to_sql(out);
                assert(final(out)@ =~= old(out)@ + self.term().sql());
            },
        }
    }

    pub fn collect_binds(&self, out: &mut Vec<i64>)
        ensures
            final(out)@ == old(out)@ + self.term().binds(),
        decreases self,
    {
        match self {
            Expr::Bind(v) => {
                out.push(*v);
                assert(final(out)@ =~= old(out)@ + self.term().binds());
            },
            Expr::Eq(a, b) | Expr::And(a, b) | Expr::Pair(a, b) => {
                a.collect_binds(out);
                b.collect_binds(out);
                assert(final(out)@ =~= old(out)@ + self.term().binds());
            },
            Expr::Nullable(a) => a.collect_binds(out),
            _ => {
                assert(final(out)@ =~= old(out)@ + self.term().binds());
            },
        }
    }

    pub fn is_safe_to_cache_prepared(&self) -> (r: bool)
        ensures
            r == self.term().safe(),
        decreases self,
    {
        match self {
            Expr::SqlLiteral(_) => false,
            Expr::Eq(a, b) | Expr::And(a, b) | Expr::Pair(a, b) => {
                a.is_safe_to_cache_prepared() && b.is_safe_to_cache_prepared()
            },
            Expr::Nullable(a) => a.is_safe_to_cache_prepared(),
            _ => true,
        }
    }

    /// A copy of the expression with every bind value erased to zero.
    pub fn query_id(&self) -> (r: Expr)
        ensures
            r.term() == self.term().query_id(),
        decreases self,
    {
        match self {
            Expr::Column { table, name } => Expr::Column { table: table.clone(), name: name.clone() },
            Expr::AllColumns(t) => Expr::AllColumns(t.clone()),
            Expr::Bind(_) => Expr::Bind(0),
            Expr::SqlLiteral(text) => Expr::SqlLiteral(text.clone()),
            Expr::Eq(a, b) => Expr::Eq(Box::new(a.query_id()), Box::new(b.query_id())),
            Expr::And(a, b) => Expr::And(Box::new(a.query_id()), Box::new(b.query_id())),
            Expr::Nullable(a) => Expr::Nullable(Box::new(a.query_id())),
            Expr::Pair(a, b) => Expr::Pair(Box::new(a.query_id()), Box::new(b.query_id())),
        }
    }

    /// Wraps the expression as possibly absent.
    pub fn nullable(self) -> (r: Expr)
        ensures
            r.term() == Term::Nullable(Box::new(self.term())),
    {
        Expr::Nullable(Box::new(self))
    }
}

fn columns_to_sql(table: &String, columns: &Vec<String>, out: &mut String)
    ensures
        final(out)@ == old(out)@ + columns_sql(table@, texts(columns@)),
{
    let ghost names = texts(columns@);
    let mut i: usize = 0;
    while i < columns.len()
        invariant
            i <= columns.len(),
            names == texts(columns@),
            out@ == old(out)@ + columns_sql(table@, names.subrange(0, i as int)),
        decreases columns.len() - i,
    {
        let ghost before = out@;
        if i > 0 {
            out.append(", ");
        }
        out.append(table.as_str());
        out.append(".");
        out.append(columns[i].as_str());
        proof {
            let prefix = names.subrange(0, i + 1);
            assert(prefix.drop_last() =~= names.subrange(0, i as int));
            assert(prefix.last() == columns@[i as int]@);
            if i == 0 {
                assert(names.subrange(0, 0) =~= Seq::<Seq<char>>::empty());
            }
            assert(out@ =~= old(out)@ + columns_sql(table@, prefix));
        }
        i += 1;
    }
    assert(names.subrange(0, columns.len() as int) =~= names);
}

} // verus!
