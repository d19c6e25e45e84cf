use vstd::prelude::*;
use crate::expr::{Expr, Term};
use crate::kind::JoinKind;
use crate::source::{joined, Shape, Source};

verus! {

/// Every column that the expression refers to is among `columns`, as a
/// (table, column) pair, and every whole table it refers to is among
/// `tables`, with exactly those columns.
pub open spec fn refs_within(
    t: Term,
    columns: Set<(Seq<char>, Seq<char>)>,
    tables: Set<(Seq<char>, Seq<Seq<char>>)>,
) -> bool
    decreases t,
{
    match t {
        Term::Column { table, name } => columns.contains((table, name)),
        Term::AllColumns { table, columns: cs } => tables.contains((table, cs)),
        Term::Bind(_) => true,
        Term::Literal(_) => true,
        Term::Eq(a, b) => refs_within(*a, columns, tables) && refs_within(*b, columns, tables),
        Term::And(a, b) => refs_within(*a, columns, tables) && refs_within(*b, columns, tables),
        Term::Nullable(a) => refs_within(*a, columns, tables),
        Term::Pair(a, b) => refs_within(*a, columns, tables) && refs_within(*b, columns, tables),
    }
}

/// The expression may appear against the source: every column it refers to
/// is a column of a table reachable through the source's join tree.
pub open spec fn appears_on(t: Term, s: Shape) -> bool {
    refs_within(t, s.columns(), s.tables())
}

/// The expression may be projected from the source. A column may be selected
/// from the table that has it, from either side of an inner join, and from the left
/// side of a left outer join. A nullable-wrapped expression may be selected
/// from a left outer join when the bare one may be selected from the inner
/// join of the same sides and it appears on the outer join. A predicate does
/// not change what may be selected.
///
/// Under this rule a left outer join whose left side is itself a left outer
/// join refuses its own default projection: the inner join's nullable right
/// columns would need their bare columns to be selectable from the left side,
/// and they are not.
pub open spec fn selectable(t: Term, s: Shape) -> bool
    decreases t, s,
{
    match s {
        Shape::JoinOn { join, .. } => selectable(t, *join),
        _ => match t {
            Term::Bind(_) => true,
            Term::Literal(_) => true,
            Term::Eq(a, b) => selectable(*a, s) && selectable(*b, s),
            Term::And(a, b) => selectable(*a, s) && selectable(*b, s),
            Term::Pair(a, b) => selectable(*a, s) && selectable(*b, s),
            _ => match s {
                Shape::Table { name, columns } => match t {
                    Term::Column { table, name: c } => table == name && columns.contains(c),
                    Term::AllColumns { table, columns: cs } => table == name && cs == columns,
                    Term::Nullable(a) => selectable(*a, s),
                    _ => false,
                },
                Shape::Join { left, right, kind: JoinKind::Inner } => selectable(t, *left)
                    || selectable(t, *right),
                Shape::Join { left, right, kind: JoinKind::LeftOuter } => match t {
                    Term::Nullable(a) => selectable(*a, joined(*left, *right, JoinKind::Inner))
                        && appears_on(t, s),
                    _ => selectable(t, *left),
                },
                _ => false,
            },
        },
    }
}

/// Whether every column that `e` refers to is reachable through `l` or `r`.
pub(crate) fn refs_within_either(e: &Expr, l: &Source, r: &Source) -> (res: bool)
    ensures
        res == refs_within(
            e.term(),
            l.shape().columns() + r.shape().columns(),
            l.shape().tables() + r.shape().tables(),
        ),
    decreases e,
{
    match e {
        Expr::Column { table, name } => l.has_column(table, name) || r.has_column(table, name),
        Expr::AllColumns(t) => l.has_table(t) || r.has_table(t),
        Expr::Bind(_) | Expr::SqlLiteral(_) => true,
        Expr::Eq(a, b) | Expr::And(a, b) | Expr::Pair(a, b) => {
            refs_within_either(a, l, r) && refs_within_either(b, l, r)
        },
        Expr::Nullable(a) => refs_within_either(a, l, r),
    }
}

/// Whether `e` may appear against `s`.
pub fn appears_on_table(e: &Expr, s: &Source) -> (r: bool)
    ensures
        r == appears_on(e.term(), s.shape()),
{
    assert(s.shape().columns() + s.shape().columns() =~= s.shape().columns());
    assert(s.shape().tables() + s.shape().tables() =~= s.shape().tables());
    refs_within_either(e, s, s)
}

/// Whether `e` may be projected from `s`.
pub fn is_selectable(e: &Expr, s: &Source) -> (r: bool)
    ensures
        r == selectable(e.term(), s.shape()),
    decreases e, s.shape().size(), 1nat,
{
    match s {
        Source::Join(j) => selectable_in_join(e, j.left(), j.right(), j.kind()),
        Source::JoinOn(jo) => {
            let j = jo.join();
            selectable_in_join(e, j.left(), j.right(), j.kind())
        },
        Source::Table(tab) => match e {
            Expr::Bind(_) | Expr::SqlLiteral(_) => true,
            Expr::Eq(a, b) | Expr::And(a, b) | Expr::Pair(a, b) => {
                is_selectable(a, s) && is_selectable(b, s)
            },
            Expr::Column { table, name } => table.eq(&tab.name) && tab.has_column(name),
            Expr::AllColumns(t) => t.same_as(tab),
            Expr::Nullable(a) => is_selectable(a, s),
        },
    }
}

/// Whether `e` may be projected from the join of `l` and `r` under `kind`.
fn selectable_in_join(e: &Expr, l: &Source, r: &Source, kind: JoinKind) -> (res: bool)
    ensures
        res == selectable(e.term(), joined(l.shape(), r.shape(), kind)),
    decreases e, joined(l.shape(), r.shape(), kind).size(), 0nat,
{
    match e {
        Expr::Bind(_) | Expr::SqlLiteral(_) => true,
        Expr::Eq(a, b) | Expr::And(a, b) | Expr::Pair(a, b) => {
            selectable_in_join(a, l, r, kind) && selectable_in_join(b, l, r, kind)
        },
        Expr::Nullable(a) => match kind {
            JoinKind::Inner => is_selectable(e, l) || is_selectable(e, r),
            JoinKind::LeftOuter => {
                selectable_in_join(a, l, r, JoinKind::Inner) && refs_within_either(e, l, r)
            },
        },
        _ => match kind {
            JoinKind::Inner => is_selectable(e, l) || is_selectable(e, r),
            JoinKind::LeftOuter => is_selectable(e, l),
        },
    }
}

} // verus!
