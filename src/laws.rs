use vstd::prelude::*;
use crate::certify::{appears_on, refs_within, selectable};
use crate::expr::Term;
use crate::kind::JoinKind;
use crate::source::{joined, Shape};

verus! {

/// A join renders as the left from-clause, the kind's keyword, ` JOIN ` and
/// the right from-clause; its binds are the left side's followed by the
/// right side's.
pub proof fn lemma_join_renders(left: Shape, right: Shape, kind: JoinKind)
    ensures
        joined(left, right, kind).sql() == left.sql() + kind.keyword() + " JOIN "@ + right.sql(),
        kind is Inner ==> joined(left, right, kind).sql() == left.sql() + " INNER"@ + " JOIN "@
            + right.sql(),
        kind is LeftOuter ==> joined(left, right, kind).sql() == left.sql() + " LEFT OUTER"@
            + " JOIN "@ + right.sql(),
        joined(left, right, kind).binds() == left.binds() + right.binds(),
{
}

/// A join with a predicate renders as the join, ` ON ` and the predicate; its
/// binds are the join's followed by the predicate's.
pub proof fn lemma_join_on_renders(join: Shape, on: Term)
    ensures
        (Shape::JoinOn { join: Box::new(join), on }).sql() == join.sql() + " ON "@ + on.sql(),
        (Shape::JoinOn { join: Box::new(join), on }).binds() == join.binds() + on.binds(),
{
}

/// An inner join selects both sides' default projections; a left outer join
/// wraps the right one as nullable; a predicate leaves the projection as it
/// was.
pub proof fn lemma_default_selection(left: Shape, right: Shape, on: Term)
    ensures
        joined(left, right, JoinKind::Inner).default_selection() == Term::Pair(
            Box::new(left.default_selection()),
            Box::new(right.default_selection()),
        ),
        joined(left, right, JoinKind::LeftOuter).default_selection() == Term::Pair(
            Box::new(left.default_selection()),
            Box::new(Term::Nullable(Box::new(right.default_selection()))),
        ),
        (Shape::JoinOn { join: Box::new(joined(left, right, JoinKind::Inner)), on }).default_selection()
            == joined(left, right, JoinKind::Inner).default_selection(),
        (Shape::JoinOn { join: Box::new(joined(left, right, JoinKind::LeftOuter)), on }).default_selection()
            == joined(left, right, JoinKind::LeftOuter).default_selection(),
{
}

/// Cache safety is the conjunction over the parts, and the join kinds are
/// always safe.
pub proof fn lemma_cache_safety(left: Shape, right: Shape, kind: JoinKind, join: Shape, on: Term)
    ensures
        joined(left, right, kind).safe() == (left.safe() && kind.safe() && right.safe()),
        (Shape::JoinOn { join: Box::new(join), on }).safe() == (join.safe() && on.safe()),
        JoinKind::Inner.safe(),
        JoinKind::LeftOuter.safe(),
{
}

/// A nullable expression may be selected from a left outer join, with or
/// without a predicate, exactly when the bare expression may be selected
/// from the inner join of the same sides and the nullable one appears on the
/// composite.
pub proof fn lemma_nullable_under_left_outer(t: Term, left: Shape, right: Shape, on: Term)
    ensures
        selectable(Term::Nullable(Box::new(t)), joined(left, right, JoinKind::LeftOuter)) == (
        selectable(t, joined(left, right, JoinKind::Inner)) && appears_on(
            Term::Nullable(Box::new(t)),
            joined(left, right, JoinKind::LeftOuter),
        )),
        selectable(
            Term::Nullable(Box::new(t)),
            Shape::JoinOn { join: Box::new(joined(left, right, JoinKind::LeftOuter)), on },
        ) == (selectable(t, joined(left, right, JoinKind::Inner)) && appears_on(
            Term::Nullable(Box::new(t)),
            Shape::JoinOn { join: Box::new(joined(left, right, JoinKind::LeftOuter)), on },
        )),
{
    let outer = joined(left, right, JoinKind::LeftOuter);
    let with_on = Shape::JoinOn { join: Box::new(outer), on };
    assert(with_on.tables() == outer.tables());
    assert(with_on.columns() == outer.columns());
    assert(selectable(Term::Nullable(Box::new(t)), with_on) == selectable(
        Term::Nullable(Box::new(t)),
        outer,
    ));
}

/// The default projection of a join of two tables may be selected from the
/// join, with or without a predicate.
pub proof fn lemma_default_selection_selectable(
    left: Shape,
    right: Shape,
    kind: JoinKind,
    on: Term,
)
    requires
        left is Table,
        right is Table,
    ensures
        selectable(joined(left, right, kind).default_selection(), joined(left, right, kind)),
        selectable(
            joined(left, right, kind).default_selection(),
            Shape::JoinOn { join: Box::new(joined(left, right, kind)), on },
        ),
{
    let j = joined(left, right, kind);
    let l = left.default_selection();
    let r = right.default_selection();
    assert(selectable(l, left));
    assert(selectable(r, right));
    lemma_selectable_in_inner(l, left, right);
    lemma_selectable_in_inner(r, left, right);
    assert(selectable(l, j));
    if kind is LeftOuter {
        lemma_nullable_right_selectable(left, right, on);
    }
    assert(selectable(j.default_selection(), j));
}

/// Whatever may be selected from the right side, wrapped as nullable, may be
/// selected from a left outer join of it, with or without a predicate; so the
/// nullable right part of a left outer join's default projection may be
/// selected whenever the right side's own default projection may.
///
/// The left part is another matter: a nullable column that the left side
/// owes to a left outer join of its own is not selectable from the outer
/// join, since its bare column is not selectable from the left side.
pub proof fn lemma_nullable_right_selectable(left: Shape, right: Shape, on: Term)
    ensures
        forall|t: Term|
            #![trigger selectable(t, right)]
            selectable(t, right) ==> selectable(
                Term::Nullable(Box::new(t)),
                joined(left, right, JoinKind::LeftOuter),
            ) && selectable(
                Term::Nullable(Box::new(t)),
                Shape::JoinOn { join: Box::new(joined(left, right, JoinKind::LeftOuter)), on },
            ),
{
    let outer = joined(left, right, JoinKind::LeftOuter);
    assert forall|t: Term| #![trigger selectable(t, right)] selectable(t, right) implies selectable(
        Term::Nullable(Box::new(t)),
        outer,
    ) && selectable(Term::Nullable(Box::new(t)), Shape::JoinOn { join: Box::new(outer), on }) by {
        lemma_selectable_in_inner(t, left, right);
        lemma_selectable_appears(t, right);
        lemma_refs_monotone(
            t,
            right.columns(),
            right.tables(),
            outer.columns(),
            outer.tables(),
        );
        assert(appears_on(Term::Nullable(Box::new(t)), outer));
        assert(selectable(Term::Nullable(Box::new(t)), outer));
        assert(selectable(Term::Nullable(Box::new(t)), Shape::JoinOn { join: Box::new(outer), on }));
    }
}

/// The default projection of an inner join may be selected from it, with or
/// without a predicate, when each side's own default projection may be
/// selected from that side.
pub proof fn lemma_inner_default_selection_selectable(left: Shape, right: Shape, on: Term)
    requires
        selectable(left.default_selection(), left),
        selectable(right.default_selection(), right),
    ensures
        selectable(
            joined(left, right, JoinKind::Inner).default_selection(),
            joined(left, right, JoinKind::Inner),
        ),
        selectable(
            joined(left, right, JoinKind::Inner).default_selection(),
            Shape::JoinOn { join: Box::new(joined(left, right, JoinKind::Inner)), on },
        ),
{
    let j = joined(left, right, JoinKind::Inner);
    lemma_selectable_in_inner(left.default_selection(), left, right);
    lemma_selectable_in_inner(right.default_selection(), left, right);
    assert(selectable(j.default_selection(), j));
}

/// Erasing bind values keeps the SQL text and cache safety, and erasing twice
/// changes nothing more: sources that differ only in bound values share a
/// query id, and sources that share one render the same text.
pub proof fn lemma_query_id(s: Shape)
    ensures
        s.query_id().sql() == s.sql(),
        s.query_id().safe() == s.safe(),
        s.query_id().query_id() == s.query_id(),
    decreases s,
{
    match s {
        Shape::Join { left, right, .. } => {
            lemma_query_id(*left);
            lemma_query_id(*right);
        },
        Shape::JoinOn { join, on } => {
            lemma_query_id(*join);
            lemma_term_query_id(on);
        },
        _ => {},
    }
}

proof fn lemma_term_query_id(t: Term)
    ensures
        t.query_id().sql() == t.sql(),
        t.query_id().safe() == t.safe(),
        t.query_id().query_id() == t.query_id(),
    decreases t,
{
    match t {
        Term::Eq(a, b) | Term::And(a, b) | Term::Pair(a, b) => {
            lemma_term_query_id(*a);
            lemma_term_query_id(*b);
        },
        Term::Nullable(a) => lemma_term_query_id(*a),
        _ => {},
    }
}

proof fn lemma_refs_monotone(
    t: Term,
    c1: Set<(Seq<char>, Seq<char>)>,
    t1: Set<(Seq<char>, Seq<Seq<char>>)>,
    c2: Set<(Seq<char>, Seq<char>)>,
    t2: Set<(Seq<char>, Seq<Seq<char>>)>,
)
    requires
        refs_within(t, c1, t1),
        c1.subset_of(c2),
        t1.subset_of(t2),
    ensures
        refs_within(t, c2, t2),
    decreases t,
{
    match t {
        Term::Eq(a, b) | Term::And(a, b) | Term::Pair(a, b) => {
            lemma_refs_monotone(*a, c1, t1, c2, t2);
            lemma_refs_monotone(*b, c1, t1, c2, t2);
        },
        Term::Nullable(a) => lemma_refs_monotone(*a, c1, t1, c2, t2),
        _ => {},
    }
}

proof fn lemma_selectable_appears(t: Term, s: Shape)
    requires
        selectable(t, s),
    ensures
        appears_on(t, s),
    decreases t, s,
{
    match s {
        Shape::JoinOn { join, .. } => lemma_selectable_appears(t, *join),
        _ => match t {
            Term::Eq(a, b) | Term::And(a, b) | Term::Pair(a, b) => {
                lemma_selectable_appears(*a, s);
                lemma_selectable_appears(*b, s);
            },
            Term::Bind(_) | Term::Literal(_) => {},
            _ => match s {
                Shape::Table { name, columns } => match t {
                    Term::Nullable(a) => lemma_selectable_appears(*a, s),
                    Term::Column { table, name: c } => {
                        assert(s.columns().contains((table, c)));
                    },
                    _ => {},
                },
                Shape::Join { left, right, kind } => {
                    if selectable(t, *left) && !(kind is LeftOuter && t is Nullable) {
                        lemma_selectable_appears(t, *left);
                        lemma_refs_monotone(t, left.columns(), left.tables(), s.columns(), s.tables());
                    } else if kind is Inner {
                        lemma_selectable_appears(t, *right);
                        lemma_refs_monotone(t, right.columns(), right.tables(), s.columns(), s.tables());
                    }
                },
                _ => {},
            },
        },
    }
}

/// A compound expression is selectable exactly when both of its operands are.
proof fn lemma_compound_selectable(t: Term, s: Shape)
    requires
        t is Eq || t is And || t is Pair,
    ensures
        match t {
            Term::Eq(a, b) => selectable(t, s) == (selectable(*a, s) && selectable(*b, s)),
            Term::And(a, b) => selectable(t, s) == (selectable(*a, s) && selectable(*b, s)),
            Term::Pair(a, b) => selectable(t, s) == (selectable(*a, s) && selectable(*b, s)),
            _ => true,
        },
    decreases s,
{
    if let Shape::JoinOn { join, .. } = s {
        lemma_compound_selectable(t, *join);
    }
}

/// What may be selected from either side may be selected from their inner
/// join.
proof fn lemma_selectable_in_inner(t: Term, left: Shape, right: Shape)
    ensures
        selectable(t, left) || selectable(t, right) ==> selectable(
            t,
            joined(left, right, JoinKind::Inner),
        ),
    decreases t,
{
    match t {
        Term::Eq(a, b) | Term::And(a, b) | Term::Pair(a, b) => {
            lemma_compound_selectable(t, left);
            lemma_compound_selectable(t, right);
            lemma_selectable_in_inner(*a, left, right);
            lemma_selectable_in_inner(*b, left, right);
            lemma_compound_selectable(t, joined(left, right, JoinKind::Inner));
        },
        _ => {},
    }
}

} // verus!
