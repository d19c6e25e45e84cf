use vstd::prelude::*;
use vstd::string::*;

verus! {

/// The two join kinds of this core. Each carries a fixed SQL keyword and tells
/// whether the right-hand side may be absent from a result row.
#[derive(Clone, Copy, Debug, PartialEq, Eq, Structural)]
pub enum JoinKind {
    Inner,
    LeftOuter,
}

impl JoinKind {
    /// The keyword fragment, with its leading space.
    pub open spec fn keyword(self) -> Seq<char> {
        match self {
            JoinKind::Inner => " INNER"@,
            JoinKind::LeftOuter => " LEFT OUTER"@,
        }
    }

    /// Whether the right side's columns become nullable under this kind.
    pub open spec fn nullable_right(self) -> bool {
        self is LeftOuter
    }

    /// A join kind embeds no caller-supplied text.
    pub open spec fn safe(self) -> bool {
        true
    }

    pub fn to_sql(&self, out: &mut String)
        ensures
            final(out)@ == old(out)@ + self.keyword(),
    {
        match self {
            JoinKind::Inner => Inner.to_sql(out),
            JoinKind::LeftOuter => LeftOuter.to_sql(out),
        }
    }

    pub fn collect_binds(&self, out: &mut Vec<i64>)
        ensures
            final(out)@ == old(out)@,
    {
        match self {
            JoinKind::Inner => Inner.collect_binds(out),
            JoinKind::LeftOuter => LeftOuter.collect_binds(out),
        }
    }

    pub fn is_safe_to_cache_prepared(&self) -> (r: bool)
        ensures
            r == self.safe(),
            r,
    {
        match self {
            JoinKind::Inner => Inner.is_safe_to_cache_prepared(),
            JoinKind::LeftOuter => LeftOuter.is_safe_to_cache_prepared(),
        }
    }
}

/// Marker for an inner join.
#[derive(Clone, Copy, Debug, Default)]
pub struct Inner;

impl Inner {
    pub fn kind(&self) -> (r: JoinKind)
        ensures
            r == JoinKind::Inner,
    {
        JoinKind::Inner
    }

    pub fn to_sql(&self, out: &mut String)
        ensures
            final(out)@ == old(out)@ + " INNER"@,
    {
        out.append(" INNER");
    }

    pub fn collect_binds(&self, out: &mut Vec<i64>)
        ensures
            final(out)@ == old(out)@,
    {
    }

    /// The keyword embeds no caller-supplied text.
    pub fn is_safe_to_cache_prepared(&self) -> (r: bool)
        ensures
            r,
    {
        true
    }
}

/// Marker for a left outer join.
#[derive(Clone, Copy, Debug, Default)]
pub struct LeftOuter;

impl LeftOuter {
    pub fn kind(&self) -> (r: JoinKind)
        ensures
            r == JoinKind::LeftOuter,
    {
        JoinKind::LeftOuter
    }

    pub fn to_sql(&self, out: &mut String)
        ensures
            final(out)@ == old(out)@ + " LEFT OUTER"@,
    {
        out.append(" LEFT OUTER");
    }

    pub fn collect_binds(&self, out: &mut Vec<i64>)
        ensures
            final(out)@ == old(out)@,
    {
    }

    /// The keyword embeds no caller-supplied text.
    pub fn is_safe_to_cache_prepared(&self) -> (r: bool)
        ensures
            r,
    {
        true
    }
}

} // verus!
