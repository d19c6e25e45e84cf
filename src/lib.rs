//! Join composition for a SQL query builder: two data sources and a join kind
//! make a composite source whose SQL text, bind values, default projection and
//! certification rules are derived from its parts.
pub mod certify;
pub mod expr;
pub mod kind;
pub mod source;
pub mod laws;
