//! Scoped logging contexts: a per-thread stack of cumulative labels that
//! prefixes log messages and assertion failures for the dynamic extent of a
//! scope.

pub mod dispatch;
pub mod level;
pub mod scope_stack;
