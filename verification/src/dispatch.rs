//! Context-aware dispatch: the logging path, which combines the current
//! cumulative label with a message and decides under the level gates whether
//! anything is forwarded to the sink, and the assertion path, which renders
//! the payload of a fatal failure.
//!
//! The stack is read fresh on every call and never mutated here. The actual
//! hand-off to the installed sink, and the raising of a fatal failure, are
//! the caller's side of the interface: this module computes exactly what is
//! handed over.

use vstd::prelude::*;
use vstd::string::StringExecFns;
use crate::level::{Level, LevelFilter, spec_passes, runtime_max_level, static_max_level};
use crate::scope_stack::{ScopeStack, sep};

verus! {

/// The current cumulative label of a stack with entries `s`: the top entry,
/// or `None` when no scope is active.
pub open spec fn spec_current(s: Seq<Seq<char>>) -> Option<Seq<char>> {
    if s.len() == 0 {
        None
    } else {
        Some(s.last())
    }
}

/// The string forwarded for message `msg` under current label `cur`: the
/// message unchanged when no scope is active, otherwise the label, the
/// separator, and the message.
pub open spec fn combined(cur: Option<Seq<char>>, msg: Seq<char>) -> Seq<char> {
    match cur {
        None => msg,
        Some(label) => label + sep() + msg,
    }
}

/// View of an optional borrowed target string.
pub open spec fn spec_target_ref(t: Option<&str>) -> Option<Seq<char>> {
    match t {
        None => None,
        Some(s) => Some(s@),
    }
}

/// View of an optional owned target string.
pub open spec fn spec_target_owned(t: Option<String>) -> Option<Seq<char>> {
    match t {
        None => None,
        Some(s) => Some(s@),
    }
}

/// One fully prepared call into the external sink: the level, the optional
/// target, both passed through unchanged, and the message with the current
/// cumulative label already applied.
pub struct LogRequest {
    /// Severity of the call, unchanged from the call site.
    pub level: Level,
    /// Routing target, unchanged from the call site.
    pub target: Option<String>,
    /// The message to forward, prefixed with the cumulative label when a
    /// scope was active.
    pub message: String,
}

/// Renders the message that the logging path forwards for `msg`: `msg`
/// itself when no scope is active, otherwise prefixed by the current
/// cumulative label and the separator.
pub fn compose_message(stack: &ScopeStack, msg: &str) -> (r: String)
    ensures
        r@ == combined(spec_current(stack@), msg@),
{
    match stack.current() {
        None => msg.to_owned(),
        Some(top) => {
            let mut entry = top.clone();
            entry.append(": ");
            entry.append(msg);
            proof {
                reveal_strlit(": ");
                assert(": "@ =~= sep());
            }
            entry
        },
    }
}

/// Clones an optional borrowed target into an owned one, unchanged.
fn clone_target(t: Option<&str>) -> (r: Option<String>)
    ensures
        spec_target_owned(r) == spec_target_ref(t),
{
    match t {
        None => None,
        Some(s) => Some(s.to_owned()),
    }
}

/// The logging decision as a function of an explicit maximum-level filter:
/// returns the prepared sink call exactly when `level` passes `filter`, and
/// `None` — without reading the stack or rendering anything — when it does
/// not.
pub fn log_with_filter(
    stack: &ScopeStack,
    level: Level,
    filter: LevelFilter,
    target: Option<&str>,
    msg: &str,
) -> (r: Option<LogRequest>)
    ensures
        r is Some <==> spec_passes(level, filter),
        r is Some ==> r->0.level == level,
        r is Some ==> spec_target_owned(r->0.target) == spec_target_ref(target),
        r is Some ==> r->0.message@ == combined(spec_current(stack@), msg@),
{
    if !level.passes(filter) {
        return None;
    }
    let message = compose_message(stack, msg);
    Some(LogRequest { level, target: clone_target(target), message })
}

/// The logging decision as a function of both maximum-level gates, the
/// compiled-in one and the runtime one: returns the prepared sink call
/// exactly when `level` passes both, with the current cumulative label
/// applied to `msg` and the level and target passed through unchanged, and
/// `None` — before any stack read or rendering — when either rejects it.
pub fn dispatch_with_filters(
    stack: &ScopeStack,
    level: Level,
    compiled: LevelFilter,
    runtime: LevelFilter,
    target: Option<&str>,
    msg: &str,
) -> (r: Option<LogRequest>)
    ensures
        r is Some <==> spec_passes(level, compiled) && spec_passes(level, runtime),
        r is Some ==> r->0.level == level,
        r is Some ==> spec_target_owned(r->0.target) == spec_target_ref(target),
        r is Some ==> r->0.message@ == combined(spec_current(stack@), msg@),
{
    if !level.passes(compiled) {
        return None;
    }
    log_with_filter(stack, level, runtime, target, msg)
}

/// The logging path: reads the compiled-in and the runtime maximum levels
/// from the backend and applies [`dispatch_with_filters`] to them, which
/// fixes the decision for every pair of gate values.
///
/// The two filter values are global state of the logging backend, not a
/// function of this call's arguments, so this contract pins only what holds
/// of everything returned; the decision for each pair of filter values is
/// the contract of [`dispatch_with_filters`].
pub fn scoped_log(stack: &ScopeStack, level: Level, target: Option<&str>, msg: &str) -> (r: Option<
    LogRequest,
>)
    ensures
        r is Some ==> r->0.level == level,
        r is Some ==> spec_target_owned(r->0.target) == spec_target_ref(target),
        r is Some ==> r->0.message@ == combined(spec_current(stack@), msg@),
{
    let compiled = static_max_level();
    let runtime = runtime_max_level();
    dispatch_with_filters(stack, level, compiled, runtime, target, msg)
}

/// Logs at `Error` severity; a thin forwarder to [`scoped_log`].
pub fn scoped_error(stack: &ScopeStack, target: Option<&str>, msg: &str) -> (r: Option<LogRequest>)
    ensures
        r is Some ==> r->0.level == Level::Error,
        r is Some ==> spec_target_owned(r->0.target) == spec_target_ref(target),
        r is Some ==> r->0.message@ == combined(spec_current(stack@), msg@),
{
    scoped_log(stack, Level::Error, target, msg)
}

/// Logs at `Warn` severity; a thin forwarder to [`scoped_log`].
pub fn scoped_warn(stack: &ScopeStack, target: Option<&str>, msg: &str) -> (r: Option<LogRequest>)
    ensures
        r is Some ==> r->0.level == Level::Warn,
        r is Some ==> spec_target_owned(r->0.target) == spec_target_ref(target),
        r is Some ==> r->0.message@ == combined(spec_current(stack@), msg@),
{
    scoped_log(stack, Level::Warn, target, msg)
}

/// Logs at `Info` severity; a thin forwarder to [`scoped_log`].
pub fn scoped_info(stack: &ScopeStack, target: Option<&str>, msg: &str) -> (r: Option<LogRequest>)
    ensures
        r is Some ==> r->0.level == Level::Info,
        r is Some ==> spec_target_owned(r->0.target) == spec_target_ref(target),
        r is Some ==> r->0.message@ == combined(spec_current(stack@), msg@),
{
    scoped_log(stack, Level::Info, target, msg)
}

/// Logs at `Debug` severity; a thin forwarder to [`scoped_log`].
pub fn scoped_debug(stack: &ScopeStack, target: Option<&str>, msg: &str) -> (r: Option<LogRequest>)
    ensures
        r is Some ==> r->0.level == Level::Debug,
        r is Some ==> spec_target_owned(r->0.target) == spec_target_ref(target),
        r is Some ==> r->0.message@ == combined(spec_current(stack@), msg@),
{
    scoped_log(stack, Level::Debug, target, msg)
}

/// Logs at `Trace` severity; a thin forwarder to [`scoped_log`].
pub fn scoped_trace(stack: &ScopeStack, target: Option<&str>, msg: &str) -> (r: Option<LogRequest>)
    ensures
        r is Some ==> r->0.level == Level::Trace,
        r is Some ==> spec_target_owned(r->0.target) == spec_target_ref(target),
        r is Some ==> r->0.message@ == combined(spec_current(stack@), msg@),
{
    scoped_log(stack, Level::Trace, target, msg)
}

/// The assertion path for a bare condition: `None` when `cond` holds (the
/// stack is not read), otherwise the payload of the fatal failure the caller
/// must raise — the condition's textual form, prefixed with the current
/// cumulative label when a scope is active. A caller that wants a framing
/// such as `"assertion failed: "` around the condition text passes it as
/// part of `cond_text`.
pub fn scoped_assert(stack: &ScopeStack, cond: bool, cond_text: &str) -> (r: Option<String>)
    ensures
        cond <==> r is None,
        !cond ==> r->0@ == combined(spec_current(stack@), cond_text@),
{
    scoped_assert_msg(stack, cond, cond_text)
}

/// The assertion path with a caller-supplied message: `None` when `cond`
/// holds (the stack is not read), otherwise the payload of the fatal failure
/// the caller must raise — the message, prefixed with the current cumulative
/// label when a scope is active.
pub fn scoped_assert_msg(stack: &ScopeStack, cond: bool, msg: &str) -> (r: Option<String>)
    ensures
        cond <==> r is None,
        !cond ==> r->0@ == combined(spec_current(stack@), msg@),
{
    if cond {
        return None;
    }
    Some(compose_message(stack, msg))
}

} // verus!
