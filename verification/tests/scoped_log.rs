use scoped_log::dispatch::{
    compose_message, dispatch_with_filters, log_with_filter, scoped_assert, scoped_assert_msg,
    scoped_debug, scoped_error, scoped_info, scoped_log, scoped_trace, scoped_warn,
};
use scoped_log::level::{Level, LevelFilter};
use scoped_log::scope_stack::ScopeStack;

#[test]
fn cumulative_labels_nested() {
    let mut st = ScopeStack::new();
    assert_eq!(st.depth(), 0);
    assert!(st.current().is_none());

    let a = st.enter("A");
    assert_eq!(st.current().unwrap(), "A");

    let b = st.enter("B");
    assert_eq!(st.current().unwrap(), "A: B");

    let c = st.enter("C");
    assert_eq!(st.depth(), 3);
    assert_eq!(st.current().unwrap(), "A: B: C");

    st.exit(c);
    assert_eq!(st.current().unwrap(), "A: B");

    st.exit(b);
    st.exit(a);
    assert_eq!(st.depth(), 0);
    assert!(st.current().is_none());
}

#[test]
fn balanced_enter_exit_restores_depth() {
    let mut st = ScopeStack::new();
    let outer = st.enter("outer");
    let depth_before: usize = st.depth();

    let t1 = st.enter("first");
    let t2 = st.enter("second");
    st.exit(t2);
    st.exit(t1);

    assert_eq!(st.depth(), depth_before);
    assert_eq!(st.current().unwrap(), "outer");
    st.exit(outer);
    assert_eq!(st.depth(), 0);
}

#[test]
fn repeated_reentry_is_stable() {
    let mut st = ScopeStack::new();
    let base = st.enter("base");
    let mut labels: Vec<String> = Vec::new();
    let mut i: usize = 0;
    while i < 4 {
        let t = st.enter("loop-scope");
        labels.push(st.current().unwrap().clone());
        st.exit(t);
        assert_eq!(st.depth(), 1);
        i += 1;
    }
    for label in &labels {
        assert_eq!(label, "base: loop-scope");
    }
    st.exit(base);
}

#[test]
fn empty_label_is_permitted() {
    let mut st = ScopeStack::new();
    let a = st.enter("A");
    let e = st.enter("");
    assert_eq!(st.current().unwrap(), "A: ");
    st.exit(e);
    st.exit(a);
}

#[test]
fn compose_without_scope_is_message_itself() {
    let st = ScopeStack::new();
    assert_eq!(compose_message(&st, "4"), "4");
}

#[test]
fn compose_with_scope_prefixes_label() {
    let mut st = ScopeStack::new();
    let a = st.enter("A");
    let b = st.enter("B");
    assert_eq!(compose_message(&st, "4"), "A: B: 4");
    st.exit(b);
    st.exit(a);
}

#[test]
fn info_without_scope_forwards_message_unchanged() {
    log::set_max_level(log::LevelFilter::Trace);
    let st = ScopeStack::new();
    let req = scoped_info(&st, None, "4").unwrap();
    assert_eq!(req.level, Level::Info);
    assert!(req.target.is_none());
    assert_eq!(req.message, "4");
}

#[test]
fn info_with_scope_forwards_prefixed_message() {
    log::set_max_level(log::LevelFilter::Trace);
    let mut st = ScopeStack::new();
    let a = st.enter("A");
    let b = st.enter("B");
    let req = scoped_info(&st, None, "4").unwrap();
    assert_eq!(req.message, "A: B: 4");
    st.exit(b);
    st.exit(a);
}

#[test]
fn target_and_level_pass_through_unchanged() {
    log::set_max_level(log::LevelFilter::Trace);
    let st = ScopeStack::new();

    let req = scoped_log(&st, Level::Warn, Some("net::tcp"), "m").unwrap();
    assert_eq!(req.level, Level::Warn);
    assert_eq!(req.target.as_deref(), Some("net::tcp"));
    assert_eq!(req.message, "m");

    assert_eq!(scoped_error(&st, None, "m").unwrap().level, Level::Error);
    assert_eq!(scoped_warn(&st, None, "m").unwrap().level, Level::Warn);
    assert_eq!(scoped_debug(&st, None, "m").unwrap().level, Level::Debug);
    assert_eq!(scoped_trace(&st, None, "m").unwrap().level, Level::Trace);
}

#[test]
fn disabled_level_produces_nothing() {
    let mut st = ScopeStack::new();
    let a = st.enter("A");

    assert!(log_with_filter(&st, Level::Info, LevelFilter::Off, None, "m").is_none());
    assert!(log_with_filter(&st, Level::Debug, LevelFilter::Warn, None, "m").is_none());
    assert!(log_with_filter(&st, Level::Warn, LevelFilter::Warn, None, "m").is_some());

    log::set_max_level(log::LevelFilter::Error);
    assert!(scoped_debug(&st, None, "m").is_none());
    assert!(scoped_error(&st, None, "m").is_some());

    log::set_max_level(log::LevelFilter::Off);
    assert!(scoped_error(&st, None, "m").is_none());

    st.exit(a);
}

#[test]
fn both_gates_must_admit_the_level() {
    let mut st = ScopeStack::new();
    let a = st.enter("A");

    let off = LevelFilter::Off;
    let trace = LevelFilter::Trace;
    let warn = LevelFilter::Warn;

    assert!(dispatch_with_filters(&st, Level::Info, off, trace, None, "m").is_none());
    assert!(dispatch_with_filters(&st, Level::Info, trace, off, None, "m").is_none());
    assert!(dispatch_with_filters(&st, Level::Info, warn, trace, None, "m").is_none());
    assert!(dispatch_with_filters(&st, Level::Info, trace, warn, None, "m").is_none());

    let req = dispatch_with_filters(&st, Level::Info, trace, trace, None, "m").unwrap();
    assert_eq!(req.level, Level::Info);
    assert_eq!(req.message, "A: m");

    st.exit(a);
}

#[test]
fn level_gating_total_order() {
    assert!(Level::Error.passes(LevelFilter::Error));
    assert!(!Level::Warn.passes(LevelFilter::Error));
    assert!(Level::Warn.passes(LevelFilter::Info));
    assert!(Level::Info.passes(LevelFilter::Info));
    assert!(!Level::Debug.passes(LevelFilter::Info));
    assert!(!Level::Trace.passes(LevelFilter::Debug));
    assert!(Level::Trace.passes(LevelFilter::Trace));
    assert!(!Level::Error.passes(LevelFilter::Off));
}

#[test]
fn assert_failure_without_scope_names_condition() {
    let st = ScopeStack::new();
    assert!(scoped_assert(&st, true, "false").is_none());
    let payload = scoped_assert(&st, false, "false").unwrap();
    assert_eq!(payload, "false");
}

#[test]
fn assert_failure_with_scope_is_prefixed() {
    let mut st = ScopeStack::new();
    let t = st.enter("outer-scope");
    let payload = scoped_assert(&st, false, "false").unwrap();
    assert_eq!(payload, "outer-scope: false");
    st.exit(t);
}

#[test]
fn assert_failure_with_custom_message() {
    let mut st = ScopeStack::new();
    assert!(scoped_assert_msg(&st, true, "boom").is_none());
    assert_eq!(scoped_assert_msg(&st, false, "boom").unwrap(), "boom");
    let t = st.enter("outer-scope");
    assert_eq!(
        scoped_assert_msg(&st, false, "boom").unwrap(),
        "outer-scope: boom"
    );
    st.exit(t);
}

#[test]
fn independent_stacks_do_not_share_labels() {
    let mut first = ScopeStack::new();
    let mut second = ScopeStack::new();
    let a = first.enter("alpha");
    let b = second.enter("beta");
    assert_eq!(first.current().unwrap(), "alpha");
    assert_eq!(second.current().unwrap(), "beta");
    first.exit(a);
    assert_eq!(first.depth(), 0);
    assert_eq!(second.current().unwrap(), "beta");
    second.exit(b);
}
