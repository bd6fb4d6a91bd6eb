use tracerr::{map_from, Frame, Trace, Traced, WrapTraced};

fn frame(file: &'static str, line: u32, module: &'static str) -> Frame {
    Frame { file, line, module }
}

fn same_frames(left: &Trace, right: &[Frame]) -> bool {
    left.len() == right.len()
        && left
            .frames()
            .iter()
            .zip(right)
            .all(|(a, b)| a.file == b.file && a.line == b.line && a.module == b.module)
}

#[test]
fn wrapping_bare_value_starts_trace_of_that_frame() {
    let f = frame("a.rs", 10, "m");
    let err: Traced<&str> = WrapTraced::wrap_traced("boom", f);
    assert!(same_frames(err.trace(), &[f]));
    assert_eq!(err.into_inner(), "boom");
}

#[test]
fn wrapping_traced_value_appends_in_call_order() {
    let f0 = frame("start.rs", 1, "s");
    let fs = [frame("a.rs", 2, "a"), frame("b.rs", 3, "b"), frame("c.rs", 4, "c")];
    let mut err: Traced<u8> = WrapTraced::wrap_traced(9u8, f0);
    for f in fs {
        err = WrapTraced::wrap_traced(err, f);
    }
    assert_eq!(err.trace().len(), 1 + fs.len());
    assert!(same_frames(err.trace(), &[f0, fs[0], fs[1], fs[2]]));
    assert_eq!(err.into_inner(), 9);
}

#[test]
fn wrapping_twice_equals_wrapping_already_traced() {
    let f1 = frame("a.rs", 10, "m");
    let f2 = frame("b.rs", 20, "m::sub");
    let twice: Traced<i32> = WrapTraced::wrap_traced(WrapTraced::wrap_traced(-3i32, f1), f2);
    let known = Traced::compose(-3i32, Trace::new(vec![f1]));
    let again: Traced<i32> = WrapTraced::wrap_traced(known, f2);
    assert!(same_frames(twice.trace(), &[f1, f2]));
    assert!(same_frames(again.trace(), &[f1, f2]));
    assert_eq!(twice.into_inner(), again.into_inner());
}

#[test]
fn map_from_keeps_trace_and_converts_error() {
    let f1 = frame("a.rs", 1, "x");
    let f2 = frame("b.rs", 2, "y");
    let err = Traced::compose(200u8, Trace::new(vec![f1, f2]));
    let err: Traced<i64> = map_from(err);
    assert!(same_frames(err.trace(), &[f1, f2]));
    assert_eq!(err.into_inner(), 200i64);
}

#[test]
fn split_then_compose_gives_back_the_wrapper() {
    let f1 = frame("a.rs", 7, "p");
    let f2 = frame("b.rs", 8, "q");
    let err = Traced::compose(String::from("oops"), Trace::new(vec![f1, f2]));
    let (inner, trace) = err.split();
    assert_eq!(inner, "oops");
    assert!(same_frames(&trace, &[f1, f2]));
    let back = Traced::compose(inner, trace);
    assert!(same_frames(back.trace(), &[f1, f2]));
    assert_eq!(back.into_inner(), "oops");
}

#[test]
fn two_frames_on_bare_error_render_in_order() {
    let err: Traced<&str> = WrapTraced::wrap_traced("boom", frame("a.rs", 10, "m"));
    let err: Traced<&str> = WrapTraced::wrap_traced(err, frame("b.rs", 20, "m::sub"));
    assert_eq!(
        err.trace().to_string(),
        "error trace:\nm\n  at a.rs:10\nm::sub\n  at b.rs:20"
    );
}

#[test]
fn empty_trace_renders_header_only() {
    let trace = Trace::new(Vec::new());
    assert_eq!(trace.to_string(), "error trace:");
    assert!(trace.is_empty());
    assert_eq!(trace.len(), 0);
}

#[test]
fn frame_renders_line_numbers_in_decimal() {
    assert_eq!(frame("f.rs", 0, "m").to_string(), "m\n  at f.rs:0");
    assert_eq!(frame("f.rs", 9, "m").to_string(), "m\n  at f.rs:9");
    assert_eq!(frame("f.rs", 10, "m").to_string(), "m\n  at f.rs:10");
    assert_eq!(frame("f.rs", 1005, "m").to_string(), "m\n  at f.rs:1005");
    assert_eq!(frame("f.rs", u32::MAX, "m").to_string(), "m\n  at f.rs:4294967295");
    assert_eq!(frame("", 3, "").to_string(), "\n  at :3");
}

#[test]
fn push_appends_after_last_frame() {
    let mut trace = Trace::new(vec![frame("a.rs", 1, "a")]);
    trace.push(frame("b.rs", 2, "b"));
    assert!(same_frames(&trace, &[frame("a.rs", 1, "a"), frame("b.rs", 2, "b")]));
    assert_eq!(trace[1].line, 2);
    trace[0].line = 5;
    assert_eq!(trace.frames()[0].line, 5);
}

#[test]
fn from_pair_with_frame_starts_trace() {
    let f = frame("a.rs", 3, "z");
    let err = Traced::from((17u16, f));
    assert!(same_frames(err.trace(), &[f]));
    assert_eq!(err.into_inner(), 17);
}

#[test]
fn from_pair_with_trace_adopts_it() {
    let fs = [frame("a.rs", 3, "z"), frame("b.rs", 4, "w")];
    let err = Traced::from((false, Trace::new(fs.to_vec())));
    assert!(same_frames(err.trace(), &fs));
    assert!(!err.into_inner());
}

#[test]
fn wrapping_with_capacity_gives_same_frames() {
    let f1 = frame("a.rs", 1, "a");
    let f2 = frame("b.rs", 2, "b");
    let err: Traced<u8> = WrapTraced::wrap_traced_with_capacity(5u8, f1, 0);
    assert!(same_frames(err.trace(), &[f1]));
    let err: Traced<u8> = WrapTraced::wrap_traced_with_capacity(err, f2, 100);
    assert!(same_frames(err.trace(), &[f1, f2]));
    assert_eq!(err.into_inner(), 5);
}

#[test]
fn deref_reads_and_extends_the_frames() {
    let f1 = frame("a.rs", 1, "a");
    let f2 = frame("b.rs", 2, "b");
    let mut trace = Trace::new(vec![f1]);
    assert_eq!(trace.iter().count(), 1);
    assert_eq!(trace.first().map(|f| f.line), Some(1));
    std::ops::DerefMut::deref_mut(&mut trace).push(f2);
    assert!(same_frames(&trace, &[f1, f2]));
}

#[test]
fn as_ref_and_as_mut_reach_the_error_and_keep_the_trace() {
    let f = frame("a.rs", 1, "a");
    let mut err: Traced<u32> = WrapTraced::wrap_traced(40u32, f);
    assert_eq!(*AsRef::<u32>::as_ref(&err), 40);
    *AsMut::<u32>::as_mut(&mut err) += 2;
    assert!(same_frames(err.trace(), &[f]));
    assert_eq!(err.into_inner(), 42);
}
