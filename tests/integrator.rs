use raytrace::integrator::{after_trace, begin, Step, Trace};

#[test]
fn depth_zero_is_black() {
    assert_eq!(begin(0), Step::Black);
}

#[test]
fn positive_depth_traces() {
    assert_eq!(begin(50), Step::Trace { depth: 50 });
    assert_eq!(begin(1), Step::Trace { depth: 1 });
}

#[test]
fn miss_shows_background() {
    assert_eq!(after_trace(1, Trace::Missed), Step::Background);
    assert_eq!(after_trace(50, Trace::Missed), Step::Background);
}

#[test]
fn absorption_is_black() {
    assert_eq!(after_trace(7, Trace::Absorbed), Step::Black);
}

#[test]
fn scatter_uses_one_bounce() {
    assert_eq!(after_trace(50, Trace::Scattered), Step::Trace { depth: 49 });
    assert_eq!(after_trace(1, Trace::Scattered), Step::Black);
}

#[test]
fn bounces_never_exceed_depth() {
    let mut step = begin(3);
    let mut traces: u64 = 0;
    while let Step::Trace { depth } = step {
        traces += 1;
        step = after_trace(depth, Trace::Scattered);
    }
    assert_eq!(traces, 3);
    assert_eq!(step, Step::Black);
}
