use std::cell::Cell;
use std::rc::Rc;
use trafficserver::continuations::{
    continuation_callback, continuation_handler, continuation_handler_free,
    continuation_raw_handler, continuation_raw_handler_once, HandleMany, HandleOnce,
};
use trafficserver::{TS_ERROR, TS_SUCCESS};

/// A one-shot handler instrumented with a drop counter, so a test can observe
/// that its storage is released exactly once.
struct CountingHandler {
    drops: Rc<Cell<u32>>,
    runs: Rc<Cell<u32>>,
    outcome: Result<(), ()>,
}

impl Drop for CountingHandler {
    fn drop(&mut self) {
        self.drops.set(self.drops.get() + 1);
    }
}

impl HandleOnce for CountingHandler {
    fn handle_once(self, _event: u32, _edata: usize) -> Result<(), ()> {
        self.runs.set(self.runs.get() + 1);
        self.outcome
    }
}

struct TallyHandler {
    calls: u32,
}

impl HandleMany for TallyHandler {
    fn handle(&mut self, event: u32, _edata: usize) -> Result<(), ()> {
        self.calls += 1;
        if event == 0 {
            Err(())
        } else {
            Ok(())
        }
    }
}

#[test]
fn one_shot_releases_handler_and_handle_on_first_invocation() {
    let drops = Rc::new(Cell::new(0));
    let runs = Rc::new(Cell::new(0));
    let handler = CountingHandler {
        drops: drops.clone(),
        runs: runs.clone(),
        outcome: Ok(()),
    };
    let mut cont = continuation_callback(handler);
    assert_eq!(drops.get(), 0);

    let code = continuation_raw_handler_once(&mut cont, 1, 0);
    assert_eq!(code, TS_SUCCESS);
    assert_eq!(runs.get(), 1);
    assert_eq!(drops.get(), 1);
}

#[test]
fn second_invocation_does_not_double_release() {
    let drops = Rc::new(Cell::new(0));
    let runs = Rc::new(Cell::new(0));
    let handler = CountingHandler {
        drops: drops.clone(),
        runs: runs.clone(),
        outcome: Ok(()),
    };
    let mut cont = continuation_callback(handler);

    let first = continuation_raw_handler_once(&mut cont, 1, 0);
    let second = continuation_raw_handler_once(&mut cont, 1, 0);
    assert_eq!(first, TS_SUCCESS);
    assert_eq!(second, TS_ERROR);
    assert_eq!(runs.get(), 1, "the handler must run exactly once");
    assert_eq!(drops.get(), 1, "the handler must be released exactly once");
}

#[test]
fn one_shot_releases_even_when_handler_fails() {
    let drops = Rc::new(Cell::new(0));
    let runs = Rc::new(Cell::new(0));
    let handler = CountingHandler {
        drops: drops.clone(),
        runs: runs.clone(),
        outcome: Err(()),
    };
    let mut cont = continuation_callback(handler);

    let code = continuation_raw_handler_once(&mut cont, 1, 0);
    assert_eq!(code, TS_ERROR);
    assert_eq!(drops.get(), 1, "release happens irrespective of the outcome");
}

#[test]
fn recurring_handler_runs_until_freed() {
    let mut cont = continuation_handler(TallyHandler { calls: 0 });
    assert_eq!(continuation_raw_handler(&mut cont, 1, 0), TS_SUCCESS);
    assert_eq!(continuation_raw_handler(&mut cont, 0, 0), TS_ERROR);
    assert_eq!(continuation_raw_handler(&mut cont, 2, 0), TS_SUCCESS);
    let handler = continuation_handler_free(cont);
    assert_eq!(handler.calls, 3);
}
