use std::cell::{Cell, RefCell};
use std::rc::Rc;

use rusty_daw_io::notifier::{FatalErrorHandler, FatalErrorNotifier, FatalStreamError};

struct CountingHandler {
    count: Rc<Cell<usize>>,
    last_message: Rc<RefCell<String>>,
}

impl FatalErrorHandler for CountingHandler {
    fn fatal_stream_error(self, error: FatalStreamError) {
        self.count.set(self.count.get() + 1);
        *self.last_message.borrow_mut() = error.message();
    }
}

#[test]
fn fatal_error_fires_exactly_once() {
    let count = Rc::new(Cell::new(0usize));
    let last_message = Rc::new(RefCell::new(String::new()));
    let handler =
        CountingHandler { count: count.clone(), last_message: last_message.clone() };
    let mut notifier = FatalErrorNotifier::new(handler);

    let fired = notifier.on_shutdown("status Failure because \"server exited\"".to_string());
    assert!(fired);
    assert_eq!(count.get(), 1);
    assert_eq!(
        &*last_message.borrow(),
        "audio server disconnected: status Failure because \"server exited\""
    );

    // The server reports shutdown again: the callback was consumed, so
    // nothing fires.
    let fired_again = notifier.on_shutdown("status Failure because \"again\"".to_string());
    assert!(!fired_again);
    assert_eq!(count.get(), 1);
    assert_eq!(
        &*last_message.borrow(),
        "audio server disconnected: status Failure because \"server exited\""
    );
}
