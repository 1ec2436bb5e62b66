use std::cell::RefCell;

struct Defer<F: FnOnce()>(Option<F>);

impl<F: FnOnce()> Drop for Defer<F> {
    fn drop(&mut self) {
        if let Some(f) = self.0.take() {
            f()
        }
    }
}

/// Runs `f` when the returned guard is dropped.
fn defer<F: FnOnce()>(f: F) -> impl Drop {
    Defer(Some(f))
}

#[test]
fn test_defer() {
    let i = RefCell::new(0);

    {
        let _d = defer(|| *i.borrow_mut() += 1);
        assert_eq!(*i.borrow(), 0);
    }

    assert_eq!(*i.borrow(), 1);
}
