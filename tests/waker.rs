use gedgygedgy::task::WakeCallback;
use std::ops::Deref;
use std::sync::{Arc, Mutex};
use std::task::{Wake, Waker};

struct TestWakerData(Mutex<bool>);

impl TestWakerData {
    fn new(v: bool) -> Self {
        TestWakerData(Mutex::new(v))
    }
}

impl Deref for TestWakerData {
    type Target = Mutex<bool>;

    fn deref(&self) -> &Mutex<bool> {
        &self.0
    }
}

impl Wake for TestWakerData {
    fn wake(self: Arc<Self>) {
        *self.0.lock().unwrap() = true;
    }

    fn wake_by_ref(self: &Arc<Self>) {
        *self.0.lock().unwrap() = true;
    }
}

fn test_waker(data: &Arc<TestWakerData>) -> Waker {
    Waker::from(data.clone())
}

#[test]
fn test_raw_waker_refcount() {
    let data = Arc::new(TestWakerData::new(false));
    assert_eq!(Arc::strong_count(&data), 1);

    let waker: Waker = test_waker(&data);
    assert_eq!(Arc::strong_count(&data), 2);
    assert_eq!(*data.lock().unwrap(), false);

    let waker2 = waker.clone();
    assert_eq!(Arc::strong_count(&data), 3);
    assert_eq!(*data.lock().unwrap(), false);

    std::mem::drop(waker2);
    assert_eq!(Arc::strong_count(&data), 2);
    assert_eq!(*data.lock().unwrap(), false);

    std::mem::drop(waker);
    assert_eq!(Arc::strong_count(&data), 1);
    assert_eq!(*data.lock().unwrap(), false);
}

#[test]
fn test_raw_waker_wake() {
    let data = Arc::new(TestWakerData::new(false));

    let waker: Waker = test_waker(&data);
    assert_eq!(*data.lock().unwrap(), false);

    waker.wake();
    assert_eq!(*data.lock().unwrap(), true);
}

#[test]
fn test_raw_waker_wake_by_ref() {
    let data = Arc::new(TestWakerData::new(false));

    let waker: Waker = test_waker(&data);
    assert_eq!(*data.lock().unwrap(), false);

    waker.wake_by_ref();
    assert_eq!(*data.lock().unwrap(), true);
}

#[test]
fn callback_counts_handles_and_releases_waker() {
    let data = Arc::new(TestWakerData::new(false));
    let waker = test_waker(&data);
    assert_eq!(Arc::strong_count(&data), 2);

    // Two constructions, one copy.
    let mut a = WakeCallback::new(waker.clone());
    let mut b = WakeCallback::new(waker.clone());
    assert_eq!(Arc::strong_count(&data), 4);
    a.retain();
    assert_eq!(a.ref_count(), 2);
    assert_eq!(b.ref_count(), 1);
    // Handles: 1 owner + 2 + 1 = 4.
    assert_eq!(1 + a.ref_count() + b.ref_count(), 4);

    // A copy does not touch the native waker.
    assert_eq!(Arc::strong_count(&data), 4);

    assert!(!a.release());
    assert_eq!(a.ref_count(), 1);
    assert_eq!(Arc::strong_count(&data), 4);
    assert!(a.release());
    assert_eq!(a.ref_count(), 0);
    assert_eq!(Arc::strong_count(&data), 3);
    assert!(b.release());
    assert_eq!(Arc::strong_count(&data), 2);
    assert_eq!(1 + a.ref_count() + b.ref_count(), 1);

    drop(waker);
    assert_eq!(Arc::strong_count(&data), 1);
    assert_eq!(*data.lock().unwrap(), false);
}

#[test]
fn callback_wake_and_wake_by_ref_signal_alike() {
    let data = Arc::new(TestWakerData::new(false));
    let mut c = WakeCallback::new(test_waker(&data));
    c.retain();
    assert!(!c.is_woken());

    c.wake_by_ref();
    assert!(c.is_woken());
    assert_eq!(*data.lock().unwrap(), true);
    assert_eq!(c.ref_count(), 2);

    *data.lock().unwrap() = false;
    c.wake();
    assert!(c.is_woken());
    assert_eq!(*data.lock().unwrap(), true);
    assert_eq!(c.ref_count(), 2);
    assert_eq!(Arc::strong_count(&data), 2);

    // The last handle goes: the waker is released.
    assert!(!c.release());
    assert!(c.release());
    assert_eq!(c.ref_count(), 0);
    assert_eq!(Arc::strong_count(&data), 1);

    // Invoking after release is a harmless no-op.
    *data.lock().unwrap() = false;
    c.wake_by_ref();
    c.wake();
    assert_eq!(*data.lock().unwrap(), false);
}
