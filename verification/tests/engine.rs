use genawaiter::engine::{
    advance, async_advance, async_resume, async_step, deposit, fault, next_item, poll_item, resume,
    Airlock, Co, Computation,
};
use genawaiter::slot::{Next, Slot};
use genawaiter::waker;
use genawaiter::{Generator, GeneratorState, Misuse, Phase};
use std::cell::RefCell;
use std::future::Future;
use std::pin::Pin;
use std::rc::Rc;
use std::sync::atomic::{AtomicUsize, Ordering};
use std::sync::Arc;
use std::task::{Context, Poll, Wake, Waker};

/// Slot storage of the test's own, which lets the test look into the slot.
struct Window(Rc<RefCell<Slot<i32, &'static str>>>);

impl Window {
    fn new() -> Self {
        Window(Rc::new(RefCell::new(Slot::new())))
    }

    fn share(&self) -> Self {
        Window(self.0.clone())
    }

    fn next(&self) -> Next<(), ()> {
        self.0.borrow().peek()
    }

    fn fault(&self) -> Option<Misuse> {
        self.0.borrow().fault()
    }
}

impl Airlock for Window {
    type Yield = i32;
    type Resume = &'static str;

    fn exchange(&self, slot: Slot<i32, &'static str>) -> Slot<i32, &'static str> {
        self.0.replace(slot)
    }
}

/// Counts how often it is woken.
struct Counter(AtomicUsize);

impl Wake for Counter {
    fn wake(self: Arc<Self>) {
        self.0.fetch_add(1, Ordering::SeqCst);
    }
}

/// Pending once, with a wake-up, then ready.
struct Once(bool);

impl Future for Once {
    type Output = ();

    fn poll(self: Pin<&mut Self>, cx: &mut Context<'_>) -> Poll<()> {
        let this = self.get_mut();
        if this.0 {
            Poll::Ready(())
        } else {
            this.0 = true;
            cx.waker().wake_by_ref();
            Poll::Pending
        }
    }
}

async fn echo(seen: Rc<RefCell<Vec<&'static str>>>, mut co: Co<Window>) -> usize {
    let first = co.yield_(10).await;
    seen.borrow_mut().push(first);
    let second = co.yield_(20).await;
    seen.borrow_mut().push(second);
    seen.borrow().len()
}

#[test]
fn the_waker_does_nothing() {
    let waker = waker::create();
    waker.wake_by_ref();
    let copy = waker.clone();
    copy.wake();
    assert!(waker.will_wake(waker::create()));
}

#[test]
fn engine_drives_a_computation_over_storage_of_the_callers_own() {
    let window = Window::new();
    let seen = Rc::new(RefCell::new(Vec::new()));
    let mut computation = Computation::new(echo(seen.clone(), Co::new(window.share())));
    assert_eq!(computation.phase(), Phase::Active);
    assert_eq!(window.next(), Next::Empty);

    assert_eq!(resume(&mut computation, &window, "ignored"), Ok(GeneratorState::Yielded(10)));
    assert_eq!(window.next(), Next::Empty);
    assert_eq!(*seen.borrow(), Vec::<&str>::new());

    assert_eq!(resume(&mut computation, &window, "abc"), Ok(GeneratorState::Yielded(20)));
    assert_eq!(*seen.borrow(), ["abc"]);
    assert_eq!(computation.phase(), Phase::Active);

    assert_eq!(resume(&mut computation, &window, "def"), Ok(GeneratorState::Complete(2)));
    assert_eq!(*seen.borrow(), ["abc", "def"]);
    assert_eq!(window.next(), Next::Completed);
    assert_eq!(computation.phase(), Phase::Complete);

    // Not polled again: an `async fn` would panic if it were.
    assert_eq!(
        resume(&mut computation, &window, "ghi"),
        Err(Misuse::ResumedAfterCompletion)
    );
    assert_eq!(window.next(), Next::Completed);
    assert_eq!(window.fault(), None);
    assert_eq!(fault(&computation, &window), None);
}

#[test]
fn engine_deposit_leaves_the_argument_in_the_slot() {
    let window = Window::new();
    deposit(&window, "abc");
    assert_eq!(window.0.borrow().next, Next::Resume("abc"));
    deposit(&window, "def");
    assert_eq!(window.0.borrow().next, Next::Resume("def"));
}

#[test]
fn engine_yield_and_barrier_work_on_the_slot() {
    let window = Window::new();
    let mut co = Co::new(window.share());
    {
        let barrier = co.yield_(5);
        assert_eq!(window.0.borrow().next, Next::Yield(5));
        // The barrier stays closed until the driver leaves an argument.
        assert_eq!(barrier.receive(), None);
        assert_eq!(window.0.borrow().next, Next::Yield(5));
        let taken = window.0.borrow_mut().replace(Next::Empty);
        assert_eq!(taken, Next::Yield(5));
        deposit(&window, "go");
        assert_eq!(barrier.receive(), Some("go"));
        assert_eq!(window.next(), Next::Empty);
        assert_eq!(barrier.receive(), None);
    }
    assert_eq!(co.yield_(6).fault(), None);
    assert_eq!(co.yield_(7).fault(), Some(Misuse::MultipleYields));
    assert_eq!(window.0.borrow().next, Next::Yield(6));
    assert_eq!(window.fault(), Some(Misuse::MultipleYields));
}

#[test]
fn engine_advance_polls_once_and_settles() {
    let window = Window::new();
    let seen = Rc::new(RefCell::new(Vec::new()));
    let mut computation = Computation::new(echo(seen.clone(), Co::new(window.share())));
    assert_eq!(advance(&mut computation, &window), Ok(GeneratorState::Yielded(10)));
    // No argument was left for the barrier: the computation cannot go on.
    assert_eq!(advance(&mut computation, &window), Err(Misuse::ForeignAwait));
    assert_eq!(computation.phase(), Phase::Failed(Misuse::ForeignAwait));
    assert_eq!(window.fault(), Some(Misuse::ForeignAwait));
    assert_eq!(fault(&computation, &window), Some(Misuse::ForeignAwait));
    assert_eq!(resume(&mut computation, &window, "abc"), Err(Misuse::ForeignAwait));
    assert_eq!(*seen.borrow(), Vec::<&str>::new());
}

#[test]
fn engine_async_step_hands_the_callers_waker_to_the_computation() {
    async fn slow(mut co: Co<Window>) {
        Once(false).await;
        co.yield_(1).await;
    }

    let window = Window::new();
    let mut computation = Computation::new(slow(Co::new(window.share())));
    let counter = Arc::new(Counter(AtomicUsize::new(0)));
    let waker = Waker::from(counter.clone());
    let mut cx = Context::from_waker(&waker);

    deposit(&window, "first");
    assert_eq!(async_step(&mut computation, &window, &mut cx), None);
    assert_eq!(counter.0.load(Ordering::SeqCst), 1);
    assert_eq!(computation.phase(), Phase::Active);
    assert_eq!(window.next(), Next::Empty);
    assert_eq!(
        async_step(&mut computation, &window, &mut cx),
        Some(Ok(GeneratorState::Yielded(1)))
    );
    deposit(&window, "second");
    assert_eq!(
        async_step(&mut computation, &window, &mut cx),
        Some(Ok(GeneratorState::Complete(())))
    );
    assert_eq!(computation.phase(), Phase::Complete);
    assert_eq!(
        async_step(&mut computation, &window, &mut cx),
        Some(Err(Misuse::ResumedAfterCompletion))
    );
    assert_eq!(counter.0.load(Ordering::SeqCst), 1);
}

#[test]
fn engine_async_resume_is_a_future_of_the_result() {
    async fn slow(mut co: Co<Window>) -> &'static str {
        Once(false).await;
        let arg = co.yield_(1).await;
        Once(false).await;
        arg
    }

    let window = Window::new();
    let mut computation = Computation::new(slow(Co::new(window.share())));
    let first = futures::executor::block_on(async_resume(&mut computation, &window, "a"));
    assert_eq!(first, Ok(GeneratorState::Yielded(1)));
    deposit(&window, "b");
    let second = futures::executor::block_on(async_advance(&mut computation, &window));
    assert_eq!(second, Ok(GeneratorState::Complete("b")));
    let third = futures::executor::block_on(async_resume(&mut computation, &window, "c"));
    assert_eq!(third, Err(Misuse::ResumedAfterCompletion));
    // The argument of a refused resumption is not left in the slot.
    assert_eq!(window.next(), Next::Completed);
}

/// Slot storage for generators that are resumed without an argument.
struct Plain(Rc<RefCell<Slot<i32, ()>>>);

impl Airlock for Plain {
    type Yield = i32;
    type Resume = ();

    fn exchange(&self, slot: Slot<i32, ()>) -> Slot<i32, ()> {
        self.0.replace(slot)
    }
}

async fn count(mut co: Co<Plain>) {
    co.yield_(1).await;
    Once(false).await;
    co.yield_(2).await;
}

#[test]
fn engine_next_item_stops_at_a_foreign_await() {
    let plain = Plain(Rc::new(RefCell::new(Slot::new())));
    let mut computation = Computation::new(count(Co::new(Plain(plain.0.clone()))));
    assert_eq!(next_item(&mut computation, &plain), Some(Ok(1)));
    assert_eq!(next_item(&mut computation, &plain), Some(Err(Misuse::ForeignAwait)));
    assert_eq!(next_item(&mut computation, &plain), None);
    assert_eq!(next_item(&mut computation, &plain), None);
    assert_eq!(computation.phase(), Phase::Failed(Misuse::ForeignAwait));
}

#[test]
fn engine_poll_item_waits_where_next_item_fails() {
    let plain = Plain(Rc::new(RefCell::new(Slot::new())));
    let mut computation = Computation::new(count(Co::new(Plain(plain.0.clone()))));
    let mut cx = Context::from_waker(waker::create());
    assert_eq!(poll_item(&mut computation, &plain, &mut cx), Some(Some(Ok(1))));
    assert_eq!(poll_item(&mut computation, &plain, &mut cx), None);
    assert_eq!(poll_item(&mut computation, &plain, &mut cx), Some(Some(Ok(2))));
    assert_eq!(poll_item(&mut computation, &plain, &mut cx), Some(None));
    assert_eq!(computation.phase(), Phase::Complete);
    assert_eq!(poll_item(&mut computation, &plain, &mut cx), Some(None));
}

#[test]
fn generators_share_one_trait() {
    fn first<G: Generator<&'static str, Yield = i32>>(gen: &mut G) -> Option<i32> {
        match gen.resume("go") {
            Ok(GeneratorState::Yielded(y)) => Some(y),
            _ => None,
        }
    }

    async fn rc_one(mut co: genawaiter::rc::Co<i32, &'static str>) {
        co.yield_(1).await;
    }
    async fn sync_two(mut co: genawaiter::sync::Co<i32, &'static str>) {
        co.yield_(2).await;
    }
    async fn stack_three(mut co: genawaiter::stack::Co<'_, i32, &'static str>) {
        co.yield_(3).await;
    }

    let mut shelf = genawaiter::stack::Shelf::new();
    assert_eq!(first(&mut genawaiter::rc::Gen::new(rc_one)), Some(1));
    assert_eq!(first(&mut genawaiter::sync::Gen::new(sync_two)), Some(2));
    assert_eq!(first(&mut genawaiter::stack::Gen::new(&mut shelf, stack_three)), Some(3));
}
