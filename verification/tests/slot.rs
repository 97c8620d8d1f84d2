use genawaiter::engine::{conclude, yield_into};
use genawaiter::phase::{into_item, Phase};
use genawaiter::slot::{Misuse, Next, Slot};
use genawaiter::GeneratorState;

type Outcome = Result<GeneratorState<i32, &'static str>, Misuse>;

fn slot_of(next: Next<i32, u8>, fault: Option<Misuse>) -> Slot<i32, u8> {
    Slot { next, fault }
}

fn assert_slot(slot: &Slot<i32, u8>, next: Next<i32, u8>, fault: Option<Misuse>) {
    assert_eq!(slot.next, next);
    assert_eq!(slot.fault, fault);
}

#[test]
fn without_values_keeps_the_state_and_drops_the_payload() {
    assert_eq!(Next::<i32, u8>::Empty.without_values(), Next::Empty);
    assert_eq!(Next::<i32, u8>::Yield(7).without_values(), Next::Yield(()));
    assert_eq!(Next::<i32, u8>::Resume(9).without_values(), Next::Resume(()));
    assert_eq!(Next::<i32, u8>::Completed.without_values(), Next::Completed);
}

#[test]
fn a_new_slot_is_empty_and_without_fault() {
    let slot: Slot<i32, u8> = Slot::new();
    assert_slot(&slot, Next::Empty, None);
    assert_eq!(slot.peek(), Next::Empty);
    assert_eq!(slot.fault(), None);
}

#[test]
fn peek_shows_the_state_of_the_slot() {
    assert_eq!(slot_of(Next::Yield(3), None).peek(), Next::Yield(()));
    assert_eq!(slot_of(Next::Resume(4), None).peek(), Next::Resume(()));
    assert_eq!(slot_of(Next::Completed, None).peek(), Next::Completed);
}

#[test]
fn replace_swaps_the_value_and_returns_the_old_one() {
    let mut slot = slot_of(Next::Yield(3), Some(Misuse::ForeignAwait));
    assert_eq!(slot.replace(Next::Resume(5)), Next::Yield(3));
    assert_slot(&slot, Next::Resume(5), Some(Misuse::ForeignAwait));
    assert_eq!(slot.replace(Next::Empty), Next::Resume(5));
    assert_eq!(slot.replace(Next::Completed), Next::Empty);
    assert_slot(&slot, Next::Completed, Some(Misuse::ForeignAwait));
}

#[test]
fn fail_keeps_the_first_misuse() {
    let mut slot = slot_of(Next::Yield(3), None);
    slot.fail(Misuse::MultipleYields);
    assert_slot(&slot, Next::Yield(3), Some(Misuse::MultipleYields));
    slot.fail(Misuse::ForeignAwait);
    assert_slot(&slot, Next::Yield(3), Some(Misuse::MultipleYields));
}

#[test]
fn check_yield_refuses_a_full_and_a_completed_slot() {
    assert_eq!(Slot::<i32, u8>::check_yield(&Next::Empty), None);
    assert_eq!(Slot::<i32, u8>::check_yield(&Next::Resume(())), None);
    assert_eq!(Slot::<i32, u8>::check_yield(&Next::Yield(())), Some(Misuse::MultipleYields));
    assert_eq!(
        Slot::<i32, u8>::check_yield(&Next::Completed),
        Some(Misuse::YieldAfterCompletion)
    );
}

#[test]
fn deposit_overwrites_whatever_is_in_flight() {
    let mut slot = slot_of(Next::Empty, None);
    slot.deposit(1);
    assert_slot(&slot, Next::Resume(1), None);
    slot.deposit(2);
    assert_slot(&slot, Next::Resume(2), None);
    let mut slot = slot_of(Next::Yield(10), Some(Misuse::MultipleYields));
    slot.deposit(3);
    assert_slot(&slot, Next::Resume(3), Some(Misuse::MultipleYields));
}

#[test]
fn offer_puts_the_value_in() {
    let mut slot = slot_of(Next::Empty, None);
    slot.offer(10);
    assert_slot(&slot, Next::Yield(10), None);

    // The argument of a resumption that nobody awaited is dropped.
    let mut slot = slot_of(Next::Resume(1), None);
    slot.offer(10);
    assert_slot(&slot, Next::Yield(10), None);

    // A misuse on record stays where it is.
    let mut slot = slot_of(Next::Empty, Some(Misuse::ForeignAwait));
    slot.offer(10);
    assert_slot(&slot, Next::Yield(10), Some(Misuse::ForeignAwait));
}

#[test]
fn yield_into_puts_the_value_in_or_records_the_misuse() {
    let mut slot = slot_of(Next::Empty, None);
    assert_eq!(yield_into(&mut slot, 10), None);
    assert_slot(&slot, Next::Yield(10), None);

    let mut slot = slot_of(Next::Resume(1), None);
    assert_eq!(yield_into(&mut slot, 10), None);
    assert_slot(&slot, Next::Yield(10), None);

    // A second value does not replace the first.
    assert_eq!(yield_into(&mut slot, 20), Some(Misuse::MultipleYields));
    assert_slot(&slot, Next::Yield(10), Some(Misuse::MultipleYields));

    let mut slot = slot_of(Next::Completed, None);
    assert_eq!(yield_into(&mut slot, 10), Some(Misuse::YieldAfterCompletion));
    assert_slot(&slot, Next::Completed, Some(Misuse::YieldAfterCompletion));

    // The first misuse stays.
    let mut slot = slot_of(Next::Completed, Some(Misuse::ForeignAwait));
    assert_eq!(yield_into(&mut slot, 10), Some(Misuse::YieldAfterCompletion));
    assert_slot(&slot, Next::Completed, Some(Misuse::ForeignAwait));
}

#[test]
fn receive_takes_a_resume_argument_and_nothing_else() {
    let mut slot = slot_of(Next::Resume(7), None);
    assert_eq!(slot.receive(), Some(7));
    assert_slot(&slot, Next::Empty, None);
    assert_eq!(slot.receive(), None);
    assert_slot(&slot, Next::Empty, None);

    let mut slot = slot_of(Next::Yield(10), None);
    assert_eq!(slot.receive(), None);
    assert_slot(&slot, Next::Yield(10), None);

    let mut slot = slot_of(Next::Completed, Some(Misuse::YieldAfterCompletion));
    assert_eq!(slot.receive(), None);
    assert_slot(&slot, Next::Completed, Some(Misuse::YieldAfterCompletion));
}

#[test]
fn settle_after_a_pending_poll() {
    let mut slot = slot_of(Next::Yield(10), None);
    let out: Outcome = slot.settle(None);
    assert_eq!(out, Ok(GeneratorState::Yielded(10)));
    assert_slot(&slot, Next::Empty, None);

    // A recorded misuse goes first, and the value is dropped.
    let mut slot = slot_of(Next::Yield(10), Some(Misuse::MultipleYields));
    let out: Outcome = slot.settle(None);
    assert_eq!(out, Err(Misuse::MultipleYields));
    assert_slot(&slot, Next::Empty, Some(Misuse::MultipleYields));

    let mut slot = slot_of(Next::Resume(1), Some(Misuse::ForeignAwait));
    let out: Outcome = slot.settle(None);
    assert_eq!(out, Err(Misuse::ForeignAwait));
    assert_slot(&slot, Next::Empty, Some(Misuse::ForeignAwait));
}

#[test]
fn a_slot_is_stalled_when_a_pending_poll_left_nothing() {
    let pending: Option<&'static str> = None;
    let ready = Some("done");
    for next in [Next::Empty, Next::Resume(1), Next::Completed] {
        assert!(slot_of(next, None).is_stalled(&pending));
    }
    assert!(!slot_of(Next::Yield(10), None).is_stalled(&pending));
    assert!(!slot_of(Next::Empty, Some(Misuse::MultipleYields)).is_stalled(&pending));
    assert!(!slot_of(Next::Empty, None).is_stalled(&ready));
    assert!(!slot_of(Next::Resume(1), None).is_stalled(&ready));
}

#[test]
fn conclude_records_a_foreign_await_and_settles_the_rest() {
    // Nothing was yielded: the computation awaited something else.
    for next in [Next::Empty, Next::Resume(1), Next::Completed] {
        let mut slot = slot_of(next, None);
        let out: Outcome = conclude(&mut slot, None);
        assert_eq!(out, Err(Misuse::ForeignAwait));
        assert_slot(&slot, Next::Empty, Some(Misuse::ForeignAwait));
    }

    let mut slot = slot_of(Next::Yield(10), None);
    let out: Outcome = conclude(&mut slot, None);
    assert_eq!(out, Ok(GeneratorState::Yielded(10)));
    assert_slot(&slot, Next::Empty, None);

    let mut slot = slot_of(Next::Resume(1), None);
    let out: Outcome = conclude(&mut slot, Some("done"));
    assert_eq!(out, Ok(GeneratorState::Complete("done")));
    assert_slot(&slot, Next::Completed, None);

    let mut slot = slot_of(Next::Yield(10), Some(Misuse::MultipleYields));
    let out: Outcome = conclude(&mut slot, None);
    assert_eq!(out, Err(Misuse::MultipleYields));
    assert_slot(&slot, Next::Empty, Some(Misuse::MultipleYields));
}

#[test]
fn settle_after_a_ready_poll() {
    for next in [Next::Empty, Next::Resume(1), Next::Yield(10), Next::Completed] {
        let mut slot = slot_of(next, None);
        let out: Outcome = slot.settle(Some("done"));
        assert_eq!(out, Ok(GeneratorState::Complete("done")));
        assert_slot(&slot, Next::Completed, None);
    }

    let mut slot = slot_of(Next::Yield(10), Some(Misuse::MultipleYields));
    let out: Outcome = slot.settle(Some("done"));
    assert_eq!(out, Err(Misuse::MultipleYields));
    assert_slot(&slot, Next::Completed, Some(Misuse::MultipleYields));
}

#[test]
fn settle_async_lets_a_pending_computation_wait() {
    let mut slot = slot_of(Next::Yield(10), None);
    let out: Option<Outcome> = slot.settle_async(None);
    assert_eq!(out, Some(Ok(GeneratorState::Yielded(10))));
    assert_slot(&slot, Next::Empty, None);

    for next in [Next::Empty, Next::Resume(1), Next::Completed] {
        let mut slot = slot_of(next, None);
        let out: Option<Outcome> = slot.settle_async(None);
        assert_eq!(out, None);
        assert_slot(&slot, Next::Empty, None);
    }

    let mut slot = slot_of(Next::Resume(1), None);
    let out: Option<Outcome> = slot.settle_async(Some("done"));
    assert_eq!(out, Some(Ok(GeneratorState::Complete("done"))));
    assert_slot(&slot, Next::Completed, None);

    let mut slot = slot_of(Next::Empty, Some(Misuse::MultipleYields));
    let out: Option<Outcome> = slot.settle_async(None);
    assert_eq!(out, Some(Err(Misuse::MultipleYields)));
    assert_slot(&slot, Next::Empty, Some(Misuse::MultipleYields));

    let mut slot = slot_of(Next::Empty, Some(Misuse::MultipleYields));
    let out: Option<Outcome> = slot.settle_async(Some("done"));
    assert_eq!(out, Some(Err(Misuse::MultipleYields)));
    assert_slot(&slot, Next::Completed, Some(Misuse::MultipleYields));
}

/// The steps in the order in which a generator and a well-behaved computation take them:
/// two yields and a return, resumed with 1, 2 and 3.
#[test]
fn a_whole_life_step_by_step() {
    let mut slot: Slot<i32, u8> = Slot::new();

    slot.deposit(1);
    // First poll: the computation starts, and yields without looking for an argument.
    slot.offer(10);
    let out: Outcome = slot.settle(None);
    assert_eq!(out, Ok(GeneratorState::Yielded(10)));
    assert_slot(&slot, Next::Empty, None);

    slot.deposit(2);
    assert_eq!(slot.receive(), Some(2));
    slot.offer(20);
    let out: Outcome = slot.settle(None);
    assert_eq!(out, Ok(GeneratorState::Yielded(20)));
    assert_slot(&slot, Next::Empty, None);

    slot.deposit(3);
    assert_eq!(slot.receive(), Some(3));
    let out: Outcome = slot.settle(Some("done"));
    assert_eq!(out, Ok(GeneratorState::Complete("done")));
    assert_slot(&slot, Next::Completed, None);

    assert_eq!(yield_into(&mut slot, 30), Some(Misuse::YieldAfterCompletion));
    assert_slot(&slot, Next::Completed, Some(Misuse::YieldAfterCompletion));
}

#[test]
fn every_misuse_has_its_message() {
    assert_eq!(
        Misuse::MultipleYields.message(),
        "Multiple values were yielded without an intervening await. Make sure to immediately await the result of `Co::yield_`."
    );
    assert_eq!(
        Misuse::YieldAfterCompletion.message(),
        "`yield_` should not be used after the generator completes. The `Co` object should have been dropped by now."
    );
    assert_eq!(
        Misuse::ForeignAwait.message(),
        "An async generator was resumed via a non-async method. For async generators, use `Stream` or `async_resume` instead of `Iterator` or `resume`."
    );
    assert_eq!(
        Misuse::ResumedAfterCompletion.message(),
        "The generator was resumed after it had completed. Once `Complete` has been returned, do not resume again."
    );
}

#[test]
fn phase_refuses_all_but_an_active_generator() {
    assert_eq!(Phase::Active.check(), None);
    assert_eq!(Phase::Complete.check(), Some(Misuse::ResumedAfterCompletion));
    assert_eq!(Phase::Failed(Misuse::ForeignAwait).check(), Some(Misuse::ForeignAwait));
    assert_eq!(Phase::Failed(Misuse::MultipleYields).check(), Some(Misuse::MultipleYields));
}

#[test]
fn phase_follows_the_result_of_a_resumption() {
    let yielded: Outcome = Ok(GeneratorState::Yielded(1));
    let complete: Outcome = Ok(GeneratorState::Complete("done"));
    let failed: Outcome = Err(Misuse::ForeignAwait);

    let mut phase = Phase::Active;
    phase.record(&yielded);
    assert_eq!(phase, Phase::Active);
    phase.record(&complete);
    assert_eq!(phase, Phase::Complete);
    // A generator that is not active stays where it is.
    phase.record(&yielded);
    assert_eq!(phase, Phase::Complete);
    phase.record(&failed);
    assert_eq!(phase, Phase::Complete);

    let mut phase = Phase::Active;
    phase.record(&failed);
    assert_eq!(phase, Phase::Failed(Misuse::ForeignAwait));
    phase.record(&complete);
    assert_eq!(phase, Phase::Failed(Misuse::ForeignAwait));
}

#[test]
fn into_item_ends_the_sequence_on_completion() {
    assert_eq!(into_item(Ok(GeneratorState::Yielded(5))), Some(Ok(5)));
    assert_eq!(into_item::<i32>(Ok(GeneratorState::Complete(()))), None);
    assert_eq!(into_item::<i32>(Err(Misuse::ForeignAwait)), Some(Err(Misuse::ForeignAwait)));
}
