use llmalloc::{
    KeyAction, KeyEvent, KeyPhase, KeyState, LLThreadLocal, MAX_KEY, UNDER_INITIALIZATION,
    UNINITIALIZED,
};

#[test]
fn key_state_encoding() {
    assert_eq!(KeyState::Uninitialized.encode(), -1);
    assert_eq!(KeyState::UnderInitialization.encode(), -2);
    assert_eq!(KeyState::Initialized(7).encode(), 7);
    assert_eq!(KeyState::decode(UNINITIALIZED), KeyState::Uninitialized);
    assert_eq!(KeyState::decode(UNDER_INITIALIZATION), KeyState::UnderInitialization);
    assert_eq!(KeyState::decode(0), KeyState::Initialized(0));
    assert_eq!(KeyState::decode(MAX_KEY), KeyState::Initialized(u32::MAX));
    for s in [KeyState::Uninitialized, KeyState::UnderInitialization, KeyState::Initialized(42)] {
        assert_eq!(KeyState::decode(s.encode()), s);
    }
}

#[test]
fn readable_key_only_when_initialized() {
    assert_eq!(KeyState::Uninitialized.readable_key(), None);
    assert_eq!(KeyState::UnderInitialization.readable_key(), None);
    assert_eq!(KeyState::Initialized(3).readable_key(), Some(3));
}

#[test]
fn phase_actions() {
    assert_eq!(KeyPhase::Start.action(), KeyAction::Load);
    assert_eq!(KeyPhase::Claiming.action(), KeyAction::Claim);
    assert_eq!(KeyPhase::Creating.action(), KeyAction::CreateKey);
    assert_eq!(KeyPhase::Publishing(4).action(), KeyAction::Store(4));
    assert_eq!(KeyPhase::Waiting.action(), KeyAction::YieldThenLoad);
    assert_eq!(KeyPhase::Ready(4).action(), KeyAction::Use(4));
    assert_eq!(KeyPhase::Failed(12).action(), KeyAction::Abort(12));
}

#[test]
fn phase_transitions() {
    let p = KeyPhase::Start;
    assert_eq!(p.next(KeyEvent::Loaded(KeyState::Initialized(9))), KeyPhase::Ready(9));
    assert_eq!(p.next(KeyEvent::Loaded(KeyState::Uninitialized)), KeyPhase::Claiming);
    assert_eq!(p.next(KeyEvent::Loaded(KeyState::UnderInitialization)), KeyPhase::Claiming);
    assert_eq!(KeyPhase::Claiming.next(KeyEvent::Claimed(true)), KeyPhase::Creating);
    assert_eq!(KeyPhase::Claiming.next(KeyEvent::Claimed(false)), KeyPhase::Waiting);
    assert_eq!(KeyPhase::Creating.next(KeyEvent::Created(0, 5)), KeyPhase::Publishing(5));
    assert_eq!(KeyPhase::Creating.next(KeyEvent::Created(11, 0)), KeyPhase::Failed(11));
    assert_eq!(KeyPhase::Publishing(5).next(KeyEvent::Published), KeyPhase::Ready(5));
    assert_eq!(
        KeyPhase::Waiting.next(KeyEvent::Loaded(KeyState::UnderInitialization)),
        KeyPhase::Waiting
    );
    assert_eq!(
        KeyPhase::Waiting.next(KeyEvent::Loaded(KeyState::Initialized(5))),
        KeyPhase::Ready(5)
    );
    assert_eq!(KeyPhase::Ready(5).next(KeyEvent::Created(0, 6)), KeyPhase::Ready(5));
}

#[test]
fn slot_starts_without_key() {
    let slot: LLThreadLocal<u64> = LLThreadLocal::new(0x1000);
    assert_eq!(slot.destructor(), 0x1000);
    assert_eq!(slot.key_state(), KeyState::Uninitialized);
    assert_eq!(slot.get_key(), None);
}

#[test]
fn slot_key_created_once() {
    let slot: LLThreadLocal<u64> = LLThreadLocal::new(0);
    // First thread: claims and creates the key.
    let a = slot.advance(KeyPhase::Start);
    assert_eq!(a, KeyPhase::Claiming);
    let a = slot.advance(a);
    assert_eq!(a, KeyPhase::Creating);
    assert_eq!(slot.key_state(), KeyState::UnderInitialization);
    assert_eq!(slot.get_key(), None);
    // Second thread, racing in: loses the claim and waits.
    let b = slot.advance(KeyPhase::Start);
    assert_eq!(b, KeyPhase::Claiming);
    let b = slot.advance(b);
    assert_eq!(b, KeyPhase::Waiting);
    let b = slot.advance(b);
    assert_eq!(b, KeyPhase::Waiting);
    // The winner publishes.
    let a = slot.advance(a.next(KeyEvent::Created(0, 17)));
    assert_eq!(a, KeyPhase::Ready(17));
    let b = slot.advance(b);
    assert_eq!(b, KeyPhase::Ready(17));
    // A late thread reads the key at once.
    assert_eq!(slot.advance(KeyPhase::Start), KeyPhase::Ready(17));
    assert_eq!(slot.get_key(), Some(17));
    // Final phases are left alone.
    assert_eq!(slot.advance(KeyPhase::Ready(17)), KeyPhase::Ready(17));
    assert_eq!(slot.advance(KeyPhase::Creating), KeyPhase::Creating);
}
