use amx::{ActivationState, Amx, AmxEmuCtx, NewAmxCtxError};

#[test]
fn second_activation_fails_until_release() {
    let mut state = ActivationState::new();

    assert_eq!(state.try_activate(), Ok(()));

    // a second activation on the same thread is refused and the
    // first context stays live
    assert_eq!(state.try_activate(), Err(NewAmxCtxError::AlreadyActive));
    assert_eq!(state.try_activate(), Err(NewAmxCtxError::AlreadyActive));

    // releasing the first context makes a retry succeed
    state.release();
    assert_eq!(state.try_activate(), Ok(()));
}

#[test]
fn independent_contexts_do_not_observe_each_other() {
    // each thread of execution owns its own flag and register files;
    // two independent contexts activate and work without interfering
    let mut state_a = ActivationState::new();
    let mut state_b = ActivationState::new();
    assert_eq!(state_a.try_activate(), Ok(()));
    assert_eq!(state_b.try_activate(), Ok(()));

    let mut ctx_a = AmxEmuCtx::new();
    let mut ctx_b = AmxEmuCtx::new();

    let pat_a = vec![0xaau8; 64];
    let pat_b = vec![0x55u8; 64];
    ctx_a.load512_x(&pat_a, 2);
    ctx_b.load512_x(&pat_b, 2);

    // each context's own round trip still holds
    let xa = ctx_a.read_x();
    let xb = ctx_b.read_x();
    assert_eq!(&xa[128..192], &pat_a[..]);
    assert_eq!(&xb[128..192], &pat_b[..]);

    state_a.release();
    // releasing one thread's context leaves the other live
    assert_eq!(state_b.try_activate(), Err(NewAmxCtxError::AlreadyActive));
    state_b.release();
}
