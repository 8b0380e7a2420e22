use wasmrs_wasmtime::init_protocol::{
    GuestExport, InitAction, InitEvent, InitFailure, InitPhase, InitState, MAX_HOST_FRAME_LEN,
};

fn run(host: u32, guest: u32, replies: &[InitEvent]) -> Vec<InitAction> {
    let (mut state, first) = InitState::new(host, guest);
    let mut actions = vec![first];
    for reply in replies {
        actions.push(state.step(*reply));
    }
    actions
}

#[test]
fn handshake_with_full_guest() {
    let actions = run(
        64,
        32,
        &[
            InitEvent::Looked { found: true },
            InitEvent::Returned { ok: true },
            InitEvent::Looked { found: true },
            InitEvent::Returned { ok: true },
            InitEvent::Recorded,
            InitEvent::Looked { found: true },
            InitEvent::Returned { ok: true },
        ],
    );
    assert_eq!(
        actions,
        vec![
            InitAction::LookUp(GuestExport::Start),
            InitAction::CallStart,
            InitAction::LookUp(GuestExport::Init),
            InitAction::CallInit { host_buffer_size: 64, guest_buffer_size: 32, max_host_frame_len: 128 },
            InitAction::RecordSizes { guest_buffer_size: 32, host_buffer_size: 64 },
            InitAction::LookUp(GuestExport::OpListRequest),
            InitAction::CallOpList,
            InitAction::Complete,
        ]
    );
    assert_eq!(MAX_HOST_FRAME_LEN, 128);
}

#[test]
fn handshake_without_start_or_op_list() {
    let actions = run(
        1024,
        2048,
        &[
            InitEvent::Looked { found: false },
            InitEvent::Looked { found: true },
            InitEvent::Returned { ok: true },
            InitEvent::Recorded,
            InitEvent::Looked { found: false },
        ],
    );
    assert_eq!(
        actions,
        vec![
            InitAction::LookUp(GuestExport::Start),
            InitAction::LookUp(GuestExport::Init),
            InitAction::CallInit { host_buffer_size: 1024, guest_buffer_size: 2048, max_host_frame_len: 128 },
            InitAction::RecordSizes { guest_buffer_size: 2048, host_buffer_size: 1024 },
            InitAction::LookUp(GuestExport::OpListRequest),
            InitAction::Complete,
        ]
    );
}

#[test]
fn handshake_fails_when_start_fails() {
    let actions = run(1, 2, &[InitEvent::Looked { found: true }, InitEvent::Returned { ok: false }]);
    assert_eq!(actions.last(), Some(&InitAction::Fail(InitFailure::StartFailed)));
}

#[test]
fn handshake_fails_without_init_export() {
    let (mut state, _) = InitState::new(1, 2);
    state.step(InitEvent::Looked { found: false });
    let action = state.step(InitEvent::Looked { found: false });
    assert_eq!(action, InitAction::Fail(InitFailure::GuestInitMissing));
    assert_eq!(state.phase, InitPhase::Finished);
}

#[test]
fn handshake_fails_when_init_fails() {
    let actions = run(
        1,
        2,
        &[InitEvent::Looked { found: false }, InitEvent::Looked { found: true }, InitEvent::Returned { ok: false }],
    );
    assert_eq!(actions.last(), Some(&InitAction::Fail(InitFailure::GuestInitFailed)));
    assert!(!actions.iter().any(|a| matches!(a, InitAction::RecordSizes { .. })));
}

#[test]
fn new_handshake_keeps_sizes() {
    let (state, action) = InitState::new(7, 9);
    assert_eq!(state, InitState { phase: InitPhase::FindStart, host_buffer_size: 7, guest_buffer_size: 9 });
    assert_eq!(action, InitAction::LookUp(GuestExport::Start));
}

#[test]
fn handshake_with_default_context_sizes() {
    let actions = run(
        64 * 1024,
        64 * 1024,
        &[InitEvent::Looked { found: false }, InitEvent::Looked { found: true }],
    );
    assert_eq!(
        actions.last(),
        Some(&InitAction::CallInit { host_buffer_size: 65536, guest_buffer_size: 65536, max_host_frame_len: 128 })
    );
}

#[test]
fn accepts_only_fitting_events() {
    let (mut state, _) = InitState::new(1, 2);
    assert!(state.accepts(InitEvent::Looked { found: true }));
    assert!(!state.accepts(InitEvent::Recorded));
    assert!(!state.accepts(InitEvent::Returned { ok: true }));
    state.step(InitEvent::Looked { found: false });
    state.step(InitEvent::Looked { found: true });
    state.step(InitEvent::Returned { ok: true });
    assert!(state.accepts(InitEvent::Recorded));
    state.step(InitEvent::Recorded);
    state.step(InitEvent::Looked { found: true });
    assert!(state.accepts(InitEvent::Returned { ok: true }));
    assert!(!state.accepts(InitEvent::Returned { ok: false }));
    state.step(InitEvent::Returned { ok: true });
    assert!(!state.accepts(InitEvent::Recorded));
}
