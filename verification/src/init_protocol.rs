//! The initialization handshake between a host and a wasmRS guest, as a
//! state machine: the host performs each action against the guest instance and
//! hands back what happened as the next event.
use vstd::prelude::*;

verus! {

/// The guest's frame length limit that the host announces at initialization.
pub const MAX_HOST_FRAME_LEN: u32 = 128;

/// Exports of the guest that the handshake looks up.
#[derive(Debug, Clone, Copy, PartialEq, Eq, Structural)]
pub enum GuestExport {
    /// The TinyGo `_start` function, called first when present.
    Start,
    /// The wasmRS initialization function.
    Init,
    /// The function that makes the guest report its operation list.
    OpListRequest,
}

/// Why initialization failed.
#[derive(Debug, Clone, Copy, PartialEq, Eq, Structural)]
pub enum InitFailure {
    /// The guest's `_start` function returned an error.
    StartFailed,
    /// The guest has no wasmRS initialization export.
    GuestInitMissing,
    /// The guest's initialization function returned an error.
    GuestInitFailed,
}

/// Where the handshake stands.
#[derive(Debug, Clone, Copy, PartialEq, Eq, Structural)]
pub enum InitPhase {
    /// Waiting to learn whether the guest exports `_start`.
    FindStart,
    /// `_start` was called; waiting for it to return.
    RunStart,
    /// Waiting to learn whether the guest exports its initialization function.
    FindInit,
    /// The initialization function was called; waiting for it to return.
    RunInit,
    /// The buffer sizes are being recorded.
    RecordSizes,
    /// Waiting to learn whether the guest exports the operation list request.
    FindOpList,
    /// The operation list request was called; waiting for it to return.
    RunOpList,
    /// The handshake is over.
    Finished,
}

/// What the host did and how it went.
#[derive(Debug, Clone, Copy, PartialEq, Eq, Structural)]
pub enum InitEvent {
    /// The requested export was looked up; `found` tells whether it exists.
    Looked { found: bool },
    /// The requested guest function returned; `ok` tells whether it succeeded.
    Returned { ok: bool },
    /// The buffer sizes were recorded.
    Recorded,
}

/// What the host must do next.
#[derive(Debug, Clone, Copy, PartialEq, Eq, Structural)]
pub enum InitAction {
    /// Look up a guest export.
    LookUp(GuestExport),
    /// Call the guest's `_start` function.
    CallStart,
    /// Call the guest's initialization function with these arguments.
    CallInit { host_buffer_size: u32, guest_buffer_size: u32, max_host_frame_len: u32 },
    /// Record the sizes of the guest's and the host's buffers.
    RecordSizes { guest_buffer_size: u32, host_buffer_size: u32 },
    /// Call the guest's operation list request.
    CallOpList,
    /// The handshake is over: the guest is ready.
    Complete,
    /// The handshake is over: the guest could not be initialized.
    Fail(InitFailure),
}

/// The state of one initialization handshake.
#[derive(Debug, Clone, Copy, PartialEq, Eq, Structural)]
pub struct InitState {
    pub phase: InitPhase,
    pub host_buffer_size: u32,
    pub guest_buffer_size: u32,
}

/// Whether `event` answers the action that was last taken in `phase`.
/// A failing operation list request is no answer: the host does not go on
/// from it.
pub open spec fn event_fits(phase: InitPhase, event: InitEvent) -> bool {
    match phase {
        InitPhase::FindStart | InitPhase::FindInit | InitPhase::FindOpList => event is Looked,
        InitPhase::RunStart | InitPhase::RunInit => event is Returned,
        InitPhase::RunOpList => event == InitEvent::Returned { ok: true },
        InitPhase::RecordSizes => event is Recorded,
        InitPhase::Finished => false,
    }
}

/// The next phase and action of the handshake.
pub open spec fn spec_step(s: InitState, event: InitEvent) -> (InitState, InitAction) {
    let to = |phase: InitPhase| InitState { phase, ..s };
    match (s.phase, event) {
        (InitPhase::FindStart, InitEvent::Looked { found: true }) => (
            to(InitPhase::RunStart),
            InitAction::CallStart,
        ),
        (InitPhase::FindStart, InitEvent::Looked { found: false }) => (
            to(InitPhase::FindInit),
            InitAction::LookUp(GuestExport::Init),
        ),
        (InitPhase::RunStart, InitEvent::Returned { ok: true }) => (
            to(InitPhase::FindInit),
            InitAction::LookUp(GuestExport::Init),
        ),
        (InitPhase::RunStart, InitEvent::Returned { ok: false }) => (
            to(InitPhase::Finished),
            InitAction::Fail((InitFailure::StartFailed)),
        ),
        (InitPhase::FindInit, InitEvent::Looked { found: true }) => (
            to(InitPhase::RunInit),
            InitAction::CallInit {
                host_buffer_size: s.host_buffer_size,
                guest_buffer_size: s.guest_buffer_size,
                max_host_frame_len: MAX_HOST_FRAME_LEN,
            },
        ),
        (InitPhase::FindInit, InitEvent::Looked { found: false }) => (
            to(InitPhase::Finished),
            InitAction::Fail((InitFailure::GuestInitMissing)),
        ),
        (InitPhase::RunInit, InitEvent::Returned { ok: true }) => (
            to(InitPhase::RecordSizes),
            InitAction::RecordSizes {
                guest_buffer_size: s.guest_buffer_size,
                host_buffer_size: s.host_buffer_size,
            },
        ),
        (InitPhase::RunInit, InitEvent::Returned { ok: false }) => (
            to(InitPhase::Finished),
            InitAction::Fail((InitFailure::GuestInitFailed)),
        ),
        (InitPhase::RecordSizes, _) => (
            to(InitPhase::FindOpList),
            InitAction::LookUp(GuestExport::OpListRequest),
        ),
        (InitPhase::FindOpList, InitEvent::Looked { found: true }) => (
            to(InitPhase::RunOpList),
            InitAction::CallOpList,
        ),
        (_, _) => (to(InitPhase::Finished), InitAction::Complete),
    }
}

impl InitState {
    /// Starts a handshake for buffers of the given sizes; the first action is
    /// to look up the guest's `_start` export.
    pub fn new(host_buffer_size: u32, guest_buffer_size: u32) -> (res: (InitState, InitAction))
        ensures
            res.0 == (InitState { phase: InitPhase::FindStart, host_buffer_size, guest_buffer_size }),
            res.1 == InitAction::LookUp(GuestExport::Start),
    {
        (
            InitState { phase: InitPhase::FindStart, host_buffer_size, guest_buffer_size },
            InitAction::LookUp(GuestExport::Start),
        )
    }

    /// Whether `event` answers the action that was last taken.
    pub fn accepts(&self, event: InitEvent) -> (res: bool)
        ensures
            res == event_fits(self.phase, event),
    {
        match self.phase {
            InitPhase::FindStart | InitPhase::FindInit | InitPhase::FindOpList => match event {
                InitEvent::Looked { .. } => true,
                _ => false,
            },
            InitPhase::RunStart | InitPhase::RunInit => match event {
                InitEvent::Returned { .. } => true,
                _ => false,
            },
            InitPhase::RunOpList => match event {
                InitEvent::Returned { ok } => ok,
                _ => false,
            },
            InitPhase::RecordSizes => match event {
                InitEvent::Recorded => true,
                _ => false,
            },
            InitPhase::Finished => false,
        }
    }

    /// Takes the outcome of the last action and gives the next one.
    pub fn step(&mut self, event: InitEvent) -> (action: InitAction)
        requires
            event_fits(old(self).phase, event),
        ensures
            (*final(self), action) == spec_step(*old(self), event),
    {
        let (phase, action) = match (self.phase, event) {
            (InitPhase::FindStart, InitEvent::Looked { found: true }) => (
                InitPhase::RunStart,
                InitAction::CallStart,
            ),
            (InitPhase::FindStart, InitEvent::Looked { found: false }) => (
                InitPhase::FindInit,
                InitAction::LookUp(GuestExport::Init),
            ),
            (InitPhase::RunStart, InitEvent::Returned { ok: true }) => (
                InitPhase::FindInit,
                InitAction::LookUp(GuestExport::Init),
            ),
            (InitPhase::RunStart, InitEvent::Returned { ok: false }) => (
                InitPhase::Finished,
                InitAction::Fail((InitFailure::StartFailed)),
            ),
            (InitPhase::FindInit, InitEvent::Looked { found: true }) => (
                InitPhase::RunInit,
                InitAction::CallInit {
                    host_buffer_size: self.host_buffer_size,
                    guest_buffer_size: self.guest_buffer_size,
                    max_host_frame_len: MAX_HOST_FRAME_LEN,
                },
            ),
            (InitPhase::FindInit, InitEvent::Looked { found: false }) => (
                InitPhase::Finished,
                InitAction::Fail((InitFailure::GuestInitMissing)),
            ),
            (InitPhase::RunInit, InitEvent::Returned { ok: true }) => (
                InitPhase::RecordSizes,
                InitAction::RecordSizes {
                    guest_buffer_size: self.guest_buffer_size,
                    host_buffer_size: self.host_buffer_size,
                },
            ),
            (InitPhase::RunInit, InitEvent::Returned { ok: false }) => (
                InitPhase::Finished,
                InitAction::Fail((InitFailure::GuestInitFailed)),
            ),
            (InitPhase::RecordSizes, _) => (
                InitPhase::FindOpList,
                InitAction::LookUp(GuestExport::OpListRequest),
            ),
            (InitPhase::FindOpList, InitEvent::Looked { found: true }) => (
                InitPhase::RunOpList,
                InitAction::CallOpList,
            ),
            (_, _) => (InitPhase::Finished, InitAction::Complete),
        };
        self.phase = phase;
        action
    }
}


/// How far along a phase lies in the handshake.
pub open spec fn phase_rank(phase: InitPhase) -> int {
    match phase {
        InitPhase::FindStart => 0,
        InitPhase::RunStart => 1,
        InitPhase::FindInit => 2,
        InitPhase::RunInit => 3,
        InitPhase::RecordSizes => 4,
        InitPhase::FindOpList => 5,
        InitPhase::RunOpList => 6,
        InitPhase::Finished => 7,
    }
}

/// Every step moves the handshake forward and keeps the buffer sizes it was
/// started with; an action that ends the handshake leaves it finished.
pub proof fn law_step_progresses(s: InitState, event: InitEvent)
    requires
        event_fits(s.phase, event),
    ensures
        phase_rank(spec_step(s, event).0.phase) > phase_rank(s.phase),
        spec_step(s, event).0.host_buffer_size == s.host_buffer_size,
        spec_step(s, event).0.guest_buffer_size == s.guest_buffer_size,
        (spec_step(s, event).1 is Complete || spec_step(s, event).1 is Fail) <==> spec_step(
            s,
            event,
        ).0.phase == InitPhase::Finished,
{
}

/// What a guest exports and how its functions behave during the handshake.
pub struct GuestProfile {
    pub has_start: bool,
    pub start_ok: bool,
    pub has_init: bool,
    pub init_ok: bool,
    pub has_op_list: bool,
}

/// The event a guest with profile `p` produces for `action`.
pub open spec fn guest_reply(p: GuestProfile, action: InitAction) -> InitEvent {
    match action {
        InitAction::LookUp(GuestExport::Start) => InitEvent::Looked { found: p.has_start },
        InitAction::LookUp(GuestExport::Init) => InitEvent::Looked { found: p.has_init },
        InitAction::LookUp(GuestExport::OpListRequest) => InitEvent::Looked { found: p.has_op_list },
        InitAction::CallStart => InitEvent::Returned { ok: p.start_ok },
        InitAction::CallInit { .. } => InitEvent::Returned { ok: p.init_ok },
        InitAction::RecordSizes { .. } => InitEvent::Recorded,
        _ => InitEvent::Returned { ok: true },
    }
}

/// The actions taken from state `s` and pending action `action` on, with a
/// guest of profile `p`, for at most `fuel` steps.
pub open spec fn handshake_trace(s: InitState, action: InitAction, p: GuestProfile, fuel: nat) -> Seq<
    InitAction,
>
    decreases fuel,
{
    if fuel == 0 || action is Complete || action is Fail {
        seq![action]
    } else {
        let (next, next_action) = spec_step(s, guest_reply(p, action));
        seq![action] + handshake_trace(next, next_action, p, (fuel - 1) as nat)
    }
}

/// The whole handshake with a guest of profile `p`, from the first action on.
pub open spec fn spec_handshake(host_buffer_size: u32, guest_buffer_size: u32, p: GuestProfile) -> Seq<
    InitAction,
> {
    handshake_trace(
        InitState { phase: InitPhase::FindStart, host_buffer_size, guest_buffer_size },
        InitAction::LookUp(GuestExport::Start),
        p,
        8,
    )
}

/// The handshake with any guest ends, and it succeeds exactly when the guest's
/// `_start` (if it has one) succeeds and it has an initialization function
/// that succeeds. The initialization function is called with the host's and
/// the guest's buffer sizes and the frame limit exactly when `_start` went
/// well and the function exists; the buffer sizes are recorded exactly when it
/// succeeded.
pub proof fn law_handshake(host_buffer_size: u32, guest_buffer_size: u32, p: GuestProfile)
    ensures
        ({
            let trace = spec_handshake(host_buffer_size, guest_buffer_size, p);
            let start_done = !p.has_start || p.start_ok;
            &&& trace.last() is Complete || trace.last() is Fail
            &&& (trace.last() is Complete <==> start_done && p.has_init && p.init_ok)
            &&& (trace.contains(
                InitAction::CallInit {
                    host_buffer_size,
                    guest_buffer_size,
                    max_host_frame_len: MAX_HOST_FRAME_LEN,
                },
            ) <==> start_done && p.has_init)
            &&& (trace.contains(InitAction::RecordSizes { guest_buffer_size, host_buffer_size })
                <==> start_done && p.has_init && p.init_ok)
            &&& (trace.contains(InitAction::CallOpList) <==> start_done && p.has_init && p.init_ok
                && p.has_op_list)
        }),
{
    reveal_with_fuel(handshake_trace, 9);
    let trace = spec_handshake(host_buffer_size, guest_buffer_size, p);
    let call_init = InitAction::CallInit {
        host_buffer_size,
        guest_buffer_size,
        max_host_frame_len: MAX_HOST_FRAME_LEN,
    };
    let record = InitAction::RecordSizes { guest_buffer_size, host_buffer_size };
    assert(trace.len() <= 8);
    if trace.contains(call_init) {
        let k = choose|k: int| 0 <= k < trace.len() && trace[k] == call_init;
    }
    if trace.contains(record) {
        let k = choose|k: int| 0 <= k < trace.len() && trace[k] == record;
    }
    if trace.contains(InitAction::CallOpList) {
        let k = choose|k: int| 0 <= k < trace.len() && trace[k] == InitAction::CallOpList;
    }
    if !p.has_start || p.start_ok {
        if p.has_init {
            assert(trace[if p.has_start { 3int } else { 2 }] == call_init);
            if p.init_ok {
                assert(trace[if p.has_start { 4int } else { 3 }] == record);
                if p.has_op_list {
                    assert(trace[if p.has_start { 6int } else { 5 }] == InitAction::CallOpList);
                }
            }
        }
    }
}

} // verus!
