//! The cross-thread synchronization core: a pair of one-directional message
//! channels connecting the OS event thread to a long-lived user-logic
//! thread, driving a strict request/response protocol for render-data
//! preparation and shutdown acknowledgement.
//!
//! The protocol is a three-state machine per run: `Idle` (no exchange in
//! progress), `RenderPending` (a render-data request was sent, awaiting the
//! response) and `ClosePending` (a close notification was sent, awaiting
//! the acknowledgement).  The machine's transitions are stated as a spec
//! function, each step of the two waiting exchanges is verified against
//! it, and the laws at the end of this module pin down the protocol's
//! guarantees for arbitrary interleavings of events.

use vstd::prelude::*;

use crate::backend::create_channel;
use crate::backend::recv_message;
use crate::backend::send_message;
use crate::rendering::AnalogAxisEventArgs;
use crate::rendering::KeyPressEventArgs;
use crate::rendering::MousePressEventArgs;
use crate::rendering::MouseScrollEventArgs;
use crate::rendering::Presenter;
use crate::rendering::RenderHelper;
use crate::CursorPosition;
use crate::EventPayloads;
use crate::HeatwaveApp;
use crate::UserEvent;
use crate::WindowEvent;

verus! {

// ---------------------------------------------------------------------------
// The protocol state machine.
// ---------------------------------------------------------------------------

/// The OS thread's protocol state for one run invocation.
#[derive(Clone, Copy, PartialEq, Eq, Debug, Structural)]
pub enum BridgeState {
    /// No exchange is in progress.
    Idle,
    /// A render-data request was sent to the user thread; the OS thread is
    /// blocked until the response arrives.
    RenderPending,
    /// A close notification was sent to the user thread; the OS thread is
    /// blocked until the acknowledgement arrives or the channel closes.
    ClosePending,
    /// The channel closed while render data was owed: no further frame can
    /// ever be produced, which is fatal.
    Failed,
    /// The run loop has exited.
    Terminal,
}

/// One input to the protocol machine, as the OS thread observes it.
pub enum ProtocolInput<R> {
    /// The OS reported a redraw request.
    OsRedraw,
    /// The OS reported a close request.
    OsClose,
    /// Any other OS event; forwarded to the user thread without blocking.
    OsOrdinary,
    /// A message from the user thread.
    UserMessage(UserEvent<R>),
    /// The user thread's channel disconnected.
    Disconnected,
}

/// The machine's transition function.
///
/// While waiting, a message of the wrong kind is a protocol violation:
/// it is discarded and the machine keeps waiting.  A disconnect while
/// render data is owed is fatal; a disconnect while a close
/// acknowledgement is owed is tolerated and shutdown proceeds.
pub open spec fn protocol_step<R>(s: BridgeState, input: ProtocolInput<R>) -> BridgeState {
    match s {
        BridgeState::Idle => match input {
            ProtocolInput::OsRedraw => BridgeState::RenderPending,
            ProtocolInput::OsClose => BridgeState::ClosePending,
            _ => BridgeState::Idle,
        },
        BridgeState::RenderPending => match input {
            ProtocolInput::UserMessage(m) => if m is RenderDataPrepared {
                BridgeState::Idle
            } else {
                BridgeState::RenderPending
            },
            ProtocolInput::Disconnected => BridgeState::Failed,
            _ => BridgeState::RenderPending,
        },
        BridgeState::ClosePending => match input {
            ProtocolInput::UserMessage(m) => if m is ReadyToClose {
                BridgeState::Terminal
            } else {
                BridgeState::ClosePending
            },
            ProtocolInput::Disconnected => BridgeState::Terminal,
            _ => BridgeState::ClosePending,
        },
        BridgeState::Failed => BridgeState::Failed,
        BridgeState::Terminal => BridgeState::Terminal,
    }
}

/// Whether this step hands render data to the render callback: only a
/// render-data response consumed while render data is owed does.
pub open spec fn emits_render<R>(s: BridgeState, input: ProtocolInput<R>) -> bool {
    s is RenderPending && (input matches ProtocolInput::UserMessage(m) && m is RenderDataPrepared)
}

/// Whether this input completes a pending shutdown: the acknowledgement,
/// or the tolerated disconnect.
pub open spec fn closes_protocol<R>(input: ProtocolInput<R>) -> bool {
    ||| input matches ProtocolInput::UserMessage(m) && m is ReadyToClose
    ||| input is Disconnected
}

/// The state after processing a whole sequence of inputs.
pub open spec fn run_protocol<R>(s: BridgeState, inputs: Seq<ProtocolInput<R>>) -> BridgeState
    decreases inputs.len(),
{
    if inputs.len() == 0 {
        s
    } else {
        run_protocol(protocol_step(s, inputs[0]), inputs.drop_first())
    }
}

/// How many times the render callback is invoked while processing the
/// inputs.
pub open spec fn render_count<R>(s: BridgeState, inputs: Seq<ProtocolInput<R>>) -> nat
    decreases inputs.len(),
{
    if inputs.len() == 0 {
        0
    } else {
        (if emits_render(s, inputs[0]) {
            1nat
        } else {
            0nat
        }) + render_count(protocol_step(s, inputs[0]), inputs.drop_first())
    }
}

/// How many redraw requests the inputs hold.
pub open spec fn redraw_count<R>(inputs: Seq<ProtocolInput<R>>) -> nat
    decreases inputs.len(),
{
    if inputs.len() == 0 {
        0
    } else {
        (if inputs[0] is OsRedraw {
            1nat
        } else {
            0nat
        }) + redraw_count(inputs.drop_first())
    }
}

// ---------------------------------------------------------------------------
// Facts about runs.
// ---------------------------------------------------------------------------

/// A run over one input is one step.
proof fn lemma_run_singleton<R>(s: BridgeState, x: ProtocolInput<R>)
    ensures
        run_protocol(s, seq![x]) == protocol_step(s, x),
        render_count(s, seq![x]) == (if emits_render(s, x) {
            1nat
        } else {
            0nat
        }),
{
    assert(seq![x].drop_first() =~= Seq::<ProtocolInput<R>>::empty());
    assert(run_protocol(protocol_step(s, x), Seq::<ProtocolInput<R>>::empty()) == protocol_step(
        s,
        x,
    ));
    assert(render_count(protocol_step(s, x), Seq::<ProtocolInput<R>>::empty()) == 0);
}

/// A run over concatenated inputs is the run over the first part followed
/// by the run over the second, and the renders add up.
pub proof fn lemma_run_concat<R>(
    s: BridgeState,
    a: Seq<ProtocolInput<R>>,
    b: Seq<ProtocolInput<R>>,
)
    ensures
        run_protocol(s, a + b) == run_protocol(run_protocol(s, a), b),
        render_count(s, a + b) == render_count(s, a) + render_count(run_protocol(s, a), b),
    decreases a.len(),
{
    if a.len() == 0 {
        assert(a + b =~= b);
    } else {
        assert((a + b)[0] == a[0]);
        assert((a + b).drop_first() =~= a.drop_first() + b);
        lemma_run_concat(protocol_step(s, a[0]), a.drop_first(), b);
    }
}

/// Ordinary events are forwarded without blocking and never move the
/// machine or reach the render callback, whatever state it is in.
pub proof fn lemma_ordinary_events_preserve_state<R>(
    s: BridgeState,
    inputs: Seq<ProtocolInput<R>>,
)
    requires
        forall|i: int| 0 <= i < inputs.len() ==> inputs[i] is OsOrdinary,
    ensures
        run_protocol(s, inputs) == s,
        render_count(s, inputs) == 0,
    decreases inputs.len(),
{
    if inputs.len() > 0 {
        lemma_ordinary_events_preserve_state(protocol_step(s, inputs[0]), inputs.drop_first());
    }
}

/// While render data is owed, messages of the wrong kind are discarded:
/// the machine keeps waiting and nothing reaches the render callback.
pub proof fn lemma_violations_keep_waiting<R>(inputs: Seq<ProtocolInput<R>>)
    requires
        forall|i: int| 0 <= i < inputs.len() ==> ((#[trigger] inputs[i]) matches
            ProtocolInput::UserMessage(m) && !(m is RenderDataPrepared)),
    ensures
        run_protocol(BridgeState::RenderPending, inputs) == BridgeState::RenderPending,
        render_count(BridgeState::RenderPending, inputs) == 0,
    decreases inputs.len(),
{
    if inputs.len() > 0 {
        lemma_violations_keep_waiting(inputs.drop_first());
    }
}

// ---------------------------------------------------------------------------
// The channel pair and the exchange steps.
// ---------------------------------------------------------------------------

/// The OS thread's two channel ends: events out to the user thread,
/// responses back from it.
#[verifier::reject_recursive_types(V)]
#[verifier::reject_recursive_types(R)]
pub struct FrameBridge<V: EventPayloads, R> {
    to_user: std::sync::mpsc::Sender<WindowEvent<V>>,
    from_user: std::sync::mpsc::Receiver<UserEvent<R>>,
}

/// The user thread's two channel ends: events in from the OS thread,
/// responses back to it.
#[verifier::reject_recursive_types(V)]
#[verifier::reject_recursive_types(R)]
pub struct UserBridge<V: EventPayloads, R> {
    pub(crate) from_os: std::sync::mpsc::Receiver<WindowEvent<V>>,
    pub(crate) to_os: std::sync::mpsc::Sender<UserEvent<R>>,
}

/// Creates the bridge for one run invocation: two fresh one-directional,
/// ordered, unbounded queues, one end pair per thread.
pub fn create_bridge<V: EventPayloads, R>() -> (FrameBridge<V, R>, UserBridge<V, R>) {
    let (to_user, from_os) = create_channel::<WindowEvent<V>>();
    let (to_os, from_user) = create_channel::<UserEvent<R>>();
    (FrameBridge { to_user, from_user }, UserBridge { from_os, to_os })
}

/// One observation of the response channel while render data is owed.
#[derive(Clone, Copy, PartialEq, Eq, Debug)]
pub enum RenderWait<R> {
    /// The render-data response arrived; the exchange is complete.
    Ready(R),
    /// A message of the wrong kind arrived: a protocol violation, to be
    /// discarded while the wait goes on.
    Violation,
    /// The channel disconnected while render data was owed.  No further
    /// frame can ever be produced: fatal.
    Disconnected,
}

/// One observation of the response channel while a close acknowledgement
/// is owed.
#[derive(Clone, Copy, PartialEq, Eq, Debug)]
pub enum CloseWait {
    /// The ready-to-close acknowledgement arrived; shutdown may complete.
    Acknowledged,
    /// A message of the wrong kind arrived: a protocol violation, to be
    /// discarded while the wait goes on.
    Violation,
    /// The channel disconnected while waiting.  Tolerated: shutdown
    /// proceeds regardless, as an improper exit.
    Disconnected,
}

/// The protocol input that one observation of the response channel stands
/// for: the received message, or the disconnect.
pub open spec fn wait_input<R>(msg: Option<UserEvent<R>>) -> ProtocolInput<R> {
    match msg {
        Some(m) => ProtocolInput::UserMessage(m),
        None => ProtocolInput::Disconnected,
    }
}

/// What one received message means while render data is owed, as a spec
/// value: the response completes the exchange, any other message is a
/// violation to discard, and a disconnect is fatal.
pub open spec fn spec_render_wait<R>(msg: Option<UserEvent<R>>) -> RenderWait<R> {
    match msg {
        Some(UserEvent::RenderDataPrepared(data)) => RenderWait::Ready(data),
        Some(UserEvent::ReadyToClose) => RenderWait::Violation,
        None => RenderWait::Disconnected,
    }
}

/// What one received message means while a close acknowledgement is owed,
/// as a spec value: the acknowledgement completes shutdown, any other
/// message is a violation to discard, and a disconnect is a tolerated
/// improper exit.
pub open spec fn spec_close_wait<R>(msg: Option<UserEvent<R>>) -> CloseWait {
    match msg {
        Some(UserEvent::ReadyToClose) => CloseWait::Acknowledged,
        Some(UserEvent::RenderDataPrepared(_)) => CloseWait::Violation,
        None => CloseWait::Disconnected,
    }
}

/// What one received message means while render data is owed, exactly as
/// `spec_render_wait` states.  Each case is exactly one transition of the
/// protocol machine out of `RenderPending`, and the exchange hands data to
/// the render callback exactly when the machine emits a render.
pub fn classify_render_wait<R>(msg: Option<UserEvent<R>>) -> (w: RenderWait<R>)
    ensures
        w == spec_render_wait(msg),
        match w {
            RenderWait::Ready(_) => protocol_step(BridgeState::RenderPending, wait_input(msg))
                is Idle,
            RenderWait::Violation => protocol_step(BridgeState::RenderPending, wait_input(msg))
                is RenderPending,
            RenderWait::Disconnected => protocol_step(BridgeState::RenderPending, wait_input(msg))
                is Failed,
        },
        w is Ready <==> emits_render(BridgeState::RenderPending, wait_input(msg)),
{
    match msg {
        Some(UserEvent::RenderDataPrepared(data)) => RenderWait::Ready(data),
        Some(UserEvent::ReadyToClose) => RenderWait::Violation,
        None => RenderWait::Disconnected,
    }
}

/// What one received message means while a close acknowledgement is owed,
/// exactly as `spec_close_wait` states.  Each case is exactly one
/// transition of the protocol machine out of `ClosePending`: shutdown
/// completes, and the machine leaves `ClosePending`, exactly on the
/// acknowledgement or the disconnect.
pub fn classify_close_wait<R>(msg: Option<UserEvent<R>>) -> (w: CloseWait)
    ensures
        w == spec_close_wait(msg),
        match w {
            CloseWait::Acknowledged => protocol_step(BridgeState::ClosePending, wait_input(msg))
                is Terminal,
            CloseWait::Violation => protocol_step(BridgeState::ClosePending, wait_input(msg))
                is ClosePending,
            CloseWait::Disconnected => protocol_step(BridgeState::ClosePending, wait_input(msg))
                is Terminal,
        },
        !(w is Violation) <==> closes_protocol(wait_input(msg)),
{
    match msg {
        Some(UserEvent::ReadyToClose) => CloseWait::Acknowledged,
        Some(UserEvent::RenderDataPrepared(_)) => CloseWait::Violation,
        None => CloseWait::Disconnected,
    }
}

/// The synthetic render-data request the dispatcher injects to open a
/// render exchange; it never originates from the OS.
pub fn render_request_event<V: EventPayloads>() -> (e: WindowEvent<V>)
    ensures
        e is RequestRenderData,
{
    WindowEvent::RequestRenderData
}

/// The close notification the dispatcher sends to open the shutdown
/// exchange.
pub fn close_notification_event<V: EventPayloads>() -> (e: WindowEvent<V>)
    ensures
        e is CloseRequested,
{
    WindowEvent::CloseRequested
}

impl<V: EventPayloads, R> FrameBridge<V, R> {
    /// Forwards an ordinary event to the user thread, fire-and-forget.
    /// `false` means the user thread is gone.
    pub fn forward(&self, event: WindowEvent<V>) -> (alive: bool) {
        send_message(&self.to_user, event)
    }

    /// Opens a render exchange: sends the synthetic render-data request of
    /// `render_request_event` to the user thread.  The dispatcher must
    /// then poll the response channel until the wait resolves.  `false`
    /// means the user thread is gone.
    pub fn send_render_request(&self) -> (alive: bool) {
        send_message(&self.to_user, render_request_event())
    }

    /// Opens the shutdown exchange: sends the close notification of
    /// `close_notification_event` to the user thread.  `false` means the
    /// user thread is gone.
    pub fn send_close_notification(&self) -> (alive: bool) {
        send_message(&self.to_user, close_notification_event())
    }

    /// Blocks for one message of a pending render exchange and says what
    /// it means.  Which message arrives depends on the user thread; every
    /// outcome classifies some received message exactly as
    /// `spec_render_wait` states, so each case is one transition of the
    /// protocol machine out of `RenderPending`.
    pub fn poll_render_response(&self) -> (w: RenderWait<R>)
        ensures
            exists|msg: Option<UserEvent<R>>|
                {
                    &&& w == #[trigger] spec_render_wait(msg)
                    &&& protocol_step(BridgeState::RenderPending, wait_input(msg)) == (match w {
                        RenderWait::Ready(_) => BridgeState::Idle,
                        RenderWait::Violation => BridgeState::RenderPending,
                        RenderWait::Disconnected => BridgeState::Failed,
                    })
                    &&& (w is Ready <==> emits_render(BridgeState::RenderPending, wait_input(msg)))
                },
    {
        let msg = recv_message(&self.from_user);
        let w = classify_render_wait(msg);
        proof {
            assert(w == spec_render_wait(msg));
        }
        w
    }

    /// Blocks for one message of the pending shutdown exchange and says
    /// what it means: every outcome classifies some received message
    /// exactly as `spec_close_wait` states, so each case is one transition
    /// of the protocol machine out of `ClosePending`.
    pub fn poll_close_response(&self) -> (w: CloseWait)
        ensures
            exists|msg: Option<UserEvent<R>>|
                {
                    &&& w == #[trigger] spec_close_wait(msg)
                    &&& protocol_step(BridgeState::ClosePending, wait_input(msg)) == (match w {
                        CloseWait::Acknowledged => BridgeState::Terminal,
                        CloseWait::Violation => BridgeState::ClosePending,
                        CloseWait::Disconnected => BridgeState::Terminal,
                    })
                    &&& (!(w is Violation) <==> closes_protocol(wait_input(msg)))
                },
    {
        let msg = recv_message(&self.from_user);
        let w = classify_close_wait(msg);
        proof {
            assert(w == spec_close_wait(msg));
        }
        w
    }
}

// ---------------------------------------------------------------------------
// The user thread's dispatch.
// ---------------------------------------------------------------------------

/// The cursor position the user thread tracks after dispatching one
/// event: a cursor move replaces it, every other event leaves it alone.
pub open spec fn tracked_after<V: EventPayloads>(
    event: WindowEvent<V>,
    before: CursorPosition,
) -> CursorPosition {
    match event {
        WindowEvent::CursorMoved { position, .. } => position,
        _ => before,
    }
}

/// What the user thread did with one received event.
pub enum UserReaction<R> {
    /// The event demands a response on the to-presenter channel.
    Reply(UserEvent<R>),
    /// The event was dispatched to its callback; nothing is owed.
    Handled,
}

/// Dispatches one received event to the corresponding presenter callback,
/// tracking the last known cursor position to enrich button-press events
/// with a position, and says what response the protocol owes: the
/// ready-to-close acknowledgement for a close notification, the packaged
/// render data for a render-data request, and nothing for ordinary events.
/// The exit handler runs before the acknowledgement is returned for
/// sending.
pub fn dispatch_to_presenter<V: EventPayloads, Pr: Presenter<V>>(
    presenter: &mut Pr,
    tracking: &mut CursorPosition,
    event: WindowEvent<V>,
) -> (r: UserReaction<Pr::RenderData>)
    ensures
        (event is CloseRequested || event is Destroyed) ==> (r matches UserReaction::Reply(m)
            && m is ReadyToClose),
        event is RequestRenderData ==> (r matches UserReaction::Reply(m)
            && m is RenderDataPrepared),
        !(event is CloseRequested || event is Destroyed || event is RequestRenderData) ==> r
            is Handled,
        *final(tracking) == tracked_after(event, *old(tracking)),
{
    match event {
        WindowEvent::CloseRequested | WindowEvent::Destroyed => {
            presenter.on_exit();
            UserReaction::Reply(UserEvent::ReadyToClose)
        },
        WindowEvent::RequestRenderData => {
            UserReaction::Reply(UserEvent::RenderDataPrepared(presenter.package_render_data()))
        },
        WindowEvent::CursorEntered { device_id } => {
            presenter.on_cursor_enter(device_id);
            UserReaction::Handled
        },
        WindowEvent::CursorMoved { device_id, position } => {
            presenter.on_cursor_move(device_id, position);
            *tracking = position;
            UserReaction::Handled
        },
        WindowEvent::CursorLeft { device_id } => {
            presenter.on_cursor_leave(device_id);
            UserReaction::Handled
        },
        WindowEvent::AxisMotion { device_id, axis, value } => {
            presenter.on_analog_axis_motion(AnalogAxisEventArgs { device_id, axis, value });
            UserReaction::Handled
        },
        WindowEvent::DroppedFile(path) => {
            presenter.on_file_drop(path);
            UserReaction::Handled
        },
        WindowEvent::HoveredFile(path) => {
            presenter.on_file_hover(path);
            UserReaction::Handled
        },
        WindowEvent::HoveredFileCancelled => {
            presenter.on_file_hover_cancel();
            UserReaction::Handled
        },
        WindowEvent::Focused(focused) => {
            presenter.on_window_focus_changed(focused);
            UserReaction::Handled
        },
        WindowEvent::Ime(ime) => {
            presenter.on_ime_input(ime);
            UserReaction::Handled
        },
        WindowEvent::KeyboardDown { device_id, event, is_synthetic } => {
            presenter.on_key_press(KeyPressEventArgs { device_id, event, is_synthetic });
            UserReaction::Handled
        },
        WindowEvent::KeyboardUp { device_id, event, is_synthetic } => {
            presenter.on_key_release(KeyPressEventArgs { device_id, event, is_synthetic });
            UserReaction::Handled
        },
        WindowEvent::ModifiersChanged(modifiers) => {
            presenter.on_modifier_changed(modifiers);
            UserReaction::Handled
        },
        WindowEvent::MouseDown { device_id, state, button } => {
            presenter.on_mouse_down(
                MousePressEventArgs { device_id, state, button, position: *tracking },
            );
            UserReaction::Handled
        },
        WindowEvent::MouseUp { device_id, state, button } => {
            presenter.on_mouse_up(
                MousePressEventArgs { device_id, state, button, position: *tracking },
            );
            UserReaction::Handled
        },
        WindowEvent::MouseWheel { device_id, delta, phase } => {
            presenter.on_mouse_scroll(MouseScrollEventArgs { device_id, delta, phase });
            UserReaction::Handled
        },
        WindowEvent::Occluded(occluded) => {
            presenter.on_occlusion(occluded);
            UserReaction::Handled
        },
        WindowEvent::Resized { width, height } => {
            presenter.on_window_resize(width, height);
            UserReaction::Handled
        },
        WindowEvent::Moved { x, y } => {
            presenter.on_window_move(x, y);
            UserReaction::Handled
        },
        WindowEvent::ScaleFactorChanged { scale_factor, inner_size_writer } => {
            presenter.on_scale_factor_change(scale_factor, inner_size_writer);
            UserReaction::Handled
        },
        WindowEvent::Touch(touch) => {
            presenter.on_touch(touch);
            UserReaction::Handled
        },
        WindowEvent::Unknown => {
            presenter.on_unknown();
            UserReaction::Handled
        },
    }
}

/// Whether the user thread's receive loop goes on.
#[derive(Clone, Copy, PartialEq, Eq, Debug, Structural)]
pub enum UserLoopStatus {
    /// An event was received and dispatched; keep receiving.
    Continue,
    /// The channel disconnected: the OS thread is gone.  An abnormal but
    /// non-fatal end of the user thread.
    Disconnected,
}

/// One turn of the user thread's blocking receive loop: receives one
/// event, dispatches it to its callback through `dispatch_to_presenter`,
/// and sends back whatever response the protocol owes.  The loop around
/// this exits only on `Disconnected`.
pub fn user_loop_step<V: EventPayloads, Pr: Presenter<V>>(
    presenter: &mut Pr,
    tracking: &mut CursorPosition,
    bridge: &UserBridge<V, Pr::RenderData>,
) -> (s: UserLoopStatus)
    ensures
        s is Disconnected ==> *final(tracking) == *old(tracking),
        s is Continue ==> exists|event: WindowEvent<V>|
            *final(tracking) == #[trigger] tracked_after(event, *old(tracking)),
{
    match recv_message(&bridge.from_os) {
        None => UserLoopStatus::Disconnected,
        Some(event) => {
            let ghost received = event;
            match dispatch_to_presenter(presenter, tracking, event) {
                UserReaction::Reply(msg) => {
                    send_message(&bridge.to_os, msg);
                },
                UserReaction::Handled => {},
            }
            proof {
                assert(*tracking == tracked_after(received, *old(tracking)));
            }
            UserLoopStatus::Continue
        },
    }
}

/// Completes one render exchange after the response arrived: invokes the
/// render callback, exactly once per call, with the delivered data and
/// read access to the app's registries.
pub fn deliver_render_data<V: EventPayloads, Pr: Presenter<V>>(
    data: Pr::RenderData,
    app: &HeatwaveApp<'_>,
) {
    Pr::render(data, Some(RenderHelper::new(app)));
}

// ---------------------------------------------------------------------------
// The protocol's laws.
// ---------------------------------------------------------------------------

/// The render callback runs at most once per redraw request: over any
/// sequence of inputs whatsoever, the number of render invocations never
/// exceeds the number of redraw requests, plus one for a request already
/// outstanding at the start.
pub proof fn lemma_render_at_most_once_per_redraw<R>(
    s: BridgeState,
    inputs: Seq<ProtocolInput<R>>,
)
    ensures
        render_count(s, inputs) <= redraw_count(inputs) + (if s is RenderPending {
            1nat
        } else {
            0nat
        }),
    decreases inputs.len(),
{
    if inputs.len() > 0 {
        lemma_render_at_most_once_per_redraw(protocol_step(s, inputs[0]), inputs.drop_first());
    }
}

/// For any interleaving of ordinary events with exactly one redraw
/// request — ordinary traffic, the redraw, any number of discarded
/// protocol violations, the render-data response, more ordinary
/// traffic — the machine consumes exactly one render-data response,
/// invokes the render callback exactly once, and stands in `Idle` again.
pub proof fn lemma_single_redraw_exchange<R>(
    before: Seq<ProtocolInput<R>>,
    violations: Seq<ProtocolInput<R>>,
    data: R,
    after: Seq<ProtocolInput<R>>,
)
    requires
        forall|i: int| 0 <= i < before.len() ==> before[i] is OsOrdinary,
        forall|i: int| 0 <= i < violations.len() ==> ((#[trigger] violations[i]) matches
            ProtocolInput::UserMessage(m) && !(m is RenderDataPrepared)),
        forall|i: int| 0 <= i < after.len() ==> after[i] is OsOrdinary,
    ensures
        ({
            let inputs = before + seq![ProtocolInput::OsRedraw] + violations + seq![
                ProtocolInput::UserMessage(UserEvent::RenderDataPrepared(data)),
            ] + after;
            run_protocol(BridgeState::Idle, inputs) is Idle && render_count(
                BridgeState::Idle,
                inputs,
            ) == 1
        }),
{
    let redraw = seq![ProtocolInput::<R>::OsRedraw];
    let response = seq![ProtocolInput::UserMessage(UserEvent::RenderDataPrepared(data))];
    let inputs = before + redraw + violations + response + after;
    lemma_ordinary_events_preserve_state(BridgeState::Idle, before);
    lemma_run_concat(BridgeState::Idle, before, redraw + violations + response + after);
    assert(before + redraw + violations + response + after =~= before + (redraw + violations
        + response + after));
    lemma_run_concat(BridgeState::Idle, redraw, violations + response + after);
    lemma_run_singleton(BridgeState::Idle, ProtocolInput::<R>::OsRedraw);
    assert(run_protocol(BridgeState::Idle, redraw) == BridgeState::RenderPending);
    assert(render_count(BridgeState::Idle, redraw) == 0);
    lemma_violations_keep_waiting(violations);
    lemma_run_concat(BridgeState::RenderPending, violations, response + after);
    lemma_run_concat(BridgeState::RenderPending, response, after);
    lemma_run_singleton(
        BridgeState::RenderPending,
        ProtocolInput::UserMessage(UserEvent::RenderDataPrepared(data)),
    );
    assert(run_protocol(BridgeState::RenderPending, response) == BridgeState::Idle);
    assert(render_count(BridgeState::RenderPending, response) == 1);
    lemma_ordinary_events_preserve_state(BridgeState::Idle, after);
    assert(redraw + violations + response + after =~= redraw + (violations + (response + after)));
    assert(violations + response + after =~= violations + (response + after));
}

/// On a close request the machine reaches its terminal state only after
/// observing, with the close notification already sent, a ready-to-close
/// acknowledgement or a channel disconnect — never before, no matter how
/// many other events are in flight.
pub proof fn lemma_terminal_needs_close_ack<R>(s0: BridgeState, inputs: Seq<ProtocolInput<R>>)
    requires
        !(s0 is Terminal),
    ensures
        run_protocol(s0, inputs) is Terminal ==> exists|i: int|
            0 <= i < inputs.len() && run_protocol(s0, inputs.take(i)) is ClosePending
                && #[trigger] closes_protocol(inputs[i]),
    decreases inputs.len(),
{
    if inputs.len() == 0 {
        return ;
    }
    let s1 = protocol_step(s0, inputs[0]);
    let rest = inputs.drop_first();
    if run_protocol(s0, inputs) is Terminal {
        if s1 is Terminal {
            assert(s0 is ClosePending && closes_protocol(inputs[0]));
            assert(inputs.take(0) =~= Seq::<ProtocolInput<R>>::empty());
            assert(run_protocol(s0, inputs.take(0)) is ClosePending && closes_protocol(inputs[0]));
        } else {
            lemma_terminal_needs_close_ack(s1, rest);
            assert(run_protocol(s1, rest) is Terminal);
            let i = choose|i: int|
                0 <= i < rest.len() && run_protocol(s1, rest.take(i)) is ClosePending
                    && #[trigger] closes_protocol(rest[i]);
            assert(inputs.take(i + 1).drop_first() =~= rest.take(i));
            assert(inputs.take(i + 1)[0] == inputs[0]);
            assert(run_protocol(s0, inputs.take(i + 1)) == run_protocol(s1, rest.take(i)));
            assert(inputs[i + 1] == rest[i]);
            assert(run_protocol(s0, inputs.take(i + 1)) is ClosePending && closes_protocol(
                inputs[i + 1],
            ));
        }
    }
}

} // verus!
