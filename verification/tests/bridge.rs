use heatwave::bridge::classify_close_wait;
use heatwave::bridge::classify_render_wait;
use heatwave::bridge::close_notification_event;
use heatwave::bridge::render_request_event;
use heatwave::bridge::create_bridge;
use heatwave::bridge::dispatch_to_presenter;
use heatwave::bridge::user_loop_step;
use heatwave::bridge::CloseWait;
use heatwave::bridge::RenderWait;
use heatwave::bridge::UserLoopStatus;
use heatwave::bridge::UserReaction;
use heatwave::rendering::Presenter;
use heatwave::rendering::RenderHelper;
use heatwave::CursorPosition;
use heatwave::ButtonState;
use heatwave::EventPayloads;
use heatwave::MouseButton;
use heatwave::TouchPhase;
use heatwave::UserEvent;
use heatwave::WindowEvent;

struct TestVocab;

impl EventPayloads for TestVocab {
    type DeviceId = u32;
    type KeyEvent = String;
    type Modifiers = u8;
    type Ime = String;
    type ScrollDelta = i32;
    type Touch = u8;
    type FilePath = String;
    type SizeWriter = ();
}

struct RecordingPresenter {
    calls: Vec<String>,
    frame: i32,
    last_mouse_position: Option<CursorPosition>,
}

impl RecordingPresenter {
    fn new() -> Self {
        RecordingPresenter {
            calls: Vec::new(),
            frame: 0,
            last_mouse_position: None,
        }
    }
}

impl Presenter<TestVocab> for RecordingPresenter {
    type RenderData = i32;

    fn render<'a, 'window>(_data: i32, _helper: Option<RenderHelper<'a, 'window>>) {}

    fn package_render_data(&mut self) -> i32 {
        self.calls.push(String::from("package_render_data"));
        self.frame += 1;
        self.frame
    }

    fn on_exit(&mut self) {
        self.calls.push(String::from("on_exit"));
    }

    fn on_cursor_move(&mut self, device_id: u32, _position: CursorPosition) {
        self.calls.push(format!("on_cursor_move:{device_id}"));
    }

    fn on_mouse_down(
        &mut self,
        args: heatwave::rendering::MousePressEventArgs<TestVocab>,
    ) {
        self.calls.push(String::from("on_mouse_down"));
        self.last_mouse_position = Some(args.position);
    }

    fn on_window_focus_changed(&mut self, focused: bool) {
        self.calls.push(format!("on_window_focus_changed:{focused}"));
    }

    fn on_window_resize(&mut self, width: u32, height: u32) {
        self.calls.push(format!("on_window_resize:{width}x{height}"));
    }

    fn on_unknown(&mut self) {
        self.calls.push(String::from("on_unknown"));
    }
}

#[test]
fn render_wait_classification() {
    assert_eq!(
        classify_render_wait(Some(UserEvent::RenderDataPrepared(42))),
        RenderWait::Ready(42)
    );
    assert_eq!(
        classify_render_wait::<i32>(Some(UserEvent::ReadyToClose)),
        RenderWait::Violation
    );
    assert_eq!(classify_render_wait::<i32>(None), RenderWait::Disconnected);
}

#[test]
fn close_wait_classification() {
    assert_eq!(
        classify_close_wait::<i32>(Some(UserEvent::ReadyToClose)),
        CloseWait::Acknowledged
    );
    assert_eq!(
        classify_close_wait(Some(UserEvent::RenderDataPrepared(42))),
        CloseWait::Violation
    );
    assert_eq!(classify_close_wait::<i32>(None), CloseWait::Disconnected);
}

#[test]
fn one_redraw_yields_exactly_one_response() {
    let (frame_bridge, user_bridge) = create_bridge::<TestVocab, i32>();
    let mut presenter = RecordingPresenter::new();
    let mut tracking = CursorPosition::origin();

    // Ordinary traffic around the one redraw request.
    assert!(frame_bridge.forward(WindowEvent::Focused(true)));
    assert!(frame_bridge.send_render_request());
    assert!(frame_bridge.forward(WindowEvent::Resized {
        width: 640,
        height: 480
    }));

    for _ in 0..3 {
        assert_eq!(
            user_loop_step(&mut presenter, &mut tracking, &user_bridge),
            UserLoopStatus::Continue
        );
    }

    // Exactly one response arrived for the one request; the channel holds
    // nothing else for the presenter.
    assert_eq!(frame_bridge.poll_render_response(), RenderWait::Ready(1));
    assert_eq!(
        presenter.calls,
        vec![
            "on_window_focus_changed:true",
            "package_render_data",
            "on_window_resize:640x480"
        ]
    );
}

#[test]
fn violation_while_awaiting_render_data_is_discarded() {
    let (frame_bridge, user_bridge) = create_bridge::<TestVocab, i32>();
    let mut presenter = RecordingPresenter::new();
    let mut tracking = CursorPosition::origin();

    // A close notification answered first puts a ready-to-close message in
    // front of the render response.
    assert!(frame_bridge.send_close_notification());
    assert!(frame_bridge.send_render_request());
    for _ in 0..2 {
        user_loop_step(&mut presenter, &mut tracking, &user_bridge);
    }

    // While waiting for render data, the stray acknowledgement is a
    // violation to discard; the wait then completes with the real response.
    assert_eq!(frame_bridge.poll_render_response(), RenderWait::Violation);
    assert_eq!(frame_bridge.poll_render_response(), RenderWait::Ready(1));
}

#[test]
fn close_exchange_completes_after_exit_handler() {
    let (frame_bridge, user_bridge) = create_bridge::<TestVocab, i32>();
    let mut presenter = RecordingPresenter::new();
    let mut tracking = CursorPosition::origin();

    assert!(frame_bridge.send_close_notification());
    assert_eq!(
        user_loop_step(&mut presenter, &mut tracking, &user_bridge),
        UserLoopStatus::Continue
    );

    assert_eq!(frame_bridge.poll_close_response(), CloseWait::Acknowledged);
    assert_eq!(presenter.calls, vec!["on_exit"]);
}

#[test]
fn disconnect_while_awaiting_close_is_reported() {
    let (frame_bridge, user_bridge) = create_bridge::<TestVocab, i32>();
    drop(user_bridge);
    assert_eq!(frame_bridge.poll_close_response(), CloseWait::Disconnected);
    assert_eq!(frame_bridge.poll_render_response(), RenderWait::Disconnected);
}

#[test]
fn user_loop_ends_when_the_os_thread_is_gone() {
    let (frame_bridge, user_bridge) = create_bridge::<TestVocab, i32>();
    let mut presenter = RecordingPresenter::new();
    let mut tracking = CursorPosition::origin();
    drop(frame_bridge);
    assert_eq!(
        user_loop_step(&mut presenter, &mut tracking, &user_bridge),
        UserLoopStatus::Disconnected
    );
}

#[test]
fn button_presses_are_enriched_with_the_tracked_cursor_position() {
    let (frame_bridge, user_bridge) = create_bridge::<TestVocab, i32>();
    let mut presenter = RecordingPresenter::new();
    let mut tracking = CursorPosition::origin();

    let position = CursorPosition {
        x_bits: 120f64.to_bits(),
        y_bits: 45f64.to_bits(),
    };
    assert!(frame_bridge.forward(WindowEvent::CursorMoved {
        device_id: 3,
        position
    }));
    assert!(frame_bridge.forward(WindowEvent::MouseDown {
        device_id: 3,
        state: ButtonState::Pressed,
        button: MouseButton::Left,
    }));
    for _ in 0..2 {
        user_loop_step(&mut presenter, &mut tracking, &user_bridge);
    }

    assert_eq!(tracking, position);
    assert_eq!(presenter.last_mouse_position, Some(position));
    assert_eq!(presenter.calls, vec!["on_cursor_move:3", "on_mouse_down"]);
}

#[test]
fn dispatch_replies_only_for_protocol_events() {
    let mut presenter = RecordingPresenter::new();
    let mut tracking = CursorPosition::origin();

    let reaction = dispatch_to_presenter(
        &mut presenter,
        &mut tracking,
        WindowEvent::<TestVocab>::RequestRenderData,
    );
    assert!(matches!(
        reaction,
        UserReaction::Reply(UserEvent::RenderDataPrepared(1))
    ));

    let reaction = dispatch_to_presenter(
        &mut presenter,
        &mut tracking,
        WindowEvent::<TestVocab>::CloseRequested,
    );
    assert!(matches!(
        reaction,
        UserReaction::Reply(UserEvent::ReadyToClose)
    ));

    let reaction = dispatch_to_presenter(
        &mut presenter,
        &mut tracking,
        WindowEvent::<TestVocab>::Destroyed,
    );
    assert!(matches!(
        reaction,
        UserReaction::Reply(UserEvent::ReadyToClose)
    ));

    let reaction = dispatch_to_presenter(
        &mut presenter,
        &mut tracking,
        WindowEvent::<TestVocab>::Unknown,
    );
    assert!(matches!(reaction, UserReaction::Handled));

    let reaction = dispatch_to_presenter(
        &mut presenter,
        &mut tracking,
        WindowEvent::<TestVocab>::MouseWheel {
            device_id: 1,
            delta: -3,
            phase: TouchPhase::Moved,
        },
    );
    assert!(matches!(reaction, UserReaction::Handled));
}

#[test]
fn protocol_events_carry_the_right_variants() {
    assert!(matches!(
        render_request_event::<TestVocab>(),
        WindowEvent::RequestRenderData
    ));
    assert!(matches!(
        close_notification_event::<TestVocab>(),
        WindowEvent::CloseRequested
    ));
}

#[test]
fn default_should_render_is_true() {
    let presenter = RecordingPresenter::new();
    assert!(presenter.should_render());
}
