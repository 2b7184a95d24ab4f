use interactive_wallpaper::events::{
    react, CursorShape, Key, PixelSize, Reaction, ShellEvent, ShellRequest,
};

fn plain(request: ShellRequest) -> Reaction {
    Reaction { request, redraw: None, record_pointer: false, schedule_frame: false }
}

#[test]
fn start_up_handshake() {
    assert_eq!(react(ShellEvent::InitRequest), plain(ShellRequest::Bind));
    assert_eq!(react(ShellEvent::BindProvided), plain(ShellRequest::Compositor));
    assert_eq!(react(ShellEvent::CompositorProvided), plain(ShellRequest::Nothing));
    assert_eq!(react(ShellEvent::NormalDispatch), plain(ShellRequest::Nothing));
}

#[test]
fn refresh_redraws_at_requested_size() {
    let r = react(ShellEvent::RefreshRequested { width: 2560, height: 1440 });
    assert_eq!(r.request, ShellRequest::Nothing);
    assert_eq!(r.redraw, Some(PixelSize { width: 2560, height: 1440 }));
    assert!(!r.record_pointer);
    assert!(!r.schedule_frame);
}

#[test]
fn pointer_events() {
    assert_eq!(react(ShellEvent::MouseButton), plain(ShellRequest::Nothing));
    assert_eq!(
        react(ShellEvent::MouseEntered),
        plain(ShellRequest::SetCursorShape(CursorShape::Crosshair))
    );
    let moved = react(ShellEvent::MouseMoved);
    assert_eq!(
        moved,
        Reaction {
            request: ShellRequest::Nothing,
            redraw: None,
            record_pointer: true,
            schedule_frame: true
        }
    );
    assert_eq!(CursorShape::Crosshair.name(), "crosshair");
}

#[test]
fn escape_exits_and_nothing_else_does() {
    assert_eq!(react(ShellEvent::KeyboardInput { key: Key::Escape }), plain(ShellRequest::Exit));
    assert_eq!(react(ShellEvent::KeyboardInput { key: Key::Other }), plain(ShellRequest::Nothing));
    assert_eq!(react(ShellEvent::Other), plain(ShellRequest::Nothing));
}
