use vstd::prelude::*;

verus! {

/// The key of a keyboard event, as far as the wallpaper cares.
#[derive(Clone, Copy, Debug, PartialEq, Eq, Structural)]
pub enum Key {
    Escape,
    Other,
}

/// An event delivered by the layer-shell event loop.
#[derive(Clone, Copy, Debug, PartialEq, Eq, Structural)]
pub enum ShellEvent {
    InitRequest,
    BindProvided,
    CompositorProvided,
    NormalDispatch,
    /// The compositor asks for the surface to be redrawn at this size.
    RefreshRequested { width: u32, height: u32 },
    MouseButton,
    MouseEntered,
    /// The pointer moved over the surface.
    MouseMoved,
    KeyboardInput { key: Key },
    /// Any event the wallpaper does not react to.
    Other,
}

/// Pointer shapes the wallpaper asks for.
#[derive(Clone, Copy, Debug, PartialEq, Eq, Structural)]
pub enum CursorShape {
    Crosshair,
}

pub open spec fn cursor_name(shape: CursorShape) -> Seq<char> {
    match shape {
        CursorShape::Crosshair => "crosshair"@,
    }
}

impl CursorShape {
    /// The cursor-shape name the compositor knows this shape by.
    pub fn name(self) -> (s: String)
        ensures
            s@ == cursor_name(self),
    {
        match self {
            CursorShape::Crosshair => String::from_str("crosshair"),
        }
    }
}

/// The answer handed back to the event loop.
#[derive(Clone, Copy, Debug, PartialEq, Eq, Structural)]
pub enum ShellRequest {
    Bind,
    Compositor,
    SetCursorShape(CursorShape),
    Exit,
    Nothing,
}

/// A surface size in pixels.
#[derive(Clone, Copy, Debug, PartialEq, Eq, Structural)]
pub struct PixelSize {
    pub width: u32,
    pub height: u32,
}

/// Everything the wallpaper does in response to one event.
#[derive(Clone, Copy, Debug, PartialEq, Eq, Structural)]
pub struct Reaction {
    /// What to answer the event loop.
    pub request: ShellRequest,
    /// Resize the surface to this width and height, then render a frame.
    pub redraw: Option<PixelSize>,
    /// Remember (and log) the pointer position carried by the event.
    pub record_pointer: bool,
    /// Ask every surface for a refresh at the next frame.
    pub schedule_frame: bool,
}

pub open spec fn answer(request: ShellRequest) -> Reaction {
    Reaction { request, redraw: None, record_pointer: false, schedule_frame: false }
}

pub open spec fn reaction_to(event: ShellEvent) -> Reaction {
    match event {
        ShellEvent::InitRequest => answer(ShellRequest::Bind),
        ShellEvent::BindProvided => answer(ShellRequest::Compositor),
        ShellEvent::RefreshRequested { width, height } => Reaction {
            request: ShellRequest::Nothing,
            redraw: Some(PixelSize { width, height }),
            record_pointer: false,
            schedule_frame: false,
        },
        ShellEvent::MouseEntered => answer(ShellRequest::SetCursorShape(CursorShape::Crosshair)),
        ShellEvent::MouseMoved => Reaction {
            request: ShellRequest::Nothing,
            redraw: None,
            record_pointer: true,
            schedule_frame: true,
        },
        ShellEvent::KeyboardInput { key: Key::Escape } => answer(ShellRequest::Exit),
        _ => answer(ShellRequest::Nothing),
    }
}

fn reply(request: ShellRequest) -> (r: Reaction)
    ensures
        r == answer(request),
{
    Reaction { request, redraw: None, record_pointer: false, schedule_frame: false }
}

/// How the wallpaper answers one event of the layer-shell event loop: it binds
/// and then asks for the compositor during start-up, redraws at the size that a
/// refresh carries, shows a crosshair over the surface, follows the pointer
/// and asks for the next frame when it moves, and exits on Escape.
pub fn react(event: ShellEvent) -> (r: Reaction)
    ensures
        r == reaction_to(event),
{
    match event {
        ShellEvent::InitRequest => reply(ShellRequest::Bind),
        ShellEvent::BindProvided => reply(ShellRequest::Compositor),
        ShellEvent::RefreshRequested { width, height } => Reaction {
            request: ShellRequest::Nothing,
            redraw: Some(PixelSize { width, height }),
            record_pointer: false,
            schedule_frame: false,
        },
        ShellEvent::MouseEntered => reply(ShellRequest::SetCursorShape(CursorShape::Crosshair)),
        ShellEvent::MouseMoved => Reaction {
            request: ShellRequest::Nothing,
            redraw: None,
            record_pointer: true,
            schedule_frame: true,
        },
        ShellEvent::KeyboardInput { key: Key::Escape } => reply(ShellRequest::Exit),
        _ => reply(ShellRequest::Nothing),
    }
}

/// What each event asks of the event loop: a bind on the start-up request,
/// the compositor once the globals are bound, a crosshair cursor when the
/// pointer enters, exit on Escape, and nothing for every other event,
/// refresh requests and pointer motion included.
pub proof fn lemma_requests(event: ShellEvent)
    ensures
        (reaction_to(event).request == ShellRequest::Bind) <==> (event == ShellEvent::InitRequest),
        (reaction_to(event).request == ShellRequest::Compositor) <==> (event
            == ShellEvent::BindProvided),
        (reaction_to(event).request is SetCursorShape) <==> (event == ShellEvent::MouseEntered),
        event == ShellEvent::MouseEntered ==> reaction_to(event).request
            == ShellRequest::SetCursorShape(CursorShape::Crosshair),
        (reaction_to(event).request == ShellRequest::Nothing) <==> !(event
            == ShellEvent::InitRequest || event == ShellEvent::BindProvided || event
            == ShellEvent::MouseEntered || event == ShellEvent::KeyboardInput {
            key: Key::Escape,
        }),
{
}

/// A refresh request of any size answers nothing to the event loop, resizes
/// to exactly that size and renders, and neither follows the pointer nor asks
/// for another frame.
pub proof fn lemma_refresh_reaction(width: u32, height: u32)
    ensures
        reaction_to(ShellEvent::RefreshRequested { width, height }).request == ShellRequest::Nothing,
        reaction_to(ShellEvent::RefreshRequested { width, height }).redraw == Some(
            PixelSize { width, height },
        ),
        !reaction_to(ShellEvent::RefreshRequested { width, height }).record_pointer,
        !reaction_to(ShellEvent::RefreshRequested { width, height }).schedule_frame,
{
}

/// The crosshair is named "crosshair".
pub proof fn lemma_cursor_names()
    ensures
        cursor_name(CursorShape::Crosshair) == "crosshair"@,
{
}

/// The program ends on the Escape key, and on nothing else.
pub proof fn lemma_only_escape_exits(event: ShellEvent)
    ensures
        (reaction_to(event).request == ShellRequest::Exit) <==> (event == ShellEvent::KeyboardInput {
            key: Key::Escape,
        }),
{
}

/// A frame is rendered exactly when the compositor asks for a refresh, and at
/// the size it asks for.
pub proof fn lemma_redraw_only_on_refresh(event: ShellEvent)
    ensures
        (reaction_to(event).redraw is Some) <==> (event is RefreshRequested),
        event matches ShellEvent::RefreshRequested { width, height } ==> reaction_to(event).redraw
            == Some(PixelSize { width, height }),
{
}

/// Only pointer motion is followed, and each motion asks for the next frame.
pub proof fn lemma_motion_schedules_frame(event: ShellEvent)
    ensures
        reaction_to(event).record_pointer <==> (event == ShellEvent::MouseMoved),
        reaction_to(event).schedule_frame <==> (event == ShellEvent::MouseMoved),
{
}

} // verus!
