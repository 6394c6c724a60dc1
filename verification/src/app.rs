//! The application's life as a state machine driven by window events.

use vstd::prelude::*;

verus! {

/// A key, as far as the application tells keys apart.
#[derive(Clone, Copy, Debug, PartialEq, Eq, Structural)]
pub enum KeyCode {
    Escape,
    Other,
}

/// A window event, as far as the application tells events apart.
#[derive(Clone, Copy, Debug, PartialEq, Eq, Structural)]
pub enum WindowEvent {
    /// The user asked for the window to be closed.
    CloseRequested,
    /// A key with a known code went down.
    KeyPressed { key: KeyCode },
    /// The window wants its content drawn.
    RedrawRequested,
    /// Anything else.
    Other,
}

/// What the event loop does after an event.
#[derive(Clone, Copy, Debug, PartialEq, Eq, Structural)]
pub enum AppAction {
    /// Nothing: no application is running.
    Ignore,
    /// Ask the window for another redraw.
    RequestRedraw,
    /// Draw a frame, then ask the window for another redraw.
    DrawAndRequestRedraw,
    /// Leave the event loop.
    Exit,
}

/// Where the application is in its life. While it runs it holds `A`: the
/// window and everything that draws into it.
pub enum AppState<A> {
    Initializing,
    Running(A),
    Closing,
}

/// Whether the application goes on after `event`: it stops when the window
/// is to be closed and when the escape key is pressed.
pub open spec fn keeps_running(event: WindowEvent) -> bool {
    match event {
        WindowEvent::CloseRequested => false,
        WindowEvent::KeyPressed { key: KeyCode::Escape } => false,
        _ => true,
    }
}

/// What a running application's event loop does after `event`.
pub open spec fn action_for(event: WindowEvent) -> AppAction {
    if !keeps_running(event) {
        AppAction::Exit
    } else if event == WindowEvent::RedrawRequested {
        AppAction::DrawAndRequestRedraw
    } else {
        AppAction::RequestRedraw
    }
}

/// What a running application's event loop does after `event`.
pub fn window_event(event: WindowEvent) -> (action: AppAction)
    ensures
        action == action_for(event),
{
    match event {
        WindowEvent::CloseRequested => AppAction::Exit,
        WindowEvent::KeyPressed { key } => match key {
            KeyCode::Escape => AppAction::Exit,
            KeyCode::Other => AppAction::RequestRedraw,
        },
        WindowEvent::RedrawRequested => AppAction::DrawAndRequestRedraw,
        WindowEvent::Other => AppAction::RequestRedraw,
    }
}

impl<A> AppState<A> {
    /// The state before the window exists.
    pub fn new() -> (state: AppState<A>)
        ensures
            state is Initializing,
    {
        AppState::Initializing
    }

    /// The event loop is up: the application runs with `app`, whatever went
    /// before.
    pub fn resumed(&mut self, app: A)
        ensures
            *final(self) == AppState::Running(app),
    {
        *self = AppState::Running(app);
    }

    /// Takes one window event and says what the event loop does next. Only a
    /// running application reacts. It closes for good on an event that ends
    /// it, and otherwise stays as it is.
    pub fn window_event(&mut self, event: WindowEvent) -> (action: AppAction)
        ensures
            !(*old(self) is Running) ==> action == AppAction::Ignore && *final(self) == *old(self),
            *old(self) is Running && keeps_running(event) ==> action == action_for(event)
                && *final(self) == *old(self),
            *old(self) is Running && !keeps_running(event) ==> action == AppAction::Exit
                && *final(self) is Closing,
    {
        let running = match self {
            AppState::Running(_) => true,
            _ => false,
        };
        if !running {
            return AppAction::Ignore;
        }
        let action = window_event(event);
        match action {
            AppAction::Exit => {
                *self = AppState::Closing;
            },
            _ => {},
        }
        action
    }
}

impl<A> Default for AppState<A> {
    fn default() -> (state: AppState<A>)
        ensures
            state is Initializing,
    {
        AppState::new()
    }
}

} // verus!
