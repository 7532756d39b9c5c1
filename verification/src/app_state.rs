//! The life cycle of a drawing application: paused or active, and how
//! window events move it and pace its redraws.
use vstd::prelude::*;

verus! {

/// Something the application loop can draw and suspend; the application
/// provides it.
pub trait Drawable: Sized {
    /// Whether `next` is a state that processing the pending events and
    /// drawing one frame can leave this drawable in. An application that
    /// says nothing allows any state.
    open spec fn frame_step(&self, next: Self) -> bool {
        true
    }

    /// Processes pending events and draws a frame.
    fn handle_events_and_draw(&mut self)
        ensures
            old(self).frame_step(*final(self)),
    ;

    /// Whether `next` is a state that releasing what cannot outlive a
    /// suspension can leave this drawable in. An application that says
    /// nothing allows any state.
    open spec fn suspend_step(&self, next: Self) -> bool {
        true
    }

    /// Releases what cannot outlive a suspension of the application.
    fn suspend(&mut self)
        ensures
            old(self).suspend_step(*final(self)),
    ;
}

/// The application's state: paused, or active with its drawable.
pub enum AppState<T: Drawable> {
    Paused,
    Active(T),
}

impl<T: Drawable> Default for AppState<T> {
    /// Paused.
    fn default() -> (r: Self)
        ensures
            r is Paused,
    {
        AppState::Paused
    }
}

impl<T: Drawable> AppState<T> {
    /// New events arrived: an active application processes them and draws.
    pub fn new_events(&mut self)
        ensures
            (*final(self) is Active) == (*old(self) is Active),
            match *old(self) {
                AppState::Paused => *final(self) is Paused,
                AppState::Active(before) => *final(self) matches AppState::Active(after)
                    && before.frame_step(after),
            },
    {
        match self {
            AppState::Active(app) => app.handle_events_and_draw(),
            AppState::Paused => {},
        }
    }

    /// The application was resumed and built its drawable, or failed to:
    /// a drawable makes the application active with it; a failure leaves the
    /// state as it was and is handed back for reporting.
    pub fn resumed<E>(&mut self, built: Result<T, E>) -> (failure: Option<E>)
        ensures
            match built {
                Ok(x) => *final(self) == AppState::Active(x) && failure is None,
                Err(e) => *final(self) == *old(self) && failure == Some(e),
            },
    {
        match built {
            Ok(x) => {
                *self = AppState::Active(x);
                None
            },
            Err(e) => Some(e),
        }
    }

    /// The application was suspended: an active drawable is told so, and the
    /// application is paused.
    pub fn suspended(&mut self)
        ensures
            *final(self) is Paused,
            *old(self) matches AppState::Active(before) ==> exists|after: T|
                before.suspend_step(after),
    {
        match self {
            AppState::Active(app) => {
                app.suspend();
            },
            AppState::Paused => {},
        }
        *self = AppState::Paused;
    }
}

/// The window events the loop tells apart.
pub enum WindowEventKind {
    Resized,
    RedrawRequested,
    CloseRequested,
    Other,
}

/// How the event loop waits for its next event.
#[derive(PartialEq, Eq, Structural)]
pub enum ControlFlowChoice {
    /// Until an event arrives.
    Wait,
    /// Not at all.
    Poll,
    /// Until this many milliseconds from now, or an event.
    WaitUntilMillisFromNow(u64),
}

/// Whether the scene is static, so that an active application needs no
/// timed redraws. The library's scenes animate.
pub const STATIC_GRAPHICS: bool = false;

/// Milliseconds between timed redraws of an active, animated application.
pub const REDRAW_INTERVAL_MILLIS: u64 = 6;

/// What the loop does after a window event.
#[derive(PartialEq, Eq, Structural)]
pub struct EventResponse {
    pub control_flow: ControlFlowChoice,
    pub exit: bool,
}

/// How the event loop waits when nothing in particular happened: a paused
/// application waits for events, an active one is woken for redraws.
pub open spec fn idle_control_flow(active: bool) -> ControlFlowChoice {
    if !active {
        ControlFlowChoice::Wait
    } else if STATIC_GRAPHICS {
        ControlFlowChoice::Poll
    } else {
        ControlFlowChoice::WaitUntilMillisFromNow(REDRAW_INTERVAL_MILLIS)
    }
}

/// Handles one window event: a resize of an active application polls at once
/// (which draws through the next new-events call), a redraw request draws an
/// active application, a close request exits.
pub fn window_event_loop_one_pass<T: Drawable>(event: WindowEventKind, app: &mut AppState<T>) -> (r: EventResponse)
    ensures
        (*final(app) is Active) == (*old(app) is Active),
        match (event, *old(app)) {
            (WindowEventKind::RedrawRequested, AppState::Active(before)) => *final(app) matches AppState::Active(after)
                && before.frame_step(after),
            _ => *final(app) == *old(app),
        },
        r.exit == (event is CloseRequested),
        r.control_flow == (if event is Resized && *old(app) is Active {
            ControlFlowChoice::Poll
        } else {
            idle_control_flow(*old(app) is Active)
        }),
{
    let mut control_flow = match app {
        AppState::Paused => ControlFlowChoice::Wait,
        AppState::Active(_) => {
            if STATIC_GRAPHICS {
                ControlFlowChoice::Poll
            } else {
                ControlFlowChoice::WaitUntilMillisFromNow(REDRAW_INTERVAL_MILLIS)
            }
        },
    };
    let mut exit = false;
    match event {
        WindowEventKind::Resized => {
            if let AppState::Active(_) = app {
                control_flow = ControlFlowChoice::Poll;
            }
        },
        WindowEventKind::RedrawRequested => {
            if let AppState::Active(inner) = app {
                inner.handle_events_and_draw();
            }
        },
        WindowEventKind::CloseRequested => {
            exit = true;
        },
        WindowEventKind::Other => {},
    }
    EventResponse { control_flow, exit }
}

} // verus!
