//! The hardware context: the verified state machine of the bridge.
//!
//! The context tracks which backend resources exist — the window, the
//! drawing surface bound to it, and the input-event source — and decides,
//! for every operation, whether it may proceed and what it must report.
//! The host performs the actual backend calls: where a call can fail, its
//! outcome comes back in as a plain `Result`, and where an operation drives
//! the backend, the context hands the host a fully narrowed command value.
//! Every decision in between is verified.

use vstd::prelude::*;

use crate::error::SdlError;
use crate::input::KeyName;
use crate::input::KeySnapshot;
use crate::input::MouseButtonName;
use crate::input::MouseSnapshot;
use crate::input::key_of;
use crate::input::mouse_button_of;
use crate::input::parse_key;
use crate::input::parse_mouse_button;

verus! {

/// A draw color: three 8-bit channels, no alpha.
#[derive(Clone, Copy, Debug, PartialEq, Eq, Structural)]
pub struct Color {
    pub r: u8,
    pub g: u8,
    pub b: u8,
}

/// An axis-aligned rectangle command: a signed position and the magnitudes
/// the backend takes, produced by reinterpreting the signed extents.
#[derive(Clone, Copy, Debug, PartialEq, Eq, Structural)]
pub struct Rect {
    pub x: i32,
    pub y: i32,
    pub w: u32,
    pub h: u32,
}

/// A point command: a signed pixel coordinate.
#[derive(Clone, Copy, Debug, PartialEq, Eq, Structural)]
pub struct Point {
    pub x: i32,
    pub y: i32,
}

/// The window the context currently holds: its title and its pixel
/// dimensions as the backend received them.
#[derive(Clone, Debug, PartialEq, Eq)]
pub struct WindowInfo {
    pub title: String,
    pub width: u32,
    pub height: u32,
}

/// An event as the host dequeues it from the backend: a quit/close request,
/// or anything else. The bridge exposes no richer payload.
#[derive(Clone, Copy, Debug, PartialEq, Eq, Structural)]
pub enum PolledEvent {
    Quit,
    Other,
}

struct CanvasInfo {
    color: Option<Color>,
}

/// The hardware context: one per process, owning the model of the window,
/// the drawing surface and the event source.
pub struct SDLContext {
    window: Option<WindowInfo>,
    canvas: Option<CanvasInfo>,
    event_pump: bool,
}

impl SDLContext {
    /// Whether a window exists.
    pub closed spec fn has_window(&self) -> bool {
        self.window is Some
    }

    /// The window the context holds, if any.
    pub closed spec fn spec_window(&self) -> Option<WindowInfo> {
        self.window
    }

    /// Whether a drawing surface exists.
    pub closed spec fn has_canvas(&self) -> bool {
        self.canvas is Some
    }

    /// The draw color last set on the surface, if one was set since the
    /// surface was created. The backend's default color is not modeled.
    pub closed spec fn spec_draw_color(&self) -> Option<Color> {
        match self.canvas {
            Some(c) => c.color,
            None => None,
        }
    }

    /// Whether the input-event source exists.
    pub closed spec fn has_event_pump(&self) -> bool {
        self.event_pump
    }

    /// Well-formedness: the drawing surface is bound one-to-one to the
    /// window, so each exists exactly when the other does.
    pub open spec fn wf(&self) -> bool {
        self.has_canvas() <==> self.has_window()
    }

    /// Constructs the context from the outcome of the backend's subsystem
    /// initialization. On success no window, surface or event source exists
    /// yet; a failure is reported with the backend's message.
    pub fn new(backend: Result<(), String>) -> (r: Result<SDLContext, SdlError>)
        ensures
            backend is Ok ==> (r matches Ok(c) && c.wf() && !c.has_window() && !c.has_canvas()
                && !c.has_event_pump()),
            backend matches Err(m) ==> r == Err::<SDLContext, SdlError>(SdlError::Backend(m)),
    {
        match backend {
            Ok(()) => Ok(
                SDLContext { window: None, canvas: None, event_pump: false },
            ),
            Err(m) => Err(SdlError::Backend(m)),
        }
    }

    /// Records the outcome of a window-creation call: on success the stored
    /// window and surface are replaced by the new ones — also when a window
    /// already existed — and the new surface has no color set yet. On a
    /// backend failure nothing changes and the backend's message is
    /// reported. The signed dimensions are reinterpreted as the magnitudes
    /// the backend received.
    pub fn create_window(
        &mut self,
        title: &str,
        width: i32,
        height: i32,
        backend: Result<(), String>,
    ) -> (r: Result<(), SdlError>)
        requires
            old(self).wf(),
        ensures
            final(self).wf(),
            final(self).has_event_pump() == old(self).has_event_pump(),
            backend is Ok ==> r is Ok,
            backend is Ok ==> final(self).has_window() && final(self).has_canvas(),
            backend is Ok ==> (final(self).spec_window() matches Some(w) && w.title@ == title@
                && w.width == width as u32 && w.height == height as u32),
            backend is Ok ==> final(self).spec_draw_color() is None,
            backend matches Err(m) ==> r == Err::<(), SdlError>(SdlError::Backend(m))
                && *final(self) == *old(self),
    {
        match backend {
            Ok(()) => {
                let w = WindowInfo {
                    title: title.to_owned(),
                    width: #[verifier::truncate] (width as u32),
                    height: #[verifier::truncate] (height as u32),
                };
                self.window = Some(w);
                self.canvas = Some(CanvasInfo { color: None });
                Ok(())
            },
            Err(m) => Err(SdlError::Backend(m)),
        }
    }

    /// Sets the current draw color. Succeeds exactly when a surface exists,
    /// returning the color command for the host to apply; before any window
    /// exists it reports the missing-surface precondition.
    pub fn set_draw_color(&mut self, r: u8, g: u8, b: u8) -> (res: Result<Color, SdlError>)
        requires
            old(self).wf(),
        ensures
            final(self).wf(),
            old(self).has_canvas() ==> res == Ok::<Color, SdlError>((Color { r, g, b })),
            old(self).has_canvas() ==> final(self).spec_draw_color() == Some((Color { r, g, b })),
            old(self).has_canvas() ==> final(self).spec_window() == old(self).spec_window()
                && final(self).has_canvas() && final(self).has_event_pump() == old(
                self,
            ).has_event_pump(),
            !old(self).has_canvas() ==> res == Err::<Color, SdlError>(SdlError::CanvasNotInitialized)
                && *final(self) == *old(self),
    {
        match &mut self.canvas {
            Some(c) => {
                let color = Color { r, g, b };
                c.color = Some(color);
                Ok(color)
            },
            None => Err(SdlError::CanvasNotInitialized),
        }
    }

    /// Clears the surface with the current draw color. Succeeds exactly when
    /// a surface exists; the surface's pixels are the backend's concern.
    pub fn clear(&self) -> (r: Result<(), SdlError>)
        ensures
            r is Ok <==> self.has_canvas(),
            !self.has_canvas() ==> r == Err::<(), SdlError>(SdlError::CanvasNotInitialized),
    {
        if self.canvas.is_some() {
            Ok(())
        } else {
            Err(SdlError::CanvasNotInitialized)
        }
    }

    /// Publishes the surface to the visible window. Succeeds exactly when a
    /// surface exists.
    pub fn present(&self) -> (r: Result<(), SdlError>)
        ensures
            r is Ok <==> self.has_canvas(),
            !self.has_canvas() ==> r == Err::<(), SdlError>(SdlError::CanvasNotInitialized),
    {
        if self.canvas.is_some() {
            Ok(())
        } else {
            Err(SdlError::CanvasNotInitialized)
        }
    }

    /// Builds the outline-rectangle command at the given bounds, with the
    /// signed extents reinterpreted as magnitudes. Succeeds exactly when a
    /// surface exists.
    pub fn draw_rect(&self, x: i32, y: i32, w: i32, h: i32) -> (r: Result<Rect, SdlError>)
        ensures
            self.has_canvas() ==> r == Ok::<Rect, SdlError>(
                (Rect { x, y, w: w as u32, h: h as u32 }),
            ),
            !self.has_canvas() ==> r == Err::<Rect, SdlError>(SdlError::CanvasNotInitialized),
    {
        if self.canvas.is_some() {
            Ok(Rect {
                x,
                y,
                w: #[verifier::truncate] (w as u32),
                h: #[verifier::truncate] (h as u32),
            })
        } else {
            Err(SdlError::CanvasNotInitialized)
        }
    }

    /// Builds the solid-rectangle command at the given bounds, with the
    /// signed extents reinterpreted as magnitudes. Succeeds exactly when a
    /// surface exists.
    pub fn fill_rect(&self, x: i32, y: i32, w: i32, h: i32) -> (r: Result<Rect, SdlError>)
        ensures
            self.has_canvas() ==> r == Ok::<Rect, SdlError>(
                (Rect { x, y, w: w as u32, h: h as u32 }),
            ),
            !self.has_canvas() ==> r == Err::<Rect, SdlError>(SdlError::CanvasNotInitialized),
    {
        if self.canvas.is_some() {
            Ok(Rect {
                x,
                y,
                w: #[verifier::truncate] (w as u32),
                h: #[verifier::truncate] (h as u32),
            })
        } else {
            Err(SdlError::CanvasNotInitialized)
        }
    }

    /// Builds the single-pixel command. Succeeds exactly when a surface
    /// exists.
    pub fn draw_point(&self, x: i32, y: i32) -> (r: Result<Point, SdlError>)
        ensures
            self.has_canvas() ==> r == Ok::<Point, SdlError>((Point { x, y })),
            !self.has_canvas() ==> r == Err::<Point, SdlError>(SdlError::CanvasNotInitialized),
    {
        if self.canvas.is_some() {
            Ok(Point { x, y })
        } else {
            Err(SdlError::CanvasNotInitialized)
        }
    }

    /// Builds the line command between the two endpoints. Succeeds exactly
    /// when a surface exists.
    pub fn draw_line(&self, x1: i32, y1: i32, x2: i32, y2: i32) -> (r: Result<
        (Point, Point),
        SdlError,
    >)
        ensures
            self.has_canvas() ==> r == Ok::<(Point, Point), SdlError>(
                ((Point { x: x1, y: y1 }, Point { x: x2, y: y2 })),
            ),
            !self.has_canvas() ==> r == Err::<(Point, Point), SdlError>(
                SdlError::CanvasNotInitialized,
            ),
    {
        if self.canvas.is_some() {
            Ok((Point { x: x1, y: y1 }, Point { x: x2, y: y2 }))
        } else {
            Err(SdlError::CanvasNotInitialized)
        }
    }

    /// Records the outcome of creating the input-event source. On success
    /// the source exists — creating it again simply replaces it, so the
    /// call is idempotent in effect — and on a backend failure nothing
    /// changes and the backend's message is reported.
    pub fn init_event_pump(&mut self, backend: Result<(), String>) -> (r: Result<(), SdlError>)
        requires
            old(self).wf(),
        ensures
            final(self).wf(),
            final(self).spec_window() == old(self).spec_window(),
            final(self).has_canvas() == old(self).has_canvas(),
            final(self).spec_draw_color() == old(self).spec_draw_color(),
            backend is Ok ==> r is Ok && final(self).has_event_pump(),
            backend matches Err(m) ==> r == Err::<(), SdlError>(SdlError::Backend(m))
                && *final(self) == *old(self),
    {
        match backend {
            Ok(()) => {
                self.event_pump = true;
                Ok(())
            },
            Err(m) => Err(SdlError::Backend(m)),
        }
    }

    /// Classifies one dequeued event into the keep-running signal: `false`
    /// exactly when a quit/close request was dequeued, `true` for every
    /// other event and for an empty queue. At most the one handed-in event
    /// is consumed. Fails when the event source was never created.
    pub fn poll_event(&self, polled: Option<PolledEvent>) -> (r: Result<bool, SdlError>)
        ensures
            self.has_event_pump() ==> r == Ok::<bool, SdlError>(
                polled != Some(PolledEvent::Quit),
            ),
            !self.has_event_pump() ==> r == Err::<bool, SdlError>(
                SdlError::EventPumpNotInitialized,
            ),
    {
        if self.event_pump {
            match polled {
                Some(PolledEvent::Quit) => Ok(false),
                Some(PolledEvent::Other) => Ok(true),
                None => Ok(true),
            }
        } else {
            Err(SdlError::EventPumpNotInitialized)
        }
    }

    /// Reports whether the named key is pressed in the given snapshot.
    /// Fails when the event source was never created; a name that is not a
    /// case variant of one of the supported key names is reported as
    /// unsupported, carrying the name itself.
    pub fn is_key_down(&self, key: &str, keys: &KeySnapshot) -> (r: Result<bool, SdlError>)
        ensures
            !self.has_event_pump() ==> r == Err::<bool, SdlError>(
                SdlError::EventPumpNotInitialized,
            ),
            key_of(key@) matches Some(k) ==> (self.has_event_pump() ==> r == Ok::<bool, SdlError>(
                keys.spec_down(k),
            )),
            self.has_event_pump() && key_of(key@) is None ==> (r matches Err(e)
                && e matches SdlError::UnsupportedKey(s) && s@ == key@),
    {
        if !self.event_pump {
            return Err(SdlError::EventPumpNotInitialized);
        }
        match parse_key(key) {
            Some(k) => Ok(keys.is_down(k)),
            None => Err(SdlError::UnsupportedKey(key.to_owned())),
        }
    }

    /// Reports whether the named mouse button is pressed in the given
    /// snapshot. Fails when the event source was never created; a name that
    /// is not a case variant of one of the supported button names is
    /// reported as unsupported, carrying the name itself.
    pub fn is_mouse_button_down(&self, button: &str, mouse: &MouseSnapshot) -> (r: Result<
        bool,
        SdlError,
    >)
        ensures
            !self.has_event_pump() ==> r == Err::<bool, SdlError>(
                SdlError::EventPumpNotInitialized,
            ),
            mouse_button_of(button@) matches Some(b) ==> (self.has_event_pump() ==> r == Ok::<
                bool,
                SdlError,
            >(mouse.spec_pressed(b))),
            self.has_event_pump() && mouse_button_of(button@) is None ==> (r matches Err(e)
                && e matches SdlError::UnsupportedMouseButton(s) && s@ == button@),
    {
        if !self.event_pump {
            return Err(SdlError::EventPumpNotInitialized);
        }
        match parse_mouse_button(button) {
            Some(b) => Ok(mouse.is_pressed(b)),
            None => Err(SdlError::UnsupportedMouseButton(button.to_owned())),
        }
    }

    /// Returns the cursor position the given snapshot records. Fails when
    /// the event source was never created.
    pub fn get_mouse_position(&self, mouse: &MouseSnapshot) -> (r: Result<(i64, i64), SdlError>)
        ensures
            self.has_event_pump() ==> r == Ok::<(i64, i64), SdlError>((mouse.x, mouse.y)),
            !self.has_event_pump() ==> r == Err::<(i64, i64), SdlError>(
                SdlError::EventPumpNotInitialized,
            ),
    {
        if self.event_pump {
            Ok((mouse.x, mouse.y))
        } else {
            Err(SdlError::EventPumpNotInitialized)
        }
    }

    /// Approves a blocking delay of the given number of milliseconds: the
    /// operation always succeeds, and the host performs the sleep.
    pub fn delay(&self, ms: u32) -> (r: Result<u32, SdlError>)
        ensures
            r == Ok::<u32, SdlError>(ms),
    {
        Ok(ms)
    }

    /// The pixel dimensions of the current window, if one exists.
    pub fn window_size(&self) -> (r: Option<(u32, u32)>)
        ensures
            self.spec_window() matches Some(w) ==> r == Some((w.width, w.height)),
            self.spec_window() is None ==> r is None,
    {
        match &self.window {
            Some(w) => Some((w.width, w.height)),
            None => None,
        }
    }

    /// The draw color last set on the current surface, if a surface exists
    /// and a color was set on it since it was created.
    pub fn current_draw_color(&self) -> (r: Option<Color>)
        ensures
            r == self.spec_draw_color(),
    {
        match &self.canvas {
            Some(c) => c.color,
            None => None,
        }
    }

    /// Whether a drawing surface currently exists; lets the host decide
    /// whether a drawing command will be issued.
    pub fn canvas_ready(&self) -> (r: bool)
        ensures
            r == self.has_canvas(),
    {
        self.canvas.is_some()
    }

    /// Whether the input-event source currently exists; lets the host
    /// decide whether to query the backend's input state.
    pub fn event_pump_ready(&self) -> (r: bool)
        ensures
            r == self.has_event_pump(),
    {
        self.event_pump
    }
}

/// Until a window has been created, no drawing surface exists either — the
/// surface is bound one-to-one to the window — so by the contracts above
/// every drawing, clear and present operation reports the missing-surface
/// precondition rather than reaching the backend.
pub proof fn lemma_no_window_no_canvas(ctx: SDLContext)
    requires
        ctx.wf(),
        !ctx.has_window(),
    ensures
        !ctx.has_canvas(),
{
}

} // verus!
