//! The script-facing boundary of each registered operation.
//!
//! The scripting runtime hands every number over as a wide signed integer
//! and expects every failure as one opaque message string. Each function
//! here performs, for one registered name, exactly the narrowing the
//! operation takes, exactly one hardware-context call, and the flattening
//! of the structured error into its message text. The host wraps each one
//! in a registered closure and does nothing else in it but lock the shared
//! context and perform the backend call the result asks for.

use vstd::prelude::*;

use crate::context::Color;
use crate::context::Point;
use crate::context::PolledEvent;
use crate::context::Rect;
use crate::context::SDLContext;
use crate::error::SdlError;
use crate::input::KeySnapshot;
use crate::input::MouseSnapshot;
use crate::input::key_of;
use crate::input::mouse_button_of;
use crate::random::rand_range;

verus! {

/// Narrows a script integer to an 8-bit channel value by truncation, as the
/// boundary's fixed coercion rule prescribes.
pub fn narrow_u8(v: i64) -> (r: u8)
    ensures
        r == v as u8,
{
    #[verifier::truncate] (v as u8)
}

/// Narrows a script integer to a signed 32-bit coordinate by truncation.
pub fn narrow_i32(v: i64) -> (r: i32)
    ensures
        r == v as i32,
{
    #[verifier::truncate] (v as i32)
}

/// Narrows a script integer to an unsigned 32-bit magnitude by truncation.
pub fn narrow_u32(v: i64) -> (r: u32)
    ensures
        r == v as u32,
{
    #[verifier::truncate] (v as u32)
}

/// The registered window-creation operation: narrows the dimensions,
/// records the backend's outcome, and flattens any failure to its message.
pub fn bridge_create_window(
    ctx: &mut SDLContext,
    title: &str,
    width: i64,
    height: i64,
    backend: Result<(), String>,
) -> (r: Result<(), String>)
    requires
        old(ctx).wf(),
    ensures
        final(ctx).wf(),
        final(ctx).has_event_pump() == old(ctx).has_event_pump(),
        backend is Ok ==> r is Ok && final(ctx).has_window() && final(ctx).has_canvas()
            && final(ctx).spec_draw_color() is None,
        backend is Ok ==> (final(ctx).spec_window() matches Some(w) && w.title@ == title@
            && w.width == (width as i32) as u32 && w.height == (height as i32) as u32),
        backend matches Err(m) ==> (r matches Err(msg) && msg@ == m@) && *final(ctx) == *old(ctx),
{
    match ctx.create_window(title, narrow_i32(width), narrow_i32(height), backend) {
        Ok(()) => Ok(()),
        Err(e) => Err(e.message()),
    }
}

/// The registered draw-color operation: narrows each channel to 8 bits and
/// reports the missing-surface precondition by its message.
pub fn bridge_set_draw_color(ctx: &mut SDLContext, r: i64, g: i64, b: i64) -> (res: Result<
    Color,
    String,
>)
    requires
        old(ctx).wf(),
    ensures
        final(ctx).wf(),
        old(ctx).has_canvas() ==> res == Ok::<Color, String>(
            (Color { r: r as u8, g: g as u8, b: b as u8 }),
        ),
        old(ctx).has_canvas() ==> final(ctx).spec_draw_color() == Some(
            (Color { r: r as u8, g: g as u8, b: b as u8 }),
        ) && final(ctx).spec_window() == old(ctx).spec_window() && final(ctx).has_canvas()
            && final(ctx).has_event_pump() == old(ctx).has_event_pump(),
        !old(ctx).has_canvas() ==> (res matches Err(m) && m@ == "Canvas not initialized"@)
            && *final(ctx) == *old(ctx),
{
    match ctx.set_draw_color(narrow_u8(r), narrow_u8(g), narrow_u8(b)) {
        Ok(c) => Ok(c),
        Err(e) => Err(e.message()),
    }
}

/// The registered clear operation: succeeds exactly when a surface exists.
pub fn bridge_clear(ctx: &SDLContext) -> (r: Result<(), String>)
    ensures
        r is Ok <==> ctx.has_canvas(),
        !ctx.has_canvas() ==> (r matches Err(m) && m@ == "Canvas not initialized"@),
{
    match ctx.clear() {
        Ok(()) => Ok(()),
        Err(e) => Err(e.message()),
    }
}

/// The registered present operation: succeeds exactly when a surface
/// exists.
pub fn bridge_present(ctx: &SDLContext) -> (r: Result<(), String>)
    ensures
        r is Ok <==> ctx.has_canvas(),
        !ctx.has_canvas() ==> (r matches Err(m) && m@ == "Canvas not initialized"@),
{
    match ctx.present() {
        Ok(()) => Ok(()),
        Err(e) => Err(e.message()),
    }
}

/// The registered outline-rectangle operation: narrows every bound and
/// yields the rectangle command the host must draw.
pub fn bridge_draw_rect(ctx: &SDLContext, x: i64, y: i64, w: i64, h: i64) -> (r: Result<
    Rect,
    String,
>)
    ensures
        ctx.has_canvas() ==> r == Ok::<Rect, String>(
            (Rect {
                x: x as i32,
                y: y as i32,
                w: (w as i32) as u32,
                h: (h as i32) as u32,
            }),
        ),
        !ctx.has_canvas() ==> (r matches Err(m) && m@ == "Canvas not initialized"@),
{
    match ctx.draw_rect(narrow_i32(x), narrow_i32(y), narrow_i32(w), narrow_i32(h)) {
        Ok(rect) => Ok(rect),
        Err(e) => Err(e.message()),
    }
}

/// The registered solid-rectangle operation: narrows every bound and yields
/// the rectangle command the host must fill.
pub fn bridge_fill_rect(ctx: &SDLContext, x: i64, y: i64, w: i64, h: i64) -> (r: Result<
    Rect,
    String,
>)
    ensures
        ctx.has_canvas() ==> r == Ok::<Rect, String>(
            (Rect {
                x: x as i32,
                y: y as i32,
                w: (w as i32) as u32,
                h: (h as i32) as u32,
            }),
        ),
        !ctx.has_canvas() ==> (r matches Err(m) && m@ == "Canvas not initialized"@),
{
    match ctx.fill_rect(narrow_i32(x), narrow_i32(y), narrow_i32(w), narrow_i32(h)) {
        Ok(rect) => Ok(rect),
        Err(e) => Err(e.message()),
    }
}

/// The registered single-pixel operation: narrows the coordinate and yields
/// the point command the host must draw.
pub fn bridge_draw_point(ctx: &SDLContext, x: i64, y: i64) -> (r: Result<Point, String>)
    ensures
        ctx.has_canvas() ==> r == Ok::<Point, String>((Point { x: x as i32, y: y as i32 })),
        !ctx.has_canvas() ==> (r matches Err(m) && m@ == "Canvas not initialized"@),
{
    match ctx.draw_point(narrow_i32(x), narrow_i32(y)) {
        Ok(p) => Ok(p),
        Err(e) => Err(e.message()),
    }
}

/// The registered line operation: narrows both endpoints and yields the
/// pair of point commands the host must connect.
pub fn bridge_draw_line(ctx: &SDLContext, x1: i64, y1: i64, x2: i64, y2: i64) -> (r: Result<
    (Point, Point),
    String,
>)
    ensures
        ctx.has_canvas() ==> r == Ok::<(Point, Point), String>(
            ((Point { x: x1 as i32, y: y1 as i32 }, Point { x: x2 as i32, y: y2 as i32 })),
        ),
        !ctx.has_canvas() ==> (r matches Err(m) && m@ == "Canvas not initialized"@),
{
    match ctx.draw_line(narrow_i32(x1), narrow_i32(y1), narrow_i32(x2), narrow_i32(y2)) {
        Ok(pair) => Ok(pair),
        Err(e) => Err(e.message()),
    }
}

/// The registered event-source initialization: records the backend's
/// outcome and flattens any failure to its message.
pub fn bridge_init_event_pump(ctx: &mut SDLContext, backend: Result<(), String>) -> (r: Result<
    (),
    String,
>)
    requires
        old(ctx).wf(),
    ensures
        final(ctx).wf(),
        final(ctx).spec_window() == old(ctx).spec_window(),
        final(ctx).has_canvas() == old(ctx).has_canvas(),
        final(ctx).spec_draw_color() == old(ctx).spec_draw_color(),
        backend is Ok ==> r is Ok && final(ctx).has_event_pump(),
        backend matches Err(m) ==> (r matches Err(msg) && msg@ == m@) && *final(ctx) == *old(ctx),
{
    match ctx.init_event_pump(backend) {
        Ok(()) => Ok(()),
        Err(e) => Err(e.message()),
    }
}

/// The registered poll operation: classifies the one dequeued event into
/// the keep-running signal.
pub fn bridge_poll_event(ctx: &SDLContext, polled: Option<PolledEvent>) -> (r: Result<
    bool,
    String,
>)
    ensures
        ctx.has_event_pump() ==> r == Ok::<bool, String>(polled != Some(PolledEvent::Quit)),
        !ctx.has_event_pump() ==> (r matches Err(m) && m@ == "Event pump not initialized"@),
{
    match ctx.poll_event(polled) {
        Ok(keep) => Ok(keep),
        Err(e) => Err(e.message()),
    }
}

/// The registered key query: reports the snapshot's pressed state for a
/// supported key name and the exact validation message for any other.
pub fn bridge_is_key_down(ctx: &SDLContext, key: &str, keys: &KeySnapshot) -> (r: Result<
    bool,
    String,
>)
    ensures
        !ctx.has_event_pump() ==> (r matches Err(m) && m@ == "Event pump not initialized"@),
        key_of(key@) matches Some(k) ==> (ctx.has_event_pump() ==> r == Ok::<bool, String>(
            keys.spec_down(k),
        )),
        ctx.has_event_pump() && key_of(key@) is None ==> (r matches Err(m) && m@
            == "Unsupported key: "@ + key@),
{
    match ctx.is_key_down(key, keys) {
        Ok(down) => Ok(down),
        Err(e) => Err(e.message()),
    }
}

/// The registered mouse-button query: reports the snapshot's pressed state
/// for a supported button name and the exact validation message for any
/// other.
pub fn bridge_is_mouse_button_down(ctx: &SDLContext, button: &str, mouse: &MouseSnapshot) -> (r:
    Result<bool, String>)
    ensures
        !ctx.has_event_pump() ==> (r matches Err(m) && m@ == "Event pump not initialized"@),
        mouse_button_of(button@) matches Some(b) ==> (ctx.has_event_pump() ==> r == Ok::<
            bool,
            String,
        >(mouse.spec_pressed(b))),
        ctx.has_event_pump() && mouse_button_of(button@) is None ==> (r matches Err(m) && m@
            == "Unsupported mouse button: "@ + button@),
{
    match ctx.is_mouse_button_down(button, mouse) {
        Ok(down) => Ok(down),
        Err(e) => Err(e.message()),
    }
}

/// The registered cursor query: returns the snapshot's position, already
/// widened to the script's integer range.
pub fn bridge_get_mouse_position(ctx: &SDLContext, mouse: &MouseSnapshot) -> (r: Result<
    (i64, i64),
    String,
>)
    ensures
        ctx.has_event_pump() ==> r == Ok::<(i64, i64), String>((mouse.x, mouse.y)),
        !ctx.has_event_pump() ==> (r matches Err(m) && m@ == "Event pump not initialized"@),
{
    match ctx.get_mouse_position(mouse) {
        Ok(pos) => Ok(pos),
        Err(e) => Err(e.message()),
    }
}

/// The registered delay operation: narrows the duration to the backend's
/// millisecond range and always succeeds; the host performs the sleep.
pub fn bridge_delay(ctx: &SDLContext, ms: i64) -> (r: Result<u32, String>)
    ensures
        r == Ok::<u32, String>(ms as u32),
{
    match ctx.delay(narrow_u32(ms)) {
        Ok(d) => Ok(d),
        Err(e) => Err(e.message()),
    }
}

/// The registered random utility: samples from the inclusive range, or
/// reports the validation message for an inverted one.
pub fn bridge_rand(min: i64, max: i64) -> (r: Result<i64, String>)
    ensures
        min <= max ==> (r matches Ok(v) && min <= v <= max),
        min > max ==> (r matches Err(m) && m@ == "Invalid random range: min exceeds max"@),
{
    match rand_range(min, max) {
        Ok(v) => Ok(v),
        Err(e) => Err(e.message()),
    }
}

} // verus!
