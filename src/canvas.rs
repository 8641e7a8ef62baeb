use vstd::prelude::*;

use crate::surface::{cleared, dotted, uniform, Color, Surface};

verus! {

/// The toolkit's identifier of the primary pointer button.
pub const BUTTON_PRIMARY: u32 = 1;

/// The toolkit's identifier of the secondary pointer button.
pub const BUTTON_SECONDARY: u32 = 3;

/// The bit of a pointer event's modifier state that is set while the primary
/// button is held down.
pub const BUTTON1_MASK: u32 = 0x100;

/// A part of the drawing widget that the toolkit is asked to draw again.
#[derive(Clone, Copy, Debug, PartialEq, Eq, Structural)]
pub enum Repaint {
    /// Nothing changed on screen.
    Nothing,
    /// The rectangle with top-left corner (`x`, `y`) and the given size.
    Area { x: i64, y: i64, width: i64, height: i64 },
    /// The whole widget.
    Whole,
}

/// What an input handler hands back to the toolkit.
#[derive(Clone, Copy, Debug, PartialEq, Eq, Structural)]
pub struct Reply {
    /// The region to invalidate.
    pub repaint: Repaint,
    /// Whether the event is fully handled, so that no default handling follows.
    pub handled: bool,
}

/// The rectangle covered by the dot centred at (`x`, `y`).
pub open spec fn dot_area(x: i32, y: i32) -> Repaint {
    Repaint::Area { x: (x - 3) as i64, y: (y - 3) as i64, width: 6, height: 6 }
}

/// The pixels after a press of `button` at (`x`, `y`) on a surface holding `p`.
pub open spec fn pressed(p: Seq<Seq<Color>>, button: u32, x: i32, y: i32) -> Seq<Seq<Color>> {
    if button == BUTTON_PRIMARY {
        dotted(p, x as int, y as int)
    } else if button == BUTTON_SECONDARY {
        cleared(p)
    } else {
        p
    }
}

/// The repaint that follows a press of `button` at (`x`, `y`) on an existing surface.
pub open spec fn press_repaint(button: u32, x: i32, y: i32) -> Repaint {
    if button == BUTTON_PRIMARY {
        dot_area(x, y)
    } else if button == BUTTON_SECONDARY {
        Repaint::Whole
    } else {
        Repaint::Nothing
    }
}

/// Whether a pointer moving with modifier state `state` paints.
pub open spec fn drags(state: u32) -> bool {
    state & BUTTON1_MASK != 0
}

/// A secondary-button press turns any surface fully white, keeping its shape,
/// whatever was painted on it before and wherever the press happens.
pub proof fn lemma_secondary_press_whitens(p: Seq<Seq<Color>>, x: i32, y: i32)
    ensures
        pressed(p, BUTTON_SECONDARY, x, y) == cleared(p),
        pressed(p, BUTTON_SECONDARY, x, y).len() == p.len(),
        forall|row: int, col: int|
            0 <= row < p.len() && 0 <= col < p[row].len() ==> #[trigger] pressed(
                p,
                BUTTON_SECONDARY,
                x,
                y,
            )[row][col] == Color::White,
{
    crate::surface::lemma_clear_idempotent(p);
}

/// The drawing widget's state: its backing surface exists from the first
/// resize until the window closes.
pub enum Canvas {
    /// No resize has happened yet, or the window was closed.
    Uninitialized,
    /// The backing surface, sized to the widget.
    Ready(Surface),
}

/// Paints the dot centred at (`x`, `y`) and returns the rectangle to redraw.
fn brush(s: &mut Surface, x: i32, y: i32) -> (r: Repaint)
    ensures
        final(s).spec_width() == old(s).spec_width(),
        final(s)@ == dotted(old(s)@, x as int, y as int),
        r == dot_area(x, y),
{
    s.paint_dot(x, y);
    Repaint::Area { x: x as i64 - 3, y: y as i64 - 3, width: 6, height: 6 }
}

impl Canvas {
    /// A canvas before its first resize.
    pub fn new() -> (c: Canvas)
        ensures
            c is Uninitialized,
    {
        Canvas::Uninitialized
    }

    /// Whether the backing surface exists.
    pub fn is_ready(&self) -> (r: bool)
        ensures
            r == self is Ready,
    {
        match self {
            Canvas::Ready(_) => true,
            Canvas::Uninitialized => false,
        }
    }

    /// Handles a resize of the widget to `width` × `height`: the previous
    /// surface is dropped and a white one of the new size takes its place.
    /// The event is always reported as handled.
    pub fn configure(&mut self, width: usize, height: usize) -> (handled: bool)
        ensures
            handled,
            (*final(self)) is Ready,
            (*final(self))->Ready_0.spec_width() == width,
            (*final(self))->Ready_0@ == uniform(width as nat, height as nat, Color::White),
    {
        *self = Canvas::Ready(Surface::new(width, height));
        true
    }

    /// Handles a repaint request: the surface to copy onto the widget at
    /// offset (0, 0), if one exists. Nothing changes, and other draw handlers
    /// still run.
    pub fn draw(&self) -> (r: Option<&Surface>)
        ensures
            r == (match self {
                Canvas::Ready(s) => Some(s),
                Canvas::Uninitialized => None::<&Surface>,
            }),
    {
        match self {
            Canvas::Ready(s) => Some(s),
            Canvas::Uninitialized => None,
        }
    }

    /// Handles a press of `button` at (`x`, `y`): the primary button paints a
    /// dot there, the secondary one clears the surface, others do nothing.
    /// Before the first resize nothing happens. Always handled.
    pub fn button_press(&mut self, button: u32, x: i32, y: i32) -> (r: Reply)
        ensures
            r.handled,
            (*old(self)) is Uninitialized ==> *final(self) == *old(self) && r.repaint
                == Repaint::Nothing,
            (*old(self)) is Ready ==> (*final(self)) is Ready
                && (*final(self))->Ready_0.spec_width() == (*old(self))->Ready_0.spec_width()
                && (*final(self))->Ready_0@ == pressed((*old(self))->Ready_0@, button, x, y)
                && r.repaint == press_repaint(button, x, y),
    {
        let repaint = match self {
            Canvas::Uninitialized => Repaint::Nothing,
            Canvas::Ready(s) => {
                if button == BUTTON_PRIMARY {
                    brush(s, x, y)
                } else if button == BUTTON_SECONDARY {
                    s.clear();
                    Repaint::Whole
                } else {
                    Repaint::Nothing
                }
            },
        };
        Reply { repaint, handled: true }
    }

    /// Handles a pointer motion to (`x`, `y`) with modifier state `state`:
    /// while the primary button is held, a dot is painted there. Before the
    /// first resize nothing happens. Always handled.
    pub fn motion_notify(&mut self, state: u32, x: i32, y: i32) -> (r: Reply)
        ensures
            r.handled,
            ((*old(self)) is Uninitialized || !drags(state)) ==> *final(self) == *old(self)
                && r.repaint == Repaint::Nothing,
            ((*old(self)) is Ready && drags(state)) ==> (*final(self)) is Ready
                && (*final(self))->Ready_0.spec_width() == (*old(self))->Ready_0.spec_width()
                && (*final(self))->Ready_0@ == dotted((*old(self))->Ready_0@, x as int, y as int)
                && r.repaint == dot_area(x, y),
    {
        let mut repaint = Repaint::Nothing;
        if state & BUTTON1_MASK != 0 {
            if let Canvas::Ready(s) = self {
                repaint = brush(s, x, y);
            }
        }
        Reply { repaint, handled: true }
    }

    /// Handles the window closing: the surface is released.
    pub fn close(&mut self)
        ensures
            (*final(self)) is Uninitialized,
    {
        *self = Canvas::Uninitialized;
    }
}

} // verus!
