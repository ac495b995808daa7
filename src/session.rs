//! The session's state and what each input event does to it.
use vstd::prelude::*;

use crate::bindings::{cue_for_key, cue_of, glyph_label, glyph_of, image_for_key, image_of, Key};
use crate::colour::{contrasting, is_hue, random_colour, WHITE_HUE};
use crate::placement::{placed, PlacementError, PositionStrategy, Rect, Size};

verus! {

/// A placed image awaiting render: the renderer's handle for it, and where
/// it goes.
#[derive(Clone, Copy, Debug, PartialEq, Eq, Structural)]
pub struct Drawable {
    pub handle: u64,
    pub placement: Rect,
}

/// One input event.
#[derive(Clone, Copy, Debug, PartialEq, Eq, Structural)]
pub enum Event {
    /// The window was asked to close.
    Quit,
    /// A key went down; `repeat` when it is held rather than freshly pressed.
    KeyDown { key: Key, repeat: bool },
    /// Anything else (a key released, the mouse).
    Other,
}

/// A glyph to rasterize: its label, and the hue to draw it in.
#[derive(Clone, Copy, Debug, PartialEq, Eq, Structural)]
pub struct GlyphRequest {
    pub label: char,
    pub hue: u32,
}

/// What the caller must do after an event has been handled.
#[derive(Clone, Copy, Debug)]
pub enum Action {
    /// Leave the loop: the session is over.
    Terminate,
    /// The session was reset; nothing more to do.
    Reset,
    /// A fresh press of a bound key: render and place the glyph, if any;
    /// play the cue, if any; load and place the image, if any.
    Press { glyph: Option<GlyphRequest>, cue: Option<&'static str>, image: Option<&'static str> },
    /// Nothing happens.
    Ignore,
}

/// Whether `key` is bound to anything at all.
pub open spec fn is_bound(key: Key) -> bool {
    glyph_of(key) is Some || cue_of(key) is Some || image_of(key) is Some
}

/// The action owed for a fresh press of a bound key, against a background
/// of hue `background`.
pub open spec fn press_for(action: Action, key: Key, background: int) -> bool {
    match action {
        Action::Press { glyph, cue, image } => {
            &&& match glyph {
                Some(g) => {
                    &&& glyph_of(key) == Some(g.label)
                    &&& is_hue(g.hue as int)
                    &&& contrasting(g.hue as int, background)
                },
                None => glyph_of(key) is None,
            }
            &&& match cue {
                Some(s) => cue_of(key) == Some(s@),
                None => cue_of(key) is None,
            }
            &&& match image {
                Some(s) => image_of(key) == Some(s@),
                None => image_of(key) is None,
            }
        },
        _ => false,
    }
}

/// The session: the background colour, what has been placed so far (in
/// drawing order), and the placement policy.
pub struct FrameState<S: PositionStrategy> {
    background_hue: u32,
    drawables: Vec<Drawable>,
    strategy: S,
}

impl<S: PositionStrategy> FrameState<S> {
    /// The hue of the background.
    pub closed spec fn background(&self) -> int {
        self.background_hue as int
    }

    /// The placed drawables, in drawing order.
    pub closed spec fn placements(&self) -> Seq<Drawable> {
        self.drawables@
    }

    /// The placement policy with its current state.
    pub closed spec fn strategy_state(&self) -> S {
        self.strategy
    }

    /// The background is a hue.
    pub open spec fn wf(&self) -> bool {
        is_hue(self.background())
    }

    /// A new session: nothing placed, and a background that stands out from
    /// white.
    pub fn new(strategy: S) -> (r: Self)
        ensures
            r.wf(),
            r.placements().len() == 0,
            contrasting(r.background(), WHITE_HUE as int),
            r.strategy_state() == strategy,
    {
        let background_hue = random_colour(WHITE_HUE);
        FrameState { background_hue, drawables: Vec::new(), strategy }
    }

    /// The hue of the background.
    pub fn background_hue(&self) -> (r: u32)
        ensures
            r == self.background(),
    {
        self.background_hue
    }

    /// The placed drawables, in drawing order.
    pub fn drawables(&self) -> (r: &Vec<Drawable>)
        ensures
            r@ == self.placements(),
    {
        &self.drawables
    }

    /// The placement policy with its current state.
    pub fn strategy(&self) -> (r: &S)
        ensures
            *r == self.strategy_state(),
    {
        &self.strategy
    }

    /// Clears the drawables, resets the placement policy, and picks a new
    /// background that stands out from the one before.
    pub fn reset(&mut self)
        requires
            old(self).wf(),
        ensures
            final(self).wf(),
            final(self).placements().len() == 0,
            final(self).strategy_state() == old(self).strategy_state().fresh(),
            contrasting(final(self).background(), old(self).background()),
    {
        self.drawables.clear();
        self.strategy.reset();
        self.background_hue = random_colour(self.background_hue);
    }

    /// Handles one input event.
    ///
    /// Quitting, or holding Escape down, ends the session. A fresh press of
    /// Return resets it. A fresh press of a bound key asks for its glyph (in
    /// a colour that stands out from the background), cue and image. Held
    /// keys other than Escape, unbound keys and other events do nothing.
    /// Only a reset changes the state.
    pub fn handle_event(&mut self, event: Event) -> (action: Action)
        requires
            old(self).wf(),
        ensures
            final(self).wf(),
            match event {
                Event::KeyDown { key: Key::Return, repeat: false } => {
                    &&& action is Reset
                    &&& final(self).placements().len() == 0
                    &&& final(self).strategy_state() == old(self).strategy_state().fresh()
                    &&& contrasting(final(self).background(), old(self).background())
                },
                _ => *final(self) == *old(self),
            },
            match event {
                Event::Quit => action is Terminate,
                Event::KeyDown { key, repeat: true } => if key == Key::Escape {
                    action is Terminate
                } else {
                    action is Ignore
                },
                Event::KeyDown { key: Key::Return, repeat: false } => true,
                Event::KeyDown { key, repeat: false } => if is_bound(key) {
                    press_for(action, key, old(self).background())
                } else {
                    action is Ignore
                },
                Event::Other => action is Ignore,
            },
    {
        match event {
            Event::Quit => Action::Terminate,
            Event::KeyDown { key, repeat: true } => match key {
                Key::Escape => Action::Terminate,
                _ => Action::Ignore,
            },
            Event::KeyDown { key: Key::Return, repeat: false } => {
                self.reset();
                Action::Reset
            },
            Event::KeyDown { key, repeat: false } => self.press(key),
            Event::Other => Action::Ignore,
        }
    }

    fn press(&self, key: Key) -> (action: Action)
        requires
            self.wf(),
        ensures
            if is_bound(key) {
                press_for(action, key, self.background())
            } else {
                action is Ignore
            },
    {
        let glyph = match glyph_label(key) {
            Some(label) => Some(GlyphRequest { label, hue: random_colour(self.background_hue) }),
            None => None,
        };
        let cue = cue_for_key(key);
        let image = image_for_key(key);
        if glyph.is_none() && cue.is_none() && image.is_none() {
            Action::Ignore
        } else {
            Action::Press { glyph, cue, image }
        }
    }

    /// Places an image of size `size`, known to the renderer by `handle`,
    /// on a surface of size `bounds`, and appends it to the drawables.
    ///
    /// The placement policy decides where it goes, and moves on as one call
    /// of its `next_position` does. An image larger than the surface is not
    /// placed, and the drawables stay as they are.
    pub fn place_drawable(&mut self, handle: u64, size: Size, bounds: Size) -> (r: Result<
        Rect,
        PlacementError,
    >)
        requires
            old(self).wf(),
        ensures
            final(self).wf(),
            placed(size, bounds, r),
            old(self).strategy_state().step(size, bounds, r, final(self).strategy_state()),
            final(self).background() == old(self).background(),
            match r {
                Ok(rect) => final(self).placements() == old(self).placements().push(
                    Drawable { handle, placement: rect },
                ),
                Err(_) => final(self).placements() == old(self).placements(),
            },
    {
        let r = self.strategy.next_position(size, bounds);
        match r {
            Ok(rect) => {
                self.drawables.push(Drawable { handle, placement: rect });
            },
            Err(_) => {},
        }
        r
    }
}

} // verus!
