//! The demo: one shape in one colour, chosen and recoloured from the
//! keyboard.

use crate::color::Color;
use crate::draw::{draw_circle, draw_square, draw_triangle, painted};
use crate::init::{Handlers, Size, State};
use crate::input::{InputEvent, Key, KeyAction};
use crate::shape::Shape;
use vstd::prelude::*;

verus! {

/// By how much one press of an arrow key cycles the colour.
pub const CYCLE_STEP: i32 = 25;

/// What the demo shows: the active shape and its colour.
#[derive(Clone, Copy, Debug)]
pub struct DemoApp {
    pub shape: Shape,
    pub color: Color,
}

impl DemoApp {
    /// A white circle.
    pub fn new() -> (app: DemoApp)
        ensures
            app.shape == Shape::CIRCLE,
            app.color == Color::pack(255, 255, 255),
            app.color.channels() == (255u8, 255u8, 255u8),
    {
        Self { color: Color::new(255, 255, 255), shape: Shape::CIRCLE }
    }

    /// Selects the circle.
    pub fn c(&mut self)
        ensures
            *final(self) == old(self).with_shape(Shape::CIRCLE),
    {
        self.shape = Shape::CIRCLE;
    }

    /// Selects the triangle.
    pub fn t(&mut self)
        ensures
            *final(self) == old(self).with_shape(Shape::TRIANGLE),
    {
        self.shape = Shape::TRIANGLE;
    }

    /// Selects the square.
    pub fn s(&mut self)
        ensures
            *final(self) == old(self).with_shape(Shape::SQUARE),
    {
        self.shape = Shape::SQUARE;
    }

    /// Cycles the colour forward by one step.
    pub fn up(&mut self)
        ensures
            *final(self) == old(self).recolored(CYCLE_STEP as int),
    {
        self.color.cycle(CYCLE_STEP);
    }

    /// Cycles the colour backward by one step.
    pub fn down(&mut self)
        ensures
            *final(self) == old(self).recolored(-CYCLE_STEP),
    {
        self.color.cycle(-CYCLE_STEP);
    }

    /// This demo with `shape` as its active shape.
    pub open spec fn with_shape(self, shape: Shape) -> DemoApp {
        DemoApp { shape, color: self.color }
    }

    /// This demo with its colour cycled by `amount`.
    pub open spec fn recolored(self, amount: int) -> DemoApp {
        DemoApp { shape: self.shape, color: self.color.cycled(amount) }
    }

    /// What a key that goes down does to the demo, and whether the demo
    /// has a use for the key.
    pub open spec fn pressed(self, key: Key) -> (DemoApp, bool) {
        match key {
            Key::C => (self.with_shape(Shape::CIRCLE), true),
            Key::S => (self.with_shape(Shape::SQUARE), true),
            Key::T => (self.with_shape(Shape::TRIANGLE), true),
            Key::ArrowUp => (self.recolored(CYCLE_STEP as int), true),
            Key::ArrowDown => (self.recolored(-CYCLE_STEP), true),
            _ => (self, false),
        }
    }
}

impl Handlers for DemoApp {
    /// Only a key that goes down is acted on; a held or released key and
    /// every other event are left to the caller.
    open spec fn handled(self, event: InputEvent) -> (DemoApp, bool) {
        match event {
            InputEvent::Key { key, action: KeyAction::Pressed } => self.pressed(key),
            _ => (self, false),
        }
    }

    /// The picture of the active shape in the active colour.
    open spec fn frame(self, size: Size) -> Seq<u8> {
        painted(self.shape, self.color.channels(), size.width, size.height)
    }

    proof fn lemma_frame_len(self, size: Size) {
    }

    fn input(state: &mut State<DemoApp>, event: &InputEvent) -> (consumed: bool) {
        demo_input_handler(state, event)
    }

    fn update(state: &mut State<DemoApp>) {
        demo_update_handler(state)
    }
}

/// The demo's reaction to one event: C, S and T select the circle, the
/// square and the triangle; the up and down arrows cycle the colour
/// forward and backward. Returns whether the event was one of these.
pub fn demo_input_handler(state: &mut State<DemoApp>, event: &InputEvent) -> (consumed: bool)
    requires
        old(state).wf(),
    ensures
        final(state).wf(),
        final(state)@ == old(state)@.with_context(old(state).game_context.handled(*event).0),
        consumed == old(state).game_context.handled(*event).1,
{
    match event {
        InputEvent::Key { key, action: KeyAction::Pressed } => {
            match key {
                Key::C => {
                    state.game_context.c();
                    true
                },
                Key::S => {
                    state.game_context.s();
                    true
                },
                Key::T => {
                    state.game_context.t();
                    true
                },
                Key::ArrowUp => {
                    state.game_context.up();
                    true
                },
                Key::ArrowDown => {
                    state.game_context.down();
                    true
                },
                _ => false,
            }
        },
        _ => false,
    }
}

/// Repaints the canvas with the active shape in the active colour.
pub fn demo_update_handler(state: &mut State<DemoApp>)
    requires
        old(state).wf(),
    ensures
        final(state).wf(),
        final(state)@ == old(state)@.with_pixels(old(state).game_context.frame(old(state).size)),
{
    match state.game_context.shape {
        Shape::CIRCLE => {
            draw_circle(state);
        },
        Shape::SQUARE => {
            draw_square(state);
        },
        Shape::TRIANGLE => {
            draw_triangle(state);
        },
    }
}

} // verus!
