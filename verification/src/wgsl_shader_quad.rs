//! A widget where a WGSL shader is rendered on a quad.
//!
//! The widget follows the mouse: which button is held down on it, and whether
//! the cursor is over it. It hands that state to its shader with every draw,
//! and it tells the application when it is pressed, entered or left.

use vstd::prelude::*;
use crate::primitive::{Color, Float, Point, Rectangle, ONE_BITS};
use crate::renderer::{CustomShaderQuad, Primitive, Renderer};
use crate::shader::Handle;

verus! {

/// The bit pattern of the red component of the background, 32 / 255.
pub const BACKGROUND_RED_BITS: u32 = 0x3e00_8081;

/// The bit pattern of the green component of the background, 34 / 255.
pub const BACKGROUND_GREEN_BITS: u32 = 0x3e08_8889;

/// The bit pattern of the blue component of the background, 37 / 255.
pub const BACKGROUND_BLUE_BITS: u32 = 0x3e14_9495;

/// The frame number that the widget hands to its shader.
pub const FRAME_NUMBER: u32 = 1;

/// The padding of a new widget, on every side.
pub const DEFAULT_PADDING: u16 = 5;

/// Which button is held down on the widget.
#[derive(Clone, Copy, Debug, PartialEq, Eq, Structural)]
pub enum ShaderMouseState {
    /// No button is held down.
    Idle,
    /// The left button is held down.
    LeftPressed,
    /// The right button is held down.
    RightPressed,
}

/// The packed mouse state: 1 for the left button, 2 for the right button,
/// 4 for the cursor over the widget, added up.
pub open spec fn mouse_state_bits(mouse: ShaderMouseState, hovered: bool) -> u32 {
    let left: u32 = if mouse == ShaderMouseState::LeftPressed { 1 } else { 0 };
    let right: u32 = if mouse == ShaderMouseState::RightPressed { 2 } else { 0 };
    let hover: u32 = if hovered { 4 } else { 0 };
    (hover + right + left) as u32
}

impl ShaderMouseState {
    /// Packs the state of the mouse into three bits: bit 0 is set while the
    /// left button is pressed, bit 1 while the right button is pressed, bit 2
    /// while the cursor is over the widget.
    pub fn encode(&self, hovered: bool) -> (code: u32)
        ensures
            code == mouse_state_bits(*self, hovered),
            code == (if hovered { 1u32 } else { 0u32 }) << 2 | (if *self
                == ShaderMouseState::RightPressed { 1u32 } else { 0u32 }) << 1 | (if *self
                == ShaderMouseState::LeftPressed { 1u32 } else { 0u32 }),
            (code & 1 == 1) == (*self == ShaderMouseState::LeftPressed),
            (code & 2 == 2) == (*self == ShaderMouseState::RightPressed),
            (code & 4 == 4) == hovered,
            code < 8,
    {
        let mut left_mouse_click: u32 = 0;
        let mut right_mouse_click: u32 = 0;
        match self {
            ShaderMouseState::Idle => {},
            ShaderMouseState::LeftPressed => {
                left_mouse_click = 1;
            },
            ShaderMouseState::RightPressed => {
                right_mouse_click = 1;
            },
        }
        let mouse_hover: u32 = if hovered { 1 } else { 0 };
        let code = (mouse_hover << 2) | right_mouse_click << 1 | left_mouse_click;
        assert(code == 4 * mouse_hover + 2 * right_mouse_click + left_mouse_click && code < 8
            && (code & 1 == 1) == (left_mouse_click == 1) && (code & 2 == 2) == (right_mouse_click
            == 1) && (code & 4 == 4) == (mouse_hover == 1)) by (bit_vector)
            requires
                code == (mouse_hover << 2) | right_mouse_click << 1 | left_mouse_click,
                mouse_hover <= 1,
                right_mouse_click <= 1,
                left_mouse_click <= 1,
                right_mouse_click + left_mouse_click <= 1,
        ;
        code
    }
}

impl Default for ShaderMouseState {
    fn default() -> (state: Self)
        ensures
            state == ShaderMouseState::Idle,
    {
        ShaderMouseState::Idle
    }
}

/// The local state of a [`WgslShaderQuad`].
#[derive(Clone, Copy, Debug, PartialEq, Eq, Structural)]
pub struct State {
    /// Which button is held down on the widget.
    pub mouse: ShaderMouseState,
    /// Whether the cursor is over the widget.
    pub hover: bool,
}

impl State {
    /// The state that a widget begins in: no button down, not hovered.
    pub open spec fn initial() -> State {
        State { mouse: ShaderMouseState::Idle, hover: false }
    }

    /// Creates a new [`State`].
    pub fn new() -> (state: State)
        ensures
            state == State::initial(),
    {
        State { mouse: ShaderMouseState::Idle, hover: false }
    }
}

impl Default for State {
    fn default() -> (state: Self)
        ensures
            state == State::initial(),
    {
        State::new()
    }
}

/// A button of the mouse.
#[derive(Clone, Copy, Debug, PartialEq, Eq, Structural)]
pub enum Button {
    /// The left mouse button.
    Left,
    /// The right mouse button.
    Right,
    /// The middle (wheel) button.
    Middle,
    /// Some other button.
    Other(u8),
}

/// What the widget is told of the user's input.
#[derive(Clone, Copy, Debug, PartialEq, Eq, Structural)]
pub enum Event {
    /// A mouse button was pressed.
    ButtonPressed(Button),
    /// A mouse button was released.
    ButtonReleased(Button),
    /// The mouse cursor was moved.
    CursorMoved,
    /// Anything else.
    Other,
}

/// What became of an event.
#[derive(Clone, Copy, Debug, PartialEq, Eq, Structural)]
pub enum Status {
    /// The event was not handled.
    Ignored,
    /// The event was handled and is not to be handed on.
    Captured,
}

/// The look of the mouse cursor.
#[derive(Clone, Copy, Debug, PartialEq, Eq, Structural)]
pub enum Interaction {
    /// The usual cursor.
    Idle,
    /// The cursor over something that can be pressed.
    Pointer,
}

/// The messages that a widget can be set up to produce.
#[derive(Clone, Copy, Debug, PartialEq, Eq, Structural)]
pub enum Callback {
    /// The widget was pressed and released.
    Press,
    /// The cursor came over the widget.
    HoverEntering,
    /// The cursor left the widget.
    HoverLeaving,
}

/// The space around the content of a widget.
#[derive(Clone, Copy, Debug, PartialEq, Eq, Structural)]
pub struct Padding {
    /// Top padding
    pub top: u16,
    /// Right padding
    pub right: u16,
    /// Bottom padding
    pub bottom: u16,
    /// Left padding
    pub left: u16,
}

impl Padding {
    /// The same padding on every side.
    pub fn new(padding: u16) -> (all: Padding)
        ensures
            all == Padding::uniform(padding),
    {
        Padding { top: padding, right: padding, bottom: padding, left: padding }
    }

    /// The same padding on every side.
    pub open spec fn uniform(padding: u16) -> Padding {
        Padding { top: padding, right: padding, bottom: padding, left: padding }
    }
}

/// The state after an event, with the cursor inside the bounds of the widget
/// or outside of them.
///
/// A press of the left button inside the bounds is taken unless the right
/// button is held; a press of the right button inside the bounds is always
/// taken. A release ends the press of its own button, wherever the cursor is.
/// A move of the cursor sets whether the widget is hovered. Nothing else
/// changes the state.
pub open spec fn next_state(state: State, event: Event, cursor_in_bounds: bool) -> State {
    match event {
        Event::ButtonPressed(Button::Left) => if cursor_in_bounds && state.mouse
            != ShaderMouseState::RightPressed {
            State { mouse: ShaderMouseState::LeftPressed, hover: state.hover }
        } else {
            state
        },
        Event::ButtonPressed(Button::Right) => if cursor_in_bounds {
            State { mouse: ShaderMouseState::RightPressed, hover: state.hover }
        } else {
            state
        },
        Event::ButtonReleased(Button::Left) => if state.mouse == ShaderMouseState::LeftPressed {
            State { mouse: ShaderMouseState::Idle, hover: state.hover }
        } else {
            state
        },
        Event::ButtonReleased(Button::Right) => if state.mouse == ShaderMouseState::RightPressed {
            State { mouse: ShaderMouseState::Idle, hover: state.hover }
        } else {
            state
        },
        Event::CursorMoved => State { mouse: state.mouse, hover: cursor_in_bounds },
        _ => state,
    }
}

/// What an event gives rise to, if the widget has a message for it: a press,
/// when the left button is released inside the bounds after it was pressed
/// there; an entering or a leaving, when a move of the cursor changes whether
/// the widget is hovered.
pub open spec fn occasion(state: State, event: Event, cursor_in_bounds: bool) -> Option<Callback> {
    match event {
        Event::ButtonReleased(Button::Left) => if state.mouse == ShaderMouseState::LeftPressed
            && cursor_in_bounds {
            Some(Callback::Press)
        } else {
            None
        },
        Event::CursorMoved => if !state.hover && cursor_in_bounds {
            Some(Callback::HoverEntering)
        } else if state.hover && !cursor_in_bounds {
            Some(Callback::HoverLeaving)
        } else {
            None
        },
        _ => None,
    }
}

/// A widget where a WGSL shader is rendered on a quad.
#[derive(Debug)]
pub struct WgslShaderQuad<Message> {
    /// The message produced when the widget is pressed.
    pub on_press: Option<Message>,
    /// The message produced when the cursor comes over the widget.
    pub on_hover_entering: Option<Message>,
    /// The message produced when the cursor leaves the widget.
    pub on_hover_leaving: Option<Message>,
    /// The width of the widget.
    pub width: Float,
    /// The height of the widget.
    pub height: Float,
    /// The padding of the widget.
    pub padding: Padding,
    /// The time in seconds that the animation has run.
    pub time: Float,
    /// The shader.
    pub handle: Handle,
}

impl<Message: Clone> Clone for WgslShaderQuad<Message> {
    /// A widget with the same shader, size, padding and time, and with a
    /// clone of every message.
    fn clone(&self) -> (copy: Self)
        ensures
            copy.on_press.is_some() == self.on_press.is_some(),
            copy.on_hover_entering.is_some() == self.on_hover_entering.is_some(),
            copy.on_hover_leaving.is_some() == self.on_hover_leaving.is_some(),
            copy.width == self.width,
            copy.height == self.height,
            copy.padding == self.padding,
            copy.time == self.time,
            copy.handle == self.handle,
    {
        WgslShaderQuad {
            on_press: self.on_press.clone(),
            on_hover_entering: self.on_hover_entering.clone(),
            on_hover_leaving: self.on_hover_leaving.clone(),
            width: self.width,
            height: self.height,
            padding: self.padding,
            time: self.time,
            handle: self.handle.clone(),
        }
    }
}

impl<Message> WgslShaderQuad<Message> {
    /// The message that the widget is set up to produce on an occasion.
    pub open spec fn message_for(&self, callback: Callback) -> Option<Message> {
        match callback {
            Callback::Press => self.on_press,
            Callback::HoverEntering => self.on_hover_entering,
            Callback::HoverLeaving => self.on_hover_leaving,
        }
    }

    /// The message that an event makes the widget produce.
    pub open spec fn message(&self, state: State, event: Event, cursor_in_bounds: bool) -> Option<
        Message,
    > {
        match occasion(state, event, cursor_in_bounds) {
            Some(callback) => self.message_for(callback),
            None => None,
        }
    }

    /// Whether the widget keeps an event to itself.
    ///
    /// It keeps a press of the left button that it takes, if it has a message
    /// to produce for a press; a press of the right button that it takes; a
    /// release that ends a press; and a move of the cursor for which it
    /// produces a message.
    pub open spec fn status(&self, state: State, event: Event, cursor_in_bounds: bool) -> Status {
        let captured = match event {
            Event::ButtonPressed(Button::Left) => cursor_in_bounds && state.mouse
                != ShaderMouseState::RightPressed && self.on_press.is_some(),
            Event::ButtonPressed(Button::Right) => cursor_in_bounds,
            Event::ButtonReleased(Button::Left) => state.mouse == ShaderMouseState::LeftPressed,
            Event::ButtonReleased(Button::Right) => state.mouse == ShaderMouseState::RightPressed,
            Event::CursorMoved => self.message(state, event, cursor_in_bounds).is_some(),
            _ => false,
        };
        if captured {
            Status::Captured
        } else {
            Status::Ignored
        }
    }

    /// What the widget asks the renderer to draw.
    pub open spec fn primitive(
        &self,
        state: State,
        bounds: Rectangle<Float>,
        cursor_position: Point,
    ) -> Primitive {
        Primitive {
            quad: CustomShaderQuad {
                bounds,
                mouse_position: cursor_position,
                mouse_click: mouse_state_bits(state.mouse, state.hover),
                time: self.time,
                frame_number: FRAME_NUMBER,
                handle: self.handle,
            },
            background: background(),
        }
    }

    /// Creates a new [`WgslShaderQuad`] with the given shader and size: no
    /// messages, a padding of [`DEFAULT_PADDING`], the time zero.
    pub fn new(handle: Handle, width: Float, height: Float) -> (quad: Self)
        ensures
            quad.on_press.is_none(),
            quad.on_hover_entering.is_none(),
            quad.on_hover_leaving.is_none(),
            quad.width == width,
            quad.height == height,
            quad.padding == Padding::uniform(DEFAULT_PADDING),
            quad.time.bits == 0,
            quad.handle == handle,
    {
        WgslShaderQuad {
            on_press: None,
            on_hover_entering: None,
            on_hover_leaving: None,
            width,
            height,
            padding: Padding::new(DEFAULT_PADDING),
            time: Float::zero(),
            handle,
        }
    }

    /// Sets the width of the [`WgslShaderQuad`].
    pub fn width(self, width: Float) -> (quad: Self)
        ensures
            quad == (WgslShaderQuad { width, ..self }),
    {
        let mut quad = self;
        quad.width = width;
        quad
    }

    /// Sets the height of the [`WgslShaderQuad`].
    pub fn height(self, height: Float) -> (quad: Self)
        ensures
            quad == (WgslShaderQuad { height, ..self }),
    {
        let mut quad = self;
        quad.height = height;
        quad
    }

    /// Sets the [`Padding`] of the [`WgslShaderQuad`].
    pub fn padding(self, padding: Padding) -> (quad: Self)
        ensures
            quad == (WgslShaderQuad { padding, ..self }),
    {
        let mut quad = self;
        quad.padding = padding;
        quad
    }

    /// Sets the [`Handle`] of the [`WgslShaderQuad`].
    pub fn handle(self, handle: Handle) -> (quad: Self)
        ensures
            quad == (WgslShaderQuad { handle, ..self }),
    {
        let mut quad = self;
        quad.handle = handle;
        quad
    }

    /// Sets the time of the [`WgslShaderQuad`] animation.
    pub fn set_time(&mut self, time: Float)
        ensures
            *final(self) == (WgslShaderQuad { time, ..*old(self) }),
    {
        self.time = time;
    }

    /// Sets the message that will be produced when the [`WgslShaderQuad`] is pressed.
    pub fn on_press(self, msg: Message) -> (quad: Self)
        ensures
            quad == (WgslShaderQuad { on_press: Some(msg), ..self }),
    {
        let mut quad = self;
        quad.on_press = Some(msg);
        quad
    }

    /// Sets the message that will be produced when the [`WgslShaderQuad`] is leaving the hovered state.
    pub fn on_hover_leaving(self, msg: Message) -> (quad: Self)
        ensures
            quad == (WgslShaderQuad { on_hover_leaving: Some(msg), ..self }),
    {
        let mut quad = self;
        quad.on_hover_leaving = Some(msg);
        quad
    }

    /// Sets the message that will be produced when the [`WgslShaderQuad`] is entering the hovered state.
    pub fn on_hover_entering(self, msg: Message) -> (quad: Self)
        ensures
            quad == (WgslShaderQuad { on_hover_entering: Some(msg), ..self }),
    {
        let mut quad = self;
        quad.on_hover_entering = Some(msg);
        quad
    }

    /// The look of the cursor: a pointer over a widget that can be pressed.
    pub fn mouse_interaction(&self, cursor_in_bounds: bool) -> (interaction: Interaction)
        ensures
            interaction == if cursor_in_bounds && self.on_press.is_some() {
                Interaction::Pointer
            } else {
                Interaction::Idle
            },
    {
        if cursor_in_bounds && self.on_press.is_some() {
            Interaction::Pointer
        } else {
            Interaction::Idle
        }
    }

    /// Takes an event: moves `state` on, and returns whether the event was
    /// kept and the message to publish, if there is one. `cursor_in_bounds`
    /// tells whether the cursor is inside the bounds of the widget.
    pub fn on_event<'a>(
        &'a self,
        state: &mut State,
        event: Event,
        cursor_in_bounds: bool,
    ) -> (outcome: (Status, Option<&'a Message>))
        ensures
            *final(state) == next_state(*old(state), event, cursor_in_bounds),
            outcome.0 == self.status(*old(state), event, cursor_in_bounds),
            match outcome.1 {
                Some(message) => self.message(*old(state), event, cursor_in_bounds) == Some(
                    *message,
                ),
                None => self.message(*old(state), event, cursor_in_bounds).is_none(),
            },
    {
        match event {
            Event::ButtonPressed(Button::Left) => {
                if cursor_in_bounds && state.mouse != ShaderMouseState::RightPressed {
                    state.mouse = ShaderMouseState::LeftPressed;
                    if self.on_press.is_some() {
                        return (Status::Captured, None);
                    }
                }
            },
            Event::ButtonPressed(Button::Right) => {
                if cursor_in_bounds {
                    state.mouse = ShaderMouseState::RightPressed;
                    return (Status::Captured, None);
                }
            },
            Event::ButtonReleased(Button::Left) => {
                if state.mouse == ShaderMouseState::LeftPressed {
                    state.mouse = ShaderMouseState::Idle;
                    if cursor_in_bounds {
                        return (Status::Captured, self.on_press.as_ref());
                    }
                    return (Status::Captured, None);
                }
            },
            Event::ButtonReleased(Button::Right) => {
                if state.mouse == ShaderMouseState::RightPressed {
                    state.mouse = ShaderMouseState::Idle;
                    return (Status::Captured, None);
                }
            },
            Event::CursorMoved => {
                let was_hovered = state.hover;
                state.hover = cursor_in_bounds;
                if !was_hovered && cursor_in_bounds {
                    if self.on_hover_entering.is_some() {
                        return (Status::Captured, self.on_hover_entering.as_ref());
                    }
                } else if was_hovered && !cursor_in_bounds {
                    if self.on_hover_leaving.is_some() {
                        return (Status::Captured, self.on_hover_leaving.as_ref());
                    }
                }
            },
            _ => {},
        }
        (Status::Ignored, None)
    }

    /// Draws the widget: asks the renderer for one quad with the shader of the
    /// widget, the state of the mouse and the time.
    pub fn draw<R: Renderer>(
        &self,
        state: &State,
        renderer: &mut R,
        bounds: Rectangle<Float>,
        cursor_position: Point,
    )
        ensures
            final(renderer).primitives() == old(renderer).primitives().push(
                self.primitive(*state, bounds, cursor_position),
            ),
    {
        renderer.make_custom_shader_quad(
            CustomShaderQuad {
                bounds,
                handle: self.handle.clone(),
                mouse_position: cursor_position,
                mouse_click: state.mouse.encode(state.hover),
                time: self.time,
                frame_number: FRAME_NUMBER,
            },
            background_color(),
        );
    }
}

/// The color behind the shader: a dark gray.
pub open spec fn background() -> Color {
    Color {
        r: Float { bits: BACKGROUND_RED_BITS },
        g: Float { bits: BACKGROUND_GREEN_BITS },
        b: Float { bits: BACKGROUND_BLUE_BITS },
        a: Float { bits: ONE_BITS },
    }
}

/// The color behind the shader.
pub fn background_color() -> (color: Color)
    ensures
        color == background(),
{
    Color::from_rgb(
        Float::from_bits(BACKGROUND_RED_BITS),
        Float::from_bits(BACKGROUND_GREEN_BITS),
        Float::from_bits(BACKGROUND_BLUE_BITS),
    )
}

/// The packed state can be read back bit by bit, and it never shows both
/// buttons at once.
pub proof fn lemma_mouse_state_bits(mouse: ShaderMouseState, hovered: bool)
    ensures
        mouse_state_bits(mouse, hovered) < 8,
        (mouse_state_bits(mouse, hovered) & 1 == 1) == (mouse == ShaderMouseState::LeftPressed),
        (mouse_state_bits(mouse, hovered) & 2 == 2) == (mouse == ShaderMouseState::RightPressed),
        (mouse_state_bits(mouse, hovered) & 4 == 4) == hovered,
        mouse_state_bits(mouse, hovered) & 3 != 3,
{
    let bits = mouse_state_bits(mouse, hovered);
    assert(bits == 0 || bits == 1 || bits == 2 || bits == 4 || bits == 5 || bits == 6);
    assert(bits < 8 ==> ((bits & 1 == 1) == (bits == 1 || bits == 3 || bits == 5 || bits == 7))
        && ((bits & 2 == 2) == (bits == 2 || bits == 3 || bits == 6 || bits == 7)) && ((bits & 4
        == 4) == (bits >= 4)) && ((bits & 3 == 3) == (bits == 3 || bits == 7))) by (bit_vector);
}

/// A press is committed by the release of the left button, and only if both
/// the press and the release land inside the bounds. The release ends the
/// press and is kept either way.
pub proof fn lemma_press_commits_inside<Message>(
    quad: WgslShaderQuad<Message>,
    state: State,
    event: Event,
    cursor_in_bounds: bool,
)
    ensures
        occasion(state, event, cursor_in_bounds) == Some(Callback::Press) <==> event
            == Event::ButtonReleased(Button::Left) && state.mouse == ShaderMouseState::LeftPressed
            && cursor_in_bounds,
        event == Event::ButtonReleased(Button::Left) && state.mouse
            == ShaderMouseState::LeftPressed ==> {
            &&& next_state(state, event, cursor_in_bounds).mouse == ShaderMouseState::Idle
            &&& quad.status(state, event, cursor_in_bounds) == Status::Captured
            &&& quad.message(state, event, cursor_in_bounds) == if cursor_in_bounds {
                quad.on_press
            } else {
                None
            }
        },
        next_state(state, event, cursor_in_bounds).mouse == ShaderMouseState::LeftPressed
            ==> state.mouse == ShaderMouseState::LeftPressed || (event == Event::ButtonPressed(
            Button::Left,
        ) && cursor_in_bounds),
{
}

/// A move of the cursor makes the widget hovered exactly if the cursor is
/// inside the bounds, and gives rise to an entering or a leaving exactly if
/// that is a change. Nothing but a move changes whether the widget is
/// hovered, and a move changes nothing else.
pub proof fn lemma_hover_follows_cursor<Message>(
    quad: WgslShaderQuad<Message>,
    state: State,
    event: Event,
    cursor_in_bounds: bool,
)
    ensures
        event == Event::CursorMoved ==> {
            &&& next_state(state, event, cursor_in_bounds).hover == cursor_in_bounds
            &&& next_state(state, event, cursor_in_bounds).mouse == state.mouse
            &&& occasion(state, event, cursor_in_bounds) == Some(Callback::HoverEntering)
                <==> !state.hover && cursor_in_bounds
            &&& occasion(state, event, cursor_in_bounds) == Some(Callback::HoverLeaving)
                <==> state.hover && !cursor_in_bounds
        },
        event != Event::CursorMoved ==> {
            &&& next_state(state, event, cursor_in_bounds).hover == state.hover
            &&& occasion(state, event, cursor_in_bounds) != Some(Callback::HoverEntering)
            &&& occasion(state, event, cursor_in_bounds) != Some(Callback::HoverLeaving)
        },
        quad.message(state, event, cursor_in_bounds).is_some() ==> quad.status(
            state,
            event,
            cursor_in_bounds,
        ) == Status::Captured,
{
}

} // verus!
