//! What a widget asks of a renderer.

use vstd::prelude::*;
use crate::primitive::{Color, Float, Point, Rectangle};
use crate::shader::Handle;

verus! {

/// A quad on which a shader is to be drawn.
#[derive(Debug)]
pub struct CustomShaderQuad {
    /// The bounds of the quad.
    pub bounds: Rectangle<Float>,
    /// Mouse position on the screen.
    pub mouse_position: Point,
    /// The packed state of the mouse: bit 0 is set while the left button is
    /// pressed, bit 1 while the right button is pressed, bit 2 while the
    /// cursor is over the quad.
    pub mouse_click: u32,
    /// Time in seconds since the start of the animation.
    pub time: Float,
    /// Frame number.
    pub frame_number: u32,
    /// The shader that paints the quad.
    pub handle: Handle,
}

impl Clone for CustomShaderQuad {
    fn clone(&self) -> (copy: Self)
        ensures
            copy == *self,
    {
        CustomShaderQuad {
            bounds: self.bounds,
            mouse_position: self.mouse_position,
            mouse_click: self.mouse_click,
            time: self.time,
            frame_number: self.frame_number,
            handle: self.handle.clone(),
        }
    }
}

/// One recorded request: a quad, and the color of what its shader leaves bare.
#[derive(Debug)]
pub struct Primitive {
    /// The quad.
    pub quad: CustomShaderQuad,
    /// The background color.
    pub background: Color,
}

/// The styling attributes of a [`Renderer`].
#[derive(Clone, Copy, Debug, PartialEq, Eq, Structural)]
pub struct Style {
    /// The text color
    pub text_color: Color,
}

impl Default for Style {
    fn default() -> (style: Self)
        ensures
            style.text_color == Color::black_spec(),
    {
        Style { text_color: Color::black() }
    }
}

/// A component that widgets use to draw themselves on a screen.
pub trait Renderer: Sized {
    /// The requests recorded so far, oldest first.
    spec fn primitives(&self) -> Seq<Primitive>;

    /// Clears all of the recorded primitives.
    fn clear(&mut self)
        ensures
            final(self).primitives() == Seq::<Primitive>::empty(),
    ;

    /// Records a [`CustomShaderQuad`] with the provided background, after
    /// everything that has been recorded before.
    fn make_custom_shader_quad(&mut self, custom_shader_quad: CustomShaderQuad, background: Color)
        ensures
            final(self).primitives() == old(self).primitives().push(
                Primitive { quad: custom_shader_quad, background },
            ),
    ;
}

/// The renderer that keeps what it is asked to draw, in the order asked.
#[derive(Debug)]
pub struct Recorder {
    primitives: Vec<Primitive>,
}

impl Recorder {
    /// A renderer that has recorded nothing.
    pub fn new() -> (recorder: Recorder)
        ensures
            recorder.primitives() == Seq::<Primitive>::empty(),
    {
        Recorder { primitives: Vec::new() }
    }

    /// The number of recorded requests.
    pub fn len(&self) -> (len: usize)
        ensures
            len == self.primitives().len(),
    {
        self.primitives.len()
    }

    /// The recorded request at `index`, counted from the oldest.
    pub fn get(&self, index: usize) -> (primitive: Option<&Primitive>)
        ensures
            primitive.is_some() == (index < self.primitives().len()),
            primitive matches Some(p) ==> *p == self.primitives()[index as int],
    {
        if index < self.primitives.len() {
            Some(&self.primitives[index])
        } else {
            None
        }
    }

    /// Hands over what was recorded, oldest first.
    pub fn into_primitives(self) -> (primitives: Vec<Primitive>)
        ensures
            primitives@ == self.primitives(),
    {
        self.primitives
    }
}

impl Renderer for Recorder {
    closed spec fn primitives(&self) -> Seq<Primitive> {
        self.primitives@
    }

    fn clear(&mut self) {
        self.primitives = Vec::new();
    }

    fn make_custom_shader_quad(&mut self, custom_shader_quad: CustomShaderQuad, background: Color) {
        self.primitives.push(Primitive { quad: custom_shader_quad, background });
    }
}

} // verus!
