//! The camera: its uniform, the part of its projection that follows the
//! viewport, its pitch, and the input that moves it.
//!
//! A perspective projection depends on the viewport only through its
//! aspect. The field of view, the clip planes and the camera's position
//! are floating-point numbers and stay with the caller, who does the
//! arithmetic on them and combines them with the aspect kept here into the
//! matrix of the uniform. What is kept here of floats is kept as bit
//! patterns: they are stored, compared and handed on, never calculated
//! with.

use crate::aspect::{lemma_aspect_ignores_scale, lemma_aspect_of_same_shape, AspectRatio};
use crate::uniform::{is_identity, is_memory_image, matrix_words, push_matrix, words_to_bytes};
use crate::uniform::{ONE, ZERO};
use vstd::prelude::*;

verus! {

/// The uniform of the camera: the product of projection and view.
#[derive(Debug, Clone, Copy)]
pub struct CameraUniform {
    pub view_proj: [[u32; 4]; 4],
}

impl CameraUniform {
    /// The words of the uniform in the order of its layout.
    pub open spec fn words(self) -> Seq<u32> {
        matrix_words(self.view_proj)
    }

    /// The uniform of a camera that leaves every point where it is.
    pub fn new() -> (uniform: CameraUniform)
        ensures
            is_identity(uniform.view_proj),
    {
        CameraUniform {
            view_proj: [
                [ONE, ZERO, ZERO, ZERO],
                [ZERO, ONE, ZERO, ZERO],
                [ZERO, ZERO, ONE, ZERO],
                [ZERO, ZERO, ZERO, ONE],
            ],
        }
    }

    /// The 64 bytes of the uniform as they are written to its buffer.
    pub fn to_bytes(&self) -> (bytes: Vec<u8>)
        ensures
            bytes@.len() == 64,
            is_memory_image(bytes@, self.words()),
    {
        let mut words: Vec<u32> = Vec::new();
        push_matrix(&mut words, &self.view_proj);
        assert(words@ =~= self.words());
        words_to_bytes(words.as_slice())
    }
}

/// The projection's dependence on the viewport. The field of view and the
/// clip planes do not change with the viewport and are kept by the caller.
#[derive(Debug, Clone, Copy, PartialEq, Eq, Structural)]
pub struct Projection {
    pub aspect: AspectRatio,
}

impl Projection {
    /// The aspect is a fraction in lowest terms.
    pub open spec fn wf(self) -> bool {
        self.aspect.wf()
    }

    /// The projection for a viewport of the given size. A viewport without
    /// height is taken to be square.
    pub open spec fn spec_new(width: u32, height: u32) -> Projection {
        match AspectRatio::spec_of(width, height) {
            Some(aspect) => Projection { aspect },
            None => Projection { aspect: AspectRatio::spec_square() },
        }
    }

    /// The projection after the viewport has changed to the given size. A
    /// viewport without height leaves the projection as it was.
    pub open spec fn spec_resized(self, width: u32, height: u32) -> Projection {
        match AspectRatio::spec_of(width, height) {
            Some(aspect) => Projection { aspect },
            None => self,
        }
    }

    /// Makes the projection for a viewport of the given size.
    pub fn new(width: u32, height: u32) -> (projection: Projection)
        ensures
            projection == Self::spec_new(width, height),
            projection.wf(),
    {
        match AspectRatio::of(width, height) {
            Some(aspect) => Projection { aspect },
            None => Projection { aspect: AspectRatio::square() },
        }
    }

    /// Follows a change of the viewport's size. The aspect becomes that of
    /// the new size, unless the new height is zero: then it stays.
    pub fn resize(&mut self, width: u32, height: u32)
        ensures
            *final(self) == old(self).spec_resized(width, height),
            old(self).wf() ==> final(self).wf(),
    {
        match AspectRatio::of(width, height) {
            Some(aspect) => {
                self.aspect = aspect;
            },
            None => {},
        }
    }
}

/// The projection depends on the viewport's shape alone: two viewports
/// whose widths are to each other as their heights give the same
/// projection.
pub proof fn lemma_projection_of_same_shape(
    width: u32,
    height: u32,
    other_width: u32,
    other_height: u32,
)
    requires
        height > 0,
        other_height > 0,
        width * other_height == other_width * height,
    ensures
        Projection::spec_new(width, height) == Projection::spec_new(other_width, other_height),
{
    lemma_aspect_of_same_shape(width, height, other_width, other_height);
}

/// The projection made for a viewport does not change when the viewport is
/// scaled by a factor in both directions.
pub proof fn lemma_projection_ignores_scale(width: u32, height: u32, k: u32)
    requires
        k > 0,
        k * width <= u32::MAX,
        k * height <= u32::MAX,
    ensures
        Projection::spec_new((k * width) as u32, (k * height) as u32) == Projection::spec_new(
            width,
            height,
        ),
{
    lemma_aspect_ignores_scale(width, height, k);
}

/// The bit of a float's sign.
pub const SIGN: u32 = 0x8000_0000;

/// The largest pitch: the float closest below 89 degrees, in radians.
pub const PITCH_LIMIT: u32 = 0x3fc6_d3f1;

/// A float's bit pattern without its sign. Of two floats, the one with the
/// greater pattern is the one farther from zero, and the patterns of the
/// infinities and of what is no number come after those of all numbers.
pub open spec fn magnitude(bits: u32) -> u32 {
    if bits >= SIGN {
        (bits - SIGN) as u32
    } else {
        bits
    }
}

/// The pitch lies between 89 degrees down and 89 degrees up, both
/// excluded, so that the camera never looks straight up or down.
pub open spec fn pitch_in_range(bits: u32) -> bool {
    magnitude(bits) <= PITCH_LIMIT
}

/// The pitch nearest to a float that is in range: the float itself if it
/// is in range, and else the limit on the float's side of zero.
pub open spec fn spec_clamp_pitch(bits: u32) -> u32 {
    if pitch_in_range(bits) {
        bits
    } else if bits >= SIGN {
        (SIGN + PITCH_LIMIT) as u32
    } else {
        PITCH_LIMIT
    }
}

/// Brings a pitch into range.
pub fn clamp_pitch(bits: u32) -> (clamped: u32)
    ensures
        clamped == spec_clamp_pitch(bits),
        pitch_in_range(clamped),
{
    if bits >= SIGN {
        if bits - SIGN <= PITCH_LIMIT {
            bits
        } else {
            SIGN + PITCH_LIMIT
        }
    } else if bits <= PITCH_LIMIT {
        bits
    } else {
        PITCH_LIMIT
    }
}

/// The pitch of the camera, in radians, as a float's bit pattern. Whatever
/// is stored, the pitch is in range.
#[derive(Debug, Clone, Copy)]
pub struct Pitch {
    bits: u32,
}

impl View for Pitch {
    type V = u32;

    closed spec fn view(&self) -> u32 {
        self.bits
    }
}

impl Pitch {
    #[verifier::type_invariant]
    spec fn in_range(self) -> bool {
        pitch_in_range(self.bits)
    }

    /// The pitch nearest to the given one that is in range.
    pub fn new(bits: u32) -> (pitch: Pitch)
        ensures
            pitch@ == spec_clamp_pitch(bits),
    {
        Pitch { bits: clamp_pitch(bits) }
    }

    /// The pitch, which is in range.
    pub fn bits(&self) -> (bits: u32)
        ensures
            bits == self@,
            pitch_in_range(bits),
    {
        proof {
            use_type_invariant(self);
        }
        self.bits
    }

    /// Turns the camera to the pitch nearest to the given one that is in
    /// range.
    pub fn set(&mut self, bits: u32)
        ensures
            final(self)@ == spec_clamp_pitch(bits),
    {
        self.bits = clamp_pitch(bits);
    }
}

/// A direction in which the camera moves while its key is held.
#[derive(Debug, Clone, Copy, PartialEq, Eq, Structural)]
pub enum Direction {
    Forward,
    Backward,
    Left,
    Right,
    Up,
    Down,
}

/// The input of the camera: for each direction whether its key is held,
/// and what the mouse and the wheel have gathered since the last tick, as
/// floats' bit patterns.
#[derive(Debug, Clone, Copy, PartialEq, Eq, Structural)]
pub struct CameraInput {
    pub forward: bool,
    pub backward: bool,
    pub left: bool,
    pub right: bool,
    pub up: bool,
    pub down: bool,
    pub rotate_horizontal: u32,
    pub rotate_vertical: u32,
    pub scroll: u32,
}

impl CameraInput {
    /// Whether the key of a direction is held.
    pub open spec fn held(self, direction: Direction) -> bool {
        match direction {
            Direction::Forward => self.forward,
            Direction::Backward => self.backward,
            Direction::Left => self.left,
            Direction::Right => self.right,
            Direction::Up => self.up,
            Direction::Down => self.down,
        }
    }

    /// The input with the key of a direction down or up.
    pub open spec fn with_key(self, direction: Direction, pressed: bool) -> CameraInput {
        match direction {
            Direction::Forward => CameraInput { forward: pressed, ..self },
            Direction::Backward => CameraInput { backward: pressed, ..self },
            Direction::Left => CameraInput { left: pressed, ..self },
            Direction::Right => CameraInput { right: pressed, ..self },
            Direction::Up => CameraInput { up: pressed, ..self },
            Direction::Down => CameraInput { down: pressed, ..self },
        }
    }

    /// The input in which no key is held and nothing is gathered.
    pub open spec fn idle() -> CameraInput {
        CameraInput {
            forward: false,
            backward: false,
            left: false,
            right: false,
            up: false,
            down: false,
            rotate_horizontal: ZERO,
            rotate_vertical: ZERO,
            scroll: ZERO,
        }
    }

    /// Nothing is gathered: the rotation and the scroll are zero.
    pub open spec fn is_drained(self) -> bool {
        &&& self.rotate_horizontal == ZERO
        &&& self.rotate_vertical == ZERO
        &&& self.scroll == ZERO
    }

    /// The input with the same keys held and nothing gathered.
    pub open spec fn drained(self) -> CameraInput {
        CameraInput { rotate_horizontal: ZERO, rotate_vertical: ZERO, scroll: ZERO, ..self }
    }
}

/// Gathers the camera's input between ticks and hands it over at each
/// tick.
#[derive(Debug, Clone, Copy, PartialEq, Eq, Structural)]
pub struct CameraController {
    pub input: CameraInput,
}

impl CameraController {
    /// A controller with no key held and nothing gathered.
    pub fn new() -> (controller: CameraController)
        ensures
            controller.input == CameraInput::idle(),
    {
        CameraController {
            input: CameraInput {
                forward: false,
                backward: false,
                left: false,
                right: false,
                up: false,
                down: false,
                rotate_horizontal: ZERO,
                rotate_vertical: ZERO,
                scroll: ZERO,
            },
        }
    }

    /// Notes that the key of a direction went down or up. The other keys
    /// and what is gathered stay as they are.
    pub fn process_keyboard(&mut self, direction: Direction, pressed: bool)
        ensures
            final(self).input == old(self).input.with_key(direction, pressed),
    {
        match direction {
            Direction::Forward => {
                self.input.forward = pressed;
            },
            Direction::Backward => {
                self.input.backward = pressed;
            },
            Direction::Left => {
                self.input.left = pressed;
            },
            Direction::Right => {
                self.input.right = pressed;
            },
            Direction::Up => {
                self.input.up = pressed;
            },
            Direction::Down => {
                self.input.down = pressed;
            },
        }
    }

    /// Notes the rotation that the mouse asks for.
    pub fn process_mouse(&mut self, horizontal: u32, vertical: u32)
        ensures
            final(self).input == (CameraInput {
                rotate_horizontal: horizontal,
                rotate_vertical: vertical,
                ..old(self).input
            }),
    {
        self.input.rotate_horizontal = horizontal;
        self.input.rotate_vertical = vertical;
    }

    /// Notes the scroll that the wheel asks for.
    pub fn process_scroll(&mut self, scroll: u32)
        ensures
            final(self).input == (CameraInput { scroll, ..old(self).input }),
    {
        self.input.scroll = scroll;
    }

    /// Hands over the input of the tick that ends. The rotation and the
    /// scroll go back to zero, so that without new events nothing is
    /// applied a second time; the keys stay held.
    pub fn update_camera(&mut self) -> (gathered: CameraInput)
        ensures
            gathered == old(self).input,
            final(self).input == old(self).input.drained(),
            final(self).input.is_drained(),
    {
        let gathered = self.input;
        self.input.rotate_horizontal = ZERO;
        self.input.rotate_vertical = ZERO;
        self.input.scroll = ZERO;
        gathered
    }
}

/// A key that goes down is held and one that goes up is not; no other key
/// is touched, and nothing that the mouse or the wheel gathered.
pub proof fn lemma_key_is_held(input: CameraInput, direction: Direction, pressed: bool)
    ensures
        input.with_key(direction, pressed).held(direction) == pressed,
        forall|other: Direction|
            other != direction ==> input.with_key(direction, pressed).held(other) == input.held(
                other,
            ),
        input.with_key(direction, pressed).rotate_horizontal == input.rotate_horizontal,
        input.with_key(direction, pressed).rotate_vertical == input.rotate_vertical,
        input.with_key(direction, pressed).scroll == input.scroll,
{
}

/// After a tick nothing is gathered, whatever was gathered before, and a
/// further tick without events hands over nothing.
pub proof fn lemma_tick_drains(input: CameraInput)
    ensures
        input.drained().is_drained(),
        input.drained().drained() == input.drained(),
        forall|direction: Direction| input.drained().held(direction) == input.held(direction),
{
}

} // verus!
