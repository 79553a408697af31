//! The color wheel widget: a triangular hue/saturation/value picker.
//!
//! The widget owns a small interaction state (a drag flag and the marker's
//! position) and reacts to pointer events: a press inside its bounds starts
//! a drag, a release ends it, and each move while dragging either re-emits
//! the color under the pointer or, when the pointer leaves the valid
//! triangular region, falls back to idle. Drawing is described as plain
//! geometry — three colored vertices, an index list and a marker square —
//! for a host renderer to rasterize.

use vstd::prelude::*;
use crate::color::Frac;
use crate::color::MAX_EXTENT;
use crate::color::Rgb;
use crate::color::abs_int;
use crate::color::black;
use crate::color::hsv_rgb;
use crate::color::hsv_to_rgb;
use crate::color::white;

verus! {

/// Side length of the marker square drawn at the pick position, in pixels.
pub const MARKER_SIDE: u32 = 16;

/// Corner radius of the marker square, in pixels.
pub const MARKER_RADIUS: u32 = 10;

/// Interaction state of one widget instance: whether a drag is active, and
/// the marker's position — `saturation` is its column and `value` its row,
/// both in pixels from the widget's top-left corner.
#[derive(Clone, Copy, PartialEq, Eq, Structural, Debug)]
pub struct State {
    pub is_dragging: bool,
    pub value: u32,
    pub saturation: u32,
}

impl State {
    /// The stored marker position lies inside the widget's bounds.
    pub open spec fn inv(self, width: int, height: int) -> bool {
        self.saturation <= width && self.value <= height
    }

    pub fn new(is_dragging: bool, value: u32, saturation: u32) -> (s: State)
        ensures
            s == (State { is_dragging, value, saturation }),
    {
        State { is_dragging, value, saturation }
    }
}

impl Default for State {
    /// A fresh widget is idle with the marker at the origin.
    fn default() -> (s: State)
        ensures
            s == (State { is_dragging: false, value: 0u32, saturation: 0u32 }),
    {
        State { is_dragging: false, value: 0u32, saturation: 0u32 }
    }
}

/// A pointer position inside the widget, in pixels from its top-left
/// corner. Positions outside the bounds never reach the widget: the host
/// hands them over as "no position".
#[derive(Clone, Copy, PartialEq, Eq, Structural, Debug)]
pub struct Position {
    pub x: u32,
    pub y: u32,
}

/// A pointer event, already reduced to what the widget reacts to: the
/// primary button went down or up, or the pointer moved.
#[derive(Clone, Copy, PartialEq, Eq, Structural, Debug)]
pub enum PointerEvent {
    Pressed,
    Released,
    Moved,
}

/// What handling one event asked of the host: whether the widget must be
/// redrawn, and the color selected by the drag, if any.
#[derive(Clone, Copy, PartialEq, Eq, Debug)]
pub struct UpdateResult {
    pub redraw: bool,
    pub emitted: Option<Rgb>,
}

/// An event that changed nothing the host must act on.
pub open spec fn no_output() -> UpdateResult {
    UpdateResult { redraw: false, emitted: None }
}

/// Lower edge of the valid triangular region at pointer column `px`:
/// `|height - 2*px|`, clamped to the widget's height. The triangle narrows
/// toward the top-middle corner, so rows above this edge lie outside it.
pub open spec fn min_y_at(px: int, height: int) -> int {
    let d: int = abs_int(height - 2 * px);
    if d > height {
        height
    } else {
        d
    }
}

/// A dragged pointer is still inside the triangle when its row is no
/// higher than the region's lower edge at its column.
pub open spec fn in_triangle(px: int, py: int, height: int) -> bool {
    py >= min_y_at(px, height)
}

/// The marker row a move settles on: `py` clamped into
/// `[min_y_at(px, height), height]`.
pub open spec fn settled_y(px: int, py: int, height: int) -> int {
    let lo: int = min_y_at(px, height);
    if py < lo {
        lo
    } else if py > height {
        height
    } else {
        py
    }
}

/// The color wheel widget: a fixed hue in whole degrees, chosen at
/// construction and immutable for the widget's lifetime.
#[derive(Clone, Copy, PartialEq, Eq, Structural, Debug)]
pub struct Rainbow {
    pub hue: u32,
}

impl Rainbow {
    /// The hue is an angle in whole degrees, below a full turn.
    pub open spec fn wf(self) -> bool {
        self.hue < 360
    }

    pub fn new(hue: u32) -> (r: Rainbow)
        requires
            hue < 360,
        ensures
            r == (Rainbow { hue }),
    {
        Rainbow { hue }
    }

    /// One step of the widget's state machine. A press with the pointer
    /// inside the bounds starts a drag; one outside is ignored. A release
    /// always ends the drag and emits nothing. A move matters only while a
    /// drag is active and the pointer is inside the bounds: inside the
    /// triangle it settles the marker on the pointer, asks for a redraw and
    /// emits the color there — hue fixed, saturation `px / width`, value
    /// `settled_y / height`; outside the triangle it ends the drag quietly.
    pub open spec fn step(
        self,
        s: State,
        event: PointerEvent,
        cursor: Option<Position>,
        width: int,
        height: int,
    ) -> (State, UpdateResult) {
        match event {
            PointerEvent::Pressed => {
                match cursor {
                    Some(_) => (
                        State { is_dragging: true, value: s.value, saturation: s.saturation },
                        no_output(),
                    ),
                    None => (s, no_output()),
                }
            },
            PointerEvent::Released => (
                State { is_dragging: false, value: s.value, saturation: s.saturation },
                no_output(),
            ),
            PointerEvent::Moved => {
                match cursor {
                    Some(p) => {
                        if s.is_dragging {
                            if in_triangle(p.x as int, p.y as int, height) {
                                (
                                    State {
                                        is_dragging: true,
                                        value: settled_y(p.x as int, p.y as int, height) as u32,
                                        saturation: p.x,
                                    },
                                    UpdateResult {
                                        redraw: true,
                                        emitted: Some(
                                            hsv_rgb(
                                                self.hue as int,
                                                p.x as int,
                                                width,
                                                settled_y(p.x as int, p.y as int, height),
                                                height,
                                            ),
                                        ),
                                    },
                                )
                            } else {
                                (
                                    State {
                                        is_dragging: false,
                                        value: s.value,
                                        saturation: s.saturation,
                                    },
                                    no_output(),
                                )
                            }
                        } else {
                            (s, no_output())
                        }
                    },
                    None => (s, no_output()),
                }
            },
        }
    }

    /// Handle one pointer event against the current bounds. The new state
    /// and the returned redraw flag and emitted color are exactly what
    /// `step` says of the old state and the event.
    pub fn update(
        &self,
        state: &mut State,
        event: &PointerEvent,
        cursor: Option<Position>,
        width: u32,
        height: u32,
    ) -> (res: UpdateResult)
        requires
            self.wf(),
            0 < width <= MAX_EXTENT,
            0 < height <= MAX_EXTENT,
            (match cursor {
                Some(p) => p.x <= width && p.y <= height,
                None => true,
            }),
            old(state).inv(width as int, height as int),
        ensures
            final(state).inv(width as int, height as int),
            (*final(state), res) == self.step(
                *old(state),
                *event,
                cursor,
                width as int,
                height as int,
            ),
            (res.emitted matches Some(c) ==> c.wf()),
    {
        match event {
            PointerEvent::Pressed => {
                if cursor.is_some() {
                    state.is_dragging = true;
                }
                UpdateResult { redraw: false, emitted: None }
            },
            PointerEvent::Released => {
                state.is_dragging = false;
                UpdateResult { redraw: false, emitted: None }
            },
            PointerEvent::Moved => {
                match cursor {
                    Some(p) => {
                        if state.is_dragging {
                            let two_x: u32 = 2 * p.x;
                            let d: u32 = if two_x > height {
                                two_x - height
                            } else {
                                height - two_x
                            };
                            let lo: u32 = if d > height {
                                height
                            } else {
                                d
                            };
                            if p.y >= lo {
                                let actual_y: u32 = if p.y > height {
                                    height
                                } else {
                                    p.y
                                };
                                state.value = actual_y;
                                state.saturation = p.x;
                                let col = hsv_to_rgb(
                                    self.hue,
                                    Frac::new(p.x, width),
                                    Frac::new(actual_y, height),
                                );
                                UpdateResult { redraw: true, emitted: Some(col) }
                            } else {
                                state.is_dragging = false;
                                UpdateResult { redraw: false, emitted: None }
                            }
                        } else {
                            UpdateResult { redraw: false, emitted: None }
                        }
                    },
                    None => UpdateResult { redraw: false, emitted: None },
                }
            },
        }
    }

    /// The layout query: offered a maximum width, the widget asks to fill
    /// it and to be exactly as tall as it is wide.
    pub fn layout(&self, max_width: u32) -> (size: (u32, u32))
        ensures
            size.0 == max_width,
            size.1 == max_width,
    {
        (max_width, max_width)
    }

    /// Describe one frame for the renderer: the hue triangle's corners —
    /// black at the top middle, this widget's hue fully saturated at the
    /// bottom right, white at the bottom left — the index list that fills
    /// the area, and the marker square at the stored pick position.
    pub fn draw(&self, state: &State, width: u32, height: u32) -> (g: Geometry)
        requires
            self.wf(),
        ensures
            g.vertices@.len() == 3,
            g.vertices@[0] == (Vertex { x: width / 2, y: 0u32, color: black() }),
            g.vertices@[1] == (Vertex {
                x: width,
                y: height,
                color: hsv_rgb(self.hue as int, 1, 1, 1, 1),
            }),
            g.vertices@[2] == (Vertex { x: 0u32, y: height, color: white() }),
            g.indices@ == seq![0u32, 1u32, 2u32, 1u32, 2u32, 0u32, 2u32, 0u32, 1u32],
            g.marker == (Marker {
                x: state.saturation,
                y: state.value,
                side: MARKER_SIDE,
                corner_radius: MARKER_RADIUS,
            }),
    {
        let full = Frac::new(1, 1);
        let hue_color = hsv_to_rgb(self.hue, full, full);
        let mut vertices: Vec<Vertex> = Vec::new();
        vertices.push(
            Vertex { x: width / 2, y: 0u32, color: Rgb { red: 0u64, green: 0u64, blue: 0u64, den: 1u64 } },
        );
        vertices.push(Vertex { x: width, y: height, color: hue_color });
        vertices.push(
            Vertex { x: 0u32, y: height, color: Rgb { red: 1u64, green: 1u64, blue: 1u64, den: 1u64 } },
        );
        let mut indices: Vec<u32> = Vec::new();
        indices.push(0u32);
        indices.push(1u32);
        indices.push(2u32);
        indices.push(1u32);
        indices.push(2u32);
        indices.push(0u32);
        indices.push(2u32);
        indices.push(0u32);
        indices.push(1u32);
        proof {
            assert(indices@ =~= seq![0u32, 1u32, 2u32, 1u32, 2u32, 0u32, 2u32, 0u32, 1u32]);
        }
        let marker = Marker {
            x: state.saturation,
            y: state.value,
            side: MARKER_SIDE,
            corner_radius: MARKER_RADIUS,
        };
        Geometry { vertices, indices, marker }
    }
}

/// One vertex of the widget's triangle mesh: a position in pixels and its
/// color; the rasterizer interpolates colors between the three vertices.
#[derive(Clone, Copy, PartialEq, Eq, Structural, Debug)]
pub struct Vertex {
    pub x: u32,
    pub y: u32,
    pub color: Rgb,
}

/// The rounded marker square drawn over the mesh at the pick position.
#[derive(Clone, Copy, PartialEq, Eq, Structural, Debug)]
pub struct Marker {
    pub x: u32,
    pub y: u32,
    pub side: u32,
    pub corner_radius: u32,
}

/// Everything a renderer needs for one frame of the widget: the mesh's
/// vertices and triangle indices, and the marker on top.
#[derive(Debug)]
pub struct Geometry {
    pub vertices: Vec<Vertex>,
    pub indices: Vec<u32>,
    pub marker: Marker,
}

/// Releasing always ends the drag and emits nothing, wherever the cursor
/// is and whatever state the widget was in: only the drag flag changes.
pub proof fn lemma_release_clears_drag(
    r: Rainbow,
    s: State,
    cursor: Option<Position>,
    width: int,
    height: int,
)
    ensures
        ({
            let (s2, out) = r.step(s, PointerEvent::Released, cursor, width, height);
            &&& !s2.is_dragging
            &&& s2.value == s.value
            &&& s2.saturation == s.saturation
            &&& out.emitted is None
            &&& !out.redraw
        }),
{
}

/// A dragged move to a row above the triangle's lower edge ends the drag:
/// the widget falls back to idle, the marker stays where it was, and no
/// color is emitted and no redraw requested.
pub proof fn lemma_leaving_triangle_ends_drag(
    r: Rainbow,
    s: State,
    p: Position,
    width: int,
    height: int,
)
    requires
        s.is_dragging,
        (p.y as int) < min_y_at(p.x as int, height),
    ensures
        ({
            let (s2, out) = r.step(s, PointerEvent::Moved, Some(p), width, height);
            &&& !s2.is_dragging
            &&& s2.value == s.value
            &&& s2.saturation == s.saturation
            &&& out.emitted is None
            &&& !out.redraw
        }),
{
}

/// The one situation that emits a color: a move while a drag is active,
/// with the pointer inside the bounds and inside the triangle.
pub open spec fn emitting_move(
    s: State,
    event: PointerEvent,
    cursor: Option<Position>,
    height: int,
) -> bool {
    &&& event is Moved
    &&& s.is_dragging
    &&& match cursor {
        Some(p) => in_triangle(p.x as int, p.y as int, height),
        None => false,
    }
}

/// A color is emitted, and a redraw requested, exactly on an emitting
/// move: never on hover without a drag, never on a press or release
/// alone, never when the move leaves the triangle.
pub proof fn lemma_emission_exactly_on_dragged_move(
    r: Rainbow,
    s: State,
    event: PointerEvent,
    cursor: Option<Position>,
    width: int,
    height: int,
)
    ensures
        ({
            let (s2, out) = r.step(s, event, cursor, width, height);
            &&& (out.emitted is Some <==> emitting_move(s, event, cursor, height))
            &&& (out.redraw <==> emitting_move(s, event, cursor, height))
        }),
{
}

/// Repeating the same move while dragging is idempotent: the second,
/// identical move leaves the state exactly where the first put it and
/// emits the same color again — nothing but the event's position decides
/// the output.
pub proof fn lemma_move_idempotent(
    r: Rainbow,
    s: State,
    p: Position,
    width: int,
    height: int,
)
    requires
        s.is_dragging,
        in_triangle(p.x as int, p.y as int, height),
    ensures
        ({
            let (s1, out1) = r.step(s, PointerEvent::Moved, Some(p), width, height);
            let (s2, out2) = r.step(s1, PointerEvent::Moved, Some(p), width, height);
            &&& s2 == s1
            &&& out2 == out1
            &&& out1.emitted is Some
            &&& out1.redraw
        }),
{
}

} // verus!
