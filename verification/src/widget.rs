//! The gesture state of one texture canvas: what it remembers between events
//! and what it decides on each of them.
//!
//! The canvas pans with the middle button held and zooms with the wheel. This
//! module decides which of these happens and what the host is told; the
//! positions themselves (offset, anchor, scale) are kept by the widget that
//! owns a [`State`], which moves them as the [`Reaction`] says.

pub mod primitive;
pub mod style;

use vstd::prelude::*;

verus! {

/// A mouse button.
#[derive(Debug, Clone, Copy, PartialEq, Eq, Structural)]
pub enum Button {
    Left,
    Right,
    Middle,
    Back,
    Forward,
    Other(u16),
}

/// What happened, as far as the canvas tells events apart.
#[derive(Debug, Clone, Copy, PartialEq, Eq, Structural)]
pub enum Event {
    /// A button went down.
    ButtonPressed(Button),
    /// A button came up.
    ButtonReleased(Button),
    /// The pointer moved.
    CursorMoved,
    /// The wheel turned by some lines.
    WheelScrolled,
    /// Anything else.
    Other,
}

/// Where the pointer is.
#[derive(Debug, Clone, Copy, PartialEq, Eq, Structural)]
pub enum Cursor {
    /// Not over the widget, or nowhere at all.
    Outside,
    /// Over the widget; `over_image` says whether it is over the image too.
    Inside { over_image: bool },
}

/// Whether the pointer came onto the image or left it.
#[derive(Debug, Clone, Copy, PartialEq, Eq, Structural)]
pub enum Hover {
    Unchanged,
    Entered,
    Exited,
}

/// What is to be done to the camera.
#[derive(Debug, Clone, Copy, PartialEq, Eq, Structural)]
pub enum Camera {
    /// Nothing.
    Keep,
    /// Record the anchor of the drag: the pointer's position less the offset.
    Anchor,
    /// Move the image: the offset becomes the pointer's position less the anchor.
    Drag,
    /// Zoom by the scrolled amount, keeping the point under the pointer in place.
    Zoom,
}

/// What the host is to be told, where it listens.
#[derive(Debug, Clone, Copy, PartialEq, Eq, Structural)]
pub enum Notice {
    Nothing,
    /// A drag began.
    Grabbed,
    /// A button went down at the pointer's place on the image.
    Pressed(Button),
    /// A button came up at the pointer's place on the image.
    Released(Button),
    /// The pointer moved to a place on the image.
    Moved,
    /// The scale changed.
    Zoomed,
}

/// What one event comes to.
#[derive(Debug, Clone, Copy, PartialEq, Eq, Structural)]
pub struct Reaction {
    pub hover: Hover,
    pub camera: Camera,
    pub notice: Notice,
    pub redraw: bool,
}

/// The one-shot requests that were waiting when they were taken.
#[derive(Debug, Clone, Copy, PartialEq, Eq, Structural)]
pub struct Pending {
    /// Centre the image in the widget.
    pub center: bool,
    /// Set the scale that was asked for, keeping the widget's centre in place.
    pub rescale: bool,
}

/// What the pointer should look like.
#[derive(Debug, Clone, Copy, PartialEq, Eq, Structural)]
pub enum Interaction {
    /// Nothing of the canvas's own.
    Idle,
    /// The look that the widget was given for hovering.
    Hovering,
    /// A closed hand.
    Grabbing,
}

/// A source of generation tags: each canvas takes one when it is made, so
/// that a renderer can tell one canvas from the next.
pub struct Generations {
    next: u64,
}

impl View for Generations {
    type V = u64;

    closed spec fn view(&self) -> u64 {
        self.next
    }
}

/// The tag that follows `tag`; after the last `u64` the count starts over.
pub open spec fn following(tag: u64) -> u64 {
    if tag == u64::MAX {
        0
    } else {
        (tag + 1) as u64
    }
}

impl Generations {
    /// A source whose first tag is 0.
    pub fn new() -> (made: Generations)
        ensures
            made@ == 0,
    {
        Generations { next: 0 }
    }

    /// Hands out the next tag.
    pub fn new_generation(&mut self) -> (tag: u64)
        ensures
            tag == old(self)@,
            final(self)@ == following(tag),
    {
        let tag = self.next;
        self.next = tag.wrapping_add(1);
        tag
    }
}

/// What a [`State`] holds.
pub struct Gesture {
    /// The middle button is held.
    pub grabbing: bool,
    /// The anchor of the drag has been recorded.
    pub anchored: bool,
    /// The pointer is over the image.
    pub hovered: bool,
    /// The tag taken when the state was made.
    pub generation: u64,
    /// The image is to be centred at the next event.
    pub should_center: bool,
    /// A scale has been asked for and is to be set at the next event.
    pub should_rescale: bool,
}

impl Gesture {
    /// An anchor is recorded only while the button is held.
    pub open spec fn wf(self) -> bool {
        self.anchored ==> self.grabbing
    }

    /// The state of a canvas that has seen no event: at rest, and due to be
    /// centred.
    pub open spec fn fresh(generation: u64) -> Gesture {
        Gesture {
            grabbing: false,
            anchored: false,
            hovered: false,
            generation,
            should_center: true,
            should_rescale: false,
        }
    }

    /// The same state with every trace of the pointer forgotten.
    pub open spec fn at_rest(self) -> Gesture {
        Gesture { grabbing: false, anchored: false, hovered: false, ..self }
    }

    /// The same state with nothing waiting.
    pub open spec fn settled(self) -> Gesture {
        Gesture { should_center: false, should_rescale: false, ..self }
    }

    /// Whether the pointer counts as over the image once it is seen at a place
    /// that is (`over_image`) or is not over it. A drag keeps what was.
    pub open spec fn hovered_after(self, over_image: bool) -> bool {
        if self.grabbing {
            self.hovered
        } else {
            over_image
        }
    }

    /// What the host is told of the image being entered or left.
    pub open spec fn hover_change(self, over_image: bool) -> Hover {
        if !self.hovered && self.hovered_after(over_image) {
            Hover::Entered
        } else if self.hovered && !self.hovered_after(over_image) {
            Hover::Exited
        } else {
            Hover::Unchanged
        }
    }

    /// The state after `event` with the pointer over the widget.
    pub open spec fn after_event(self, over_image: bool, event: Event) -> Gesture {
        let seen = Gesture { hovered: self.hovered_after(over_image), ..self };
        match event {
            Event::ButtonPressed(Button::Middle) => Gesture { grabbing: true, ..seen },
            Event::ButtonReleased(Button::Middle) => Gesture {
                grabbing: false,
                anchored: false,
                ..seen
            },
            Event::CursorMoved => Gesture { anchored: seen.anchored || seen.grabbing, ..seen },
            _ => seen,
        }
    }

    /// What is done to the camera on `event` with the pointer over the widget.
    pub open spec fn camera_on(self, event: Event) -> Camera {
        match event {
            Event::CursorMoved => if !self.grabbing {
                Camera::Keep
            } else if self.anchored {
                Camera::Drag
            } else {
                Camera::Anchor
            },
            Event::WheelScrolled => if self.grabbing {
                Camera::Keep
            } else {
                Camera::Zoom
            },
            _ => Camera::Keep,
        }
    }

    /// What the host is told on `event` with the pointer over the widget.
    pub open spec fn notice_on(self, event: Event) -> Notice {
        match event {
            Event::ButtonPressed(Button::Middle) => Notice::Grabbed,
            Event::ButtonReleased(Button::Middle) => Notice::Nothing,
            Event::ButtonPressed(button) => Notice::Pressed(button),
            Event::ButtonReleased(button) => Notice::Released(button),
            Event::CursorMoved => Notice::Moved,
            Event::WheelScrolled => if self.grabbing {
                Notice::Nothing
            } else {
                Notice::Zoomed
            },
            Event::Other => Notice::Nothing,
        }
    }

    /// Whether a redraw is asked for on `event` with the pointer over the
    /// widget: after a zoom, and while dragging where nobody listens for moves
    /// (telling a listener brings a redraw by itself).
    pub open spec fn redraw_on(self, event: Event, on_move: bool) -> bool {
        match event {
            Event::CursorMoved => self.grabbing && !on_move,
            Event::WheelScrolled => !self.grabbing,
            _ => false,
        }
    }

    /// The state after one event.
    pub open spec fn step(self, cursor: Cursor, event: Event) -> Gesture {
        match cursor {
            Cursor::Outside => self.at_rest(),
            Cursor::Inside { over_image } => self.after_event(over_image, event),
        }
    }

    /// What one event comes to.
    pub open spec fn reaction(self, cursor: Cursor, event: Event, on_move: bool) -> Reaction {
        match cursor {
            Cursor::Outside => Reaction {
                hover: Hover::Unchanged,
                camera: Camera::Keep,
                notice: Notice::Nothing,
                redraw: false,
            },
            Cursor::Inside { over_image } => Reaction {
                hover: self.hover_change(over_image),
                camera: self.camera_on(event),
                notice: self.notice_on(event),
                redraw: self.redraw_on(event, on_move),
            },
        }
    }
}

/// What a canvas remembers between events.
pub struct State {
    grabbing: bool,
    anchored: bool,
    is_hovered: bool,
    generation: u64,
    should_center: bool,
    should_rescale: bool,
}

impl View for State {
    type V = Gesture;

    closed spec fn view(&self) -> Gesture {
        Gesture {
            grabbing: self.grabbing,
            anchored: self.anchored,
            hovered: self.is_hovered,
            generation: self.generation,
            should_center: self.should_center,
            should_rescale: self.should_rescale,
        }
    }
}

impl State {
    /// The state of a new canvas, with a tag of its own from `generations`.
    pub fn new(generations: &mut Generations) -> (state: State)
        ensures
            state@ == Gesture::fresh(old(generations)@),
            final(generations)@ == following(old(generations)@),
    {
        State {
            grabbing: false,
            anchored: false,
            is_hovered: false,
            generation: generations.new_generation(),
            should_center: true,
            should_rescale: false,
        }
    }

    /// Forgets every trace of the pointer: no drag, no anchor, no hover.
    pub fn reset(&mut self)
        ensures
            final(self)@ == old(self)@.at_rest(),
    {
        self.is_hovered = false;
        self.grabbing = false;
        self.anchored = false;
    }

    /// The tag taken when the state was made.
    pub fn generation(&self) -> (tag: u64)
        ensures
            tag == self@.generation,
    {
        self.generation
    }

    /// Whether the middle button is held.
    pub fn is_grabbing(&self) -> (held: bool)
        ensures
            held == self@.grabbing,
    {
        self.grabbing
    }

    /// Whether the anchor of the drag has been recorded.
    pub fn has_anchor(&self) -> (recorded: bool)
        ensures
            recorded == self@.anchored,
    {
        self.anchored
    }

    /// Whether the pointer is over the image.
    pub fn is_hovered(&self) -> (over: bool)
        ensures
            over == self@.hovered,
    {
        self.is_hovered
    }

    /// Asks for the image to be centred at the next event.
    pub fn request_center(&mut self)
        ensures
            final(self)@ == (Gesture { should_center: true, ..old(self)@ }),
    {
        self.should_center = true;
    }

    /// Asks for a scale to be set at the next event. The scale itself is kept
    /// by the caller; a later request replaces an earlier one.
    pub fn request_scale(&mut self)
        ensures
            final(self)@ == (Gesture { should_rescale: true, ..old(self)@ }),
    {
        self.should_rescale = true;
    }

    /// Takes the requests that are waiting, so that each is met once. Centring
    /// comes before the new scale.
    pub fn take_pending(&mut self) -> (pending: Pending)
        ensures
            pending == (Pending {
                center: old(self)@.should_center,
                rescale: old(self)@.should_rescale,
            }),
            final(self)@ == old(self)@.settled(),
    {
        let pending = Pending { center: self.should_center, rescale: self.should_rescale };
        self.should_center = false;
        self.should_rescale = false;
        pending
    }

    /// Takes one event in. `cursor` says where the pointer is, `on_move`
    /// whether the host listens for moves.
    ///
    /// With the pointer outside the widget every gesture is called off. With
    /// it inside, the hover is brought up to date unless a drag is on, and
    /// then the event is acted on: the middle button starts and ends a drag,
    /// a move during a drag records the anchor the first time and drags from
    /// then on, the wheel zooms unless a drag is on, and other buttons are
    /// passed on to the host.
    pub fn update(&mut self, cursor: Cursor, event: Event, on_move: bool) -> (reaction: Reaction)
        ensures
            final(self)@ == old(self)@.step(cursor, event),
            reaction == old(self)@.reaction(cursor, event, on_move),
    {
        let over_image = match cursor {
            Cursor::Outside => {
                self.reset();
                return Reaction {
                    hover: Hover::Unchanged,
                    camera: Camera::Keep,
                    notice: Notice::Nothing,
                    redraw: false,
                };
            },
            Cursor::Inside { over_image } => over_image,
        };
        let mut hover = Hover::Unchanged;
        if !self.grabbing {
            let was_hovered = self.is_hovered;
            self.is_hovered = over_image;
            if !was_hovered && over_image {
                hover = Hover::Entered;
            } else if was_hovered && !over_image {
                hover = Hover::Exited;
            }
        }
        let mut camera = Camera::Keep;
        let mut notice = Notice::Nothing;
        let mut redraw = false;
        match event {
            Event::ButtonPressed(Button::Middle) => {
                self.grabbing = true;
                notice = Notice::Grabbed;
            },
            Event::ButtonReleased(Button::Middle) => {
                self.grabbing = false;
                self.anchored = false;
            },
            Event::ButtonPressed(button) => {
                notice = Notice::Pressed(button);
            },
            Event::CursorMoved => {
                if self.grabbing {
                    if self.anchored {
                        camera = Camera::Drag;
                    } else {
                        self.anchored = true;
                        camera = Camera::Anchor;
                    }
                    redraw = !on_move;
                }
                notice = Notice::Moved;
            },
            Event::ButtonReleased(button) => {
                notice = Notice::Released(button);
            },
            Event::WheelScrolled => {
                if !self.grabbing {
                    camera = Camera::Zoom;
                    notice = Notice::Zoomed;
                    redraw = true;
                }
            },
            Event::Other => {},
        }
        Reaction { hover, camera, notice, redraw }
    }

    /// What the pointer should look like: a closed hand during a drag, the
    /// widget's own look over the image, nothing special elsewhere.
    pub fn interaction(&self) -> (look: Interaction)
        ensures
            look == if self@.grabbing {
                Interaction::Grabbing
            } else if self@.hovered {
                Interaction::Hovering
            } else {
                Interaction::Idle
            },
    {
        if self.grabbing {
            Interaction::Grabbing
        } else if self.is_hovered {
            Interaction::Hovering
        } else {
            Interaction::Idle
        }
    }
}

/// Every event leaves the invariant of the state in place and the tag as it
/// was: an anchor is recorded only while the button is held, and a canvas
/// keeps the generation it was made with.
pub proof fn lemma_step_keeps_invariant(state: Gesture, cursor: Cursor, event: Event)
    requires
        state.wf(),
    ensures
        state.step(cursor, event).wf(),
        state.step(cursor, event).generation == state.generation,
        state.step(cursor, event).should_center == state.should_center,
        state.step(cursor, event).should_rescale == state.should_rescale,
{
}

/// A pointer that leaves the widget calls off whatever was going on: no drag,
/// no anchor and no hover are left, and the host is told nothing.
pub proof fn lemma_leaving_calls_off(state: Gesture, event: Event, on_move: bool)
    ensures
        !state.step(Cursor::Outside, event).grabbing,
        !state.step(Cursor::Outside, event).anchored,
        !state.step(Cursor::Outside, event).hovered,
        state.reaction(Cursor::Outside, event, on_move) == (Reaction {
            hover: Hover::Unchanged,
            camera: Camera::Keep,
            notice: Notice::Nothing,
            redraw: false,
        }),
{
}

/// During a drag the first move records the anchor and every later move
/// drags, leaving the state as it is. The offset is set from the pointer and
/// the anchor alone, so a move to where the pointer already is changes nothing.
pub proof fn lemma_drag_settles(state: Gesture, first: bool, second: bool, on_move: bool)
    requires
        state.wf(),
        state.grabbing,
    ensures
        ({
            let moved = state.step(Cursor::Inside { over_image: first }, Event::CursorMoved);
            let again = moved.step(Cursor::Inside { over_image: second }, Event::CursorMoved);
            &&& moved.grabbing && moved.anchored
            &&& again == moved
            &&& moved.reaction(Cursor::Inside { over_image: second }, Event::CursorMoved, on_move)
                == (Reaction {
                hover: Hover::Unchanged,
                camera: Camera::Drag,
                notice: Notice::Moved,
                redraw: !on_move,
            })
        }),
{
}

/// The host is told of the image being entered or left exactly when the hover
/// changes, so never twice in a row of the same.
pub proof fn lemma_hover_told_on_change(state: Gesture, over_image: bool, event: Event, on_move: bool)
    ensures
        ({
            let cursor = Cursor::Inside { over_image };
            let told = state.reaction(cursor, event, on_move).hover;
            let after = state.step(cursor, event);
            &&& told == Hover::Entered <==> !state.hovered && after.hovered
            &&& told == Hover::Exited <==> state.hovered && !after.hovered
        }),
{
}

/// The wheel does nothing during a drag.
pub proof fn lemma_wheel_waits_for_drag(state: Gesture, over_image: bool, on_move: bool)
    requires
        state.grabbing,
    ensures
        ({
            let cursor = Cursor::Inside { over_image };
            &&& state.step(cursor, Event::WheelScrolled) == state
            &&& state.reaction(cursor, Event::WheelScrolled, on_move) == (Reaction {
                hover: Hover::Unchanged,
                camera: Camera::Keep,
                notice: Notice::Nothing,
                redraw: false,
            })
        }),
{
}

/// A request is met once: when the waiting requests have been taken, none is
/// waiting, however many were made before.
pub proof fn lemma_requests_met_once(state: Gesture)
    ensures
        !state.settled().should_center,
        !state.settled().should_rescale,
        state.settled().settled() == state.settled(),
{
}

/// The tag that a source hands out after `calls` earlier calls, where its
/// first tag was `first`.
pub open spec fn tag_after(first: u64, calls: nat) -> u64 {
    ((first + calls) % 0x1_0000_0000_0000_0000) as u64
}

/// Tags are handed out in the order of [`tag_after`], and no tag comes twice
/// before as many have been handed out as there are values of `u64`.
pub proof fn lemma_tags_differ(first: u64, earlier: nat, later: nat)
    requires
        earlier < later < earlier + 0x1_0000_0000_0000_0000,
    ensures
        tag_after(first, 0) == first,
        tag_after(first, earlier + 1) == following(tag_after(first, earlier)),
        tag_after(first, earlier) != tag_after(first, later),
{
    let modulus = 0x1_0000_0000_0000_0000int;
    let a = first + earlier;
    let b = first + later;
    assert(a < b < a + modulus);
    if a % modulus == b % modulus {
        assert(a == modulus * (a / modulus) + a % modulus) by {
            vstd::arithmetic::div_mod::lemma_fundamental_div_mod(a, modulus);
        }
        assert(b == modulus * (b / modulus) + b % modulus) by {
            vstd::arithmetic::div_mod::lemma_fundamental_div_mod(b, modulus);
        }
        assert(b - a == modulus * (b / modulus - a / modulus)) by (nonlinear_arith)
            requires
                a == modulus * (a / modulus) + a % modulus,
                b == modulus * (b / modulus) + b % modulus,
                a % modulus == b % modulus,
        ;
        let q = b / modulus - a / modulus;
        assert(0 < modulus * q < modulus);
        assert(false) by (nonlinear_arith)
            requires
                0 < modulus * q < modulus,
                modulus > 0,
        ;
    }
}

} // verus!
