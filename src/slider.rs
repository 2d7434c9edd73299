use vstd::prelude::*;
use crate::geometry::{
    Point, Size, Ratio, saturate, saturating_add, saturating_sub, percent, normalized, percent_of,
    normalized_of, opt_view, coord_min, coord_max, max_percent_of, frac_le,
    lemma_percent_within_bounds, lemma_normalized_in_unit_range,
};

verus! {

/// A colour as four 8-bit channels. The slider only carries it through to the view.
#[derive(Clone, Copy, Debug, PartialEq, Eq)]
pub struct Rgba {
    pub r: u8,
    pub g: u8,
    pub b: u8,
    pub a: u8,
}

/// What a slider is made with: the handle's size and the two colours.
#[derive(Clone, Copy, Debug, PartialEq, Eq)]
pub struct SliderBoxProps {
    pub size: Size,
    pub box_color: Rgba,
    pub button_color: Rgba,
}

/// The handle's position as a percentage of the container, per axis.
#[derive(Clone, Copy, Debug, PartialEq, Eq)]
pub struct Percent {
    pub left: Ratio,
    pub top: Ratio,
}

/// The value the slider publishes: per axis, the position in `[0, 1]` of the
/// handle's travel, or `None` where the geometry leaves no travel to measure.
#[derive(Clone, Copy, Debug, PartialEq, Eq)]
pub struct Normalized {
    pub x: Option<Ratio>,
    pub y: Option<Ratio>,
}

/// The slider's mutable state, kept from one update cycle to the next.
#[derive(Clone, Copy, Debug, PartialEq, Eq)]
pub struct SliderState {
    pub is_dragging: bool,
    /// From the pointer at the start of a drag to the handle's position then.
    pub drag_offset: Point,
    /// The handle's top-left corner; not clamped.
    pub position: Point,
    /// The container's size at the last layout.
    pub container_size: Size,
    /// The clamped percentage at the last recomputation.
    pub percent: Percent,
}

/// What the slider delivers to it: pointer events on the handle, with the
/// pointer's position, and the container's size after each layout.
#[derive(Clone, Copy, Debug, PartialEq, Eq)]
pub enum SliderEvent {
    PointerDown(Point),
    PointerUp(Point),
    PointerHover(Point),
    Layout(Size),
}

/// What the host must do with the exclusive pointer capture after an event.
/// Releasing a capture that is not held does nothing.
#[derive(Clone, Copy, Debug, PartialEq, Eq)]
pub enum CaptureAction {
    Capture,
    Release,
    Keep,
}

/// A mounted slider: its props and its state.
#[derive(Clone, Copy, Debug, PartialEq, Eq)]
pub struct SliderBox {
    pub props: SliderBoxProps,
    pub state: SliderState,
}

/// The handle as drawn: its colour, its size and its offset from the track's
/// top-left corner as percentages of the track.
#[derive(Clone, Copy, Debug, PartialEq, Eq)]
pub struct HandleView {
    pub color: Rgba,
    pub width: u32,
    pub height: u32,
    pub left: Ratio,
    pub top: Ratio,
}

/// The track as drawn, holding the handle.
#[derive(Clone, Copy, Debug, PartialEq, Eq)]
pub struct TrackView {
    pub color: Rgba,
    pub handle: HandleView,
}

/// What one update cycle hands back to the host.
#[derive(Clone, Debug, PartialEq, Eq)]
pub struct Frame {
    /// One capture action per event, in order.
    pub actions: Vec<CaptureAction>,
    pub view: TrackView,
    pub published: Normalized,
}

/// The state of a freshly mounted slider: every field zero, not dragging.
pub open spec fn initial_state() -> SliderState {
    SliderState {
        is_dragging: false,
        drag_offset: Point { x: 0, y: 0 },
        position: Point { x: 0, y: 0 },
        container_size: Size { width: 0, height: 0 },
        percent: Percent { left: Ratio { num: 0, den: 1 }, top: Ratio { num: 0, den: 1 } },
    }
}

/// The offset taken at the start of a drag: handle position less pointer position.
pub open spec fn offset_at_down(position: Point, pointer: Point) -> Point {
    Point {
        x: saturate(position.x - pointer.x) as i64,
        y: saturate(position.y - pointer.y) as i64,
    }
}

/// The handle position during a drag: offset plus pointer position.
pub open spec fn position_at_hover(offset: Point, pointer: Point) -> Point {
    Point { x: saturate(offset.x + pointer.x) as i64, y: saturate(offset.y + pointer.y) as i64 }
}

/// The state after one event.
pub open spec fn step(s: SliderState, e: SliderEvent) -> SliderState {
    match e {
        SliderEvent::PointerDown(p) => SliderState {
            is_dragging: true,
            drag_offset: offset_at_down(s.position, p),
            ..s
        },
        SliderEvent::PointerUp(_) => SliderState { is_dragging: false, ..s },
        SliderEvent::PointerHover(p) => if s.is_dragging {
            SliderState { position: position_at_hover(s.drag_offset, p), ..s }
        } else {
            s
        },
        SliderEvent::Layout(m) => SliderState { container_size: m, ..s },
    }
}

/// The capture action that an event asks of the host.
pub open spec fn action_of(e: SliderEvent) -> CaptureAction {
    match e {
        SliderEvent::PointerDown(_) => CaptureAction::Capture,
        SliderEvent::PointerUp(_) => CaptureAction::Release,
        _ => CaptureAction::Keep,
    }
}

/// The state after a sequence of events, in order.
pub open spec fn run(s: SliderState, events: Seq<SliderEvent>) -> SliderState
    decreases events.len(),
{
    if events.len() == 0 {
        s
    } else {
        step(run(s, events.drop_last()), events.last())
    }
}

/// The capture actions of a sequence of events, in order.
pub open spec fn actions_of(events: Seq<SliderEvent>) -> Seq<CaptureAction> {
    events.map_values(|e: SliderEvent| action_of(e))
}

/// Whether the capture is held after the host has carried out `actions`,
/// starting from `held`.
pub open spec fn held_after(held: bool, actions: Seq<CaptureAction>) -> bool
    decreases actions.len(),
{
    if actions.len() == 0 {
        held
    } else {
        match actions.last() {
            CaptureAction::Capture => true,
            CaptureAction::Release => false,
            CaptureAction::Keep => held_after(held, actions.drop_last()),
        }
    }
}

/// The clamped percentages for the state's position and container.
pub open spec fn percent_for(size: Size, s: SliderState) -> ((int, int), (int, int)) {
    (
        percent_of(s.position.x as int, s.container_size.width as int, size.width as int),
        percent_of(s.position.y as int, s.container_size.height as int, size.height as int),
    )
}

/// The normalized values for the state's position and container.
pub open spec fn normalized_for(size: Size, s: SliderState) -> (
    Option<(int, int)>,
    Option<(int, int)>,
) {
    (
        normalized_of(s.position.x as int, s.container_size.width as int, size.width as int),
        normalized_of(s.position.y as int, s.container_size.height as int, size.height as int),
    )
}

/// `p` is the well-formed percentage that the position and container of `s` give.
pub open spec fn recomputed(size: Size, s: SliderState, p: Percent) -> bool {
    &&& p.left.wf() && p.top.wf()
    &&& (p.left@, p.top@) == percent_for(size, s)
}


/// The state once the slider is taken down: any drag has ended.
pub open spec fn unmounted(s: SliderState) -> SliderState {
    SliderState { is_dragging: false, ..s }
}

/// The capture action of taking the slider down: a held capture is released.
pub open spec fn unmount_action(s: SliderState) -> CaptureAction {
    if s.is_dragging {
        CaptureAction::Release
    } else {
        CaptureAction::Keep
    }
}

/// The track and handle as drawn for a slider.
pub open spec fn view_of(b: SliderBox) -> TrackView {
    TrackView {
        color: b.props.box_color,
        handle: HandleView {
            color: b.props.button_color,
            width: b.props.size.width,
            height: b.props.size.height,
            left: b.state.percent.left,
            top: b.state.percent.top,
        },
    }
}

impl SliderBox {
    /// A freshly mounted slider with zeroed state.
    pub fn new(props: SliderBoxProps) -> (r: SliderBox)
        ensures
            r.props == props,
            r.state == initial_state(),
    {
        SliderBox {
            props,
            state: SliderState {
                is_dragging: false,
                drag_offset: Point { x: 0, y: 0 },
                position: Point { x: 0, y: 0 },
                container_size: Size { width: 0, height: 0 },
                percent: Percent { left: Ratio { num: 0, den: 1 }, top: Ratio { num: 0, den: 1 } },
            },
        }
    }

    /// The pointer went down on the handle at `pointer`: start (or restart) a
    /// drag and take the offset from the pointer to the handle.
    pub fn on_pointer_down(&mut self, pointer: Point) -> (r: CaptureAction)
        ensures
            final(self).props == old(self).props,
            final(self).state == step(old(self).state, SliderEvent::PointerDown(pointer)),
            r == action_of(SliderEvent::PointerDown(pointer)),
    {
        self.state.is_dragging = true;
        self.state.drag_offset = Point {
            x: saturating_sub(self.state.position.x, pointer.x),
            y: saturating_sub(self.state.position.y, pointer.y),
        };
        CaptureAction::Capture
    }

    /// The pointer went up: end the drag, if any, and release the capture.
    /// Where the pointer went up does not matter; the position is taken for
    /// symmetry with the other pointer events.
    pub fn on_pointer_up(&mut self, pointer: Point) -> (r: CaptureAction)
        ensures
            final(self).props == old(self).props,
            final(self).state == step(old(self).state, SliderEvent::PointerUp(pointer)),
            r == action_of(SliderEvent::PointerUp(pointer)),
    {
        self.state.is_dragging = false;
        CaptureAction::Release
    }

    /// The pointer moved to `pointer`: while dragging, the handle follows it at
    /// the offset taken when the drag began; otherwise nothing changes.
    pub fn on_pointer_hover(&mut self, pointer: Point)
        ensures
            final(self).props == old(self).props,
            final(self).state == step(old(self).state, SliderEvent::PointerHover(pointer)),
    {
        if self.state.is_dragging {
            self.state.position = Point {
                x: saturating_add(self.state.drag_offset.x, pointer.x),
                y: saturating_add(self.state.drag_offset.y, pointer.y),
            };
        }
    }

    /// The container was laid out at `measured`.
    pub fn on_layout(&mut self, measured: Size)
        ensures
            final(self).props == old(self).props,
            final(self).state == step(old(self).state, SliderEvent::Layout(measured)),
    {
        self.state.container_size = measured;
    }

    /// Applies one event and returns what the host must do with the capture.
    pub fn handle_event(&mut self, event: SliderEvent) -> (r: CaptureAction)
        ensures
            final(self).props == old(self).props,
            final(self).state == step(old(self).state, event),
            r == action_of(event),
    {
        match event {
            SliderEvent::PointerDown(p) => self.on_pointer_down(p),
            SliderEvent::PointerUp(p) => self.on_pointer_up(p),
            SliderEvent::PointerHover(p) => {
                self.on_pointer_hover(p);
                CaptureAction::Keep
            },
            SliderEvent::Layout(m) => {
                self.on_layout(m);
                CaptureAction::Keep
            },
        }
    }

    /// Brings the percentage up to date with the position and the container,
    /// and returns the normalized value to publish.
    pub fn recompute_and_publish(&mut self) -> (r: Normalized)
        ensures
            final(self).props == old(self).props,
            final(self).state == (SliderState { percent: final(self).state.percent, ..old(self).state }),
            recomputed(old(self).props.size, old(self).state, final(self).state.percent),
            (opt_view(r.x), opt_view(r.y)) == normalized_for(old(self).props.size, old(self).state),
    {
        let size = self.props.size;
        let pos = self.state.position;
        let c = self.state.container_size;
        self.state.percent = Percent {
            left: percent(pos.x, c.width, size.width),
            top: percent(pos.y, c.height, size.height),
        };
        Normalized {
            x: normalized(pos.x, c.width, size.width),
            y: normalized(pos.y, c.height, size.height),
        }
    }

    /// The track and handle to draw for the current state.
    pub fn view(&self) -> (r: TrackView)
        ensures
            r == view_of(*self),
    {
        TrackView {
            color: self.props.box_color,
            handle: HandleView {
                color: self.props.button_color,
                width: self.props.size.width,
                height: self.props.size.height,
                left: self.state.percent.left,
                top: self.state.percent.top,
            },
        }
    }

    /// The slider is being taken down: a drag in progress ends and its capture
    /// is released. A slider that is not dragging is left as it is.
    pub fn unmount(&mut self) -> (r: CaptureAction)
        ensures
            final(self).props == old(self).props,
            final(self).state == unmounted(old(self).state),
            r == unmount_action(old(self).state),
    {
        if self.state.is_dragging {
            self.state.is_dragging = false;
            CaptureAction::Release
        } else {
            CaptureAction::Keep
        }
    }

    /// One update cycle: applies the events in order, then recomputes the
    /// percentage once, and returns the capture actions, the view and the
    /// value to publish.
    pub fn update_cycle(&mut self, events: &Vec<SliderEvent>) -> (r: Frame)
        ensures
            final(self).props == old(self).props,
            final(self).state == (SliderState {
                percent: final(self).state.percent,
                ..run(old(self).state, events@)
            }),
            recomputed(old(self).props.size, run(old(self).state, events@), final(self).state.percent),
            r.actions@ == actions_of(events@),
            (opt_view(r.published.x), opt_view(r.published.y)) == normalized_for(
                old(self).props.size,
                run(old(self).state, events@),
            ),
            r.view == view_of(*final(self)),
    {
        let mut actions: Vec<CaptureAction> = Vec::new();
        let mut i: usize = 0;
        while i < events.len()
            invariant
                0 <= i <= events@.len(),
                self.props == old(self).props,
                self.state == run(old(self).state, events@.subrange(0, i as int)),
                actions@ == actions_of(events@.subrange(0, i as int)),
            decreases events@.len() - i,
        {
            let a = self.handle_event(events[i]);
            actions.push(a);
            proof {
                let prefix = events@.subrange(0, i as int + 1);
                assert(prefix.drop_last() =~= events@.subrange(0, i as int));
                assert(actions_of(prefix) =~= actions_of(events@.subrange(0, i as int)).push(a));
            }
            i = i + 1;
        }
        assert(events@.subrange(0, events@.len() as int) =~= events@);
        let published = self.recompute_and_publish();
        let view = self.view();
        Frame { actions, view, published }
    }
}


/// Where the host carries out every capture action the slider returns, the
/// slider is dragging exactly when it holds the capture, after every event of
/// any sequence, given that this held at the start.
pub proof fn lemma_dragging_iff_captured(s: SliderState, events: Seq<SliderEvent>)
    ensures
        run(s, events).is_dragging == held_after(s.is_dragging, actions_of(events)),
    decreases events.len(),
{
    if events.len() > 0 {
        lemma_dragging_iff_captured(s, events.drop_last());
        assert(actions_of(events).drop_last() =~= actions_of(events.drop_last()));
    }
}

/// Taking the slider down keeps dragging and holding the capture in step:
/// afterwards it neither drags nor holds the capture.
pub proof fn lemma_unmount_releases_capture(s: SliderState)
    ensures
        unmounted(s).is_dragging == held_after(s.is_dragging, seq![unmount_action(s)]),
        !held_after(s.is_dragging, seq![unmount_action(s)]),
{
    let a = seq![unmount_action(s)];
    assert(a.len() == 1 && a.last() == unmount_action(s));
    assert(a.drop_last() =~= Seq::<CaptureAction>::empty());
    assert(held_after(s.is_dragging, a.drop_last()) == s.is_dragging);
}

/// A second pointer-up right after a first leaves the state as the first left it.
pub proof fn lemma_pointer_up_idempotent(s: SliderState, p: Point, q: Point)
    ensures
        step(step(s, SliderEvent::PointerUp(p)), SliderEvent::PointerUp(q)) == step(
            s,
            SliderEvent::PointerUp(p),
        ),
        !step(s, SliderEvent::PointerUp(p)).is_dragging,
{
}

/// A second unmount right after a first leaves the state as the first left it,
/// and asks nothing of the capture.
pub proof fn lemma_unmount_idempotent(s: SliderState)
    ensures
        unmounted(unmounted(s)) == unmounted(s),
        unmount_action(unmounted(s)) == CaptureAction::Keep,
{
}

/// A pointer-down at `p0` followed by a hover at `p1` puts the handle at the
/// offset taken at the down plus `p1`, the offset being the old position less
/// `p0`; where no coordinate leaves the range of `i64` this is the old position
/// moved by `p1 - p0`.
pub proof fn lemma_drag_follows_pointer(s: SliderState, p0: Point, p1: Point)
    ensures
        ({
            let down = step(s, SliderEvent::PointerDown(p0));
            let hover = step(down, SliderEvent::PointerHover(p1));
            &&& down.drag_offset == offset_at_down(s.position, p0)
            &&& hover.drag_offset == down.drag_offset
            &&& hover.position == position_at_hover(down.drag_offset, p1)
            &&& (coord_min() <= s.position.x - p0.x <= coord_max() && coord_min() <= s.position.x
                - p0.x + p1.x <= coord_max()) ==> hover.position.x == s.position.x + (p1.x - p0.x)
            &&& (coord_min() <= s.position.y - p0.y <= coord_max() && coord_min() <= s.position.y
                - p0.y + p1.y <= coord_max()) ==> hover.position.y == s.position.y + (p1.y - p0.y)
        }),
{
}

/// For a container that is not empty and a handle that fits in it on both
/// axes, the recomputed percentage lies between 0 and the largest percentage,
/// and the published value lies in `[0, 1]` wherever the handle is smaller
/// than the container.
pub proof fn lemma_recomputed_within_bounds(size: Size, s: SliderState)
    requires
        s.container_size.width > 0,
        s.container_size.height > 0,
        size.width <= s.container_size.width,
        size.height <= s.container_size.height,
    ensures
        max_percent_of(s.container_size.width as int, size.width as int) matches Some(m) && 0
            <= percent_for(size, s).0.0 && frac_le(percent_for(size, s).0, m),
        max_percent_of(s.container_size.height as int, size.height as int) matches Some(m) && 0
            <= percent_for(size, s).1.0 && frac_le(percent_for(size, s).1, m),
        size.width < s.container_size.width ==> (normalized_for(size, s).0 matches Some(n) && 0
            <= n.0 <= n.1),
        size.height < s.container_size.height ==> (normalized_for(size, s).1 matches Some(n) && 0
            <= n.0 <= n.1),
{
    let c = s.container_size;
    lemma_percent_within_bounds(s.position.x as int, c.width as nat, size.width as nat);
    lemma_percent_within_bounds(s.position.y as int, c.height as nat, size.height as nat);
    lemma_normalized_in_unit_range(s.position.x as int, c.width as nat, size.width as nat);
    lemma_normalized_in_unit_range(s.position.y as int, c.height as nat, size.height as nat);
}

} // verus!
