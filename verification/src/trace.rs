//! Whole runs of the frame driver: what holds of the state after any sequence
//! of events, and of the answers given along the way.

use crate::binary32::{lemma_of_u32_exact, Binary32};
use crate::driver::{Action, Event, FrameDriver, Key, KeyState};
use crate::surface::SurfaceError;
use crate::uniforms::Vec2;
use vstd::prelude::*;

verus! {

impl FrameDriver {
    /// The state after the events, taken in order.
    pub open spec fn run(self, events: Seq<Event>) -> FrameDriver
        decreases events.len(),
    {
        if events.len() == 0 {
            self
        } else {
            self.step(events[0]).0.run(events.skip(1))
        }
    }

    /// The answers to the events, one for each, in order.
    pub open spec fn answers(self, events: Seq<Event>) -> Seq<Action>
        decreases events.len(),
    {
        if events.len() == 0 {
            Seq::empty()
        } else {
            seq![self.step(events[0]).1] + self.step(events[0]).0.answers(events.skip(1))
        }
    }
}

/// The events that can end a run: a request to close, the cancel key, and a
/// fatal error of the surface.
pub open spec fn may_end_run(event: Event) -> bool {
    ||| event is CloseRequested
    ||| event == (Event::KeyInput { key: Key::Escape, state: KeyState::Pressed })
    ||| event == (Event::AcquireFailed { error: SurfaceError::Fatal })
}

/// None of the events can end a run.
pub open spec fn none_ends_run(events: Seq<Event>) -> bool {
    forall|i: int| 0 <= i < events.len() ==> !may_end_run(#[trigger] events[i])
}

/// The size that the event gives the window, if it gives it one.
pub open spec fn new_size(event: Event) -> Option<(u32, u32)> {
    match event {
        Event::Resized { width, height } => Some((width, height)),
        Event::ScaleFactorChanged { width, height } => Some((width, height)),
        _ => None,
    }
}

/// The event gives the window a size with both dimensions positive.
pub open spec fn is_positive_resize(event: Event) -> bool {
    new_size(event) matches Some(size) && size.0 > 0 && size.1 > 0
}

/// The size that a surface has after `event`, if it had `before`: the new
/// size if the event brings one with both dimensions positive, and `before`
/// after anything else.
pub open spec fn size_after(event: Event, before: (u32, u32)) -> (u32, u32) {
    if is_positive_resize(event) {
        new_size(event)->0
    } else {
        before
    }
}

/// The size of the last resize among `events` that has both dimensions
/// positive, and `before` if there is none.
pub open spec fn last_size(events: Seq<Event>, before: (u32, u32)) -> (u32, u32)
    decreases events.len(),
{
    if events.len() == 0 {
        before
    } else {
        last_size(events.skip(1), size_after(events[0], before))
    }
}

/// The pointer position after `event`, if it was `before`.
pub open spec fn pointer_after(event: Event, before: Vec2) -> Vec2 {
    match event {
        Event::PointerMoved { x, y } => Vec2 { x, y },
        _ => before,
    }
}

/// The position of the last pointer move among `events`, and `before` if
/// there is none.
pub open spec fn last_pointer(events: Seq<Event>, before: Vec2) -> Vec2
    decreases events.len(),
{
    if events.len() == 0 {
        before
    } else {
        last_pointer(events.skip(1), pointer_after(events[0], before))
    }
}

/// The clock does not run backwards over `events`: the reading of each redraw
/// request is no less than the one before it, and the first no less than
/// `floor`. Readings are compared by [`Binary32::order_key`].
pub open spec fn readings_ascend(events: Seq<Event>, floor: int) -> bool
    decreases events.len(),
{
    if events.len() == 0 {
        true
    } else {
        match events[0] {
            Event::RedrawRequested { elapsed } => floor <= elapsed.order_key() && readings_ascend(
                events.skip(1),
                elapsed.order_key(),
            ),
            _ => readings_ascend(events.skip(1), floor),
        }
    }
}

/// A consistent state stays consistent, whatever happens.
pub proof fn lemma_run_stays_consistent(start: FrameDriver, events: Seq<Event>)
    requires
        start.is_consistent(),
    ensures
        start.run(events).is_consistent(),
    decreases events.len(),
{
    if events.len() > 0 {
        lemma_run_stays_consistent(start.step(events[0]).0, events.skip(1));
    }
}

/// There is one answer for each event.
pub proof fn lemma_answers_len(start: FrameDriver, events: Seq<Event>)
    ensures
        start.answers(events).len() == events.len(),
    decreases events.len(),
{
    if events.len() > 0 {
        lemma_answers_len(start.step(events[0]).0, events.skip(1));
    }
}

/// At most one frame is under way at any time. A frame is asked for only by
/// an idle driver, which then waits for the outcome; a pass is drawn, or a
/// frame skipped, only in answer to the outcome that the driver waited for;
/// and a waiting driver becomes idle again by such an outcome alone.
pub proof fn lemma_one_frame_at_a_time(state: FrameDriver, event: Event)
    ensures
        state.step(event).1 is AcquireFrame ==> state.phase is Idle && state.step(event).0.phase
            is Rendering && event is RedrawRequested,
        state.step(event).1 is Draw ==> state.phase is Rendering && state.step(event).0.phase
            is Idle && event is FrameAcquired,
        state.step(event).1 is SkipFrame ==> state.phase is Rendering && state.step(event).0.phase
            is Idle && event is AcquireFailed,
        state.phase is Rendering && state.step(event).0.phase is Idle ==> event is FrameAcquired
            || event is AcquireFailed,
        state.phase is Idle && state.step(event).0.phase is Rendering ==> state.step(event).1
            == Action::AcquireFrame(state.step(event).0.uniforms),
{
}

/// Once the run is over it stays over: no event changes the state, and every
/// answer is to do nothing.
pub proof fn lemma_terminating_absorbs(start: FrameDriver, events: Seq<Event>)
    requires
        start.phase is Terminating,
    ensures
        start.run(events) == start,
        start.answers(events) == Seq::new(events.len(), |i: int| Action::Nothing),
    decreases events.len(),
{
    if events.len() > 0 {
        lemma_terminating_absorbs(start, events.skip(1));
        assert(start.step(events[0]) == (start, Action::Nothing));
    }
    assert(start.answers(events) =~= Seq::new(events.len(), |i: int| Action::Nothing));
}

/// A request to close the window ends the run at once, from every state, and
/// so does the cancel key. Whatever is delivered afterwards, the run stays
/// over and no frame is started or drawn and no surface configured: every
/// answer is to do nothing.
pub proof fn lemma_close_ends_run(start: FrameDriver, events: Seq<Event>)
    ensures
        start.step(Event::CloseRequested).0.phase is Terminating,
        start.step(Event::KeyInput { key: Key::Escape, state: KeyState::Pressed }) == start.step(
            Event::CloseRequested,
        ),
        start.step(Event::CloseRequested).0.run(events) == start.step(Event::CloseRequested).0,
        start.step(Event::CloseRequested).0.answers(events) == Seq::new(
            events.len(),
            |i: int| Action::Nothing,
        ),
{
    lemma_terminating_absorbs(start.step(Event::CloseRequested).0, events);
}

/// A run goes on as long as nothing ends it: without a request to close, the
/// cancel key or a fatal error, the driver does not terminate.
pub proof fn lemma_run_goes_on(start: FrameDriver, events: Seq<Event>)
    requires
        !(start.phase is Terminating),
        none_ends_run(events),
    ensures
        !(start.run(events).phase is Terminating),
    decreases events.len(),
{
    if events.len() > 0 {
        let rest = events.skip(1);
        assert(!may_end_run(events[0]));
        assert forall|i: int| 0 <= i < rest.len() implies !may_end_run(#[trigger] rest[i]) by {
            assert(rest[i] == events[i + 1]);
        }
        lemma_run_goes_on(start.step(events[0]).0, rest);
    }
}

/// While the run goes on, the surface has the size of the most recent resize
/// with both dimensions positive (its first size, if there was none); nothing
/// else in the configuration has changed; and the resolution in the uniforms
/// is the conversion of that size. Redraws, pointer moves and resizes with a
/// zero dimension may come in between in any number.
pub proof fn lemma_size_follows_resizes(start: FrameDriver, events: Seq<Event>)
    requires
        start.is_consistent(),
        !(start.run(events).phase is Terminating),
    ensures
        (start.run(events).config.width, start.run(events).config.height) == last_size(
            events,
            (start.config.width, start.config.height),
        ),
        start.run(events).config == start.config.with_size(
            start.run(events).config.width,
            start.run(events).config.height,
        ),
        start.run(events).uniforms.resolution == (Vec2 {
            x: Binary32::of_u32(start.run(events).config.width),
            y: Binary32::of_u32(start.run(events).config.height),
        }),
    decreases events.len(),
{
    if events.len() > 0 {
        if start.phase is Terminating {
            lemma_terminating_absorbs(start, events);
        }
        lemma_size_follows_resizes(start.step(events[0]).0, events.skip(1));
    }
}

/// Without a resize that has both dimensions positive the size stays.
proof fn lemma_last_size_without_resize(events: Seq<Event>, before: (u32, u32))
    requires
        forall|i: int| 0 <= i < events.len() ==> !is_positive_resize(#[trigger] events[i]),
    ensures
        last_size(events, before) == before,
    decreases events.len(),
{
    if events.len() > 0 {
        let rest = events.skip(1);
        assert(!is_positive_resize(events[0]));
        assert forall|i: int| 0 <= i < rest.len() implies !is_positive_resize(#[trigger] rest[i]) by {
            assert(rest[i] == events[i + 1]);
        }
        lemma_last_size_without_resize(rest, before);
    }
}

/// Where event `at` is a resize with both dimensions positive and no such
/// resize comes after it, `last_size` is the size of that event.
proof fn lemma_last_size_at(events: Seq<Event>, before: (u32, u32), at: int)
    requires
        0 <= at < events.len(),
        is_positive_resize(events[at]),
        forall|i: int| at < i < events.len() ==> !is_positive_resize(#[trigger] events[i]),
    ensures
        last_size(events, before) == new_size(events[at])->0,
    decreases events.len(),
{
    let rest = events.skip(1);
    if at > 0 {
        assert(rest[at - 1] == events[at]);
        assert forall|i: int| at - 1 < i < rest.len() implies !is_positive_resize(
            #[trigger] rest[i],
        ) by {
            assert(rest[i] == events[i + 1]);
        }
        lemma_last_size_at(rest, size_after(events[0], before), at - 1);
    } else {
        assert forall|i: int| 0 <= i < rest.len() implies !is_positive_resize(#[trigger] rest[i]) by {
            assert(rest[i] == events[i + 1]);
        }
        lemma_last_size_without_resize(rest, size_after(events[0], before));
    }
}

/// After any sequence of events that does not end the run, the surface has
/// the size of the most recent resize with both dimensions positive, and the
/// resolution in the uniforms is the conversion of exactly that size.
pub proof fn lemma_latest_resize_applies(start: FrameDriver, events: Seq<Event>, at: int)
    requires
        start.is_consistent(),
        !(start.phase is Terminating),
        none_ends_run(events),
        0 <= at < events.len(),
        is_positive_resize(events[at]),
        forall|i: int| at < i < events.len() ==> !is_positive_resize(#[trigger] events[i]),
    ensures
        new_size(events[at]) matches Some(size) && start.run(events).config
            == start.config.with_size(size.0, size.1) && start.run(events).uniforms.resolution
            == (Vec2 { x: Binary32::of_u32(size.0), y: Binary32::of_u32(size.1) }),
{
    lemma_run_goes_on(start, events);
    lemma_size_follows_resizes(start, events);
    lemma_last_size_at(events, (start.config.width, start.config.height), at);
}

/// In a consistent state the resolution stands for the size of the surface,
/// number for number, as long as 24 bits hold each dimension.
pub proof fn lemma_resolution_is_size(state: FrameDriver)
    requires
        state.is_consistent(),
        state.config.width < 0x100_0000,
        state.config.height < 0x100_0000,
    ensures
        state.uniforms.resolution.x.encodes(state.config.width as nat),
        state.uniforms.resolution.y.encodes(state.config.height as nat),
{
    lemma_of_u32_exact(state.config.width);
    lemma_of_u32_exact(state.config.height);
}

/// Every configuration that the driver asks to have applied has both
/// dimensions positive.
pub proof fn lemma_configurations_valid(start: FrameDriver, events: Seq<Event>, i: int)
    requires
        start.is_consistent(),
        0 <= i < events.len(),
    ensures
        start.answers(events).len() == events.len(),
        start.answers(events)[i] matches Action::Configure(c) ==> c.is_valid(),
    decreases events.len(),
{
    lemma_answers_len(start, events);
    if i > 0 {
        let next = start.step(events[0]).0;
        lemma_answers_len(next, events.skip(1));
        lemma_configurations_valid(next, events.skip(1), i - 1);
    }
}

/// While the run goes on, the pointer position in the uniforms is that of the
/// most recent pointer move (the first position, if there was none), exactly
/// as it was reported, whatever came in between.
pub proof fn lemma_pointer_follows_moves(start: FrameDriver, events: Seq<Event>)
    requires
        !(start.run(events).phase is Terminating),
    ensures
        start.run(events).uniforms.mouse == last_pointer(events, start.uniforms.mouse),
    decreases events.len(),
{
    if events.len() > 0 {
        if start.phase is Terminating {
            lemma_terminating_absorbs(start, events);
        }
        lemma_pointer_follows_moves(start.step(events[0]).0, events.skip(1));
    }
}

/// Without a pointer move the position stays.
proof fn lemma_last_pointer_without_move(events: Seq<Event>, before: Vec2)
    requires
        forall|i: int| 0 <= i < events.len() ==> !(#[trigger] events[i] is PointerMoved),
    ensures
        last_pointer(events, before) == before,
    decreases events.len(),
{
    if events.len() > 0 {
        let rest = events.skip(1);
        assert(!(events[0] is PointerMoved));
        assert forall|i: int| 0 <= i < rest.len() implies !(#[trigger] rest[i] is PointerMoved) by {
            assert(rest[i] == events[i + 1]);
        }
        lemma_last_pointer_without_move(rest, before);
    }
}

/// Where event `at` is a pointer move and none comes after it, `last_pointer`
/// is the position of that event.
proof fn lemma_last_pointer_at(events: Seq<Event>, before: Vec2, at: int)
    requires
        0 <= at < events.len(),
        events[at] is PointerMoved,
        forall|i: int| at < i < events.len() ==> !(#[trigger] events[i] is PointerMoved),
    ensures
        events[at] matches Event::PointerMoved { x, y } && last_pointer(events, before) == (Vec2 {
            x,
            y,
        }),
    decreases events.len(),
{
    let rest = events.skip(1);
    if at > 0 {
        assert(rest[at - 1] == events[at]);
        assert forall|i: int| at - 1 < i < rest.len() implies !(#[trigger] rest[i]
            is PointerMoved) by {
            assert(rest[i] == events[i + 1]);
        }
        lemma_last_pointer_at(rest, pointer_after(events[0], before), at - 1);
    } else {
        assert forall|i: int| 0 <= i < rest.len() implies !(#[trigger] rest[i] is PointerMoved) by {
            assert(rest[i] == events[i + 1]);
        }
        lemma_last_pointer_without_move(rest, pointer_after(events[0], before));
    }
}

/// After any sequence of events that does not end the run, the pointer
/// position in the uniforms is that of the most recent pointer move, as it was
/// reported: redraws, resizes and failed frames in between do not touch it,
/// and earlier positions leave no trace.
pub proof fn lemma_latest_move_applies(start: FrameDriver, events: Seq<Event>, at: int)
    requires
        !(start.phase is Terminating),
        none_ends_run(events),
        0 <= at < events.len(),
        events[at] is PointerMoved,
        forall|i: int| at < i < events.len() ==> !(#[trigger] events[i] is PointerMoved),
    ensures
        events[at] matches Event::PointerMoved { x, y } && start.run(events).uniforms.mouse == (Vec2 {
            x,
            y,
        }),
{
    lemma_run_goes_on(start, events);
    lemma_pointer_follows_moves(start, events);
    lemma_last_pointer_at(events, start.uniforms.mouse, at);
}

/// The time in the uniforms is no less at the end of a run than at its start,
/// provided that the clock did not run backwards: no reading handed in with
/// a redraw request lies below the one before it, nor the first below `floor`,
/// a bound on the time held at the start.
pub proof fn lemma_time_never_decreases(start: FrameDriver, events: Seq<Event>, floor: int)
    requires
        start.uniforms.time.order_key() <= floor,
        readings_ascend(events, floor),
    ensures
        start.uniforms.time.order_key() <= start.run(events).uniforms.time.order_key(),
    decreases events.len(),
{
    if events.len() > 0 {
        let next = start.step(events[0]).0;
        match events[0] {
            Event::RedrawRequested { elapsed } => {
                lemma_time_never_decreases(next, events.skip(1), elapsed.order_key());
            },
            _ => {
                lemma_time_never_decreases(next, events.skip(1), floor);
            },
        }
    }
}

} // verus!
