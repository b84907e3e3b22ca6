//! The render loop's decisions. The caller owns the event loop, the windows
//! and the drawing; it tells the loop what happened and what it observed, and
//! carries out what the loop returns.
//!
//! An event goes to [`RenderLoop::on_event`]. A tick is three steps: the caller
//! samples the hotkey, the overlay's style bits and the target's rectangle and
//! calls [`RenderLoop::begin_tick`]; it writes the style and the geometry as
//! ordered and runs the user interface if asked to; it hands the interface's
//! output to [`RenderLoop::end_tick`], presents the frame it gets back, and
//! waits as that frame says.

use vstd::prelude::*;
use crate::geometry::{GeometrySynchronizer, GeometryWrite, OverlayGeometry, Rect};
use crate::handle::NativeWindowHandle;
use crate::input::{rising_edge, InputMonitor};
use crate::style::{
    lemma_style_bits_reach_mode, style_bits_for, style_matches, OverlayStyleState, StyleController, StyleWrite,
};

verus! {

/// Whether the loop goes on.
#[derive(Clone, Copy, Debug, PartialEq, Eq, Structural)]
pub enum LoopPhase {
    /// Ticks follow one another.
    Running,
    /// A close or destroy event was seen. The loop never leaves this phase.
    Terminating,
}

/// What the event loop does once a tick is over.
#[derive(Clone, Copy, Debug, PartialEq, Eq, Structural)]
pub enum WaitPolicy {
    /// Ask for a redraw and tick again at once.
    Poll,
    /// Sleep until the next event arrives.
    Wait,
    /// Leave the event loop.
    Exit,
}

/// An event of the window system, reduced to what the loop tells apart.
#[derive(Clone, Copy, Debug, PartialEq, Eq, Structural)]
pub enum LoopEvent {
    /// The user asked to close the overlay's window.
    CloseRequested,
    /// The overlay's window was destroyed.
    Destroyed,
    /// Any other event of the overlay's window: input, focus, resizing.
    Window,
    /// The window asks to be redrawn.
    RedrawRequested,
    /// All redraw requests of this turn of the event loop were delivered.
    RedrawEventsCleared,
    /// An event that concerns no window.
    Other,
}

impl LoopEvent {
    /// The event belongs to the overlay's window.
    pub open spec fn of_window(self) -> bool {
        self is CloseRequested || self is Destroyed || self is Window
    }

    /// The event ends the loop.
    pub open spec fn closes(self) -> bool {
        self is CloseRequested || self is Destroyed
    }

    /// The event calls for a tick.
    pub open spec fn redraws(self) -> bool {
        self is RedrawRequested || self is RedrawEventsCleared
    }
}

/// What the caller does with an event.
#[derive(Clone, Copy, Debug, PartialEq, Eq, Structural)]
pub struct EventPlan {
    /// Hand the event to the user interface.
    pub forward_to_ui: bool,
    /// Ask the window system for a redraw.
    pub request_redraw: bool,
    /// Run a tick now.
    pub run_tick: bool,
    /// Tell the event loop to exit: the loop is terminating.
    pub exit: bool,
}

/// What the caller samples at the start of a tick.
#[derive(Clone, Copy, Debug, PartialEq, Eq, Structural)]
pub struct TickObservation {
    /// The hotkey is down.
    pub key_down: bool,
    /// The overlay window's extended style bits.
    pub style_bits: u32,
    /// The target window's rectangle as the operating system reports it.
    pub target_rect: Rect,
}

/// What the caller carries out in a tick, in this order.
#[derive(Clone, Copy, Debug, PartialEq, Eq, Structural)]
pub struct TickPlan {
    /// The style bits to write to the overlay, if the mode changed.
    pub style: Option<StyleWrite>,
    /// The geometry to give the overlay.
    pub geometry: GeometryWrite,
    /// Whether to run the user interface for this frame.
    pub invoke_ui: bool,
}

/// The colour a frame is cleared to before anything is drawn.
#[derive(Clone, Copy, Debug, PartialEq, Eq, Structural)]
pub struct ClearColor {
    pub red: u8,
    pub green: u8,
    pub blue: u8,
    pub alpha: u8,
}

impl ClearColor {
    /// Fully transparent: what is not painted shows the windows beneath.
    pub open spec fn transparent() -> ClearColor {
        ClearColor { red: 0, green: 0, blue: 0, alpha: 0 }
    }
}

/// What the user interface returned for one frame: its draw primitives, and
/// whether it wants another frame soon.
pub struct UiOutput<T> {
    pub display_list: Vec<T>,
    pub wants_repaint: bool,
}

/// What is presented at the end of a tick, and how to wait afterwards.
pub struct Frame<T> {
    /// The draw primitives to submit; empty for a fully transparent frame.
    pub display_list: Vec<T>,
    /// The colour to clear the frame to.
    pub clear: ClearColor,
    /// What the event loop does next.
    pub wait: WaitPolicy,
}

/// Everything the render loop remembers from one call to the next.
#[derive(Clone, Copy, Debug, PartialEq, Eq, Structural)]
pub struct LoopState {
    /// The window that is followed.
    pub target: NativeWindowHandle,
    /// The overlay's own window.
    pub overlay: NativeWindowHandle,
    /// The overlay's mode.
    pub style: OverlayStyleState,
    /// The hotkey monitor.
    pub monitor: InputMonitor,
    /// Whether the loop goes on.
    pub phase: LoopPhase,
}

impl LoopState {
    /// The state at startup: interactive, the hotkey up, running.
    pub open spec fn startup(target: NativeWindowHandle, overlay: NativeWindowHandle) -> LoopState {
        LoopState {
            target,
            overlay,
            style: OverlayStyleState::startup(),
            monitor: InputMonitor { was_down: false },
            phase: LoopPhase::Running,
        }
    }

    /// The overlay is in one of its two modes.
    pub open spec fn wf(self) -> bool {
        self.style.coherent()
    }

    /// The state after `event`: a close or destroy event ends the loop, and
    /// nothing else changes.
    pub open spec fn after_event(self, event: LoopEvent) -> LoopState {
        LoopState {
            phase: if event.closes() {
                LoopPhase::Terminating
            } else {
                self.phase
            },
            ..self
        }
    }

    /// What the caller does with `event`.
    pub open spec fn event_plan(self, event: LoopEvent) -> EventPlan {
        EventPlan {
            forward_to_ui: event.of_window() && self.style.interactive,
            request_redraw: event.of_window(),
            run_tick: event.redraws(),
            exit: self.after_event(event).phase is Terminating,
        }
    }

    /// The tick that observes `seen` toggles the mode.
    pub open spec fn toggles(self, seen: TickObservation) -> bool {
        rising_edge(self.monitor.was_down, seen.key_down)
    }

    /// The state after the tick that observes `seen`.
    pub open spec fn after_tick(self, seen: TickObservation) -> LoopState {
        LoopState {
            style: if self.toggles(seen) {
                self.style.flipped()
            } else {
                self.style
            },
            monitor: InputMonitor { was_down: seen.key_down },
            ..self
        }
    }

    /// What the caller carries out in the tick that observes `seen`.
    pub open spec fn tick_plan(self, seen: TickObservation) -> TickPlan {
        TickPlan {
            style: if self.toggles(seen) {
                Some(
                    StyleWrite {
                        handle: self.overlay,
                        bits: style_bits_for(seen.style_bits, self.style.flipped()),
                    },
                )
            } else {
                None
            },
            geometry: GeometryWrite {
                handle: self.overlay,
                geometry: OverlayGeometry::covering(seen.target_rect),
            },
            invoke_ui: self.after_tick(seen).style.interactive,
        }
    }

    /// The state after a run of ticks, one observation per tick.
    pub open spec fn after_ticks(self, run: Seq<TickObservation>) -> LoopState
        decreases run.len(),
    {
        if run.len() == 0 {
            self
        } else {
            self.after_ticks(run.drop_last()).after_tick(run.last())
        }
    }

    /// The user interface's output counts: the interface is drawn in this
    /// mode, and it was run.
    pub open spec fn draws(self, ui_ran: bool) -> bool {
        self.style.interactive && ui_ran
    }

    /// What the event loop does after a tick in which the user interface
    /// answered `wants_repaint`, or was not run (`None`).
    pub open spec fn wait_policy(self, wants_repaint: Option<bool>) -> WaitPolicy {
        if self.phase is Terminating {
            WaitPolicy::Exit
        } else if self.style.interactive && wants_repaint == Some(true) {
            WaitPolicy::Poll
        } else {
            WaitPolicy::Wait
        }
    }
}

/// The render loop: the overlay's mode, its hotkey monitor and its phase.
pub struct RenderLoop {
    state: LoopState,
}

impl View for RenderLoop {
    type V = LoopState;

    closed spec fn view(&self) -> LoopState {
        self.state
    }
}

impl RenderLoop {
    #[verifier::type_invariant]
    spec fn inv(self) -> bool {
        self.state.wf()
    }

    /// The loop of an overlay `overlay` that follows `target`, as it is at
    /// startup: interactive and running.
    pub fn new(target: NativeWindowHandle, overlay: NativeWindowHandle) -> (render_loop: RenderLoop)
        ensures
            render_loop@ == LoopState::startup(target, overlay),
            render_loop@.wf(),
    {
        RenderLoop {
            state: LoopState {
                target,
                overlay,
                style: OverlayStyleState::initial(),
                monitor: InputMonitor::new(),
                phase: LoopPhase::Running,
            },
        }
    }

    /// The style bits to write to the overlay once at startup, given the bits
    /// that its new window has: those of the loop's mode.
    pub fn startup_style(&self, current: u32) -> (write: StyleWrite)
        ensures
            write.handle == self@.overlay,
            write.bits == style_bits_for(current, self@.style),
            style_matches(write.bits, self@.style),
    {
        StyleController::new(self.state.overlay).apply(current, self.state.style)
    }

    /// Takes one event of the window system. A close or destroy event ends the
    /// loop for good, and from then on every plan says to exit. Events of the
    /// overlay's window go on to the user interface while the overlay is
    /// interactive, and ask for a redraw; a redraw event calls for a tick.
    pub fn on_event(&mut self, event: LoopEvent) -> (plan: EventPlan)
        ensures
            final(self)@ == old(self)@.after_event(event),
            plan == old(self)@.event_plan(event),
            final(self)@.phase is Terminating <==> old(self)@.phase is Terminating
                || event.closes(),
            plan.exit == (final(self)@.phase is Terminating),
            final(self)@.wf(),
    {
        proof {
            use_type_invariant(&*self);
        }
        let of_window: bool = match event {
            LoopEvent::CloseRequested => true,
            LoopEvent::Destroyed => true,
            LoopEvent::Window => true,
            _ => false,
        };
        let closes: bool = match event {
            LoopEvent::CloseRequested => true,
            LoopEvent::Destroyed => true,
            _ => false,
        };
        let redraws: bool = match event {
            LoopEvent::RedrawRequested => true,
            LoopEvent::RedrawEventsCleared => true,
            _ => false,
        };
        if closes {
            self.state.phase = LoopPhase::Terminating;
        }
        let exit: bool = match self.state.phase {
            LoopPhase::Terminating => true,
            LoopPhase::Running => false,
        };
        EventPlan {
            forward_to_ui: of_window && self.state.style.interactive,
            request_redraw: of_window,
            run_tick: redraws,
            exit,
        }
    }

    /// Starts a tick. The hotkey is polled first: on a toggle edge the mode
    /// flips and the style bits of the new mode are ordered. The overlay is
    /// then ordered onto the target's rectangle, whatever the mode. The user
    /// interface is run only if the overlay is interactive after the poll.
    pub fn begin_tick(&mut self, seen: TickObservation) -> (plan: TickPlan)
        ensures
            final(self)@ == old(self)@.after_tick(seen),
            plan == old(self)@.tick_plan(seen),
            plan.geometry.handle == old(self)@.overlay,
            plan.geometry.geometry == OverlayGeometry::covering(seen.target_rect),
            plan.style is Some <==> seen.key_down && !old(self)@.monitor.was_down,
            plan.style is Some ==> plan.style->0.handle == old(self)@.overlay && style_matches(
                plan.style->0.bits,
                final(self)@.style,
            ),
            plan.invoke_ui == final(self)@.style.interactive,
            final(self)@.phase == old(self)@.phase,
            final(self)@.wf(),
    {
        proof {
            use_type_invariant(&*self);
        }
        let mut monitor = self.state.monitor;
        let toggled: bool = monitor.poll_toggle_edge(seen.key_down);
        self.state.monitor = monitor;
        let style: Option<StyleWrite> = if toggled {
            self.state.style = self.state.style.toggled();
            Some(StyleController::new(self.state.overlay).apply(seen.style_bits, self.state.style))
        } else {
            None
        };
        let geometry: GeometryWrite = GeometrySynchronizer::new(
            self.state.target,
            self.state.overlay,
        ).sync(seen.target_rect);
        TickPlan { style, geometry, invoke_ui: self.state.style.interactive }
    }

    /// Ends a tick. `ui` is what the user interface returned, or `None` if it
    /// was not run. The frame holds the interface's display list while the
    /// overlay is interactive and is empty otherwise; it is cleared to full
    /// transparency either way. The loop exits once it is terminating, ticks
    /// again at once while the interface wants a repaint, and else waits for
    /// the next event.
    pub fn end_tick<T>(&self, ui: Option<UiOutput<T>>) -> (frame: Frame<T>)
        ensures
            frame.display_list@ == (if self@.draws(ui is Some) {
                ui->0.display_list@
            } else {
                Seq::empty()
            }),
            !self@.style.interactive ==> frame.display_list@.len() == 0,
            frame.clear == ClearColor::transparent(),
            frame.wait == self@.wait_policy(
                match ui {
                    Some(output) => Some(output.wants_repaint),
                    None => None,
                },
            ),
    {
        let terminating: bool = match self.state.phase {
            LoopPhase::Terminating => true,
            LoopPhase::Running => false,
        };
        let clear = ClearColor { red: 0, green: 0, blue: 0, alpha: 0 };
        match ui {
            Some(output) => {
                if self.state.style.interactive {
                    let wait = if terminating {
                        WaitPolicy::Exit
                    } else if output.wants_repaint {
                        WaitPolicy::Poll
                    } else {
                        WaitPolicy::Wait
                    };
                    Frame { display_list: output.display_list, clear, wait }
                } else {
                    Frame {
                        display_list: Vec::new(),
                        clear,
                        wait: if terminating {
                            WaitPolicy::Exit
                        } else {
                            WaitPolicy::Wait
                        },
                    }
                }
            },
            None => Frame {
                display_list: Vec::new(),
                clear,
                wait: if terminating {
                    WaitPolicy::Exit
                } else {
                    WaitPolicy::Wait
                },
            },
        }
    }

    /// The overlay's mode.
    pub fn style(&self) -> (style: OverlayStyleState)
        ensures
            style == self@.style,
            style.coherent(),
    {
        proof {
            use_type_invariant(self);
        }
        self.state.style
    }

    /// Whether the loop goes on.
    pub fn phase(&self) -> (phase: LoopPhase)
        ensures
            phase == self@.phase,
    {
        self.state.phase
    }

    /// Whether a close or destroy event was seen.
    pub fn is_terminating(&self) -> (terminating: bool)
        ensures
            terminating == (self@.phase is Terminating),
    {
        match self.state.phase {
            LoopPhase::Terminating => true,
            LoopPhase::Running => false,
        }
    }

    /// The window that is followed.
    pub fn target(&self) -> (target: NativeWindowHandle)
        ensures
            target == self@.target,
    {
        self.state.target
    }

    /// The overlay's own window.
    pub fn overlay(&self) -> (overlay: NativeWindowHandle)
        ensures
            overlay == self@.overlay,
    {
        self.state.overlay
    }
}

/// Every run of samples holds the hotkey down.
pub open spec fn key_held(run: Seq<TickObservation>) -> bool {
    forall|i: int| 0 <= i < run.len() ==> (#[trigger] run[i]).key_down
}

/// A tick polls the hotkey monitor exactly once: it toggles when the monitor
/// reports an edge for the tick's sample, and leaves the monitor as that one
/// poll leaves it.
pub proof fn lemma_tick_polls_once(state: LoopState, seen: TickObservation)
    ensures
        state.toggles(seen) == state.monitor.step(seen.key_down).1,
        state.after_tick(seen).monitor == state.monitor.step(seen.key_down).0,
        state.after_tick(seen).style == (if state.toggles(seen) {
            state.style.flipped()
        } else {
            state.style
        }),
{
}

/// A toggle is applied whole within its tick: the style bits ordered are
/// those of the mode the tick ends in, and the user interface is run in that
/// same tick exactly if that mode is interactive. Without a toggle no style
/// is written and the mode stays.
pub proof fn lemma_toggle_is_atomic(state: LoopState, seen: TickObservation)
    ensures
        state.toggles(seen) ==> state.tick_plan(seen).style is Some && style_matches(
            state.tick_plan(seen).style->0.bits,
            state.after_tick(seen).style,
        ) && state.after_tick(seen).style == state.style.flipped(),
        !state.toggles(seen) ==> state.tick_plan(seen).style is None && state.after_tick(
            seen,
        ).style == state.style,
        state.tick_plan(seen).invoke_ui == state.after_tick(seen).style.interactive,
{
    lemma_style_bits_reach_mode(seen.style_bits, state.style.flipped());
}

/// The overlay is ordered onto the target's rectangle in every tick,
/// whatever the mode, the hotkey or the phase: two loops for the same overlay
/// that observe the same rectangle order the same geometry, and that geometry
/// covers the rectangle exactly.
pub proof fn lemma_geometry_ignores_mode(
    first: LoopState,
    second: LoopState,
    seen_first: TickObservation,
    seen_second: TickObservation,
)
    requires
        first.overlay == second.overlay,
        seen_first.target_rect == seen_second.target_rect,
    ensures
        first.tick_plan(seen_first).geometry == second.tick_plan(seen_second).geometry,
        first.tick_plan(seen_first).geometry.geometry == OverlayGeometry::covering(
            seen_first.target_rect,
        ),
        first.tick_plan(seen_first).geometry.handle == first.overlay,
{
}

/// Events and ticks keep the overlay in one of its two modes, and the startup
/// state is in one.
pub proof fn lemma_modes_are_kept(state: LoopState, event: LoopEvent, seen: TickObservation)
    requires
        state.wf(),
    ensures
        state.after_event(event).wf(),
        state.after_tick(seen).wf(),
        LoopState::startup(state.target, state.overlay).wf(),
        state.tick_plan(seen).invoke_ui == !state.after_tick(seen).style.click_through,
{
}

/// The two window handles are fixed for the loop's lifetime, and the mode
/// changes on a toggle edge only: events leave the handles, the mode and the
/// monitor alone, and a tick leaves the handles alone and the mode too unless
/// it toggles.
pub proof fn lemma_only_a_toggle_changes_the_mode(
    state: LoopState,
    event: LoopEvent,
    seen: TickObservation,
)
    ensures
        state.after_event(event).target == state.target,
        state.after_event(event).overlay == state.overlay,
        state.after_event(event).style == state.style,
        state.after_event(event).monitor == state.monitor,
        state.after_tick(seen).target == state.target,
        state.after_tick(seen).overlay == state.overlay,
        state.after_tick(seen).style != state.style <==> state.toggles(seen),
{
}

/// The loop ends on a close or destroy event and on nothing else, and once
/// ended it stays ended: no event and no tick brings it back.
pub proof fn lemma_terminating_is_final(state: LoopState, event: LoopEvent, seen: TickObservation)
    ensures
        state.after_tick(seen).phase == state.phase,
        state.after_event(event).phase is Terminating <==> state.phase is Terminating
            || event.closes(),
        state.phase is Terminating ==> state.wait_policy(Some(true)) is Exit && state.wait_policy(
            Some(false),
        ) is Exit && state.wait_policy(None) is Exit,
        state.phase is Running ==> !(state.wait_policy(Some(true)) is Exit) && !(state.wait_policy(
            Some(false),
        ) is Exit) && !(state.wait_policy(None) is Exit),
{
}

/// Over a run of ticks the handles and the phase stay, and the monitor ends
/// up remembering the last sample.
pub proof fn lemma_ticks_keep_identity(state: LoopState, run: Seq<TickObservation>)
    ensures
        state.after_ticks(run).target == state.target,
        state.after_ticks(run).overlay == state.overlay,
        state.after_ticks(run).phase == state.phase,
        run.len() > 0 ==> state.after_ticks(run).monitor.was_down == run.last().key_down,
    decreases run.len(),
{
    if run.len() > 0 {
        lemma_ticks_keep_identity(state, run.drop_last());
    }
}

/// Every tick of a run orders the overlay onto the rectangle observed in that
/// tick, whatever happened in the ticks before it.
pub proof fn lemma_every_tick_follows_target(
    state: LoopState,
    run: Seq<TickObservation>,
    tick: int,
)
    requires
        0 <= tick < run.len(),
    ensures
        state.after_ticks(run.take(tick)).tick_plan(run[tick]).geometry == (GeometryWrite {
            handle: state.overlay,
            geometry: OverlayGeometry::covering(run[tick].target_rect),
        }),
{
    lemma_ticks_keep_identity(state, run.take(tick));
}

/// A hotkey that was up and is then held down over any number of ticks
/// toggles the overlay exactly once: the first tick flips the mode and orders
/// the style, and every later tick of the run leaves the mode alone and
/// orders no style.
pub proof fn lemma_held_key_toggles_once(state: LoopState, run: Seq<TickObservation>)
    requires
        !state.monitor.was_down,
        run.len() > 0,
        key_held(run),
    ensures
        state.toggles(run[0]),
        state.tick_plan(run[0]).style is Some,
        state.after_ticks(run).style == state.style.flipped(),
        forall|i: int|
            1 <= i < run.len() ==> !(#[trigger] state.after_ticks(run.take(i))).toggles(run[i])
                && state.after_ticks(run.take(i)).tick_plan(run[i]).style is None
                && state.after_ticks(run.take(i)).style == state.style.flipped(),
    decreases run.len(),
{
    let front = run.drop_last();
    if front.len() == 0 {
        assert(state.after_ticks(front) == state);
    } else {
        assert(key_held(front)) by {
            assert forall|i: int| 0 <= i < front.len() implies (#[trigger] front[i]).key_down by {
                assert(front[i] == run[i]);
            }
        }
        lemma_held_key_toggles_once(state, front);
        lemma_ticks_keep_identity(state, front);
        assert(front[0] == run[0]);
        assert(front.last().key_down && run.last().key_down);
        assert forall|i: int| 1 <= i < run.len() implies !(#[trigger] state.after_ticks(
            run.take(i),
        )).toggles(run[i]) && state.after_ticks(run.take(i)).tick_plan(run[i]).style is None
            && state.after_ticks(run.take(i)).style == state.style.flipped() by {
            if i < front.len() {
                assert(run.take(i) =~= front.take(i));
                assert(run[i] == front[i]);
            } else {
                assert(run.take(i) =~= front);
            }
        }
    }
}

/// After a toggle the overlay toggles again only once the hotkey was seen up:
/// if the ticks `first` and `second` of a run both toggle, a tick strictly
/// between them sampled the key up.
pub proof fn lemma_second_toggle_needs_release(
    state: LoopState,
    run: Seq<TickObservation>,
    first: int,
    second: int,
)
    requires
        0 <= first < second < run.len(),
        state.after_ticks(run.take(first)).toggles(run[first]),
        state.after_ticks(run.take(second)).toggles(run[second]),
    ensures
        exists|released: int| first < released < second && !run[released].key_down,
{
    lemma_ticks_keep_identity(state, run.take(second));
    assert(run.take(second).last() == run[second - 1]);
    assert(run[first].key_down && !run[second - 1].key_down);
}

} // verus!
