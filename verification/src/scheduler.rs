//! The frame loop's decisions. The host's event loop hands every event of
//! the window to `on_event` and every outcome of presenting a frame to
//! `on_rendered`, and carries out the command that comes back. The
//! scheduler itself never waits, draws on the screen or leaves the process.

use crate::init::{extent_fits, extent_supported, Frame, Handlers, Size, State};
use crate::input::{InputEvent, Key, KeyAction};
use vstd::prelude::*;

verus! {

/// Where the frame loop stands.
#[derive(Clone, Copy, Debug, PartialEq, Eq, Structural)]
pub enum Phase {
    /// The surface has not been given a size yet: nothing is drawn.
    AwaitingConfiguration,
    /// Every redraw request paints and presents a frame.
    Running,
    /// The loop is over.
    Exiting,
}

/// How presenting a frame ended.
#[derive(Clone, Copy, Debug, PartialEq, Eq, Structural)]
pub enum RenderOutcome {
    /// The frame is on the screen.
    Presented,
    SurfaceLost,
    SurfaceOutdated,
    OutOfMemory,
    Timeout,
}

/// What the host is to do next.
#[derive(Clone, Copy, Debug, PartialEq, Eq, Structural)]
pub enum Command {
    /// Nothing.
    Idle,
    /// Ask the window for another redraw; draw nothing.
    RequestRedraw,
    /// Ask the window for another redraw, then upload the canvas as it now
    /// is, draw and present it, and hand the outcome to `on_rendered`.
    Present,
    /// Configure the surface, and size the texture, with this size.
    Configure(Size),
    /// Report that presenting the frame timed out; the frame is skipped.
    ReportTimeout,
    /// Leave the event loop.
    Exit,
}

/// Whether `event` asks the loop to end, unless a handler consumes it: the
/// window is to close, or the escape key went down.
pub open spec fn asks_to_exit(event: InputEvent) -> bool {
    event == InputEvent::CloseRequested || event == (InputEvent::Key {
        key: Key::Escape,
        action: KeyAction::Pressed,
    })
}

/// Whether the scheduler can take `event`: a size that a resize brings has
/// no area, or a canvas of that size can be held.
pub open spec fn event_fits(event: InputEvent) -> bool {
    event matches InputEvent::Resized { width, height } ==> width == 0 || height == 0
        || extent_fits(width, height)
}

/// Decides `event_fits`.
pub fn event_supported(event: &InputEvent) -> (fits: bool)
    ensures
        fits == event_fits(*event),
{
    match event {
        InputEvent::Resized { width, height } => {
            *width == 0 || *height == 0 || extent_supported(*width, *height)
        },
        _ => true,
    }
}

/// What a scheduler is, as a value: its frame and its phase.
pub struct Schedule<T> {
    pub frame: Frame<T>,
    pub phase: Phase,
}

impl<T: Handlers> Schedule<T> {
    /// The frame is well-formed, and a running loop has a surface with
    /// area.
    pub open spec fn wf(self) -> bool {
        &&& self.frame.wf()
        &&& self.phase == Phase::Running ==> self.frame.size.width > 0 && self.frame.size.height
            > 0
    }

    pub open spec fn with_frame(self, frame: Frame<T>) -> Schedule<T> {
        Schedule { frame, phase: self.phase }
    }

    pub open spec fn with_phase(self, phase: Phase) -> Schedule<T> {
        Schedule { frame: self.frame, phase }
    }

    /// The scheduler after `event`, and the command it gives.
    ///
    /// Once the loop is over, nothing happens any more. Before that, the
    /// context's input handler sees every event first, and an event that
    /// it consumes has no further effect. Of the others,
    /// - a request to exit ends the loop;
    /// - a resize to a size with area is applied and starts the loop
    ///   running, while one to a size without area is ignored;
    /// - a redraw request asks for the next one, and, if the loop is
    ///   running, repaints the canvas and has it presented;
    /// - any other event is dropped.
    pub open spec fn after_event(self, event: InputEvent) -> (Schedule<T>, Command) {
        if self.phase == Phase::Exiting {
            (self, Command::Idle)
        } else {
            let (context, consumed) = self.frame.context.handled(event);
            let offered = self.with_frame(self.frame.with_context(context));
            if consumed {
                (offered, Command::Idle)
            } else if asks_to_exit(event) {
                (offered.with_phase(Phase::Exiting), Command::Exit)
            } else {
                match event {
                    InputEvent::Resized { width, height } => {
                        if width > 0 && height > 0 {
                            let size = Size { width, height };
                            (
                                Schedule {
                                    frame: offered.frame.resized(size),
                                    phase: Phase::Running,
                                },
                                Command::Configure(size),
                            )
                        } else {
                            (offered, Command::Idle)
                        }
                    },
                    InputEvent::RedrawRequested => {
                        if self.phase == Phase::Running {
                            (
                                offered.with_frame(
                                    offered.frame.with_pixels(context.frame(self.frame.size)),
                                ),
                                Command::Present,
                            )
                        } else {
                            (offered, Command::RequestRedraw)
                        }
                    },
                    _ => (offered, Command::Idle),
                }
            }
        }
    }

    /// The scheduler after a frame was presented with `outcome`, and the
    /// command it gives.
    ///
    /// A lost or outdated surface is configured again with the size it
    /// has; running out of memory ends the loop; a timeout is reported and
    /// changes nothing.
    pub open spec fn after_render(self, outcome: RenderOutcome) -> (Schedule<T>, Command) {
        if self.phase == Phase::Exiting {
            (self, Command::Idle)
        } else {
            match outcome {
                RenderOutcome::Presented => (self, Command::Idle),
                RenderOutcome::SurfaceLost | RenderOutcome::SurfaceOutdated => {
                    if self.frame.size.width > 0 && self.frame.size.height > 0 {
                        (self, Command::Configure(self.frame.size))
                    } else {
                        (self, Command::Idle)
                    }
                },
                RenderOutcome::OutOfMemory => (self.with_phase(Phase::Exiting), Command::Exit),
                RenderOutcome::Timeout => (self, Command::ReportTimeout),
            }
        }
    }

    /// The scheduler after all of `events`, one after the other, and the
    /// commands it gave, one for each event.
    pub open spec fn after_events(self, events: Seq<InputEvent>) -> (Schedule<T>, Seq<Command>)
        decreases events.len(),
    {
        if events.len() == 0 {
            (self, Seq::empty())
        } else {
            let (before, commands) = self.after_events(events.drop_last());
            let (after, command) = before.after_event(events.last());
            (after, commands.push(command))
        }
    }

    /// Every event is answered by one command.
    pub proof fn lemma_one_command_per_event(self, events: Seq<InputEvent>)
        ensures
            self.after_events(events).1.len() == events.len(),
        decreases events.len(),
    {
        if events.len() > 0 {
            self.lemma_one_command_per_event(events.drop_last());
        }
    }

    /// An event keeps a well-formed scheduler well-formed.
    pub proof fn lemma_after_event_wf(self, event: InputEvent)
        requires
            self.wf(),
            event_fits(event),
        ensures
            self.after_event(event).0.wf(),
    {
        let (context, consumed) = self.frame.context.handled(event);
        context.lemma_frame_len(self.frame.size);
    }

    /// Until the surface is configured, redraw requests paint nothing,
    /// however many there are: the canvas stays as it was, the loop keeps
    /// waiting, and no command asks for a frame to be presented.
    pub proof fn lemma_redraws_before_configuration(self, events: Seq<InputEvent>)
        requires
            self.phase == Phase::AwaitingConfiguration,
            forall|i: int| 0 <= i < events.len() ==> events[i] == InputEvent::RedrawRequested,
        ensures
            self.after_events(events).0.phase == Phase::AwaitingConfiguration,
            self.after_events(events).0.frame.pixels == self.frame.pixels,
            self.after_events(events).0.frame.size == self.frame.size,
            forall|i: int|
                0 <= i < events.len() ==> {
                    let command = #[trigger] self.after_events(events).1[i];
                    command == Command::RequestRedraw || command == Command::Idle
                },
        decreases events.len(),
    {
        if events.len() > 0 {
            self.lemma_redraws_before_configuration(events.drop_last());
            self.lemma_one_command_per_event(events.drop_last());
        }
    }

    /// While the loop runs, a redraw request that the input handler leaves
    /// alone repaints the canvas once, from the context, and has it
    /// presented once; the loop keeps running.
    pub proof fn lemma_redraw_when_running(self)
        requires
            self.phase == Phase::Running,
            !self.frame.context.handled(InputEvent::RedrawRequested).1,
        ensures
            ({
                let (after, command) = self.after_event(InputEvent::RedrawRequested);
                let context = self.frame.context.handled(InputEvent::RedrawRequested).0;
                &&& command == Command::Present
                &&& after.phase == Phase::Running
                &&& after.frame.context == context
                &&& after.frame.size == self.frame.size
                &&& after.frame.pixels == context.frame(self.frame.size)
            }),
    {
    }

    /// While the loop runs, and where the input handler leaves redraw
    /// requests alone, every redraw request among any number of them is
    /// answered by one frame to present: the loop keeps running, the
    /// context stays as it is, and after the first request the canvas is
    /// the one that the context paints.
    pub proof fn lemma_redraws_when_running(self, events: Seq<InputEvent>)
        requires
            self.phase == Phase::Running,
            forall|context: T| #[trigger]
                context.handled(InputEvent::RedrawRequested) == (context, false),
            forall|i: int| 0 <= i < events.len() ==> events[i] == InputEvent::RedrawRequested,
        ensures
            self.after_events(events).0.phase == Phase::Running,
            self.after_events(events).0.frame.context == self.frame.context,
            self.after_events(events).0.frame.size == self.frame.size,
            events.len() > 0 ==> self.after_events(events).0.frame.pixels
                == self.frame.context.frame(self.frame.size),
            self.after_events(events).1.len() == events.len(),
            forall|i: int|
                0 <= i < events.len() ==> #[trigger] self.after_events(events).1[i]
                    == Command::Present,
        decreases events.len(),
    {
        if events.len() > 0 {
            self.lemma_redraws_when_running(events.drop_last());
            let before = self.after_events(events.drop_last()).0;
            assert(before.frame.context.handled(InputEvent::RedrawRequested) == (
                before.frame.context,
                false,
            ));
        }
    }

    /// The loop starts running with the first resize to a size with area
    /// that the input handler leaves alone, and not before: a resize to a
    /// size without area changes neither the frame's size nor its canvas
    /// nor the phase.
    pub proof fn lemma_resize(self, width: u32, height: u32)
        requires
            self.phase != Phase::Exiting,
            !self.frame.context.handled(InputEvent::Resized { width, height }).1,
        ensures
            ({
                let (after, command) = self.after_event(InputEvent::Resized { width, height });
                if width > 0 && height > 0 {
                    &&& after.phase == Phase::Running
                    &&& after.frame.size == (Size { width, height })
                    &&& command == Command::Configure(Size { width, height })
                } else {
                    &&& after.phase == self.phase
                    &&& after.frame.size == self.frame.size
                    &&& after.frame.pixels == self.frame.pixels
                    &&& command == Command::Idle
                }
            }),
    {
    }

    /// Once the loop is over it stays over, and asks for nothing.
    pub proof fn lemma_exiting_is_terminal(self, event: InputEvent, outcome: RenderOutcome)
        requires
            self.phase == Phase::Exiting,
        ensures
            self.after_event(event) == (self, Command::Idle),
            self.after_render(outcome) == (self, Command::Idle),
    {
    }
}

/// The frame loop of one window: its frame and its phase.
pub struct FrameScheduler<T> {
    pub state: State<T>,
    pub phase: Phase,
}

impl<T> View for FrameScheduler<T> {
    type V = Schedule<T>;

    open spec fn view(&self) -> Schedule<T> {
        Schedule { frame: self.state@, phase: self.phase }
    }
}

impl<T: Handlers> FrameScheduler<T> {
    pub open spec fn wf(self) -> bool {
        self.state.wf() && self@.wf()
    }

    /// A scheduler around `state` that waits for the surface's first size.
    pub fn new(state: State<T>) -> (scheduler: FrameScheduler<T>)
        requires
            state.wf(),
        ensures
            scheduler.wf(),
            scheduler.state == state,
            scheduler.phase == Phase::AwaitingConfiguration,
    {
        FrameScheduler { state, phase: Phase::AwaitingConfiguration }
    }

    /// Takes one event of the window and says what the host is to do.
    pub fn on_event(&mut self, event: &InputEvent) -> (command: Command)
        requires
            old(self).wf(),
            event_fits(*event),
        ensures
            final(self).wf(),
            (final(self)@, command) == old(self)@.after_event(*event),
    {
        if self.phase == Phase::Exiting {
            return Command::Idle;
        }
        if self.state.input(event) {
            return Command::Idle;
        }
        match event {
            InputEvent::CloseRequested | InputEvent::Key {
                key: Key::Escape,
                action: KeyAction::Pressed,
            } => {
                self.phase = Phase::Exiting;
                Command::Exit
            },
            InputEvent::Resized { width, height } => {
                let size = Size { width: *width, height: *height };
                if self.state.resize(size) {
                    self.phase = Phase::Running;
                    Command::Configure(size)
                } else {
                    Command::Idle
                }
            },
            InputEvent::RedrawRequested => {
                if self.phase == Phase::Running {
                    self.state.update();
                    Command::Present
                } else {
                    Command::RequestRedraw
                }
            },
            _ => Command::Idle,
        }
    }

    /// Takes the outcome of presenting a frame and says what the host is
    /// to do.
    pub fn on_rendered(&mut self, outcome: RenderOutcome) -> (command: Command)
        requires
            old(self).wf(),
        ensures
            final(self).wf(),
            (final(self)@, command) == old(self)@.after_render(outcome),
    {
        if self.phase == Phase::Exiting {
            return Command::Idle;
        }
        match outcome {
            RenderOutcome::Presented => Command::Idle,
            RenderOutcome::SurfaceLost | RenderOutcome::SurfaceOutdated => {
                let size = self.state.size;
                if self.state.resize(size) {
                    Command::Configure(size)
                } else {
                    Command::Idle
                }
            },
            RenderOutcome::OutOfMemory => {
                self.phase = Phase::Exiting;
                Command::Exit
            },
            RenderOutcome::Timeout => Command::ReportTimeout,
        }
    }
}

} // verus!
