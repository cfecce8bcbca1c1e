//! The application loop's decisions, separated from the platform glue
//! that carries them out.
//!
//! The loop around this crate forwards platform events to the trackers,
//! runs the update callback when the timer's gate opens, and reacts to the
//! callback's outcome. The reactions are decided here: recoverable
//! resource faults trigger a single reacquire step, fatal ones terminate
//! the loop, and any other failure is reported and the loop continues.
//! The loop also filters which window events the GUI layer receives;
//! that decision is [`gui_receives_event`].

use vstd::prelude::*;

verus! {

/// The outcome an application's update callback reports for one tick.
#[derive(Debug, PartialEq, Eq)]
pub enum UpdateOutcome {
    /// The frame completed.
    Completed,
    /// The rendering target was lost: a recoverable resource fault.
    TargetLost,
    /// Memory ran out: a fatal resource fault.
    OutOfMemory,
    /// Any other failure.
    OtherError,
}

/// What the application loop does after one update callback.
#[derive(Debug, PartialEq, Eq)]
pub enum LoopDirective {
    /// Go on to the next frame.
    Proceed,
    /// Reacquire the rendering target (reconfigure the surface), then go
    /// on.
    Reacquire,
    /// Report the failure, then go on.
    Report,
    /// Terminate the application loop.
    Terminate,
}

/// Decide the loop's reaction to an update outcome: a completed frame
/// proceeds, a lost rendering target is reacquired once, memory
/// exhaustion terminates the loop, and every other failure is reported
/// and the loop continues. No tracker or timer state is touched by any
/// reaction: only the update callback can end the loop.
pub fn update_directive(outcome: &UpdateOutcome) -> (d: LoopDirective)
    ensures
        d == (match outcome {
            UpdateOutcome::Completed => LoopDirective::Proceed,
            UpdateOutcome::TargetLost => LoopDirective::Reacquire,
            UpdateOutcome::OutOfMemory => LoopDirective::Terminate,
            UpdateOutcome::OtherError => LoopDirective::Report,
        }),
{
    match outcome {
        UpdateOutcome::Completed => LoopDirective::Proceed,
        UpdateOutcome::TargetLost => LoopDirective::Reacquire,
        UpdateOutcome::OutOfMemory => LoopDirective::Terminate,
        UpdateOutcome::OtherError => LoopDirective::Report,
    }
}

/// The window events the GUI input filter distinguishes.
#[derive(Debug, PartialEq, Eq)]
pub enum GuiEventClass {
    /// A window resize; it also reconfigures the rendering surface.
    Resized,
    /// A keyboard event naming the Tab key.
    TabKey,
    /// Any other window event.
    Other,
}

/// Whether the GUI layer receives a window event. A resize always
/// reaches it; when `block_input` is set nothing else does; when
/// `block_tab` is set, Tab keyboard events are withheld as well.
pub fn gui_receives_event(block_input: bool, block_tab: bool, class: &GuiEventClass) -> (r:
    bool)
    ensures
        r == (match class {
            GuiEventClass::Resized => true,
            GuiEventClass::TabKey => !block_input && !block_tab,
            GuiEventClass::Other => !block_input,
        }),
{
    match class {
        GuiEventClass::Resized => true,
        GuiEventClass::TabKey => !block_input && !block_tab,
        GuiEventClass::Other => !block_input,
    }
}

} // verus!
