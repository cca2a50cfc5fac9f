//! The choice of progress reporting.
//!
//! Long-running steps show a spinner unless all output is off. The spinner
//! itself (terminal drawing, timing) belongs to the surrounding binary; the
//! library decides which presenter a step gets, and supplies the silent one.

use vstd::prelude::*;

verus! {

/// How much logging the user asked for.
#[derive(Clone, Copy, Debug, PartialEq, Eq, Structural)]
pub enum LogLevel {
    Off,
    Error,
    Warn,
    Info,
    Debug,
    Trace,
}

/// A progress presenter for one long-running step.
pub trait ProgressInterface {
    /// Stops the spinner and prints a success message.
    fn success(&mut self);

    /// Stops the spinner and prints a failure message.
    fn fail(&mut self);
}

/// The presenter that shows nothing.
pub struct SilentProgress {}

impl ProgressInterface for SilentProgress {
    fn success(&mut self) {
    }

    fn fail(&mut self) {
    }
}

/// Which presenter a step gets: silence, or a visible spinner with the
/// step's prompt.
pub enum ProgressChoice {
    Silent,
    Visible { prompt: String },
}

/// Mathematical model of [`ProgressChoice`].
pub enum ProgressChoiceView {
    Silent,
    Visible { prompt: Seq<char> },
}

impl View for ProgressChoice {
    type V = ProgressChoiceView;

    open spec fn view(&self) -> ProgressChoiceView {
        match self {
            ProgressChoice::Silent => ProgressChoiceView::Silent,
            ProgressChoice::Visible { prompt } => ProgressChoiceView::Visible { prompt: prompt@ },
        }
    }
}

/// Decides which presenter a progress spinner uses.
pub struct Progress;

impl Progress {
    /// Constructs the progress choice for a step with the given prompt.
    ///
    /// When the logging level is `Off`, the step is silent; otherwise it
    /// shows a spinner carrying the prompt.
    pub fn new(prompt: &str, level: &LogLevel) -> (r: ProgressChoice)
        ensures
            level is Off ==> r is Silent,
            !(level is Off) ==> r@ == (ProgressChoiceView::Visible { prompt: prompt@ }),
    {
        match level {
            LogLevel::Off => ProgressChoice::Silent,
            _ => ProgressChoice::Visible { prompt: prompt.to_owned() },
        }
    }
}

} // verus!
