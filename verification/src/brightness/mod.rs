//! Internal-display brightness control: the stepping rule and the decisions
//! around reading and writing the panel level.
//!
//! [`calc`] holds the stepping math. The panel itself is reached through the
//! operating system by the caller, which drives [`BrightnessStep`].
use vstd::prelude::*;

pub mod calc;

pub use calc::STEP;
use calc::{continuous_step, step_level};

verus! {

/// Error returned by brightness operations.
#[derive(Debug)]
pub struct BrightnessError(pub String);

/// The percentage that a raw reading of the panel's current brightness
/// stands for: readings above 100 count as 100.
pub fn reading_to_level(value: u32) -> (level: u8)
    ensures
        level == (if value > 100 {
            100
        } else {
            value
        }),
{
    if value > 100 {
        100
    } else {
        value as u8
    }
}

/// The level actually sent to the panel for a requested `level`: at most 100.
pub fn clamp_level(level: u8) -> (sent: u8)
    ensures
        sent == (if level > 100 {
            100
        } else {
            level
        }),
{
    if level > 100 {
        100
    } else {
        level
    }
}

/// Where a brightness step stands.
pub enum StepStage {
    /// Waiting for the current level.
    Reading,
    /// Waiting for the panel to take the new level.
    Setting(u8),
    /// The outcome has been reported.
    Finished,
}

/// What a brightness step asks the caller to do next.
pub enum StepAction {
    /// Read the current level of the panel.
    ReadCurrent,
    /// Set the panel to this level.
    SetLevel(u8),
    /// The step is over: the new level, or why it failed.
    Finish(Result<u8, BrightnessError>),
}

/// What the panel answered.
pub enum StepEvent {
    /// The current level, or why it could not be read.
    CurrentRead(Result<u8, BrightnessError>),
    /// Whether the new level was taken.
    LevelSet(Result<(), BrightnessError>),
}

/// A step of the brightness by `delta` percentage points, in progress.
pub struct BrightnessStep {
    pub delta: i8,
    pub stage: StepStage,
}

/// `event` is the answer to what a step in `stage` asked for.
pub open spec fn step_answers(stage: StepStage, event: StepEvent) -> bool {
    match stage {
        StepStage::Reading => event is CurrentRead,
        StepStage::Setting(_) => event is LevelSet,
        StepStage::Finished => false,
    }
}

impl BrightnessStep {
    /// Begin stepping brightness by `delta`: first read the current level.
    pub fn start(delta: i8) -> (res: (BrightnessStep, StepAction))
        ensures
            res.0.delta == delta,
            res.0.stage is Reading,
            res.1 is ReadCurrent,
    {
        (BrightnessStep { delta, stage: StepStage::Reading }, StepAction::ReadCurrent)
    }

    /// Whether `event` answers what this step is waiting for.
    pub fn expects(&self, event: &StepEvent) -> (b: bool)
        ensures
            b == step_answers(self.stage, *event),
            self.stage is Reading ==> (b <==> event is CurrentRead),
            self.stage is Setting ==> (b <==> event is LevelSet),
            self.stage is Finished ==> !b,
    {
        match (&self.stage, event) {
            (StepStage::Reading, StepEvent::CurrentRead(_)) => true,
            (StepStage::Setting(_), StepEvent::LevelSet(_)) => true,
            _ => false,
        }
    }

    /// Take the panel's answer and decide the next move: from the current
    /// level, set the continuous step of it (`current + delta` within
    /// `0..=100`); once set, report that level. Any error ends the step with
    /// that error.
    pub fn resume(&mut self, event: StepEvent) -> (action: StepAction)
        requires
            step_answers(old(self).stage, event),
        ensures
            final(self).delta == old(self).delta,
            match event {
                StepEvent::CurrentRead(Ok(current)) => {
                    &&& final(self).stage == StepStage::Setting(
                        continuous_step(current, old(self).delta),
                    )
                    &&& action == StepAction::SetLevel(continuous_step(current, old(self).delta))
                },
                StepEvent::CurrentRead(Err(e)) => {
                    &&& final(self).stage is Finished
                    &&& action matches StepAction::Finish(Err(f))
                    &&& f == e
                },
                StepEvent::LevelSet(Ok(())) => {
                    &&& final(self).stage is Finished
                    &&& old(self).stage matches StepStage::Setting(next)
                    &&& action == StepAction::Finish(Ok(next))
                },
                StepEvent::LevelSet(Err(e)) => {
                    &&& final(self).stage is Finished
                    &&& action matches StepAction::Finish(Err(f))
                    &&& f == e
                },
            },
    {
        match event {
            StepEvent::CurrentRead(Ok(current)) => {
                let next = step_level(current, self.delta, &[]);
                self.stage = StepStage::Setting(next);
                StepAction::SetLevel(next)
            },
            StepEvent::CurrentRead(Err(e)) => {
                self.stage = StepStage::Finished;
                StepAction::Finish(Err(e))
            },
            StepEvent::LevelSet(Ok(())) => {
                let next = match self.stage {
                    StepStage::Setting(next) => next,
                    _ => 0,
                };
                self.stage = StepStage::Finished;
                StepAction::Finish(Ok(next))
            },
            StepEvent::LevelSet(Err(e)) => {
                self.stage = StepStage::Finished;
                StepAction::Finish(Err(e))
            },
        }
    }
}

/// Each request of a step is answered by what the panel reports for it: a
/// step that asked for the current level accepts any reading (or read
/// error), one that asked to set a level accepts any outcome of setting it,
/// and a finished step accepts nothing.
pub proof fn law_step_requests_are_answerable(
    read: Result<u8, BrightnessError>,
    set: Result<(), BrightnessError>,
    next: u8,
)
    ensures
        step_answers(StepStage::Reading, StepEvent::CurrentRead(read)),
        step_answers(StepStage::Setting(next), StepEvent::LevelSet(set)),
        !step_answers(StepStage::Reading, StepEvent::LevelSet(set)),
        !step_answers(StepStage::Setting(next), StepEvent::CurrentRead(read)),
        !step_answers(StepStage::Finished, StepEvent::CurrentRead(read)),
        !step_answers(StepStage::Finished, StepEvent::LevelSet(set)),
{
}

} // verus!
