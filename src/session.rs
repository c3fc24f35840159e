use vstd::prelude::*;

use crate::update::{read_value, reading, Update};
use crate::Error;

verus! {

/// How a session ended.
#[derive(Debug, Clone, Copy, PartialEq, Eq, Structural)]
pub enum Outcome {
    /// Every device was written.
    Completed,
    /// The first error, after which no device was touched.
    Failed(Error),
}

/// What the caller does next on the devices, in enumeration order.
#[derive(Debug, Clone, Copy, PartialEq, Eq, Structural)]
pub enum Action {
    /// Read the `brightness` file of device `i`.
    ReadBrightness(usize),
    /// Read the `max_brightness` file of device `i`.
    ReadMaxBrightness(usize),
    /// Write the value to the `brightness` file of device `i`.
    WriteBrightness(usize, u32),
    /// Stop: every device is done, or the first error.
    Finish(Outcome),
}

/// What came of the last action.
pub enum Event {
    /// The contents of the file that was read.
    Contents(String),
    /// The write went through.
    Written,
    /// The read or write failed.
    Failed(Error),
}

/// Where a session stands on its current device.
#[derive(Debug, Clone, Copy, PartialEq, Eq, Structural)]
pub enum Phase {
    /// Waiting for the current brightness.
    ReadingCurrent,
    /// Waiting for the maximum; `current` is the brightness read before it.
    ReadingMax { current: u32 },
    /// Waiting for the write of `value` to go through.
    Writing { value: u32 },
    /// Done with every device, or stopped at an error.
    Finished(Outcome),
}

/// One update applied to `devices` devices, one after the other, stopping at
/// the first error.
#[derive(Debug, Clone, Copy, PartialEq, Eq, Structural)]
pub struct Session {
    pub update: Update,
    pub devices: usize,
    pub index: usize,
    pub phase: Phase,
}

/// The phase in which work on a device begins: an absolute request needs no
/// current brightness.
pub open spec fn first_phase(update: Update) -> Phase {
    if update.relative {
        Phase::ReadingCurrent
    } else {
        Phase::ReadingMax { current: 0 }
    }
}

/// The session before any device is touched.
pub open spec fn initial(update: Update, devices: usize) -> Session {
    Session {
        update,
        devices,
        index: 0,
        phase: if devices == 0 {
            Phase::Finished(Outcome::Completed)
        } else {
            first_phase(update)
        },
    }
}

impl Session {
    pub open spec fn wf(self) -> bool {
        !(self.phase is Finished) ==> self.index < self.devices
    }

    pub open spec fn is_finished(self) -> bool {
        self.phase is Finished
    }

    /// The action that the session asks for.
    pub open spec fn action(self) -> Action {
        match self.phase {
            Phase::ReadingCurrent => Action::ReadBrightness(self.index),
            Phase::ReadingMax { .. } => Action::ReadMaxBrightness(self.index),
            Phase::Writing { value } => Action::WriteBrightness(self.index, value),
            Phase::Finished(r) => Action::Finish(r),
        }
    }

    /// The session stopped with `r`.
    pub open spec fn finish(self, r: Outcome) -> Session {
        Session { phase: Phase::Finished(r), ..self }
    }

    /// The session after device `index` was written.
    pub open spec fn advance(self) -> Session {
        if self.index + 1 >= self.devices {
            Session { index: self.devices, phase: Phase::Finished(Outcome::Completed), ..self }
        } else {
            Session { index: (self.index + 1) as usize, phase: first_phase(self.update), ..self }
        }
    }

    /// The session after an event: a failure with its error, a completed
    /// write, or the contents of a file that was read.
    pub open spec fn next(self, failed: Option<Error>, written: bool, text: Option<Seq<char>>) -> Session {
        match self.phase {
            Phase::Finished(_) => self,
            _ => match failed {
                Some(err) => self.finish(Outcome::Failed(err)),
                None => match (self.phase, text) {
                    (Phase::ReadingCurrent, Some(t)) => match reading(t) {
                        Ok(c) => Session { phase: Phase::ReadingMax { current: c }, ..self },
                        Err(err) => self.finish(Outcome::Failed(err)),
                    },
                    (Phase::ReadingMax { current }, Some(t)) => match reading(t) {
                        Ok(m) => Session {
                            phase: Phase::Writing {
                                value: self.update.target(current as nat, m as nat) as u32,
                            },
                            ..self
                        },
                        Err(err) => self.finish(Outcome::Failed(err)),
                    },
                    (Phase::Writing { .. }, None) => if written {
                        self.advance()
                    } else {
                        self.finish(Outcome::Failed(Error::Io))
                    },
                    _ => self.finish(Outcome::Failed(Error::Io)),
                },
            },
        }
    }

    /// The session after the event `e`.
    pub open spec fn after(self, e: &Event) -> Session {
        match e {
            Event::Contents(s) => self.next(None, false, Some(s@)),
            Event::Written => self.next(None, true, None),
            Event::Failed(err) => self.next(Some(*err), false, None),
        }
    }

    /// Starts the update on `devices` devices.
    pub fn new(update: Update, devices: usize) -> (r: Session)
        ensures
            r == initial(update, devices),
            r.wf(),
    {
        let phase = if devices == 0 {
            Phase::Finished(Outcome::Completed)
        } else if update.relative {
            Phase::ReadingCurrent
        } else {
            Phase::ReadingMax { current: 0 }
        };
        Session { update, devices, index: 0, phase }
    }

    /// The action that the session asks for.
    pub fn next_action(&self) -> (r: Action)
        ensures
            r == self.action(),
    {
        match self.phase {
            Phase::ReadingCurrent => Action::ReadBrightness(self.index),
            Phase::ReadingMax { .. } => Action::ReadMaxBrightness(self.index),
            Phase::Writing { value } => Action::WriteBrightness(self.index, value),
            Phase::Finished(r) => Action::Finish(r),
        }
    }

    /// Takes in what came of the last action, and returns the next one.
    pub fn step(&mut self, event: &Event) -> (r: Action)
        requires
            old(self).wf(),
        ensures
            *final(self) == old(self).after(event),
            final(self).wf(),
            r == final(self).action(),
    {
        if let Phase::Finished(_) = self.phase {
            return self.next_action();
        }
        match event {
            Event::Failed(err) => {
                self.phase = Phase::Finished(Outcome::Failed(*err));
            },
            Event::Contents(s) => {
                match self.phase {
                    Phase::ReadingCurrent => {
                        match read_value(s.as_str()) {
                            Ok(c) => {
                                self.phase = Phase::ReadingMax { current: c };
                            },
                            Err(err) => {
                                self.phase = Phase::Finished(Outcome::Failed(err));
                            },
                        }
                    },
                    Phase::ReadingMax { current } => {
                        match read_value(s.as_str()) {
                            Ok(m) => {
                                let value = self.update.apply(current, m);
                                self.phase = Phase::Writing { value };
                            },
                            Err(err) => {
                                self.phase = Phase::Finished(Outcome::Failed(err));
                            },
                        }
                    },
                    _ => {
                        self.phase = Phase::Finished(Outcome::Failed(Error::Io));
                    },
                }
            },
            Event::Written => {
                match self.phase {
                    Phase::Writing { .. } => {
                        if self.index + 1 >= self.devices {
                            self.index = self.devices;
                            self.phase = Phase::Finished(Outcome::Completed);
                        } else {
                            self.index = self.index + 1;
                            self.phase = if self.update.relative {
                                Phase::ReadingCurrent
                            } else {
                                Phase::ReadingMax { current: 0 }
                            };
                        }
                    },
                    _ => {
                        self.phase = Phase::Finished(Outcome::Failed(Error::Io));
                    },
                }
            },
        }
        self.next_action()
    }
}

} // verus!
