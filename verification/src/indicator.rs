use crate::keys::Indicate;
use vstd::prelude::*;

verus! {

/// Brightness of the indicator.
pub const VAL: u8 = 10;

/// A color of the indicator: red, green, blue.
#[derive(Clone, Copy, Debug, PartialEq, Eq, Structural)]
pub struct Color {
    pub r: u8,
    pub g: u8,
    pub b: u8,
}

/// What the indicator does about a message.
#[derive(Clone, Copy, Debug, PartialEq, Eq, Structural)]
pub struct IndicatorOutput {
    /// The color to show, if the light changes.
    pub color: Option<Color>,
    /// The profile to tell the other half, if it is to show one.
    pub forward: Option<u8>,
}

/// The color that stands for a profile; profiles from 3 on have none.
pub open spec fn spec_config_color(config_num: usize) -> Option<Color> {
    if config_num == 0 {
        Some(Color { r: 0, g: VAL, b: VAL })
    } else if config_num == 1 {
        Some(Color { r: 0, g: 0, b: VAL })
    } else if config_num == 2 {
        Some(Color { r: 0, g: VAL, b: 0 })
    } else {
        None
    }
}

pub fn config_color(config_num: usize) -> (color: Option<Color>)
    ensures
        color == spec_config_color(config_num),
{
    match config_num {
        0 => Some(Color { r: 0, g: VAL, b: VAL }),
        1 => Some(Color { r: 0, g: 0, b: VAL }),
        2 => Some(Color { r: 0, g: VAL, b: 0 }),
        _ => None,
    }
}

/// What the indicator knows: the active profile, whether the light is off
/// because the host sleeps, and whether the first notice of sleep, which
/// comes while the keyboard starts, was already passed over.
#[derive(Clone, Copy, Debug, PartialEq, Eq, Structural)]
pub struct IndicatorState {
    pub config_num: usize,
    pub suspended: bool,
    pub check: bool,
}

impl IndicatorState {
    /// The state after a message.
    pub open spec fn after(&self, indicate: Indicate) -> IndicatorState {
        match indicate {
            Indicate::Config(config_num) => IndicatorState { config_num, ..*self },
            Indicate::Enable => IndicatorState { suspended: false, ..*self },
            Indicate::Disable => if self.check {
                IndicatorState { suspended: true, ..*self }
            } else {
                IndicatorState { check: true, ..*self }
            },
        }
    }

    /// What is done about a message: a profile is shown, and told to the
    /// other half, unless the light is off; waking shows the active profile;
    /// sleep turns the light off, except for its first notice.
    pub open spec fn output(&self, indicate: Indicate) -> IndicatorOutput {
        match indicate {
            Indicate::Config(config_num) => if self.suspended {
                IndicatorOutput { color: None, forward: None }
            } else {
                IndicatorOutput {
                    color: spec_config_color(config_num),
                    forward: Some(config_num as u8),
                }
            },
            Indicate::Enable => IndicatorOutput {
                color: spec_config_color(self.config_num),
                forward: None,
            },
            Indicate::Disable => if self.check {
                IndicatorOutput { color: Some(Color { r: 0, g: 0, b: 0 }), forward: None }
            } else {
                IndicatorOutput { color: None, forward: None }
            },
        }
    }

    pub fn new() -> (state: Self)
        ensures
            state == (IndicatorState { config_num: 0, suspended: false, check: false }),
    {
        IndicatorState { config_num: 0, suspended: false, check: false }
    }

    /// Takes a message and tells what to do about it.
    pub fn handle(&mut self, indicate: Indicate) -> (output: IndicatorOutput)
        ensures
            *final(self) == old(self).after(indicate),
            output == old(self).output(indicate),
    {
        match indicate {
            Indicate::Config(config_num) => {
                let output = if !self.suspended {
                    IndicatorOutput {
                        color: config_color(config_num),
                        forward: Some(config_num as u8),
                    }
                } else {
                    IndicatorOutput { color: None, forward: None }
                };
                self.config_num = config_num;
                output
            },
            Indicate::Enable => {
                self.suspended = false;
                IndicatorOutput { color: config_color(self.config_num), forward: None }
            },
            Indicate::Disable => {
                if self.check {
                    self.suspended = true;
                    IndicatorOutput { color: Some(Color { r: 0, g: 0, b: 0 }), forward: None }
                } else {
                    self.check = true;
                    IndicatorOutput { color: None, forward: None }
                }
            },
        }
    }

    /// The message that a change of the sleep state of the host asks for.
    pub fn suspend(suspended: bool) -> (message: Indicate)
        ensures
            message == if suspended {
                Indicate::Disable
            } else {
                Indicate::Enable
            },
    {
        if suspended {
            Indicate::Disable
        } else {
            Indicate::Enable
        }
    }
}

} // verus!
