//! Value sliders: input-change events are parsed and validated, then
//! emitted as streaming value commands; a commit-type slider emits a
//! distinct, differently-named command when interaction ends.

use vstd::prelude::*;
use crate::command::Command;
use crate::numeric::{dec_int, i32_string, parse_i32, parse_i32_spec};

verus! {

/// Configuration record of one slider instance. `commit_command` names
/// the end-of-interaction command of a streaming-plus-commit slider;
/// a streaming-only slider has none.
#[derive(Clone, Debug, PartialEq)]
pub struct SliderConfig {
    pub min: i32,
    pub max: i32,
    pub step: i32,
    pub default_value: i32,
    pub command_type: String,
    pub unit: String,
    pub commit_command: Option<String>,
}

impl SliderConfig {
    /// The default value sits inside the range.
    pub open spec fn wf(self) -> bool {
        self.min <= self.default_value <= self.max
    }

    /// The shared acceptance rule of both dispatches: the value an
    /// input text is accepted at, if it parses as a 32-bit integer and
    /// lies within the range. Anything else is dropped silently.
    pub open spec fn accepted_value(self, text: Seq<char>) -> Option<int> {
        match parse_i32_spec(text) {
            Some(v) => if self.min <= v <= self.max {
                Some(v)
            } else {
                None
            },
            None => None,
        }
    }
}

/// A value slider: the displayed value, which changes only when an
/// input is accepted, and its configuration record.
#[derive(Clone, Debug)]
pub struct Slider {
    pub config: SliderConfig,
    pub value: i32,
}

impl Slider {
    /// The displayed value stays within the configured range.
    pub open spec fn wf(self) -> bool {
        self.config.wf() && self.config.min <= self.value <= self.config.max
    }

    /// A fresh slider shows its configured default.
    pub fn new(config: SliderConfig) -> (s: Slider)
        requires
            config.wf(),
        ensures
            s.config == config,
            s.value == config.default_value,
            s.wf(),
    {
        let value = config.default_value;
        Slider { config, value }
    }

    /// An input-change event. If the text is accepted the display
    /// updates and the streaming command carries the value's decimal
    /// string; otherwise nothing changes and nothing is dispatched.
    pub fn on_input(&mut self, text: &str) -> (r: Option<Command>)
        requires
            old(self).wf(),
        ensures
            final(self).wf(),
            final(self).config == old(self).config,
            (match old(self).config.accepted_value(text@) {
                Some(v) => {
                    &&& final(self).value == v
                    &&& r matches Some(c) && c@.name == old(self).config.command_type@
                        && c@.value == dec_int(v)
                },
                None => final(self).value == old(self).value && r is None,
            }),
    {
        match parse_i32(text) {
            Some(v) => {
                if self.config.min <= v && v <= self.config.max {
                    self.value = v;
                    Some(Command { name: self.config.command_type.clone(), value: i32_string(v) })
                } else {
                    None
                }
            },
            None => None,
        }
    }

    /// The end-of-interaction event. It accepts exactly what
    /// `on_input` accepts; on a commit-type slider an accepted text
    /// yields the distinct commit command with the value's decimal
    /// string, while a streaming-only slider yields nothing.
    pub fn on_commit(&mut self, text: &str) -> (r: Option<Command>)
        requires
            old(self).wf(),
        ensures
            final(self).wf(),
            final(self).config == old(self).config,
            (match old(self).config.accepted_value(text@) {
                Some(v) => {
                    &&& final(self).value == v
                    &&& (match old(self).config.commit_command {
                        Some(name) => r matches Some(c) && c@.name == name@ && c@.value
                            == dec_int(v),
                        None => r is None,
                    })
                },
                None => final(self).value == old(self).value && r is None,
            }),
    {
        match parse_i32(text) {
            Some(v) => {
                if self.config.min <= v && v <= self.config.max {
                    self.value = v;
                    match &self.config.commit_command {
                        Some(name) => Some(
                            Command { name: name.clone(), value: i32_string(v) },
                        ),
                        None => None,
                    }
                } else {
                    None
                }
            },
            None => None,
        }
    }
}

/// The blink-rate slider: strobe period in milliseconds.
pub fn blink_config() -> (c: SliderConfig)
    ensures
        c.min == 50 && c.max == 150 && c.step == 5 && c.default_value == 75,
        c.command_type@ == "blink_rate"@,
        c.unit@ == "ms"@,
        c.commit_command is None,
        c.wf(),
{
    SliderConfig {
        min: 50,
        max: 150,
        step: 5,
        default_value: 75,
        command_type: String::from_str("blink_rate"),
        unit: String::from_str("ms"),
        commit_command: None,
    }
}

/// The duty-cycle slider: drive strength as a percentage.
pub fn pwm_config() -> (c: SliderConfig)
    ensures
        c.min == 20 && c.max == 100 && c.step == 5 && c.default_value == 100,
        c.command_type@ == "pwm_percentage"@,
        c.unit@ == "%"@,
        c.commit_command is None,
        c.wf(),
{
    SliderConfig {
        min: 20,
        max: 100,
        step: 5,
        default_value: 100,
        command_type: String::from_str("pwm_percentage"),
        unit: String::from_str("%"),
        commit_command: None,
    }
}

/// The drive-frequency slider: higher hums less but pulls weaker.
pub fn frequency_config() -> (c: SliderConfig)
    ensures
        c.min == 500 && c.max == 48000 && c.step == 500 && c.default_value == 8000,
        c.command_type@ == "frequency_kilohertz"@,
        c.unit@ == "Hz"@,
        c.commit_command is None,
        c.wf(),
{
    SliderConfig {
        min: 500,
        max: 48000,
        step: 500,
        default_value: 8000,
        command_type: String::from_str("frequency_kilohertz"),
        unit: String::from_str("Hz"),
        commit_command: None,
    }
}

} // verus!
