//! Stand-in GPIO lines for running without hardware.
//!
//! The lines do nothing to any pin. Setting an output line has one effect:
//! it switches the simulated measurement channels that depend on the line,
//! so that toggling an output shows in the measured values. This module
//! decides which channels switch and to what; applying the switches to the
//! simulated channels is the caller's part.

use vstd::prelude::*;

verus! {

/// A simulated measurement channel that follows an output line.
#[derive(Clone, Copy, Debug, PartialEq, Eq, Structural)]
pub enum DemoChannel {
    /// Voltage on output 0, `out0-volt`.
    Out0Volt,
    /// Voltage on output 1, `out1-volt`.
    Out1Volt,
    /// Current on the IO bus supply, `iobus-curr`.
    IobusCurr,
    /// Voltage on the IO bus supply, `iobus-volt`.
    IobusVolt,
    /// Current on the device power supply, `pwr-curr`.
    PwrCurr,
    /// Voltage on the device power supply, `pwr-volt`.
    PwrVolt,
}

impl DemoChannel {
    /// The name under which the channel is known to the measurement side.
    pub fn name(&self) -> (name: &'static str)
        ensures
            name@ == match *self {
                DemoChannel::Out0Volt => "out0-volt"@,
                DemoChannel::Out1Volt => "out1-volt"@,
                DemoChannel::IobusCurr => "iobus-curr"@,
                DemoChannel::IobusVolt => "iobus-volt"@,
                DemoChannel::PwrCurr => "pwr-curr"@,
                DemoChannel::PwrVolt => "pwr-volt"@,
            },
    {
        match self {
            DemoChannel::Out0Volt => "out0-volt",
            DemoChannel::Out1Volt => "out1-volt",
            DemoChannel::IobusCurr => "iobus-curr",
            DemoChannel::IobusVolt => "iobus-volt",
            DemoChannel::PwrCurr => "pwr-curr",
            DemoChannel::PwrVolt => "pwr-volt",
        }
    }
}

/// One switch of a simulated channel.
#[derive(Clone, Copy, Debug, PartialEq, Eq, Structural)]
pub struct ChannelUpdate {
    /// The channel to switch.
    pub channel: DemoChannel,
    /// Whether the channel is on afterwards.
    pub on: bool,
}

/// The switches that follow from setting the line called `name` to `val`.
///
/// The two outputs and the IO bus supply switch their channels on for any
/// value but 0. The device power line is active low: its channels are on for
/// 0. Any other line switches nothing.
pub open spec fn line_effects(name: Seq<char>, val: u8) -> Seq<ChannelUpdate> {
    if name == "OUT_0"@ {
        seq![ChannelUpdate { channel: DemoChannel::Out0Volt, on: val != 0 }]
    } else if name == "OUT_1"@ {
        seq![ChannelUpdate { channel: DemoChannel::Out1Volt, on: val != 0 }]
    } else if name == "IOBUS_PWR_EN"@ {
        seq![
            ChannelUpdate { channel: DemoChannel::IobusCurr, on: val != 0 },
            ChannelUpdate { channel: DemoChannel::IobusVolt, on: val != 0 },
        ]
    } else if name == "DUT_PWR_EN"@ {
        seq![
            ChannelUpdate { channel: DemoChannel::PwrCurr, on: val == 0 },
            ChannelUpdate { channel: DemoChannel::PwrVolt, on: val == 0 },
        ]
    } else {
        Seq::empty()
    }
}

/// An output line that was requested from a [`FindDecoy`].
pub struct LineHandle {
    name: String,
}

impl LineHandle {
    /// The name of the line.
    pub closed spec fn line(&self) -> Seq<char> {
        self.name@
    }

    /// Sets the line to `val` and returns the switches of simulated channels
    /// that follow, in the order in which they are to be applied. Never
    /// fails.
    pub fn set_value(&self, val: u8) -> (result: Result<Vec<ChannelUpdate>, ()>)
        ensures
            result matches Ok(updates) && updates@ == line_effects(self.line(), val),
    {
        let mut updates: Vec<ChannelUpdate> = Vec::new();
        if is_named(&self.name, "OUT_0") {
            updates.push(ChannelUpdate { channel: DemoChannel::Out0Volt, on: val != 0 });
        } else if is_named(&self.name, "OUT_1") {
            updates.push(ChannelUpdate { channel: DemoChannel::Out1Volt, on: val != 0 });
        } else if is_named(&self.name, "IOBUS_PWR_EN") {
            updates.push(ChannelUpdate { channel: DemoChannel::IobusCurr, on: val != 0 });
            updates.push(ChannelUpdate { channel: DemoChannel::IobusVolt, on: val != 0 });
        } else if is_named(&self.name, "DUT_PWR_EN") {
            updates.push(ChannelUpdate { channel: DemoChannel::PwrCurr, on: val == 0 });
            updates.push(ChannelUpdate { channel: DemoChannel::PwrVolt, on: val == 0 });
        }
        Ok(updates)
    }
}

/// Whether the line called `name` is the line called `wanted`.
fn is_named(name: &String, wanted: &str) -> (same: bool)
    ensures
        same == (name@ == wanted@),
{
    let wanted = wanted.to_owned();
    *name == wanted
}

/// The direction of a signal change.
#[derive(Clone, Copy, Debug, PartialEq, Eq, Structural)]
pub enum EventType {
    /// From low to high.
    RisingEdge,
    /// From high to low.
    FallingEdge,
}

/// Which signal changes a requested input line reports.
#[allow(non_camel_case_types)]
#[derive(Clone, Copy, Debug, PartialEq, Eq, Structural)]
pub enum EventRequestFlags {
    /// Rising and falling edges.
    BOTH_EDGES,
}

/// The direction in which a line is requested.
#[allow(clippy::upper_case_acronyms)]
#[derive(Clone, Copy, Debug, PartialEq, Eq, Structural)]
pub enum LineRequestFlags {
    /// The line is driven.
    OUTPUT,
    /// The line is read.
    INPUT,
}

/// A signal change on an input line, with the level the line has after it.
pub struct LineEvent(u8);

impl LineEvent {
    /// The level of the line after the change.
    pub closed spec fn level(&self) -> u8 {
        self.0
    }

    /// A change that leaves the line at `level`.
    pub fn new(level: u8) -> (event: Self)
        ensures
            event.level() == level,
    {
        LineEvent(level)
    }

    /// The direction of the change: falling if the line is at 0 afterwards,
    /// rising otherwise.
    pub fn event_type(&self) -> (edge: EventType)
        ensures
            edge == (if self.level() == 0 {
                EventType::FallingEdge
            } else {
                EventType::RisingEdge
            }),
    {
        match self.0 {
            0 => EventType::FallingEdge,
            _ => EventType::RisingEdge,
        }
    }
}

/// An input line that was requested from a [`FindDecoy`]. No signal ever
/// changes on it.
pub struct LineEventHandle {}

impl LineEventHandle {
    /// The level of the line, which is always 0.
    pub fn get_value(&self) -> (level: Result<u8, ()>)
        ensures
            level == Ok::<u8, ()>(0),
    {
        Ok(0)
    }
}

/// A line that was found by its name and can be requested.
pub struct FindDecoy {
    name: String,
}

impl FindDecoy {
    /// The name of the line.
    pub closed spec fn line(&self) -> Seq<char> {
        self.name@
    }

    /// Requests the line as an output and sets it to `initial`. Returns the
    /// handle of the line together with the switches of simulated channels
    /// that follow from the initial value. The direction and the name of the
    /// consumer play no part. Never fails.
    pub fn request(
        &self,
        _flags: LineRequestFlags,
        initial: u8,
        _consumer: &str,
    ) -> (result: Result<(LineHandle, Vec<ChannelUpdate>), ()>)
        ensures
            result matches Ok(line) && line.0.line() == self.line() && line.1@ == line_effects(
                self.line(),
                initial,
            ),
    {
        let line_handle = LineHandle { name: self.name.clone() };
        match line_handle.set_value(initial) {
            Ok(updates) => Ok((line_handle, updates)),
            Err(_) => Err(()),
        }
    }

    /// Requests the line as an input that reports signal changes. The flags
    /// and the name of the consumer play no part. Never fails.
    pub fn events(
        &self,
        _flags: LineRequestFlags,
        _edges: EventRequestFlags,
        _consumer: &str,
    ) -> (result: Result<LineEventHandle, ()>)
        ensures
            result is Ok,
    {
        Ok(LineEventHandle {  })
    }
}

/// Finds the line called `name`. Every name is the name of a line.
pub fn find_line(name: &str) -> (result: Result<FindDecoy, ()>)
    ensures
        result matches Ok(found) && found.line() == name@,
{
    Ok(FindDecoy { name: name.to_owned() })
}

} // verus!
