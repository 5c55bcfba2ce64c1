//! What the controller reports to the user: the monitors with their video
//! modes, and the table of key bindings. The reports are built as values; the
//! caller turns them into text.

use crate::actions::Action;
use crate::app::Application;
use crate::bindings::{declared_rules, key_bindings, rules_of, Binding, BindingRule};
use crate::display::{PhysicalSize, VideoMode};
use crate::utils::{modifiers_text, modifiers_to_string};
use vstd::prelude::*;

verus! {

/// A refresh rate split into whole hertz and the remaining millihertz.
#[derive(Debug, Clone, Copy, PartialEq, Eq, Structural)]
pub struct RefreshRate {
    pub hertz: u32,
    pub millihertz: u32,
}

impl RefreshRate {
    /// The rate of `millihertz` thousandths of a hertz.
    pub open spec fn of(millihertz: u32) -> RefreshRate {
        RefreshRate { hertz: millihertz / 1000, millihertz: millihertz % 1000 }
    }

    /// Splits a rate given in millihertz into whole hertz and the rest.
    pub fn from_millihertz(millihertz: u32) -> (rate: RefreshRate)
        ensures
            rate == RefreshRate::of(millihertz),
            rate.hertz * 1000 + rate.millihertz == millihertz,
            rate.millihertz < 1000,
    {
        RefreshRate { hertz: millihertz / 1000, millihertz: millihertz % 1000 }
    }
}

/// What the windowing system tells of one monitor.
pub struct MonitorInfo {
    /// Whether this is the primary monitor.
    pub primary: bool,
    /// The monitor's name, if it has one.
    pub name: Option<String>,
    /// The current resolution.
    pub size: PhysicalSize,
    /// The current refresh rate in millihertz, if it is known.
    pub refresh_rate_millihertz: Option<u32>,
    /// The position of the monitor's top-left corner on the desktop.
    pub x: i32,
    pub y: i32,
    /// The scale factor, as the bit pattern of a 64-bit float.
    pub scale_factor_bits: u64,
    /// The video modes that the monitor supports, as they are listed.
    pub video_modes: Vec<VideoMode>,
}

/// One line of the monitor report.
#[derive(Debug, PartialEq, Eq)]
pub enum ReportLine {
    /// The report's heading.
    Title,
    /// The start of a monitor's entry; `name` is none for a monitor without a
    /// name.
    Monitor { primary: bool, name: Option<String> },
    /// The current resolution, with the refresh rate where it is known.
    CurrentMode { size: PhysicalSize, refresh_rate: Option<RefreshRate> },
    /// The monitor's position.
    Position { x: i32, y: i32 },
    /// The monitor's scale factor, as the bit pattern of a 64-bit float.
    ScaleFactor { bits: u64 },
    /// The heading of the list of video modes.
    ModesTitle,
    /// One supported video mode.
    Mode { size: PhysicalSize, bit_depth: u16, rate: RefreshRate },
}

/// The line for one supported video mode.
pub open spec fn mode_line(mode: VideoMode) -> ReportLine {
    ReportLine::Mode {
        size: PhysicalSize { width: mode.width, height: mode.height },
        bit_depth: mode.bit_depth,
        rate: RefreshRate::of(mode.refresh_rate_millihertz),
    }
}

/// The line for a monitor's current resolution and refresh rate.
pub open spec fn current_mode_line(monitor: MonitorInfo) -> ReportLine {
    ReportLine::CurrentMode {
        size: monitor.size,
        refresh_rate: match monitor.refresh_rate_millihertz {
            Some(millihertz) => Some(RefreshRate::of(millihertz)),
            None => None,
        },
    }
}

/// The lines of one monitor's entry: its name, current mode, position and
/// scale factor, then every supported video mode in the listed order.
pub open spec fn monitor_lines(monitor: MonitorInfo) -> Seq<ReportLine> {
    seq![
        ReportLine::Monitor { primary: monitor.primary, name: monitor.name },
        current_mode_line(monitor),
        ReportLine::Position { x: monitor.x, y: monitor.y },
        ReportLine::ScaleFactor { bits: monitor.scale_factor_bits },
        ReportLine::ModesTitle,
    ] + monitor.video_modes@.map_values(|mode: VideoMode| mode_line(mode))
}

/// The report on `monitors`: the heading, then each monitor's entry in turn.
pub open spec fn report_lines(monitors: Seq<MonitorInfo>) -> Seq<ReportLine>
    decreases monitors.len(),
{
    if monitors.len() == 0 {
        seq![ReportLine::Title]
    } else {
        report_lines(monitors.drop_last()) + monitor_lines(monitors.last())
    }
}

/// One row of the table of key bindings.
pub struct HelpEntry {
    /// The prefix that names the binding's modifiers.
    pub modifiers: String,
    /// The trigger key.
    pub trigger: String,
    /// The action that the binding invokes.
    pub action: Action,
    /// What the action does.
    pub help: &'static str,
}

impl HelpEntry {
    /// Whether this row shows `rule`.
    pub open spec fn shows(self, rule: BindingRule) -> bool {
        &&& self.modifiers@ == modifiers_text(rule.mods)
        &&& self.trigger@ == rule.trigger
        &&& self.action == rule.action
        &&& self.help@ == rule.action.help_text()
    }
}

/// Appends the entry of `monitor` to `lines`.
fn push_monitor_lines(lines: &mut Vec<ReportLine>, monitor: &MonitorInfo)
    ensures
        final(lines)@ == old(lines)@ + monitor_lines(*monitor),
{
    let name = match &monitor.name {
        Some(name) => Some(name.clone()),
        None => None,
    };
    let refresh_rate = match monitor.refresh_rate_millihertz {
        Some(millihertz) => Some(RefreshRate::from_millihertz(millihertz)),
        None => None,
    };
    lines.push(ReportLine::Monitor { primary: monitor.primary, name });
    lines.push(ReportLine::CurrentMode { size: monitor.size, refresh_rate });
    lines.push(ReportLine::Position { x: monitor.x, y: monitor.y });
    lines.push(ReportLine::ScaleFactor { bits: monitor.scale_factor_bits });
    lines.push(ReportLine::ModesTitle);
    let ghost head = lines@;
    let ghost modes = monitor.video_modes@.map_values(|mode: VideoMode| mode_line(mode));
    assert(head + modes.take(0) =~= head);
    let mut i: usize = 0;
    while i < monitor.video_modes.len()
        invariant
            i <= monitor.video_modes.len(),
            modes == monitor.video_modes@.map_values(|mode: VideoMode| mode_line(mode)),
            lines@ == head + modes.take(i as int),
        decreases monitor.video_modes.len() - i,
    {
        let mode = monitor.video_modes[i];
        lines.push(
            ReportLine::Mode {
                size: PhysicalSize { width: mode.width, height: mode.height },
                bit_depth: mode.bit_depth,
                rate: RefreshRate::from_millihertz(mode.refresh_rate_millihertz),
            },
        );
        assert(modes.take(i + 1) =~= modes.take(i as int).push(modes[i as int]));
        i += 1;
    }
    assert(modes.take(i as int) =~= modes);
    assert(head =~= old(lines)@ + monitor_lines(*monitor).take(5));
    assert(lines@ =~= old(lines)@ + monitor_lines(*monitor));
}

impl Application {
    /// The report on the monitors that the windowing system lists: for each
    /// its name or the lack of one, whether it is the primary one, its current
    /// resolution, its refresh rate in whole hertz and millihertz where known,
    /// its position, its scale factor and all its video modes.
    pub fn monitor_report(monitors: &Vec<MonitorInfo>) -> (lines: Vec<ReportLine>)
        ensures
            lines@ == report_lines(monitors@),
    {
        let mut lines: Vec<ReportLine> = Vec::new();
        lines.push(ReportLine::Title);
        assert(monitors@.take(0) =~= Seq::<MonitorInfo>::empty());
        assert(lines@ =~= report_lines(monitors@.take(0)));
        let mut i: usize = 0;
        while i < monitors.len()
            invariant
                i <= monitors.len(),
                lines@ == report_lines(monitors@.take(i as int)),
            decreases monitors.len() - i,
        {
            push_monitor_lines(&mut lines, &monitors[i]);
            assert(monitors@.take(i + 1).drop_last() =~= monitors@.take(i as int));
            i += 1;
        }
        assert(monitors@.take(i as int) =~= monitors@);
        lines
    }

    /// The table of key bindings: one row for each declared binding, in the
    /// declared order.
    pub fn help_table() -> (table: Vec<HelpEntry>)
        ensures
            table@.len() == declared_rules().len(),
            forall|i: int| 0 <= i < table@.len() ==> (#[trigger] table@[i]).shows(declared_rules()[i]),
    {
        let bindings = key_bindings();
        let mut table: Vec<HelpEntry> = Vec::new();
        let mut i: usize = 0;
        while i < bindings.len()
            invariant
                i <= bindings.len(),
                rules_of(bindings@) == declared_rules(),
                table@.len() == i,
                forall|j: int| 0 <= j < i ==> (#[trigger] table@[j]).shows(declared_rules()[j]),
            decreases bindings.len() - i,
        {
            let binding: &Binding = &bindings[i];
            assert(rules_of(bindings@)[i as int] == binding@);
            table.push(
                HelpEntry {
                    modifiers: modifiers_to_string(binding.mods),
                    trigger: binding.trigger.clone(),
                    action: binding.action,
                    help: binding.action.help(),
                },
            );
            i += 1;
        }
        table
    }
}

} // verus!
