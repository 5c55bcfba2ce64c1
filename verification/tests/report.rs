use vrr_window::app::Application;
use vrr_window::display::{PhysicalSize, VideoMode};
use vrr_window::report::{MonitorInfo, RefreshRate, ReportLine};

fn monitor(primary: bool, name: Option<&str>, refresh: Option<u32>, modes: Vec<VideoMode>) -> MonitorInfo {
    MonitorInfo {
        primary,
        name: name.map(|n| n.to_string()),
        size: PhysicalSize { width: 2560, height: 1440 },
        refresh_rate_millihertz: refresh,
        x: -2560,
        y: 0,
        scale_factor_bits: 1.25f64.to_bits(),
        video_modes: modes,
    }
}

#[test]
fn refresh_rate_is_split_into_hertz_and_millihertz() {
    assert_eq!(RefreshRate::from_millihertz(59_940), RefreshRate { hertz: 59, millihertz: 940 });
    assert_eq!(RefreshRate::from_millihertz(60_000), RefreshRate { hertz: 60, millihertz: 0 });
    assert_eq!(RefreshRate::from_millihertz(999), RefreshRate { hertz: 0, millihertz: 999 });
    assert_eq!(RefreshRate::from_millihertz(0), RefreshRate { hertz: 0, millihertz: 0 });
    assert_eq!(
        RefreshRate::from_millihertz(u32::MAX),
        RefreshRate { hertz: 4_294_967, millihertz: 295 }
    );
}

#[test]
fn report_without_monitors_is_the_heading() {
    assert_eq!(Application::monitor_report(&Vec::new()), vec![ReportLine::Title]);
}

#[test]
fn report_lists_each_monitor_with_its_modes() {
    let modes = vec![
        VideoMode { width: 2560, height: 1440, refresh_rate_millihertz: 143_856, bit_depth: 32 },
        VideoMode { width: 1920, height: 1080, refresh_rate_millihertz: 60_000, bit_depth: 24 },
    ];
    let monitors = vec![
        monitor(true, Some("DP-1"), Some(143_856), modes),
        monitor(false, None, None, Vec::new()),
    ];
    let lines = Application::monitor_report(&monitors);
    let size = PhysicalSize { width: 2560, height: 1440 };
    assert_eq!(
        lines,
        vec![
            ReportLine::Title,
            ReportLine::Monitor { primary: true, name: Some("DP-1".to_string()) },
            ReportLine::CurrentMode {
                size,
                refresh_rate: Some(RefreshRate { hertz: 143, millihertz: 856 })
            },
            ReportLine::Position { x: -2560, y: 0 },
            ReportLine::ScaleFactor { bits: 1.25f64.to_bits() },
            ReportLine::ModesTitle,
            ReportLine::Mode {
                size,
                bit_depth: 32,
                rate: RefreshRate { hertz: 143, millihertz: 856 }
            },
            ReportLine::Mode {
                size: PhysicalSize { width: 1920, height: 1080 },
                bit_depth: 24,
                rate: RefreshRate { hertz: 60, millihertz: 0 }
            },
            ReportLine::Monitor { primary: false, name: None },
            ReportLine::CurrentMode { size, refresh_rate: None },
            ReportLine::Position { x: -2560, y: 0 },
            ReportLine::ScaleFactor { bits: 1.25f64.to_bits() },
            ReportLine::ModesTitle,
        ]
    );
}
