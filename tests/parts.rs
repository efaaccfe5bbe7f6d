use hyprshot_rs::args::{Args, Mode, DEFAULT_NOTIF_TIMEOUT};
use hyprshot_rs::buffer::plan_buffer;
use hyprshot_rs::encode::{encode_frame, extract_frame, EncodeError};
use hyprshot_rs::environment::{
    backend_of_lowercase, desktop_label_of, detect_desktop_environment, save_geometry, str_contains,
    trim_whitespace, Backend, Environment,
};
use hyprshot_rs::event::Event;
use hyprshot_rs::format::{candidate_at, PixelFormat};
use hyprshot_rs::frame::FrameState;
use hyprshot_rs::geometry::{parse_geometry, parse_i32, Geometry};
use hyprshot_rs::region::CaptureRegion;
use hyprshot_rs::registry::{classify_interface, str_equals, CapabilityRegistry, Interface};
use hyprshot_rs::selection::{
    is_valid_monitor, monitor_at, offered_windows, selected_entry, trim, MonitorRect, TrimError, WindowInfo,
    WindowRect,
};

#[test]
fn plan_has_stride_of_four_bytes_per_pixel() {
    let p = plan_buffer(PixelFormat::Argb8888, 1920, 1080).unwrap();
    assert_eq!(p.stride, 7680);
    assert_eq!(p.size, 7680 * 1080);
    assert_eq!(p.format, PixelFormat::Argb8888);
}

#[test]
fn plan_refuses_what_a_pool_cannot_hold() {
    assert!(plan_buffer(PixelFormat::Xrgb8888, 0x2000_0000, 1).is_none());
    assert!(plan_buffer(PixelFormat::Xrgb8888, 65536, 8192).is_none());
    assert!(plan_buffer(PixelFormat::Xrgb8888, 65536, 8191).is_some());
}

#[test]
fn candidates_in_priority_order() {
    assert_eq!(candidate_at(0), PixelFormat::Xrgb8888);
    assert_eq!(candidate_at(1), PixelFormat::Argb8888);
    assert_eq!(candidate_at(2), PixelFormat::Xbgr8888);
    assert_eq!(candidate_at(3), PixelFormat::Abgr8888);
}

#[test]
fn region_validity() {
    assert!(CaptureRegion::new(-5, 3, 1, 1).valid());
    assert!(!CaptureRegion::new(0, 0, 0, 10).valid());
    assert!(!CaptureRegion::new(0, 0, 10, 0).valid());
}

#[test]
fn frame_state_ignores_events_after_terminal() {
    let plan = plan_buffer(PixelFormat::Xrgb8888, 10, 10).unwrap();
    let mut f = FrameState::new(&plan);
    assert_eq!((f.announced_width, f.announced_height, f.announced_stride), (10, 10, 40));
    f.apply(&Event::BufferAnnounced { format: 1, width: 8, height: 6, stride: 32 });
    f.apply(&Event::BufferDone);
    assert!(f.buffer_done && !f.terminal());
    f.apply(&Event::Failed);
    assert!(f.failed && f.terminal());
    f.apply(&Event::Ready);
    f.apply(&Event::BufferAnnounced { format: 1, width: 1, height: 1, stride: 4 });
    assert!(!f.ready);
    assert_eq!((f.announced_width, f.announced_height, f.announced_stride), (8, 6, 32));
}

#[test]
fn interface_names() {
    assert_eq!(classify_interface("zwlr_screencopy_manager_v1"), Interface::CaptureManager);
    assert_eq!(classify_interface("wl_shm"), Interface::ShmAllocator);
    assert_eq!(classify_interface("wl_output"), Interface::Output);
    assert_eq!(classify_interface("wl_shm_pool"), Interface::Other);
    assert_eq!(classify_interface(""), Interface::Other);
    assert!(str_equals("abc", "abc"));
    assert!(!str_equals("abc", "abd"));
    assert!(!str_equals("ab", "abc"));
}

#[test]
fn registry_binds_at_fixed_versions() {
    let mut r = CapabilityRegistry::new();
    assert!(!r.complete());
    let b = r.on_global("zwlr_screencopy_manager_v1", 7).unwrap();
    assert_eq!((b.name, b.version), (7, 3));
    assert!(r.on_global("zwlr_screencopy_manager_v1", 8).is_none());
    assert_eq!(r.on_global("wl_shm", 2).unwrap().version, 1);
    assert!(!r.complete());
    assert_eq!(r.on_global("wl_output", 11).unwrap().version, 3);
    assert!(r.on_global("xdg_wm_base", 12).is_none());
    assert!(r.complete());
    assert_eq!(r.capture_manager, Some(7));
    assert_eq!(r.first_output(), 11);
}

#[test]
fn extract_reads_rows_at_stride() {
    let pixels: Vec<u8> = (0u8..24).collect();
    // Two rows of one pixel, rows twelve bytes apart.
    assert_eq!(extract_frame(&pixels, 1, 2, 12).unwrap(), vec![0, 1, 2, 3, 12, 13, 14, 15]);
    assert_eq!(extract_frame(&pixels, 3, 2, 12).unwrap(), pixels);
    assert!(extract_frame(&pixels, 4, 2, 12).is_none());
    assert!(extract_frame(&pixels, 1, 3, 12).is_none());
    assert_eq!(extract_frame(&pixels, 1, 0, 4).unwrap(), Vec::<u8>::new());
}

#[test]
fn encode_frame_produces_png() {
    let pixels: Vec<u8> = (0u8..32).collect();
    let img = encode_frame(&pixels, 2, 2, 16).unwrap();
    assert_eq!(&img[..8], &[137, 80, 78, 71, 13, 10, 26, 10]);
    assert_ne!(img, pixels);
    let decoder = png::Decoder::new(std::io::Cursor::new(img));
    let mut reader = decoder.read_info().unwrap();
    let mut buf = vec![0u8; reader.output_buffer_size()];
    let info = reader.next_frame(&mut buf).unwrap();
    assert_eq!((info.width, info.height), (2, 2));
    assert_eq!(&buf[..info.buffer_size()], &[0, 1, 2, 3, 4, 5, 6, 7, 16, 17, 18, 19, 20, 21, 22, 23]);
}

#[test]
fn encode_frame_errors() {
    let pixels: Vec<u8> = vec![0; 16];
    assert_eq!(encode_frame(&pixels, 0, 2, 8), Err(EncodeError::Rejected));
    assert_eq!(encode_frame(&pixels, 2, 0, 8), Err(EncodeError::Rejected));
    assert_eq!(encode_frame(&pixels, 2, 3, 8), Err(EncodeError::GeometryOutsideBuffer));
    assert_eq!(encode_frame(&pixels, 3, 1, 8), Err(EncodeError::GeometryOutsideBuffer));
}

#[test]
fn environment_lowercases_desktop() {
    let env = Environment::new(Some("KDE".to_string()), Some("plasma".to_string()), false);
    assert_eq!(env.desktop, "KDE");
    assert_eq!(env.detect_desktop_environment(), "kde");
    assert_eq!(save_geometry(&env), Backend::Kde);
}

#[test]
fn environment_falls_back_to_session_then_unknown() {
    let env = Environment::new(None, Some("GNOME".to_string()), true);
    assert_eq!(env.desktop, "GNOME");
    assert!(env.debug);
    assert_eq!(save_geometry(&env), Backend::Gnome);
    let env = Environment::new(None, None, false);
    assert_eq!(env.desktop, "unknown");
    assert_eq!(save_geometry(&env), Backend::Native);
    let env = Environment::new(Some("Hyprland".to_string()), None, false);
    assert_eq!(env.detect_desktop_environment(), "hyprland");
    assert_eq!(save_geometry(&env), Backend::Native);
}

#[test]
fn backend_of_lowercase_names() {
    assert_eq!(backend_of_lowercase("kde"), Backend::Kde);
    assert_eq!(backend_of_lowercase("gnome"), Backend::Gnome);
    assert_eq!(backend_of_lowercase("KDE"), Backend::Native);
    assert_eq!(backend_of_lowercase("sway"), Backend::Native);
}

#[test]
fn args_hold_options() {
    let a = Args {
        mode: Mode::Region,
        output_path: None,
        clipboard_only: true,
        raw: false,
        command: Some(vec!["imv".to_string()]),
        silent: false,
        notif_timeout: DEFAULT_NOTIF_TIMEOUT,
        debug: false,
    };
    assert_eq!(a.mode, Mode::Region);
    assert_eq!(a.notif_timeout, 5000);
}

#[test]
fn parse_i32_follows_rust_syntax() {
    let s = "x-2147483648+7 2147483648 12a";
    assert_eq!(parse_i32(s, 1, 12), Some(i32::MIN));
    assert_eq!(parse_i32(s, 12, 14), Some(7));
    assert_eq!(parse_i32(s, 15, 25), None);
    assert_eq!(parse_i32(s, 16, 25), Some(147483648));
    assert_eq!(parse_i32(s, 26, 29), None);
    assert_eq!(parse_i32(s, 26, 28), Some(12));
    assert_eq!(parse_i32(s, 1, 2), None);
    assert_eq!(parse_i32(s, 3, 3), None);
}

#[test]
fn parse_geometry_cases() {
    assert_eq!(parse_geometry("10,20 300x400"), Some(Geometry { x: 10, y: 20, width: 300, height: 400 }));
    assert_eq!(parse_geometry("-5,+6 7x8"), Some(Geometry { x: -5, y: 6, width: 7, height: 8 }));
    assert_eq!(parse_geometry("10,20 300x400 "), None);
    assert_eq!(parse_geometry("10,20,3 300x400"), None);
    assert_eq!(parse_geometry("10 20 300x400"), None);
    assert_eq!(parse_geometry("10,20 300"), None);
    assert_eq!(parse_geometry("10,20 3x0x4"), None);
    assert_eq!(parse_geometry("a,20 300x400"), None);
    assert_eq!(parse_geometry(""), None);
}

fn monitors() -> Vec<MonitorRect> {
    vec![
        MonitorRect { x: 0, y: 0, width: 1920, height: 1080 },
        MonitorRect { x: 1920, y: 0, width: 1280, height: 1024 },
    ]
}

#[test]
fn trim_crops_to_the_monitor_of_the_corner() {
    let ms = monitors();
    assert_eq!(trim("100,100 200x200", &ms), Ok(Geometry { x: 100, y: 100, width: 200, height: 200 }));
    assert_eq!(trim("1800,1000 300x300", &ms), Ok(Geometry { x: 1800, y: 1000, width: 120, height: 80 }));
    assert_eq!(trim("2000,900 2000x500", &ms), Ok(Geometry { x: 2000, y: 900, width: 1200, height: 124 }));
}

#[test]
fn trim_errors() {
    let ms = monitors();
    assert_eq!(trim("100,100", &ms), Err(TrimError::InvalidFormat));
    assert_eq!(trim("100,100 0x200", &ms), Err(TrimError::NonPositiveSize));
    assert_eq!(trim("100,100 20x-2", &ms), Err(TrimError::NonPositiveSize));
    assert_eq!(trim("-10,100 20x20", &ms), Err(TrimError::NoMonitor));
    assert_eq!(trim("3200,0 20x20", &ms), Err(TrimError::NoMonitor));
}

#[test]
fn monitor_lookup_takes_the_first() {
    let ms = vec![
        MonitorRect { x: 0, y: 0, width: 100, height: 100 },
        MonitorRect { x: 50, y: 50, width: 100, height: 100 },
    ];
    assert_eq!(monitor_at(&ms, 60, 60), Some(0));
    assert_eq!(monitor_at(&ms, 120, 120), Some(1));
    assert_eq!(monitor_at(&ms, 200, 0), None);
}

#[test]
fn monitor_names_and_menu_choices() {
    let names = vec!["DP-1".to_string(), "HDMI-A-1".to_string()];
    assert!(is_valid_monitor(&names, "HDMI-A-1"));
    assert!(!is_valid_monitor(&names, "DP-2"));
    assert_eq!(selected_entry(0, 2), None);
    assert_eq!(selected_entry(1, 2), Some(0));
    assert_eq!(selected_entry(2, 2), Some(1));
    assert_eq!(selected_entry(3, 2), None);
}

#[test]
fn desktop_family_from_printed_variable() {
    assert_eq!(detect_desktop_environment("  Hyprland\n"), "Hyprland");
    assert_eq!(detect_desktop_environment("KDE\n"), "KDE");
    assert_eq!(detect_desktop_environment("ubuntu:GNOME\n"), "GNOME");
    assert_eq!(detect_desktop_environment("sway"), "Unknown");
    assert_eq!(detect_desktop_environment(""), "Unknown");
    assert_eq!(desktop_label_of("KDE"), "Unknown");
    assert_eq!(desktop_label_of("plasma-kde"), "KDE");
}

#[test]
fn substring_search() {
    assert!(str_contains("hyprland", "land"));
    assert!(str_contains("abc", ""));
    assert!(str_contains("abc", "abc"));
    assert!(!str_contains("ab", "abc"));
    assert!(!str_contains("abcabd", "abe"));
    assert!(str_contains("aab", "ab"));
}

#[test]
fn window_offers_follow_active_workspaces() {
    let rect = |w: i64, h: i64| Some(WindowRect { x: 1, y: 2, width: w, height: h });
    let windows = vec![
        WindowInfo { workspace: Some(1), rect: rect(10, 10) },
        WindowInfo { workspace: Some(11), rect: rect(10, 10) },
        WindowInfo { workspace: Some(2), rect: rect(0, 10) },
        WindowInfo { workspace: None, rect: rect(10, 10) },
        WindowInfo { workspace: Some(2), rect: None },
        WindowInfo { workspace: Some(2), rect: rect(5, 6) },
    ];
    assert_eq!(offered_windows(&vec![1, 2], &windows), vec![0, 5]);
    assert_eq!(offered_windows(&vec![], &windows), Vec::<usize>::new());
    assert!(WindowRect { x: 0, y: 0, width: 1, height: 1 }.has_area());
    assert!(!WindowRect { x: 0, y: 0, width: 1, height: -1 }.has_area());
}

#[test]
fn whitespace_trimming() {
    assert_eq!(trim_whitespace("  a b\t\n"), "a b");
    assert_eq!(trim_whitespace("\u{3000}\u{a0}KDE\u{2009}"), "KDE");
    assert_eq!(trim_whitespace(" \r\n "), "");
    assert_eq!(trim_whitespace(""), "");
    assert_eq!(trim_whitespace("x"), "x");
    assert_eq!(trim_whitespace("\u{200b}x"), "\u{200b}x");
}

#[test]
fn encoding_a_packed_frame_round_trips() {
    let pixels: Vec<u8> = (0..3 * 2 * 4).map(|i| (i * 7) as u8).collect();
    let img = encode_frame(&pixels, 3, 2, 12).unwrap();
    let decoder = png::Decoder::new(std::io::Cursor::new(img.clone()));
    let mut reader = decoder.read_info().unwrap();
    let mut buf = vec![0u8; reader.output_buffer_size()];
    let info = reader.next_frame(&mut buf).unwrap();
    assert_eq!((info.width, info.height), (3, 2));
    assert_eq!(&buf[..info.buffer_size()], &pixels[..]);
    assert_eq!(encode_frame(&pixels, 3, 2, 12).unwrap(), img);
}
