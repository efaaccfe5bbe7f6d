use hyprshot_rs::buffer::BufferPlan;
use hyprshot_rs::engine::{Action, AttemptOutcome, CaptureEngine, CaptureError, MAX_POLLS, POLL_INTERVAL_MS};
use hyprshot_rs::event::Event;
use hyprshot_rs::format::PixelFormat;
use hyprshot_rs::region::CaptureRegion;
use hyprshot_rs::registry::{BindRequest, Interface};

/// How the simulated server answers one capture attempt.
#[derive(Clone)]
enum Answer {
    /// Announce this geometry (width, height, stride), then deliver the frame.
    Ready(u32, u32, u32),
    /// Reject the capture.
    Fail,
    /// Never answer.
    Silent,
    /// The client cannot allocate the buffer.
    NoMemory,
}

struct Server {
    globals: Vec<(&'static str, u32, u32)>,
    answers: Vec<Answer>,
}

struct Run {
    result: Result<Vec<u8>, CaptureError>,
    binds: Vec<BindRequest>,
    round_trips: usize,
    allocations: Vec<BufferPlan>,
    releases: Vec<AttemptOutcome>,
    captures: Vec<(u32, CaptureRegion)>,
    polls: Vec<u32>,
    poll_delays: Vec<u32>,
    max_live: usize,
    live_at_end: usize,
}

fn full_globals() -> Vec<(&'static str, u32, u32)> {
    vec![
        ("wl_compositor", 1, 5),
        ("wl_shm", 2, 1),
        ("wl_output", 3, 4),
        ("zwlr_screencopy_manager_v1", 4, 3),
        ("wl_output", 5, 4),
    ]
}

fn pixel_at(i: usize) -> u8 {
    (i % 251) as u8
}

fn drive(region: CaptureRegion, server: &Server) -> Run {
    let mut engine = CaptureEngine::new(region);
    let mut run = Run {
        result: Err(CaptureError::EncodingFailure),
        binds: Vec::new(),
        round_trips: 0,
        allocations: Vec::new(),
        releases: Vec::new(),
        captures: Vec::new(),
        polls: Vec::new(),
        poll_delays: Vec::new(),
        max_live: 0,
        live_at_end: 0,
    };
    let mut live: usize = 0;
    let mut plan: Option<BufferPlan> = None;
    let mut action = engine.step(Event::Started);
    let mut steps = 0;
    loop {
        steps += 1;
        assert!(steps < 10_000, "the engine does not finish");
        action = match action {
            Action::RoundTrip => {
                if run.round_trips == 0 {
                    for (interface, name, version) in server.globals.iter() {
                        let a = engine.step(Event::GlobalAnnounced {
                            interface: interface.to_string(),
                            name: *name,
                            version: *version,
                        });
                        match a {
                            Action::Bind(b) => run.binds.push(b),
                            Action::Nothing => {},
                            other => panic!("unexpected answer to a global: {:?}", other),
                        }
                    }
                }
                run.round_trips += 1;
                engine.step(Event::RoundTripDone)
            },
            Action::Allocate(p) => {
                let attempt = run.allocations.len();
                run.allocations.push(p);
                match server.answers[attempt] {
                    Answer::NoMemory => engine.step(Event::AllocationFailed),
                    _ => {
                        live += 1;
                        run.max_live = run.max_live.max(live);
                        plan = Some(p);
                        run.polls.push(0);
                        engine.step(Event::BufferAllocated)
                    },
                }
            },
            Action::Capture { output, region } => {
                run.captures.push((output, region));
                engine.step(Event::CaptureIssued)
            },
            Action::Poll { delay_ms } => {
                run.poll_delays.push(delay_ms);
                let attempt = run.allocations.len() - 1;
                let n = run.polls.len() - 1;
                run.polls[n] += 1;
                if run.polls[n] == 1 {
                    let events = match server.answers[attempt] {
                        Answer::Ready(w, h, s) => vec![
                            Event::BufferAnnounced { format: 0, width: w, height: h, stride: s },
                            Event::BufferDone,
                            Event::Ready,
                            Event::Failed,
                        ],
                        Answer::Fail => vec![Event::Failed, Event::Ready],
                        _ => vec![],
                    };
                    for e in events {
                        match engine.step(e) {
                            Action::Nothing => {},
                            other => panic!("unexpected answer to a frame event: {:?}", other),
                        }
                    }
                }
                engine.step(Event::PollElapsed)
            },
            Action::ReadPixels => {
                let size = plan.unwrap().size as usize;
                let bytes: Vec<u8> = (0..size).map(pixel_at).collect();
                engine.step(Event::PixelsRead(bytes))
            },
            Action::Release(outcome) => {
                run.releases.push(outcome);
                live -= 1;
                engine.step(Event::Released)
            },
            Action::Finish(r) => {
                run.result = r;
                break;
            },
            other => panic!("unexpected action: {:?}", other),
        };
    }
    assert!(engine.is_finished());
    assert!(matches!(engine.step(Event::RoundTripDone), Action::Nothing));
    run.live_at_end = live;
    run
}

fn decode(bytes: &[u8]) -> (u32, u32, Vec<u8>) {
    let decoder = png::Decoder::new(std::io::Cursor::new(bytes.to_vec()));
    let mut reader = decoder.read_info().unwrap();
    let mut buf = vec![0u8; reader.output_buffer_size()];
    let info = reader.next_frame(&mut buf).unwrap();
    buf.truncate(info.buffer_size());
    assert_eq!(info.color_type, png::ColorType::Rgba);
    assert_eq!(info.bit_depth, png::BitDepth::Eight);
    (info.width, info.height, buf)
}

#[test]
fn scenario_a_first_format_matching_geometry() {
    let region = CaptureRegion::new(0, 0, 100, 50);
    let server = Server { globals: full_globals(), answers: vec![Answer::Ready(100, 50, 400)] };
    let run = drive(region, &server);
    let img = run.result.unwrap();
    let (w, h, pixels) = decode(&img);
    assert_eq!((w, h), (100, 50));
    let expected: Vec<u8> = (0..20000).map(pixel_at).collect();
    assert_eq!(pixels, expected);
    assert_eq!(run.allocations.len(), 1);
    assert_eq!(run.allocations[0].format, PixelFormat::Xrgb8888);
    assert_eq!(run.releases, vec![AttemptOutcome::Captured]);
    assert_eq!(run.captures, vec![(3, region)]);
    assert_eq!(run.round_trips, 1);
    assert_eq!(run.live_at_end, 0);
}

#[test]
fn scenario_b_announced_width_wins() {
    let region = CaptureRegion::new(0, 0, 100, 50);
    let server = Server { globals: full_globals(), answers: vec![Answer::Ready(96, 50, 384)] };
    let run = drive(region, &server);
    let (w, h, pixels) = decode(&run.result.unwrap());
    assert_eq!((w, h), (96, 50));
    assert_ne!(w, 100);
    assert_eq!(pixels.len(), 96 * 50 * 4);
    // Rows are read at the announced stride.
    assert_eq!(pixels[384], pixel_at(384));
    assert_eq!(pixels[96 * 4 * 49], pixel_at(384 * 49));
}

#[test]
fn scenario_c_no_outputs() {
    let region = CaptureRegion::new(0, 0, 100, 50);
    let server = Server {
        globals: vec![("wl_shm", 2, 1), ("zwlr_screencopy_manager_v1", 4, 3)],
        answers: vec![],
    };
    let run = drive(region, &server);
    assert_eq!(run.result, Err(CaptureError::ProtocolUnavailable));
    assert_eq!(run.round_trips, 5);
    assert!(run.allocations.is_empty());
    assert!(run.captures.is_empty());
}

#[test]
fn scenario_d_all_formats_fail() {
    let region = CaptureRegion::new(0, 0, 100, 50);
    let server = Server { globals: full_globals(), answers: vec![Answer::Fail; 4] };
    let run = drive(region, &server);
    assert_eq!(run.result, Err(CaptureError::AllFormatsExhausted));
    assert_eq!(run.allocations.len(), 4);
    assert_eq!(run.releases, vec![AttemptOutcome::FrameCaptureFailed; 4]);
    let formats: Vec<PixelFormat> = run.allocations.iter().map(|p| p.format).collect();
    assert_eq!(
        formats,
        vec![PixelFormat::Xrgb8888, PixelFormat::Argb8888, PixelFormat::Xbgr8888, PixelFormat::Abgr8888]
    );
    assert_eq!(run.max_live, 1);
    assert_eq!(run.live_at_end, 0);
}

#[test]
fn fallback_reaches_last_format_and_stops() {
    let region = CaptureRegion::new(10, 20, 8, 4);
    let server = Server {
        globals: full_globals(),
        answers: vec![Answer::Fail, Answer::Fail, Answer::Fail, Answer::Ready(8, 4, 32), Answer::Fail],
    };
    let run = drive(region, &server);
    assert!(run.result.is_ok());
    assert_eq!(run.allocations.len(), 4);
    assert_eq!(run.allocations[3].format, PixelFormat::Abgr8888);
    assert_eq!(
        run.releases,
        vec![
            AttemptOutcome::FrameCaptureFailed,
            AttemptOutcome::FrameCaptureFailed,
            AttemptOutcome::FrameCaptureFailed,
            AttemptOutcome::Captured,
        ]
    );
}

#[test]
fn silent_server_times_out_within_poll_bound() {
    let region = CaptureRegion::new(0, 0, 4, 4);
    let server = Server { globals: full_globals(), answers: vec![Answer::Silent; 4] };
    let run = drive(region, &server);
    assert_eq!(run.result, Err(CaptureError::AllFormatsExhausted));
    assert_eq!(run.releases, vec![AttemptOutcome::TimedOut; 4]);
    assert_eq!(run.polls, vec![MAX_POLLS; 4]);
    assert_eq!(run.poll_delays[0], 0);
    assert_eq!(run.poll_delays[1], POLL_INTERVAL_MS);
    assert_eq!(run.live_at_end, 0);
}

#[test]
fn missing_capture_manager_allocates_nothing() {
    let region = CaptureRegion::new(0, 0, 100, 50);
    let server = Server { globals: vec![("wl_shm", 2, 1), ("wl_output", 3, 4)], answers: vec![] };
    let run = drive(region, &server);
    assert_eq!(run.result, Err(CaptureError::ProtocolUnavailable));
    assert!(run.allocations.is_empty());
    assert_eq!(run.round_trips, 5);
}

#[test]
fn allocation_failure_moves_to_next_format() {
    let region = CaptureRegion::new(0, 0, 2, 2);
    let server = Server {
        globals: full_globals(),
        answers: vec![Answer::NoMemory, Answer::Ready(2, 2, 8)],
    };
    let run = drive(region, &server);
    assert!(run.result.is_ok());
    assert_eq!(run.allocations.len(), 2);
    assert_eq!(run.allocations[1].format, PixelFormat::Argb8888);
    assert_eq!(run.releases, vec![AttemptOutcome::Captured]);
    assert_eq!(run.live_at_end, 0);
}

#[test]
fn geometry_outside_buffer_is_an_encoding_failure() {
    let region = CaptureRegion::new(0, 0, 10, 10);
    let server = Server { globals: full_globals(), answers: vec![Answer::Ready(20, 10, 80)] };
    let run = drive(region, &server);
    assert_eq!(run.result, Err(CaptureError::EncodingFailure));
    assert_eq!(run.releases, vec![AttemptOutcome::Captured]);
    assert_eq!(run.live_at_end, 0);
}

#[test]
fn oversized_region_exhausts_formats_without_allocating() {
    let region = CaptureRegion::new(0, 0, 40000, 40000);
    let server = Server { globals: full_globals(), answers: vec![] };
    let run = drive(region, &server);
    assert_eq!(run.result, Err(CaptureError::AllFormatsExhausted));
    assert!(run.allocations.is_empty());
}

#[test]
fn binds_first_manager_and_allocator_and_every_output() {
    let region = CaptureRegion::new(0, 0, 1, 1);
    let mut globals = full_globals();
    globals.push(("wl_shm", 9, 1));
    globals.push(("zwlr_screencopy_manager_v1", 10, 1));
    let server = Server { globals, answers: vec![Answer::Ready(1, 1, 4)] };
    let run = drive(region, &server);
    assert_eq!(
        run.binds,
        vec![
            BindRequest { name: 2, interface: Interface::ShmAllocator, version: 1 },
            BindRequest { name: 3, interface: Interface::Output, version: 3 },
            BindRequest { name: 4, interface: Interface::CaptureManager, version: 3 },
            BindRequest { name: 5, interface: Interface::Output, version: 3 },
        ]
    );
}

#[test]
fn allocations_have_packed_stride() {
    let region = CaptureRegion::new(0, 0, 100, 50);
    let server = Server { globals: full_globals(), answers: vec![Answer::Fail, Answer::Ready(100, 50, 400)] };
    let run = drive(region, &server);
    for p in run.allocations.iter() {
        assert_eq!(p.stride, 400);
        assert_eq!(p.size, 20000);
        assert_eq!((p.width, p.height), (100, 50));
    }
}
