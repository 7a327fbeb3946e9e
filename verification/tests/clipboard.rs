use clipsync::clipboard::{
    encode_png, hash_bytes, image_reading, plan_apply, Applier, ApplyAction, ApplyError, ClipboardContent,
    Monitor, PollOutcome, MIN_BROADCAST_INTERVAL_MS, MONITOR_INTERVAL_MS,
};
use clipsync::events::{Level, RuntimeEvent, RuntimeLogEvent};
use clipsync::messages::{ClipboardBroadcastPayload, ClipboardUpdate};

fn log(level: Level, message: &str) -> RuntimeEvent {
    RuntimeEvent::Log(RuntimeLogEvent { level, message: message.to_string() })
}

fn noise(len: usize) -> Vec<u8> {
    let mut state: u32 = 0x1234_5678;
    let mut out = Vec::with_capacity(len);
    for _ in 0..len {
        state = state.wrapping_mul(1_664_525).wrapping_add(1_013_904_223);
        out.push((state >> 24) as u8);
    }
    out
}

fn emitted(outcome: PollOutcome) -> ClipboardUpdate {
    match outcome {
        PollOutcome::Emitted(update) => update,
        other => panic!("nothing emitted: {:?}", other),
    }
}

#[test]
fn intervals_are_the_documented_ones() {
    assert_eq!(MONITOR_INTERVAL_MS, 500);
    assert_eq!(MIN_BROADCAST_INTERVAL_MS, 400);
}

#[test]
fn hash_is_fnv1a_64() {
    assert_eq!(hash_bytes(b""), 0xcbf29ce484222325);
    assert_eq!(hash_bytes(b"a"), 0xaf63dc4c8601ec8c);
    assert_eq!(hash_bytes(b"foobar"), 0x85944171f73967e8);
}

#[test]
fn new_text_is_announced_under_the_device_id() {
    let mut monitor = Monitor::new("AAA".to_string(), 512, 0);
    let out = monitor.offer_text(false, "hello".to_string(), 500);
    assert_eq!(
        out.events,
        vec![
            log(Level::Info, "text clipboard update detected len=5"),
            RuntimeEvent::ClipboardSent { content_type: "text/plain".to_string() },
        ]
    );
    let update = emitted(out.outcome);
    assert_eq!(update.msg_type, "clipboard_update");
    assert_eq!(update.payload.content_type, "text/plain");
    assert_eq!(update.payload.data, "hello");
    assert_eq!(update.payload.sender_device_id, "AAA");
}

#[test]
fn same_text_is_announced_once() {
    let mut monitor = Monitor::new("AAA".to_string(), 512, 0);
    assert!(matches!(monitor.offer_text(false, "hello".to_string(), 500).outcome, PollOutcome::Emitted(_)));
    let again = monitor.offer_text(false, "hello".to_string(), 1_000);
    assert_eq!(again.outcome, PollOutcome::Unchanged);
    assert!(again.events.is_empty());
    for n in 2..20u64 {
        assert_eq!(monitor.offer_text(false, "hello".to_string(), n * 500 + 500).outcome, PollOutcome::Unchanged);
    }
}

#[test]
fn empty_text_is_never_announced() {
    let mut monitor = Monitor::new("AAA".to_string(), 512, 0);
    assert_eq!(monitor.offer_text(false, String::new(), 500).outcome, PollOutcome::Unchanged);
}

#[test]
fn announcements_are_at_least_400_ms_apart() {
    let mut monitor = Monitor::new("AAA".to_string(), 512, 1_000);
    assert_eq!(monitor.offer_text(false, "early".to_string(), 1_399).outcome, PollOutcome::RateLimited);
    assert!(matches!(monitor.offer_text(false, "early".to_string(), 1_400).outcome, PollOutcome::Emitted(_)));
    assert_eq!(monitor.offer_text(false, "next".to_string(), 1_799).outcome, PollOutcome::RateLimited);
    assert_eq!(monitor.offer_png(false, vec![1, 2, 3], 1_799).outcome, PollOutcome::RateLimited);
    assert!(matches!(monitor.offer_text(false, "next".to_string(), 1_800).outcome, PollOutcome::Emitted(_)));
}

#[test]
fn rate_limited_text_is_announced_by_a_later_reading() {
    let mut monitor = Monitor::new("AAA".to_string(), 512, 0);
    monitor.offer_text(false, "one".to_string(), 400);
    assert_eq!(monitor.offer_text(false, "two".to_string(), 500).outcome, PollOutcome::RateLimited);
    let update = emitted(monitor.offer_text(false, "two".to_string(), 1_000).outcome);
    assert_eq!(update.payload.data, "two");
}

#[test]
fn clock_running_backwards_counts_as_too_soon() {
    let mut monitor = Monitor::new("AAA".to_string(), 512, 5_000);
    assert_eq!(monitor.offer_text(false, "x".to_string(), 100).outcome, PollOutcome::RateLimited);
}

#[test]
fn suppressed_cycle_is_skipped() {
    let mut monitor = Monitor::new("AAA".to_string(), 512, 0);
    let out = monitor.offer_text(true, "hello".to_string(), 500);
    assert_eq!(out.outcome, PollOutcome::Suppressed);
    assert!(out.events.is_empty());
    assert_eq!(monitor.offer_png(true, vec![1], 500).outcome, PollOutcome::Suppressed);
    let out = monitor.poll(true, ClipboardContent::Image { bytes: vec![0; 4], width: 1, height: 1 }, 500);
    assert_eq!(out.outcome, PollOutcome::Suppressed);
    assert!(matches!(monitor.offer_text(false, "hello".to_string(), 500).outcome, PollOutcome::Emitted(_)));
}

#[test]
fn text_applied_locally_in_rapid_succession_is_announced_at_most_once() {
    let mut monitor = Monitor::new("AAA".to_string(), 512, 0);
    let mut applier = Applier::new();
    let mut announced = 0;
    for n in 0..10u64 {
        let payload = ClipboardBroadcastPayload { content_type: "text/plain".to_string(), data: "same".to_string() };
        let start = applier.begin(payload);
        assert_eq!(start.action, Some(ApplyAction::WriteText("same".to_string())));
        if let PollOutcome::Emitted(_) = monitor.offer_text(applier.suppressing, "same".to_string(), 500 + n * 1_000).outcome {
            announced += 1;
        }
        applier.finish(None);
        if let PollOutcome::Emitted(_) = monitor.offer_text(applier.suppressing, "same".to_string(), 1_000 + n * 1_000).outcome {
            announced += 1;
        }
    }
    assert!(announced <= 1);
}

#[test]
fn image_within_the_limit_is_announced_once_in_base64() {
    let mut monitor = Monitor::new("AAA".to_string(), 1, 0);
    let png = noise(1024);
    let out = monitor.offer_png(false, png.clone(), 500);
    assert_eq!(
        out.events,
        vec![
            log(Level::Info, "image clipboard update detected size=1024 bytes"),
            RuntimeEvent::ClipboardSent { content_type: "image/png".to_string() },
        ]
    );
    let update = emitted(out.outcome);
    assert_eq!(update.payload.content_type, "image/png");
    assert_eq!(update.payload.sender_device_id, "AAA");
    assert_eq!(update.payload.data.len(), 1368);
    assert_eq!(monitor.offer_png(false, png, 1_000).outcome, PollOutcome::Unchanged);
}

#[test]
fn base64_is_standard_with_padding() {
    let mut monitor = Monitor::new("AAA".to_string(), 512, 0);
    let update = emitted(monitor.offer_png(false, b"hello world~\n".to_vec(), 500).outcome);
    assert_eq!(update.payload.data, "aGVsbG8gd29ybGR+Cg==");
    let update = emitted(monitor.offer_png(false, vec![0xfb, 0xff], 1_000).outcome);
    assert_eq!(update.payload.data, "+/8=");
}

#[test]
fn image_over_the_limit_is_dropped_with_a_warning() {
    let mut monitor = Monitor::new("AAA".to_string(), 1, 0);
    let out = monitor.offer_png(false, noise(1025), 500);
    assert_eq!(out.outcome, PollOutcome::Oversized { size: 1025 });
    assert_eq!(out.events, vec![log(Level::Warn, "skip oversized image size=1025 limit=1KB")]);
    let update = emitted(monitor.offer_png(false, noise(1024), 500).outcome);
    assert_eq!(update.payload.content_type, "image/png");
}

#[test]
fn image_limit_is_clamped() {
    let mut monitor = Monitor::new("AAA".to_string(), 0, 0);
    assert!(matches!(monitor.offer_png(false, noise(1024), 500).outcome, PollOutcome::Emitted(_)));
    assert_eq!(monitor.offer_png(false, noise(1025), 1_000).outcome, PollOutcome::Oversized { size: 1025 });
    let mut monitor = Monitor::new("AAA".to_string(), u64::MAX, 0);
    assert!(matches!(monitor.offer_png(false, noise(2_000_000), 500).outcome, PollOutcome::Emitted(_)));
}

#[test]
fn oversized_screenshot_of_100_kib_with_limit_64() {
    let pixels = noise(200 * 200 * 4);
    let png = encode_png(pixels.clone(), 200, 200).unwrap();
    assert!(png.len() > 100 * 1024);
    let mut monitor = Monitor::new("AAA".to_string(), 64, 0);
    let out = monitor.poll(false, ClipboardContent::Image { bytes: pixels, width: 200, height: 200 }, 500);
    assert_eq!(out.outcome, PollOutcome::Oversized { size: png.len() as u64 });
    assert_eq!(out.events.len(), 1);
    assert!(matches!(
        &out.events[0],
        RuntimeEvent::Log(l) if l.level == Level::Warn && l.message.starts_with("skip oversized") && l.message.ends_with("limit=64KB")
    ));
}

#[test]
fn encoded_image_of_100_kib_with_limit_64_is_skipped() {
    let mut monitor = Monitor::new("AAA".to_string(), 64, 0);
    let mut emissions = 0;
    let mut warnings = Vec::new();
    for cycle in 1..=5u64 {
        let out = monitor.offer_png(false, noise(100 * 1024), cycle * 500);
        if let PollOutcome::Emitted(_) = out.outcome {
            emissions += 1;
        }
        if cycle == 1 {
            assert_eq!(out.outcome, PollOutcome::Oversized { size: 102_400 });
            warnings = out.events;
        }
    }
    assert_eq!(emissions, 0);
    assert_eq!(warnings, vec![log(Level::Warn, "skip oversized image size=102400 limit=64KB")]);
    let fits = monitor.offer_png(false, noise(64 * 1024), 3_000);
    assert!(matches!(fits.outcome, PollOutcome::Emitted(_)));
}

#[test]
fn image_reading_keeps_bytes_and_size() {
    assert_eq!(
        image_reading(vec![1, 2, 3, 4], 1, 1),
        Some(ClipboardContent::Image { bytes: vec![1, 2, 3, 4], width: 1, height: 1 })
    );
    assert_eq!(
        image_reading(Vec::new(), u32::MAX as usize, 0),
        Some(ClipboardContent::Image { bytes: Vec::new(), width: u32::MAX, height: 0 })
    );
    if usize::BITS > 32 {
        assert_eq!(image_reading(Vec::new(), u32::MAX as usize + 1, 1), None);
        assert_eq!(image_reading(Vec::new(), 1, usize::MAX), None);
    }
}

#[test]
fn image_without_pixels_cannot_be_encoded() {
    assert_eq!(encode_png(Vec::new(), 0, 0), None);
    assert_eq!(encode_png(Vec::new(), 0, 5), None);
}

#[test]
fn pixels_must_fit_the_size() {
    assert!(encode_png(vec![0; 16], 2, 2).is_some());
    assert_eq!(encode_png(vec![0; 15], 2, 2), None);
    assert_eq!(encode_png(vec![0; 17], 2, 2), None);
    assert_eq!(encode_png(vec![0; 16], u32::MAX, u32::MAX), None);
    let mut monitor = Monitor::new("AAA".to_string(), 512, 0);
    let out = monitor.poll(false, ClipboardContent::Image { bytes: vec![0; 3], width: 1, height: 1 }, 500);
    assert_eq!(out.outcome, PollOutcome::EncodeFailed);
    assert!(out.events.is_empty());
}

#[test]
fn png_starts_with_the_png_signature() {
    let png = encode_png(vec![255, 0, 0, 255], 1, 1).unwrap();
    assert_eq!(&png[..8], &[0x89, b'P', b'N', b'G', 0x0d, 0x0a, 0x1a, 0x0a]);
}

#[test]
fn same_image_is_announced_once() {
    let pixels = vec![10, 20, 30, 255, 40, 50, 60, 255];
    let mut monitor = Monitor::new("AAA".to_string(), 512, 0);
    let first = monitor.poll(false, ClipboardContent::Image { bytes: pixels.clone(), width: 2, height: 1 }, 500);
    assert!(matches!(first.outcome, PollOutcome::Emitted(_)));
    let second = monitor.poll(false, ClipboardContent::Image { bytes: pixels, width: 2, height: 1 }, 1_000);
    assert_eq!(second.outcome, PollOutcome::Unchanged);
    let other = monitor.poll(false, ClipboardContent::Image { bytes: vec![1, 2, 3, 255, 4, 5, 6, 255], width: 2, height: 1 }, 1_500);
    assert!(matches!(other.outcome, PollOutcome::Emitted(_)));
}

#[test]
fn poll_takes_text_like_offer_text() {
    let mut monitor = Monitor::new("AAA".to_string(), 512, 0);
    let out = monitor.poll(false, ClipboardContent::Text("hi".to_string()), 400);
    assert_eq!(emitted(out.outcome).payload.data, "hi");
}

#[test]
fn text_payload_is_written_as_it_is() {
    let payload = ClipboardBroadcastPayload { content_type: "text/plain".to_string(), data: " T \u{1f600}\n".to_string() };
    assert_eq!(plan_apply(payload), Ok(ApplyAction::WriteText(" T \u{1f600}\n".to_string())));
}

#[test]
fn pixels_survive_monitor_base64_and_applier() {
    let pixels: Vec<u8> = vec![
        255, 0, 0, 255, 0, 255, 0, 128, 0, 0, 255, 0, 12, 34, 56, 78, 9, 8, 7, 6, 250, 251, 252, 253,
    ];
    let mut monitor = Monitor::new("AAA".to_string(), 512, 0);
    let out = monitor.poll(false, ClipboardContent::Image { bytes: pixels.clone(), width: 3, height: 2 }, 500);
    let update = emitted(out.outcome);
    let payload = ClipboardBroadcastPayload { content_type: update.payload.content_type, data: update.payload.data };
    assert_eq!(plan_apply(payload), Ok(ApplyAction::WriteImage { width: 3, height: 2, pixels }));
}

#[test]
fn faulty_image_payloads_are_told_apart() {
    let not_base64 = ClipboardBroadcastPayload { content_type: "image/png".to_string(), data: "***".to_string() };
    assert_eq!(plan_apply(not_base64), Err(ApplyError::BadBase64));
    let not_an_image = ClipboardBroadcastPayload { content_type: "image/png".to_string(), data: "aGVsbG8=".to_string() };
    assert_eq!(plan_apply(not_an_image), Err(ApplyError::BadImage));
    let unknown = ClipboardBroadcastPayload { content_type: "text".to_string(), data: "x".to_string() };
    assert_eq!(plan_apply(unknown), Err(ApplyError::UnknownType("text".to_string())));
}

#[test]
fn applier_sets_the_flag_around_the_write() {
    let mut applier = Applier::new();
    assert!(!applier.suppressing);
    let start = applier.begin(ClipboardBroadcastPayload { content_type: "text/plain".to_string(), data: "x".to_string() });
    assert!(start.events.is_empty());
    assert_eq!(start.action, Some(ApplyAction::WriteText("x".to_string())));
    assert!(applier.suppressing);
    let done = applier.finish(None);
    assert!(!applier.suppressing);
    assert_eq!(
        done,
        vec![
            RuntimeEvent::ClipboardReceived { content_type: "text/plain".to_string() },
            log(Level::Info, "applied remote clipboard: text/plain"),
        ]
    );
}

#[test]
fn applier_clears_the_flag_when_the_write_fails() {
    let mut applier = Applier::new();
    applier.begin(ClipboardBroadcastPayload { content_type: "text/plain".to_string(), data: "x".to_string() });
    let done = applier.finish(Some("clipboard is busy".to_string()));
    assert!(!applier.suppressing);
    assert_eq!(done, vec![log(Level::Error, "setting clipboard failed: clipboard is busy")]);
}

#[test]
fn applier_drops_what_it_cannot_write() {
    let mut applier = Applier::new();
    let start = applier.begin(ClipboardBroadcastPayload { content_type: "video/mp4".to_string(), data: "x".to_string() });
    assert_eq!(start.action, None);
    assert_eq!(start.events, vec![log(Level::Warn, "received clipboard of unknown type: video/mp4")]);
    assert!(!applier.suppressing);
    let start = applier.begin(ClipboardBroadcastPayload { content_type: "image/png".to_string(), data: "%%%".to_string() });
    assert_eq!(start.action, None);
    assert_eq!(start.events, vec![log(Level::Error, "setting image clipboard failed: base64 decoding failed")]);
    let start = applier.begin(ClipboardBroadcastPayload { content_type: "image/png".to_string(), data: "AAAA".to_string() });
    assert_eq!(start.events, vec![log(Level::Error, "setting image clipboard failed: PNG decoding failed")]);
    assert!(!applier.suppressing);
}
