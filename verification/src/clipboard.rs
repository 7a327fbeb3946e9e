//! The clipboard monitor and the clipboard applier.
//!
//! The monitor decides, for each reading of the local clipboard, whether it
//! is announced to the other devices. The applier decides what is written to
//! the local clipboard for each payload that arrives. Reading and writing the
//! system clipboard is the embedder's part.
//!
//! PNG coding is done by the `image` crate and base64 by the `base64` crate,
//! through the four private wrappers at the end of this file. What they
//! return is named, not proved.

use vstd::prelude::*;
use vstd::string::*;
use vstd::utf8::encode_utf8;
use crate::config::{clamp_image_kb, clamped_image_kb, MAX_IMAGE_KB, MIN_IMAGE_KB};
use crate::events::{
    emit, events_view, log_event, log_line, log_view, no_events, Level, RuntimeEvent,
    RuntimeEventView,
};
use crate::json::{decimal_text, push_decimal};
use crate::messages::{
    update_of, ClipboardBroadcastPayload, ClipboardBroadcastPayloadView, ClipboardUpdate,
    ClipboardUpdateView, CONTENT_TYPE_IMAGE_PNG, CONTENT_TYPE_TEXT,
};
use crate::text::{concat2, owned, str_eq};

verus! {

/// Milliseconds between two readings of the clipboard.
pub const MONITOR_INTERVAL_MS: u64 = 500;

/// Least time between two announcements, in milliseconds.
pub const MIN_BROADCAST_INTERVAL_MS: u64 = 400;

/// The PNG file that the `image` crate writes for RGBA pixels of the given
/// size; `None` where it reports an error.
pub uninterp spec fn png_encoded(pixels: Seq<u8>, width: u32, height: u32) -> Option<Seq<u8>>;

/// Width, height and RGBA pixels that the `image` crate reads from an image
/// file; `None` where it reports an error.
pub uninterp spec fn image_decoded(file: Seq<u8>) -> Option<(u32, u32, Seq<u8>)>;

/// The base64 text, standard alphabet with padding, that the `base64` crate
/// writes for `bytes`.
pub uninterp spec fn base64_text(bytes: Seq<u8>) -> Seq<char>;

/// The bytes that the `base64` crate reads from base64 text; `None` where it
/// reports an error.
pub uninterp spec fn base64_bytes(text: Seq<char>) -> Option<Seq<u8>>;

/// Start value of the 64-bit FNV-1a hash.
pub const FNV_OFFSET: u64 = 0xcbf29ce484222325;

/// Multiplier of the 64-bit FNV-1a hash.
pub const FNV_PRIME: u64 = 0x100000001b3;

/// One round of FNV-1a: the byte is mixed in, then the state is multiplied,
/// modulo 2^64.
pub open spec fn fnv1a_round(h: u64, b: u8) -> u64 {
    (((h ^ (b as u64)) as nat * FNV_PRIME as nat) % 0x1_0000_0000_0000_0000nat) as u64
}

/// The 64-bit FNV-1a hash of `bytes`.
pub open spec fn fnv1a(bytes: Seq<u8>) -> u64
    decreases bytes.len(),
{
    if bytes.len() == 0 {
        FNV_OFFSET
    } else {
        fnv1a_round(fnv1a(bytes.drop_last()), bytes.last())
    }
}

/// Computes the 64-bit FNV-1a hash of `bytes`.
pub fn hash_bytes(bytes: &[u8]) -> (r: u64)
    ensures
        r == fnv1a(bytes@),
{
    let mut h: u64 = FNV_OFFSET;
    let mut i: usize = 0;
    while i < bytes.len()
        invariant
            i <= bytes@.len(),
            h == fnv1a(bytes@.take(i as int)),
        decreases bytes@.len() - i,
    {
        assert(bytes@.take(i as int + 1).drop_last() =~= bytes@.take(i as int));
        h = (h ^ (bytes[i] as u64)).wrapping_mul(FNV_PRIME);
        i += 1;
    }
    assert(bytes@.take(i as int) =~= bytes@);
    h
}

/// What the system clipboard held at one reading.
#[derive(Debug, PartialEq, Eq)]
pub enum ClipboardContent {
    Text(String),
    /// RGBA pixels, row by row.
    Image { bytes: Vec<u8>, width: u32, height: u32 },
}

/// Makes a reading of an image as the system clipboard hands it out; none
/// where a side does not fit 32 bits.
pub fn image_reading(bytes: Vec<u8>, width: usize, height: usize) -> (r: Option<ClipboardContent>)
    ensures
        r is Some <==> width <= u32::MAX && height <= u32::MAX,
        r matches Some(content) ==> content matches ClipboardContent::Image {
            bytes: b,
            width: w,
            height: h,
        } && b@ == bytes@ && w == width && h == height,
{
    if width <= u32::MAX as usize && height <= u32::MAX as usize {
        Some(ClipboardContent::Image { bytes, width: width as u32, height: height as u32 })
    } else {
        None
    }
}

/// Bytes of an RGBA image of the given size: four for each pixel.
pub open spec fn rgba_len(width: u32, height: u32) -> int {
    4 * (width * height)
}

/// The PNG file for a clipboard image: none unless there are exactly four
/// bytes for each pixel.
pub open spec fn png_of(pixels: Seq<u8>, width: u32, height: u32) -> Option<Seq<u8>> {
    if pixels.len() == rgba_len(width, height) {
        png_encoded(pixels, width, height)
    } else {
        None
    }
}

/// Encodes RGBA pixels as a PNG file. `None` where the number of bytes does
/// not fit the size, or the encoder fails.
pub fn encode_png(bytes: Vec<u8>, width: u32, height: u32) -> (r: Option<Vec<u8>>)
    ensures
        match r {
            Some(png) => png_of(bytes@, width, height) == Some(png@),
            None => png_of(bytes@, width, height) is None,
        },
{
    assert((width as u128) * (height as u128) <= 0xffff_ffff * 0xffff_ffff) by (nonlinear_arith)
        requires
            width <= 0xffff_ffff,
            height <= 0xffff_ffff,
    ;
    let pixel_count: u128 = (width as u128) * (height as u128);
    let expected: u128 = 4 * pixel_count;
    if bytes.len() as u128 != expected {
        return None;
    }
    encode_rgba_png(bytes, width, height)
}

/// The monitor's memory between two readings.
pub struct MonitorView {
    pub device_id: Seq<char>,
    /// Largest PNG that is announced, in KiB.
    pub max_image_kb: u64,
    /// The text announced last.
    pub last_text: Seq<char>,
    /// Hash of the PNG announced last.
    pub last_image_hash: Option<u64>,
    /// Time of the last announcement, or of the start.
    pub last_send_ms: u64,
}

/// What became of one reading.
#[derive(Debug, PartialEq, Eq)]
pub enum PollOutcome {
    /// The suppression flag was set: nothing was looked at.
    Suppressed,
    /// The last announcement is too recent: nothing was looked at.
    RateLimited,
    /// Empty text, or the content announced last.
    Unchanged,
    /// A PNG over the limit; carries its size in bytes.
    Oversized { size: u64 },
    /// The pixels could not be encoded.
    EncodeFailed,
    /// A change; carries the update to broadcast.
    Emitted(ClipboardUpdate),
}

pub enum PollOutcomeView {
    Suppressed,
    RateLimited,
    Unchanged,
    Oversized { size: u64 },
    EncodeFailed,
    Emitted(ClipboardUpdateView),
}

impl View for PollOutcome {
    type V = PollOutcomeView;

    open spec fn view(&self) -> PollOutcomeView {
        match self {
            PollOutcome::Suppressed => PollOutcomeView::Suppressed,
            PollOutcome::RateLimited => PollOutcomeView::RateLimited,
            PollOutcome::Unchanged => PollOutcomeView::Unchanged,
            PollOutcome::Oversized { size } => PollOutcomeView::Oversized { size: *size },
            PollOutcome::EncodeFailed => PollOutcomeView::EncodeFailed,
            PollOutcome::Emitted(u) => PollOutcomeView::Emitted(u@),
        }
    }
}

/// The answer to one reading.
#[derive(Debug, PartialEq, Eq)]
pub struct PollOutput {
    pub outcome: PollOutcome,
    /// Events to publish, in order.
    pub events: Vec<RuntimeEvent>,
}

pub struct PollOutputView {
    pub outcome: PollOutcomeView,
    pub events: Seq<RuntimeEventView>,
}

impl View for PollOutput {
    type V = PollOutputView;

    open spec fn view(&self) -> PollOutputView {
        PollOutputView { outcome: self.outcome@, events: events_view(self.events@) }
    }
}

/// The monitor as it starts at `now_ms`: nothing announced yet, the image
/// limit brought into its range.
pub open spec fn monitor_start(device_id: Seq<char>, max_image_kb: u64, now_ms: u64) -> MonitorView {
    MonitorView {
        device_id,
        max_image_kb: clamped_image_kb(max_image_kb as int) as u64,
        last_text: Seq::empty(),
        last_image_hash: None,
        last_send_ms: now_ms,
    }
}

/// Whether an announcement may be made at `now_ms`.
pub open spec fn rate_open(s: MonitorView, now_ms: u64) -> bool {
    now_ms - s.last_send_ms >= MIN_BROADCAST_INTERVAL_MS
}

/// An answer without events.
pub open spec fn silent(outcome: PollOutcomeView) -> PollOutputView {
    PollOutputView { outcome, events: Seq::empty() }
}

/// What stops a reading before its content is looked at: the suppression
/// flag, then the rate limit.
pub open spec fn gate(s: MonitorView, suppressed: bool, now_ms: u64) -> Option<PollOutcomeView> {
    if suppressed {
        Some(PollOutcomeView::Suppressed)
    } else if !rate_open(s, now_ms) {
        Some(PollOutcomeView::RateLimited)
    } else {
        None
    }
}

/// A reading of text. It is announced if no gate is closed, it is not empty
/// and it differs from the text announced last.
pub open spec fn text_step(s: MonitorView, suppressed: bool, text: Seq<char>, now_ms: u64) -> (
    MonitorView,
    PollOutputView,
) {
    match gate(s, suppressed, now_ms) {
        Some(outcome) => (s, silent(outcome)),
        None => if text.len() == 0 || text == s.last_text {
            (s, silent(PollOutcomeView::Unchanged))
        } else {
            (
                MonitorView { last_text: text, last_send_ms: now_ms, ..s },
                PollOutputView {
                    outcome: PollOutcomeView::Emitted(
                        update_of(CONTENT_TYPE_TEXT@, text, s.device_id),
                    ),
                    events: seq![
                        log_view(
                            Level::Info,
                            "text clipboard update detected len="@ + decimal_text(
                                encode_utf8(text).len(),
                            ),
                        ),
                        RuntimeEventView::ClipboardSent { content_type: CONTENT_TYPE_TEXT@ },
                    ],
                },
            )
        },
    }
}

/// Whether a PNG is over the monitor's limit.
pub open spec fn oversized(s: MonitorView, png: Seq<u8>) -> bool {
    png.len() > s.max_image_kb * 1024
}

/// A reading of an image, as its PNG file. It is announced, in base64, if no
/// gate is closed, it is within the size limit and its hash differs from that
/// of the image announced last. An image over the limit is dropped with a
/// warning and leaves no trace.
pub open spec fn png_step(s: MonitorView, suppressed: bool, png: Seq<u8>, now_ms: u64) -> (
    MonitorView,
    PollOutputView,
) {
    match gate(s, suppressed, now_ms) {
        Some(outcome) => (s, silent(outcome)),
        None => if oversized(s, png) {
            (
                s,
                PollOutputView {
                    outcome: PollOutcomeView::Oversized { size: png.len() as u64 },
                    events: seq![
                        log_view(
                            Level::Warn,
                            "skip oversized image size="@ + decimal_text(png.len()) + " limit="@
                                + decimal_text(s.max_image_kb as nat) + "KB"@,
                        ),
                    ],
                },
            )
        } else if s.last_image_hash == Some(fnv1a(png)) {
            (s, silent(PollOutcomeView::Unchanged))
        } else {
            (
                MonitorView { last_image_hash: Some(fnv1a(png)), last_send_ms: now_ms, ..s },
                PollOutputView {
                    outcome: PollOutcomeView::Emitted(
                        update_of(CONTENT_TYPE_IMAGE_PNG@, base64_text(png), s.device_id),
                    ),
                    events: seq![
                        log_view(
                            Level::Info,
                            "image clipboard update detected size="@ + decimal_text(png.len())
                                + " bytes"@,
                        ),
                        RuntimeEventView::ClipboardSent { content_type: CONTENT_TYPE_IMAGE_PNG@ },
                    ],
                },
            )
        },
    }
}

/// A reading of pixels: they are encoded as PNG unless a gate is closed.
pub open spec fn pixels_step(
    s: MonitorView,
    suppressed: bool,
    pixels: Seq<u8>,
    width: u32,
    height: u32,
    now_ms: u64,
) -> (MonitorView, PollOutputView) {
    match gate(s, suppressed, now_ms) {
        Some(outcome) => (s, silent(outcome)),
        None => match png_of(pixels, width, height) {
            Some(png) => png_step(s, suppressed, png, now_ms),
            None => (s, silent(PollOutcomeView::EncodeFailed)),
        },
    }
}

/// The clipboard monitor's memory: what was announced last, and when.
pub struct Monitor {
    device_id: String,
    max_image_kb: u64,
    last_text: String,
    last_image_hash: Option<u64>,
    last_send_ms: u64,
}

impl View for Monitor {
    type V = MonitorView;

    closed spec fn view(&self) -> MonitorView {
        MonitorView {
            device_id: self.device_id@,
            max_image_kb: self.max_image_kb,
            last_text: self.last_text@,
            last_image_hash: self.last_image_hash,
            last_send_ms: self.last_send_ms,
        }
    }
}

impl Monitor {
    #[verifier::type_invariant]
    spec fn limit_in_range(&self) -> bool {
        MIN_IMAGE_KB <= self.max_image_kb <= MAX_IMAGE_KB
    }

    /// A monitor for the session of `device_id`, started at `now_ms`. The
    /// image limit is brought into its range.
    pub fn new(device_id: String, max_image_kb: u64, now_ms: u64) -> (r: Monitor)
        ensures
            r@ == monitor_start(device_id@, max_image_kb, now_ms),
    {
        Monitor {
            device_id,
            max_image_kb: clamp_image_kb(max_image_kb),
            last_text: String::new(),
            last_image_hash: None,
            last_send_ms: now_ms,
        }
    }

    fn gate(&self, suppressed: bool, now_ms: u64) -> (r: Option<PollOutcome>)
        ensures
            match r {
                Some(o) => gate(self@, suppressed, now_ms) == Some(o@),
                None => gate(self@, suppressed, now_ms) is None,
            },
    {
        if suppressed {
            Some(PollOutcome::Suppressed)
        } else if now_ms < self.last_send_ms || now_ms - self.last_send_ms
            < MIN_BROADCAST_INTERVAL_MS {
            Some(PollOutcome::RateLimited)
        } else {
            None
        }
    }

    /// Takes in a reading of text.
    pub fn offer_text(&mut self, suppressed: bool, text: String, now_ms: u64) -> (r: PollOutput)
        ensures
            (final(self)@, r@) == text_step(old(self)@, suppressed, text@, now_ms),
    {
        proof {
            use_type_invariant(&*self);
        }
        if let Some(outcome) = self.gate(suppressed, now_ms) {
            return PollOutput { outcome, events: no_events() };
        }
        if text.as_str().is_empty() || text == self.last_text {
            return PollOutput { outcome: PollOutcome::Unchanged, events: no_events() };
        }
        let mut line = owned("text clipboard update detected len=");
        push_decimal(&mut line, text.as_str().as_bytes().len() as u64);
        let mut events = no_events();
        emit(&mut events, log_event(Level::Info, line));
        emit(&mut events, RuntimeEvent::ClipboardSent { content_type: owned(CONTENT_TYPE_TEXT) });
        assert(events_view(events@) =~= text_step(old(self)@, suppressed, text@, now_ms).1.events);
        let update = ClipboardUpdate::new(CONTENT_TYPE_TEXT, text.clone(), self.device_id.as_str());
        self.last_text = text;
        self.last_send_ms = now_ms;
        PollOutput { outcome: PollOutcome::Emitted(update), events }
    }

    /// Takes in a reading of an image, as its PNG file.
    pub fn offer_png(&mut self, suppressed: bool, png: Vec<u8>, now_ms: u64) -> (r: PollOutput)
        ensures
            (final(self)@, r@) == png_step(old(self)@, suppressed, png@, now_ms),
    {
        proof {
            use_type_invariant(&*self);
        }
        if let Some(outcome) = self.gate(suppressed, now_ms) {
            return PollOutput { outcome, events: no_events() };
        }
        let size: u64 = png.len() as u64;
        if size > self.max_image_kb * 1024 {
            let mut line = owned("skip oversized image size=");
            push_decimal(&mut line, size);
            line.append(" limit=");
            push_decimal(&mut line, self.max_image_kb);
            line.append("KB");
            let mut events = no_events();
            emit(&mut events, log_event(Level::Warn, line));
            assert(events_view(events@) =~= png_step(old(self)@, suppressed, png@, now_ms).1.events);
            return PollOutput { outcome: PollOutcome::Oversized { size }, events };
        }
        let hash = hash_bytes(png.as_slice());
        if self.last_image_hash == Some(hash) {
            return PollOutput { outcome: PollOutcome::Unchanged, events: no_events() };
        }
        let mut line = owned("image clipboard update detected size=");
        push_decimal(&mut line, size);
        line.append(" bytes");
        let mut events = no_events();
        emit(&mut events, log_event(Level::Info, line));
        emit(&mut events, RuntimeEvent::ClipboardSent { content_type: owned(CONTENT_TYPE_IMAGE_PNG) });
        assert(events_view(events@) =~= png_step(old(self)@, suppressed, png@, now_ms).1.events);
        let data = base64_encode(png.as_slice());
        let update = ClipboardUpdate::new(CONTENT_TYPE_IMAGE_PNG, data, self.device_id.as_str());
        self.last_image_hash = Some(hash);
        self.last_send_ms = now_ms;
        PollOutput { outcome: PollOutcome::Emitted(update), events }
    }

    /// Takes in a reading of the system clipboard. `suppressed` is the state
    /// of the suppression flag when the reading began.
    pub fn poll(&mut self, suppressed: bool, content: ClipboardContent, now_ms: u64) -> (r:
        PollOutput)
        ensures
            (final(self)@, r@) == match content {
                ClipboardContent::Text(text) => text_step(old(self)@, suppressed, text@, now_ms),
                ClipboardContent::Image { bytes, width, height } => pixels_step(
                    old(self)@,
                    suppressed,
                    bytes@,
                    width,
                    height,
                    now_ms,
                ),
            },
    {
        match content {
            ClipboardContent::Text(text) => self.offer_text(suppressed, text, now_ms),
            ClipboardContent::Image { bytes, width, height } => {
                if let Some(outcome) = self.gate(suppressed, now_ms) {
                    return PollOutput { outcome, events: no_events() };
                }
                match encode_png(bytes, width, height) {
                    Some(png) => self.offer_png(suppressed, png, now_ms),
                    None => PollOutput { outcome: PollOutcome::EncodeFailed, events: no_events() },
                }
            },
        }
    }
}

/// One reading, as the monitor's rules see it: text, or an image as its PNG
/// file.
pub enum Reading {
    Text(Seq<char>),
    Png(Seq<u8>),
}

/// One cycle of the monitor: the flag, what was read, and when.
pub struct Cycle {
    pub suppressed: bool,
    pub reading: Reading,
    pub now_ms: u64,
}

/// The monitor's step for one cycle.
pub open spec fn cycle_step(s: MonitorView, c: Cycle) -> (MonitorView, PollOutputView) {
    match c.reading {
        Reading::Text(text) => text_step(s, c.suppressed, text, c.now_ms),
        Reading::Png(png) => png_step(s, c.suppressed, png, c.now_ms),
    }
}

/// The monitor after a run of cycles.
pub open spec fn state_after(s: MonitorView, cycles: Seq<Cycle>) -> MonitorView
    decreases cycles.len(),
{
    if cycles.len() == 0 {
        s
    } else {
        cycle_step(state_after(s, cycles.drop_last()), cycles.last()).0
    }
}

/// Whether cycle `i` of a run ends in an announcement.
pub open spec fn announced(s: MonitorView, cycles: Seq<Cycle>, i: int) -> bool
    recommends
        0 <= i < cycles.len(),
{
    cycle_step(state_after(s, cycles.take(i)), cycles[i]).1.outcome is Emitted
}

/// The number of announcements in a run.
pub open spec fn announcements(s: MonitorView, cycles: Seq<Cycle>) -> nat
    decreases cycles.len(),
{
    if cycles.len() == 0 {
        0
    } else {
        announcements(s, cycles.drop_last()) + if announced(s, cycles, cycles.len() - 1) {
            1nat
        } else {
            0nat
        }
    }
}

/// Whether the monitor remembers `reading` as the content announced last.
pub open spec fn remembers(s: MonitorView, reading: Reading) -> bool {
    match reading {
        Reading::Text(text) => s.last_text == text,
        Reading::Png(png) => s.last_image_hash == Some(fnv1a(png)),
    }
}

/// While the suppression flag is set, no reading is announced and none
/// changes what the monitor remembers.
pub proof fn lemma_suppressed_is_silent(s: MonitorView, reading: Reading, now_ms: u64)
    ensures
        cycle_step(s, Cycle { suppressed: true, reading, now_ms }) == (
            s,
            silent(PollOutcomeView::Suppressed),
        ),
{
}

/// An announcement is made only when the last one is at least
/// [`MIN_BROADCAST_INTERVAL_MS`] old, and it becomes the last one.
pub proof fn lemma_announcement_resets_clock(s: MonitorView, c: Cycle)
    requires
        cycle_step(s, c).1.outcome is Emitted,
    ensures
        c.now_ms - s.last_send_ms >= MIN_BROADCAST_INTERVAL_MS,
        cycle_step(s, c).0.last_send_ms == c.now_ms,
{
}

proof fn lemma_clock_after(s: MonitorView, cycles: Seq<Cycle>, i: int, k: int)
    requires
        0 <= i < k <= cycles.len(),
        announced(s, cycles, i),
    ensures
        state_after(s, cycles.take(k)).last_send_ms >= cycles[i].now_ms,
    decreases k - i,
{
    let before = state_after(s, cycles.take(k - 1));
    assert(cycles.take(k).drop_last() =~= cycles.take(k - 1));
    assert(cycles.take(k).last() == cycles[k - 1]);
    if k == i + 1 {
        lemma_announcement_resets_clock(before, cycles[i]);
    } else {
        lemma_clock_after(s, cycles, i, k - 1);
    }
}

/// Rate limit: any two announcements of a run are at least
/// [`MIN_BROADCAST_INTERVAL_MS`] apart, whatever was read in between.
pub proof fn lemma_rate_limit(s: MonitorView, cycles: Seq<Cycle>, i: int, j: int)
    requires
        0 <= i < j < cycles.len(),
        announced(s, cycles, i),
        announced(s, cycles, j),
    ensures
        cycles[j].now_ms - cycles[i].now_ms >= MIN_BROADCAST_INTERVAL_MS,
{
    lemma_clock_after(s, cycles, i, j);
    lemma_announcement_resets_clock(state_after(s, cycles.take(j)), cycles[j]);
}

/// Deduplication: a run of cycles that all read the same content, be it text
/// or an image, announces it at most once. The monitor remembers it from the
/// first announcement on.
pub proof fn lemma_same_content_announced_once(s: MonitorView, cycles: Seq<Cycle>, reading: Reading)
    requires
        forall|i: int| 0 <= i < cycles.len() ==> (#[trigger] cycles[i]).reading == reading,
    ensures
        announcements(s, cycles) <= 1,
        announcements(s, cycles) == 1 ==> remembers(state_after(s, cycles), reading),
        remembers(s, reading) ==> announcements(s, cycles) == 0 && remembers(
            state_after(s, cycles),
            reading,
        ),
    decreases cycles.len(),
{
    if cycles.len() > 0 {
        let front = cycles.drop_last();
        assert forall|i: int| 0 <= i < front.len() implies (#[trigger] front[i]).reading
            == reading by {
            assert(front[i] == cycles[i]);
        }
        lemma_same_content_announced_once(s, front, reading);
        assert(cycles.take(cycles.len() - 1) =~= front);
        assert(cycles.last().reading == reading);
    }
}

/// Deduplication, for two readings: new text, read when no gate is closed,
/// is announced as it is under this device's id; read again at any later
/// time, it is not announced again.
pub proof fn lemma_new_text_announced_once(
    s: MonitorView,
    text: Seq<char>,
    now_ms: u64,
    later_suppressed: bool,
    later_ms: u64,
)
    requires
        text.len() > 0,
        rate_open(s, now_ms),
        !remembers(s, Reading::Text(text)),
    ensures
        text_step(s, false, text, now_ms).1.outcome == PollOutcomeView::Emitted(
            update_of(CONTENT_TYPE_TEXT@, text, s.device_id),
        ),
        !(text_step(text_step(s, false, text, now_ms).0, later_suppressed, text, later_ms).1.outcome
            is Emitted),
{
}

/// Image size policy, first half: a PNG over the limit is never announced,
/// and the monitor forgets it at once.
pub proof fn lemma_oversized_image_dropped(
    s: MonitorView,
    suppressed: bool,
    png: Seq<u8>,
    now_ms: u64,
)
    requires
        oversized(s, png),
    ensures
        png_step(s, suppressed, png, now_ms).0 == s,
        !(png_step(s, suppressed, png, now_ms).1.outcome is Emitted),
{
}

/// Image size policy, second half: a new PNG within the limit, read when no
/// gate is closed, is announced in base64 under this device's id; read again
/// at any later time, it is not announced again.
pub proof fn lemma_fitting_image_announced_once(
    s: MonitorView,
    png: Seq<u8>,
    now_ms: u64,
    later_suppressed: bool,
    later_ms: u64,
)
    requires
        !oversized(s, png),
        rate_open(s, now_ms),
        !remembers(s, Reading::Png(png)),
    ensures
        png_step(s, false, png, now_ms).1.outcome == PollOutcomeView::Emitted(
            update_of(CONTENT_TYPE_IMAGE_PNG@, base64_text(png), s.device_id),
        ),
        !(png_step(png_step(s, false, png, now_ms).0, later_suppressed, png, later_ms).1.outcome
            is Emitted),
{
}

/// What is written to the system clipboard.
#[derive(Debug, PartialEq, Eq)]
pub enum ApplyAction {
    WriteText(String),
    /// RGBA pixels, row by row.
    WriteImage { width: u32, height: u32, pixels: Vec<u8> },
}

pub enum ApplyActionView {
    WriteText(Seq<char>),
    WriteImage { width: u32, height: u32, pixels: Seq<u8> },
}

impl View for ApplyAction {
    type V = ApplyActionView;

    open spec fn view(&self) -> ApplyActionView {
        match self {
            ApplyAction::WriteText(t) => ApplyActionView::WriteText(t@),
            ApplyAction::WriteImage { width, height, pixels } => ApplyActionView::WriteImage {
                width: *width,
                height: *height,
                pixels: pixels@,
            },
        }
    }
}

/// Why a payload is not written.
#[derive(Debug, PartialEq, Eq)]
pub enum ApplyError {
    /// The data of an image is not base64.
    BadBase64,
    /// The bytes of an image are no image file.
    BadImage,
    /// Neither text nor PNG; carries the content type.
    UnknownType(String),
}

pub enum ApplyErrorView {
    BadBase64,
    BadImage,
    UnknownType(Seq<char>),
}

impl View for ApplyError {
    type V = ApplyErrorView;

    open spec fn view(&self) -> ApplyErrorView {
        match self {
            ApplyError::BadBase64 => ApplyErrorView::BadBase64,
            ApplyError::BadImage => ApplyErrorView::BadImage,
            ApplyError::UnknownType(t) => ApplyErrorView::UnknownType(t@),
        }
    }
}

/// What a payload asks to be written. Text goes as it is. An image is
/// decoded from base64, then from its file format to RGBA pixels.
pub open spec fn apply_plan_of(p: ClipboardBroadcastPayloadView) -> Result<
    ApplyActionView,
    ApplyErrorView,
> {
    if p.content_type == CONTENT_TYPE_TEXT@ {
        Ok(ApplyActionView::WriteText(p.data))
    } else if p.content_type == CONTENT_TYPE_IMAGE_PNG@ {
        match base64_bytes(p.data) {
            None => Err(ApplyErrorView::BadBase64),
            Some(file) => match image_decoded(file) {
                None => Err(ApplyErrorView::BadImage),
                Some((width, height, pixels)) => Ok(
                    ApplyActionView::WriteImage { width, height, pixels },
                ),
            },
        }
    } else {
        Err(ApplyErrorView::UnknownType(p.content_type))
    }
}

/// `r` is `expected`.
pub open spec fn plan_matches(
    r: Result<ApplyAction, ApplyError>,
    expected: Result<ApplyActionView, ApplyErrorView>,
) -> bool {
    match r {
        Ok(a) => expected == Ok::<ApplyActionView, ApplyErrorView>(a@),
        Err(e) => expected == Err::<ApplyActionView, ApplyErrorView>(e@),
    }
}

/// Decides what to write for a payload.
pub fn plan_apply(payload: ClipboardBroadcastPayload) -> (r: Result<ApplyAction, ApplyError>)
    ensures
        plan_matches(r, apply_plan_of(payload@)),
{
    if str_eq(payload.content_type.as_str(), CONTENT_TYPE_TEXT) {
        Ok(ApplyAction::WriteText(payload.data))
    } else if str_eq(payload.content_type.as_str(), CONTENT_TYPE_IMAGE_PNG) {
        match base64_decode(payload.data.as_str()) {
            None => Err(ApplyError::BadBase64),
            Some(file) => match decode_image_rgba(file.as_slice()) {
                None => Err(ApplyError::BadImage),
                Some((width, height, pixels)) => Ok(
                    ApplyAction::WriteImage { width, height, pixels },
                ),
            },
        }
    } else {
        Err(ApplyError::UnknownType(payload.content_type))
    }
}

/// The applier between two payloads, or in the middle of a write.
#[derive(Debug, PartialEq, Eq)]
pub struct Applier {
    /// The suppression flag: true from just before a write until it returns.
    pub suppressing: bool,
    /// Content type of the write under way.
    pub content_type: String,
}

pub struct ApplierView {
    pub suppressing: bool,
    pub content_type: Seq<char>,
}

impl View for Applier {
    type V = ApplierView;

    open spec fn view(&self) -> ApplierView {
        ApplierView { suppressing: self.suppressing, content_type: self.content_type@ }
    }
}

/// The answer to a payload.
#[derive(Debug, PartialEq, Eq)]
pub struct ApplyStart {
    pub events: Vec<RuntimeEvent>,
    /// The write to perform; none where the payload is dropped.
    pub action: Option<ApplyAction>,
}

pub struct ApplyStartView {
    pub events: Seq<RuntimeEventView>,
    pub action: Option<ApplyActionView>,
}

impl View for ApplyStart {
    type V = ApplyStartView;

    open spec fn view(&self) -> ApplyStartView {
        ApplyStartView {
            events: events_view(self.events@),
            action: match self.action {
                Some(a) => Some(a@),
                None => None,
            },
        }
    }
}

/// The log line for a payload that is dropped.
pub open spec fn dropped_event(e: ApplyErrorView) -> RuntimeEventView {
    match e {
        ApplyErrorView::BadBase64 => log_view(
            Level::Error,
            "setting image clipboard failed: base64 decoding failed"@,
        ),
        ApplyErrorView::BadImage => log_view(
            Level::Error,
            "setting image clipboard failed: PNG decoding failed"@,
        ),
        ApplyErrorView::UnknownType(t) => log_view(
            Level::Warn,
            "received clipboard of unknown type: "@ + t,
        ),
    }
}

/// A payload arrives. Where there is something to write, the suppression
/// flag is set and the write is handed out; where not, the payload is dropped
/// with a log line and the flag stays as it is.
pub open spec fn applier_begin(s: ApplierView, p: ClipboardBroadcastPayloadView) -> (
    ApplierView,
    ApplyStartView,
) {
    match apply_plan_of(p) {
        Ok(action) => (
            ApplierView { suppressing: true, content_type: p.content_type },
            ApplyStartView { events: Seq::empty(), action: Some(action) },
        ),
        Err(e) => (s, ApplyStartView { events: seq![dropped_event(e)], action: None }),
    }
}

/// The write returns, with the system's message where it failed. The
/// suppression flag is cleared either way.
pub open spec fn applier_finish(s: ApplierView, failure: Option<Seq<char>>) -> (
    ApplierView,
    Seq<RuntimeEventView>,
) {
    (
        ApplierView { suppressing: false, ..s },
        match failure {
            None => seq![
                RuntimeEventView::ClipboardReceived { content_type: s.content_type },
                log_view(Level::Info, "applied remote clipboard: "@ + s.content_type),
            ],
            Some(m) => seq![log_view(Level::Error, "setting clipboard failed: "@ + m)],
        },
    )
}

impl Applier {
    /// An applier with the suppression flag clear.
    pub fn new() -> (r: Applier)
        ensures
            r@ == (ApplierView { suppressing: false, content_type: Seq::empty() }),
    {
        Applier { suppressing: false, content_type: String::new() }
    }

    /// Takes in a payload and hands out the write, if any.
    pub fn begin(&mut self, payload: ClipboardBroadcastPayload) -> (r: ApplyStart)
        ensures
            (final(self)@, r@) == applier_begin(old(self)@, payload@),
            r.action is Some ==> final(self).suppressing,
    {
        let content_type = payload.content_type.clone();
        match plan_apply(payload) {
            Ok(action) => {
                self.suppressing = true;
                self.content_type = content_type;
                ApplyStart { events: no_events(), action: Some(action) }
            },
            Err(e) => {
                let event = match &e {
                    ApplyError::BadBase64 => log_line(
                        Level::Error,
                        "setting image clipboard failed: base64 decoding failed",
                    ),
                    ApplyError::BadImage => log_line(
                        Level::Error,
                        "setting image clipboard failed: PNG decoding failed",
                    ),
                    ApplyError::UnknownType(t) => log_event(
                        Level::Warn,
                        concat2("received clipboard of unknown type: ", t.as_str()),
                    ),
                };
                let mut events = no_events();
                emit(&mut events, event);
                assert(events_view(events@) =~= seq![dropped_event(e@)]);
                ApplyStart { events, action: None }
            },
        }
    }

    /// Takes in the outcome of the write: `None` for success, else the
    /// system's message. Clears the suppression flag in either case.
    pub fn finish(&mut self, failure: Option<String>) -> (r: Vec<RuntimeEvent>)
        ensures
            (final(self)@, events_view(r@)) == applier_finish(
                old(self)@,
                match failure {
                    Some(m) => Some(m@),
                    None => None,
                },
            ),
            !final(self).suppressing,
    {
        self.suppressing = false;
        let mut events = no_events();
        match failure {
            None => {
                emit(&mut events, RuntimeEvent::ClipboardReceived { content_type: self.content_type.clone() });
                emit(&mut events, log_event(Level::Info, concat2("applied remote clipboard: ", self.content_type.as_str())));
                assert(events_view(events@) =~= seq![
                    RuntimeEventView::ClipboardReceived { content_type: self.content_type@ },
                    log_view(Level::Info, "applied remote clipboard: "@ + self.content_type@),
                ]);
            },
            Some(m) => {
                emit(&mut events, log_event(Level::Error, concat2("setting clipboard failed: ", m.as_str())));
                assert(events_view(events@) =~= seq![
                    log_view(Level::Error, "setting clipboard failed: "@ + m@),
                ]);
            },
        }
        events
    }
}

/// No self-echo: from the moment the applier hands out a write until the
/// write has returned, the monitor announces nothing and remembers nothing
/// new, whatever it reads.
pub proof fn lemma_no_echo_during_write(
    a: ApplierView,
    p: ClipboardBroadcastPayloadView,
    m: MonitorView,
    reading: Reading,
    now_ms: u64,
)
    requires
        applier_begin(a, p).1.action is Some,
    ensures
        applier_begin(a, p).0.suppressing,
        cycle_step(
            m,
            Cycle { suppressed: applier_begin(a, p).0.suppressing, reading, now_ms },
        ) == (m, silent(PollOutcomeView::Suppressed)),
{
}

/// Hands RGBA pixels to the `image` crate: `RgbaImage::from_raw`, then
/// `DynamicImage::write_to` with the PNG format into a buffer. The encoder
/// panics on a buffer that is longer than the size asks for, so that is left
/// out. Claims only that the outcome is the one named [`png_encoded`].
#[verifier::external_body]
fn encode_rgba_png(pixels: Vec<u8>, width: u32, height: u32) -> (r: Option<Vec<u8>>)
    requires
        pixels@.len() == rgba_len(width, height),
    ensures
        match r {
            Some(png) => png_encoded(pixels@, width, height) == Some(png@),
            None => png_encoded(pixels@, width, height) is None,
        },
{
    let image = image::RgbaImage::from_raw(width, height, pixels)?;
    let mut out = std::io::Cursor::new(Vec::new());
    image::DynamicImage::ImageRgba8(image).write_to(&mut out, image::ImageFormat::Png).ok()?;
    Some(out.into_inner())
}

/// Hands an image file to the `image` crate: `load_from_memory`, then
/// `to_rgba8`. Claims only that the outcome is the one named
/// [`image_decoded`].
#[verifier::external_body]
fn decode_image_rgba(file: &[u8]) -> (r: Option<(u32, u32, Vec<u8>)>)
    ensures
        match r {
            Some((w, h, pixels)) => image_decoded(file@) == Some((w, h, pixels@)),
            None => image_decoded(file@) is None,
        },
{
    let rgba = image::load_from_memory(file).ok()?.to_rgba8();
    Some((rgba.width(), rgba.height(), rgba.into_raw()))
}

/// Calls `Engine::encode` of the `base64` crate's `STANDARD` engine. It
/// panics where the length of the text would not fit `usize`, so that is left
/// out. Claims only that the result is the text named [`base64_text`].
#[verifier::external_body]
fn base64_encode(bytes: &[u8]) -> (r: String)
    requires
        (bytes@.len() / 3) * 4 + 4 <= usize::MAX,
    ensures
        r@ == base64_text(bytes@),
{
    base64::Engine::encode(&base64::engine::general_purpose::STANDARD, bytes)
}

/// Calls `Engine::decode` of the `base64` crate's `STANDARD` engine and drops
/// the error's detail. Claims only that the outcome is the one named
/// [`base64_bytes`].
#[verifier::external_body]
fn base64_decode(text: &str) -> (r: Option<Vec<u8>>)
    ensures
        match r {
            Some(bytes) => base64_bytes(text@) == Some(bytes@),
            None => base64_bytes(text@) is None,
        },
{
    base64::Engine::decode(&base64::engine::general_purpose::STANDARD, text).ok()
}

} // verus!
