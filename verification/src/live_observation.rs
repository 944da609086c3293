//! The latest-frame feed of one exact window: its status, its fences, and the
//! decisions of its capture loop.

use crate::errors::{ComputerUseError, ComputerUseErrorCode, ComputerUseResult};
#[allow(unused_imports)]
use crate::errors::{fails_with, is_plain_error};
use crate::json::{put_member, Json, JsonMember, JsonNumber};
#[allow(unused_imports)]
use crate::json::{
    object_tree, optional_string, text_or_null, unsigned_or_null, unsigned_tree, JsonTree,
    NumberTree,
};
use crate::text::join3;
use std::sync::Arc;
use vstd::prelude::*;

verus! {

/// How long a first or fresh frame is waited for.
pub const FIRST_FRAME_TIMEOUT_MS: u64 = 3_000;

/// How long a paused capture waits before it tries again.
pub const PAUSE_RETRY_INTERVAL_MS: u64 = 1_000;

/// A boundary in one stream: evidence up to its sequence is spent.
#[derive(Clone, Copy, Debug, PartialEq, Eq, Structural)]
pub struct LiveObservationFence {
    pub stream: u64,
    pub last_sequence: u64,
}

impl LiveObservationFence {
    pub fn new(stream_id: u64, sequence: u64) -> (r: Self)
        ensures
            r == (LiveObservationFence { stream: stream_id, last_sequence: sequence }),
    {
        LiveObservationFence { stream: stream_id, last_sequence: sequence }
    }

    /// The fenced sequence, where the fence is of the given stream.
    pub open spec fn within(self, stream_id: u64) -> Option<u64> {
        if self.stream == stream_id {
            Some(self.last_sequence)
        } else {
            None
        }
    }

    pub fn sequence_for(self, stream_id: u64) -> (r: Option<u64>)
        ensures
            r == self.within(stream_id),
    {
        if self.stream == stream_id {
            Some(self.last_sequence)
        } else {
            None
        }
    }

    pub fn stream_id(self) -> (r: u64)
        ensures
            r == self.stream,
    {
        self.stream
    }
}

/// An optional fence's sequence in the given stream.
pub open spec fn fence_in(fence: Option<LiveObservationFence>, stream_id: u64) -> Option<u64> {
    match fence {
        Some(fence) => fence.within(stream_id),
        None => None,
    }
}

/// The sequence is newer than the optional boundary.
pub open spec fn newer_than(sequence: u64, boundary: Option<u64>) -> bool {
    boundary matches Some(last) ==> sequence > last
}

/// The later of two optional boundaries.
pub open spec fn later_of(a: Option<u64>, b: Option<u64>) -> Option<u64> {
    match (a, b) {
        (Some(x), Some(y)) => Some(
            if x >= y {
                x
            } else {
                y
            },
        ),
        (Some(x), None) => Some(x),
        (None, y) => y,
    }
}

fn later(a: Option<u64>, b: Option<u64>) -> (r: Option<u64>)
    ensures
        r == later_of(a, b),
{
    match (a, b) {
        (Some(x), Some(y)) => Some(
            if x >= y {
                x
            } else {
                y
            },
        ),
        (Some(x), None) => Some(x),
        (None, y) => y,
    }
}

fn boundary_in(fence: Option<LiveObservationFence>, stream_id: u64) -> (r: Option<u64>)
    ensures
        r == fence_in(fence, stream_id),
{
    match fence {
        Some(fence) => fence.sequence_for(stream_id),
        None => None,
    }
}

/// Requires a frame newer than every boundary at which evidence was spent.
/// Fences of other streams do not count.
pub fn observation_sequence_fence(
    stream_id: u64,
    decision: Option<LiveObservationFence>,
    action_completion: Option<LiveObservationFence>,
    transition: Option<LiveObservationFence>,
) -> (r: Option<u64>)
    ensures
        r == later_of(
            later_of(fence_in(decision, stream_id), fence_in(action_completion, stream_id)),
            fence_in(transition, stream_id),
        ),
{
    later(
        later(boundary_in(decision, stream_id), boundary_in(action_completion, stream_id)),
        boundary_in(transition, stream_id),
    )
}

/// A frame passes the joint fence exactly when it is newer than each fence of
/// its stream.
pub proof fn law_joint_fence_is_every_fence(
    stream_id: u64,
    decision: Option<LiveObservationFence>,
    action_completion: Option<LiveObservationFence>,
    transition: Option<LiveObservationFence>,
    sequence: u64,
)
    ensures
        newer_than(
            sequence,
            later_of(
                later_of(fence_in(decision, stream_id), fence_in(action_completion, stream_id)),
                fence_in(transition, stream_id),
            ),
        ) <==> {
            &&& newer_than(sequence, fence_in(decision, stream_id))
            &&& newer_than(sequence, fence_in(action_completion, stream_id))
            &&& newer_than(sequence, fence_in(transition, stream_id))
        },
{
}

/// One captured frame. Times are milliseconds: of the Unix epoch, and of the
/// process's monotonic clock.
#[derive(Debug)]
pub struct LiveObservationFrame {
    pub frame_sequence: u64,
    pub pixels: Vec<u8>,
    pub width: u32,
    pub height: u32,
    pub unix_ms: u64,
    pub monotonic_ms: u64,
}

impl LiveObservationFrame {
    pub fn new(
        sequence: u64,
        bgra: Vec<u8>,
        width: u32,
        height: u32,
        unix_ms: u64,
        monotonic_ms: u64,
    ) -> (r: Self)
        ensures
            r.frame_sequence == sequence,
            r.pixels == bgra,
            r.width == width,
            r.height == height,
            r.unix_ms == unix_ms,
            r.monotonic_ms == monotonic_ms,
    {
        LiveObservationFrame {
            frame_sequence: sequence,
            pixels: bgra,
            width,
            height,
            unix_ms,
            monotonic_ms,
        }
    }

    pub fn sequence(&self) -> (r: u64)
        ensures
            r == self.frame_sequence,
    {
        self.frame_sequence
    }

    pub fn bgra(&self) -> (r: &Vec<u8>)
        ensures
            *r == self.pixels,
    {
        &self.pixels
    }

    pub fn dimensions(&self) -> (r: (u32, u32))
        ensures
            r == (self.width, self.height),
    {
        (self.width, self.height)
    }

    pub fn captured_at_ms(&self) -> (r: u64)
        ensures
            r == self.unix_ms,
    {
        self.unix_ms
    }

    pub fn captured_at(&self) -> (r: u64)
        ensures
            r == self.monotonic_ms,
    {
        self.monotonic_ms
    }

    /// How long ago the frame was captured; never negative.
    pub open spec fn age_at(self, now_ms: u64) -> u64 {
        if now_ms >= self.monotonic_ms {
            (now_ms - self.monotonic_ms) as u64
        } else {
            0
        }
    }

    pub fn age_ms(&self, now_ms: u64) -> (r: u64)
        ensures
            r == self.age_at(now_ms),
    {
        if now_ms >= self.monotonic_ms {
            now_ms - self.monotonic_ms
        } else {
            0
        }
    }
}

/// Compositor timing of one frame, durations in milliseconds.
#[derive(Clone, Debug)]
pub enum CompositorTiming {
    Available { system_relative_time_100ns: i64, compositor_to_publish: u128 },
    Unavailable { reason: &'static str },
}

/// Milliseconds, kept within the range that is reported.
pub open spec fn reported_ms(millis: u128) -> u64 {
    if millis <= u64::MAX {
        millis as u64
    } else {
        u64::MAX
    }
}

pub fn duration_ms(millis: u128) -> (r: u64)
    ensures
        r == reported_ms(millis),
{
    if millis <= 0xffff_ffff_ffff_ffffu128 {
        millis as u64
    } else {
        u64::MAX
    }
}

impl CompositorTiming {
    pub fn unavailable(reason: &'static str) -> (r: Self)
        ensures
            r == (CompositorTiming::Unavailable { reason }),
    {
        CompositorTiming::Unavailable { reason }
    }

    pub open spec fn tree(self) -> JsonTree {
        let start = Map::<Seq<char>, JsonTree>::empty();
        match self {
            CompositorTiming::Available { system_relative_time_100ns, compositor_to_publish } =>
            JsonTree::Object(
                start.insert("status"@, JsonTree::Text("available"@)).insert(
                    "system_relative_time_100ns"@,
                    JsonTree::Number(
                        crate::json::integer_tree(system_relative_time_100ns as int),
                    ),
                ).insert(
                    "compositor_to_publish_ms"@,
                    unsigned_tree(reported_ms(compositor_to_publish)),
                ),
            ),
            CompositorTiming::Unavailable { reason } => JsonTree::Object(
                start.insert("status"@, JsonTree::Text("unavailable"@)).insert(
                    "reason"@,
                    JsonTree::Text(reason@),
                ),
            ),
        }
    }

    pub fn as_json(&self) -> (r: Json)
        ensures
            r.view() == self.tree(),
    {
        let mut members: Vec<JsonMember> = Vec::new();
        match self {
            CompositorTiming::Available { system_relative_time_100ns, compositor_to_publish } => {
                put_member(&mut members, "status", Json::text("available"));
                put_member(
                    &mut members,
                    "system_relative_time_100ns",
                    Json::signed(*system_relative_time_100ns),
                );
                put_member(
                    &mut members,
                    "compositor_to_publish_ms",
                    Json::unsigned(duration_ms(*compositor_to_publish)),
                );
            },
            CompositorTiming::Unavailable { reason } => {
                put_member(&mut members, "status", Json::text("unavailable"));
                put_member(&mut members, "reason", Json::text(reason));
            },
        }
        Json::Object(members)
    }

    /// The publish delay in milliseconds, where it was measured.
    pub open spec fn publish_ms(self) -> Option<u64> {
        match self {
            CompositorTiming::Available { compositor_to_publish, .. } => Some(
                reported_ms(compositor_to_publish),
            ),
            CompositorTiming::Unavailable { .. } => None,
        }
    }

    fn to_publish_ms(&self) -> (r: Option<u64>)
        ensures
            r == self.publish_ms(),
    {
        match self {
            CompositorTiming::Available { compositor_to_publish, .. } => Some(
                duration_ms(*compositor_to_publish),
            ),
            CompositorTiming::Unavailable { .. } => None,
        }
    }
}

/// Split timing of one capture, in milliseconds.
#[derive(Clone, Debug)]
pub struct FrameCaptureMeasurement {
    pub source_wait: Option<u128>,
    pub readback_total: Option<u128>,
    pub gpu_copy_map: Option<u128>,
    pub cpu_copy: Option<u128>,
    pub compositor: CompositorTiming,
}

impl FrameCaptureMeasurement {
    pub fn measured(
        source_wait: u128,
        readback_total: u128,
        gpu_copy_map: u128,
        cpu_copy: u128,
        compositor: CompositorTiming,
    ) -> (r: Self)
        ensures
            r == (FrameCaptureMeasurement {
                source_wait: Some(source_wait),
                readback_total: Some(readback_total),
                gpu_copy_map: Some(gpu_copy_map),
                cpu_copy: Some(cpu_copy),
                compositor,
            }),
    {
        FrameCaptureMeasurement {
            source_wait: Some(source_wait),
            readback_total: Some(readback_total),
            gpu_copy_map: Some(gpu_copy_map),
            cpu_copy: Some(cpu_copy),
            compositor,
        }
    }

    pub fn unavailable(reason: &'static str) -> (r: Self)
        ensures
            r == (FrameCaptureMeasurement {
                source_wait: None,
                readback_total: None,
                gpu_copy_map: None,
                cpu_copy: None,
                compositor: CompositorTiming::Unavailable { reason },
            }),
    {
        FrameCaptureMeasurement {
            source_wait: None,
            readback_total: None,
            gpu_copy_map: None,
            cpu_copy: None,
            compositor: CompositorTiming::unavailable(reason),
        }
    }
}

/// An optional duration as it is reported.
pub open spec fn optional_ms(millis: Option<u128>) -> Option<u64> {
    match millis {
        Some(millis) => Some(reported_ms(millis)),
        None => None,
    }
}

fn to_optional_ms(millis: Option<u128>) -> (r: Option<u64>)
    ensures
        r == optional_ms(millis),
{
    match millis {
        Some(millis) => Some(duration_ms(millis)),
        None => None,
    }
}

pub fn update_optional_max(maximum: &mut Option<u64>, value: Option<u64>)
    ensures
        *final(maximum) == later_of(*old(maximum), value),
{
    *maximum = later(*maximum, value);
}

/// Why capture paused or ended.
#[derive(Clone, Debug)]
pub struct LiveObservationReason {
    pub code: ComputerUseErrorCode,
    pub message: String,
    pub timestamp_ms: u64,
    pub last_sequence: Option<u64>,
}

impl LiveObservationReason {
    /// The reason an error gives at a time, after the latest frame.
    pub open spec fn states(
        self,
        error: ComputerUseError,
        now_ms: u64,
        last_sequence: Option<u64>,
    ) -> bool {
        &&& self.code == error.code
        &&& self.message@ == error.message@
        &&& self.timestamp_ms == now_ms
        &&& self.last_sequence == last_sequence
    }

    pub fn from_error(error: &ComputerUseError, last_sequence: Option<u64>, now_ms: u64) -> (r:
        Self)
        ensures
            r.states(*error, now_ms, last_sequence),
    {
        LiveObservationReason {
            code: error.code,
            message: error.message.clone(),
            timestamp_ms: now_ms,
            last_sequence,
        }
    }

    pub open spec fn tree(self) -> JsonTree {
        JsonTree::Object(
            Map::<Seq<char>, JsonTree>::empty().insert(
                "code"@,
                JsonTree::Text(self.code.wire_text()),
            ).insert("message"@, JsonTree::Text(self.message@)).insert(
                "timestamp_ms"@,
                unsigned_tree(self.timestamp_ms),
            ).insert("last_sequence"@, unsigned_or_null(self.last_sequence)),
        )
    }

    pub fn as_json(&self) -> (r: Json)
        ensures
            r.view() == self.tree(),
    {
        let mut members: Vec<JsonMember> = Vec::new();
        put_member(&mut members, "code", Json::text(self.code.wire_name()));
        put_member(&mut members, "message", Json::text(self.message.as_str()));
        put_member(&mut members, "timestamp_ms", Json::unsigned(self.timestamp_ms));
        put_member(&mut members, "last_sequence", Json::optional_unsigned(self.last_sequence));
        Json::Object(members)
    }

    fn to_error(&self) -> (r: ComputerUseError)
        ensures
            is_plain_error(r, self.code, self.message@),
    {
        ComputerUseError::new(self.code, self.message.as_str())
    }
}

/// A reason's report, or null.
pub open spec fn reason_tree(reason: Option<LiveObservationReason>) -> JsonTree {
    match reason {
        Some(reason) => reason.tree(),
        None => JsonTree::Null,
    }
}

/// The status a feed publishes to its readers.
#[derive(Clone, Debug)]
pub struct LiveObservationStatus {
    pub latest_frame: Option<Arc<LiveObservationFrame>>,
    pub frames_captured: u64,
    pub frames_replaced: u64,
    pub capture_failures: u64,
    pub first_captured_at: Option<u64>,
    pub previous_captured_at: Option<u64>,
    /// Wall time of the whole capture cycle, not a processing latency.
    pub last_capture_duration_ms: Option<u64>,
    pub max_capture_duration_ms: u64,
    pub last_source_wait_ms: Option<u64>,
    pub max_source_wait_ms: Option<u64>,
    pub last_readback_total_ms: Option<u64>,
    pub max_readback_total_ms: Option<u64>,
    pub last_gpu_copy_map_ms: Option<u64>,
    pub max_gpu_copy_map_ms: Option<u64>,
    pub last_cpu_copy_ms: Option<u64>,
    pub max_cpu_copy_ms: Option<u64>,
    pub last_compositor_timing: Option<CompositorTiming>,
    pub max_compositor_to_publish_ms: Option<u64>,
    pub capture_mode: Option<&'static str>,
    pub last_error: Option<String>,
    pub paused_by: Option<LiveObservationReason>,
    pub ended_by: Option<LiveObservationReason>,
}

impl Default for LiveObservationStatus {
    fn default() -> (r: Self)
        ensures
            r.is_initial(),
    {
        LiveObservationStatus {
            latest_frame: None,
            frames_captured: 0,
            frames_replaced: 0,
            capture_failures: 0,
            first_captured_at: None,
            previous_captured_at: None,
            last_capture_duration_ms: None,
            max_capture_duration_ms: 0,
            last_source_wait_ms: None,
            max_source_wait_ms: None,
            last_readback_total_ms: None,
            max_readback_total_ms: None,
            last_gpu_copy_map_ms: None,
            max_gpu_copy_map_ms: None,
            last_cpu_copy_ms: None,
            max_cpu_copy_ms: None,
            last_compositor_timing: None,
            max_compositor_to_publish_ms: None,
            capture_mode: None,
            last_error: None,
            paused_by: None,
            ended_by: None,
        }
    }
}

/// The successor of a counter that stops at its end.
pub open spec fn counted(n: u64) -> u64 {
    if n < u64::MAX {
        (n + 1) as u64
    } else {
        n
    }
}

fn count_up(n: u64) -> (r: u64)
    ensures
        r == counted(n),
{
    if n < u64::MAX {
        n + 1
    } else {
        n
    }
}

/// What a reader waiting for a fresh frame is told.
#[derive(Debug)]
pub enum FrameWait {
    Fail(ComputerUseError),
    Ready(Arc<LiveObservationFrame>),
    KeepWaiting,
}

/// The cadence numbers of a feed by their decimal text.
pub struct LiveCadence {
    pub effective_fps: Option<String>,
    pub recent_effective_fps: Option<String>,
}

/// A number by its decimal text, or null.
pub open spec fn decimal_or_null(text: Option<Seq<char>>) -> JsonTree {
    match text {
        Some(text) => JsonTree::Number(NumberTree::Float(text)),
        None => JsonTree::Null,
    }
}

fn decimal_json(text: &Option<String>) -> (r: Json)
    ensures
        r.view() == decimal_or_null(optional_string(*text)),
{
    match text {
        Some(text) => Json::Number(JsonNumber::Float(text.clone())),
        None => Json::Null,
    }
}

/// What a wait for a frame finds.
pub open spec fn frame_is_awaited(status: LiveObservationStatus, after_sequence: Option<u64>, r: FrameWait) -> bool {
    match (status.ended_by, status.paused_by, status.latest_frame) {
        (Some(reason), _, _) => r matches FrameWait::Fail(error) && is_plain_error(
            error,
            reason.code,
            reason.message@,
        ),
        (None, Some(reason), _) => r matches FrameWait::Fail(error) && is_plain_error(
            error,
            reason.code,
            reason.message@,
        ),
        (None, None, Some(frame)) => if newer_than(frame.frame_sequence, after_sequence) {
            r == FrameWait::Ready(frame)
        } else {
            r == FrameWait::KeepWaiting
        },
        (None, None, None) => r == FrameWait::KeepWaiting,
    }
}

/// The failure of a wait that took too long.
pub open spec fn is_wait_timeout(status: LiveObservationStatus, r: ComputerUseError) -> bool {
    is_plain_error(
        r,
        ComputerUseErrorCode::CaptureFailed,
        match status.last_error {
            Some(message) => message@,
            None => "live observation did not produce a fresh frame before the timeout"@,
        },
    )
}

impl LiveObservationStatus {
    /// Nothing was captured, nothing failed.
    pub open spec fn is_initial(self) -> bool {
        &&& self.latest_frame is None
        &&& self.frames_captured == 0
        &&& self.frames_replaced == 0
        &&& self.capture_failures == 0
        &&& self.first_captured_at is None
        &&& self.previous_captured_at is None
        &&& self.last_capture_duration_ms is None
        &&& self.max_capture_duration_ms == 0
        &&& self.last_source_wait_ms is None
        &&& self.max_source_wait_ms is None
        &&& self.last_readback_total_ms is None
        &&& self.max_readback_total_ms is None
        &&& self.last_gpu_copy_map_ms is None
        &&& self.max_gpu_copy_map_ms is None
        &&& self.last_cpu_copy_ms is None
        &&& self.max_cpu_copy_ms is None
        &&& self.last_compositor_timing is None
        &&& self.max_compositor_to_publish_ms is None
        &&& self.capture_mode is None
        &&& self.last_error is None
        &&& self.paused_by is None
        &&& self.ended_by is None
    }

    /// The counters agree with what was published: every frame but the first
    /// replaced one, until the counters reach their end.
    pub open spec fn consistent(self) -> bool {
        &&& self.latest_frame is Some <==> self.frames_captured > 0
        &&& self.frames_captured == 0 ==> self.frames_replaced == 0
        &&& 0 < self.frames_captured < u64::MAX ==> self.frames_replaced == self.frames_captured - 1
    }

    pub open spec fn latest_sequence(self) -> Option<u64> {
        match self.latest_frame {
            Some(frame) => Some(frame.frame_sequence),
            None => None,
        }
    }

    /// The measurements, counters, and frame of two statuses agree.
    pub open spec fn same_frames(self, other: LiveObservationStatus) -> bool {
        &&& self.latest_frame == other.latest_frame
        &&& self.frames_captured == other.frames_captured
        &&& self.frames_replaced == other.frames_replaced
        &&& self.first_captured_at == other.first_captured_at
        &&& self.previous_captured_at == other.previous_captured_at
        &&& self.last_capture_duration_ms == other.last_capture_duration_ms
        &&& self.max_capture_duration_ms == other.max_capture_duration_ms
        &&& self.last_source_wait_ms == other.last_source_wait_ms
        &&& self.max_source_wait_ms == other.max_source_wait_ms
        &&& self.last_readback_total_ms == other.last_readback_total_ms
        &&& self.max_readback_total_ms == other.max_readback_total_ms
        &&& self.last_gpu_copy_map_ms == other.last_gpu_copy_map_ms
        &&& self.max_gpu_copy_map_ms == other.max_gpu_copy_map_ms
        &&& self.last_cpu_copy_ms == other.last_cpu_copy_ms
        &&& self.max_cpu_copy_ms == other.max_cpu_copy_ms
        &&& self.last_compositor_timing == other.last_compositor_timing
        &&& self.max_compositor_to_publish_ms == other.max_compositor_to_publish_ms
        &&& self.capture_mode == other.capture_mode
    }

    /// `self` is `before` with one more frame published.
    pub open spec fn published(
        self,
        before: LiveObservationStatus,
        frame: LiveObservationFrame,
        capture_duration: u128,
        capture_mode: &'static str,
        measurement: FrameCaptureMeasurement,
    ) -> bool {
        &&& self.latest_frame matches Some(latest) && *latest == frame
        &&& self.frames_captured == counted(before.frames_captured)
        &&& self.frames_replaced == if before.latest_frame is Some {
            counted(before.frames_replaced)
        } else {
            before.frames_replaced
        }
        &&& self.capture_failures == before.capture_failures
        &&& self.first_captured_at == match before.first_captured_at {
            Some(first) => Some(first),
            None => Some(frame.monotonic_ms),
        }
        &&& self.previous_captured_at == Some(frame.monotonic_ms)
        &&& self.last_capture_duration_ms == Some(reported_ms(capture_duration))
        &&& self.max_capture_duration_ms == if before.max_capture_duration_ms >= reported_ms(
            capture_duration,
        ) {
            before.max_capture_duration_ms
        } else {
            reported_ms(capture_duration)
        }
        &&& self.last_source_wait_ms == optional_ms(measurement.source_wait)
        &&& self.max_source_wait_ms == later_of(
            before.max_source_wait_ms,
            optional_ms(measurement.source_wait),
        )
        &&& self.last_readback_total_ms == optional_ms(measurement.readback_total)
        &&& self.max_readback_total_ms == later_of(
            before.max_readback_total_ms,
            optional_ms(measurement.readback_total),
        )
        &&& self.last_gpu_copy_map_ms == optional_ms(measurement.gpu_copy_map)
        &&& self.max_gpu_copy_map_ms == later_of(
            before.max_gpu_copy_map_ms,
            optional_ms(measurement.gpu_copy_map),
        )
        &&& self.last_cpu_copy_ms == optional_ms(measurement.cpu_copy)
        &&& self.max_cpu_copy_ms == later_of(
            before.max_cpu_copy_ms,
            optional_ms(measurement.cpu_copy),
        )
        &&& self.last_compositor_timing == Some(measurement.compositor)
        &&& self.max_compositor_to_publish_ms == later_of(
            before.max_compositor_to_publish_ms,
            measurement.compositor.publish_ms(),
        )
        &&& self.capture_mode == Some(capture_mode)
        &&& self.last_error is None
        &&& self.paused_by is None
        &&& self.ended_by == before.ended_by
    }

    /// `self` is `before` with one more failure counted, under this message.
    pub open spec fn failed_once(self, before: LiveObservationStatus, message: Seq<char>) -> bool {
        &&& self.same_frames(before)
        &&& self.capture_failures == counted(before.capture_failures)
        &&& self.last_error matches Some(text) && text@ == message
    }

    pub fn publish_measured_frame(
        &mut self,
        frame: LiveObservationFrame,
        capture_duration: u128,
        capture_mode: &'static str,
        measurement: FrameCaptureMeasurement,
    )
        ensures
            final(self).published(
                *old(self),
                frame,
                capture_duration,
                capture_mode,
                measurement,
            ),
            old(self).consistent() ==> final(self).consistent(),
    {
        if self.first_captured_at.is_none() {
            self.first_captured_at = Some(frame.monotonic_ms);
        }
        self.previous_captured_at = Some(frame.monotonic_ms);
        let capture_duration_ms: u64 = duration_ms(capture_duration);
        self.last_capture_duration_ms = Some(capture_duration_ms);
        if self.max_capture_duration_ms < capture_duration_ms {
            self.max_capture_duration_ms = capture_duration_ms;
        }
        self.last_source_wait_ms = to_optional_ms(measurement.source_wait);
        self.last_readback_total_ms = to_optional_ms(measurement.readback_total);
        self.last_gpu_copy_map_ms = to_optional_ms(measurement.gpu_copy_map);
        self.last_cpu_copy_ms = to_optional_ms(measurement.cpu_copy);
        update_optional_max(&mut self.max_source_wait_ms, self.last_source_wait_ms);
        update_optional_max(&mut self.max_readback_total_ms, self.last_readback_total_ms);
        update_optional_max(&mut self.max_gpu_copy_map_ms, self.last_gpu_copy_map_ms);
        update_optional_max(&mut self.max_cpu_copy_ms, self.last_cpu_copy_ms);
        update_optional_max(
            &mut self.max_compositor_to_publish_ms,
            measurement.compositor.to_publish_ms(),
        );
        self.last_compositor_timing = Some(measurement.compositor);
        self.capture_mode = Some(capture_mode);
        if self.latest_frame.is_some() {
            self.frames_replaced = count_up(self.frames_replaced);
        }
        self.latest_frame = Some(Arc::new(frame));
        self.frames_captured = count_up(self.frames_captured);
        self.last_error = None;
        self.paused_by = None;
    }

    pub fn publish_frame(
        &mut self,
        frame: LiveObservationFrame,
        capture_duration: u128,
        capture_mode: &'static str,
    )
        ensures
            final(self).published(
                *old(self),
                frame,
                capture_duration,
                capture_mode,
                (FrameCaptureMeasurement {
                    source_wait: None,
                    readback_total: None,
                    gpu_copy_map: None,
                    cpu_copy: None,
                    compositor: CompositorTiming::Unavailable {
                        reason: "capture_mode_does_not_report_split_timing",
                    },
                }),
            ),
            old(self).consistent() ==> final(self).consistent(),
    {
        let measurement = FrameCaptureMeasurement::unavailable(
            "capture_mode_does_not_report_split_timing",
        );
        self.publish_measured_frame(frame, capture_duration, capture_mode, measurement);
    }

    pub fn record_error(&mut self, message: String)
        ensures
            final(self).failed_once(*old(self), message@),
            final(self).paused_by == old(self).paused_by,
            final(self).ended_by == old(self).ended_by,
            old(self).consistent() ==> final(self).consistent(),
    {
        self.capture_failures = count_up(self.capture_failures);
        self.last_error = Some(message);
    }

    /// Records a failure that ends capture, unless it only pauses it.
    pub fn record_terminal_error(&mut self, error: &ComputerUseError, now_ms: u64)
        ensures
            pauses_capture(error.code) ==> final(self).paused(*old(self), *error, now_ms),
            !pauses_capture(error.code) ==> {
                &&& final(self).failed_once(*old(self), error.message@)
                &&& final(self).paused_by is None
                &&& final(self).ended_by matches Some(reason) && reason.states(
                    *error,
                    now_ms,
                    old(self).latest_sequence(),
                )
            },
            old(self).consistent() ==> final(self).consistent(),
    {
        if pause_capture_error(error) {
            self.record_paused_error(error, now_ms);
            return;
        }
        self.record_error(error.message.clone());
        self.paused_by = None;
        let last: Option<u64> = self.latest_frame_sequence();
        self.ended_by = Some(LiveObservationReason::from_error(error, last, now_ms));
    }

    /// `self` is `before` with a pause recorded. An ended capture stays as it
    /// is.
    pub open spec fn paused(
        self,
        before: LiveObservationStatus,
        error: ComputerUseError,
        now_ms: u64,
    ) -> bool {
        if before.ended_by is Some {
            self == before
        } else {
            &&& self.failed_once(before, error.message@)
            &&& self.paused_by matches Some(reason) && reason.states(
                error,
                now_ms,
                before.latest_sequence(),
            )
            &&& self.ended_by is None
        }
    }

    pub fn record_paused_error(&mut self, error: &ComputerUseError, now_ms: u64)
        ensures
            final(self).paused(*old(self), *error, now_ms),
            old(self).consistent() ==> final(self).consistent(),
    {
        if self.ended_by.is_some() {
            return;
        }
        self.record_error(error.message.clone());
        let last: Option<u64> = self.latest_frame_sequence();
        self.paused_by = Some(LiveObservationReason::from_error(error, last, now_ms));
    }

    fn latest_frame_sequence(&self) -> (r: Option<u64>)
        ensures
            r == self.latest_sequence(),
    {
        match &self.latest_frame {
            Some(frame) => Some(frame.frame_sequence),
            None => None,
        }
    }

    pub fn pause_reason(&self) -> (r: Option<Json>)
        ensures
            match r {
                Some(json) => self.paused_by is Some && json.view() == reason_tree(self.paused_by),
                None => self.paused_by is None,
            },
    {
        match &self.paused_by {
            Some(reason) => Some(reason.as_json()),
            None => None,
        }
    }

    pub fn terminal_reason(&self) -> (r: Option<Json>)
        ensures
            match r {
                Some(json) => self.ended_by is Some && json.view() == reason_tree(self.ended_by),
                None => self.ended_by is None,
            },
    {
        match &self.ended_by {
            Some(reason) => Some(reason.as_json()),
            None => None,
        }
    }

    pub fn pause_error(&self) -> (r: Option<ComputerUseError>)
        ensures
            match self.paused_by {
                Some(reason) => r matches Some(error) && is_plain_error(
                    error,
                    reason.code,
                    reason.message@,
                ),
                None => r is None,
            },
    {
        match &self.paused_by {
            Some(reason) => Some(reason.to_error()),
            None => None,
        }
    }

    pub fn terminal_error(&self) -> (r: Option<ComputerUseError>)
        ensures
            match self.ended_by {
                Some(reason) => r matches Some(error) && is_plain_error(
                    error,
                    reason.code,
                    reason.message@,
                ),
                None => r is None,
            },
    {
        match &self.ended_by {
            Some(reason) => Some(reason.to_error()),
            None => None,
        }
    }

    pub fn latest(&self) -> (r: Option<Arc<LiveObservationFrame>>)
        ensures
            r == self.latest_frame,
    {
        match &self.latest_frame {
            Some(frame) => Some(Arc::clone(frame)),
            None => None,
        }
    }

    /// The newest frame's fence in the given stream.
    pub open spec fn fence(self, stream_id: u64) -> Option<LiveObservationFence> {
        match self.latest_frame {
            Some(frame) => Some(
                LiveObservationFence { stream: stream_id, last_sequence: frame.frame_sequence },
            ),
            None => None,
        }
    }

    pub fn latest_fence(&self, stream_id: u64) -> (r: Option<LiveObservationFence>)
        ensures
            r == self.fence(stream_id),
    {
        match &self.latest_frame {
            Some(frame) => Some(LiveObservationFence::new(stream_id, frame.frame_sequence)),
            None => None,
        }
    }

    /// What a reader waiting for a frame after `after_sequence` is told: an
    /// ended feed fails, a paused feed fails, and only a newer frame is handed
    /// out.
    pub fn wait_for_latest_frame(&self, after_sequence: Option<u64>) -> (r: FrameWait)
        ensures
            frame_is_awaited(*self, after_sequence, r),
    {
        if let Some(error) = self.terminal_error() {
            return FrameWait::Fail(error);
        }
        if let Some(error) = self.pause_error() {
            return FrameWait::Fail(error);
        }
        if let Some(frame) = self.latest() {
            let fresh = match after_sequence {
                Some(sequence) => frame.frame_sequence > sequence,
                None => true,
            };
            if fresh {
                return FrameWait::Ready(frame);
            }
        }
        FrameWait::KeepWaiting
    }

    /// The failure of a wait that ran out of time.
    pub fn wait_timed_out(&self) -> (r: ComputerUseError)
        ensures
            is_wait_timeout(*self, r),
    {
        let message = match &self.last_error {
            Some(message) => message.as_str(),
            None => "live observation did not produce a fresh frame before the timeout",
        };
        ComputerUseError::new(ComputerUseErrorCode::CaptureFailed, message)
    }

    /// The members a status reports.
    pub open spec fn members(
        self,
        active: bool,
        fps: u32,
        cadence: LiveCadence,
        now_ms: u64,
    ) -> Map<Seq<char>, JsonTree> {
        let recent = decimal_or_null(optional_string(cadence.recent_effective_fps));
        Map::<Seq<char>, JsonTree>::empty().insert("active"@, JsonTree::Bool(active)).insert(
            "target_fps"@,
            unsigned_tree(fps as u64),
        ).insert(
            "effective_fps"@,
            decimal_or_null(optional_string(cadence.effective_fps)),
        ).insert("recent_effective_fps"@, recent).insert("source_effective_fps"@, recent).insert(
            "source_effective_fps_semantics"@,
            JsonTree::Text("published_source_frame_cadence_not_requested_fps"@),
        ).insert(
            "last_capture_duration_ms"@,
            unsigned_or_null(self.last_capture_duration_ms),
        ).insert("max_capture_duration_ms"@, unsigned_tree(self.max_capture_duration_ms)).insert(
            "capture_duration_semantics"@,
            JsonTree::Text(
                "capture_cycle_wall_time_including_source_wait_readback_and_target_validation"@,
            ),
        ).insert("last_source_wait_ms"@, unsigned_or_null(self.last_source_wait_ms)).insert(
            "max_source_wait_ms"@,
            unsigned_or_null(self.max_source_wait_ms),
        ).insert("last_readback_total_ms"@, unsigned_or_null(self.last_readback_total_ms)).insert(
            "max_readback_total_ms"@,
            unsigned_or_null(self.max_readback_total_ms),
        ).insert(
            "readback_total_semantics"@,
            JsonTree::Text("frame_processing_after_source_arrival"@),
        ).insert("last_gpu_copy_map_ms"@, unsigned_or_null(self.last_gpu_copy_map_ms)).insert(
            "max_gpu_copy_map_ms"@,
            unsigned_or_null(self.max_gpu_copy_map_ms),
        ).insert("last_cpu_copy_ms"@, unsigned_or_null(self.last_cpu_copy_ms)).insert(
            "max_cpu_copy_ms"@,
            unsigned_or_null(self.max_cpu_copy_ms),
        ).insert(
            "last_compositor_timing"@,
            match self.last_compositor_timing {
                Some(timing) => timing.tree(),
                None => CompositorTiming::Unavailable { reason: "no_frame_observed" }.tree(),
            },
        ).insert(
            "max_compositor_to_publish_ms"@,
            unsigned_or_null(self.max_compositor_to_publish_ms),
        ).insert(
            "capture_mode"@,
            JsonTree::Text(
                match self.capture_mode {
                    Some(mode) => mode@,
                    None => "initializing"@,
                },
            ),
        ).insert("latest_sequence"@, unsigned_or_null(self.latest_sequence())).insert(
            "latest_frame_age_ms"@,
            unsigned_or_null(
                match self.latest_frame {
                    Some(frame) => Some(frame.age_at(now_ms)),
                    None => None,
                },
            ),
        ).insert("frames_captured"@, unsigned_tree(self.frames_captured)).insert(
            "frames_replaced"@,
            unsigned_tree(self.frames_replaced),
        ).insert("capture_failures"@, unsigned_tree(self.capture_failures)).insert(
            "last_error"@,
            text_or_null(optional_string(self.last_error)),
        ).insert("paused"@, JsonTree::Bool(self.paused_by is Some)).insert(
            "pause_reason"@,
            reason_tree(self.paused_by),
        ).insert("terminal_reason"@, reason_tree(self.ended_by))
    }

    fn report(&self, active: bool, fps: u32, cadence: &LiveCadence, now_ms: u64) -> (r: Vec<
        JsonMember,
    >)
        ensures
            object_tree(r@) == self.members(active, fps, *cadence, now_ms),
    {
        let mut members: Vec<JsonMember> = Vec::new();
        put_member(&mut members, "active", Json::Bool(active));
        put_member(&mut members, "target_fps", Json::unsigned(fps as u64));
        put_member(&mut members, "effective_fps", decimal_json(&cadence.effective_fps));
        put_member(
            &mut members,
            "recent_effective_fps",
            decimal_json(&cadence.recent_effective_fps),
        );
        put_member(
            &mut members,
            "source_effective_fps",
            decimal_json(&cadence.recent_effective_fps),
        );
        put_member(
            &mut members,
            "source_effective_fps_semantics",
            Json::text("published_source_frame_cadence_not_requested_fps"),
        );
        put_member(
            &mut members,
            "last_capture_duration_ms",
            Json::optional_unsigned(self.last_capture_duration_ms),
        );
        put_member(
            &mut members,
            "max_capture_duration_ms",
            Json::unsigned(self.max_capture_duration_ms),
        );
        put_member(
            &mut members,
            "capture_duration_semantics",
            Json::text(
                "capture_cycle_wall_time_including_source_wait_readback_and_target_validation",
            ),
        );
        put_member(
            &mut members,
            "last_source_wait_ms",
            Json::optional_unsigned(self.last_source_wait_ms),
        );
        put_member(
            &mut members,
            "max_source_wait_ms",
            Json::optional_unsigned(self.max_source_wait_ms),
        );
        put_member(
            &mut members,
            "last_readback_total_ms",
            Json::optional_unsigned(self.last_readback_total_ms),
        );
        put_member(
            &mut members,
            "max_readback_total_ms",
            Json::optional_unsigned(self.max_readback_total_ms),
        );
        put_member(
            &mut members,
            "readback_total_semantics",
            Json::text("frame_processing_after_source_arrival"),
        );
        put_member(
            &mut members,
            "last_gpu_copy_map_ms",
            Json::optional_unsigned(self.last_gpu_copy_map_ms),
        );
        put_member(
            &mut members,
            "max_gpu_copy_map_ms",
            Json::optional_unsigned(self.max_gpu_copy_map_ms),
        );
        put_member(
            &mut members,
            "last_cpu_copy_ms",
            Json::optional_unsigned(self.last_cpu_copy_ms),
        );
        put_member(
            &mut members,
            "max_cpu_copy_ms",
            Json::optional_unsigned(self.max_cpu_copy_ms),
        );
        let timing = match &self.last_compositor_timing {
            Some(timing) => timing.as_json(),
            None => CompositorTiming::unavailable("no_frame_observed").as_json(),
        };
        put_member(&mut members, "last_compositor_timing", timing);
        put_member(
            &mut members,
            "max_compositor_to_publish_ms",
            Json::optional_unsigned(self.max_compositor_to_publish_ms),
        );
        let mode = match self.capture_mode {
            Some(mode) => mode,
            None => "initializing",
        };
        put_member(&mut members, "capture_mode", Json::text(mode));
        put_member(
            &mut members,
            "latest_sequence",
            Json::optional_unsigned(self.latest_frame_sequence()),
        );
        let age: Option<u64> = match &self.latest_frame {
            Some(frame) => Some(frame.age_ms(now_ms)),
            None => None,
        };
        put_member(&mut members, "latest_frame_age_ms", Json::optional_unsigned(age));
        put_member(&mut members, "frames_captured", Json::unsigned(self.frames_captured));
        put_member(&mut members, "frames_replaced", Json::unsigned(self.frames_replaced));
        put_member(&mut members, "capture_failures", Json::unsigned(self.capture_failures));
        let last_error = match &self.last_error {
            Some(message) => Json::text(message.as_str()),
            None => Json::Null,
        };
        put_member(&mut members, "last_error", last_error);
        put_member(&mut members, "paused", Json::Bool(self.paused_by.is_some()));
        let pause_reason = match self.pause_reason() {
            Some(reason) => reason,
            None => Json::Null,
        };
        put_member(&mut members, "pause_reason", pause_reason);
        let terminal_reason = match self.terminal_reason() {
            Some(reason) => reason,
            None => Json::Null,
        };
        put_member(&mut members, "terminal_reason", terminal_reason);
        members
    }

    pub fn as_json(&self, active: bool, fps: u32, cadence: &LiveCadence, now_ms: u64) -> (r: Json)
        ensures
            r.view() == JsonTree::Object(self.members(active, fps, *cadence, now_ms)),
    {
        Json::Object(self.report(active, fps, cadence, now_ms))
    }

    /// The report of a named stream.
    pub fn state(
        &self,
        stream_id: u64,
        active: bool,
        fps: u32,
        cadence: &LiveCadence,
        now_ms: u64,
    ) -> (r: Json)
        ensures
            r.view() == JsonTree::Object(
                self.members(active, fps, *cadence, now_ms).insert(
                    "stream_id"@,
                    unsigned_tree(stream_id),
                ),
            ),
    {
        let mut members = self.report(active, fps, cadence, now_ms);
        put_member(&mut members, "stream_id", Json::unsigned(stream_id));
        Json::Object(members)
    }
}

/// The failure of a wait whose feed went away.
pub fn wait_stopped() -> (r: ComputerUseError)
    ensures
        is_plain_error(
            r,
            ComputerUseErrorCode::CaptureFailed,
            "live observation stopped before a frame was available"@,
        ),
{
    ComputerUseError::new(
        ComputerUseErrorCode::CaptureFailed,
        "live observation stopped before a frame was available",
    )
}

/// The failure shows that the window itself is gone or not the one asked for.
pub open spec fn ends_capture(code: ComputerUseErrorCode) -> bool {
    code == ComputerUseErrorCode::MissingWindow || code == ComputerUseErrorCode::InvalidTarget
}

/// The failure shows that the desktop cannot be observed for now.
pub open spec fn pauses_capture(code: ComputerUseErrorCode) -> bool {
    code == ComputerUseErrorCode::InteractiveDesktopUnavailable
}

pub fn terminal_capture_error(error: &ComputerUseError) -> (r: bool)
    ensures
        r == ends_capture(error.code),
{
    error.code == ComputerUseErrorCode::MissingWindow || error.code
        == ComputerUseErrorCode::InvalidTarget
}

pub fn pause_capture_error(error: &ComputerUseError) -> (r: bool)
    ensures
        r == pauses_capture(error.code),
{
    error.code == ComputerUseErrorCode::InteractiveDesktopUnavailable
}

#[derive(Debug)]
pub enum CaptureFailureDisposition {
    Retry(ComputerUseError),
    Pause(ComputerUseError),
    Terminal(ComputerUseError),
}

pub open spec fn disposition_of(error: ComputerUseError) -> CaptureFailureDisposition {
    if pauses_capture(error.code) {
        CaptureFailureDisposition::Pause(error)
    } else if ends_capture(error.code) {
        CaptureFailureDisposition::Terminal(error)
    } else {
        CaptureFailureDisposition::Retry(error)
    }
}

pub fn capture_failure_disposition(error: ComputerUseError) -> (r: CaptureFailureDisposition)
    ensures
        r == disposition_of(error),
{
    if pause_capture_error(&error) {
        CaptureFailureDisposition::Pause(error)
    } else if terminal_capture_error(&error) {
        CaptureFailureDisposition::Terminal(error)
    } else {
        CaptureFailureDisposition::Retry(error)
    }
}

/// What follows a capture that failed.
pub open spec fn is_failure_disposition(capture_error: ComputerUseError, observation_availability: ComputerUseResult<()>, r: CaptureFailureDisposition) -> bool {
    r == match observation_availability {
        Err(desktop_error) => disposition_of(desktop_error),
        Ok(()) => disposition_of(capture_error),
    }
}

/// An unavailable desktop outweighs the capture's own failure.
pub fn live_capture_failure_disposition(
    capture_error: ComputerUseError,
    observation_availability: ComputerUseResult<()>,
) -> (r: CaptureFailureDisposition)
    ensures
        is_failure_disposition(capture_error, observation_availability, r),
{
    match observation_availability {
        Err(desktop_error) => capture_failure_disposition(desktop_error),
        Ok(()) => capture_failure_disposition(capture_error),
    }
}

/// The window still belongs to its process.
pub open spec fn owner_is_kept(process_id: u32, owner: ComputerUseResult<u32>, r: ComputerUseResult<()>) -> bool {
    match owner {
        Err(error) => r == Err::<(), ComputerUseError>(error),
        Ok(found) => if found == process_id {
            r is Ok
        } else {
            fails_with(
                r,
                ComputerUseErrorCode::InvalidTarget,
                "live observation target process identity changed"@,
            )
        },
    }
}

/// The window still belongs to the process the feed was opened for.
pub fn ensure_window_owner(process_id: u32, owner: ComputerUseResult<u32>) -> (r:
    ComputerUseResult<()>)
    ensures
        owner_is_kept(process_id, owner, r),
{
    match owner {
        Err(error) => Err(error),
        Ok(found) => if found == process_id {
            Ok(())
        } else {
            Err(
                ComputerUseError::new(
                    ComputerUseErrorCode::InvalidTarget,
                    "live observation target process identity changed",
                ),
            )
        },
    }
}

/// One captured image on its way to publication.
#[derive(Debug)]
pub struct CapturedImage {
    pub bgra: Vec<u8>,
    pub width: u32,
    pub height: u32,
    pub capture_mode: &'static str,
    pub measurement: FrameCaptureMeasurement,
}

/// The pixels of one native capture.
#[derive(Debug)]
pub struct NativePixels {
    pub bgra: Vec<u8>,
    pub width: u32,
    pub height: u32,
}

impl NativePixels {
    /// The image is made of these pixels, in this way.
    pub open spec fn makes(
        self,
        image: CapturedImage,
        capture_mode: Seq<char>,
        measurement: FrameCaptureMeasurement,
    ) -> bool {
        &&& image.bgra == self.bgra
        &&& image.width == self.width
        &&& image.height == self.height
        &&& image.capture_mode@ == capture_mode
        &&& image.measurement == measurement
    }
}

/// How a native capture goes on after the persistent one was asked.
#[derive(Debug)]
pub enum NativeCaptureStep {
    Captured(CapturedImage),
    /// A single capture is tried in its place.
    Recover { cause: String },
}

/// What follows a capture of the running feed.
pub open spec fn persistent_capture_ends(result: Result<(NativePixels, FrameCaptureMeasurement), String>, r: NativeCaptureStep) -> bool {
    match result {
        Ok((pixels, measurement)) => r matches NativeCaptureStep::Captured(image)
            && pixels.makes(image, "persistent_wgc"@, measurement),
        Err(message) => r == (NativeCaptureStep::Recover { cause: message }),
    }
}

/// Takes in what the persistent capture gave. Its failure is not the end: a
/// single capture is tried.
pub fn after_persistent_capture(
    result: Result<(NativePixels, FrameCaptureMeasurement), String>,
) -> (r: NativeCaptureStep)
    ensures
        persistent_capture_ends(result, r),
{
    match result {
        Ok((pixels, measurement)) => NativeCaptureStep::Captured(
            CapturedImage {
                bgra: pixels.bgra,
                width: pixels.width,
                height: pixels.height,
                capture_mode: "persistent_wgc",
                measurement,
            },
        ),
        Err(cause) => NativeCaptureStep::Recover { cause },
    }
}

/// What follows a single capture.
pub open spec fn single_capture_ends(cause: Option<String>, result: Result<NativePixels, String>, r: ComputerUseResult<CapturedImage>) -> bool {
    match result {
        Ok(pixels) => r matches Ok(image) && pixels.makes(
            image,
            if cause is Some {
                "one_shot_wgc_recovery"@
            } else {
                "one_shot_wgc_fallback"@
            },
            (FrameCaptureMeasurement {
                source_wait: None,
                readback_total: None,
                gpu_copy_map: None,
                cpu_copy: None,
                compositor: CompositorTiming::Unavailable {
                    reason: "capture_mode_does_not_report_split_timing",
                },
            }),
        ),
        Err(message) => fails_with(
            r,
            ComputerUseErrorCode::CaptureFailed,
            match cause {
                Some(cause) => cause@ + "; one-shot WGC recovery failed: "@ + message@,
                None => message@,
            },
        ),
    }
}

/// Takes in what a single capture gave. `cause` is why the persistent one was
/// given up, where there is one; a second failure names both.
pub fn after_single_capture(cause: Option<String>, result: Result<NativePixels, String>) -> (r:
    ComputerUseResult<CapturedImage>)
    ensures
        single_capture_ends(cause, result, r),
{
    match result {
        Ok(pixels) => Ok(
            CapturedImage {
                bgra: pixels.bgra,
                width: pixels.width,
                height: pixels.height,
                capture_mode: if cause.is_some() {
                    "one_shot_wgc_recovery"
                } else {
                    "one_shot_wgc_fallback"
                },
                measurement: FrameCaptureMeasurement::unavailable(
                    "capture_mode_does_not_report_split_timing",
                ),
            },
        ),
        Err(message) => Err(
            ComputerUseError::owned(
                ComputerUseErrorCode::CaptureFailed,
                match cause {
                    Some(cause) => join3(
                        cause.as_str(),
                        "; one-shot WGC recovery failed: ",
                        message.as_str(),
                    ),
                    None => message,
                },
            ),
        ),
    }
}

/// The clock readings of one capture cycle.
#[derive(Debug, Clone, Copy, PartialEq, Eq, Structural)]
pub struct CaptureClock {
    pub unix_ms: u64,
    pub monotonic_ms: u64,
    pub cycle_ms: u128,
}

/// What the capture loop does after a cycle.
#[derive(Debug, Clone, Copy, PartialEq, Eq, Structural)]
pub enum CaptureNext {
    Stop,
    RetryAfterPause,
    NextInterval,
}

/// The loop goes on only while somebody listens and nobody interrupted.
pub open spec fn capture_continues(
    closed: bool,
    started_generation: u64,
    generation: u64,
) -> bool {
    !closed && started_generation == generation
}

pub fn capture_may_continue(closed: bool, started_generation: u64, generation: u64) -> (r: bool)
    ensures
        r == capture_continues(closed, started_generation, generation),
{
    !closed && started_generation == generation
}

/// What one cycle of a feed leaves.
pub open spec fn capture_cycle_ends(before: LiveObservationStatus, sequence: u64, interrupted: bool, outcome: Result<CapturedImage, CaptureFailureDisposition>, clock: CaptureClock, after: LiveObservationStatus, r: (u64, CaptureNext)) -> bool {
    &&& before.consistent() ==> after.consistent()
    &&& match outcome {
        Ok(image) => if interrupted {
            after == before && r == (sequence, CaptureNext::Stop)
        } else {
            &&& r == (counted(sequence), CaptureNext::NextInterval)
            &&& exists|frame: LiveObservationFrame|
                {
                    &&& frame.frame_sequence == counted(sequence)
                    &&& frame.pixels == image.bgra
                    &&& frame.width == image.width
                    &&& frame.height == image.height
                    &&& frame.unix_ms == clock.unix_ms
                    &&& frame.monotonic_ms == clock.monotonic_ms
                    &&& #[trigger] after.published(
                        before,
                        frame,
                        clock.cycle_ms,
                        image.capture_mode,
                        image.measurement,
                    )
                }
        },
        Err(CaptureFailureDisposition::Terminal(error)) => {
            &&& r == (sequence, CaptureNext::Stop)
            &&& pauses_capture(error.code) ==> after.paused(
                before,
                error,
                clock.unix_ms,
            )
            &&& !pauses_capture(error.code) ==> {
                &&& after.failed_once(before, error.message@)
                &&& after.paused_by is None
                &&& after.ended_by matches Some(reason) && reason.states(
                    error,
                    clock.unix_ms,
                    before.latest_sequence(),
                )
            }
        },
        Err(CaptureFailureDisposition::Pause(error)) => {
            &&& r == (sequence, CaptureNext::RetryAfterPause)
            &&& after.paused(before, error, clock.unix_ms)
        },
        Err(CaptureFailureDisposition::Retry(error)) => {
            &&& r == (sequence, CaptureNext::NextInterval)
            &&& after.failed_once(before, error.message@)
            &&& after.paused_by == before.paused_by
            &&& after.ended_by == before.ended_by
        },
    }
}

/// Decides one capture cycle: publishes a captured image under the next
/// sequence, or records the failure, and says how the loop goes on. A capture
/// that an interruption overtook is dropped.
pub fn finish_capture_cycle(
    status: &mut LiveObservationStatus,
    sequence: u64,
    interrupted: bool,
    outcome: Result<CapturedImage, CaptureFailureDisposition>,
    clock: CaptureClock,
) -> (r: (u64, CaptureNext))
    ensures
        capture_cycle_ends(*old(status), sequence, interrupted, outcome, clock, *final(status), r),
{
    match outcome {
        Ok(image) => {
            if interrupted {
                return (sequence, CaptureNext::Stop);
            }
            let next: u64 = count_up(sequence);
            let frame = LiveObservationFrame::new(
                next,
                image.bgra,
                image.width,
                image.height,
                clock.unix_ms,
                clock.monotonic_ms,
            );
            let ghost published = frame;
            status.publish_measured_frame(
                frame,
                clock.cycle_ms,
                image.capture_mode,
                image.measurement,
            );
            assert(status.published(
                *old(status),
                published,
                clock.cycle_ms,
                image.capture_mode,
                image.measurement,
            ));
            (next, CaptureNext::NextInterval)
        },
        Err(CaptureFailureDisposition::Terminal(error)) => {
            status.record_terminal_error(&error, clock.unix_ms);
            (sequence, CaptureNext::Stop)
        },
        Err(CaptureFailureDisposition::Pause(error)) => {
            status.record_paused_error(&error, clock.unix_ms);
            (sequence, CaptureNext::RetryAfterPause)
        },
        Err(CaptureFailureDisposition::Retry(error)) => {
            status.record_error(error.message);
            (sequence, CaptureNext::NextInterval)
        },
    }
}

/// A pause never hides the end of a feed, and recording one on an ended feed
/// changes nothing.
pub proof fn law_the_end_of_a_feed_is_final(
    before: LiveObservationStatus,
    after: LiveObservationStatus,
    error: ComputerUseError,
    now_ms: u64,
    frame: LiveObservationFrame,
    duration: u128,
    mode: &'static str,
    measurement: FrameCaptureMeasurement,
)
    requires
        before.ended_by is Some,
        after.paused(before, error, now_ms) || after.published(
            before,
            frame,
            duration,
            mode,
            measurement,
        ),
    ensures
        after.ended_by == before.ended_by,
{
}

/// A failed capture neither invents a frame nor touches what was measured.
pub proof fn law_failures_keep_the_measurements(
    before: LiveObservationStatus,
    after: LiveObservationStatus,
    message: Seq<char>,
)
    requires
        after.failed_once(before, message),
    ensures
        after.latest_sequence() == before.latest_sequence(),
        after.frames_captured == before.frames_captured,
        after.last_source_wait_ms == before.last_source_wait_ms,
        after.last_readback_total_ms == before.last_readback_total_ms,
        after.max_compositor_to_publish_ms == before.max_compositor_to_publish_ms,
        after.last_compositor_timing == before.last_compositor_timing,
{
}

/// The frame a cycle publishes is newer than the feed's fence before it, as
/// long as the sequence is the feed's own and has not reached its end.
pub proof fn law_published_frames_pass_the_fence(
    before: LiveObservationStatus,
    sequence: u64,
    stream_id: u64,
)
    requires
        sequence < u64::MAX,
        before.latest_sequence() matches Some(latest) ==> latest <= sequence,
    ensures
        newer_than(counted(sequence), fence_in(before.fence(stream_id), stream_id)),
{
}

/// A frame that was captured is published as it is, under the next number, at the
/// time of the clock; it clears a pause and the last error. A cycle that was
/// interrupted publishes nothing.
pub proof fn law_captured_frames_are_published_whole(
    before: LiveObservationStatus,
    sequence: u64,
    interrupted: bool,
    image: CapturedImage,
    clock: CaptureClock,
    after: LiveObservationStatus,
    r: (u64, CaptureNext),
)
    requires
        capture_cycle_ends(before, sequence, interrupted, Ok(image), clock, after, r),
    ensures
        interrupted ==> after == before && r.0 == sequence && r.1 == CaptureNext::Stop,
        !interrupted ==> {
            &&& r.1 == CaptureNext::NextInterval
            &&& sequence < u64::MAX ==> r.0 == sequence + 1
            &&& after.latest_frame is Some
            &&& after.latest_frame->0.frame_sequence == r.0
            &&& after.latest_frame->0.pixels == image.bgra
            &&& after.latest_frame->0.width == image.width
            &&& after.latest_frame->0.height == image.height
            &&& after.latest_frame->0.unix_ms == clock.unix_ms
            &&& after.latest_frame->0.monotonic_ms == clock.monotonic_ms
            &&& after.latest_sequence() == Some(r.0)
            &&& before.frames_captured < u64::MAX ==> after.frames_captured
                == before.frames_captured + 1
            &&& after.capture_failures == before.capture_failures
            &&& after.capture_mode == Some(image.capture_mode)
            &&& after.previous_captured_at == Some(clock.monotonic_ms)
            &&& before.first_captured_at is None ==> after.first_captured_at == Some(
                clock.monotonic_ms,
            )
            &&& before.first_captured_at is Some ==> after.first_captured_at
                == before.first_captured_at
            &&& after.last_error is None
            &&& after.paused_by is None
            &&& after.ended_by == before.ended_by
        },
{
}

/// What was measured of a capture is kept as the last of its kind, and the largest
/// of each kind stays.
pub proof fn law_measurements_are_kept(
    before: LiveObservationStatus,
    frame: LiveObservationFrame,
    capture_duration: u128,
    capture_mode: &'static str,
    measurement: FrameCaptureMeasurement,
    after: LiveObservationStatus,
)
    requires
        after.published(before, frame, capture_duration, capture_mode, measurement),
    ensures
        after.last_capture_duration_ms is Some,
        after.last_capture_duration_ms->0 <= after.max_capture_duration_ms,
        before.max_capture_duration_ms <= after.max_capture_duration_ms,
        capture_duration <= u64::MAX ==> after.last_capture_duration_ms == Some(
            capture_duration as u64,
        ),
        measurement.source_wait is None ==> after.last_source_wait_ms is None
            && after.max_source_wait_ms == before.max_source_wait_ms,
        (measurement.source_wait matches Some(ms) && ms <= u64::MAX) ==> after.last_source_wait_ms
            == Some(measurement.source_wait->0 as u64) && (after.max_source_wait_ms matches Some(
            largest,
        ) && largest >= measurement.source_wait->0),
        (measurement.readback_total matches Some(ms) && ms <= u64::MAX)
            ==> after.last_readback_total_ms == Some(measurement.readback_total->0 as u64) && (
        after.max_readback_total_ms matches Some(largest) && largest
            >= measurement.readback_total->0),
        (measurement.gpu_copy_map matches Some(ms) && ms <= u64::MAX) ==> after.last_gpu_copy_map_ms
            == Some(measurement.gpu_copy_map->0 as u64) && (after.max_gpu_copy_map_ms matches Some(
            largest,
        ) && largest >= measurement.gpu_copy_map->0),
        (measurement.cpu_copy matches Some(ms) && ms <= u64::MAX) ==> after.last_cpu_copy_ms
            == Some(measurement.cpu_copy->0 as u64) && (after.max_cpu_copy_ms matches Some(largest)
            && largest >= measurement.cpu_copy->0),
        after.last_compositor_timing == Some(measurement.compositor),
        before.max_source_wait_ms matches Some(seen) ==> (after.max_source_wait_ms matches Some(
            largest,
        ) && largest >= seen),
        before.max_compositor_to_publish_ms matches Some(seen) ==> (
        after.max_compositor_to_publish_ms matches Some(largest) && largest >= seen),
{
}

/// A capture that failed is counted and told of. One that has to end the feed ends
/// it with its own words, one that pauses it pauses it, and any other is tried
/// again; none of them publishes a frame.
pub proof fn law_failed_captures_are_told(
    before: LiveObservationStatus,
    sequence: u64,
    interrupted: bool,
    failure: CaptureFailureDisposition,
    clock: CaptureClock,
    after: LiveObservationStatus,
    r: (u64, CaptureNext),
)
    requires
        capture_cycle_ends(before, sequence, interrupted, Err(failure), clock, after, r),
        before.ended_by is None,
    ensures
        r.0 == sequence,
        after.latest_frame == before.latest_frame,
        after.frames_captured == before.frames_captured,
        before.capture_failures < u64::MAX ==> after.capture_failures == before.capture_failures + 1,
        failure matches CaptureFailureDisposition::Retry(error) ==> r.1 == CaptureNext::NextInterval
            && after.ended_by is None && after.paused_by == before.paused_by && (
        after.last_error matches Some(text) && text@ == error.message@),
        failure matches CaptureFailureDisposition::Pause(error) ==> r.1
            == CaptureNext::RetryAfterPause && after.ended_by is None && (
        after.paused_by matches Some(reason) && reason.code == error.code && reason.message@
            == error.message@ && reason.timestamp_ms == clock.unix_ms && reason.last_sequence
            == before.latest_sequence()),
        (failure matches CaptureFailureDisposition::Terminal(error) && error.code
            != ComputerUseErrorCode::InteractiveDesktopUnavailable) ==> r.1 == CaptureNext::Stop && (
        after.ended_by matches Some(reason) && reason.code == failure->Terminal_0.code
            && reason.message@ == failure->Terminal_0.message@ && reason.timestamp_ms
            == clock.unix_ms && reason.last_sequence == before.latest_sequence()),
        failure is Terminal ==> r.1 == CaptureNext::Stop,
{
}

/// A wait ends with a frame that is later than its boundary, or with why there will
/// be none; until then it goes on.
pub proof fn law_waits_end_with_a_later_frame(
    status: LiveObservationStatus,
    after_sequence: Option<u64>,
    r: FrameWait,
)
    requires
        frame_is_awaited(status, after_sequence, r),
    ensures
        r matches FrameWait::Ready(frame) ==> status.latest_frame == Some(frame) && (
        after_sequence matches Some(last) ==> frame.frame_sequence > last) && status.ended_by is None
            && status.paused_by is None,
        r matches FrameWait::Fail(error) ==> status.ended_by is Some || status.paused_by is Some,
        status.ended_by matches Some(reason) ==> (r matches FrameWait::Fail(error) && error.code
            == reason.code && error.message@ == reason.message@),
        status.ended_by is None && status.paused_by is Some ==> (r matches FrameWait::Fail(error)
            && error.code == status.paused_by->0.code && error.message@
            == status.paused_by->0.message@),
        status.ended_by is None && status.paused_by is None && (status.latest_frame matches Some(
            frame,
        ) && (after_sequence matches Some(last) ==> frame.frame_sequence > last)) ==> r is Ready,
        after_sequence is None && status.ended_by is None && status.paused_by is None
            && status.latest_frame is None ==> r is KeepWaiting,
{
}

/// A wait that took too long fails in the words of the last capture that failed.
pub proof fn law_late_waits_tell_the_last_error(
    status: LiveObservationStatus,
    r: ComputerUseError,
)
    requires
        is_wait_timeout(status, r),
    ensures
        r.code == ComputerUseErrorCode::CaptureFailed,
        status.last_error matches Some(message) ==> r.message@ == message@,
        status.last_error is None ==> r.message@
            == "live observation did not produce a fresh frame before the timeout"@,
{
}

/// Pixels that were captured are handed on as they are, with the way they were
/// taken; a feed that failed is recovered from by a single capture, whose own
/// failure is told with the first.
pub proof fn law_captured_pixels_are_handed_on(
    persistent: Result<(NativePixels, FrameCaptureMeasurement), String>,
    step: NativeCaptureStep,
    cause: Option<String>,
    single: Result<NativePixels, String>,
    r: ComputerUseResult<CapturedImage>,
)
    requires
        persistent_capture_ends(persistent, step),
        single_capture_ends(cause, single, r),
    ensures
        persistent matches Ok((pixels, measurement)) ==> (
        step matches NativeCaptureStep::Captured(image) && image.bgra == pixels.bgra && image.width
            == pixels.width && image.height == pixels.height && image.measurement == measurement
            && image.capture_mode@ == "persistent_wgc"@),
        persistent matches Err(message) ==> (step matches NativeCaptureStep::Recover { cause }
            && cause == message),
        single is Ok <==> r is Ok,
        single matches Ok(pixels) ==> (r matches Ok(image) && image.bgra == pixels.bgra
            && image.width == pixels.width && image.height == pixels.height),
        single is Ok && cause is Some ==> r->Ok_0.capture_mode@ == "one_shot_wgc_recovery"@,
        single is Ok && cause is None ==> r->Ok_0.capture_mode@ == "one_shot_wgc_fallback"@,
        single matches Err(message) ==> (r matches Err(error) && error.code
            == ComputerUseErrorCode::CaptureFailed),
        single is Err && cause is None ==> r->Err_0.message@ == single->Err_0@,
{
}

/// A window whose process changed ends its feed.
pub proof fn law_feeds_keep_to_their_process(
    process_id: u32,
    owner: ComputerUseResult<u32>,
    r: ComputerUseResult<()>,
)
    requires
        owner_is_kept(process_id, owner, r),
    ensures
        r is Ok <==> owner == Ok::<u32, ComputerUseError>(process_id),
        owner matches Err(error) ==> r == Err::<(), ComputerUseError>(error),
        owner is Ok && r is Err ==> r->Err_0.code == ComputerUseErrorCode::InvalidTarget,
{
}

/// A capture that failed is judged by its own failure, or by that of the desktop
/// where it is not there: a desktop that cannot be used pauses the feed, a window
/// that is gone ends it, and anything else is tried again.
pub proof fn law_capture_failures_are_judged(
    capture_error: ComputerUseError,
    availability: ComputerUseResult<()>,
    r: CaptureFailureDisposition,
)
    requires
        is_failure_disposition(capture_error, availability, r),
    ensures
        ({
            let judged = match availability {
                Ok(_) => capture_error,
                Err(error) => error,
            };
            &&& judged.code == ComputerUseErrorCode::InteractiveDesktopUnavailable <==> r
                == CaptureFailureDisposition::Pause(judged)
            &&& judged.code == ComputerUseErrorCode::MissingWindow || judged.code
                == ComputerUseErrorCode::InvalidTarget <==> r
                == CaptureFailureDisposition::Terminal(judged)
            &&& r == CaptureFailureDisposition::Pause(judged) || r
                == CaptureFailureDisposition::Terminal(judged) || r
                == CaptureFailureDisposition::Retry(judged)
        }),
{
}

/// The fence of a feed is its stream and its latest frame; a fence bounds the
/// frames of its own stream, and no other.
pub proof fn law_fences_bound_their_own_stream(
    status: LiveObservationStatus,
    stream_id: u64,
    other: u64,
)
    ensures
        status.latest_frame is Some <==> status.fence(stream_id) is Some,
        status.latest_frame matches Some(frame) ==> fence_in(status.fence(stream_id), stream_id)
            == Some(frame.frame_sequence),
        other != stream_id ==> fence_in(status.fence(stream_id), other) is None,
        fence_in(None, stream_id) is None,
{
}

/// What is told of a feed is what its status holds, each thing under its own name.
pub proof fn law_feeds_are_told_as_they_are(
    status: LiveObservationStatus,
    active: bool,
    fps: u32,
    cadence: LiveCadence,
    now_ms: u64,
)
    ensures
        ({
            let told = JsonTree::Object(status.members(active, fps, cadence, now_ms));
            &&& told.bool_at("active"@) == Some(active)
            &&& told.u64_at("target_fps"@) == Some(fps as u64)
            &&& told.u64_at("last_capture_duration_ms"@) == status.last_capture_duration_ms
            &&& told.u64_at("max_capture_duration_ms"@) == Some(status.max_capture_duration_ms)
            &&& told.u64_at("last_source_wait_ms"@) == status.last_source_wait_ms
            &&& told.u64_at("max_source_wait_ms"@) == status.max_source_wait_ms
            &&& told.u64_at("last_readback_total_ms"@) == status.last_readback_total_ms
            &&& told.u64_at("max_readback_total_ms"@) == status.max_readback_total_ms
            &&& told.u64_at("last_gpu_copy_map_ms"@) == status.last_gpu_copy_map_ms
            &&& told.u64_at("max_gpu_copy_map_ms"@) == status.max_gpu_copy_map_ms
            &&& told.u64_at("last_cpu_copy_ms"@) == status.last_cpu_copy_ms
            &&& told.u64_at("max_cpu_copy_ms"@) == status.max_cpu_copy_ms
            &&& told.u64_at("max_compositor_to_publish_ms"@) == status.max_compositor_to_publish_ms
            &&& told.text_at("capture_mode"@) == Some(
                match status.capture_mode {
                    Some(mode) => mode@,
                    None => "initializing"@,
                },
            )
            &&& told.u64_at("latest_sequence"@) == match status.latest_frame {
                Some(frame) => Some(frame.frame_sequence),
                None => None,
            }
            &&& told.u64_at("frames_captured"@) == Some(status.frames_captured)
            &&& told.u64_at("frames_replaced"@) == Some(status.frames_replaced)
            &&& told.u64_at("capture_failures"@) == Some(status.capture_failures)
            &&& told.text_at("last_error"@) == match status.last_error {
                Some(message) => Some(message@),
                None => None,
            }
            &&& told.bool_at("paused"@) == Some(status.paused_by is Some)
            &&& status.paused_by is None ==> told.get("pause_reason"@) == Some(JsonTree::Null)
            &&& status.ended_by is None ==> told.get("terminal_reason"@) == Some(JsonTree::Null)
            &&& status.paused_by is Some ==> told.get("pause_reason"@) is Some && told.get(
                "pause_reason"@,
            )->0.text_at("message"@) == Some(status.paused_by->0.message@)
            &&& status.ended_by is Some ==> told.get("terminal_reason"@) is Some && told.get(
                "terminal_reason"@,
            )->0.text_at("message"@) == Some(status.ended_by->0.message@)
        }),
{
    reveal_strlit("active");
    reveal_strlit("target_fps");
    reveal_strlit("effective_fps");
    reveal_strlit("recent_effective_fps");
    reveal_strlit("source_effective_fps");
    reveal_strlit("source_effective_fps_semantics");
    reveal_strlit("last_capture_duration_ms");
    reveal_strlit("max_capture_duration_ms");
    reveal_strlit("capture_duration_semantics");
    reveal_strlit("last_source_wait_ms");
    reveal_strlit("max_source_wait_ms");
    reveal_strlit("last_readback_total_ms");
    reveal_strlit("max_readback_total_ms");
    reveal_strlit("readback_total_semantics");
    reveal_strlit("last_gpu_copy_map_ms");
    reveal_strlit("max_gpu_copy_map_ms");
    reveal_strlit("last_cpu_copy_ms");
    reveal_strlit("max_cpu_copy_ms");
    reveal_strlit("last_compositor_timing");
    reveal_strlit("max_compositor_to_publish_ms");
    reveal_strlit("capture_mode");
    reveal_strlit("latest_sequence");
    reveal_strlit("latest_frame_age_ms");
    reveal_strlit("frames_captured");
    reveal_strlit("frames_replaced");
    reveal_strlit("capture_failures");
    reveal_strlit("last_error");
    reveal_strlit("paused");
    reveal_strlit("pause_reason");
    reveal_strlit("terminal_reason");
    assert("active"@.len() == 6);
    assert("target_fps"@.len() == 10);
    assert("effective_fps"@.len() == 13);
    assert("recent_effective_fps"@.len() == 20);
    assert("source_effective_fps"@.len() == 20);
    assert("source_effective_fps_semantics"@.len() == 30);
    assert("last_capture_duration_ms"@.len() == 24);
    assert("max_capture_duration_ms"@.len() == 23);
    assert("capture_duration_semantics"@.len() == 26);
    assert("last_source_wait_ms"@.len() == 19);
    assert("max_source_wait_ms"@.len() == 18);
    assert("last_readback_total_ms"@.len() == 22);
    assert("max_readback_total_ms"@.len() == 21);
    assert("readback_total_semantics"@.len() == 24);
    assert("last_gpu_copy_map_ms"@.len() == 20);
    assert("max_gpu_copy_map_ms"@.len() == 19);
    assert("last_cpu_copy_ms"@.len() == 16);
    assert("max_cpu_copy_ms"@.len() == 15);
    assert("last_compositor_timing"@.len() == 22);
    assert("max_compositor_to_publish_ms"@.len() == 28);
    assert("capture_mode"@.len() == 12);
    assert("latest_sequence"@.len() == 15);
    assert("latest_frame_age_ms"@.len() == 19);
    assert("frames_captured"@.len() == 15);
    assert("frames_replaced"@.len() == 15);
    assert("capture_failures"@.len() == 16);
    assert("last_error"@.len() == 10);
    assert("paused"@.len() == 6);
    assert("pause_reason"@.len() == 12);
    assert("terminal_reason"@.len() == 15);
    assert("active"@[0] != "paused"@[0]);
    assert("target_fps"@[0] != "last_error"@[0]);
    assert("recent_effective_fps"@[0] != "source_effective_fps"@[0]);
    assert("recent_effective_fps"@[0] != "last_gpu_copy_map_ms"@[0]);
    assert("source_effective_fps"@[0] != "last_gpu_copy_map_ms"@[0]);
    assert("last_capture_duration_ms"@[0] != "readback_total_semantics"@[0]);
    assert("last_source_wait_ms"@[0] != "max_gpu_copy_map_ms"@[0]);
    assert("last_source_wait_ms"@[2] != "latest_frame_age_ms"@[2]);
    assert("max_gpu_copy_map_ms"@[0] != "latest_frame_age_ms"@[0]);
    assert("last_readback_total_ms"@[5] != "last_compositor_timing"@[5]);
    assert("last_cpu_copy_ms"@[0] != "capture_failures"@[0]);
    assert("max_cpu_copy_ms"@[0] != "latest_sequence"@[0]);
    assert("max_cpu_copy_ms"@[0] != "frames_captured"@[0]);
    assert("max_cpu_copy_ms"@[0] != "frames_replaced"@[0]);
    assert("max_cpu_copy_ms"@[0] != "terminal_reason"@[0]);
    assert("latest_sequence"@[0] != "frames_captured"@[0]);
    assert("latest_sequence"@[0] != "frames_replaced"@[0]);
    assert("latest_sequence"@[0] != "terminal_reason"@[0]);
    assert("frames_captured"@[7] != "frames_replaced"@[7]);
    assert("frames_captured"@[0] != "terminal_reason"@[0]);
    assert("frames_replaced"@[0] != "terminal_reason"@[0]);
    assert("capture_mode"@[0] != "pause_reason"@[0]);
    reveal_strlit("code");
    reveal_strlit("message");
    reveal_strlit("timestamp_ms");
    reveal_strlit("last_sequence");
    assert("code"@.len() == 4);
    assert("message"@.len() == 7);
    assert("timestamp_ms"@.len() == 12);
    assert("last_sequence"@.len() == 13);
}

/// Why a feed ended or paused is told by its code, its words, its time and the last
/// frame before it.
pub proof fn law_reasons_are_told_whole(reason: LiveObservationReason)
    ensures
        reason.tree().text_at("code"@) == Some(reason.code.wire_text()),
        reason.tree().text_at("message"@) == Some(reason.message@),
        reason.tree().u64_at("timestamp_ms"@) == Some(reason.timestamp_ms),
        reason.tree().u64_at("last_sequence"@) == reason.last_sequence,
{
    reveal_strlit("code");
    reveal_strlit("message");
    reveal_strlit("timestamp_ms");
    reveal_strlit("last_sequence");
    assert("code"@.len() == 4);
    assert("message"@.len() == 7);
    assert("timestamp_ms"@.len() == 12);
    assert("last_sequence"@.len() == 13);
}

/// A capture goes on exactly as long as its feed is open and was not started anew.
pub proof fn law_captures_end_with_their_feed(closed: bool, started: u64, generation: u64)
    ensures
        closed ==> !capture_continues(closed, started, generation),
        started != generation ==> !capture_continues(closed, started, generation),
        capture_continues(false, generation, generation),
{
}

} // verus!
