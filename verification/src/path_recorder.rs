//! Recording a path of clicked source pixels, as described by the identity path JSON format.

use std::time::{Duration, SystemTime};
use vstd::prelude::*;

use crate::text::{decimal, push_decimal};

verus! {

/// An instant of the system clock.
#[verifier::external_type_specification]
#[verifier::external_body]
pub struct ExSystemTime(SystemTime);

/// The `format` value of a path document.
pub const FORMAT: &'static str = "identity-path-v1";

/// The `time_unit` value of a path document.
pub const TIME_UNIT: &'static str = "seconds";

/// The `coordinate_space` value of a path document.
pub const COORDINATE_SPACE: &'static str = "source_pixels_top_left_origin";

/// The mouse button whose clicks are recorded.
pub const PRIMARY_BUTTON: u32 = 1;

/// The media file that a path was recorded on.
#[derive(Debug, Clone, PartialEq, Eq)]
pub struct PathSource {
    pub uri: String,
    pub display_name: String,
    pub width: u32,
    pub height: u32,
}

/// The modifier bit of the Shift key (`GDK_SHIFT_MASK`).
pub const SHIFT_MASK_BITS: u32 = 1;

/// The modifier keys held during a click, as the bit set that the toolkit reports.
#[derive(Clone, Copy, Debug, PartialEq, Eq, Structural)]
pub struct ModifierType {
    pub bits: u32,
}

impl ModifierType {
    /// Whether every modifier of `other` is held in `self`.
    pub open spec fn holds(self, other: ModifierType) -> bool {
        self.bits & other.bits == other.bits
    }

    /// No modifier held.
    pub fn empty() -> (r: ModifierType)
        ensures
            r.bits == 0,
    {
        ModifierType { bits: 0 }
    }

    /// Only Shift held.
    pub fn shift_mask() -> (r: ModifierType)
        ensures
            r.bits == SHIFT_MASK_BITS,
    {
        ModifierType { bits: SHIFT_MASK_BITS }
    }

    /// The modifiers with the given bits.
    pub fn from_bits(bits: u32) -> (r: ModifierType)
        ensures
            r.bits == bits,
    {
        ModifierType { bits }
    }

    /// Whether every modifier of `other` is held in `self`.
    pub fn contains(&self, other: ModifierType) -> (r: bool)
        ensures
            r == self.holds(other),
    {
        self.bits & other.bits == other.bits
    }
}

/// Whether a click is recorded: only plain clicks of the primary button, never while Shift is
/// held.
pub open spec fn records_click(button: u32, modifiers: ModifierType) -> bool {
    button == PRIMARY_BUTTON && !modifiers.holds(ModifierType { bits: SHIFT_MASK_BITS })
}

/// Whether a click with `button` while `modifiers` are held adds a point to the path.
pub fn should_record_click(button: u32, modifiers: ModifierType) -> (r: bool)
    ensures
        r == records_click(button, modifiers),
{
    button == PRIMARY_BUTTON && !modifiers.contains(ModifierType::shift_mask())
}

/// Shift-clicks are never recorded, whatever the button and the other modifiers.
pub proof fn law_shift_clicks_are_ignored(button: u32, bits: u32)
    ensures
        bits & SHIFT_MASK_BITS == SHIFT_MASK_BITS ==> !records_click(button, ModifierType { bits }),
{
}

/// A clicked source pixel: `x` to the right and `y` downward from the top-left pixel, and the
/// playback position `t` in seconds, carried as the bit pattern of a binary64 number.
#[derive(Clone, Copy, Debug, PartialEq, Eq, Structural)]
pub struct PathPoint {
    pub x: u32,
    pub y: u32,
    pub t_bits: u64,
}

/// A recorded path with the media it was recorded on, ready to be written as JSON.
#[derive(Debug, Clone)]
pub struct PathDocument {
    format_name: &'static str,
    created_at_unix_ms: u64,
    source: PathSource,
    time_unit: &'static str,
    coordinate_space: &'static str,
    points: Vec<PathPoint>,
}

impl PathDocument {
    /// The `format` field.
    pub closed spec fn format_name_view(&self) -> Seq<char> {
        self.format_name@
    }

    /// The `created_at_unix_ms` field.
    pub closed spec fn created_at_view(&self) -> u64 {
        self.created_at_unix_ms
    }

    /// The `source` field.
    pub closed spec fn source_view(&self) -> PathSource {
        self.source
    }

    /// The `time_unit` field.
    pub closed spec fn time_unit_view(&self) -> Seq<char> {
        self.time_unit@
    }

    /// The `coordinate_space` field.
    pub closed spec fn coordinate_space_view(&self) -> Seq<char> {
        self.coordinate_space@
    }

    /// The `points` field.
    pub closed spec fn points_view(&self) -> Seq<PathPoint> {
        self.points@
    }

    /// A document for `points` recorded on `source`, created at the given time, in the
    /// `identity-path-v1` format with seconds and top-left source pixels.
    pub fn new(created_at_unix_ms: u64, source: PathSource, points: Vec<PathPoint>) -> (r: Self)
        ensures
            r.format_name_view() == FORMAT@,
            r.created_at_view() == created_at_unix_ms,
            r.source_view() == source,
            r.time_unit_view() == TIME_UNIT@,
            r.coordinate_space_view() == COORDINATE_SPACE@,
            r.points_view() == points@,
    {
        PathDocument {
            format_name: FORMAT,
            created_at_unix_ms,
            source,
            time_unit: TIME_UNIT,
            coordinate_space: COORDINATE_SPACE,
            points,
        }
    }

    /// The format name.
    pub fn format_name(&self) -> (r: &'static str)
        ensures
            r@ == self.format_name_view(),
    {
        self.format_name
    }

    /// The creation time in milliseconds since the Unix epoch.
    pub fn created_at_unix_ms(&self) -> (r: u64)
        ensures
            r == self.created_at_view(),
    {
        self.created_at_unix_ms
    }

    /// The media the path was recorded on.
    pub fn source(&self) -> (r: &PathSource)
        ensures
            *r == self.source_view(),
    {
        &self.source
    }

    /// The unit of the playback positions.
    pub fn time_unit(&self) -> (r: &'static str)
        ensures
            r@ == self.time_unit_view(),
    {
        self.time_unit
    }

    /// The coordinate space of the points.
    pub fn coordinate_space(&self) -> (r: &'static str)
        ensures
            r@ == self.coordinate_space_view(),
    {
        self.coordinate_space
    }

    /// The recorded points, in click order.
    pub fn points(&self) -> (r: &Vec<PathPoint>)
        ensures
            r@ == self.points_view(),
    {
        &self.points
    }
}

/// A path recording session. It pins itself to the media of its first recorded point; clicks on
/// other media are ignored from then on.
pub struct PathRecorder {
    active: bool,
    pinned: Option<u64>,
    points: Vec<PathPoint>,
}

impl PathRecorder {
    /// Whether the session is recording.
    pub closed spec fn is_active(&self) -> bool {
        self.active
    }

    /// The media the session is pinned to.
    pub closed spec fn pinned_media(&self) -> Option<u64> {
        self.pinned
    }

    /// The points recorded so far, in click order.
    pub closed spec fn recorded(&self) -> Seq<PathPoint> {
        self.points@
    }

    /// A recorder that is not recording.
    pub fn new() -> (r: Self)
        ensures
            !r.is_active(),
            r.pinned_media() is None,
            r.recorded() == Seq::<PathPoint>::empty(),
    {
        PathRecorder { active: false, pinned: None, points: Vec::new() }
    }

    /// Whether the session is recording.
    pub fn active(&self) -> (r: bool)
        ensures
            r == self.is_active(),
    {
        self.active
    }

    /// Starts a new session, unpinned and without points.
    pub fn start(&mut self)
        ensures
            final(self).is_active(),
            final(self).pinned_media() is None,
            final(self).recorded() == Seq::<PathPoint>::empty(),
    {
        self.active = true;
        self.pinned = None;
        self.points = Vec::new();
    }

    /// Handles a click on the media `media` with `button` while `modifiers` are held; `point` is
    /// the clicked source pixel, `None` when the click missed the media. Returns whether the
    /// point was recorded.
    pub fn record_click(
        &mut self,
        media: u64,
        button: u32,
        modifiers: ModifierType,
        point: Option<PathPoint>,
    ) -> (r: bool)
        ensures
            r == accepts_click(
                old(self).is_active(),
                old(self).pinned_media(),
                media,
                button,
                modifiers,
                point,
            ),
            final(self).is_active() == old(self).is_active(),
            r ==> final(self).pinned_media() == Some(media) && final(self).recorded() == old(
                self,
            ).recorded().push(point->0),
            !r ==> final(self).pinned_media() == old(self).pinned_media() && final(self).recorded()
                == old(self).recorded(),
    {
        if !self.active || !should_record_click(button, modifiers) {
            return false;
        }
        let p = match point {
            Some(p) => p,
            None => {
                return false;
            },
        };
        match self.pinned {
            Some(m) => if m != media {
                return false;
            },
            None => {},
        }
        self.pinned = Some(media);
        self.points.push(p);
        true
    }

    /// Stops the session and hands out the pinned media with the recorded points; `None` when no
    /// point was recorded or the session was not recording.
    pub fn finish(&mut self) -> (r: Option<(u64, Vec<PathPoint>)>)
        ensures
            !final(self).is_active(),
            final(self).pinned_media() is None,
            final(self).recorded() == Seq::<PathPoint>::empty(),
            match r {
                Some((media, points)) => old(self).is_active() && old(self).pinned_media() == Some(
                    media,
                ) && points@ == old(self).recorded(),
                None => !old(self).is_active() || old(self).pinned_media() is None,
            },
    {
        let was_active = self.active;
        let pinned = self.pinned;
        let mut points: Vec<PathPoint> = Vec::new();
        std::mem::swap(&mut points, &mut self.points);
        self.active = false;
        self.pinned = None;
        match (was_active, pinned) {
            (true, Some(media)) => Some((media, points)),
            _ => None,
        }
    }
}

/// Whether a session in the given state records a click: it must be recording, the click must
/// be a plain primary click that hit the media, and the session must not be pinned to other media.
pub open spec fn accepts_click(
    active: bool,
    pinned: Option<u64>,
    media: u64,
    button: u32,
    modifiers: ModifierType,
    point: Option<PathPoint>,
) -> bool {
    active && records_click(button, modifiers) && point is Some && (pinned is None || pinned
        == Some(media))
}

/// Once a session is pinned to some media, clicks on any other media are ignored.
pub proof fn law_pinned_media_ignores_others(
    pinned: u64,
    media: u64,
    active: bool,
    button: u32,
    modifiers: ModifierType,
    point: Option<PathPoint>,
)
    requires
        media != pinned,
    ensures
        !accepts_click(active, Some(pinned), media, button, modifiers, point),
{
}

/// The current system time (`SystemTime::now`).
#[verifier::external_body]
fn system_time_now() -> SystemTime {
    SystemTime::now()
}

/// The time elapsed from the Unix epoch to `t` (`SystemTime::duration_since`), `None` when
/// `t` lies before the epoch.
#[verifier::external_body]
fn duration_since_unix_epoch(t: &SystemTime) -> Option<Duration> {
    t.duration_since(std::time::UNIX_EPOCH).ok()
}

/// The whole milliseconds of a duration (`Duration::as_millis`).
#[verifier::external_body]
fn duration_as_millis(d: &Duration) -> u128 {
    d.as_millis()
}

/// The millisecond timestamp for a number of milliseconds since the Unix epoch: zero when the
/// clock was before the epoch, saturated at `u64::MAX` when it does not fit.
pub open spec fn saturating_timestamp(millis: Option<u128>) -> u64 {
    match millis {
        None => 0,
        Some(m) => if m > u64::MAX as u128 {
            u64::MAX
        } else {
            m as u64
        },
    }
}

/// Converts the milliseconds since the Unix epoch (or `None` for a clock before the epoch)
/// into a `u64` timestamp.
pub fn timestamp_from_millis(millis: Option<u128>) -> (r: u64)
    ensures
        r == saturating_timestamp(millis),
{
    match millis {
        None => 0,
        Some(m) => if m > u64::MAX as u128 {
            u64::MAX
        } else {
            m as u64
        },
    }
}

/// The current time as milliseconds since the Unix epoch.
pub fn unix_timestamp_ms() -> (r: u64)
    ensures
        exists|millis: Option<u128>| r == saturating_timestamp(millis),
{
    let now = system_time_now();
    let millis = match duration_since_unix_epoch(&now) {
        Some(d) => Some(duration_as_millis(&d)),
        None => None,
    };
    timestamp_from_millis(millis)
}

/// The path that a document created at `created_at_unix_ms` is written to.
pub open spec fn output_path_text(created_at_unix_ms: nat) -> Seq<char> {
    "/tmp/identity-path-"@ + decimal(created_at_unix_ms) + ".json"@
}

/// The file path for a document created at the given millisecond timestamp:
/// `/tmp/identity-path-[timestamp].json`.
pub fn output_path(created_at_unix_ms: u64) -> (r: String)
    ensures
        r@ == output_path_text(created_at_unix_ms as nat),
{
    let mut s = String::from_str("/tmp/identity-path-");
    push_decimal(&mut s, created_at_unix_ms);
    s.append(".json");
    s
}

} // verus!
