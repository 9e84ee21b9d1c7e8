//! The uniform record type for captured input events, the raw
//! notification shapes delivered by the host, and the normalizer
//! that maps one to the other.

use vstd::prelude::*;

verus! {

/// Which device an event came from.
#[derive(Clone, Copy, PartialEq, Eq, Structural, Debug)]
pub enum Category {
    Keyboard,
    Mouse,
}

/// What happened on that device.
#[derive(Clone, Copy, PartialEq, Eq, Structural, Debug)]
pub enum Action {
    Pressed,
    Released,
    Moved,
}

/// Pointer coordinates, or an explicit marker that none apply.
/// Only pointer-motion events carry coordinates.
#[derive(Clone, Copy, PartialEq, Eq, Structural, Debug)]
pub enum Position {
    NotApplicable,
    At { x: i64, y: i64 },
}

/// A wall-clock moment at second resolution, in the local time zone.
#[derive(Clone, Copy, PartialEq, Eq, Structural, Debug)]
pub struct Timestamp {
    pub year: u16,
    pub month: u8,
    pub day: u8,
    pub hour: u8,
    pub minute: u8,
    pub second: u8,
}

impl Timestamp {
    /// The field ranges every stored timestamp satisfies; the year cap
    /// keeps the rendered year at exactly four digits.
    pub open spec fn wf(self) -> bool {
        &&& self.year <= 9999
        &&& 1 <= self.month <= 12
        &&& 1 <= self.day <= 31
        &&& self.hour <= 23
        &&& self.minute <= 59
        &&& self.second <= 59
    }

    pub fn new(year: u16, month: u8, day: u8, hour: u8, minute: u8, second: u8) -> (r: Timestamp)
        requires
            year <= 9999,
            1 <= month <= 12,
            1 <= day <= 31,
            hour <= 23,
            minute <= 59,
            second <= 59,
        ensures
            r == (Timestamp { year, month, day, hour, minute, second }),
            r.wf(),
    {
        Timestamp { year, month, day, hour, minute, second }
    }
}

/// `v` forced into `lo ..= hi`.
pub open spec fn spec_clamp(v: int, lo: int, hi: int) -> int {
    if v < lo {
        lo
    } else if v > hi {
        hi
    } else {
        v
    }
}

impl Timestamp {
    /// Builds a well-formed timestamp from raw clock components,
    /// forcing each field into its range.
    pub fn clamped(year: i32, month: u32, day: u32, hour: u32, minute: u32, second: u32) -> (r:
        Timestamp)
        ensures
            r.year == spec_clamp(year as int, 0, 9999),
            r.month == spec_clamp(month as int, 1, 12),
            r.day == spec_clamp(day as int, 1, 31),
            r.hour == spec_clamp(hour as int, 0, 23),
            r.minute == spec_clamp(minute as int, 0, 59),
            r.second == spec_clamp(second as int, 0, 59),
            r.wf(),
    {
        let y: u16 = if year < 0 {
            0
        } else if year > 9999 {
            9999
        } else {
            year as u16
        };
        let mo: u8 = if month < 1 {
            1
        } else if month > 12 {
            12
        } else {
            month as u8
        };
        let d: u8 = if day < 1 {
            1
        } else if day > 31 {
            31
        } else {
            day as u8
        };
        let h: u8 = if hour > 23 {
            23
        } else {
            hour as u8
        };
        let mi: u8 = if minute > 59 {
            59
        } else {
            minute as u8
        };
        let s: u8 = if second > 59 {
            59
        } else {
            second as u8
        };
        Timestamp { year: y, month: mo, day: d, hour: h, minute: mi, second: s }
    }
}

/// One observed input occurrence, as stored in the capture buffer.
#[derive(Debug)]
pub struct CapturedEvent {
    pub category: Category,
    /// The key or mouse-button name; the sentinel `"Move"` for pointer motion.
    pub identifier: String,
    pub action: Action,
    pub position: Position,
    pub timestamp: Timestamp,
}

/// The mathematical model of a captured event: the identifier as a
/// character sequence, the remaining fields as themselves.
pub ghost struct EventModel {
    pub category: Category,
    pub identifier: Seq<char>,
    pub action: Action,
    pub position: Position,
    pub timestamp: Timestamp,
}

impl View for CapturedEvent {
    type V = EventModel;

    open spec fn view(&self) -> EventModel {
        EventModel {
            category: self.category,
            identifier: self.identifier@,
            action: self.action,
            position: self.position,
            timestamp: self.timestamp,
        }
    }
}

/// A raw notification from the host's global input stream, before
/// normalization. The variants are an explicit allow-list: only the
/// first five are of interest, and `Wheel` is deliberately ignored.
#[derive(Debug)]
pub enum RawNotification {
    KeyDown { key: String },
    KeyUp { key: String },
    ButtonDown { button: String },
    ButtonUp { button: String },
    PointerMove { x: i64, y: i64 },
    Wheel { delta_x: i64, delta_y: i64 },
}

/// The normalization mapping: which record, if any, a raw notification
/// produces when it is observed at moment `ts`.
pub open spec fn spec_normalize(raw: RawNotification, ts: Timestamp) -> Option<EventModel> {
    match raw {
        RawNotification::KeyDown { key } => Some(
            EventModel {
                category: Category::Keyboard,
                identifier: key@,
                action: Action::Pressed,
                position: Position::NotApplicable,
                timestamp: ts,
            },
        ),
        RawNotification::KeyUp { key } => Some(
            EventModel {
                category: Category::Keyboard,
                identifier: key@,
                action: Action::Released,
                position: Position::NotApplicable,
                timestamp: ts,
            },
        ),
        RawNotification::ButtonDown { button } => Some(
            EventModel {
                category: Category::Mouse,
                identifier: button@,
                action: Action::Pressed,
                position: Position::NotApplicable,
                timestamp: ts,
            },
        ),
        RawNotification::ButtonUp { button } => Some(
            EventModel {
                category: Category::Mouse,
                identifier: button@,
                action: Action::Released,
                position: Position::NotApplicable,
                timestamp: ts,
            },
        ),
        RawNotification::PointerMove { x, y } => Some(
            EventModel {
                category: Category::Mouse,
                identifier: "Move"@,
                action: Action::Moved,
                position: Position::At { x, y },
                timestamp: ts,
            },
        ),
        RawNotification::Wheel { .. } => None,
    }
}

/// The model of an optional captured event.
pub open spec fn opt_model(r: Option<CapturedEvent>) -> Option<EventModel> {
    match r {
        Some(e) => Some(e@),
        None => None,
    }
}

/// Maps a raw notification observed at moment `ts` into a uniform
/// record, or into nothing when the notification kind is not of
/// interest. Pure: the result is exactly `spec_normalize(raw, ts)`.
pub fn normalize(raw: RawNotification, ts: Timestamp) -> (r: Option<CapturedEvent>)
    ensures
        opt_model(r) == spec_normalize(raw, ts),
{
    match raw {
        RawNotification::KeyDown { key } => Some(
            CapturedEvent {
                category: Category::Keyboard,
                identifier: key,
                action: Action::Pressed,
                position: Position::NotApplicable,
                timestamp: ts,
            },
        ),
        RawNotification::KeyUp { key } => Some(
            CapturedEvent {
                category: Category::Keyboard,
                identifier: key,
                action: Action::Released,
                position: Position::NotApplicable,
                timestamp: ts,
            },
        ),
        RawNotification::ButtonDown { button } => Some(
            CapturedEvent {
                category: Category::Mouse,
                identifier: button,
                action: Action::Pressed,
                position: Position::NotApplicable,
                timestamp: ts,
            },
        ),
        RawNotification::ButtonUp { button } => Some(
            CapturedEvent {
                category: Category::Mouse,
                identifier: button,
                action: Action::Released,
                position: Position::NotApplicable,
                timestamp: ts,
            },
        ),
        RawNotification::PointerMove { x, y } => Some(
            CapturedEvent {
                category: Category::Mouse,
                identifier: "Move".to_owned(),
                action: Action::Moved,
                position: Position::At { x, y },
                timestamp: ts,
            },
        ),
        RawNotification::Wheel { .. } => None,
    }
}

/// Normalizes a raw notification, sampling the timestamp at the
/// moment of normalization from the local wall clock. Whatever moment
/// the clock reports, the result is the normalization mapping applied
/// at some well-formed timestamp.
pub fn process_event(raw: RawNotification) -> (r: Option<CapturedEvent>)
    ensures
        exists|ts: Timestamp| #[trigger] ts.wf() && opt_model(r) == spec_normalize(raw, ts),
{
    let (year, month, day, hour, minute, second) = crate::clock::now_parts();
    let ts = Timestamp::clamped(year, month, day, hour, minute, second);
    let r = normalize(raw, ts);
    proof {
        assert(ts.wf() && opt_model(r) == spec_normalize(raw, ts));
    }
    r
}

} // verus!
