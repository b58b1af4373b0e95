//! Level-exit checkpoints (JN object type 12): touching one asks the level
//! loop to change level, either to the numbered level in the record's
//! counter or, when the record's string starts with `!`, back to the map.

use vstd::prelude::*;

use crate::items::record_box;
use crate::record::JnObject;
use crate::world::{Message, MessagePayload, MessageType, Rect};

verus! {

/// Level number of the world map.
pub const MAP_LEVEL: i32 = -1;

/// Decimal digit character of `d` (0..=9).
pub open spec fn digit_char(d: int) -> char {
    if d == 0 {
        '0'
    } else if d == 1 {
        '1'
    } else if d == 2 {
        '2'
    } else if d == 3 {
        '3'
    } else if d == 4 {
        '4'
    } else if d == 5 {
        '5'
    } else if d == 6 {
        '6'
    } else if d == 7 {
        '7'
    } else if d == 8 {
        '8'
    } else {
        '9'
    }
}

/// Decimal digits of a natural number, most significant first.
pub open spec fn decimal_digits(n: nat) -> Seq<char>
    decreases n,
{
    if n < 10 {
        seq![digit_char(n as int)]
    } else {
        decimal_digits(n / 10) + seq![digit_char((n % 10) as int)]
    }
}

/// Decimal text of an integer, with a leading `-` when negative.
pub open spec fn decimal_text(v: int) -> Seq<char> {
    if v < 0 {
        seq!['-'] + decimal_digits((-v) as nat)
    } else {
        decimal_digits(v as nat)
    }
}

/// File name of level `n` in episode 1: `"{n}.JN1"`.
pub open spec fn level_file_text(n: int) -> Seq<char> {
    decimal_text(n) + seq!['.', 'J', 'N', '1']
}

/// File name of the episode-1 world map.
pub open spec fn map_file_text() -> Seq<char> {
    seq!['M', 'A', 'P', '.', 'J', 'N', '1']
}

fn digit_str(d: u64) -> (r: &'static str)
    requires
        d < 10,
    ensures
        r@ == seq![digit_char(d as int)],
{
    if d == 0 {
        proof { reveal_strlit("0"); }
        "0"
    } else if d == 1 {
        proof { reveal_strlit("1"); }
        "1"
    } else if d == 2 {
        proof { reveal_strlit("2"); }
        "2"
    } else if d == 3 {
        proof { reveal_strlit("3"); }
        "3"
    } else if d == 4 {
        proof { reveal_strlit("4"); }
        "4"
    } else if d == 5 {
        proof { reveal_strlit("5"); }
        "5"
    } else if d == 6 {
        proof { reveal_strlit("6"); }
        "6"
    } else if d == 7 {
        proof { reveal_strlit("7"); }
        "7"
    } else if d == 8 {
        proof { reveal_strlit("8"); }
        "8"
    } else {
        proof { reveal_strlit("9"); }
        "9"
    }
}

/// Appends the decimal digits of `n`.
pub fn append_digits(s: &mut String, n: u64)
    ensures
        final(s)@ == old(s)@ + decimal_digits(n as nat),
    decreases n,
{
    if n >= 10 {
        append_digits(s, n / 10);
        s.append(digit_str(n % 10));
        assert(final(s)@ =~= old(s)@ + decimal_digits(n as nat));
    } else {
        s.append(digit_str(n));
        assert(final(s)@ =~= old(s)@ + decimal_digits(n as nat));
    }
}

/// `"{n}.JN1"`.
pub fn level_file_name(n: i32) -> (r: String)
    ensures
        r@ == level_file_text(n as int),
{
    let mut s = String::new();
    if n < 0 {
        proof { reveal_strlit("-"); }
        s.append("-");
        let m: u32 = if n == i32::MIN {
            0x8000_0000u32
        } else {
            (-n) as u32
        };
        append_digits(&mut s, m as u64);
    } else {
        append_digits(&mut s, n as u64);
    }
    proof { reveal_strlit(".JN1"); }
    s.append(".JN1");
    assert(s@ =~= level_file_text(n as int));
    s
}

fn map_file_name() -> (r: String)
    ensures
        r@ == map_file_text(),
{
    let mut s = String::new();
    proof { reveal_strlit("MAP.JN1"); }
    s.append("MAP.JN1");
    assert(s@ =~= map_file_text());
    s
}

/// The value starts with the map-return marker `!`.
pub open spec fn spec_starts_with_map_marker(value: Seq<char>) -> bool {
    value.len() > 0 && value[0] == '!'
}

/// `true` when `value` starts with `!`.
pub fn starts_with_map_marker(value: &str) -> (r: bool)
    ensures
        r == spec_starts_with_map_marker(value@),
{
    value.unicode_len() > 0 && value.get_char(0) == '!'
}

/// Where a checkpoint leads.
#[derive(Clone, Debug)]
pub enum CheckpointDestination {
    /// A numbered level and its file.
    Level { level_number: i32, level_file: String },
    /// The world map.
    WorldMap { map_file: String },
}

/// The destination's `(file, level number)`.
pub open spec fn destination_target(d: CheckpointDestination) -> (Seq<char>, i32) {
    match d {
        CheckpointDestination::Level { level_number, level_file } => (level_file@, level_number),
        CheckpointDestination::WorldMap { map_file } => (map_file@, MAP_LEVEL),
    }
}

/// The destination a record selects: the map when its string starts with
/// `!`, else the level numbered by its counter.
pub open spec fn spec_destination(counter: i16, string_entry: Option<Seq<char>>) -> (Seq<char>, i32) {
    if string_entry matches Some(s) && spec_starts_with_map_marker(s) {
        (map_file_text(), MAP_LEVEL)
    } else {
        (level_file_text(counter as int), counter as i32)
    }
}

impl CheckpointDestination {
    /// Resolves the destination from the record's counter and string.
    pub fn from_jn(counter: i16, string_entry: Option<&str>) -> (r: CheckpointDestination)
        ensures
            destination_target(r) == spec_destination(counter, match string_entry {
                Some(s) => Some(s@),
                None => None,
            }),
            (r is WorldMap) <==> (string_entry matches Some(s) && spec_starts_with_map_marker(s@)),
    {
        let to_map = match string_entry {
            Some(s) => starts_with_map_marker(s),
            None => false,
        };
        if to_map {
            CheckpointDestination::WorldMap { map_file: map_file_name() }
        } else {
            let level_number = counter as i32;
            CheckpointDestination::Level { level_number, level_file: level_file_name(level_number) }
        }
    }

    /// The change-level payload, leaving the destination in place.
    pub fn to_payload(&self) -> (r: MessagePayload)
        ensures
            r matches MessagePayload::ChangeLevel { level_file, level_number } && (level_file@,
                level_number) == destination_target(*self),
    {
        match self {
            CheckpointDestination::Level { level_number, level_file } => MessagePayload::ChangeLevel { level_file: level_file.clone(), level_number: *level_number },
            CheckpointDestination::WorldMap { map_file } => MessagePayload::ChangeLevel { level_file: map_file.clone(), level_number: MAP_LEVEL },
        }
    }

    /// The change-level payload: the target file and level number.
    pub fn into_payload(self) -> (r: MessagePayload)
        ensures
            r matches MessagePayload::ChangeLevel { level_file, level_number } && (level_file@,
                level_number) == destination_target(self),
    {
        match self {
            CheckpointDestination::Level { level_number, level_file } => MessagePayload::ChangeLevel { level_file, level_number },
            CheckpointDestination::WorldMap { map_file } => MessagePayload::ChangeLevel { level_file: map_file, level_number: MAP_LEVEL },
        }
    }
}

/// Checkpoint entity: fires once, then asks to be removed and is not saved.
#[derive(Clone, Debug)]
pub struct CheckPointEntity {
    pub bbox: Rect,
    pub counter: i16,
    pub destination: CheckpointDestination,
    pub fired: bool,
    pub origin: JnObject,
}

impl CheckPointEntity {
    pub fn new(item: &JnObject, string_entry: Option<&str>) -> (r: CheckPointEntity)
        ensures
            r.bbox == record_box(*item),
            r.counter == item.counter,
            destination_target(r.destination) == spec_destination(item.counter, match string_entry {
                Some(s) => Some(s@),
                None => None,
            }),
            (r.destination is WorldMap) <==> (string_entry matches Some(s) && spec_starts_with_map_marker(s@)),
            !r.fired,
            r.origin == *item,
    {
        CheckPointEntity {
            bbox: Rect::new(item.x as i32, item.y as i32, crate::items::at_least_block(item.width), crate::items::at_least_block(item.height)),
            counter: item.counter,
            destination: CheckpointDestination::from_jn(item.counter, string_entry),
            fired: false,
            origin: *item,
        }
    }

    /// The record's counter (the destination level number).
    pub fn counter(&self) -> (r: i16)
        ensures
            r == self.counter,
    {
        self.counter
    }

    /// Touch: the first one sends one change-level request to the
    /// destination; later touches do nothing.
    pub fn on_touch(&mut self) -> (r: Vec<Message>)
        ensures
            old(self).fired ==> r@.len() == 0,
            !old(self).fired ==> r@.len() == 1 && r@[0].msg_type == MessageType::CheckpointChangeLevel
                && (r@[0].payload matches MessagePayload::ChangeLevel { level_file, level_number }
                && (level_file@, level_number) == destination_target(old(self).destination)),
            final(self).fired,
            final(self).bbox == old(self).bbox,
            final(self).counter == old(self).counter,
            final(self).origin == old(self).origin,
    {
        let mut v: Vec<Message> = Vec::new();
        if self.fired {
            return v;
        }
        let payload = self.destination.to_payload();
        v.push(Message { msg_type: MessageType::CheckpointChangeLevel, payload });
        self.fired = true;
        v
    }

    /// The save record (position written back) until fired; a fired
    /// checkpoint is not saved.
    pub open spec fn spec_snapshot(&self) -> Option<JnObject> {
        if self.fired {
            None
        } else {
            Some(JnObject { x: self.bbox.x as u16, y: self.bbox.y as u16, ..self.origin })
        }
    }

    pub fn snapshot(&self) -> (r: Option<JnObject>)
        ensures
            r == self.spec_snapshot(),
    {
        if self.fired {
            return None;
        }
        let mut obj = self.origin;
        obj.set_position(self.bbox.x as u16, self.bbox.y as u16);
        Some(obj)
    }

    pub fn is_checkpoint(&self) -> (r: bool)
        ensures
            r,
    {
        true
    }

    /// Removed once fired.
    pub fn should_remove(&self) -> (r: bool)
        ensures
            r == self.fired,
    {
        self.fired
    }

    pub fn bounding_box(&self) -> (r: Rect)
        ensures
            r == self.bbox,
    {
        self.bbox
    }
}

} // verus!
