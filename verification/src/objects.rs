//! The registry of JN object types: which entity each type id builds, and
//! the canonical editor-facing name of each implemented type.

use vstd::prelude::*;

verus! {

/// Number of named object types.
pub const OBJECT_TYPE_COUNT: usize = 38;

/// Type id of entry `i` of the name table (ascending ids).
pub open spec fn table_id(i: int) -> u8 {
    if i == 0 {
        0
    } else if i == 1 {
        1
    } else if i == 2 {
        2
    } else if i == 3 {
        12
    } else if i == 4 {
        14
    } else if i == 5 {
        15
    } else if i == 6 {
        20
    } else if i == 7 {
        21
    } else if i == 8 {
        22
    } else if i == 9 {
        24
    } else if i == 10 {
        25
    } else if i == 11 {
        26
    } else if i == 12 {
        27
    } else if i == 13 {
        28
    } else if i == 14 {
        29
    } else if i == 15 {
        30
    } else if i == 16 {
        31
    } else if i == 17 {
        32
    } else if i == 18 {
        33
    } else if i == 19 {
        35
    } else if i == 20 {
        36
    } else if i == 21 {
        37
    } else if i == 22 {
        38
    } else if i == 23 {
        39
    } else if i == 24 {
        42
    } else if i == 25 {
        45
    } else if i == 26 {
        46
    } else if i == 27 {
        47
    } else if i == 28 {
        48
    } else if i == 29 {
        50
    } else if i == 30 {
        51
    } else if i == 31 {
        53
    } else if i == 32 {
        56
    } else if i == 33 {
        58
    } else if i == 34 {
        61
    } else if i == 35 {
        62
    } else if i == 36 {
        64
    } else {
        65
    }
}

/// Name of entry `i` of the name table.
pub open spec fn table_name(i: int) -> Seq<char> {
    if i == 0 {
        "Player"@
    } else if i == 1 {
        "Apple"@
    } else if i == 2 {
        "Knife"@
    } else if i == 3 {
        "Checkpoint"@
    } else if i == 4 {
        "RedKey"@
    } else if i == 5 {
        "TouchTrigger"@
    } else if i == 6 {
        "TextTile"@
    } else if i == 7 {
        "TextTile"@
    } else if i == 8 {
        "Frog"@
    } else if i == 9 {
        "LockedDoor"@
    } else if i == 10 {
        "CollapsingCeiling"@
    } else if i == 11 {
        "ToggleWall"@
    } else if i == 12 {
        "Point"@
    } else if i == 13 {
        "Bonus"@
    } else if i == 14 {
        "GiantAnt"@
    } else if i == 15 {
        "Firebird"@
    } else if i == 16 {
        "Flame"@
    } else if i == 17 {
        "Switch"@
    } else if i == 18 {
        "RockKey"@
    } else if i == 19 {
        "RollingRock"@
    } else if i == 20 {
        "Bullet"@
    } else if i == 21 {
        "HitFire"@
    } else if i == 22 {
        "FallingSpike"@
    } else if i == 23 {
        "Snake"@
    } else if i == 24 {
        "HugeLetterTile"@
    } else if i == 25 {
        "Hive"@
    } else if i == 26 {
        "Bees"@
    } else if i == 27 {
        "Crab"@
    } else if i == 28 {
        "Gator"@
    } else if i == 29 {
        "Blade"@
    } else if i == 30 {
        "Skull"@
    } else if i == 31 {
        "Ghost"@
    } else if i == 32 {
        "FirebirdPlayer"@
    } else if i == 33 {
        "Bubbles"@
    } else if i == 34 {
        "Lift"@
    } else if i == 35 {
        "FirebirdWeapon"@
    } else if i == 36 {
        "Eyes"@
    } else {
        "Spark"@
    }
}

/// Entry `i` of the name table: `(type id, canonical name)`.
pub fn object_type_entry(i: usize) -> (r: (u8, &'static str))
    requires
        i < OBJECT_TYPE_COUNT,
    ensures
        r.0 == table_id(i as int),
        r.1@ == table_name(i as int),
{
    match i {
        0 => (0, "Player"),
        1 => (1, "Apple"),
        2 => (2, "Knife"),
        3 => (12, "Checkpoint"),
        4 => (14, "RedKey"),
        5 => (15, "TouchTrigger"),
        6 => (20, "TextTile"),
        7 => (21, "TextTile"),
        8 => (22, "Frog"),
        9 => (24, "LockedDoor"),
        10 => (25, "CollapsingCeiling"),
        11 => (26, "ToggleWall"),
        12 => (27, "Point"),
        13 => (28, "Bonus"),
        14 => (29, "GiantAnt"),
        15 => (30, "Firebird"),
        16 => (31, "Flame"),
        17 => (32, "Switch"),
        18 => (33, "RockKey"),
        19 => (35, "RollingRock"),
        20 => (36, "Bullet"),
        21 => (37, "HitFire"),
        22 => (38, "FallingSpike"),
        23 => (39, "Snake"),
        24 => (42, "HugeLetterTile"),
        25 => (45, "Hive"),
        26 => (46, "Bees"),
        27 => (47, "Crab"),
        28 => (48, "Gator"),
        29 => (50, "Blade"),
        30 => (51, "Skull"),
        31 => (53, "Ghost"),
        32 => (56, "FirebirdPlayer"),
        33 => (58, "Bubbles"),
        34 => (61, "Lift"),
        35 => (62, "FirebirdWeapon"),
        36 => (64, "Eyes"),
        _ => (65, "Spark"),
    }
}

/// `type_id` has an entry in the name table.
pub open spec fn is_named(type_id: u8) -> bool {
    exists|i: int| 0 <= i < OBJECT_TYPE_COUNT && #[trigger] table_id(i) == type_id
}

/// ASCII lower-case of a character (other characters unchanged).
pub open spec fn ascii_lower(c: char) -> char {
    if 'A' <= c <= 'Z' {
        ((c as u8) + 32) as char
    } else {
        c
    }
}

/// The two strings are equal ignoring ASCII case.
pub open spec fn eq_ignore_ascii_case(a: Seq<char>, b: Seq<char>) -> bool {
    a.len() == b.len() && forall|i: int| 0 <= i < a.len() ==> ascii_lower(#[trigger] a[i]) == ascii_lower(b[i])
}

fn lower_char(c: char) -> (r: char)
    ensures
        r == ascii_lower(c),
{
    if 'A' <= c && c <= 'Z' {
        ((c as u8) + 32) as char
    } else {
        c
    }
}

/// Equality of two strings ignoring ASCII case.
pub fn str_eq_ignore_ascii_case(a: &str, b: &str) -> (r: bool)
    ensures
        r == eq_ignore_ascii_case(a@, b@),
{
    let n = a.unicode_len();
    if n != b.unicode_len() {
        return false;
    }
    let mut i: usize = 0;
    while i < n
        invariant
            n == a@.len(),
            n == b@.len(),
            0 <= i <= n,
            forall|j: int| 0 <= j < i ==> ascii_lower(#[trigger] a@[j]) == ascii_lower(b@[j]),
        decreases n - i,
    {
        if lower_char(a.get_char(i)) != lower_char(b.get_char(i)) {
            return false;
        }
        i = i + 1;
    }
    true
}

/// The canonical name of `type_id`: the name of its table entry, or `None`
/// for a type without an implemented entity.
pub fn object_type_name(type_id: u8) -> (r: Option<&'static str>)
    ensures
        r is Some <==> is_named(type_id),
        r matches Some(s) ==> exists|i: int|
            0 <= i < OBJECT_TYPE_COUNT && #[trigger] table_id(i) == type_id && s@ == table_name(i),
{
    let mut i: usize = 0;
    while i < OBJECT_TYPE_COUNT
        invariant
            0 <= i <= OBJECT_TYPE_COUNT,
            forall|j: int| 0 <= j < i ==> #[trigger] table_id(j) != type_id,
        decreases OBJECT_TYPE_COUNT - i,
    {
        let (id, name) = object_type_entry(i);
        if id == type_id {
            return Some(name);
        }
        i = i + 1;
    }
    None
}

/// The lowest type id whose canonical name equals `name` ignoring ASCII
/// case, or `None` when no implemented type carries that name.
pub fn object_type_id(name: &str) -> (r: Option<u8>)
    ensures
        r is None <==> forall|i: int|
            0 <= i < OBJECT_TYPE_COUNT ==> !eq_ignore_ascii_case(table_name(i), name@),
        r matches Some(id) ==> exists|i: int|
            0 <= i < OBJECT_TYPE_COUNT && #[trigger] table_id(i) == id && eq_ignore_ascii_case(
                table_name(i),
                name@,
            ) && forall|j: int|
                0 <= j < OBJECT_TYPE_COUNT && eq_ignore_ascii_case(table_name(j), name@)
                    ==> id <= #[trigger] table_id(j),
{
    proof {
        lemma_table_ascending();
    }
    let mut i: usize = 0;
    while i < OBJECT_TYPE_COUNT
        invariant
            0 <= i <= OBJECT_TYPE_COUNT,
            forall|a: int, b: int| 0 <= a < b < OBJECT_TYPE_COUNT ==> #[trigger] table_id(a) < #[trigger] table_id(b),
            forall|j: int| 0 <= j < i ==> !eq_ignore_ascii_case(#[trigger] table_name(j), name@),
        decreases OBJECT_TYPE_COUNT - i,
    {
        let (id, entry_name) = object_type_entry(i);
        if str_eq_ignore_ascii_case(entry_name, name) {
            proof {
                assert forall|j: int|
                    0 <= j < OBJECT_TYPE_COUNT && eq_ignore_ascii_case(table_name(j), name@)
                        implies id <= #[trigger] table_id(j) by {
                    if j < i {
                        assert(!eq_ignore_ascii_case(table_name(j), name@));
                    } else if j > i {
                        assert(table_id(i as int) < table_id(j));
                    }
                }
            }
            return Some(id);
        }
        i = i + 1;
    }
    None
}

/// Length, and lower-cased first and last letters, of a non-empty name.
pub open spec fn name_sig(s: Seq<char>) -> (nat, char, char) {
    (s.len(), ascii_lower(s[0]), ascii_lower(s[s.len() - 1]))
}

/// The table name a signature belongs to: no two different names of the
/// table share one.
spec fn name_of_sig(sig: (nat, char, char)) -> Seq<char> {
    if sig.0 == 6 && sig.1 == 'p' && sig.2 == 'r' {
        "Player"@
    } else if sig.0 == 5 && sig.1 == 'a' && sig.2 == 'e' {
        "Apple"@
    } else if sig.0 == 5 && sig.1 == 'k' && sig.2 == 'e' {
        "Knife"@
    } else if sig.0 == 10 && sig.1 == 'c' && sig.2 == 't' {
        "Checkpoint"@
    } else if sig.0 == 6 && sig.1 == 'r' && sig.2 == 'y' {
        "RedKey"@
    } else if sig.0 == 12 && sig.1 == 't' && sig.2 == 'r' {
        "TouchTrigger"@
    } else if sig.0 == 8 && sig.1 == 't' && sig.2 == 'e' {
        "TextTile"@
    } else if sig.0 == 4 && sig.1 == 'f' && sig.2 == 'g' {
        "Frog"@
    } else if sig.0 == 10 && sig.1 == 'l' && sig.2 == 'r' {
        "LockedDoor"@
    } else if sig.0 == 17 && sig.1 == 'c' && sig.2 == 'g' {
        "CollapsingCeiling"@
    } else if sig.0 == 10 && sig.1 == 't' && sig.2 == 'l' {
        "ToggleWall"@
    } else if sig.0 == 5 && sig.1 == 'p' && sig.2 == 't' {
        "Point"@
    } else if sig.0 == 5 && sig.1 == 'b' && sig.2 == 's' {
        "Bonus"@
    } else if sig.0 == 8 && sig.1 == 'g' && sig.2 == 't' {
        "GiantAnt"@
    } else if sig.0 == 8 && sig.1 == 'f' && sig.2 == 'd' {
        "Firebird"@
    } else if sig.0 == 5 && sig.1 == 'f' && sig.2 == 'e' {
        "Flame"@
    } else if sig.0 == 6 && sig.1 == 's' && sig.2 == 'h' {
        "Switch"@
    } else if sig.0 == 7 && sig.1 == 'r' && sig.2 == 'y' {
        "RockKey"@
    } else if sig.0 == 11 && sig.1 == 'r' && sig.2 == 'k' {
        "RollingRock"@
    } else if sig.0 == 6 && sig.1 == 'b' && sig.2 == 't' {
        "Bullet"@
    } else if sig.0 == 7 && sig.1 == 'h' && sig.2 == 'e' {
        "HitFire"@
    } else if sig.0 == 12 && sig.1 == 'f' && sig.2 == 'e' {
        "FallingSpike"@
    } else if sig.0 == 5 && sig.1 == 's' && sig.2 == 'e' {
        "Snake"@
    } else if sig.0 == 14 && sig.1 == 'h' && sig.2 == 'e' {
        "HugeLetterTile"@
    } else if sig.0 == 4 && sig.1 == 'h' && sig.2 == 'e' {
        "Hive"@
    } else if sig.0 == 4 && sig.1 == 'b' && sig.2 == 's' {
        "Bees"@
    } else if sig.0 == 4 && sig.1 == 'c' && sig.2 == 'b' {
        "Crab"@
    } else if sig.0 == 5 && sig.1 == 'g' && sig.2 == 'r' {
        "Gator"@
    } else if sig.0 == 5 && sig.1 == 'b' && sig.2 == 'e' {
        "Blade"@
    } else if sig.0 == 5 && sig.1 == 's' && sig.2 == 'l' {
        "Skull"@
    } else if sig.0 == 5 && sig.1 == 'g' && sig.2 == 't' {
        "Ghost"@
    } else if sig.0 == 14 && sig.1 == 'f' && sig.2 == 'r' {
        "FirebirdPlayer"@
    } else if sig.0 == 7 && sig.1 == 'b' && sig.2 == 's' {
        "Bubbles"@
    } else if sig.0 == 4 && sig.1 == 'l' && sig.2 == 't' {
        "Lift"@
    } else if sig.0 == 14 && sig.1 == 'f' && sig.2 == 'n' {
        "FirebirdWeapon"@
    } else if sig.0 == 4 && sig.1 == 'e' && sig.2 == 's' {
        "Eyes"@
    } else if sig.0 == 5 && sig.1 == 's' && sig.2 == 'k' {
        "Spark"@
    } else {
        Seq::empty()
    }
}

proof fn lemma_sig_names_entry(i: int)
    requires
        0 <= i < OBJECT_TYPE_COUNT,
    ensures
        table_name(i).len() > 0,
        name_of_sig(name_sig(table_name(i))) == table_name(i),
{
    reveal_strlit("Player");
    reveal_strlit("Apple");
    reveal_strlit("Knife");
    reveal_strlit("Checkpoint");
    reveal_strlit("RedKey");
    reveal_strlit("TouchTrigger");
    reveal_strlit("TextTile");
    reveal_strlit("Frog");
    reveal_strlit("LockedDoor");
    reveal_strlit("CollapsingCeiling");
    reveal_strlit("ToggleWall");
    reveal_strlit("Point");
    reveal_strlit("Bonus");
    reveal_strlit("GiantAnt");
    reveal_strlit("Firebird");
    reveal_strlit("Flame");
    reveal_strlit("Switch");
    reveal_strlit("RockKey");
    reveal_strlit("RollingRock");
    reveal_strlit("Bullet");
    reveal_strlit("HitFire");
    reveal_strlit("FallingSpike");
    reveal_strlit("Snake");
    reveal_strlit("HugeLetterTile");
    reveal_strlit("Hive");
    reveal_strlit("Bees");
    reveal_strlit("Crab");
    reveal_strlit("Gator");
    reveal_strlit("Blade");
    reveal_strlit("Skull");
    reveal_strlit("Ghost");
    reveal_strlit("FirebirdPlayer");
    reveal_strlit("Bubbles");
    reveal_strlit("Lift");
    reveal_strlit("FirebirdWeapon");
    reveal_strlit("Eyes");
    reveal_strlit("Spark");
}

/// Names of the table that agree ignoring ASCII case are the same name: a
/// case-insensitive lookup of a table name only ever lands on entries that
/// carry exactly that name.
pub proof fn lemma_table_names_case_distinct(i: int, k: int)
    requires
        0 <= i < OBJECT_TYPE_COUNT,
        0 <= k < OBJECT_TYPE_COUNT,
        eq_ignore_ascii_case(table_name(k), table_name(i)),
    ensures
        table_name(k) == table_name(i),
{
    lemma_sig_names_entry(i);
    lemma_sig_names_entry(k);
    let a = table_name(k);
    let b = table_name(i);
    assert(ascii_lower(a[0]) == ascii_lower(b[0]));
    assert(ascii_lower(a[a.len() - 1]) == ascii_lower(b[b.len() - 1]));
    assert(name_sig(a) == name_sig(b));
}

/// Looking up the name of a named type resolves to the lowest id carrying
/// that very name, which is at most the type's own id: whenever `id` is what
/// [`object_type_id`] may answer for the name of table entry `i`, `id` is no
/// greater than entry `i`'s id and names the same name.
pub proof fn lemma_name_resolves_to_canonical_id(i: int, id: u8)
    requires
        0 <= i < OBJECT_TYPE_COUNT,
        exists|k: int|
            0 <= k < OBJECT_TYPE_COUNT && #[trigger] table_id(k) == id && eq_ignore_ascii_case(table_name(k), table_name(i))
                && forall|j: int|
                0 <= j < OBJECT_TYPE_COUNT && eq_ignore_ascii_case(table_name(j), table_name(i)) ==> id <= #[trigger] table_id(j),
    ensures
        id <= table_id(i),
        exists|k: int| 0 <= k < OBJECT_TYPE_COUNT && #[trigger] table_id(k) == id && table_name(k) == table_name(i),
{
    let k = choose|k: int|
        0 <= k < OBJECT_TYPE_COUNT && #[trigger] table_id(k) == id && eq_ignore_ascii_case(table_name(k), table_name(i))
            && forall|j: int|
            0 <= j < OBJECT_TYPE_COUNT && eq_ignore_ascii_case(table_name(j), table_name(i)) ==> id <= #[trigger] table_id(j);
    assert(eq_ignore_ascii_case(table_name(i), table_name(i)));
    lemma_table_names_case_distinct(i, k);
}

/// The table's ids are strictly ascending, hence unique.
pub proof fn lemma_table_ascending()
    ensures
        forall|a: int, b: int| 0 <= a < b < OBJECT_TYPE_COUNT ==> #[trigger] table_id(a) < #[trigger] table_id(b),
{
    assert forall|a: int, b: int| 0 <= a < b < OBJECT_TYPE_COUNT implies #[trigger] table_id(a) < #[trigger] table_id(b) by {
        assert(forall|k: int| 0 <= k < OBJECT_TYPE_COUNT - 1 ==> #[trigger] table_id(k) < table_id(k + 1));
        lemma_ascending_chain(a, b);
    }
}

proof fn lemma_ascending_chain(a: int, b: int)
    requires
        0 <= a < b < OBJECT_TYPE_COUNT,
        forall|k: int| 0 <= k < OBJECT_TYPE_COUNT - 1 ==> #[trigger] table_id(k) < table_id(k + 1),
    ensures
        table_id(a) < table_id(b),
    decreases b - a,
{
    if b > a + 1 {
        lemma_ascending_chain(a, b - 1);
        assert(table_id(b - 1) < table_id(b));
    } else {
        assert(table_id(a) < table_id(a + 1));
    }
}

/// Entity kind that a JN object type builds.
#[derive(Clone, Copy, Debug, PartialEq, Eq, Structural)]
pub enum ObjectKind {
    Player,
    Apple,
    Knife,
    Checkpoint,
    RedKey,
    TouchTrigger,
    TextTile,
    Frog,
    LockedDoor,
    CollapsingCeiling,
    ToggleWall,
    Point,
    Bonus,
    GiantAnt,
    FirebirdEnemy,
    Flame,
    Switch,
    RockKey,
    RollingRock,
    Bullet,
    HitFire,
    FallingSpike,
    Snake,
    SilentStub,
    HugeLetterTile,
    Hive,
    Bees,
    Crab,
    Gator,
    Blade,
    Skull,
    GhostEnemy,
    FirebirdPlayer,
    Bubbles,
    Lift,
    FirebirdWeapon,
    Eyes,
    Spark,
    /// Any type without a registered entity.
    Stub,
}

/// The entity kind registered for `type_id`; types 40, 49 and 67 build a
/// silent stub, every other unregistered type a (warning) stub.
pub open spec fn spec_object_kind(type_id: u8) -> ObjectKind {
    if type_id == 0 {
        ObjectKind::Player
    } else     if type_id == 1 {
        ObjectKind::Apple
    } else     if type_id == 2 {
        ObjectKind::Knife
    } else     if type_id == 12 {
        ObjectKind::Checkpoint
    } else     if type_id == 14 {
        ObjectKind::RedKey
    } else     if type_id == 15 {
        ObjectKind::TouchTrigger
    } else     if type_id == 20 || type_id == 21 {
        ObjectKind::TextTile
    } else     if type_id == 22 {
        ObjectKind::Frog
    } else     if type_id == 24 {
        ObjectKind::LockedDoor
    } else     if type_id == 25 {
        ObjectKind::CollapsingCeiling
    } else     if type_id == 26 {
        ObjectKind::ToggleWall
    } else     if type_id == 27 {
        ObjectKind::Point
    } else     if type_id == 28 {
        ObjectKind::Bonus
    } else     if type_id == 29 {
        ObjectKind::GiantAnt
    } else     if type_id == 30 {
        ObjectKind::FirebirdEnemy
    } else     if type_id == 31 {
        ObjectKind::Flame
    } else     if type_id == 32 {
        ObjectKind::Switch
    } else     if type_id == 33 {
        ObjectKind::RockKey
    } else     if type_id == 35 {
        ObjectKind::RollingRock
    } else     if type_id == 36 {
        ObjectKind::Bullet
    } else     if type_id == 37 {
        ObjectKind::HitFire
    } else     if type_id == 38 {
        ObjectKind::FallingSpike
    } else     if type_id == 39 {
        ObjectKind::Snake
    } else     if type_id == 40 || type_id == 49 || type_id == 67 {
        ObjectKind::SilentStub
    } else     if type_id == 42 {
        ObjectKind::HugeLetterTile
    } else     if type_id == 45 {
        ObjectKind::Hive
    } else     if type_id == 46 {
        ObjectKind::Bees
    } else     if type_id == 47 {
        ObjectKind::Crab
    } else     if type_id == 48 {
        ObjectKind::Gator
    } else     if type_id == 50 {
        ObjectKind::Blade
    } else     if type_id == 51 {
        ObjectKind::Skull
    } else     if type_id == 53 {
        ObjectKind::GhostEnemy
    } else     if type_id == 56 {
        ObjectKind::FirebirdPlayer
    } else     if type_id == 58 {
        ObjectKind::Bubbles
    } else     if type_id == 61 {
        ObjectKind::Lift
    } else     if type_id == 62 {
        ObjectKind::FirebirdWeapon
    } else     if type_id == 64 {
        ObjectKind::Eyes
    } else     if type_id == 65 {
        ObjectKind::Spark
    } else {
        ObjectKind::Stub
    }
}

/// The factory's dispatch table: the entity kind a JN object of `type_id`
/// builds.
pub fn object_kind(type_id: u8) -> (r: ObjectKind)
    ensures
        r == spec_object_kind(type_id),
{
    match type_id {
        0 => ObjectKind::Player,
        1 => ObjectKind::Apple,
        2 => ObjectKind::Knife,
        12 => ObjectKind::Checkpoint,
        14 => ObjectKind::RedKey,
        15 => ObjectKind::TouchTrigger,
        20 | 21 => ObjectKind::TextTile,
        22 => ObjectKind::Frog,
        24 => ObjectKind::LockedDoor,
        25 => ObjectKind::CollapsingCeiling,
        26 => ObjectKind::ToggleWall,
        27 => ObjectKind::Point,
        28 => ObjectKind::Bonus,
        29 => ObjectKind::GiantAnt,
        30 => ObjectKind::FirebirdEnemy,
        31 => ObjectKind::Flame,
        32 => ObjectKind::Switch,
        33 => ObjectKind::RockKey,
        35 => ObjectKind::RollingRock,
        36 => ObjectKind::Bullet,
        37 => ObjectKind::HitFire,
        38 => ObjectKind::FallingSpike,
        39 => ObjectKind::Snake,
        40 | 49 | 67 => ObjectKind::SilentStub,
        42 => ObjectKind::HugeLetterTile,
        45 => ObjectKind::Hive,
        46 => ObjectKind::Bees,
        47 => ObjectKind::Crab,
        48 => ObjectKind::Gator,
        50 => ObjectKind::Blade,
        51 => ObjectKind::Skull,
        53 => ObjectKind::GhostEnemy,
        56 => ObjectKind::FirebirdPlayer,
        58 => ObjectKind::Bubbles,
        61 => ObjectKind::Lift,
        62 => ObjectKind::FirebirdWeapon,
        64 => ObjectKind::Eyes,
        65 => ObjectKind::Spark,
        _ => ObjectKind::Stub,
    }
}

} // verus!
