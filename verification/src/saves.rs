//! Rules of the writable runtime directory that holds the working config
//! and the save games: where it lives, which file names it accepts, what the
//! save files of a slot are called and which slots exist. Reading and
//! writing the files is left to the caller.

use vstd::prelude::*;

use crate::checkpoint::{append_digits, decimal_digits};

verus! {

/// Why a runtime-directory request was refused.
#[derive(Clone, Debug, PartialEq, Eq)]
pub enum SaveStoreError {
    /// The name is not a single plain file name.
    InvalidFilename,
    /// The save slot is past the episode's save table.
    InvalidSlot { slot: usize, count: usize },
}

/// A plain file name: not empty, no `/`, and neither `.` nor `..`, so it
/// names an entry of the directory itself.
pub open spec fn is_simple_filename(file: Seq<char>) -> bool {
    &&& file.len() > 0
    &&& forall|i: int| 0 <= i < file.len() ==> file[i] != '/'
    &&& file != seq!['.']
    &&& file != seq!['.', '.']
}

/// Accepts only a plain file name, so a caller cannot reach outside the
/// runtime directory.
pub fn validate_filename(file: &str) -> (r: Result<(), SaveStoreError>)
    ensures
        r is Ok <==> is_simple_filename(file@),
        r is Err ==> r == Err::<(), SaveStoreError>(SaveStoreError::InvalidFilename),
{
    let n = file.unicode_len();
    if n == 0 {
        return Err(SaveStoreError::InvalidFilename);
    }
    let mut i: usize = 0;
    while i < n
        invariant
            n == file@.len(),
            0 <= i <= n,
            forall|j: int| 0 <= j < i ==> file@[j] != '/',
        decreases n - i,
    {
        if file.get_char(i) == '/' {
            return Err(SaveStoreError::InvalidFilename);
        }
        i = i + 1;
    }
    if n == 1 && file.get_char(0) == '.' {
        assert(file@ =~= seq!['.']);
        return Err(SaveStoreError::InvalidFilename);
    }
    if n == 2 && file.get_char(0) == '.' && file.get_char(1) == '.' {
        assert(file@ =~= seq!['.', '.']);
        return Err(SaveStoreError::InvalidFilename);
    }
    proof {
        if file@ == seq!['.'] {
            assert(file@[0] == '.');
        }
        if file@ == seq!['.', '.'] {
            assert(file@[0] == '.' && file@[1] == '.');
        }
    }
    Ok(())
}

/// `part` appended to the path `base`: an absolute `part` replaces `base`;
/// otherwise a `/` separates them unless `base` is empty or already ends
/// with one.
pub open spec fn path_join(base: Seq<char>, part: Seq<char>) -> Seq<char> {
    if part.len() > 0 && part[0] == '/' {
        part
    } else if base.len() == 0 {
        part
    } else if base[base.len() - 1] == '/' {
        base + part
    } else {
        base + seq!['/'] + part
    }
}

pub fn join_path(base: &str, part: &str) -> (r: String)
    ensures
        r@ == path_join(base@, part@),
{
    let bn = base.unicode_len();
    let pn = part.unicode_len();
    let mut s = String::new();
    if pn > 0 && part.get_char(0) == '/' {
        s.append(part);
        assert(s@ =~= path_join(base@, part@));
        return s;
    }
    if bn == 0 {
        s.append(part);
        assert(s@ =~= path_join(base@, part@));
        return s;
    }
    s.append(base);
    if base.get_char(bn - 1) != '/' {
        proof { reveal_strlit("/"); }
        s.append("/");
    }
    s.append(part);
    assert(s@ =~= path_join(base@, part@));
    s
}

/// Name of the application directory under a base directory.
pub open spec fn app_dir_text() -> Seq<char> {
    seq!['o', 'p', 'e', 'n', 'j', 'i', 'l', 'l']
}

/// The per-episode runtime directory: the override when one is set, else
/// `openjill` under the platform data directory when there is one, else
/// `openjill` under the temporary directory; then the episode below it.
pub open spec fn spec_resolve_root(
    env_override: Option<Seq<char>>,
    data_dir: Option<Seq<char>>,
    temp_dir: Seq<char>,
    episode: Seq<char>,
) -> Seq<char> {
    let base = match env_override {
        Some(e) => e,
        None => match data_dir {
            Some(d) => path_join(d, app_dir_text()),
            None => path_join(temp_dir, app_dir_text()),
        },
    };
    path_join(base, episode)
}

pub fn resolve_root(env_override: Option<String>, data_dir: Option<String>, temp_dir: String, episode: &str) -> (r: String)
    ensures
        r@ == spec_resolve_root(
            match env_override { Some(e) => Some(e@), None => None },
            match data_dir { Some(d) => Some(d@), None => None },
            temp_dir@,
            episode@,
        ),
{
    proof { reveal_strlit("openjill"); }
    let base = match env_override {
        Some(e) => e,
        None => match data_dir {
            Some(d) => join_path(d.as_str(), "openjill"),
            None => join_path(temp_dir.as_str(), "openjill"),
        },
    };
    join_path(base.as_str(), episode)
}

/// A per-episode, user-writable directory for runtime state.
#[derive(Clone, Debug, PartialEq, Eq)]
pub struct RuntimeDir {
    root: String,
}

impl RuntimeDir {
    /// The directory's path.
    pub closed spec fn spec_root(&self) -> Seq<char> {
        self.root@
    }

    /// A runtime directory at an explicit path.
    pub fn with_root(root: String) -> (r: RuntimeDir)
        ensures
            r.spec_root() == root@,
    {
        RuntimeDir { root }
    }

    /// The runtime directory for an episode from the resolved inputs (see
    /// [`spec_resolve_root`]).
    pub fn for_episode(env_override: Option<String>, data_dir: Option<String>, temp_dir: String, episode: &str) -> (r: RuntimeDir)
        ensures
            r.spec_root() == spec_resolve_root(
                match env_override { Some(e) => Some(e@), None => None },
                match data_dir { Some(d) => Some(d@), None => None },
                temp_dir@,
                episode@,
            ),
    {
        RuntimeDir { root: resolve_root(env_override, data_dir, temp_dir, episode) }
    }

    /// The directory's path (it may not exist yet).
    pub fn path(&self) -> (r: &str)
        ensures
            r@ == self.spec_root(),
    {
        self.root.as_str()
    }

    /// Path of `file` in the directory; refused unless `file` is a plain
    /// file name.
    pub fn file_path(&self, file: &str) -> (r: Result<String, SaveStoreError>)
        ensures
            r is Ok <==> is_simple_filename(file@),
            r matches Ok(p) ==> p@ == path_join(self.spec_root(), file@),
            r is Err ==> r == Err::<String, SaveStoreError>(SaveStoreError::InvalidFilename),
    {
        match validate_filename(file) {
            Err(e) => Err(e),
            Ok(()) => Ok(join_path(self.root.as_str(), file)),
        }
    }

    /// Path of the temporary sibling `file.tmp` an atomic write goes
    /// through; refused unless `file` is a plain file name.
    pub fn temp_path(&self, file: &str) -> (r: Result<String, SaveStoreError>)
        ensures
            r is Ok <==> is_simple_filename(file@),
            r matches Ok(p) ==> p@ == path_join(self.spec_root(), file@ + seq!['.', 't', 'm', 'p']),
    {
        match validate_filename(file) {
            Err(e) => Err(e),
            Ok(()) => {
                let mut name = String::new();
                name.append(file);
                proof { reveal_strlit(".tmp"); }
                name.append(".tmp");
                Ok(join_path(self.root.as_str(), name.as_str()))
            },
        }
    }
}

/// Calls `std::path::Path::exists` on `path`. What it answers depends on
/// the file system at the moment of the call, so nothing is promised of the
/// result.
#[verifier::external_body]
fn path_exists(path: &str) -> (r: bool) {
    std::path::Path::new(path).exists()
}

impl RuntimeDir {
    /// `true` when `file` exists in the directory. An unsafe name is never
    /// looked up and answers `false`; for a plain name the answer is the
    /// file system's.
    pub fn file_exists(&self, file: &str) -> (r: bool)
        ensures
            r ==> is_simple_filename(file@),
    {
        match self.file_path(file) {
            Ok(p) => path_exists(p.as_str()),
            Err(_) => false,
        }
    }
}

/// Slot `slot` exists in a table of `count` slots.
pub fn check_slot(slot: usize, count: usize) -> (r: Result<(), SaveStoreError>)
    ensures
        r is Ok <==> slot < count,
        r is Err ==> r == Err::<(), SaveStoreError>(SaveStoreError::InvalidSlot { slot, count }),
{
    if slot < count {
        Ok(())
    } else {
        Err(SaveStoreError::InvalidSlot { slot, count })
    }
}

/// `"{prefix}SAVEM.{slot}"`: the file holding a slot's world map.
pub open spec fn save_map_text(prefix: Seq<char>, slot: nat) -> Seq<char> {
    prefix + seq!['S', 'A', 'V', 'E', 'M', '.'] + decimal_digits(slot)
}

/// `"{prefix}SAVE.{slot}"`: the file holding a slot's level.
pub open spec fn save_level_text(prefix: Seq<char>, slot: nat) -> Seq<char> {
    prefix + seq!['S', 'A', 'V', 'E', '.'] + decimal_digits(slot)
}

pub fn save_map_file_name(prefix: &str, slot: usize) -> (r: String)
    ensures
        r@ == save_map_text(prefix@, slot as nat),
{
    let mut s = String::new();
    s.append(prefix);
    proof { reveal_strlit("SAVEM."); }
    s.append("SAVEM.");
    append_digits(&mut s, slot as u64);
    assert(s@ =~= save_map_text(prefix@, slot as nat));
    s
}

pub fn save_level_file_name(prefix: &str, slot: usize) -> (r: String)
    ensures
        r@ == save_level_text(prefix@, slot as nat),
{
    let mut s = String::new();
    s.append(prefix);
    proof { reveal_strlit("SAVE."); }
    s.append("SAVE.");
    append_digits(&mut s, slot as u64);
    assert(s@ =~= save_level_text(prefix@, slot as nat));
    s
}

/// The two file names of a slot, `(map, level)`, once the slot is known to
/// exist in a table of `count` slots.
pub fn slot_file_names(prefix: &str, slot: usize, count: usize) -> (r: Result<(String, String), SaveStoreError>)
    ensures
        r is Ok <==> slot < count,
        r matches Ok(p) ==> p.0@ == save_map_text(prefix@, slot as nat) && p.1@ == save_level_text(prefix@, slot as nat),
        r is Err ==> r == Err::<(String, String), SaveStoreError>(SaveStoreError::InvalidSlot { slot, count }),
{
    match check_slot(slot, count) {
        Err(e) => Err(e),
        Ok(()) => Ok((save_map_file_name(prefix, slot), save_level_file_name(prefix, slot))),
    }
}

} // verus!
