//! Classification of candidate files and the data carried per target.
//!
//! A candidate becomes a validated target either by its file extension
//! (fast mode) or by its leading magic bytes (aggressive mode). Files below
//! the format's documented minimum size are rejected before any content is
//! considered.

use vstd::prelude::*;
use vstd::string::StrSliceExecFns;

verus! {

/// The documented minimum size of a valid database file in the supported
/// format: smaller files are rejected outright.
pub const SQLITE_MIN_SIZE: u64 = 512;

/// The number of leading magic bytes that identify the supported format.
pub const SQLITE_MAGIC_LEN: usize = 16;

/// The fixed magic byte sequence that opens every file of the supported
/// format: the ASCII text "SQLite format 3" followed by a NUL byte.
pub open spec fn sqlite_magic() -> Seq<u8> {
    seq![
        0x53u8, 0x51u8, 0x4cu8, 0x69u8, 0x74u8, 0x65u8, 0x20u8, 0x66u8, 0x6fu8, 0x72u8, 0x6du8,
        0x61u8, 0x74u8, 0x20u8, 0x33u8, 0x00u8,
    ]
}

/// The magic byte sequence as runtime bytes.
pub fn sqlite_magic_bytes() -> (v: Vec<u8>)
    ensures
        v@ == sqlite_magic(),
{
    let mut v: Vec<u8> = Vec::new();
    v.push(0x53);
    v.push(0x51);
    v.push(0x4c);
    v.push(0x69);
    v.push(0x74);
    v.push(0x65);
    v.push(0x20);
    v.push(0x66);
    v.push(0x6f);
    v.push(0x72);
    v.push(0x6d);
    v.push(0x61);
    v.push(0x74);
    v.push(0x20);
    v.push(0x33);
    v.push(0x00);
    proof {
        assert(v@ =~= sqlite_magic());
    }
    v
}

/// Whether a file whose leading bytes are `header` carries the format's
/// magic sequence. A header too short to contain the whole sequence
/// (a truncated read) does not match.
pub open spec fn header_matches(header: Seq<u8>) -> bool {
    header.len() >= sqlite_magic().len() && header.subrange(0, sqlite_magic().len() as int)
        == sqlite_magic()
}

/// A validated compaction target. It holds only its path; no I/O state is
/// cached across pipeline stages.
#[derive(Debug)]
pub struct SQLiteFile {
    path: String,
}

impl View for SQLiteFile {
    type V = Seq<char>;

    closed spec fn view(&self) -> Seq<char> {
        self.path@
    }
}

impl SQLiteFile {
    pub fn new(path: &str) -> (db: Self)
        ensures
            db@ == path@,
    {
        SQLiteFile { path: String::from_str(path) }
    }

    pub fn path(&self) -> (p: &str)
        ensures
            p@ == self@,
    {
        self.path.as_str()
    }

    /// Hands back the owned path.
    pub fn into_path(self) -> (p: String)
        ensures
            p@ == self@,
    {
        self.path
    }
}

/// The sizes measured immediately around one successful compaction.
#[derive(Debug)]
pub struct VacuumResult {
    db_file: SQLiteFile,
    size_before: u64,
    size_after: u64,
}

impl VacuumResult {
    /// The path of the compacted target.
    pub closed spec fn spec_path(self) -> Seq<char> {
        self.db_file@
    }

    /// The size read before the compaction ran.
    pub closed spec fn spec_size_before(self) -> u64 {
        self.size_before
    }

    /// The size read after the compaction ran.
    pub closed spec fn spec_size_after(self) -> u64 {
        self.size_after
    }

    /// The signed space saving of one compaction: size before minus size
    /// after. Negative when the file grew.
    pub open spec fn spec_delta(self) -> int {
        self.spec_size_before() - self.spec_size_after()
    }

    pub fn new(db_file: SQLiteFile, size_before: u64, size_after: u64) -> (r: Self)
        ensures
            r.spec_path() == db_file@,
            r.spec_size_before() == size_before,
            r.spec_size_after() == size_after,
    {
        VacuumResult { db_file, size_before, size_after }
    }

    pub fn delta(&self) -> (d: i128)
        ensures
            d == self.spec_delta(),
    {
        (self.size_before as i128) - (self.size_after as i128)
    }

    /// Hands back the validated target, for reporting.
    pub fn into_db_file(self) -> (db: SQLiteFile)
        ensures
            db@ == self.spec_path(),
    {
        self.db_file
    }
}

/// Compares the leading bytes of `header` against the format's magic
/// sequence, byte for byte.
pub fn check_header(header: &Vec<u8>) -> (ok: bool)
    ensures
        ok == header_matches(header@),
{
    let magic = sqlite_magic_bytes();
    if header.len() < magic.len() {
        return false;
    }
    let mut i: usize = 0;
    while i < magic.len()
        invariant
            0 <= i <= magic.len(),
            magic@ == sqlite_magic(),
            header@.len() >= magic@.len(),
            forall|j: int| 0 <= j < i ==> header@[j] == magic@[j],
        decreases magic.len() - i,
    {
        if header[i] != magic[i] {
            return false;
        }
        i += 1;
    }
    proof {
        assert(header@.subrange(0, sqlite_magic().len() as int) =~= sqlite_magic());
    }
    true
}

/// The extension of a path: the characters of the final path component
/// after its last dot. A component without a dot, or whose only dot opens
/// it (a hidden file), has none.
pub open spec fn extension_of(p: Seq<char>) -> Option<Seq<char>>
    decreases p.len(),
{
    if p.len() == 0 {
        None
    } else if p.last() == '/' {
        None
    } else if p.last() == '.' {
        if p.len() >= 2 && p[p.len() - 2] != '/' {
            Some(Seq::empty())
        } else {
            None
        }
    } else {
        match extension_of(p.drop_last()) {
            Some(e) => Some(e.push(p.last())),
            None => None,
        }
    }
}

/// Position `d` holds the dot that opens the extension of `p`: the last dot
/// of the final component, not the component's first character.
pub open spec fn is_extension_dot(p: Seq<char>, d: int) -> bool {
    &&& 1 <= d < p.len()
    &&& p[d] == '.'
    &&& p[d - 1] != '/'
    &&& forall|j: int| d < j < p.len() ==> p[j] != '.' && p[j] != '/'
}

/// Where an extension dot exists, the extension is everything after it.
pub proof fn lemma_extension_some(p: Seq<char>, d: int)
    requires
        is_extension_dot(p, d),
    ensures
        extension_of(p) == Some(p.subrange(d + 1, p.len() as int)),
    decreases p.len(),
{
    if d == p.len() - 1 {
        assert(p.subrange(d + 1, p.len() as int) =~= Seq::<char>::empty());
    } else {
        assert(p.last() != '.' && p.last() != '/');
        let q = p.drop_last();
        assert(is_extension_dot(q, d));
        lemma_extension_some(q, d);
        assert(q.subrange(d + 1, q.len() as int).push(p.last()) =~= p.subrange(
            d + 1,
            p.len() as int,
        ));
    }
}

/// Where no extension dot exists, there is no extension.
pub proof fn lemma_extension_none(p: Seq<char>)
    requires
        forall|d: int| !is_extension_dot(p, d),
    ensures
        extension_of(p) is None,
    decreases p.len(),
{
    if p.len() == 0 {
    } else if p.last() == '/' {
    } else if p.last() == '.' {
        assert(!is_extension_dot(p, p.len() - 1));
    } else {
        let q = p.drop_last();
        assert forall|d: int| !is_extension_dot(q, d) by {
            if is_extension_dot(q, d) {
                assert forall|j: int| d < j < p.len() implies p[j] != '.' && p[j] != '/' by {
                    if j < p.len() - 1 {
                        assert(q[j] == p[j]);
                    }
                }
                assert(is_extension_dot(p, d));
            }
        }
        lemma_extension_none(q);
    }
}

/// The extension of a path string, if its final component has one.
pub fn extension(path: &str) -> (r: Option<String>)
    ensures
        r matches Some(e) ==> extension_of(path@) == Some(e@),
        r is None ==> extension_of(path@) is None,
{
    let n = path.unicode_len();
    let mut i: usize = n;
    while i > 0
        invariant
            i <= n,
            n == path@.len(),
            forall|j: int| i <= j < n ==> path@[j] != '.' && path@[j] != '/',
        decreases i,
    {
        let c = path.get_char(i - 1);
        if c == '/' {
            proof {
                assert forall|d: int| !is_extension_dot(path@, d) by {
                    if is_extension_dot(path@, d) {
                        if d < i - 1 {
                            assert(path@[i - 1] != '/');
                        }
                    }
                }
                lemma_extension_none(path@);
            }
            return None;
        }
        if c == '.' {
            if i >= 2 {
                let prev = path.get_char(i - 2);
                if prev != '/' {
                    proof {
                        lemma_extension_some(path@, i - 1);
                    }
                    let e = path.substring_char(i, n);
                    return Some(e.to_owned());
                }
            }
            proof {
                assert forall|d: int| !is_extension_dot(path@, d) by {
                    if is_extension_dot(path@, d) {
                        if d < i - 1 {
                            assert(path@[i - 1] != '.');
                        }
                    }
                }
                lemma_extension_none(path@);
            }
            return None;
        }
        i -= 1;
    }
    proof {
        assert forall|d: int| !is_extension_dot(path@, d) by {
            if is_extension_dot(path@, d) {
                assert(path@[d] != '.');
            }
        }
        lemma_extension_none(path@);
    }
    None
}

/// The fixed allow-list of extensions that fast mode accepts.
pub open spec fn supported_extension(e: Option<Seq<char>>) -> bool {
    match e {
        Some(x) => x == "db"@ || x == "sqlite"@,
        None => false,
    }
}

/// What classification decided for one candidate, carrying the validated
/// target on acceptance.
#[derive(Debug)]
pub enum Classification {
    Accept(SQLiteFile),
    Reject,
    InspectHeader,
}

/// The bare decision, without the accepted target.
#[derive(Debug, PartialEq, Eq, Structural)]
pub enum Decision {
    Accept,
    Reject,
    InspectHeader,
}

pub open spec fn decision_of(c: Classification) -> Decision {
    match c {
        Classification::Accept(_) => Decision::Accept,
        Classification::Reject => Decision::Reject,
        Classification::InspectHeader => Decision::InspectHeader,
    }
}

/// The classification decision from a candidate's path and metadata alone.
/// Anything but a regular file is rejected, as is any file below the
/// format's minimum size. Past those guards, aggressive mode asks for the
/// file's header, while fast mode decides by the extension allow-list.
pub open spec fn classify_decision(path: Seq<char>, is_file: bool, len: u64, aggresive: bool)
    -> Decision {
    if !is_file {
        Decision::Reject
    } else if len < SQLITE_MIN_SIZE {
        Decision::Reject
    } else if aggresive {
        Decision::InspectHeader
    } else if supported_extension(extension_of(path)) {
        Decision::Accept
    } else {
        Decision::Reject
    }
}

/// In aggressive mode, a candidate is accepted exactly when its metadata
/// passes the guards and its header carries the magic sequence.
pub open spec fn aggressive_accepts(path: Seq<char>, is_file: bool, len: u64, header: Seq<u8>)
    -> bool {
    classify_decision(path, is_file, len, true) == Decision::InspectHeader && header_matches(header)
}

/// Classifies one candidate from its path and metadata: `is_file` and `len`
/// are the candidate's fresh metadata. In aggressive mode the caller must
/// go on to read the file's leading bytes and ask [`classify_header`].
pub fn classify(path: &str, is_file: bool, len: u64, aggresive: bool) -> (c: Classification)
    ensures
        decision_of(c) == classify_decision(path@, is_file, len, aggresive),
        c matches Classification::Accept(db) ==> db@ == path@,
{
    if !is_file {
        return Classification::Reject;
    }
    if len < SQLITE_MIN_SIZE {
        return Classification::Reject;
    }
    if aggresive {
        return Classification::InspectHeader;
    }
    match extension(path) {
        Some(ext) => {
            if ext == String::from_str("db") || ext == String::from_str("sqlite") {
                Classification::Accept(SQLiteFile::new(path))
            } else {
                Classification::Reject
            }
        },
        None => Classification::Reject,
    }
}

/// Decides an aggressive-mode candidate from its leading bytes: accepted
/// exactly when they carry the magic sequence.
pub fn classify_header(path: &str, header: &Vec<u8>) -> (r: Option<SQLiteFile>)
    ensures
        header_matches(header@) ==> (r matches Some(db) && db@ == path@),
        !header_matches(header@) ==> r is None,
{
    if check_header(header) {
        Some(SQLiteFile::new(path))
    } else {
        None
    }
}

/// Mode-dependent detection: a candidate large enough to pass the size
/// guard, whose name ends in an unsupported extension but whose header
/// carries the magic sequence, is rejected by fast mode yet accepted by
/// aggressive mode.
pub proof fn lemma_mode_dependent_detection(path: Seq<char>, header: Seq<u8>, len: u64)
    requires
        len >= SQLITE_MIN_SIZE,
        !supported_extension(extension_of(path)),
        header_matches(header),
    ensures
        classify_decision(path, true, len, false) == Decision::Reject,
        aggressive_accepts(path, true, len, header),
{
}

/// Any file below the minimum size is rejected, in either mode, whatever
/// its header bytes hold.
pub proof fn lemma_small_file_rejected(
    path: Seq<char>,
    is_file: bool,
    len: u64,
    aggresive: bool,
    header: Seq<u8>,
)
    requires
        len < SQLITE_MIN_SIZE,
    ensures
        classify_decision(path, is_file, len, aggresive) == Decision::Reject,
        !aggressive_accepts(path, is_file, len, header),
{
}

} // verus!

