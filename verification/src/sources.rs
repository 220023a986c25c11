//! Paths, open files and in-memory buffers that a scan reads from.

use vstd::prelude::*;
use std::sync::Arc;

verus! {

/// A path to read from: a local file system path or a cloud URL.
#[derive(Debug, Hash, PartialEq, Eq)]
pub enum PlPath {
    Local(String),
    Cloud(String),
}

/// A borrowed path.
pub type PlPathRef<'a> = &'a PlPath;

impl PlPath {
    /// Whether the path is a cloud URL.
    pub open spec fn is_cloud(self) -> bool {
        self is Cloud
    }

    /// The characters of the path.
    pub open spec fn chars(self) -> Seq<char> {
        match self {
            PlPath::Local(s) => s@,
            PlPath::Cloud(s) => s@,
        }
    }

    /// Equality of paths: the same kind and the same characters.
    pub open spec fn same_path(self, other: PlPath) -> bool {
        self.is_cloud() == other.is_cloud() && self.chars() == other.chars()
    }

    /// Whether the path is a cloud URL.
    pub fn is_cloud_url(&self) -> (r: bool)
        ensures
            r == self.is_cloud(),
    {
        matches!(self, PlPath::Cloud(_))
    }

    /// The path as text.
    pub fn to_str(&self) -> (r: &str)
        ensures
            r@ == self.chars(),
    {
        match self {
            PlPath::Local(s) => s.as_str(),
            PlPath::Cloud(s) => s.as_str(),
        }
    }

    /// The path as a local file system path, if it is one.
    pub fn as_local_path(&self) -> (r: Option<&str>)
        ensures
            r is Some == !self.is_cloud(),
            r matches Some(p) ==> p@ == self.chars(),
    {
        match self {
            PlPath::Local(s) => Some(s.as_str()),
            PlPath::Cloud(_) => None,
        }
    }

    /// The path itself, borrowed.
    pub fn as_ref(&self) -> (r: PlPathRef<'_>)
        ensures
            *r == *self,
    {
        self
    }

    /// Path equality, by kind and characters.
    pub fn eq_path(&self, other: &PlPath) -> (r: bool)
        ensures
            r == self.same_path(*other),
    {
        match (self, other) {
            (PlPath::Local(a), PlPath::Local(b)) => *a == *b,
            (PlPath::Cloud(a), PlPath::Cloud(b)) => *a == *b,
            _ => false,
        }
    }
}

/// Equality of path lists, path by path.
pub open spec fn same_paths(a: Seq<PlPath>, b: Seq<PlPath>) -> bool {
    a.len() == b.len() && forall|i: int| 0 <= i < a.len() ==> #[trigger] a[i].same_path(b[i])
}

impl Clone for PlPath {
    fn clone(&self) -> (r: Self)
        ensures
            r == *self,
    {
        match self {
            PlPath::Local(s) => PlPath::Local(s.clone()),
            PlPath::Cloud(s) => PlPath::Cloud(s.clone()),
        }
    }
}

/// An open file, known by the descriptor it was opened as.
#[derive(Debug, PartialEq, Eq, Structural, Clone, Copy)]
pub struct FileHandle {
    pub fd: i32,
}

/// The bytes of a file or of an in-memory buffer.
#[derive(Debug)]
pub struct MemSlice {
    bytes: Vec<u8>,
}

impl View for MemSlice {
    type V = Seq<u8>;

    closed spec fn view(&self) -> Seq<u8> {
        self.bytes@
    }
}

impl MemSlice {
    /// A slice holding the given bytes.
    pub fn from_vec(bytes: Vec<u8>) -> (r: MemSlice)
        ensures
            r@ == bytes@,
    {
        MemSlice { bytes }
    }

    /// The number of bytes.
    pub fn len(&self) -> (r: usize)
        ensures
            r == self@.len(),
    {
        self.bytes.len()
    }

    /// The bytes.
    pub fn as_slice(&self) -> (r: &[u8])
        ensures
            r@ == self@,
    {
        self.bytes.as_slice()
    }
}

impl Clone for MemSlice {
    fn clone(&self) -> (r: Self)
        ensures
            r@ == self@,
    {
        let mut bytes: Vec<u8> = Vec::new();
        let mut i: usize = 0;
        while i < self.bytes.len()
            invariant
                i <= self.bytes@.len(),
                bytes@ == self.bytes@.subrange(0, i as int),
            decreases self.bytes@.len() - i,
        {
            bytes.push(self.bytes[i]);
            i = i + 1;
        }
        MemSlice { bytes }
    }
}

/// Another handle to the same shared allocation (`Arc::clone`).
#[verifier::external_body]
pub(crate) fn share<T>(a: &Arc<T>) -> (r: Arc<T>)
    ensures
        *r == **a,
{
    Arc::clone(a)
}

/// Whether two handles point to the same allocation (`Arc::ptr_eq`); where they do,
/// they hold the same value.
#[verifier::external_body]
pub(crate) fn same_allocation<T>(a: &Arc<T>, b: &Arc<T>) -> (r: bool)
    ensures
        r ==> **a == **b,
{
    Arc::ptr_eq(a, b)
}

/// The address of a shared allocation (`Arc::as_ptr`); it depends on the machine and
/// the run, so nothing is stated of it.
#[verifier::external_body]
pub(crate) fn allocation_address<T>(a: &Arc<T>) -> usize {
    Arc::as_ptr(a) as usize
}

/// The digits of a decimal digit value.
pub open spec fn digit_char(d: nat) -> char {
    (48 + d) as char
}

/// The decimal representation of a number, without leading zeros.
pub open spec fn decimal(n: nat) -> Seq<char>
    decreases n,
{
    if n < 10 {
        seq![digit_char(n)]
    } else {
        decimal(n / 10).push(digit_char(n % 10))
    }
}

/// The text of a single decimal digit.
fn digit_str(d: usize) -> (r: &'static str)
    requires
        d < 10,
    ensures
        r@ == seq![digit_char(d as nat)],
{
    proof {
        reveal_strlit("0");
        reveal_strlit("1");
        reveal_strlit("2");
        reveal_strlit("3");
        reveal_strlit("4");
        reveal_strlit("5");
        reveal_strlit("6");
        reveal_strlit("7");
        reveal_strlit("8");
        reveal_strlit("9");
    }
    let r = if d == 0 {
        "0"
    } else if d == 1 {
        "1"
    } else if d == 2 {
        "2"
    } else if d == 3 {
        "3"
    } else if d == 4 {
        "4"
    } else if d == 5 {
        "5"
    } else if d == 6 {
        "6"
    } else if d == 7 {
        "7"
    } else if d == 8 {
        "8"
    } else {
        "9"
    };
    assert(r@ =~= seq![digit_char(d as nat)]);
    r
}

/// The decimal representation of a number.
pub fn usize_to_string(n: usize) -> (r: String)
    ensures
        r@ == decimal(n as nat),
    decreases n,
{
    if n < 10 {
        String::from_str(digit_str(n))
    } else {
        let mut s = usize_to_string(n / 10);
        s.append(digit_str(n % 10));
        s
    }
}

/// A single open file in a shared allocation that can also be seen as a list of one file.
#[derive(Debug)]
pub struct SharedFile {
    files: Arc<Vec<FileHandle>>,
}

impl SharedFile {
    #[verifier::type_invariant]
    closed spec fn inv(self) -> bool {
        self.files@.len() == 1
    }

    /// The file.
    pub closed spec fn handle(self) -> FileHandle {
        self.files@[0]
    }

    /// The shared one-element list.
    pub closed spec fn shared(self) -> Arc<Vec<FileHandle>> {
        self.files
    }

    /// Shares a file in a new allocation.
    pub fn new(file: FileHandle) -> (r: SharedFile)
        ensures
            r.handle() == file,
            r.shared()@ == seq![file],
    {
        let mut v: Vec<FileHandle> = Vec::new();
        v.push(file);
        assert(v@ =~= seq![file]);
        SharedFile { files: Arc::new(v) }
    }

    /// Sees a shared list of exactly one file as that file, keeping the allocation.
    pub fn from_shared(files: Arc<Vec<FileHandle>>) -> (r: SharedFile)
        requires
            files@.len() == 1,
        ensures
            r.shared() == files,
            r.handle() == files@[0],
    {
        SharedFile { files }
    }

    /// The allocation, seen as a list of one file.
    pub fn into_shared(self) -> (r: Arc<Vec<FileHandle>>)
        ensures
            r == self.shared(),
            r@ == seq![self.handle()],
    {
        proof {
            use_type_invariant(&self);
            assert(self.files@ =~= seq![self.handle()]);
        }
        self.files
    }

    /// The file.
    pub fn get(&self) -> (r: &FileHandle)
        ensures
            *r == self.handle(),
    {
        proof {
            use_type_invariant(self);
        }
        &self.files[0]
    }

    /// Another handle to the same allocation.
    pub fn share_file(&self) -> (r: SharedFile)
        ensures
            r.shared() == self.shared(),
            r.handle() == self.handle(),
    {
        proof {
            use_type_invariant(self);
        }
        SharedFile { files: share(&self.files) }
    }
}

impl Clone for SharedFile {
    /// Another handle to the same allocation.
    fn clone(&self) -> (r: Self)
        ensures
            r.shared() == self.shared(),
            r.handle() == self.handle(),
    {
        self.share_file()
    }
}

} // verus!
