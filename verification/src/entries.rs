use vstd::prelude::*;
use vstd::string::*;

verus! {

/// A directory entry as the transport layer reports it: the file name, the
/// textual rendering of the remote file-type tag, and the size if the server
/// reported one.
pub struct RawDirEntry {
    pub name: String,
    pub kind_label: String,
    pub size: Option<u64>,
}

/// A regular (non-directory) entry of the remote filesystem.
pub struct FileEntry {
    pub name: String,
    pub kind_label: String,
    pub size: u32,
}

/// A directory entry of the remote filesystem.
pub struct DirEntry {
    pub name: String,
    pub kind_label: String,
}

/// A typed remote filesystem entry. The type tag is kept as free-form text
/// (`kind_label`) rather than a closed enum, so that new transport-level
/// type variants pass through unharmed; classification only asks whether the
/// text contains the directory marker.
pub enum FileSystemEntry {
    File(FileEntry),
    Directory(DirEntry),
}

/// `pat` occurs in `text` starting at position `i`.
pub open spec fn matches_at(text: Seq<char>, pat: Seq<char>, i: int) -> bool {
    0 <= i && i + pat.len() <= text.len() && text.subrange(i, i + pat.len()) == pat
}

/// `pat` occurs somewhere in `text`.
pub open spec fn contains_seq(text: Seq<char>, pat: Seq<char>) -> bool {
    exists|i: int| matches_at(text, pat, i)
}

/// The substring that marks an entry's type tag as a directory.
pub open spec fn dir_marker() -> Seq<char> {
    "Dir"@
}

/// The size a mapped file entry carries: the reported size reduced to the
/// 32-bit range, or 0 when the server reported none.
pub open spec fn entry_size(size: Option<u64>) -> u32 {
    match size {
        Some(n) => (n % 0x1_0000_0000) as u32,
        None => 0,
    }
}

/// How one raw entry is classified: a type tag containing the directory
/// marker yields the `Directory` variant (any size is ignored); every other
/// tag yields `File` with the reported size, defaulting to 0.
pub open spec fn entry_of(raw: RawDirEntry) -> FileSystemEntry {
    if contains_seq(raw.kind_label@, dir_marker()) {
        FileSystemEntry::Directory(DirEntry { name: raw.name, kind_label: raw.kind_label })
    } else {
        FileSystemEntry::File(
            FileEntry { name: raw.name, kind_label: raw.kind_label, size: entry_size(raw.size) },
        )
    }
}

/// `mapped` is the entry-wise image of `raw`, in the same order.
pub open spec fn entries_match(raw: Seq<RawDirEntry>, mapped: Seq<FileSystemEntry>) -> bool {
    &&& mapped.len() == raw.len()
    &&& forall|i: int| 0 <= i < raw.len() ==> mapped[i] == entry_of(raw[i])
}

/// Classification round trip, stated once for every raw entry: a type tag
/// containing the directory marker always maps to the `Directory` variant,
/// whatever the size field holds; any other tag always maps to `File`, whose
/// size is the reported size or 0 when absent.
pub proof fn lemma_entry_classification(raw: RawDirEntry)
    ensures
        contains_seq(raw.kind_label@, dir_marker()) ==> (entry_of(raw) matches FileSystemEntry::Directory(d)
            && d.name == raw.name && d.kind_label == raw.kind_label),
        !contains_seq(raw.kind_label@, dir_marker()) ==> (entry_of(raw) matches FileSystemEntry::File(f)
            && f.name == raw.name && f.kind_label == raw.kind_label && f.size == entry_size(raw.size)),
{
}

/// `pat` occurs in `text` starting at `i`, checked character by character.
fn match_at(text: &str, pat: &str, i: usize) -> (b: bool)
    requires
        i + pat@.len() <= text@.len(),
        text@.len() <= usize::MAX,
    ensures
        b == matches_at(text@, pat@, i as int),
{
    let m = pat.unicode_len();
    let mut k: usize = 0;
    while k < m
        invariant
            m == pat@.len(),
            0 <= k <= m,
            i + m <= text@.len(),
            text@.len() <= usize::MAX,
            forall|l: int| 0 <= l < k ==> text@[i + l] == pat@[l],
        decreases m - k,
    {
        if text.get_char(i + k) != pat.get_char(k) {
            proof {
                assert(text@.subrange(i as int, i + pat@.len())[k as int] != pat@[k as int]);
            }
            return false;
        }
        k += 1;
    }
    proof {
        assert(text@.subrange(i as int, i + pat@.len()) =~= pat@);
    }
    true
}

/// Whether `pat` occurs anywhere in `text`.
pub fn str_contains(text: &str, pat: &str) -> (b: bool)
    ensures
        b == contains_seq(text@, pat@),
{
    let n = text.unicode_len();
    let m = pat.unicode_len();
    if m > n {
        proof {
            assert(forall|i: int| !matches_at(text@, pat@, i));
        }
        return false;
    }
    if m == 0 {
        proof {
            assert(text@.subrange(0, 0) =~= pat@);
            assert(matches_at(text@, pat@, 0));
        }
        return true;
    }
    let mut i: usize = 0;
    while i <= n - m
        invariant
            n == text@.len(),
            m == pat@.len(),
            1 <= m <= n,
            0 <= i <= n - m + 1,
            forall|j: int| 0 <= j < i ==> !matches_at(text@, pat@, j),
        decreases n - i,
    {
        if match_at(text, pat, i) {
            return true;
        }
        i += 1;
    }
    proof {
        assert(forall|j: int| matches_at(text@, pat@, j) ==> 0 <= j <= n - m);
    }
    false
}

/// Whether a textual type tag counts as a directory tag.
pub fn is_directory_label(label: &str) -> (b: bool)
    ensures
        b == contains_seq(label@, dir_marker()),
{
    str_contains(label, "Dir")
}

/// Maps one raw entry to its typed form, as `entry_of` states.
pub fn map_entry(raw: &RawDirEntry) -> (r: FileSystemEntry)
    ensures
        r == entry_of(*raw),
{
    if is_directory_label(raw.kind_label.as_str()) {
        FileSystemEntry::Directory(
            DirEntry { name: raw.name.clone(), kind_label: raw.kind_label.clone() },
        )
    } else {
        let size: u32 = match raw.size {
            Some(n) => (n % 0x1_0000_0000) as u32,
            None => 0,
        };
        FileSystemEntry::File(
            FileEntry { name: raw.name.clone(), kind_label: raw.kind_label.clone(), size },
        )
    }
}

/// Maps a whole raw listing, keeping the server-supplied order: the result
/// has one entry per raw entry, at the same index.
pub fn map_dir_entries(raw: &Vec<RawDirEntry>) -> (r: Vec<FileSystemEntry>)
    ensures
        entries_match(raw@, r@),
{
    let mut out: Vec<FileSystemEntry> = Vec::new();
    let n = raw.len();
    let mut i: usize = 0;
    while i < n
        invariant
            n == raw@.len(),
            0 <= i <= n,
            out@.len() == i,
            forall|j: int| 0 <= j < i ==> out@[j] == entry_of(raw@[j]),
        decreases n - i,
    {
        let e = map_entry(&raw[i]);
        out.push(e);
        i += 1;
    }
    out
}

} // verus!
