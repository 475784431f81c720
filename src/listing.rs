use unicode_segmentation::UnicodeSegmentation;
use vstd::prelude::*;
use vstd::string::StringExecFns;
use vstd::utf8::encode_utf8;

verus! {

broadcast use vstd::seq_lib::group_to_multiset_ensures;

/// What a row of the listing stands for; the renderer colours by it.
#[derive(Clone, Copy, Debug, PartialEq, Eq, Structural)]
pub enum RowKind {
    Separator,
    Title,
    Parent,
    Current,
    Directory,
    File,
}

/// One row of the listing: where Enter leads (none for a decorative row),
/// how many user-perceived characters it shows, and its text.
#[derive(Clone, Debug)]
pub struct Row {
    pub target: Option<String>,
    pub width: usize,
    pub text: String,
    pub kind: RowKind,
}

/// One entry of a directory: its file name, its full path, and whether it
/// is a directory.
#[derive(Clone, Debug)]
pub struct DirEntryInfo {
    pub name: String,
    pub path: String,
    pub is_dir: bool,
}

/// The number of extended grapheme clusters in `s`.
pub uninterp spec fn grapheme_count(s: Seq<char>) -> nat;

/// Relies on unicode_segmentation's `graphemes(true)`: its count is the
/// number of extended grapheme clusters of the text, and none in empty text.
#[verifier::external_body]
fn graphemes_len(s: &str) -> (r: usize)
    ensures
        r as nat == grapheme_count(s@),
        s@.len() == 0 ==> r == 0,
{
    s.graphemes(true).count()
}

/// The UTF-8 bytes of a path, by which entries are ordered.
pub open spec fn path_key(p: String) -> Seq<u8> {
    encode_utf8(p@)
}

/// Lexicographic order on byte strings: `a` is a prefix of `b`, or the
/// first byte where they differ is smaller in `a`.
pub open spec fn bytes_le(a: Seq<u8>, b: Seq<u8>) -> bool
    decreases a.len(),
{
    if a.len() == 0 {
        true
    } else if b.len() == 0 {
        false
    } else if a[0] != b[0] {
        a[0] < b[0]
    } else {
        bytes_le(a.drop_first(), b.drop_first())
    }
}

/// Of two byte strings, one is at most the other.
pub proof fn lemma_bytes_le_total(a: Seq<u8>, b: Seq<u8>)
    ensures
        bytes_le(a, b) || bytes_le(b, a),
    decreases a.len(),
{
    if a.len() > 0 && b.len() > 0 && a[0] == b[0] {
        lemma_bytes_le_total(a.drop_first(), b.drop_first());
    }
}

/// Whether path `a` comes no later than path `b`.
fn path_le(a: &String, b: &String) -> (r: bool)
    ensures
        r == bytes_le(path_key(*a), path_key(*b)),
{
    let x = a.as_str().as_bytes();
    let y = b.as_str().as_bytes();
    let mut i: usize = 0;
    assert(x@.skip(0) =~= x@ && y@.skip(0) =~= y@);
    loop
        invariant
            i <= x@.len(),
            i <= y@.len(),
            bytes_le(path_key(*a), path_key(*b)) == bytes_le(x@.skip(i as int), y@.skip(i as int)),
        decreases x@.len() - i,
    {
        if i == x.len() {
            return true;
        }
        if i == y.len() {
            return false;
        }
        if x[i] != y[i] {
            return x[i] < y[i];
        }
        assert(x@.skip(i as int).drop_first() =~= x@.skip(i + 1));
        assert(y@.skip(i as int).drop_first() =~= y@.skip(i + 1));
        i = i + 1;
    }
}

/// Each entry's path is at most the next one's.
pub open spec fn sorted_by_path(s: Seq<DirEntryInfo>) -> bool {
    forall|i: int| 0 <= i < s.len() - 1 ==> bytes_le(path_key(#[trigger] s[i].path), path_key(s[i + 1].path))
}

/// The entries ordered by path.
pub fn sort_by_path(entries: Vec<DirEntryInfo>) -> (r: Vec<DirEntryInfo>)
    ensures
        sorted_by_path(r@),
        r@.to_multiset() == entries@.to_multiset(),
{
    let mut rest = entries;
    let mut r: Vec<DirEntryInfo> = Vec::new();
    while rest.len() > 0
        invariant
            sorted_by_path(r@),
            r@.to_multiset().add(rest@.to_multiset()) == entries@.to_multiset(),
        decreases rest@.len(),
    {
        let ghost before = rest@;
        let e = rest.pop().unwrap();
        assert(before =~= rest@.push(e));
        let mut j: usize = 0;
        while j < r.len() && path_le(&r[j].path, &e.path)
            invariant
                j <= r@.len(),
                j > 0 ==> bytes_le(path_key(r@[j - 1].path), path_key(e.path)),
            decreases r@.len() - j,
        {
            j = j + 1;
        }
        if j < r.len() {
            proof {
                lemma_bytes_le_total(path_key(r@[j as int].path), path_key(e.path));
            }
        }
        let ghost old_r = r@;
        r.insert(j, e);
        proof {
            vstd::seq_lib::to_multiset_insert(old_r, j as int, e);
            assert forall|i: int| 0 <= i < r@.len() - 1 implies bytes_le(
                path_key(#[trigger] r@[i].path),
                path_key(r@[i + 1].path),
            ) by {
                if i + 1 < j {
                    assert(r@[i] == old_r[i] && r@[i + 1] == old_r[i + 1]);
                } else if i + 1 == j {
                } else if i == j {
                } else {
                    assert(r@[i] == old_r[i - 1] && r@[i + 1] == old_r[i]);
                }
            }
        }
    }
    assert(rest@ =~= Seq::<DirEntryInfo>::empty());
    r
}

/// The number of `=` in a separator row.
pub const SEPARATOR_WIDTH: usize = 48;

pub open spec fn separator_text() -> Seq<char> {
    Seq::new(SEPARATOR_WIDTH as nat, |i: int| '=')
}

/// A directory's width: its name's graphemes and the trailing `/`.
pub open spec fn dir_width(name: Seq<char>) -> nat {
    if grapheme_count(name) + 1 > usize::MAX {
        usize::MAX as nat
    } else {
        grapheme_count(name) + 1
    }
}

pub open spec fn is_separator_row(r: Row) -> bool {
    &&& r.kind == RowKind::Separator
    &&& r.target is None
    &&& r.width == SEPARATOR_WIDTH
    &&& r.text@ == separator_text()
}

pub open spec fn is_dir_row(r: Row, e: DirEntryInfo) -> bool {
    &&& r.kind == RowKind::Directory
    &&& r.target == Some(e.path)
    &&& r.width as nat == dir_width(e.name@)
    &&& r.text@ == e.name@ + seq!['/']
}

pub open spec fn is_file_row(r: Row, e: DirEntryInfo) -> bool {
    &&& r.kind == RowKind::File
    &&& r.target == Some(e.path)
    &&& r.width as nat == grapheme_count(e.name@)
    &&& r.text@ == e.name@
}

/// Rows before the entries: a separator, the directory's own path, a
/// separator, `../` where there is a parent, and `./`.
pub open spec fn header_len(parent: Option<String>) -> int {
    if parent is Some {
        5
    } else {
        4
    }
}

pub open spec fn is_header(rows: Seq<Row>, cd: String, parent: Option<String>) -> bool {
    let h = header_len(parent);
    &&& rows.len() >= h
    &&& is_separator_row(rows[0])
    &&& rows[1].kind == RowKind::Title && rows[1].target is None
    &&& rows[1].width as nat == grapheme_count(cd@) && rows[1].text@ == cd@
    &&& is_separator_row(rows[2])
    &&& (match parent {
        Some(p) => rows[3].kind == RowKind::Parent && rows[3].target == Some(p) && rows[3].width
            == 3 && rows[3].text@ == seq!['.', '.', '/'],
        Option::None => true,
    })
    &&& rows[h - 1].kind == RowKind::Current && rows[h - 1].target is None && rows[h - 1].width
        == 2 && rows[h - 1].text@ == seq!['.', '/']
}

/// `rows` shows the header, then `dirs`, then `files`, in that order.
pub open spec fn shows(
    rows: Seq<Row>,
    cd: String,
    parent: Option<String>,
    dirs: Seq<DirEntryInfo>,
    files: Seq<DirEntryInfo>,
) -> bool {
    let h = header_len(parent);
    &&& rows.len() == h + dirs.len() + files.len()
    &&& is_header(rows, cd, parent)
    &&& forall|k: int| 0 <= k < dirs.len() ==> is_dir_row(#[trigger] rows[h + k], dirs[k])
    &&& forall|k: int| 0 <= k < files.len() ==> is_file_row(#[trigger] rows[h + dirs.len() + k], files[k])
}

/// `dirs` and `files` split `entries` into directories and the rest, each
/// part ordered by path.
pub open spec fn split_sorted(
    entries: Seq<DirEntryInfo>,
    dirs: Seq<DirEntryInfo>,
    files: Seq<DirEntryInfo>,
) -> bool {
    &&& dirs.to_multiset().add(files.to_multiset()) == entries.to_multiset()
    &&& forall|k: int| 0 <= k < dirs.len() ==> (#[trigger] dirs[k]).is_dir
    &&& forall|k: int| 0 <= k < files.len() ==> !(#[trigger] files[k]).is_dir
    &&& sorted_by_path(dirs)
    &&& sorted_by_path(files)
}

/// `rows` is the listing of directory `cd` with `parent` and `entries`.
pub open spec fn is_listing_of(
    rows: Seq<Row>,
    cd: String,
    parent: Option<String>,
    entries: Seq<DirEntryInfo>,
) -> bool {
    exists|dirs: Seq<DirEntryInfo>, files: Seq<DirEntryInfo>|
        #[trigger] split_sorted(entries, dirs, files) && #[trigger] shows(rows, cd, parent, dirs, files)
}

fn separator_row() -> (r: Row)
    ensures
        is_separator_row(r),
{
    let mut text = String::new();
    let mut i: usize = 0;
    while i < SEPARATOR_WIDTH
        invariant
            i <= SEPARATOR_WIDTH,
            text@ == Seq::new(i as nat, |k: int| '='),
        decreases SEPARATOR_WIDTH - i,
    {
        proof {
            reveal_strlit("=");
        }
        text.append("=");
        assert(text@ =~= Seq::new((i + 1) as nat, |k: int| '='));
        i = i + 1;
    }
    Row { target: Option::None, width: SEPARATOR_WIDTH, text, kind: RowKind::Separator }
}

/// The entries that are directories, and the others, in their order.
fn split_entries(entries: Vec<DirEntryInfo>) -> (r: (Vec<DirEntryInfo>, Vec<DirEntryInfo>))
    ensures
        r.0@.to_multiset().add(r.1@.to_multiset()) == entries@.to_multiset(),
        forall|k: int| 0 <= k < r.0@.len() ==> (#[trigger] r.0@[k]).is_dir,
        forall|k: int| 0 <= k < r.1@.len() ==> !(#[trigger] r.1@[k]).is_dir,
{
    let mut rest = entries;
    let mut dirs: Vec<DirEntryInfo> = Vec::new();
    let mut files: Vec<DirEntryInfo> = Vec::new();
    while rest.len() > 0
        invariant
            dirs@.to_multiset().add(files@.to_multiset()).add(rest@.to_multiset())
                == entries@.to_multiset(),
            forall|k: int| 0 <= k < dirs@.len() ==> (#[trigger] dirs@[k]).is_dir,
            forall|k: int| 0 <= k < files@.len() ==> !(#[trigger] files@[k]).is_dir,
        decreases rest@.len(),
    {
        let ghost before = rest@;
        let e = rest.pop().unwrap();
        assert(before =~= rest@.push(e));
        if e.is_dir {
            dirs.push(e);
        } else {
            files.push(e);
        }
    }
    assert(rest@ =~= Seq::<DirEntryInfo>::empty());
    (dirs, files)
}

/// Builds the listing of directory `cd`: a separator, `cd` itself, a
/// separator, `../` to `parent` where there is one, `./`, then the
/// subdirectories and then the other entries, each group ordered by path.
/// A directory shows its name and `/` and is one grapheme wider than its
/// name; a file shows its name.
pub fn build_listing(cd: &String, parent: Option<String>, entries: Vec<DirEntryInfo>) -> (rows: Vec<Row>)
    ensures
        is_listing_of(rows@, *cd, parent, entries@),
        rows@.len() == header_len(parent) + entries@.len(),
{
    let (unsorted_dirs, unsorted_files) = split_entries(entries);
    let dirs = sort_by_path(unsorted_dirs);
    let files = sort_by_path(unsorted_files);
    assert forall|k: int| 0 <= k < dirs@.len() implies (#[trigger] dirs@[k]).is_dir by {
        assert(dirs@.to_multiset().count(dirs@[k]) > 0);
        assert(unsorted_dirs@.contains(dirs@[k]));
    }
    assert forall|k: int| 0 <= k < files@.len() implies !(#[trigger] files@[k]).is_dir by {
        assert(files@.to_multiset().count(files@[k]) > 0);
        assert(unsorted_files@.contains(files@[k]));
    }
    let mut rows: Vec<Row> = Vec::new();
    rows.push(separator_row());
    rows.push(
        Row {
            target: Option::None,
            width: graphemes_len(cd.as_str()),
            text: cd.clone(),
            kind: RowKind::Title,
        },
    );
    rows.push(separator_row());
    proof {
        reveal_strlit("../");
        reveal_strlit("./");
    }
    match &parent {
        Some(p) => {
            rows.push(
                Row {
                    target: Some(p.clone()),
                    width: 3,
                    text: String::from_str("../"),
                    kind: RowKind::Parent,
                },
            );
        },
        Option::None => {},
    }
    rows.push(
        Row { target: Option::None, width: 2, text: String::from_str("./"), kind: RowKind::Current },
    );
    let ghost h = header_len(parent);
        assert(rows@[h - 1].text@ == seq!['.', '/']);
    assert(is_separator_row(rows@[2]));
    if let Some(p) = &parent {
        assert(rows@[3].target == Some(*p));
        assert(rows@[3].text@ == seq!['.', '.', '/']);
        assert(rows@[3].kind == RowKind::Parent);
    }
    assert(is_header(rows@, *cd, parent));
    let mut k: usize = 0;
    while k < dirs.len()
        invariant
            k <= dirs@.len(),
            rows@.len() == h + k,
            h == header_len(parent),
            is_header(rows@, *cd, parent),
            forall|j: int| 0 <= j < k ==> is_dir_row(#[trigger] rows@[h + j], dirs@[j]),
        decreases dirs@.len() - k,
    {
        let g = graphemes_len(dirs[k].name.as_str());
        let width = if g < usize::MAX {
            g + 1
        } else {
            g
        };
        proof {
            reveal_strlit("/");
        }
        let text = dirs[k].name.clone().concat("/");
        let ghost before = rows@;
        rows.push(Row { target: Some(dirs[k].path.clone()), width, text, kind: RowKind::Directory });
        assert(text@ == dirs@[k as int].name@ + seq!['/']);
        assert(is_dir_row(rows@[h + k], dirs@[k as int]));
        assert(forall|j: int| 0 <= j < h + k ==> rows@[j] == before[j]);
        k = k + 1;
    }
    let ghost nd = dirs@.len() as int;
    let mut k: usize = 0;
    while k < files.len()
        invariant
            k <= files@.len(),
            rows@.len() == h + nd + k,
            h == header_len(parent),
            nd == dirs@.len(),
            is_header(rows@, *cd, parent),
            forall|j: int| 0 <= j < nd ==> is_dir_row(#[trigger] rows@[h + j], dirs@[j]),
            forall|j: int| 0 <= j < k ==> is_file_row(#[trigger] rows@[h + nd + j], files@[j]),
        decreases files@.len() - k,
    {
        let width = graphemes_len(files[k].name.as_str());
        let text = files[k].name.clone();
        rows.push(Row { target: Some(files[k].path.clone()), width, text, kind: RowKind::File });
        k = k + 1;
    }
    assert(split_sorted(entries@, dirs@, files@));
    assert(entries@.len() == dirs@.len() + files@.len()) by {
        broadcast use vstd::multiset::group_multiset_axioms;

        assert(entries@.to_multiset().len() == dirs@.to_multiset().len() + files@.to_multiset().len());
    }
    assert(shows(rows@, *cd, parent, dirs@, files@));
    rows
}

/// A blank row: no target, one space wide.
pub open spec fn is_blank_row(r: Row) -> bool {
    &&& r.kind == RowKind::Separator
    &&& r.target is None
    &&& r.width == 1
    &&& r.text@ == seq![' ']
}

/// A listing that blank rows can be appended to.
pub trait StoreEmpty: Sized {
    /// `self` is `before` with one blank row appended.
    spec fn is_appended_empty(&self, before: &Self) -> bool;

    fn append_empty(&mut self)
        ensures
            final(self).is_appended_empty(old(self)),
    ;
}

impl StoreEmpty for Vec<Row> {
    open spec fn is_appended_empty(&self, before: &Self) -> bool {
        &&& self@.len() == before@.len() + 1
        &&& self@.take(before@.len() as int) == before@
        &&& is_blank_row(self@.last())
    }

    fn append_empty(&mut self) {
        proof {
            reveal_strlit(" ");
        }
        self.push(Row { target: Option::None, width: 1, text: String::from_str(" "), kind: RowKind::Separator });
        assert(self@.take(old(self)@.len() as int) =~= old(self)@);
        assert(self@.last().text@ =~= seq![' ']);
    }
}

} // verus!
