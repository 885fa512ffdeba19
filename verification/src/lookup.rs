//! Resolving a command name against an ordered snapshot of the search-path
//! directories: the first directory holding an executable entry of that name
//! wins, in directory-list order.
use vstd::prelude::*;

use crate::strutil::{chars_to_string, str_eq, str_to_chars, vec_contains_str};

verus! {

/// One directory entry: its file name and its permission bits.
#[derive(Debug)]
pub struct FileEntry {
    pub name: String,
    pub mode: u32,
}

/// Mathematical shape of a directory entry.
pub struct FileEntryView {
    pub name: Seq<char>,
    pub mode: u32,
}

impl View for FileEntry {
    type V = FileEntryView;

    open spec fn view(&self) -> FileEntryView {
        FileEntryView { name: self.name@, mode: self.mode }
    }
}

impl DeepView for FileEntry {
    type V = FileEntryView;

    open spec fn deep_view(&self) -> FileEntryView {
        self.view()
    }
}

/// A snapshot of one search-path directory: its path and its entries, in
/// the order the platform listed them.
#[derive(Debug)]
pub struct DirListing {
    pub dir: String,
    pub entries: Vec<FileEntry>,
}

/// Mathematical shape of a directory snapshot.
pub struct DirListingView {
    pub dir: Seq<char>,
    pub entries: Seq<FileEntryView>,
}

impl View for DirListing {
    type V = DirListingView;

    open spec fn view(&self) -> DirListingView {
        DirListingView { dir: self.dir@, entries: self.entries.deep_view() }
    }
}

impl DeepView for DirListing {
    type V = DirListingView;

    open spec fn deep_view(&self) -> DirListingView {
        self.view()
    }
}

/// Is a file with these permission bits marked executable for anyone?
pub open spec fn is_executable_mode(mode: u32) -> bool {
    mode & 0o111 != 0
}

/// Does this entry offer `name` as an executable?
pub open spec fn entry_matches(e: FileEntryView, name: Seq<char>) -> bool {
    e.name == name && is_executable_mode(e.mode)
}

/// Does the directory hold an executable entry named `name`?
pub open spec fn dir_has_exec(d: DirListingView, name: Seq<char>) -> bool {
    exists|j: int| 0 <= j < d.entries.len() && entry_matches(d.entries[j], name)
}

/// The resolved path of `name` against the directories from `i` on: the
/// first directory that has it, joined with a path separator.
pub open spec fn find_exec_from(name: Seq<char>, dirs: Seq<DirListingView>, i: int) -> Option<Seq<char>>
    decreases dirs.len() - i,
{
    if i < 0 || i >= dirs.len() {
        None
    } else if dir_has_exec(dirs[i], name) {
        Some(dirs[i].dir + "/"@ + name)
    } else {
        find_exec_from(name, dirs, i + 1)
    }
}

/// The resolved path of `name`, searching every directory in order.
pub open spec fn find_exec_spec(name: Seq<char>, dirs: Seq<DirListingView>) -> Option<Seq<char>> {
    find_exec_from(name, dirs, 0)
}

/// Is `name` an executable in some search-path directory?
pub open spec fn exec_available(dirs: Seq<DirListingView>, name: Seq<char>) -> bool {
    exists|i: int| 0 <= i < dirs.len() && dir_has_exec(dirs[i], name)
}

/// Are these permission bits marked executable for anyone?
pub fn is_executable(mode: u32) -> (r: bool)
    ensures
        r == is_executable_mode(mode),
{
    mode & 0o111 != 0
}

/// Scan one directory snapshot for an executable entry named `cmd`.
fn dir_lookup(d: &DirListing, cmd: &str) -> (r: bool)
    ensures
        r == dir_has_exec(d@, cmd@),
{
    let mut j: usize = 0;
    while j < d.entries.len()
        invariant
            forall|j2: int| 0 <= j2 < j ==> !entry_matches(d.entries.deep_view()[j2], cmd@),
            j <= d.entries.len(),
        decreases d.entries.len() - j,
    {
        if str_eq(d.entries[j].name.as_str(), cmd) && is_executable(d.entries[j].mode) {
            proof {
                assert(entry_matches(d@.entries[j as int], cmd@));
                assert(dir_has_exec(d@, cmd@));
            }
            return true;
        }
        j = j + 1;
    }
    false
}

/// Resolve `cmd` against the directories, first match in list order.
pub fn find_executable(cmd: &str, dirs: &Vec<DirListing>) -> (r: Option<String>)
    ensures
        r.deep_view() == find_exec_spec(cmd@, dirs.deep_view()),
{
    let ghost dv = dirs.deep_view();
    let mut i: usize = 0;
    while i < dirs.len()
        invariant
            dv == dirs.deep_view(),
            i <= dv.len(),
            find_exec_from(cmd@, dv, i as int) == find_exec_spec(cmd@, dv),
        decreases dv.len() - i,
    {
        if dir_lookup(&dirs[i], cmd) {
            let mut p = dirs[i].dir.clone();
            p.append("/");
            p.append(cmd);
            assert(p@ == dv[i as int].dir + "/"@ + cmd@);
            return Option::Some(p);
        }
        i = i + 1;
    }
    Option::None
}

/// Collect the names of every executable in the search-path directories,
/// each name once.
pub fn collect_path_executables(dirs: &Vec<DirListing>) -> (r: Vec<String>)
    ensures
        forall|k: int| 0 <= k < r@.len() ==> exec_available(dirs.deep_view(), r@[k]@),
        forall|i2: int, j2: int|
            0 <= i2 < dirs.deep_view().len() && 0 <= j2 < dirs.deep_view()[i2].entries.len()
                && is_executable_mode(#[trigger] dirs.deep_view()[i2].entries[j2].mode) ==> exists|k: int|
                0 <= k < r@.len() && r@[k]@ == dirs.deep_view()[i2].entries[j2].name,
        forall|k1: int, k2: int| 0 <= k1 < k2 < r@.len() ==> r@[k1]@ != r@[k2]@,
{
    let ghost dv = dirs.deep_view();
    let mut r: Vec<String> = Vec::new();
    let mut i: usize = 0;
    while i < dirs.len()
        invariant
            dv == dirs.deep_view(),
            i <= dv.len(),
            forall|k: int| 0 <= k < r@.len() ==> exec_available(dv, r@[k]@),
            forall|i2: int, j2: int|
                0 <= i2 < i && 0 <= j2 < dv[i2].entries.len() && is_executable_mode(
                    #[trigger] dv[i2].entries[j2].mode,
                ) ==> exists|k: int| 0 <= k < r@.len() && r@[k]@ == dv[i2].entries[j2].name,
            forall|k1: int, k2: int| 0 <= k1 < k2 < r@.len() ==> r@[k1]@ != r@[k2]@,
        decreases dv.len() - i,
    {
        let d = &dirs[i];
        let mut j: usize = 0;
        while j < d.entries.len()
            invariant
                dv == dirs.deep_view(),
                i < dv.len(),
                d@ == dv[i as int],
                j <= d.entries.len(),
                forall|k: int| 0 <= k < r@.len() ==> exec_available(dv, r@[k]@),
                forall|i2: int, j2: int|
                    0 <= i2 < i && 0 <= j2 < dv[i2].entries.len() && is_executable_mode(
                        #[trigger] dv[i2].entries[j2].mode,
                    ) ==> exists|k: int| 0 <= k < r@.len() && r@[k]@ == dv[i2].entries[j2].name,
                forall|j2: int|
                    0 <= j2 < j && is_executable_mode(#[trigger] dv[i as int].entries[j2].mode)
                        ==> exists|k: int| 0 <= k < r@.len() && r@[k]@ == dv[i as int].entries[j2].name,
                forall|k1: int, k2: int| 0 <= k1 < k2 < r@.len() ==> r@[k1]@ != r@[k2]@,
            decreases d.entries.len() - j,
        {
            let e = &d.entries[j];
            if is_executable(e.mode) && !vec_contains_str(&r, e.name.as_str()) {
                let ghost pre = r@;
                r.push(e.name.clone());
                proof {
                    assert(dv[i as int].entries[j as int].name == e.name@);
                    assert(entry_matches(dv[i as int].entries[j as int], e.name@));
                    assert(dir_has_exec(dv[i as int], e.name@));
                    assert(exec_available(dv, e.name@));
                    assert(forall|k: int| 0 <= k < pre.len() ==> r@[k] == pre[k]);
                    assert(r@[pre.len() as int]@ == e.name@);
                }
            }
            j = j + 1;
        }
        i = i + 1;
    }
    r
}

/// Split the characters on `:` from position `i` on, accumulating pieces.
pub open spec fn split_colon_from(s: Seq<char>, i: int, cur: Seq<char>, acc: Seq<Seq<char>>) -> Seq<Seq<char>>
    decreases s.len() - i,
{
    if i < 0 || i >= s.len() {
        acc.push(cur)
    } else if s[i] == ':' {
        split_colon_from(s, i + 1, Seq::empty(), acc.push(cur))
    } else {
        split_colon_from(s, i + 1, cur.push(s[i]), acc)
    }
}

/// The pieces of a search-path variable, split on `:`.
pub open spec fn split_colon(s: Seq<char>) -> Seq<Seq<char>> {
    split_colon_from(s, 0, Seq::empty(), Seq::empty())
}

/// Split a search-path variable into its directory names, in order.
pub fn split_path_list(path: &str) -> (r: Vec<String>)
    ensures
        r.deep_view() == split_colon(path@),
{
    let chars = str_to_chars(path);
    let n = chars.len();
    let mut cur: Vec<char> = Vec::new();
    let mut acc: Vec<String> = Vec::new();
    let mut i: usize = 0;
    proof {
        assert(cur@ =~= Seq::<char>::empty());
        assert(acc.deep_view() =~= Seq::<Seq<char>>::empty());
    }
    while i < n
        invariant
            chars@ == path@,
            n == chars@.len(),
            i <= n,
            split_colon_from(path@, i as int, cur@, acc.deep_view()) == split_colon(path@),
        decreases n - i,
    {
        let ghost pre_cur = cur@;
        let ghost pre_acc = acc.deep_view();
        let c = chars[i];
        if c == ':' {
            let s = chars_to_string(&cur);
            acc.push(s);
            cur = Vec::new();
            proof {
                assert(acc.deep_view() =~= pre_acc.push(pre_cur));
                assert(cur@ =~= Seq::<char>::empty());
            }
        } else {
            cur.push(c);
        }
        i = i + 1;
    }
    let ghost pre_cur = cur@;
    let ghost pre_acc = acc.deep_view();
    let s = chars_to_string(&cur);
    acc.push(s);
    proof {
        assert(acc.deep_view() =~= pre_acc.push(pre_cur));
    }
    acc
}

} // verus!
