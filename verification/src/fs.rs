//! The kernel's small in-memory filesystem: named files with byte
//! contents, grouped in directories, addressed by paths.
//!
//! A path stores its file name first and its parent components after
//! it, outermost last; walking a path pops parents off the end.  Every
//! lookup resolves a name to the first entry carrying it, which is what
//! the executable searches do, so the contracts below pin results down
//! without needing a uniqueness invariant over the whole tree.

use vstd::prelude::*;

verus! {

/// Why a filesystem operation failed.  A lookup that finds no file
/// reports `AlreadyFile`, as the shell's wording has it.
#[derive(Debug, Clone, Copy, PartialEq, Eq, Structural)]
pub enum FileError {
    NotFoundFile,
    NotFoundDir,
    AlreadyFile,
    AlreadyDir,
}

/// A file: a name and its byte contents.
#[derive(Debug)]
pub struct File {
    pub name: String,
    pub content: Vec<u8>,
}

impl File {
    /// An empty file with the given name.
    pub fn new(name: &str) -> (f: File)
        ensures
            f.name@ == name@,
            f.content@ == Seq::<u8>::empty(),
    {
        File { name: name.to_owned(), content: Vec::new() }
    }

    /// A file with the given name and contents.
    pub fn with_content(name: &str, content: Vec<u8>) -> (f: File)
        ensures
            f.name@ == name@,
            f.content == content,
    {
        File { name: name.to_owned(), content }
    }

    pub fn name(&self) -> (r: &String)
        ensures
            r@ == self.name@,
    {
        &self.name
    }

    pub fn content(&self) -> (r: &Vec<u8>)
        ensures
            r@ == self.content@,
    {
        &self.content
    }
}

/// A path: the file name first, then the parent components, outermost
/// last.
#[derive(Debug)]
pub struct Path {
    inner: Vec<String>,
}

impl View for Path {
    type V = Seq<Seq<char>>;

    closed spec fn view(&self) -> Seq<Seq<char>> {
        Seq::new(self.inner@.len(), |i: int| self.inner@[i]@)
    }
}

impl Path {
    /// A single-component path: just a file name.
    pub fn from_str(s: &str) -> (p: Path)
        ensures
            p@.len() == 1,
            p@[0] == s@,
    {
        let mut inner: Vec<String> = Vec::new();
        inner.push(s.to_owned());
        Path { inner }
    }

    /// Remove and return the outermost parent component.  Calling this
    /// on a path without parents would be a caller bug; it is excluded
    /// by the precondition.
    pub fn pop_parent(&mut self) -> (r: Option<String>)
        requires
            old(self)@.len() > 1,
        ensures
            r matches Some(n) && n@ == old(self)@.last(),
            final(self)@ == old(self)@.drop_last(),
    {
        let r = self.inner.pop();
        proof {
            assert(final(self)@ =~= old(self)@.drop_last());
        }
        r
    }

    /// Whether any parent component remains.
    pub fn have_parent(&self) -> (r: bool)
        ensures
            r == (self@.len() > 1),
    {
        self.inner.len() > 1
    }

    /// The file name of a fully resolved path.
    pub fn file_name(&self) -> (r: &String)
        requires
            self@.len() == 1,
        ensures
            r@ == self@[0],
    {
        &self.inner[0]
    }
}

/// One named subdirectory of a directory.
#[derive(Debug)]
pub struct DirEntry {
    pub name: String,
    pub dir: Directory,
}

/// A directory: named subdirectories and files.
#[derive(Debug)]
pub struct Directory {
    pub dirs: Vec<DirEntry>,
    pub files: Vec<File>,
}

/// Some file in `files` carries `name`.
pub open spec fn has_file(files: Seq<File>, name: Seq<char>) -> bool {
    exists|i: int| 0 <= i < files.len() && files[i].name@ == name
}

/// The index of the first file carrying `name`.
pub open spec fn file_idx(files: Seq<File>, name: Seq<char>) -> int {
    choose|i: int|
        0 <= i < files.len() && files[i].name@ == name && (forall|j: int|
            0 <= j < i ==> files[j].name@ != name)
}

/// The first file carrying `name`.
pub open spec fn file_at(files: Seq<File>, name: Seq<char>) -> File {
    files[file_idx(files, name)]
}

/// Some entry in `entries` carries `name`.
pub open spec fn has_dir(entries: Seq<DirEntry>, name: Seq<char>) -> bool {
    exists|i: int| 0 <= i < entries.len() && entries[i].name@ == name
}

/// The index of the first entry carrying `name`.
pub open spec fn dir_idx(entries: Seq<DirEntry>, name: Seq<char>) -> int {
    choose|i: int|
        0 <= i < entries.len() && entries[i].name@ == name && (forall|j: int|
            0 <= j < i ==> entries[j].name@ != name)
}

/// The first subdirectory carrying `name`.
pub open spec fn dir_at(entries: Seq<DirEntry>, name: Seq<char>) -> Directory {
    entries[dir_idx(entries, name)].dir
}

/// A first matching index exists whenever any match does, and it
/// satisfies the minimality property `file_idx` selects by.
proof fn lemma_file_idx(files: Seq<File>, name: Seq<char>)
    requires
        has_file(files, name),
    ensures
        0 <= file_idx(files, name) < files.len(),
        files[file_idx(files, name)].name@ == name,
        forall|j: int| 0 <= j < file_idx(files, name) ==> files[j].name@ != name,
    decreases files.len(),
{
    let w = choose|i: int| 0 <= i < files.len() && files[i].name@ == name;
    if files[0].name@ == name {
        assert(0 <= 0 < files.len() && files[0].name@ == name && (forall|j: int|
            0 <= j < 0 ==> files[j].name@ != name));
    } else {
        assert(files.skip(1)[w - 1].name@ == name);
        lemma_file_idx(files.skip(1), name);
        let t = file_idx(files.skip(1), name);
        assert(files[t + 1].name@ == name);
        assert forall|j: int| 0 <= j < t + 1 implies files[j].name@ != name by {
            if j > 0 {
                assert(files.skip(1)[j - 1].name@ != name);
            }
        }
        assert(0 <= t + 1 < files.len() && files[t + 1].name@ == name && (forall|j: int|
            0 <= j < t + 1 ==> files[j].name@ != name));
    }
}

/// The same, for subdirectory entries.
proof fn lemma_dir_idx(entries: Seq<DirEntry>, name: Seq<char>)
    requires
        has_dir(entries, name),
    ensures
        0 <= dir_idx(entries, name) < entries.len(),
        entries[dir_idx(entries, name)].name@ == name,
        forall|j: int| 0 <= j < dir_idx(entries, name) ==> entries[j].name@ != name,
    decreases entries.len(),
{
    let w = choose|i: int| 0 <= i < entries.len() && entries[i].name@ == name;
    if entries[0].name@ == name {
        assert(0 <= 0 < entries.len() && entries[0].name@ == name && (forall|j: int|
            0 <= j < 0 ==> entries[j].name@ != name));
    } else {
        assert(entries.skip(1)[w - 1].name@ == name);
        lemma_dir_idx(entries.skip(1), name);
        let t = dir_idx(entries.skip(1), name);
        assert(entries[t + 1].name@ == name);
        assert forall|j: int| 0 <= j < t + 1 implies entries[j].name@ != name by {
            if j > 0 {
                assert(entries.skip(1)[j - 1].name@ != name);
            }
        }
        assert(0 <= t + 1 < entries.len() && entries[t + 1].name@ == name && (forall|j: int|
            0 <= j < t + 1 ==> entries[j].name@ != name));
    }
}

/// What creating a file at `p` under `d` returns: an error when a
/// parent directory is missing or the file already exists, success
/// otherwise.
pub open spec fn create_result(d: Directory, p: Seq<Seq<char>>) -> Result<(), FileError>
    decreases p.len(),
{
    if p.len() > 1 {
        if has_dir(d.dirs@, p.last()) {
            create_result(dir_at(d.dirs@, p.last()), p.drop_last())
        } else {
            Err(FileError::NotFoundDir)
        }
    } else {
        if has_file(d.files@, p[0]) {
            Err(FileError::AlreadyFile)
        } else {
            Ok(())
        }
    }
}

/// Whether a file exists at `p` under `d`.
pub open spec fn file_exists(d: Directory, p: Seq<Seq<char>>) -> bool
    decreases p.len(),
{
    if p.len() > 1 {
        has_dir(d.dirs@, p.last()) && file_exists(dir_at(d.dirs@, p.last()), p.drop_last())
    } else {
        has_file(d.files@, p[0])
    }
}

/// `d2` is `d` with an empty file created at `p` and nothing else
/// changed.
pub open spec fn created(d: Directory, d2: Directory, p: Seq<Seq<char>>) -> bool
    decreases p.len(),
{
    if p.len() > 1 {
        &&& d2.files@ == d.files@
        &&& has_dir(d.dirs@, p.last())
        &&& d2.dirs@.len() == d.dirs@.len()
        &&& (forall|k: int|
            0 <= k < d.dirs@.len() && k != dir_idx(d.dirs@, p.last()) ==> d2.dirs@[k]
                == d.dirs@[k])
        &&& d2.dirs@[dir_idx(d.dirs@, p.last())].name@ == p.last()
        &&& created(
            d.dirs@[dir_idx(d.dirs@, p.last())].dir,
            d2.dirs@[dir_idx(d.dirs@, p.last())].dir,
            p.drop_last(),
        )
    } else {
        &&& d2.dirs@ == d.dirs@
        &&& d2.files@.len() == d.files@.len() + 1
        &&& d2.files@.subrange(0, d.files@.len() as int) == d.files@
        &&& d2.files@.last().name@ == p[0]
        &&& d2.files@.last().content@ == Seq::<u8>::empty()
    }
}

/// What looking a file up at `p` under `d` returns.  A missing parent
/// directory reports `NotFoundDir`; a missing file reports
/// `AlreadyFile`, as the shell's wording has it.
pub open spec fn find_result(d: Directory, p: Seq<Seq<char>>) -> Result<File, FileError>
    decreases p.len(),
{
    if p.len() > 1 {
        if has_dir(d.dirs@, p.last()) {
            find_result(dir_at(d.dirs@, p.last()), p.drop_last())
        } else {
            Err(FileError::NotFoundDir)
        }
    } else {
        if has_file(d.files@, p[0]) {
            Ok(file_at(d.files@, p[0]))
        } else {
            Err(FileError::AlreadyFile)
        }
    }
}

/// What listing at `p` under `d` returns: the files of the
/// subdirectory named like the file found at `p`.
pub open spec fn files_result(d: Directory, p: Seq<Seq<char>>) -> Result<Seq<File>, FileError>
    decreases p.len(),
{
    if p.len() > 1 {
        if has_dir(d.dirs@, p.last()) {
            files_result(dir_at(d.dirs@, p.last()), p.drop_last())
        } else {
            Err(FileError::NotFoundDir)
        }
    } else {
        if has_file(d.files@, p[0]) {
            if has_dir(d.dirs@, file_at(d.files@, p[0]).name@) {
                Ok(dir_at(d.dirs@, file_at(d.files@, p[0]).name@).files@)
            } else {
                Err(FileError::NotFoundDir)
            }
        } else {
            Err(FileError::AlreadyFile)
        }
    }
}

/// A mutable borrow of one subdirectory entry, with the relation
/// between the vector before and after the borrow ends.
fn entry_mut(v: &mut Vec<DirEntry>, i: usize) -> (e: &mut DirEntry)
    requires
        i < old(v).len(),
    ensures
        *e == old(v)@[i as int],
        final(v)@ == old(v)@.update(i as int, *final(e)),
{
    &mut v[i]
}

/// The index of the first file in `files` named `name`, if any.
fn find_file_index(files: &Vec<File>, name: &String) -> (r: Option<usize>)
    ensures
        match r {
            Some(i) => {
                &&& i < files@.len()
                &&& files@[i as int].name@ == name@
                &&& forall|j: int| 0 <= j < i ==> files@[j].name@ != name@
            },
            None => !has_file(files@, name@),
        },
{
    let mut i: usize = 0;
    while i < files.len()
        invariant
            i <= files@.len(),
            forall|j: int| 0 <= j < i ==> files@[j].name@ != name@,
        decreases files@.len() - i,
    {
        if files[i].name == *name {
            return Some(i);
        }
        i = i + 1;
    }
    None
}

/// The index of the first entry in `entries` named `name`, if any.
fn find_dir_index(entries: &Vec<DirEntry>, name: &String) -> (r: Option<usize>)
    ensures
        match r {
            Some(i) => {
                &&& i < entries@.len()
                &&& entries@[i as int].name@ == name@
                &&& forall|j: int| 0 <= j < i ==> entries@[j].name@ != name@
            },
            None => !has_dir(entries@, name@),
        },
{
    let mut i: usize = 0;
    while i < entries.len()
        invariant
            i <= entries@.len(),
            forall|j: int| 0 <= j < i ==> entries@[j].name@ != name@,
        decreases entries@.len() - i,
    {
        if entries[i].name == *name {
            return Some(i);
        }
        i = i + 1;
    }
    None
}

impl Directory {
    /// An empty directory.
    pub fn new() -> (d: Directory)
        ensures
            d.dirs@ == Seq::<DirEntry>::empty(),
            d.files@ == Seq::<File>::empty(),
    {
        Directory { dirs: Vec::new(), files: Vec::new() }
    }

    /// Create an empty file at `path`, walking the parent components
    /// from the outermost in.  Fails with `NotFoundDir` when a parent
    /// directory is missing and with `AlreadyFile` when the file is
    /// already there; on success the file exists and nothing else has
    /// changed.
    pub fn create_file(&mut self, path: &mut Path) -> (r: Result<(), FileError>)
        requires
            old(path)@.len() >= 1,
        ensures
            r == create_result(*old(self), old(path)@),
            r is Ok ==> created(*old(self), *final(self), old(path)@),
            r is Ok ==> file_exists(*final(self), old(path)@),
            r is Err ==> {
                &&& final(self).files@ == old(self).files@
                &&& final(self).dirs@.len() == old(self).dirs@.len()
                &&& forall|k: int|
                    0 <= k < old(self).dirs@.len() ==> (#[trigger] final(self).dirs@[k]).name@
                        == old(self).dirs@[k].name@
            },
            final(path)@.len() >= 1,
        decreases old(path)@.len(),
    {
        let ghost p = path@;
        if path.have_parent() {
            let dirname = match path.pop_parent() {
                Some(n) => n,
                None => {
                    return Err(FileError::NotFoundDir);
                },
            };
            match find_dir_index(&self.dirs, &dirname) {
                None => Err(FileError::NotFoundDir),
                Some(i) => {
                    proof {
                        lemma_dir_idx(self.dirs@, p.last());
                        assert(i == dir_idx(self.dirs@, p.last()));
                    }
                    let ghost pre = *self;
                    let e = entry_mut(&mut self.dirs, i);
                    let r = e.dir.create_file(path);
                    proof {
                        if r is Ok {
                            assert(created(pre, *self, p));
                            assert(dir_idx(self.dirs@, p.last()) == i) by {
                                lemma_dir_idx(self.dirs@, p.last());
                                let i2 = dir_idx(self.dirs@, p.last());
                                if i2 < i {
                                    assert(pre.dirs@[i2].name@ == p.last());
                                    lemma_dir_idx(pre.dirs@, p.last());
                                } else if i2 > i {
                                    assert(forall|j: int|
                                        0 <= j < i2 ==> self.dirs@[j].name@ != p.last());
                                }
                            }
                            assert(has_dir(self.dirs@, p.last())) by {
                                assert(self.dirs@[i as int].name@ == p.last());
                            }
                            assert(dir_at(self.dirs@, p.last()) == self.dirs@[i as int].dir);
                            assert(file_exists(dir_at(self.dirs@, p.last()), p.drop_last()));
                            assert(file_exists(*self, p));
                        }
                    }
                    r
                },
            }
        } else {
            match find_file_index(&self.files, path.file_name()) {
                None => {
                    let f = File::new(path.file_name().as_str());
                    self.files.push(f);
                    proof {
                        assert(self.files@.subrange(0, old(self).files@.len() as int)
                            =~= old(self).files@);
                    }
                    Ok(())
                },
                Some(_) => Err(FileError::AlreadyFile),
            }
        }
    }

    /// Look a file up at `path`, walking the parent components from the
    /// outermost in.
    pub fn find_file(&self, path: &mut Path) -> (r: Result<&File, FileError>)
        requires
            old(path)@.len() >= 1,
        ensures
            r is Ok <==> find_result(*self, old(path)@) is Ok,
            r matches Ok(f) ==> (find_result(*self, old(path)@) matches Ok(g) && *f == g),
            r matches Err(e) ==> find_result(*self, old(path)@) == Err::<File, FileError>(e),
            final(path)@.len() >= 1,
        decreases old(path)@.len(),
    {
        let ghost p = path@;
        if path.have_parent() {
            let dirname = match path.pop_parent() {
                Some(n) => n,
                None => {
                    return Err(FileError::NotFoundDir);
                },
            };
            match find_dir_index(&self.dirs, &dirname) {
                None => Err(FileError::NotFoundDir),
                Some(i) => {
                    proof {
                        lemma_dir_idx(self.dirs@, p.last());
                        assert(i == dir_idx(self.dirs@, p.last()));
                    }
                    self.dirs[i].dir.find_file(path)
                },
            }
        } else {
            match find_file_index(&self.files, path.file_name()) {
                Some(i) => {
                    proof {
                        lemma_file_idx(self.files@, p[0]);
                        assert(i == file_idx(self.files@, p[0]));
                    }
                    Ok(&self.files[i])
                },
                None => Err(FileError::AlreadyFile),
            }
        }
    }

    /// List the files of the subdirectory named like the file found at
    /// `path`.
    pub fn find_files(&self, path: &mut Path) -> (r: Result<&Vec<File>, FileError>)
        requires
            old(path)@.len() >= 1,
        ensures
            r is Ok <==> files_result(*self, old(path)@) is Ok,
            r matches Ok(v) ==> (files_result(*self, old(path)@) matches Ok(s) && v@ == s),
            r matches Err(e) ==> files_result(*self, old(path)@) == Err::<Seq<File>, FileError>(e),
            final(path)@.len() >= 1,
        decreases old(path)@.len(),
    {
        let ghost p = path@;
        if path.have_parent() {
            let dirname = match path.pop_parent() {
                Some(n) => n,
                None => {
                    return Err(FileError::NotFoundDir);
                },
            };
            match find_dir_index(&self.dirs, &dirname) {
                None => Err(FileError::NotFoundDir),
                Some(i) => {
                    proof {
                        lemma_dir_idx(self.dirs@, p.last());
                        assert(i == dir_idx(self.dirs@, p.last()));
                    }
                    self.dirs[i].dir.find_files(path)
                },
            }
        } else {
            match find_file_index(&self.files, path.file_name()) {
                Some(i) => {
                    proof {
                        lemma_file_idx(self.files@, p[0]);
                        assert(i == file_idx(self.files@, p[0]));
                    }
                    match find_dir_index(&self.dirs, &self.files[i].name) {
                        Some(k) => {
                            proof {
                                lemma_dir_idx(self.dirs@, self.files@[i as int].name@);
                                assert(k == dir_idx(self.dirs@, file_at(self.files@, p[0]).name@));
                            }
                            Ok(&self.dirs[k].dir.files)
                        },
                        None => Err(FileError::NotFoundDir),
                    }
                },
                None => Err(FileError::AlreadyFile),
            }
        }
    }
}

/// The filesystem: one root directory.
pub struct FileSystem {
    pub root_dir: Directory,
}

impl FileSystem {
    /// An empty filesystem.
    pub fn new() -> (fs: FileSystem)
        ensures
            fs.root_dir.dirs@ == Seq::<DirEntry>::empty(),
            fs.root_dir.files@ == Seq::<File>::empty(),
    {
        FileSystem { root_dir: Directory::new() }
    }

    /// Create an empty file at `path` under the root.
    pub fn create_file(&mut self, path: &mut Path) -> (r: Result<(), FileError>)
        requires
            old(path)@.len() >= 1,
        ensures
            r == create_result(old(self).root_dir, old(path)@),
            r is Ok ==> created(old(self).root_dir, final(self).root_dir, old(path)@),
            r is Ok ==> file_exists(final(self).root_dir, old(path)@),
    {
        self.root_dir.create_file(path)
    }
}

/// Create an empty file at `path`.
pub fn create_file(fs: &mut FileSystem, path: &mut Path) -> (r: Result<(), FileError>)
    requires
        old(path)@.len() >= 1,
    ensures
        r == create_result(old(fs).root_dir, old(path)@),
        r is Ok ==> created(old(fs).root_dir, final(fs).root_dir, old(path)@),
        r is Ok ==> file_exists(final(fs).root_dir, old(path)@),
{
    fs.create_file(path)
}

/// A copy of a file, byte for byte.
fn copy_file(f: &File) -> (r: File)
    ensures
        r.name@ == f.name@,
        r.content@ == f.content@,
{
    let name = f.name.clone();
    let content = f.content.clone();
    proof {
        assert(content@ =~= f.content@);
    }
    File { name, content }
}

/// Look a file up at `path` and hand back a copy of it, or the error.
pub fn handle_file(fs: &FileSystem, path: &mut Path) -> (r: Result<File, FileError>)
    requires
        old(path)@.len() >= 1,
    ensures
        r is Ok <==> find_result(fs.root_dir, old(path)@) is Ok,
        r matches Ok(f) ==> (find_result(fs.root_dir, old(path)@) matches Ok(g) && f.name@
            == g.name@ && f.content@ == g.content@),
        r matches Err(e) ==> find_result(fs.root_dir, old(path)@) == Err::<File, FileError>(e),
{
    match fs.root_dir.find_file(path) {
        Ok(f) => Ok(copy_file(f)),
        Err(e) => Err(e),
    }
}

/// List the files at `path` and hand back copies of them, or the
/// error.
pub fn handle_files(fs: &FileSystem, path: &mut Path) -> (r: Result<Vec<File>, FileError>)
    requires
        old(path)@.len() >= 1,
    ensures
        r is Ok <==> files_result(fs.root_dir, old(path)@) is Ok,
        r matches Ok(v) ==> (files_result(fs.root_dir, old(path)@) matches Ok(s) && v@.len()
            == s.len() && (forall|i: int|
            0 <= i < s.len() ==> (#[trigger] v@[i]).name@ == s[i].name@ && v@[i].content@
                == s[i].content@)),
        r matches Err(e) ==> files_result(fs.root_dir, old(path)@) == Err::<Seq<File>, FileError>(
            e,
        ),
{
    match fs.root_dir.find_files(path) {
        Ok(list) => {
            let mut out: Vec<File> = Vec::new();
            let mut i: usize = 0;
            while i < list.len()
                invariant
                    i <= list@.len(),
                    out@.len() == i,
                    forall|j: int|
                        0 <= j < i ==> (#[trigger] out@[j]).name@ == list@[j].name@
                            && out@[j].content@ == list@[j].content@,
                decreases list@.len() - i,
            {
                out.push(copy_file(&list[i]));
                i = i + 1;
            }
            Ok(out)
        },
        Err(e) => Err(e),
    }
}

} // verus!
