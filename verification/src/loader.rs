//! Where the CVI vendor libraries are looked for, and in which order.
//!
//! Each library is looked for in the standard directories of reCamera-OS,
//! then by its bare name (left to the dynamic linker). The first candidate
//! that opens is used; when none does, the reported error is the one from
//! the last attempted path, the bare name. Opening a library is done by the
//! caller.
use vstd::prelude::*;

verus! {

/// The directories searched for vendor libraries, in order.
pub open spec fn search_dirs() -> Seq<Seq<char>> {
    seq!["/usr/lib/"@, "/lib/"@, "/mnt/system/lib/"@, "/mnt/system/usr/lib/"@]
}

/// How many directories are searched.
pub const SEARCH_DIR_COUNT: usize = 4;

/// The directory searched at position `i`.
pub fn search_dir(i: usize) -> (d: &'static str)
    requires
        i < SEARCH_DIR_COUNT,
    ensures
        d@ == search_dirs()[i as int],
{
    if i == 0 {
        "/usr/lib/"
    } else if i == 1 {
        "/lib/"
    } else if i == 2 {
        "/mnt/system/lib/"
    } else {
        "/mnt/system/usr/lib/"
    }
}

/// `Path::join` of a directory that ends with `/` and a file name: an
/// absolute name replaces the directory.
pub open spec fn join_dir(dir: Seq<char>, name: Seq<char>) -> Seq<char> {
    if name.len() > 0 && name[0] == '/' {
        name
    } else {
        dir + name
    }
}

/// The paths tried for the library `name`: each search directory joined
/// with the name, then the bare name.
pub open spec fn candidate_paths(name: Seq<char>) -> Seq<Seq<char>> {
    search_dirs().map_values(|d: Seq<char>| join_dir(d, name)).push(name)
}

/// The paths tried for the library `name`, in order.
pub fn library_candidates(name: &str) -> (v: Vec<String>)
    ensures
        v@.len() == candidate_paths(name@).len(),
        forall|i: int| 0 <= i < v@.len() ==> #[trigger] v@[i]@ == candidate_paths(name@)[i],
{
    let absolute = name.unicode_len() > 0 && name.get_char(0) == '/';
    let mut v: Vec<String> = Vec::new();
    let mut i: usize = 0;
    while i < SEARCH_DIR_COUNT
        invariant
            i <= SEARCH_DIR_COUNT,
            absolute == (name@.len() > 0 && name@[0] == '/'),
            v@.len() == i,
            forall|j: int| 0 <= j < i ==> #[trigger] v@[j]@ == join_dir(search_dirs()[j], name@),
        decreases SEARCH_DIR_COUNT - i,
    {
        let p = if absolute {
            String::from_str(name)
        } else {
            String::from_str(search_dir(i)).concat(name)
        };
        v.push(p);
        i = i + 1;
    }
    v.push(String::from_str(name));
    proof {
        let c = candidate_paths(name@);
        assert(c.len() == 5);
        assert forall|j: int| 0 <= j < v@.len() implies #[trigger] v@[j]@ == c[j] by {
            if j < 4 {
                assert(c[j] == join_dir(search_dirs()[j], name@));
            }
        }
    }
    v
}

/// The vendor libraries loaded, in dependency order.
pub open spec fn vendor_libraries() -> Seq<Seq<char>> {
    seq!["libsys.so"@, "libvi.so"@, "libvpss.so"@, "libvenc.so"@, "libcviruntime.so"@]
}

/// How many vendor libraries are loaded.
pub const VENDOR_LIBRARY_COUNT: usize = 5;

/// The vendor library loaded at position `i`.
pub fn vendor_library(i: usize) -> (n: &'static str)
    requires
        i < VENDOR_LIBRARY_COUNT,
    ensures
        n@ == vendor_libraries()[i as int],
{
    if i == 0 {
        "libsys.so"
    } else if i == 1 {
        "libvi.so"
    } else if i == 2 {
        "libvpss.so"
    } else if i == 3 {
        "libvenc.so"
    } else {
        "libcviruntime.so"
    }
}

/// The names tried, in order, for the optional atomics library that is
/// loaded before the vendor libraries.
pub open spec fn atomic_libraries() -> Seq<Seq<char>> {
    seq!["libatomic.so.1"@, "libatomic.so"@]
}

/// The atomics library name tried at position `i` (of two).
pub fn atomic_library(i: usize) -> (n: &'static str)
    requires
        i < 2,
    ensures
        n@ == atomic_libraries()[i as int],
{
    if i == 0 {
        "libatomic.so.1"
    } else {
        "libatomic.so"
    }
}

/// The libraries loaded, in order: the two names of the optional atomics
/// library, then the vendor libraries.
pub open spec fn load_order() -> Seq<Seq<char>> {
    atomic_libraries() + vendor_libraries()
}

/// How many names [`load_order`] holds.
pub const LOAD_ORDER_LEN: usize = 7;

/// Loading all libraries: the atomics library is optional (its second name
/// is tried only when the first fails, and its failure is ignored); the
/// vendor libraries are loaded in order and the first that fails ends the
/// load with its error.
#[derive(Debug)]
pub struct LibraryLoad {
    pos: usize,
    failed: bool,
}

impl LibraryLoad {
    /// The position in [`load_order`] of the library to load next.
    pub closed spec fn position(&self) -> nat {
        self.pos as nat
    }

    /// Whether a vendor library failed to load.
    pub closed spec fn has_failed(&self) -> bool {
        self.failed
    }

    /// A load that starts with the atomics library.
    pub fn new() -> (l: Self)
        ensures
            l.position() == 0,
            !l.has_failed(),
    {
        LibraryLoad { pos: 0, failed: false }
    }

    /// The library to load next, or `None` when the load is over.
    pub fn next_library(&self) -> (n: Option<&'static str>)
        ensures
            !self.has_failed() && self.position() < LOAD_ORDER_LEN ==> (n matches Some(x) && x@
                == load_order()[self.position() as int]),
            self.has_failed() || self.position() >= LOAD_ORDER_LEN ==> n is None,
    {
        if self.failed || self.pos >= LOAD_ORDER_LEN {
            None
        } else if self.pos < 2 {
            Some(atomic_library(self.pos))
        } else {
            Some(vendor_library(self.pos - 2))
        }
    }

    /// Whether the library to load next is the optional atomics library.
    pub fn loading_optional(&self) -> (b: bool)
        ensures
            b == (self.position() < 2),
    {
        self.pos < 2
    }

    /// The library handed out last was loaded.
    pub fn loaded(&mut self)
        ensures
            final(self).has_failed() == old(self).has_failed(),
            old(self).has_failed() || old(self).position() >= LOAD_ORDER_LEN ==> final(self).position()
                == old(self).position(),
            !old(self).has_failed() && old(self).position() == 0 ==> final(self).position() == 2,
            !old(self).has_failed() && 1 <= old(self).position() < LOAD_ORDER_LEN
                ==> final(self).position() == old(self).position() + 1,
    {
        if self.failed || self.pos >= LOAD_ORDER_LEN {
        } else if self.pos == 0 {
            self.pos = 2;
        } else {
            self.pos = self.pos + 1;
        }
    }

    /// The library handed out last failed to load with `e`. Returns the
    /// error that ends the whole load: `e` when it was a vendor library,
    /// nothing for the optional atomics library.
    pub fn failed<E>(&mut self, e: E) -> (r: Option<E>)
        ensures
            old(self).has_failed() || old(self).position() >= LOAD_ORDER_LEN ==> (r is None
                && final(self).position() == old(self).position() && final(self).has_failed()
                == old(self).has_failed()),
            !old(self).has_failed() && old(self).position() < 2 ==> (r is None
                && final(self).position() == old(self).position() + 1 && !final(self).has_failed()),
            !old(self).has_failed() && 2 <= old(self).position() < LOAD_ORDER_LEN ==> (r == Some(e)
                && final(self).has_failed() && final(self).position() == old(self).position()),
    {
        if self.failed || self.pos >= LOAD_ORDER_LEN {
            None
        } else if self.pos < 2 {
            self.pos = self.pos + 1;
            None
        } else {
            self.failed = true;
            Some(e)
        }
    }

    /// Whether every vendor library was loaded.
    pub fn is_complete(&self) -> (b: bool)
        ensures
            b == (!self.has_failed() && self.position() == LOAD_ORDER_LEN),
    {
        !self.failed && self.pos == LOAD_ORDER_LEN
    }
}

/// The search for one library: its candidate paths and how many of them
/// have failed so far.
pub struct LibrarySearch {
    paths: Vec<String>,
    next: usize,
}

impl LibrarySearch {
    /// The candidate paths of the search.
    pub closed spec fn paths(&self) -> Seq<Seq<char>> {
        self.paths@.map_values(|p: String| p@)
    }

    /// How many candidates have failed.
    pub closed spec fn tried(&self) -> nat {
        self.next as nat
    }

    /// A search for the library `name` that has tried nothing yet.
    pub fn new(name: &str) -> (s: Self)
        ensures
            s.paths() == candidate_paths(name@),
            s.tried() == 0,
    {
        let paths = library_candidates(name);
        let s = LibrarySearch { paths, next: 0 };
        assert(s.paths() =~= candidate_paths(name@));
        s
    }

    /// The path to try next, or `None` when every candidate has failed.
    pub fn next_path(&self) -> (p: Option<&str>)
        ensures
            self.tried() < self.paths().len() ==> (p matches Some(x) && x@ == self.paths()[
                self.tried() as int
            ]),
            self.tried() >= self.paths().len() ==> p is None,
    {
        if self.next < self.paths.len() {
            Some(self.paths[self.next].as_str())
        } else {
            None
        }
    }

    /// The current candidate failed with `e`. While candidates remain, the
    /// search moves on and returns `None`; once the last candidate (the bare
    /// name) has failed, the search is over and `e`, the error of the last
    /// attempted path, is returned.
    pub fn failed<E>(&mut self, e: E) -> (r: Option<E>)
        ensures
            final(self).paths() == old(self).paths(),
            old(self).tried() + 1 < old(self).paths().len() ==> (r is None && final(self).tried()
                == old(self).tried() + 1),
            old(self).tried() + 1 >= old(self).paths().len() ==> r == Some(e),
            old(self).tried() + 1 >= old(self).paths().len() ==> final(self).tried() == if old(
                self,
            ).tried() < old(self).paths().len() {
                old(self).tried() + 1
            } else {
                old(self).tried()
            },
    {
        if self.next < self.paths.len() {
            self.next = self.next + 1;
        }
        if self.next < self.paths.len() {
            None
        } else {
            Some(e)
        }
    }
}

} // verus!
