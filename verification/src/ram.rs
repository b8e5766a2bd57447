//! A verified in-memory device behind the firmware file interface.
//!
//! [`RamVolume`] implements [`crate::proto::FileImpl`] entirely in memory:
//! files are byte vectors keyed by their wide name, and handles are slots in
//! a table, spent once closed or deleted.  It exists so the bindings can be
//! exercised and their behaviour pinned down without firmware: its contracts
//! state each operation's effect exactly, over the spec functions of
//! [`crate::fileops`].

use vstd::prelude::*;
use vstd::pervasive::VecAdditionalExecFns;

use crate::encode::wide_name;
use crate::fileops::{read_bytes, read_count, write_bytes, POSITION_END};
use crate::mode::{FileAttribute, FileMode};
use crate::proto::FileImpl;
use crate::status::Status;

verus! {

/// One file of the volume.  A deleted file keeps its slot, name and bytes,
/// but is no longer present: handles still pointing at it find no file.
struct RamFile {
    name: Vec<u16>,
    data: Vec<u8>,
    present: bool,
}

/// The state of one handle slot.
#[derive(Clone, Copy, PartialEq, Eq, Structural)]
enum HandleState {
    /// A handle on the root directory.
    Root,
    /// A handle on the file in slot `file`, at byte offset `pos`.
    Open { file: usize, pos: u64, writable: bool },
    /// A spent handle: closed or deleted.
    Dead,
}

/// An in-memory volume.
///
/// All public knowledge of a volume goes through its spec accessors:
/// which names are present and with what contents ([`RamVolume::has_file`],
/// [`RamVolume::contents_of`]), and per handle whether it is live, open or
/// the root, its position, its write permission, and its file's bytes.
pub struct RamVolume {
    files: Vec<RamFile>,
    handles: Vec<HandleState>,
}

impl RamVolume {
    /// Every open handle points at a file slot of the volume and sits at an
    /// offset within that file's bytes, and no two present files share a
    /// name.
    #[verifier::type_invariant]
    closed spec fn wf(self) -> bool {
        &&& (forall|h: int|
            0 <= h < self.handles@.len() ==> match #[trigger] self.handles@[h] {
                HandleState::Open { file, pos, writable } => file < self.files@.len() && pos
                    <= self.files@[file as int].data@.len(),
                HandleState::Root => true,
                HandleState::Dead => true,
            })
        &&& (forall|i: int, j: int|
            0 <= i < self.files@.len() && 0 <= j < self.files@.len()
                && (#[trigger] self.files@[i]).present && (#[trigger] self.files@[j]).present
                && self.files@[i].name@ == self.files@[j].name@ ==> i == j)
    }

    /// How many handle slots have been produced, spent ones included.
    pub closed spec fn handle_count(self) -> nat {
        self.handles@.len()
    }

    /// Whether `h` is an open file handle.
    pub closed spec fn is_open(self, h: usize) -> bool {
        h < self.handles@.len() && (self.handles@[h as int] matches HandleState::Open { .. })
    }

    /// Whether `h` is a handle on the root directory.
    pub closed spec fn is_root(self, h: usize) -> bool {
        h < self.handles@.len() && self.handles@[h as int] == HandleState::Root
    }

    /// Whether `h` is a handle that operations may still use.
    pub open spec fn is_live(self, h: usize) -> bool {
        self.is_open(h) || self.is_root(h)
    }

    /// The file slot an open handle points at.
    closed spec fn file_index(self, h: usize) -> int {
        match self.handles@[h as int] {
            HandleState::Open { file, pos, writable } => file as int,
            HandleState::Root => 0,
            HandleState::Dead => 0,
        }
    }

    /// The byte offset an open handle sits at.
    pub closed spec fn pos_of(self, h: usize) -> nat {
        match self.handles@[h as int] {
            HandleState::Open { file, pos, writable } => pos as nat,
            HandleState::Root => 0,
            HandleState::Dead => 0,
        }
    }

    /// Whether an open handle may write.
    pub closed spec fn writable(self, h: usize) -> bool {
        match self.handles@[h as int] {
            HandleState::Open { file, pos, writable } => writable,
            HandleState::Root => false,
            HandleState::Dead => false,
        }
    }

    /// The bytes of the file behind an open handle.  A deleted file keeps
    /// its bytes, so this is meaningful as long as the handle is open.
    pub closed spec fn file_of(self, h: usize) -> Seq<u8> {
        self.files@[self.file_index(h)].data@
    }

    /// The name of the file behind an open handle.
    pub closed spec fn name_of_handle(self, h: usize) -> Seq<u16> {
        self.files@[self.file_index(h)].name@
    }

    /// Whether the file behind an open handle is still present: it has not
    /// been deleted through another handle.
    pub closed spec fn file_live(self, h: usize) -> bool {
        self.is_open(h) && self.files@[self.file_index(h)].present
    }

    /// Whether two open handles point at the same file slot.
    pub closed spec fn shares_file(self, h1: usize, h2: usize) -> bool {
        self.is_open(h1) && self.is_open(h2) && self.file_index(h1) == self.file_index(h2)
    }

    /// Whether a file of the given wide name is present on the volume.
    pub closed spec fn has_file(self, name: Seq<u16>) -> bool {
        exists|i: int|
            0 <= i < self.files@.len() && (#[trigger] self.files@[i]).present
                && self.files@[i].name@ == name
    }

    /// The bytes of the present file of the given wide name.
    pub closed spec fn contents_of(self, name: Seq<u16>) -> Seq<u8> {
        let i = choose|i: int|
            0 <= i < self.files@.len() && (#[trigger] self.files@[i]).present
                && self.files@[i].name@ == name;
        self.files@[i].data@
    }

    /// A fresh volume: no files, no handles.
    pub fn new() -> (v: RamVolume)
        ensures
            v.handle_count() == 0,
            forall|name: Seq<u16>| !(#[trigger] v.has_file(name)),
    {
        RamVolume { files: Vec::new(), handles: Vec::new() }
    }
}

/// Everything of handle `h` but its file's bytes and presence is the same
/// in `post` as in `pre`.
pub open spec fn handle_shape_preserved(pre: RamVolume, post: RamVolume, h: usize) -> bool {
    &&& post.is_open(h) == pre.is_open(h)
    &&& post.is_root(h) == pre.is_root(h)
    &&& (pre.is_open(h) ==> {
        &&& post.pos_of(h) == pre.pos_of(h)
        &&& post.writable(h) == pre.writable(h)
        &&& post.name_of_handle(h) == pre.name_of_handle(h)
    })
}

/// Handle `h` is the same in `post` as in `pre`, its file's bytes and
/// presence included.
pub open spec fn handle_preserved(pre: RamVolume, post: RamVolume, h: usize) -> bool {
    &&& handle_shape_preserved(pre, post, h)
    &&& (pre.is_open(h) ==> post.file_of(h) == pre.file_of(h) && post.file_live(h)
        == pre.file_live(h))
}

/// Every handle but `except` is fully preserved from `pre` to `post`.
pub open spec fn handles_preserved_except(pre: RamVolume, post: RamVolume, except: usize) -> bool {
    forall|h: usize| h != except ==> #[trigger] handle_preserved(pre, post, h)
}

/// The volume's files are untouched from `pre` to `post`: the same names
/// are present, with the same bytes.
pub open spec fn files_preserved(pre: RamVolume, post: RamVolume) -> bool {
    forall|n: Seq<u16>|
        (#[trigger] post.has_file(n)) == pre.has_file(n) && (pre.has_file(n)
            ==> post.contents_of(n) == pre.contents_of(n))
}

/// Every file but the one named `name` is untouched from `pre` to `post`.
pub open spec fn files_preserved_except(pre: RamVolume, post: RamVolume, name: Seq<u16>) -> bool {
    forall|n: Seq<u16>|
        n != name ==> (#[trigger] post.has_file(n)) == pre.has_file(n) && (pre.has_file(n)
            ==> post.contents_of(n) == pre.contents_of(n))
}

impl RamVolume {
    /// A present file slot is found under its name, with its bytes.
    proof fn lemma_file_lookup(self, i: int)
        requires
            self.wf(),
            0 <= i < self.files@.len(),
            self.files@[i].present,
        ensures
            self.has_file(self.files@[i].name@),
            self.contents_of(self.files@[i].name@) == self.files@[i].data@,
    {
        let name = self.files@[i].name@;
        assert(self.has_file(name));
        let j = choose|j: int|
            0 <= j < self.files@.len() && (#[trigger] self.files@[j]).present
                && self.files@[j].name@ == name;
        assert(j == i);
    }

    /// When the file table is untouched, the volume's files are preserved.
    proof fn lemma_files_frame(pre: RamVolume, post: RamVolume)
        requires
            post.files@ == pre.files@,
        ensures
            files_preserved(pre, post),
    {
        assert forall|n: Seq<u16>|
            (#[trigger] post.has_file(n)) == pre.has_file(n) && (pre.has_file(n)
                ==> post.contents_of(n) == pre.contents_of(n)) by {
            if pre.has_file(n) {
                let i = choose|i: int|
                    0 <= i < pre.files@.len() && (#[trigger] pre.files@[i]).present
                        && pre.files@[i].name@ == n;
                assert(0 <= i < post.files@.len() && post.files@[i].present && post.files@[i].name@
                    == n);
            }
            if post.has_file(n) {
                let i = choose|i: int|
                    0 <= i < post.files@.len() && (#[trigger] post.files@[i]).present
                        && post.files@[i].name@ == n;
                assert(0 <= i < pre.files@.len() && pre.files@[i].present && pre.files@[i].name@
                    == n);
            }
        }
    }

    /// When only the file in slot `idx` changes, and keeps its name, every
    /// other file is preserved.
    proof fn lemma_files_frame_set(pre: RamVolume, post: RamVolume, idx: int)
        requires
            pre.wf(),
            0 <= idx < pre.files@.len(),
            post.files@.len() == pre.files@.len(),
            forall|i: int| 0 <= i < pre.files@.len() && i != idx ==> post.files@[i] == pre.files@[i],
            post.files@[idx].name@ == pre.files@[idx].name@,
        ensures
            files_preserved_except(pre, post, pre.files@[idx].name@),
    {
        let name = pre.files@[idx].name@;
        assert forall|n: Seq<u16>|
            n != name implies (#[trigger] post.has_file(n)) == pre.has_file(n) && (pre.has_file(n)
            ==> post.contents_of(n) == pre.contents_of(n)) by {
            if pre.has_file(n) {
                let i = choose|i: int|
                    0 <= i < pre.files@.len() && (#[trigger] pre.files@[i]).present
                        && pre.files@[i].name@ == n;
                assert(i != idx);
                assert(post.files@[i].present && post.files@[i].name@ == n);
                assert(post.has_file(n));
                let j = choose|j: int|
                    0 <= j < post.files@.len() && (#[trigger] post.files@[j]).present
                        && post.files@[j].name@ == n;
                assert(j != idx);
                assert(pre.files@[j].present && pre.files@[j].name@ == n);
                assert(j == i);
                assert(post.contents_of(n) == pre.contents_of(n));
            } else {
                if post.has_file(n) {
                    let j = choose|j: int|
                        0 <= j < post.files@.len() && (#[trigger] post.files@[j]).present
                            && post.files@[j].name@ == n;
                    assert(j != idx);
                    assert(pre.files@[j].present && pre.files@[j].name@ == n);
                    assert(pre.has_file(n));
                }
            }
        }
    }
}

impl RamVolume {
    /// When one file slot is appended, every file of another name is
    /// preserved.
    proof fn lemma_files_frame_push(pre: RamVolume, post: RamVolume, name: Seq<u16>)
        requires
            pre.wf(),
            post.files@.len() == pre.files@.len() + 1,
            forall|i: int| 0 <= i < pre.files@.len() ==> post.files@[i] == pre.files@[i],
            post.files@[pre.files@.len() as int].name@ == name,
        ensures
            files_preserved_except(pre, post, name),
    {
        let idx = pre.files@.len() as int;
        assert forall|n: Seq<u16>|
            n != name implies (#[trigger] post.has_file(n)) == pre.has_file(n) && (pre.has_file(n)
            ==> post.contents_of(n) == pre.contents_of(n)) by {
            if pre.has_file(n) {
                let i = choose|i: int|
                    0 <= i < pre.files@.len() && (#[trigger] pre.files@[i]).present
                        && pre.files@[i].name@ == n;
                assert(post.files@[i].present && post.files@[i].name@ == n);
                assert(post.has_file(n));
                let j = choose|j: int|
                    0 <= j < post.files@.len() && (#[trigger] post.files@[j]).present
                        && post.files@[j].name@ == n;
                assert(j != idx);
                assert(pre.files@[j].present && pre.files@[j].name@ == n);
                assert(j == i);
            } else {
                if post.has_file(n) {
                    let j = choose|j: int|
                        0 <= j < post.files@.len() && (#[trigger] post.files@[j]).present
                            && post.files@[j].name@ == n;
                    assert(j != idx);
                    assert(pre.files@[j].present && pre.files@[j].name@ == n);
                    assert(pre.has_file(n));
                }
            }
        }
    }

    /// When the handle table changes in at most slot `except`, and no file
    /// slot an open handle can point at changes, every other handle is
    /// preserved.
    proof fn lemma_handles_frame(pre: RamVolume, post: RamVolume, except: usize)
        requires
            pre.wf(),
            pre.files@.len() <= post.files@.len(),
            forall|i: int| 0 <= i < pre.files@.len() ==> post.files@[i] == pre.files@[i],
            forall|h: int|
                0 <= h < pre.handles@.len() && h != except ==> h < post.handles@.len()
                    && post.handles@[h] == pre.handles@[h],
            post.handles@.len() == pre.handles@.len() || (post.handles@.len() == pre.handles@.len()
                + 1 && except == pre.handles@.len()),
        ensures
            handles_preserved_except(pre, post, except),
    {
        assert forall|h: usize| h != except implies #[trigger] handle_preserved(pre, post, h) by {
            if (h as int) < pre.handles@.len() {
                assert(post.handles@[h as int] == pre.handles@[h as int]);
            }
        }
    }
}

/// Whether two wide-name vectors hold the same units.
fn names_equal(a: &Vec<u16>, b: &Vec<u16>) -> (r: bool)
    ensures
        r == (a@ == b@),
{
    if a.len() != b.len() {
        return false;
    }
    let n = a.len();
    let mut i: usize = 0;
    while i < n
        invariant
            i <= n,
            n == a@.len(),
            n == b@.len(),
            forall|k: int| 0 <= k < i ==> a@[k] == b@[k],
        decreases n - i,
    {
        if a[i] != b[i] {
            return false;
        }
        i = i + 1;
    }
    proof {
        assert(a@ =~= b@);
    }
    true
}

/// A copy of a vector of copyable elements.
fn copy_vec<T: Copy>(v: &Vec<T>) -> (r: Vec<T>)
    ensures
        r@ == v@,
{
    let n = v.len();
    let mut r: Vec<T> = Vec::new();
    let mut i: usize = 0;
    while i < n
        invariant
            i <= n,
            n == v@.len(),
            r@.len() == i,
            forall|k: int| 0 <= k < i ==> r@[k] == v@[k],
        decreases n - i,
    {
        r.push(v[i]);
        i = i + 1;
    }
    proof {
        assert(r@ =~= v@);
    }
    r
}

impl RamVolume {
    /// The slot of the present file named `name`, if any.
    fn find_file(&self, name: &Vec<u16>) -> (r: Option<usize>)
        ensures
            match r {
                Some(i) => i < self.files@.len() && self.files@[i as int].present
                    && self.files@[i as int].name@ == name@,
                None => !self.has_file(name@),
            },
    {
        let n = self.files.len();
        let mut i: usize = 0;
        while i < n
            invariant
                i <= n,
                n == self.files@.len(),
                forall|k: int|
                    0 <= k < i ==> !((#[trigger] self.files@[k]).present && self.files@[k].name@
                        == name@),
            decreases n - i,
        {
            if self.files[i].present && names_equal(&self.files[i].name, name) {
                return Some(i);
            }
            i = i + 1;
        }
        None
    }
}

impl FileImpl for RamVolume {
    /// Opening the volume always succeeds and yields a fresh root handle;
    /// files and existing handles are untouched.
    fn open_volume(&mut self) -> (r: (Status, usize))
        ensures
            r.0 == Status::Success,
            r.1 == old(self).handle_count(),
            final(self).handle_count() == old(self).handle_count() + 1,
            final(self).is_root(r.1),
            handles_preserved_except(*old(self), *final(self), r.1),
            files_preserved(*old(self), *final(self)),
    {
        proof {
            use_type_invariant(&*self);
        }
        let id = self.handles.len();
        let mut hs: Vec<HandleState> = Vec::new();
        core::mem::swap(&mut hs, &mut self.handles);
        hs.push(HandleState::Root);
        self.handles = hs;
        proof {
            Self::lemma_files_frame(*old(self), *self);
            Self::lemma_handles_frame(*old(self), *self, id);
        }
        (Status::Success, id)
    }

    /// Opening a name under a live handle looks the name up among the
    /// volume's present files, after trimming the buffer at its terminator.
    /// A found file yields a fresh handle at offset zero on that file's
    /// bytes; a missing one is created empty when the mode asks for it, and
    /// reported `NotFound` otherwise.  A spent handle or an open mode
    /// outside the three legal combinations is rejected without effect.
    fn open(
        &mut self,
        this: usize,
        filename: &[u16],
        open_mode: FileMode,
        attributes: FileAttribute,
    ) -> (r: (Status, usize))
        ensures
            !old(self).is_live(this) ==> r.0 == Status::DeviceError && *final(self) == *old(self),
            old(self).is_live(this) && !open_mode.spec_valid() ==> r.0 == Status::InvalidParameter
                && *final(self) == *old(self),
            old(self).is_live(this) && open_mode.spec_valid() && old(self).has_file(
                wide_name(filename@),
            ) ==> {
                &&& r.0 == Status::Success
                &&& r.1 == old(self).handle_count()
                &&& final(self).handle_count() == old(self).handle_count() + 1
                &&& final(self).is_open(r.1)
                &&& final(self).file_live(r.1)
                &&& final(self).pos_of(r.1) == 0
                &&& final(self).writable(r.1) == open_mode.spec_writable()
                &&& final(self).file_of(r.1) == old(self).contents_of(wide_name(filename@))
                &&& final(self).name_of_handle(r.1) == wide_name(filename@)
                &&& files_preserved(*old(self), *final(self))
                &&& handles_preserved_except(*old(self), *final(self), r.1)
            },
            old(self).is_live(this) && open_mode.spec_valid() && !old(self).has_file(
                wide_name(filename@),
            ) && open_mode.spec_create() ==> {
                &&& r.0 == Status::Success
                &&& r.1 == old(self).handle_count()
                &&& final(self).handle_count() == old(self).handle_count() + 1
                &&& final(self).is_open(r.1)
                &&& final(self).file_live(r.1)
                &&& final(self).pos_of(r.1) == 0
                &&& final(self).writable(r.1) == open_mode.spec_writable()
                &&& final(self).file_of(r.1) == Seq::<u8>::empty()
                &&& final(self).name_of_handle(r.1) == wide_name(filename@)
                &&& final(self).has_file(wide_name(filename@))
                &&& final(self).contents_of(wide_name(filename@)) == Seq::<u8>::empty()
                &&& files_preserved_except(*old(self), *final(self), wide_name(filename@))
                &&& handles_preserved_except(*old(self), *final(self), r.1)
            },
            old(self).is_live(this) && open_mode.spec_valid() && !old(self).has_file(
                wide_name(filename@),
            ) && !open_mode.spec_create() ==> r.0 == Status::NotFound && *final(self) == *old(self),
    {
        proof {
            use_type_invariant(&*self);
        }
        if this >= self.handles.len() {
            return (Status::DeviceError, 0);
        }
        let live = match self.handles[this] {
            HandleState::Dead => false,
            _ => true,
        };
        if !live {
            return (Status::DeviceError, 0);
        }
        if !open_mode.is_valid() {
            return (Status::InvalidParameter, 0);
        }
        let name = crate::encode::wide_name_units(filename);
        let id = self.handles.len();
        match self.find_file(&name) {
            Some(idx) => {
                proof {
                    old(self).lemma_file_lookup(idx as int);
                }
                let mut hs: Vec<HandleState> = Vec::new();
                core::mem::swap(&mut hs, &mut self.handles);
                hs.push(HandleState::Open { file: idx, pos: 0, writable: open_mode.is_writable() });
                self.handles = hs;
                proof {
                    Self::lemma_files_frame(*old(self), *self);
                    Self::lemma_handles_frame(*old(self), *self, id);
                }
                (Status::Success, id)
            },
            None => {
                if open_mode.has_create() {
                    let idx = self.files.len();
                    proof {
                        assert forall|i: int|
                            0 <= i < self.files@.len() implies !((
                        #[trigger] self.files@[i]).present && self.files@[i].name@ == name@) by {
                            if self.files@[i].present && self.files@[i].name@ == name@ {
                                assert(old(self).has_file(name@));
                            }
                        }
                    }
                    let mut hs: Vec<HandleState> = Vec::new();
                    core::mem::swap(&mut hs, &mut self.handles);
                    let mut fl: Vec<RamFile> = Vec::new();
                    core::mem::swap(&mut fl, &mut self.files);
                    fl.push(RamFile { name, data: Vec::new(), present: true });
                    hs.push(
                        HandleState::Open { file: idx, pos: 0, writable: open_mode.is_writable() },
                    );
                    self.files = fl;
                    self.handles = hs;
                    proof {
                        use_type_invariant(&*self);
                        self.lemma_file_lookup(idx as int);
                        assert(self.files@[idx as int].data@ =~= Seq::<u8>::empty());
                        Self::lemma_files_frame_push(*old(self), *self, wide_name(filename@));
                        Self::lemma_handles_frame(*old(self), *self, id);
                    }
                    (Status::Success, id)
                } else {
                    (Status::NotFound, 0)
                }
            },
        }
    }

    /// Closing a live handle spends it and reports success; files and other
    /// handles are untouched.  A spent handle reports a device error.
    fn close(&mut self, this: usize) -> (r: Status)
        ensures
            old(self).is_live(this) ==> r == Status::Success,
            !old(self).is_live(this) ==> r == Status::DeviceError && *final(self) == *old(self),
            !final(self).is_live(this),
            final(self).handle_count() == old(self).handle_count(),
            handles_preserved_except(*old(self), *final(self), this),
            files_preserved(*old(self), *final(self)),
    {
        proof {
            use_type_invariant(&*self);
        }
        if this >= self.handles.len() {
            proof {
                Self::lemma_files_frame(*old(self), *self);
                Self::lemma_handles_frame(*old(self), *self, this);
            }
            return Status::DeviceError;
        }
        let st = self.handles[this];
        match st {
            HandleState::Dead => {
                proof {
                    Self::lemma_files_frame(*old(self), *self);
                    Self::lemma_handles_frame(*old(self), *self, this);
                }
                Status::DeviceError
            },
            _ => {
                let mut hs: Vec<HandleState> = Vec::new();
                core::mem::swap(&mut hs, &mut self.handles);
                hs.set(this, HandleState::Dead);
                self.handles = hs;
                proof {
                    Self::lemma_files_frame(*old(self), *self);
                    Self::lemma_handles_frame(*old(self), *self, this);
                }
                Status::Success
            },
        }
    }

    /// Deleting through an open handle spends the handle and removes its
    /// file from the volume.  When the file is already gone, or the handle
    /// is the root directory, the handle is still spent but the failure of
    /// the deletion itself is reported as the `WarnDeleteFailure` warning.
    /// Either way the handle is unusable afterward.
    fn delete(&mut self, this: usize) -> (r: Status)
        ensures
            !old(self).is_live(this) ==> r == Status::DeviceError && *final(self) == *old(self),
            old(self).is_open(this) && old(self).file_live(this) ==> r == Status::Success && !final(self).has_file(old(self).name_of_handle(this)) && files_preserved_except(
                *old(self),
                *final(self),
                old(self).name_of_handle(this),
            ),
            old(self).is_open(this) && !old(self).file_live(this) ==> r
                == Status::WarnDeleteFailure && files_preserved(*old(self), *final(self)),
            old(self).is_root(this) ==> r == Status::WarnDeleteFailure && files_preserved(
                *old(self),
                *final(self),
            ),
            !final(self).is_live(this),
            final(self).handle_count() == old(self).handle_count(),
            forall|h: usize|
                h != this ==> #[trigger] handle_shape_preserved(*old(self), *final(self), h) && (
                old(self).is_open(h) ==> final(self).file_of(h) == old(self).file_of(h) && final(self).file_live(h) == (old(self).file_live(h) && !old(self).shares_file(h, this))),
    {
        proof {
            use_type_invariant(&*self);
        }
        if this >= self.handles.len() {
            return Status::DeviceError;
        }
        let st = self.handles[this];
        match st {
            HandleState::Dead => Status::DeviceError,
            HandleState::Root => {
                let mut hs: Vec<HandleState> = Vec::new();
                core::mem::swap(&mut hs, &mut self.handles);
                hs.set(this, HandleState::Dead);
                self.handles = hs;
                proof {
                    Self::lemma_files_frame(*old(self), *self);
                }
                Status::WarnDeleteFailure
            },
            HandleState::Open { file, pos: _, writable: _ } => {
                if self.files[file].present {
                    proof {
                        old(self).lemma_file_lookup(file as int);
                    }
                    let name = copy_vec(&self.files[file].name);
                    let data = copy_vec(&self.files[file].data);
                    let mut hs: Vec<HandleState> = Vec::new();
                    core::mem::swap(&mut hs, &mut self.handles);
                    hs.set(this, HandleState::Dead);
                    let mut fl: Vec<RamFile> = Vec::new();
                    core::mem::swap(&mut fl, &mut self.files);
                    fl.set(file, RamFile { name, data, present: false });
                    self.files = fl;
                    self.handles = hs;
                    proof {
                        Self::lemma_files_frame_set(*old(self), *self, file as int);
                        assert forall|j: int|
                            0 <= j < self.files@.len() implies !((
                        #[trigger] self.files@[j]).present && self.files@[j].name@ == old(self).name_of_handle(this)) by {
                            if j != file && self.files@[j].present && self.files@[j].name@ == old(self).name_of_handle(this) {
                                assert(old(self).files@[j].present);
                            }
                        }
                    }
                    Status::Success
                } else {
                    let mut hs: Vec<HandleState> = Vec::new();
                    core::mem::swap(&mut hs, &mut self.handles);
                    hs.set(this, HandleState::Dead);
                    self.handles = hs;
                    proof {
                        Self::lemma_files_frame(*old(self), *self);
                    }
                    Status::WarnDeleteFailure
                }
            },
        }
    }

    /// Reading through an open handle on a present file always succeeds: it
    /// delivers the file's bytes from the current position on, as many as
    /// the buffer holds, zero at or past the end of the file, and advances
    /// the position by the count delivered.  Any other handle reports a
    /// device error and delivers nothing.
    fn read(&mut self, this: usize, buffer: &mut Vec<u8>) -> (r: (Status, usize))
        ensures
            !(old(self).is_open(this) && old(self).file_live(this)) ==> r.0 == Status::DeviceError
                && r.1 == 0 && *final(self) == *old(self) && final(buffer)@ == old(buffer)@,
            old(self).is_open(this) && old(self).file_live(this) ==> {
                &&& r.0 == Status::Success
                &&& r.1 == read_count(
                    old(self).file_of(this),
                    old(self).pos_of(this) as int,
                    old(buffer)@.len() as int,
                )
                &&& final(buffer)@.subrange(0, r.1 as int) == read_bytes(
                    old(self).file_of(this),
                    old(self).pos_of(this) as int,
                    old(buffer)@.len() as int,
                )
                &&& final(self).is_open(this) && final(self).file_live(this)
                &&& final(self).pos_of(this) == old(self).pos_of(this) + r.1
                &&& final(self).writable(this) == old(self).writable(this)
                &&& final(self).file_of(this) == old(self).file_of(this)
                &&& final(self).name_of_handle(this) == old(self).name_of_handle(this)
                &&& final(self).handle_count() == old(self).handle_count()
                &&& handles_preserved_except(*old(self), *final(self), this)
                &&& files_preserved(*old(self), *final(self))
            },
    {
        proof {
            use_type_invariant(&*self);
        }
        if this >= self.handles.len() {
            return (Status::DeviceError, 0);
        }
        let st = self.handles[this];
        match st {
            HandleState::Open { file, pos, writable } => {
                if !self.files[file].present {
                    return (Status::DeviceError, 0);
                }
                let data_len = self.files[file].data.len();
                let p = pos as usize;
                let cap = buffer.len();
                let n = if p >= data_len {
                    0
                } else if data_len - p < cap {
                    data_len - p
                } else {
                    cap
                };
                let mut j: usize = 0;
                while j < n
                    invariant
                        j <= n,
                        *self == *old(self),
                        this < self.handles@.len(),
                        self.handles@[this as int] == (HandleState::Open { file, pos, writable }),
                        (file as int) < self.files@.len(),
                        data_len == self.files@[file as int].data@.len(),
                        p == pos as nat,
                        p <= data_len,
                        p + n <= data_len || n == 0,
                        cap == old(buffer)@.len(),
                        n <= cap,
                        buffer@.len() == old(buffer)@.len(),
                        forall|k: int|
                            0 <= k < j ==> buffer@[k] == self.files@[file as int].data@[p + k],
                        forall|k: int| j <= k < buffer@.len() ==> buffer@[k] == old(buffer)@[k],
                    decreases n - j,
                {
                    let b = self.files[file].data[p + j];
                    buffer.set(j, b);
                    j = j + 1;
                }
                let new_pos = pos + (n as u64);
                let mut hs: Vec<HandleState> = Vec::new();
                core::mem::swap(&mut hs, &mut self.handles);
                hs.set(this, HandleState::Open { file, pos: new_pos, writable });
                self.handles = hs;
                proof {
                    Self::lemma_files_frame(*old(self), *self);
                    Self::lemma_handles_frame(*old(self), *self, this);
                    assert(buffer@.subrange(0, n as int) =~= read_bytes(
                        old(self).file_of(this),
                        old(self).pos_of(this) as int,
                        old(buffer)@.len() as int,
                    ));
                }
                (Status::Success, n)
            },
            _ => (Status::DeviceError, 0),
        }
    }

    /// Writing through an open, writable handle on a present file takes
    /// every byte: it lays the buffer over the file's bytes at the current
    /// position, growing the file when the written range ends past its end,
    /// and advances the position over what was written.  A read-only handle
    /// is denied access, as is the root directory; a spent handle or a gone
    /// file reports a device error; and a write whose end would not fit the
    /// position type reports a full volume.
    fn write(&mut self, this: usize, buffer: &[u8]) -> (r: (Status, usize))
        ensures
            !old(self).is_live(this) ==> r.0 == Status::DeviceError && r.1 == 0 && *final(self)
                == *old(self),
            old(self).is_root(this) ==> r.0 == Status::AccessDenied && r.1 == 0 && *final(self)
                == *old(self),
            old(self).is_open(this) && !old(self).file_live(this) ==> r.0 == Status::DeviceError
                && r.1 == 0 && *final(self) == *old(self),
            old(self).is_open(this) && old(self).file_live(this) && !old(self).writable(this)
                ==> r.0 == Status::AccessDenied && r.1 == 0 && *final(self) == *old(self),
            old(self).is_open(this) && old(self).file_live(this) && old(self).writable(this) && old(self).pos_of(this) + buffer@.len() > u64::MAX ==> r.0 == Status::VolumeFull && r.1 == 0
                && *final(self) == *old(self),
            old(self).is_open(this) && old(self).file_live(this) && old(self).writable(this) && old(self).pos_of(this) + buffer@.len() <= u64::MAX ==> {
                &&& r.0 == Status::Success
                &&& r.1 == buffer@.len()
                &&& final(self).is_open(this) && final(self).file_live(this)
                &&& final(self).writable(this)
                &&& final(self).file_of(this) == write_bytes(
                    old(self).file_of(this),
                    old(self).pos_of(this) as int,
                    buffer@,
                )
                &&& final(self).pos_of(this) == old(self).pos_of(this) + buffer@.len()
                &&& final(self).name_of_handle(this) == old(self).name_of_handle(this)
                &&& final(self).handle_count() == old(self).handle_count()
                &&& final(self).has_file(old(self).name_of_handle(this))
                &&& final(self).contents_of(old(self).name_of_handle(this)) == final(self).file_of(
                    this,
                )
                &&& files_preserved_except(
                    *old(self),
                    *final(self),
                    old(self).name_of_handle(this),
                )
                &&& forall|h: usize|
                    h != this ==> #[trigger] handle_shape_preserved(*old(self), *final(self), h)
                        && (old(self).is_open(h) ==> final(self).file_live(h) == old(self).file_live(h)) && (old(self).is_open(h) && old(self).shares_file(h, this)
                        ==> final(self).file_of(h) == final(self).file_of(this)) && (old(self).is_open(h) && !old(self).shares_file(h, this) ==> final(self).file_of(h)
                        == old(self).file_of(h))
            },
    {
        proof {
            use_type_invariant(&*self);
        }
        if this >= self.handles.len() {
            return (Status::DeviceError, 0);
        }
        let st = self.handles[this];
        match st {
            HandleState::Root => (Status::AccessDenied, 0),
            HandleState::Dead => (Status::DeviceError, 0),
            HandleState::Open { file, pos, writable } => {
                if !self.files[file].present {
                    return (Status::DeviceError, 0);
                }
                if !writable {
                    return (Status::AccessDenied, 0);
                }
                let count = buffer.len();
                if (count as u64) > u64::MAX - pos {
                    return (Status::VolumeFull, 0);
                }
                proof {
                    old(self).lemma_file_lookup(file as int);
                }
                let name = copy_vec(&self.files[file].name);
                let mut data = copy_vec(&self.files[file].data);
                let flen = self.files[file].data.len();
                proof {
                    assert(self.handles@[this as int] == (HandleState::Open {
                        file,
                        pos,
                        writable,
                    }));
                    assert(pos as nat <= flen as nat);
                }
                let p = pos as usize;
                let ghost old_data = self.files@[file as int].data@;
                let mut j: usize = 0;
                while j < count
                    invariant
                        j <= count,
                        count == buffer@.len(),
                        p == pos as nat,
                        p <= old_data.len(),
                        p + count <= u64::MAX,
                        data@ == write_bytes(old_data, p as int, buffer@.take(j as int)),
                    decreases count - j,
                {
                    let b = *vstd::slice::slice_index_get(buffer, j);
                    let dlen = data.len();
                    proof {
                        assert(data@.len() == if p + j > old_data.len() {
                            (p + j) as int
                        } else {
                            old_data.len() as int
                        });
                        assert(p + j <= dlen);
                    }
                    let off = p + j;
                    if off < dlen {
                        data.set(off, b);
                    } else {
                        data.push(b);
                    }
                    j = j + 1;
                    proof {
                        assert(data@ =~= write_bytes(old_data, p as int, buffer@.take(j as int)));
                    }
                }
                proof {
                    assert(buffer@.take(count as int) =~= buffer@);
                    assert(data@.len() >= old_data.len());
                }
                let mut hs: Vec<HandleState> = Vec::new();
                core::mem::swap(&mut hs, &mut self.handles);
                let new_pos = pos + (count as u64);
                hs.set(this, HandleState::Open { file, pos: new_pos, writable });
                let mut fl: Vec<RamFile> = Vec::new();
                core::mem::swap(&mut fl, &mut self.files);
                fl.set(file, RamFile { name, data, present: true });
                self.files = fl;
                self.handles = hs;
                proof {
                    use_type_invariant(&*self);
                    self.lemma_file_lookup(file as int);
                    Self::lemma_files_frame_set(*old(self), *self, file as int);
                    assert forall|h: usize|
                        h != this implies #[trigger] handle_shape_preserved(
                        *old(self),
                        *self,
                        h,
                    ) && (old(self).is_open(h) ==> self.file_live(h) == old(self).file_live(h)) && (
                    old(self).is_open(h) && old(self).shares_file(h, this) ==> self.file_of(h)
                        == self.file_of(this)) && (old(self).is_open(h) && !old(self).shares_file(
                        h,
                        this,
                    ) ==> self.file_of(h) == old(self).file_of(h)) by {
                        if (h as int) < old(self).handles@.len() {
                            assert(self.handles@[h as int] == old(self).handles@[h as int]);
                        }
                    }
                }
                (Status::Success, count)
            },
        }
    }

    /// The position of an open handle on a present file is reported as it
    /// stands; the root directory does not support the request, and a spent
    /// handle or a gone file reports a device error.  Nothing changes.
    fn get_position(&mut self, this: usize) -> (r: (Status, u64))
        ensures
            *final(self) == *old(self),
            old(self).is_open(this) && old(self).file_live(this) ==> r.0 == Status::Success && r.1
                == old(self).pos_of(this),
            old(self).is_open(this) && !old(self).file_live(this) ==> r.0 == Status::DeviceError
                && r.1 == 0,
            old(self).is_root(this) ==> r.0 == Status::Unsupported && r.1 == 0,
            !old(self).is_live(this) ==> r.0 == Status::DeviceError && r.1 == 0,
    {
        proof {
            use_type_invariant(&*self);
        }
        if this >= self.handles.len() {
            return (Status::DeviceError, 0);
        }
        let st = self.handles[this];
        match st {
            HandleState::Open { file, pos, writable: _ } => {
                if self.files[file].present {
                    (Status::Success, pos)
                } else {
                    (Status::DeviceError, 0)
                }
            },
            HandleState::Root => (Status::Unsupported, 0),
            HandleState::Dead => (Status::DeviceError, 0),
        }
    }

    /// Moving an open handle on a present file succeeds exactly when the
    /// offset is the end sentinel, which lands on the file's end, or lies
    /// within the file; any other offset is rejected as invalid.  On the
    /// root directory only offset zero is accepted; a spent handle or a
    /// gone file reports a device error.
    fn set_position(&mut self, this: usize, position: u64) -> (r: Status)
        ensures
            final(self).handle_count() == old(self).handle_count(),
            handles_preserved_except(*old(self), *final(self), this),
            files_preserved(*old(self), *final(self)),
            !old(self).is_live(this) ==> r == Status::DeviceError && *final(self) == *old(self),
            old(self).is_root(this) ==> *final(self) == *old(self) && r == (if position == 0 {
                Status::Success
            } else {
                Status::Unsupported
            }),
            old(self).is_open(this) && !old(self).file_live(this) ==> r == Status::DeviceError
                && *final(self) == *old(self),
            old(self).is_open(this) && old(self).file_live(this) ==> {
                &&& (position == POSITION_END || position <= old(self).file_of(this).len()) <==> r
                    == Status::Success
                &&& r == Status::Success ==> final(self).pos_of(this) == crate::fileops::seek_pos(
                    old(self).file_of(this).len(),
                    position,
                )
                &&& r != Status::Success ==> r == Status::InvalidParameter && *final(self) == *old(self)
                &&& final(self).is_open(this) && final(self).file_live(this)
                &&& final(self).writable(this) == old(self).writable(this)
                &&& final(self).file_of(this) == old(self).file_of(this)
                &&& final(self).name_of_handle(this) == old(self).name_of_handle(this)
            },
    {
        proof {
            use_type_invariant(&*self);
        }
        if this >= self.handles.len() {
            proof {
                Self::lemma_files_frame(*old(self), *self);
                Self::lemma_handles_frame(*old(self), *self, this);
            }
            return Status::DeviceError;
        }
        let st = self.handles[this];
        let r = match st {
            HandleState::Dead => Status::DeviceError,
            HandleState::Root => {
                if position == 0 {
                    Status::Success
                } else {
                    Status::Unsupported
                }
            },
            HandleState::Open { file, pos: _, writable } => {
                if !self.files[file].present {
                    Status::DeviceError
                } else {
                    let len = self.files[file].data.len();
                    if position == POSITION_END {
                        let mut hs: Vec<HandleState> = Vec::new();
                        core::mem::swap(&mut hs, &mut self.handles);
                        hs.set(this, HandleState::Open { file, pos: len as u64, writable });
                        self.handles = hs;
                        Status::Success
                    } else if position <= len as u64 {
                        let mut hs: Vec<HandleState> = Vec::new();
                        core::mem::swap(&mut hs, &mut self.handles);
                        hs.set(this, HandleState::Open { file, pos: position, writable });
                        self.handles = hs;
                        Status::Success
                    } else {
                        Status::InvalidParameter
                    }
                }
            },
        };
        proof {
            Self::lemma_files_frame(*old(self), *self);
            Self::lemma_handles_frame(*old(self), *self, this);
        }
        r
    }

    /// An in-memory volume has nothing buffered: flushing a live handle
    /// succeeds and changes nothing; a spent handle reports a device error.
    fn flush(&mut self, this: usize) -> (r: Status)
        ensures
            *final(self) == *old(self),
            old(self).is_live(this) ==> r == Status::Success,
            !old(self).is_live(this) ==> r == Status::DeviceError,
    {
        proof {
            use_type_invariant(&*self);
        }
        if this >= self.handles.len() {
            return Status::DeviceError;
        }
        let st = self.handles[this];
        match st {
            HandleState::Dead => Status::DeviceError,
            _ => Status::Success,
        }
    }
}

} // verus!
