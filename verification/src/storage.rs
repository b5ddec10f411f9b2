//! One-time storage bring-up: non-volatile-state initialization with a single
//! erase-and-retry recovery, the wear-leveled mount with its fixed parameters,
//! and the post-mount self-test.
//!
//! The flash driver itself lives outside this crate; the caller performs each
//! driver call and feeds the outcome back into [`StorageMount`], which decides
//! the next step. [`FatVolume`] is the model of the mounted volume that the
//! self-test logic is verified against.
use vstd::prelude::*;
use vstd::slice::slice_to_vec;
use vstd::string::*;

use crate::Error;
use crate::render::bytes_eq;

verus! {

/// Outcome of one non-volatile-storage initialization attempt, as the driver
/// reports it.
#[derive(Clone, Copy, Debug, PartialEq, Eq, Structural)]
pub enum NvsInitResult {
    /// Initialization succeeded.
    Done,
    /// The region has no free pages and must be erased.
    NoFreePages,
    /// The region was written by a newer layout and must be erased.
    NewVersionFound,
    /// Any other driver error, with its raw code.
    Failed(i32),
}

/// What the caller must do next after reporting an initialization outcome.
#[derive(Clone, Copy, Debug, PartialEq, Eq, Structural)]
pub enum NvsAction {
    /// Initialization is done; go on to mounting.
    Proceed,
    /// Erase the region and run initialization once more.
    EraseAndRetry,
    /// Give up; the storage subsystem stays unmounted for the process
    /// lifetime.
    Abort,
}

/// The mount parameters, fixed for this board.
pub struct MountParams {
    pub max_files: u32,
    pub allocation_unit_size: u32,
    pub format_if_mount_failed: bool,
    pub disk_status_check_enable: bool,
    pub use_one_fat: bool,
}

/// The storage bring-up state machine. `mounted` is set at most once and never
/// transitions back to false; a failure after the single permitted erase
/// leaves the subsystem failed permanently.
pub struct StorageMount {
    nvs_ready: bool,
    erase_used: bool,
    mounted: bool,
    failed: bool,
}

impl StorageMount {
    /// Non-volatile-state initialization has succeeded.
    pub closed spec fn nvs_ready(&self) -> bool {
        self.nvs_ready
    }

    /// The one permitted erase-and-retry has been spent.
    pub closed spec fn erase_used(&self) -> bool {
        self.erase_used
    }

    /// The wear-leveled volume is mounted.
    pub closed spec fn mounted(&self) -> bool {
        self.mounted
    }

    /// Bring-up failed for good; `mounted` stays false for the process
    /// lifetime.
    pub closed spec fn failed(&self) -> bool {
        self.failed
    }

    pub closed spec fn wf(&self) -> bool {
        &&& !(self.mounted && self.failed)
        &&& self.mounted ==> self.nvs_ready
    }

    pub fn new() -> (r: StorageMount)
        ensures
            r.wf(),
            !r.nvs_ready(),
            !r.erase_used(),
            !r.mounted(),
            !r.failed(),
    {
        StorageMount { nvs_ready: false, erase_used: false, mounted: false, failed: false }
    }

    /// Decide on an initialization outcome: a recoverable failure is answered
    /// with one erase-and-retry, and only one; a second recoverable failure,
    /// or any other failure, aborts the subsystem.
    pub fn on_nvs_init(&mut self, result: NvsInitResult) -> (r: NvsAction)
        requires
            old(self).wf(),
            !old(self).nvs_ready(),
            !old(self).failed(),
        ensures
            final(self).wf(),
            !final(self).mounted(),
            final(self).nvs_ready() == (result == NvsInitResult::Done),
            result == NvsInitResult::Done ==> r == NvsAction::Proceed && final(self).nvs_ready()
                && !final(self).failed() && final(self).erase_used() == old(self).erase_used(),
            (result == NvsInitResult::NoFreePages || result == NvsInitResult::NewVersionFound)
                && !old(self).erase_used() ==> r == NvsAction::EraseAndRetry
                && !final(self).nvs_ready() && !final(self).failed() && final(self).erase_used(),
            (result == NvsInitResult::NoFreePages || result == NvsInitResult::NewVersionFound)
                && old(self).erase_used() ==> r == NvsAction::Abort && final(self).failed(),
            result matches NvsInitResult::Failed(_) ==> r == NvsAction::Abort
                && final(self).failed(),
    {
        match result {
            NvsInitResult::Done => {
                self.nvs_ready = true;
                NvsAction::Proceed
            },
            NvsInitResult::NoFreePages | NvsInitResult::NewVersionFound => {
                if self.erase_used {
                    self.failed = true;
                    NvsAction::Abort
                } else {
                    self.erase_used = true;
                    NvsAction::EraseAndRetry
                }
            },
            NvsInitResult::Failed(_) => {
                self.failed = true;
                NvsAction::Abort
            },
        }
    }

    /// Record the mount outcome. A failed mount is [`Error::MountFailure`]:
    /// final, with no retry, and the subsystem stays unmounted.
    pub fn on_mount_result(&mut self, success: bool) -> (r: Result<(), Error>)
        requires
            old(self).wf(),
            old(self).nvs_ready(),
            !old(self).mounted(),
            !old(self).failed(),
        ensures
            final(self).wf(),
            r is Ok <==> success,
            success ==> final(self).mounted() && !final(self).failed(),
            !success ==> r == Result::<(), Error>::Err(Error::MountFailure) && final(self).failed()
                && !final(self).mounted(),
    {
        if success {
            self.mounted = true;
            Ok(())
        } else {
            self.failed = true;
            Err(Error::MountFailure)
        }
    }

    /// The boolean "mounted" status, for diagnostics.
    pub fn is_mounted(&self) -> (r: bool)
        ensures
            r == self.mounted(),
    {
        self.mounted
    }

    pub fn has_failed(&self) -> (r: bool)
        ensures
            r == self.failed(),
    {
        self.failed
    }
}

/// The fixed parameters the wear-leveled volume is mounted with.
pub fn mount_params() -> (r: MountParams)
    ensures
        r.max_files == 5,
        r.allocation_unit_size == 4096,
        r.format_if_mount_failed,
        !r.disk_status_check_enable,
        !r.use_one_fat,
{
    MountParams {
        max_files: 5,
        allocation_unit_size: 4096,
        format_if_mount_failed: true,
        disk_status_check_enable: false,
        use_one_fat: false,
    }
}

/// Where the volume is mounted.
pub fn mount_point() -> (r: &'static str)
    ensures
        r@ == "/fat"@,
{
    "/fat"
}

/// The flash partition label the volume lives on.
pub fn partition_label() -> (r: &'static str)
    ensures
        r@ == "storage"@,
{
    "storage"
}

/// The path the self-test writes to.
pub fn self_test_path() -> (r: &'static str)
    ensures
        r@ == "/fat/hello.txt"@,
{
    "/fat/hello.txt"
}

/// The content the self-test writes.
pub fn self_test_payload() -> (r: &'static str)
    ensures
        r@ == "hello from rust on esp32!\n"@,
{
    "hello from rust on esp32!\n"
}

/// The self-test path, as bytes.
pub open spec fn self_test_path_bytes() -> Seq<u8> {
    ("/fat/hello.txt").spec_bytes()
}

/// The self-test content, as bytes.
pub open spec fn self_test_payload_bytes() -> Seq<u8> {
    ("hello from rust on esp32!\n").spec_bytes()
}

/// The model of the mounted volume: named byte files, last write winning.
pub struct FatVolume {
    entries: Vec<(Vec<u8>, Vec<u8>)>,
}

/// The data stored under `name`: the most recent write, if any.
pub open spec fn lookup(files: Seq<(Seq<u8>, Seq<u8>)>, name: Seq<u8>) -> Option<Seq<u8>>
    decreases files.len(),
{
    if files.len() == 0 {
        None
    } else if files.last().0 == name {
        Some(files.last().1)
    } else {
        lookup(files.drop_last(), name)
    }
}

impl FatVolume {
    /// The write history: (name, data) pairs, oldest first.
    pub closed spec fn files(&self) -> Seq<(Seq<u8>, Seq<u8>)> {
        Seq::new(self.entries@.len(), |i: int| (self.entries@[i].0@, self.entries@[i].1@))
    }

    /// An empty, freshly mounted volume.
    pub fn new() -> (r: FatVolume)
        ensures
            r.files() == Seq::<(Seq<u8>, Seq<u8>)>::empty(),
    {
        let v = FatVolume { entries: Vec::new() };
        proof {
            assert(v.files() =~= Seq::<(Seq<u8>, Seq<u8>)>::empty());
        }
        v
    }

    /// Write `data` under `name`, replacing whatever a later read would have
    /// seen there.
    pub fn write_file(&mut self, name: &[u8], data: &[u8])
        ensures
            final(self).files() == old(self).files().push((name@, data@)),
    {
        let n = slice_to_vec(name);
        let d = slice_to_vec(data);
        self.entries.push((n, d));
        proof {
            assert(self.files() =~= old(self).files().push((name@, data@)));
        }
    }

    /// Read the file under `name` back: exactly the most recent write.
    pub fn read_file(&self, name: &[u8]) -> (r: Option<&Vec<u8>>)
        ensures
            match r {
                Some(d) => lookup(self.files(), name@) == Some(d@),
                None => lookup(self.files(), name@) is None,
            },
    {
        let ghost fs = self.files();
        let mut i: usize = self.entries.len();
        proof {
            assert(fs.take(fs.len() as int) =~= fs);
        }
        while i > 0
            invariant
                i <= fs.len(),
                fs == self.files(),
                lookup(fs, name@) == lookup(fs.take(i as int), name@),
            decreases i,
        {
            let j = i - 1;
            proof {
                assert(fs.take(j + 1).last() == fs[j as int]);
                assert(fs.take(j + 1).drop_last() =~= fs.take(j as int));
            }
            let e = &self.entries[j];
            if bytes_eq(e.0.as_slice(), name) {
                return Some(&e.1);
            }
            i = j;
        }
        proof {
            assert(fs.take(0) =~= Seq::<(Seq<u8>, Seq<u8>)>::empty());
        }
        None
    }

    /// The mount self-test: write the known content to the known path and
    /// read it back. On this model the read always returns byte-identical
    /// content, so the self-test always passes.
    pub fn run_self_test(&mut self) -> (ok: bool)
        ensures
            ok,
            final(self).files() == old(self).files().push(
                (self_test_path_bytes(), self_test_payload_bytes()),
            ),
    {
        let path = self_test_path();
        let payload = self_test_payload();
        self.write_file(path.as_bytes(), payload.as_bytes());
        proof {
            lemma_lookup_after_write(old(self).files(), path.spec_bytes(), payload.spec_bytes());
        }
        let back = self.read_file(path.as_bytes());
        match back {
            Some(d) => bytes_eq(d.as_slice(), payload.as_bytes()),
            None => {
                proof {
                    assert(false);
                }
                false
            },
        }
    }
}

/// Law: reading a name right after writing it returns exactly the written
/// data, and writes under one name leave every other name's content alone.
pub proof fn lemma_lookup_after_write(
    files: Seq<(Seq<u8>, Seq<u8>)>,
    name: Seq<u8>,
    data: Seq<u8>,
)
    ensures
        lookup(files.push((name, data)), name) == Some(data),
        forall|other: Seq<u8>|
            other != name ==> lookup(files.push((name, data)), other) == lookup(files, other),
{
    assert(files.push((name, data)).last() == (name, data));
    assert(files.push((name, data)).drop_last() =~= files);
}

} // verus!
