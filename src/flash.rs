//! The write destination of a firmware image.
use vstd::prelude::*;

verus! {

/// Why a flash target refused an operation.
#[derive(Clone, Copy, Debug, PartialEq, Eq, Structural)]
pub enum FlashError {
    /// No inactive update partition exists.
    NoPartitionAvailable,
    /// The storage layer rejected the size or the erase.
    BeginFailed,
    /// Writing bytes failed.
    WriteFailed,
    /// Finalising the image failed.
    CommitFailed,
}

/// A destination for one firmware image, written sequentially.
///
/// `open` prepares room for `size` bytes, `write` appends bytes, `commit`
/// finalises the image and marks it bootable, `abort` abandons it. The model
/// of a target is the image written since it was opened, whether that image
/// is committed or aborted, and whether the target never fails. The model's
/// defaults claim no success and an empty image; a target verified against
/// these contracts defines its own model.
pub trait FlashTarget {
    /// Every later operation on this target succeeds.
    open spec fn infallible(&self) -> bool {
        false
    }

    /// The bytes written since the target was last opened.
    open spec fn image(&self) -> Seq<u8> {
        Seq::empty()
    }

    /// The image has been finalised and marked bootable.
    open spec fn committed(&self) -> bool {
        false
    }

    /// The image has been abandoned.
    open spec fn aborted(&self) -> bool {
        false
    }

    /// The size the target was last opened for.
    open spec fn requested_size(&self) -> nat {
        0
    }

    /// Every byte ever handed to `write`, whether or not the write succeeded.
    open spec fn attempted(&self) -> Seq<u8> {
        Seq::empty()
    }

    fn open(&mut self, size: u64) -> (r: Result<(), FlashError>)
        ensures
            old(self).infallible() ==> r is Ok && final(self).infallible(),
            r is Ok ==> final(self).image() == Seq::<u8>::empty() && !final(self).committed()
                && !final(self).aborted(),
            r is Err ==> !final(self).committed(),
            final(self).requested_size() == size,
            final(self).attempted() == old(self).attempted(),
    ;

    fn write(&mut self, bytes: &[u8]) -> (r: Result<(), FlashError>)
        ensures
            old(self).infallible() ==> r is Ok && final(self).infallible(),
            r is Ok ==> final(self).image() == old(self).image() + bytes@ && final(self).committed()
                == old(self).committed() && final(self).aborted() == old(self).aborted(),
            final(self).attempted() == old(self).attempted() + bytes@,
    ;

    fn commit(&mut self) -> (r: Result<(), FlashError>)
        ensures
            old(self).infallible() ==> r is Ok && final(self).infallible(),
            final(self).image() == old(self).image(),
            r is Ok ==> final(self).committed() && final(self).aborted() == old(self).aborted(),
            r is Err ==> !final(self).committed(),
            final(self).attempted() == old(self).attempted(),
    ;

    fn abort(&mut self)
        ensures
            old(self).infallible() ==> final(self).infallible(),
            final(self).image() == old(self).image(),
            final(self).aborted(),
            !final(self).committed(),
            final(self).attempted() == old(self).attempted(),
    ;
}

/// A target that accepts every operation without touching storage.
pub struct SimulatedFlash {
    written: u64,
    committed: bool,
    aborted: bool,
    image: Ghost<Seq<u8>>,
    requested: Ghost<nat>,
    attempted: Ghost<Seq<u8>>,
}

impl SimulatedFlash {
    pub fn new() -> (r: SimulatedFlash)
        ensures
            r.infallible(),
            r.image() == Seq::<u8>::empty(),
            !r.committed(),
            !r.aborted(),
    {
        SimulatedFlash {
            written: 0,
            committed: false,
            aborted: false,
            image: Ghost(Seq::empty()),
            requested: Ghost(0),
            attempted: Ghost(Seq::empty()),
        }
    }

    /// Bytes written since the target was opened, saturating at `u64::MAX`.
    pub fn written(&self) -> (r: u64)
        requires
            self.infallible(),
        ensures
            r == if self.image().len() <= u64::MAX { self.image().len() } else { u64::MAX as nat },
    {
        self.written
    }

    pub fn is_committed(&self) -> (r: bool)
        ensures
            r == self.committed(),
    {
        self.committed
    }

    pub fn is_aborted(&self) -> (r: bool)
        ensures
            r == self.aborted(),
    {
        self.aborted
    }
}

impl FlashTarget for SimulatedFlash {
    /// Every operation of a simulated target succeeds; its byte counter
    /// follows the image it models.
    closed spec fn infallible(&self) -> bool {
        self.written == if self.image@.len() <= u64::MAX {
            self.image@.len()
        } else {
            u64::MAX as nat
        }
    }

    closed spec fn image(&self) -> Seq<u8> {
        self.image@
    }

    closed spec fn committed(&self) -> bool {
        self.committed
    }

    closed spec fn aborted(&self) -> bool {
        self.aborted
    }

    closed spec fn requested_size(&self) -> nat {
        self.requested@
    }

    closed spec fn attempted(&self) -> Seq<u8> {
        self.attempted@
    }

    fn open(&mut self, size: u64) -> (r: Result<(), FlashError>) {
        self.written = 0;
        self.committed = false;
        self.aborted = false;
        self.image = Ghost(Seq::empty());
        self.requested = Ghost(size as nat);
        Ok(())
    }

    fn write(&mut self, bytes: &[u8]) -> (r: Result<(), FlashError>) {
        let n = bytes.len() as u64;
        self.written = if self.written > u64::MAX - n { u64::MAX } else { self.written + n };
        self.image = Ghost(self.image@ + bytes@);
        self.attempted = Ghost(self.attempted@ + bytes@);
        Ok(())
    }

    fn commit(&mut self) -> (r: Result<(), FlashError>) {
        self.committed = true;
        Ok(())
    }

    fn abort(&mut self) {
        self.committed = false;
        self.aborted = true;
    }
}

} // verus!
