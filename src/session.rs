//! The update session: one download attempt from metadata to a terminal state.
use vstd::prelude::*;
use crate::flash::FlashTarget;
use crate::message::{FwState, Message};
use crate::metadata::UpdateMetadata;

verus! {

/// Bytes asked for in one chunk request.
pub const CHUNK_SIZE: u64 = 1024;

/// The request slot embedded in chunk-request topics.
pub const REQUEST_ID: u64 = 1;

#[derive(Clone, Copy, Debug, PartialEq, Eq, Structural)]
pub enum SessionState {
    Idle,
    Downloading,
    Succeeded,
    Failed,
}

/// The mathematical model of a session.
pub struct SessionModel {
    pub state: SessionState,
    pub total_size: nat,
    pub received: nat,
}

impl SessionModel {
    pub open spec fn wf(self) -> bool {
        &&& self.received <= self.total_size
        &&& self.total_size <= u64::MAX
        &&& self.state == SessionState::Downloading ==> self.total_size > 0
    }

    pub open spec fn remaining(self) -> nat {
        (self.total_size - self.received) as nat
    }
}

/// Whole percent of `total` that `received` bytes make, rounded down.
pub open spec fn percent(total: nat, received: nat) -> nat {
    if total == 0 { 0 } else { (received * 100 / total) as nat }
}

pub open spec fn min_nat(a: nat, b: nat) -> nat {
    if a <= b { a } else { b }
}

/// The request for the chunk that follows the bytes received so far, if any
/// bytes remain.
pub open spec fn next_request(s: SessionModel) -> Option<Message> {
    if s.remaining() == 0 {
        None
    } else {
        Some(
            Message::ChunkRequest {
                request_id: REQUEST_ID,
                chunk: (s.received / (CHUNK_SIZE as nat)) as u64,
                size: min_nat(s.remaining(), CHUNK_SIZE as nat) as u64,
            },
        )
    }
}

/// Whether an attempt for `total_size` bytes opens the flash target: not while
/// another download runs, and never for an empty image.
pub open spec fn opens_target(s: SessionModel, total_size: nat) -> bool {
    s.state != SessionState::Downloading && total_size > 0
}

/// The session and reports after an attempt for `total_size` bytes, given
/// whether the flash target opened.
pub open spec fn start_step(s: SessionModel, total_size: nat, open_ok: bool) -> (
    SessionModel,
    Seq<Message>,
) {
    if s.state == SessionState::Downloading {
        (s, seq![])
    } else if total_size == 0 || !open_ok {
        (
            SessionModel { state: SessionState::Failed, total_size, received: 0 },
            seq![Message::State(FwState::Failed)],
        )
    } else {
        let n = SessionModel { state: SessionState::Downloading, total_size, received: 0 };
        (n, seq![Message::State(FwState::Downloading), next_request(n).unwrap()])
    }
}

/// How many bytes of a chunk of `len` bytes the session takes.
pub open spec fn accepted(s: SessionModel, len: nat) -> nat {
    if s.state == SessionState::Downloading {
        min_nat(len, s.remaining())
    } else {
        0
    }
}

/// The session and reports after `n` accepted bytes, given whether the write
/// succeeded and, when the image completes, whether the commit succeeded.
pub open spec fn chunk_step(s: SessionModel, n: nat, write_ok: bool, commit_ok: bool) -> (
    SessionModel,
    Seq<Message>,
) {
    if !write_ok {
        (SessionModel { state: SessionState::Failed, ..s }, seq![Message::State(FwState::Failed)])
    } else {
        let r = s.received + n;
        let p = percent(s.total_size, r);
        if r >= s.total_size {
            if commit_ok {
                (
                    SessionModel { state: SessionState::Succeeded, received: r, ..s },
                    seq![Message::Progress(p as u64), Message::State(FwState::Success)],
                )
            } else {
                (
                    SessionModel { state: SessionState::Failed, received: r, ..s },
                    seq![Message::State(FwState::Failed)],
                )
            }
        } else {
            let t = SessionModel { received: r, ..s };
            (t, seq![Message::Progress(p as u64), next_request(t).unwrap()])
        }
    }
}

/// Whether a session discards any chunk that arrives: outside a download, or
/// once every byte has arrived.
pub open spec fn discards(s: SessionModel) -> bool {
    s.state != SessionState::Downloading || s.remaining() == 0
}

/// The session and reports after a chunk of `len` bytes arrives. An empty
/// chunk during a download writes nothing and so cannot fail: it reports the
/// unchanged progress and asks for the same chunk again.
pub open spec fn on_chunk_step(s: SessionModel, len: nat, write_ok: bool, commit_ok: bool) -> (
    SessionModel,
    Seq<Message>,
) {
    if discards(s) {
        (s, seq![])
    } else if len == 0 {
        chunk_step(s, 0, true, commit_ok)
    } else {
        chunk_step(s, accepted(s, len), write_ok, commit_ok)
    }
}

/// What a start leaves on the flash target: untouched unless it opens it,
/// and then asked for exactly `total_size` bytes; an image opened afresh for a
/// download that begins; nothing committed when the open fails.
pub open spec fn start_flash<F: FlashTarget>(
    s: SessionModel,
    total_size: nat,
    t: SessionModel,
    before: F,
    after: F,
) -> bool {
    &&& !opens_target(s, total_size) ==> after == before
    &&& opens_target(s, total_size) ==> after.requested_size() == total_size
    &&& opens_target(s, total_size) && t.state == SessionState::Downloading ==> {
        &&& after.image() == Seq::<u8>::empty()
        &&& !after.committed()
        &&& !after.aborted()
    }
    &&& opens_target(s, total_size) && t.state == SessionState::Failed ==> !after.committed()
}

/// What taking `n` accepted bytes of `bytes` leaves on the flash target: on a
/// good write the image grows by exactly those bytes; a completed download is
/// committed; a failed one is aborted and not committed; otherwise the commit
/// and abort marks stay.
pub open spec fn chunk_flash<F: FlashTarget>(
    n: nat,
    bytes: Seq<u8>,
    write_ok: bool,
    t: SessionModel,
    before: F,
    after: F,
) -> bool {
    &&& write_ok ==> after.image() == before.image() + bytes.subrange(0, n as int)
    &&& t.state == SessionState::Succeeded ==> after.committed()
    &&& t.state == SessionState::Failed ==> after.aborted() && !after.committed()
    &&& t.state == SessionState::Downloading ==> after.committed() == before.committed()
        && after.aborted() == before.aborted()
}

/// State and counters of one update attempt.
pub struct UpdateSession {
    state: SessionState,
    total_size: u64,
    received_bytes: u64,
}

impl View for UpdateSession {
    type V = SessionModel;

    closed spec fn view(&self) -> SessionModel {
        SessionModel {
            state: self.state,
            total_size: self.total_size as nat,
            received: self.received_bytes as nat,
        }
    }
}

impl UpdateSession {
    pub open spec fn wf(&self) -> bool {
        self@.wf()
    }

    pub open spec fn new_spec() -> SessionModel {
        SessionModel { state: SessionState::Idle, total_size: 0, received: 0 }
    }

    /// A session with no attempt in progress.
    pub fn new() -> (r: UpdateSession)
        ensures
            r.wf(),
            r@ == Self::new_spec(),
    {
        UpdateSession { state: SessionState::Idle, total_size: 0, received_bytes: 0 }
    }

    pub fn state(&self) -> (r: SessionState)
        ensures
            r == self@.state,
    {
        self.state
    }

    pub fn total_size(&self) -> (r: u64)
        ensures
            r == self@.total_size,
    {
        self.total_size
    }

    pub fn received_bytes(&self) -> (r: u64)
        ensures
            r == self@.received,
    {
        self.received_bytes
    }

    /// Bytes still to come.
    pub fn remaining(&self) -> (r: u64)
        requires
            self.wf(),
        ensures
            r == self@.remaining(),
    {
        self.total_size - self.received_bytes
    }

    /// The next chunk request; none once every byte has arrived.
    pub fn request_next(&self) -> (r: Option<Message>)
        requires
            self.wf(),
        ensures
            r == next_request(self@),
            r.is_none() <==> self@.remaining() == 0,
    {
        let remaining = self.total_size - self.received_bytes;
        if remaining == 0 {
            None
        } else {
            let size = if remaining < CHUNK_SIZE { remaining } else { CHUNK_SIZE };
            Some(
                Message::ChunkRequest {
                    request_id: REQUEST_ID,
                    chunk: self.received_bytes / CHUNK_SIZE,
                    size,
                },
            )
        }
    }

    /// Whether an attempt for `total_size` bytes should open the flash target.
    pub fn opens_target(&self, total_size: u64) -> (r: bool)
        ensures
            r == opens_target(self@, total_size as nat),
    {
        self.state != SessionState::Downloading && total_size > 0
    }

    /// Applies an attempt for `total_size` bytes, given whether the flash
    /// target opened, and returns the reports to publish.
    pub fn apply_start(&mut self, total_size: u64, open_ok: bool) -> (msgs: Vec<Message>)
        requires
            old(self).wf(),
        ensures
            final(self).wf(),
            (final(self)@, msgs@) == start_step(old(self)@, total_size as nat, open_ok),
    {
        if self.state == SessionState::Downloading {
            return Vec::new();
        }
        if total_size == 0 || !open_ok {
            self.state = SessionState::Failed;
            self.total_size = total_size;
            self.received_bytes = 0;
            let mut msgs = Vec::new();
            msgs.push(Message::State(FwState::Failed));
            assert(msgs@ =~= seq![Message::State(FwState::Failed)]);
            return msgs;
        }
        self.state = SessionState::Downloading;
        self.total_size = total_size;
        self.received_bytes = 0;
        let mut msgs = Vec::new();
        msgs.push(Message::State(FwState::Downloading));
        let req = self.request_next();
        match req {
            Some(m) => msgs.push(m),
            None => {},
        }
        assert(msgs@ =~= start_step(old(self)@, total_size as nat, open_ok).1);
        msgs
    }

    /// How many bytes of a chunk of `len` bytes the session takes.
    pub fn accept_len(&self, len: usize) -> (r: u64)
        requires
            self.wf(),
        ensures
            r == accepted(self@, len as nat),
    {
        if self.state != SessionState::Downloading {
            return 0;
        }
        let remaining = self.total_size - self.received_bytes;
        if (len as u64) < remaining { len as u64 } else { remaining }
    }

    /// Applies `n` accepted bytes, given whether the write succeeded and,
    /// when the image completes, whether the commit succeeded; returns the
    /// reports to publish.
    pub fn apply_chunk(&mut self, n: u64, write_ok: bool, commit_ok: bool) -> (msgs: Vec<
        Message,
    >)
        requires
            old(self).wf(),
            old(self)@.state == SessionState::Downloading,
            old(self)@.remaining() > 0,
            n <= old(self)@.remaining(),
        ensures
            final(self).wf(),
            (final(self)@, msgs@) == chunk_step(old(self)@, n as nat, write_ok, commit_ok),
    {
        let mut msgs = Vec::new();
        if !write_ok {
            self.state = SessionState::Failed;
            msgs.push(Message::State(FwState::Failed));
            assert(msgs@ =~= chunk_step(old(self)@, n as nat, write_ok, commit_ok).1);
            return msgs;
        }
        self.received_bytes = self.received_bytes + n;
        let p = self.progress();
        if self.received_bytes >= self.total_size {
            if commit_ok {
                self.state = SessionState::Succeeded;
                msgs.push(Message::Progress(p));
                msgs.push(Message::State(FwState::Success));
            } else {
                self.state = SessionState::Failed;
                msgs.push(Message::State(FwState::Failed));
            }
        } else {
            msgs.push(Message::Progress(p));
            let req = self.request_next();
            match req {
                Some(m) => msgs.push(m),
                None => {},
            }
        }
        assert(msgs@ =~= chunk_step(old(self)@, n as nat, write_ok, commit_ok).1);
        msgs
    }

    /// Whole percent of the image received so far, rounded down.
    pub fn progress(&self) -> (r: u64)
        requires
            self.wf(),
        ensures
            r == percent(self@.total_size, self@.received),
            r <= 100,
    {
        if self.total_size == 0 {
            return 0;
        }
        let t = self.total_size as u128;
        let r = self.received_bytes as u128;
        proof {
            let ti = t as int;
            let ri = r as int;
            assert(ri * 100 <= ti * 100) by (nonlinear_arith)
                requires ri <= ti;
            assert((ri * 100) / ti <= 100) by (nonlinear_arith)
                requires ri * 100 <= ti * 100, ti > 0;
        }
        ((r * 100) / t) as u64
    }

    /// Starts an attempt for an image of `total_size` bytes on `flash`.
    ///
    /// A running download is left alone and nothing is reported. An empty
    /// image, or a target that does not open, fails the attempt with one
    /// failure report. Otherwise the session downloads from byte 0, reports
    /// so and asks for the first chunk.
    pub fn start<F: FlashTarget>(&mut self, flash: &mut F, total_size: u64) -> (msgs: Vec<Message>)
        requires
            old(self).wf(),
        ensures
            final(self).wf(),
            exists|open_ok: bool|
                (final(self)@, msgs@) == start_step(old(self)@, total_size as nat, open_ok),
            total_size == 0 ==> final(self)@ == old(self)@ || final(self)@.state
                == SessionState::Failed,
            start_flash(old(self)@, total_size as nat, final(self)@, *old(flash), *final(flash)),
            old(flash).infallible() ==> final(flash).infallible() && (final(self)@, msgs@)
                == start_step(old(self)@, total_size as nat, true),
    {
        let open_ok = if self.opens_target(total_size) {
            match flash.open(total_size) {
                Ok(()) => true,
                Err(_) => false,
            }
        } else {
            false
        };
        self.apply_start(total_size, open_ok)
    }

    /// Takes a chunk that arrived: writes the part the session accepts to
    /// `flash`, commits the image when it is complete, and returns the reports.
    ///
    /// Outside a download, or once every byte has arrived, the chunk is
    /// discarded: nothing changes and nothing is reported. An empty chunk
    /// during a download reports the unchanged progress and asks for the same
    /// chunk again. A failed write or commit aborts the target and fails the
    /// session.
    pub fn on_chunk<F: FlashTarget>(&mut self, flash: &mut F, bytes: &[u8]) -> (msgs: Vec<Message>)
        requires
            old(self).wf(),
        ensures
            final(self).wf(),
            exists|write_ok: bool, commit_ok: bool|
                (final(self)@, msgs@) == on_chunk_step(
                    old(self)@,
                    bytes@.len(),
                    write_ok,
                    commit_ok,
                ),
            final(self)@.total_size == old(self)@.total_size,
            old(self)@.received <= final(self)@.received <= final(self)@.total_size,
            discards(old(self)@) ==> final(self)@ == old(self)@ && msgs@.len() == 0
                && *final(flash) == *old(flash),
            !discards(old(self)@) ==> final(flash).attempted() == old(flash).attempted()
                + bytes@.subrange(0, accepted(old(self)@, bytes@.len()) as int),
            !discards(old(self)@) ==> exists|write_ok: bool, commit_ok: bool|
                {
                    &&& (final(self)@, msgs@) == chunk_step(
                        old(self)@,
                        accepted(old(self)@, bytes@.len()),
                        write_ok,
                        commit_ok,
                    )
                    &&& chunk_flash(
                        accepted(old(self)@, bytes@.len()),
                        bytes@,
                        write_ok,
                        final(self)@,
                        *old(flash),
                        *final(flash),
                    )
                },
            old(flash).infallible() ==> final(flash).infallible() && (final(self)@, msgs@)
                == on_chunk_step(old(self)@, bytes@.len(), true, true),
    {
        if self.state != SessionState::Downloading || self.received_bytes == self.total_size {
            let msgs = Vec::new();
            assert(msgs@ =~= on_chunk_step(old(self)@, bytes@.len(), true, true).1);
            return msgs;
        }
        let n = self.accept_len(bytes.len());
        let write_ok = if n == 0 {
            assert(bytes@.subrange(0, 0) =~= Seq::<u8>::empty());
            true
        } else {
            let part = vstd::slice::slice_subrange(bytes, 0, n as usize);
            match flash.write(part) {
                Ok(()) => true,
                Err(_) => false,
            }
        };
        let completes = write_ok && n == self.total_size - self.received_bytes;
        let commit_ok = if completes {
            match flash.commit() {
                Ok(()) => true,
                Err(_) => false,
            }
        } else {
            false
        };
        if !write_ok || (completes && !commit_ok) {
            flash.abort();
        }
        let msgs = self.apply_chunk(n, write_ok, commit_ok);
        assert((self@, msgs@) == on_chunk_step(old(self)@, bytes@.len(), write_ok, commit_ok));
        assert(chunk_flash(n as nat, bytes@, write_ok, self@, *old(flash), *flash));
        msgs
    }

    /// Starts an attempt for the image that `meta` describes; see `start`.
    pub fn init<F: FlashTarget>(&mut self, flash: &mut F, meta: &UpdateMetadata) -> (msgs: Vec<
        Message,
    >)
        requires
            old(self).wf(),
        ensures
            final(self).wf(),
            exists|open_ok: bool|
                (final(self)@, msgs@) == start_step(old(self)@, meta@.total_size as nat, open_ok),
            meta@.total_size == 0 ==> final(self)@ == old(self)@ || final(self)@.state
                == SessionState::Failed,
            start_flash(old(self)@, meta@.total_size as nat, final(self)@, *old(flash), *final(flash)),
            old(flash).infallible() ==> final(flash).infallible() && (final(self)@, msgs@)
                == start_step(old(self)@, meta@.total_size as nat, true),
    {
        self.start(flash, meta.total_size())
    }
}

} // verus!
