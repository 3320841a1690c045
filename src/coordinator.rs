//! Routing of inbound transport messages to one update session.
use vstd::prelude::*;
use vstd::string::StrSliceExecFns;
use crate::flash::FlashTarget;
use crate::message::Message;
use crate::metadata::{metadata_of_text, parse_metadata};
use crate::session::{
    accepted, chunk_flash, chunk_step, discards, on_chunk_step, start_flash, start_step, SessionModel,
    UpdateSession,
};

verus! {

/// Topic on which attribute responses arrive.
pub const ATTRIBUTE_RESPONSE_TOPIC: &'static str = "v1/devices/me/attributes/response/1";

/// Prefix of the topics on which firmware chunks arrive.
pub const CHUNK_RESPONSE_PREFIX: &'static str = "v2/fw/response/";

/// Topic filter that covers every chunk response.
pub const CHUNK_RESPONSE_FILTER: &'static str = "v2/fw/response/+/chunk/+";

/// What an inbound topic carries.
#[derive(Clone, Copy, Debug, PartialEq, Eq, Structural)]
pub enum TopicKind {
    AttributeResponse,
    FirmwareChunk,
    Other,
}

pub open spec fn has_prefix_spec(s: Seq<char>, p: Seq<char>) -> bool {
    p.len() <= s.len() && s.subrange(0, p.len() as int) == p
}

pub open spec fn topic_kind(t: Seq<char>) -> TopicKind {
    if t == ATTRIBUTE_RESPONSE_TOPIC@ {
        TopicKind::AttributeResponse
    } else if has_prefix_spec(t, CHUNK_RESPONSE_PREFIX@) {
        TopicKind::FirmwareChunk
    } else {
        TopicKind::Other
    }
}

/// Whether `s` begins with `p`.
pub fn has_prefix(s: &str, p: &str) -> (r: bool)
    ensures
        r == has_prefix_spec(s@, p@),
{
    let n = p.unicode_len();
    let m = s.unicode_len();
    if n > m {
        return false;
    }
    let mut i: usize = 0;
    while i < n
        invariant
            n == p@.len(),
            m == s@.len(),
            n <= m,
            i <= n,
            forall|k: int| 0 <= k < i ==> s@[k] == p@[k],
        decreases n - i,
    {
        if s.get_char(i) != p.get_char(i) {
            assert(s@.subrange(0, n as int)[i as int] != p@[i as int]);
            return false;
        }
        i = i + 1;
    }
    assert(s@.subrange(0, n as int) =~= p@);
    true
}

/// Whether `a` and `b` hold the same text.
pub fn same_text(a: &str, b: &str) -> (r: bool)
    ensures
        r == (a@ == b@),
{
    if a.unicode_len() != b.unicode_len() {
        return false;
    }
    let r = has_prefix(a, b);
    proof {
        assert(a@ =~= a@.subrange(0, b@.len() as int));
    }
    r
}

/// Tells what an inbound topic carries.
pub fn classify_topic(topic: &str) -> (r: TopicKind)
    ensures
        r == topic_kind(topic@),
{
    if same_text(topic, ATTRIBUTE_RESPONSE_TOPIC) {
        TopicKind::AttributeResponse
    } else if has_prefix(topic, CHUNK_RESPONSE_PREFIX) {
        TopicKind::FirmwareChunk
    } else {
        TopicKind::Other
    }
}

/// The request for the shared firmware attributes.
pub fn request_firmware_attributes() -> (r: Message)
    ensures
        r == Message::AttributeRequest,
{
    Message::AttributeRequest
}

/// One update session together with the flash target it writes to.
pub struct OtaCoordinator<F: FlashTarget> {
    session: UpdateSession,
    flash: F,
}

impl<F: FlashTarget> View for OtaCoordinator<F> {
    type V = SessionModel;

    closed spec fn view(&self) -> SessionModel {
        self.session@
    }
}

impl<F: FlashTarget> OtaCoordinator<F> {
    pub open spec fn wf(&self) -> bool {
        self@.wf()
    }

    pub fn new(flash: F) -> (r: Self)
        ensures
            r.wf(),
            r@ == UpdateSession::new_spec(),
    {
        OtaCoordinator { session: UpdateSession::new(), flash }
    }

    pub fn session(&self) -> (r: &UpdateSession)
        ensures
            r@ == self@,
            self.wf() ==> r.wf(),
    {
        &self.session
    }

    pub fn flash(&self) -> (r: &F)
        ensures
            *r == self.flash_spec(),
    {
        &self.flash
    }

    pub closed spec fn flash_spec(&self) -> F {
        self.flash
    }

    /// Handles an attribute response: a payload without a firmware
    /// descriptor changes nothing and reports nothing; one with a descriptor
    /// starts an attempt for its image size.
    pub fn handle_ota_response(&mut self, payload: &str) -> (msgs: Vec<Message>)
        requires
            old(self).wf(),
        ensures
            final(self).wf(),
            metadata_of_text(payload@) is None ==> final(self)@ == old(self)@ && msgs@.len() == 0
                && final(self).flash_spec() == old(self).flash_spec(),
            metadata_of_text(payload@) is Some ==> start_flash(
                old(self)@,
                metadata_of_text(payload@)->Some_0.total_size as nat,
                final(self)@,
                old(self).flash_spec(),
                final(self).flash_spec(),
            ),
            metadata_of_text(payload@) is Some && old(self).flash_spec().infallible() ==> {
                &&& final(self).flash_spec().infallible()
                &&& (final(self)@, msgs@) == start_step(
                    old(self)@,
                    metadata_of_text(payload@)->Some_0.total_size as nat,
                    true,
                )
            },
            metadata_of_text(payload@) is Some ==> exists|open_ok: bool|
                (final(self)@, msgs@) == start_step(
                    old(self)@,
                    metadata_of_text(payload@)->Some_0.total_size as nat,
                    open_ok,
                ),
    {
        match parse_metadata(payload) {
            Some(meta) => {
                assert(meta@ == metadata_of_text(payload@)->Some_0);
                let msgs = self.session.init(&mut self.flash, &meta);
                assert(self@ == self.session@);
                assert(old(self)@ == old(self).session@);
                msgs
            },
            None => Vec::new(),
        }
    }

    /// Handles the bytes of a firmware chunk; see `UpdateSession::on_chunk`.
    pub fn handle_firmware_chunk(&mut self, data: &[u8]) -> (msgs: Vec<Message>)
        requires
            old(self).wf(),
        ensures
            final(self).wf(),
            exists|write_ok: bool, commit_ok: bool|
                (final(self)@, msgs@) == on_chunk_step(old(self)@, data@.len(), write_ok, commit_ok),
            old(self)@.received <= final(self)@.received <= final(self)@.total_size,
            discards(old(self)@) ==> final(self)@ == old(self)@ && msgs@.len() == 0
                && final(self).flash_spec() == old(self).flash_spec(),
            !discards(old(self)@) ==> final(self).flash_spec().attempted() == old(self).flash_spec().attempted()
                + data@.subrange(0, accepted(old(self)@, data@.len()) as int),
            !discards(old(self)@) ==> exists|write_ok: bool, commit_ok: bool|
                {
                    &&& (final(self)@, msgs@) == chunk_step(
                        old(self)@,
                        accepted(old(self)@, data@.len()),
                        write_ok,
                        commit_ok,
                    )
                    &&& chunk_flash(
                        accepted(old(self)@, data@.len()),
                        data@,
                        write_ok,
                        final(self)@,
                        old(self).flash_spec(),
                        final(self).flash_spec(),
                    )
                },
            old(self).flash_spec().infallible() ==> {
                &&& final(self).flash_spec().infallible()
                &&& (final(self)@, msgs@) == on_chunk_step(old(self)@, data@.len(), true, true)
            },
    {
        let msgs = self.session.on_chunk(&mut self.flash, data);
        assert(self@ == self.session@);
        assert(old(self)@ == old(self).session@);
        msgs
    }
}

} // verus!
