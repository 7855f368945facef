//! The protocol engine: a session owning the one-slot pending-payload
//! buffer, and the mapping from each parsed command to the replies it
//! emits, the state it changes, and the transition it signals.

use vstd::prelude::*;
use crate::cmd::{str_eq, FastbootCmd};
use crate::reply::{is_data, is_fail, is_info, is_okay, FbReply};

verus! {

/// The transition a command signals to the main loop; no signal means
/// "stay in the loop, await the next command".
#[derive(Clone, Copy, Debug, PartialEq, Eq, Structural)]
pub enum NextAction {
    Reboot,
    Boot,
    Continue,
}

/// The value of a device property, as `getvar` reports it.
pub open spec fn getvar_value(name: Seq<char>) -> Option<Seq<char>> {
    if name == "version"@ {
        Some("0.4"@)
    } else if name == "product"@ {
        Some("fastbootd-rs"@)
    } else if name == "secure"@ {
        Some("no"@)
    } else if name == "is-userspace"@ {
        Some("yes"@)
    } else if name == "max-download-size"@ {
        Some("32768000"@)
    } else {
        None
    }
}

/// Look `name` up in the fixed table of device properties: `Okay` with
/// the value when the name is known, `Fail` otherwise.
pub fn getvar_reply(name: &str) -> (r: FbReply<'static>)
    ensures
        getvar_value(name@) matches Some(v) ==> is_okay(r, v),
        getvar_value(name@) is None ==> is_fail(r, "unknown variable"@),
{
    if str_eq(name, "version") {
        FbReply::Okay("0.4")
    } else if str_eq(name, "product") {
        FbReply::Okay("fastbootd-rs")
    } else if str_eq(name, "secure") {
        FbReply::Okay("no")
    } else if str_eq(name, "is-userspace") {
        FbReply::Okay("yes")
    } else if str_eq(name, "max-download-size") {
        FbReply::Okay("32768000")
    } else {
        FbReply::Fail("unknown variable")
    }
}

/// An in-progress payload transfer: the announced size and the bytes
/// received so far.
pub struct Downloader {
    expected: u32,
    buf: Vec<u8>,
}

impl Downloader {
    /// The byte count the transfer announced.
    pub closed spec fn expected_size(self) -> u32 {
        self.expected
    }

    /// The bytes accumulated so far, in arrival order.
    pub closed spec fn received(self) -> Seq<u8> {
        self.buf@
    }

    pub fn new(size: u32) -> (d: Downloader)
        ensures
            d.expected_size() == size,
            d.received() == Seq::<u8>::empty(),
    {
        Downloader { expected: size, buf: Vec::new() }
    }

    /// Append one chunk, exactly as it arrived; chunk boundaries leave
    /// no trace in the accumulated bytes.
    pub fn push_chunk(&mut self, chunk: &[u8])
        ensures
            final(self).received() == old(self).received() + chunk@,
            final(self).expected_size() == old(self).expected_size(),
    {
        self.buf.extend_from_slice(chunk);
        assert(self.buf@ =~= old(self).buf@ + chunk@);
    }

    /// Has the transfer received at least the announced byte count?
    pub fn is_complete(&self) -> (b: bool)
        ensures
            b == (self.received().len() >= self.expected_size()),
    {
        self.buf.len() >= self.expected as usize
    }
}

/// How the bytes of chunks pushed one after the other accumulate: each
/// chunk is appended to what came before.
pub open spec fn accumulated(buf: Seq<u8>, chunks: Seq<Seq<u8>>) -> Seq<u8>
    decreases chunks.len(),
{
    if chunks.len() == 0 {
        buf
    } else {
        accumulated(buf + chunks.first(), chunks.drop_first())
    }
}

/// The concatenation of a sequence of chunks.
pub open spec fn concat_chunks(chunks: Seq<Seq<u8>>) -> Seq<u8>
    decreases chunks.len(),
{
    if chunks.len() == 0 {
        Seq::empty()
    } else {
        chunks.first() + concat_chunks(chunks.drop_first())
    }
}

/// The total byte count of a sequence of chunks.
pub open spec fn total_len(chunks: Seq<Seq<u8>>) -> int
    decreases chunks.len(),
{
    if chunks.len() == 0 {
        0
    } else {
        chunks.first().len() + total_len(chunks.drop_first())
    }
}

proof fn lemma_accumulated_general(buf: Seq<u8>, chunks: Seq<Seq<u8>>)
    ensures
        accumulated(buf, chunks) == buf + concat_chunks(chunks),
    decreases chunks.len(),
{
    if chunks.len() == 0 {
        assert(accumulated(buf, chunks) =~= buf + concat_chunks(chunks));
    } else {
        lemma_accumulated_general(buf + chunks.first(), chunks.drop_first());
        assert((buf + chunks.first()) + concat_chunks(chunks.drop_first()) =~= buf + concat_chunks(
            chunks,
        ));
    }
}

/// A payload delivered across any partition of chunk sizes accumulates,
/// chunk by chunk, to exactly the concatenation of the chunks: the same
/// bytes and the summed length, regardless of chunk boundaries. The
/// accumulation here is the one `Downloader::push_chunk` performs.
pub proof fn lemma_download_accumulation(chunks: Seq<Seq<u8>>)
    ensures
        accumulated(Seq::<u8>::empty(), chunks) == concat_chunks(chunks),
        concat_chunks(chunks).len() == total_len(chunks),
    decreases chunks.len(),
{
    lemma_accumulated_general(Seq::<u8>::empty(), chunks);
    assert(Seq::<u8>::empty() + concat_chunks(chunks) =~= concat_chunks(chunks));
    if chunks.len() > 0 {
        lemma_download_accumulation(chunks.drop_first());
    }
}

/// What the main loop must do after a command has executed against the
/// session.
pub enum Effect {
    /// Send one reply; then, if a transition is signalled, act on it.
    Simple(FbReply<'static>, Option<NextAction>),
    /// Send the replies in order, then run the announced transfer to
    /// completion and hand the finished `Downloader` back to the session.
    Transfer(Vec<FbReply<'static>>, Downloader),
    /// Resolve the named partition and write the payload to it in full,
    /// then reply with the outcome.
    FlashWrite(String, Vec<u8>),
}

/// The session: owner of the one-slot pending-payload buffer. At most
/// one payload is staged at a time; a completed download fills the slot
/// and the next flash drains it.
pub struct Session {
    pending: Option<Vec<u8>>,
}

impl Session {
    /// The staged payload, if one is held.
    pub closed spec fn pending_data(self) -> Option<Seq<u8>> {
        match self.pending {
            Some(v) => Some(v@),
            None => None,
        }
    }

    /// A fresh session stages nothing.
    pub fn new() -> (s: Session)
        ensures
            s.pending_data() is None,
    {
        Session { pending: None }
    }

    /// Drain the pending-payload slot, returning what was staged.
    pub fn take_pending(&mut self) -> (r: Option<Vec<u8>>)
        ensures
            final(self).pending_data() is None,
            match r {
                Some(v) => old(self).pending_data() == Some(v@),
                None => old(self).pending_data() is None,
            },
    {
        let mut r: Option<Vec<u8>> = None;
        core::mem::swap(&mut self.pending, &mut r);
        r
    }

    /// Stage the bytes of a completed transfer as the pending payload,
    /// replacing whatever was staged before, and acknowledge with `Okay`.
    pub fn finish_download(&mut self, dl: Downloader) -> (r: FbReply<'static>)
        ensures
            final(self).pending_data() == Some(dl.received()),
            is_okay(r, ""@),
    {
        self.pending = Some(dl.buf);
        FbReply::Okay("")
    }
}

impl FastbootCmd {
    /// Execute this command against the session: decide the replies, the
    /// change to the staged payload, and what the main loop does next.
    /// Everything but endpoint traffic and the partition write happens
    /// here.
    ///
    /// `Flash` with nothing staged replies `Fail` and hands out no bytes,
    /// so nothing can be written; with a payload staged it drains the
    /// slot. A `Download` announces `Data` with the expected size, after
    /// exactly one `Info` when it is about to overwrite a staged payload.
    pub fn run(self, session: &mut Session) -> (e: Effect)
        ensures
            match self {
                FastbootCmd::Getvar(name) => final(session).pending_data() == old(
                    session,
                ).pending_data() && (e matches Effect::Simple(r, act) && act is None && (
                match getvar_value(name@) {
                    Some(v) => is_okay(r, v),
                    None => is_fail(r, "unknown variable"@),
                })),
                FastbootCmd::Download(size) => final(session).pending_data() == old(
                    session,
                ).pending_data() && (e matches Effect::Transfer(replies, dl) && dl.expected_size()
                    == size && dl.received() == Seq::<u8>::empty() && (if old(
                    session,
                ).pending_data() is Some {
                    replies@.len() == 2 && is_info(replies@[0], "Overwriting previously sent data"@)
                        && is_data(replies@[1], size)
                } else {
                    replies@.len() == 1 && is_data(replies@[0], size)
                })),
                FastbootCmd::Flash(part) => final(session).pending_data() is None && (match old(
                    session,
                ).pending_data() {
                    None => e matches Effect::Simple(r, act) && is_fail(
                        r,
                        "No data sent for writing"@,
                    ) && act is None,
                    Some(data) => e matches Effect::FlashWrite(p, payload) && p@ == part@
                        && payload@ == data,
                }),
                FastbootCmd::Erase(_) => final(session).pending_data() == old(
                    session,
                ).pending_data() && (e matches Effect::Simple(r, act) && is_fail(r, "todo"@)
                    && act is None),
                FastbootCmd::Upload => final(session).pending_data() == old(session).pending_data()
                    && (e matches Effect::Simple(r, act) && is_fail(r, "todo"@) && act is None),
                FastbootCmd::Boot => final(session).pending_data() == old(session).pending_data()
                    && (e matches Effect::Simple(r, act) && is_fail(r, "todo"@) && act is None),
                FastbootCmd::RebootBootloader => final(session).pending_data() == old(
                    session,
                ).pending_data() && (e matches Effect::Simple(r, act) && is_fail(r, "todo"@)
                    && act is None),
                FastbootCmd::Reboot => final(session).pending_data() == old(session).pending_data()
                    && (e matches Effect::Simple(r, act) && is_okay(r, ""@) && act == Some(
                    NextAction::Reboot,
                )),
                FastbootCmd::Continue => final(session).pending_data() == old(
                    session,
                ).pending_data() && (e matches Effect::Simple(r, act) && is_okay(r, ""@) && act
                    == Some(NextAction::Continue)),
            },
    {
        match self {
            FastbootCmd::Getvar(name) => Effect::Simple(getvar_reply(name.as_str()), None),
            FastbootCmd::Download(size) => {
                let mut replies: Vec<FbReply<'static>> = Vec::new();
                if session.pending.is_some() {
                    replies.push(FbReply::Info("Overwriting previously sent data"));
                }
                replies.push(FbReply::Data(size));
                Effect::Transfer(replies, Downloader::new(size))
            },
            FastbootCmd::Flash(part) => {
                match session.take_pending() {
                    None => Effect::Simple(FbReply::Fail("No data sent for writing"), None),
                    Some(data) => Effect::FlashWrite(part, data),
                }
            },
            FastbootCmd::Erase(_) => Effect::Simple(FbReply::Fail("todo"), None),
            FastbootCmd::Upload => Effect::Simple(FbReply::Fail("todo"), None),
            FastbootCmd::Boot => Effect::Simple(FbReply::Fail("todo"), None),
            FastbootCmd::RebootBootloader => Effect::Simple(FbReply::Fail("todo"), None),
            FastbootCmd::Reboot => Effect::Simple(FbReply::Okay(""), Some(NextAction::Reboot)),
            FastbootCmd::Continue => Effect::Simple(FbReply::Okay(""), Some(NextAction::Continue)),
        }
    }
}

/// The directory a partition name resolves in.
#[derive(Clone, Copy, Debug, PartialEq, Eq, Structural)]
pub enum PartitionDir {
    /// The operator-configured override directory.
    Override,
    /// The standard by-partition-label device-node directory.
    ByPartLabel,
    /// The standard by-name block-device directory.
    ByName,
}

/// Decide where partition names resolve, from which candidate
/// directories exist on disk. The override directory, when configured
/// and existing, wins over both standard directories; the by-label
/// directory wins over the by-name one; with none of them present,
/// resolution fails.
pub fn partition_base_dir(override_exists: bool, partlabel_exists: bool, byname_exists: bool) -> (r:
    Option<PartitionDir>)
    ensures
        override_exists ==> r == Some(PartitionDir::Override),
        !override_exists && partlabel_exists ==> r == Some(PartitionDir::ByPartLabel),
        !override_exists && !partlabel_exists && byname_exists ==> r == Some(PartitionDir::ByName),
        !override_exists && !partlabel_exists && !byname_exists ==> r is None,
{
    if override_exists {
        Some(PartitionDir::Override)
    } else if partlabel_exists {
        Some(PartitionDir::ByPartLabel)
    } else if byname_exists {
        Some(PartitionDir::ByName)
    } else {
        None
    }
}

/// The reply a `Flash` ends with once its payload was taken: `Okay` when
/// the partition resolved (and the write went through), `Fail` naming
/// the unresolved partition otherwise.
pub fn flash_outcome_reply(resolved: bool) -> (r: FbReply<'static>)
    ensures
        resolved ==> is_okay(r, ""@),
        !resolved ==> is_fail(r, "Couldn't find target partition"@),
{
    if resolved {
        FbReply::Okay("")
    } else {
        FbReply::Fail("Couldn't find target partition")
    }
}

} // verus!
