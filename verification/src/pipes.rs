use crate::privilege::Token;
use vstd::prelude::*;

verus! {

/// Which of the originator's streams a server pipe carries.
#[derive(Clone, Copy, PartialEq, Eq, Structural, Debug)]
pub enum StreamKind {
    Stdin,
    Stdout,
    Stderr,
    ConIn,
    ConOut,
}

/// The bridge flag that names a pipe of the given kind.
pub open spec fn spec_flag(k: StreamKind) -> Seq<char> {
    match k {
        StreamKind::Stdin => "--stdin"@,
        StreamKind::Stdout => "--stdout"@,
        StreamKind::Stderr => "--stderr"@,
        StreamKind::ConIn => "--conin"@,
        StreamKind::ConOut => "--conout"@,
    }
}

/// True of the five flags that name a pipe path.
pub open spec fn is_pipe_flag(s: Seq<char>) -> bool {
    exists|k: StreamKind| spec_flag(k) == s
}

/// The flag for a pipe of kind `k`.
pub fn flag_str(k: StreamKind) -> (s: &'static str)
    ensures
        s@ == spec_flag(k),
{
    match k {
        StreamKind::Stdin => "--stdin",
        StreamKind::Stdout => "--stdout",
        StreamKind::Stderr => "--stderr",
        StreamKind::ConIn => "--conin",
        StreamKind::ConOut => "--conout",
    }
}

/// The server end of a named pipe the originator creates: its path,
/// the SID its security descriptor admits, and how far its lifecycle
/// has come. `connected` is set when the client handshake completes,
/// `relayed` when its relay has been handed the endpoint, `closed`
/// when the handle is released.
pub struct ServerPipe {
    pub kind: StreamKind,
    pub path: String,
    pub target_sid: u64,
    pub connected: bool,
    pub relayed: bool,
    pub closed: bool,
}

impl ServerPipe {
    /// A pipe begins relaying only after its client has connected.
    pub open spec fn wf(&self) -> bool {
        self.relayed ==> self.connected
    }

    /// Creates the server end of a uniquely named pipe whose security
    /// descriptor grants access to the holder of `token`'s SID (and to
    /// SYSTEM) and denies everyone else.
    pub fn for_token(kind: StreamKind, path: String, token: &Token) -> (p: ServerPipe)
        ensures
            p.kind == kind,
            p.path@ == path@,
            p.target_sid == token.sid,
            !p.connected,
            !p.relayed,
            !p.closed,
            p.wf(),
    {
        ServerPipe { kind, path, target_sid: token.sid, connected: false, relayed: false, closed: false }
    }

    /// Blocks until a client has connected to this server end.
    pub fn wait_for_pipe_client(&mut self)
        requires
            !old(self).closed,
        ensures
            final(self).connected,
            final(self).kind == old(self).kind,
            final(self).path@ == old(self).path@,
            final(self).target_sid == old(self).target_sid,
            final(self).relayed == old(self).relayed,
            final(self).closed == old(self).closed,
            final(self).wf(),
    {
        self.connected = true;
    }

    /// Hands the endpoint to its relay. Bulk I/O on a server pipe is
    /// allowed only once the client handshake has completed, so a
    /// relay can begin only on a connected pipe.
    pub fn begin_relay(&mut self)
        requires
            old(self).connected,
            !old(self).closed,
        ensures
            final(self).relayed,
            final(self).connected,
            final(self).kind == old(self).kind,
            final(self).path@ == old(self).path@,
            final(self).target_sid == old(self).target_sid,
            final(self).closed == old(self).closed,
            final(self).wf(),
    {
        self.relayed = true;
    }

    /// Releases the handle.
    pub fn close(&mut self)
        ensures
            final(self).closed,
            final(self).kind == old(self).kind,
            final(self).path@ == old(self).path@,
            final(self).target_sid == old(self).target_sid,
            final(self).connected == old(self).connected,
            final(self).relayed == old(self).relayed,
            final(self).wf() == old(self).wf(),
    {
        self.closed = true;
    }
}

/// Law: a pipe that has begun relaying has completed its client
/// handshake first. Every constructor and mutator of `ServerPipe`
/// establishes `wf`, and `begin_relay` demands a connected pipe, so
/// the claim holds of every reachable pipe value.
pub proof fn lemma_relay_after_connect(p: ServerPipe)
    requires
        p.wf(),
        p.relayed,
    ensures
        p.connected,
{
}

/// What one relay does to the bytes that cross it: it copies them
/// verbatim, in order, injecting nothing.
pub fn relay_copy(data: &Vec<u8>) -> (out: Vec<u8>)
    ensures
        out@ == data@,
{
    let mut out: Vec<u8> = Vec::new();
    let mut i: usize = 0;
    while i < data.len()
        invariant
            i <= data.len(),
            out@ == data@.subrange(0, i as int),
        decreases data.len() - i,
    {
        out.push(data[i]);
        i = i + 1;
        proof {
            assert(out@ =~= data@.subrange(0, i as int));
        }
    }
    proof {
        assert(out@ =~= data@);
    }
    out
}

} // verus!
