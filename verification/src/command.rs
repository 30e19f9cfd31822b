use crate::privilege::Token;
use crate::Error;
use vstd::prelude::*;
use vstd::string::StringExecFns;

verus! {

/// The client end of a named pipe, opened by path for read and write.
pub struct ClientPipe {
    pub path: String,
}

impl ClientPipe {
    /// Opens the client end of the pipe named `path`.
    pub fn open_pipe(path: &String) -> (c: ClientPipe)
        ensures
            c.path@ == path@,
    {
        ClientPipe { path: path.clone() }
    }
}

/// A pseudo-console bound to two byte streams and a cell dimension.
/// While it is open it owns the two bound endpoints: nobody else may
/// read or write them directly.
pub struct PsuedoCon {
    pub cols: usize,
    pub rows: usize,
    pub input: ClientPipe,
    pub output: ClientPipe,
}

impl PsuedoCon {
    /// Creates a pseudo-console of `cols` by `rows` cells over the two
    /// endpoints; a zero dimension is invalid.
    pub fn new(cols: usize, rows: usize, input: ClientPipe, output: ClientPipe) -> (r: Result<
        PsuedoCon,
        Error,
    >)
        ensures
            cols > 0 && rows > 0 <==> r is Ok,
            r matches Ok(c) ==> c.cols == cols && c.rows == rows && c.input.path@ == input.path@
                && c.output.path@ == output.path@,
            r matches Err(e) ==> e.is_setup("CreatePseudoConsole"@),
    {
        if cols == 0 || rows == 0 {
            proof {
                reveal_strlit("CreatePseudoConsole");
            }
            Err(Error::Setup { api: String::from_str("CreatePseudoConsole") })
        } else {
            Ok(PsuedoCon { cols, rows, input, output })
        }
    }
}

/// A spawned child process: what it was launched with, and its exit
/// code once it has exited.
pub struct Process {
    pub argv: Vec<String>,
    pub via_pty: bool,
    pub token_sid: Option<u64>,
    pub verb: Option<String>,
    pub exit_code: Option<u32>,
}

impl Process {
    /// Records that the wait on the child completed and the OS
    /// reported `code` as its exit code.
    pub fn exited(&mut self, code: u32)
        ensures
            final(self).exit_code == Some(code),
            final(self).argv@ == old(self).argv@,
            final(self).via_pty == old(self).via_pty,
            final(self).token_sid == old(self).token_sid,
            final(self).verb@ == old(self).verb@,
    {
        self.exit_code = Some(code);
    }

    /// The child's exit code; asking before the child has exited is an
    /// error tagged with the querying API.
    pub fn exit_code(&self) -> (r: Result<u32, Error>)
        ensures
            self.exit_code matches Some(c) ==> r == Ok::<u32, Error>(c),
            self.exit_code is None ==> (r matches Err(e) && e.is_setup("GetExitCodeProcess"@)),
    {
        match self.exit_code {
            Some(c) => Ok(c),
            None => {
                proof {
                    reveal_strlit("GetExitCodeProcess");
                }
                Err(Error::Setup { api: String::from_str("GetExitCodeProcess") })
            },
        }
    }
}

/// A pending spawn: the argument vector, an optional working
/// directory, and the token whose identity scopes the child's
/// environment and, for a token spawn, the child itself.
pub struct Command {
    pub argv: Vec<String>,
    pub cwd: Option<String>,
    pub env_sid: u64,
    pub token_sid: Option<u64>,
}

impl Command {
    /// Builds a command whose environment block is derived from
    /// `token`, so the child's profile paths reflect the target
    /// identity; the command will spawn under that token.
    pub fn with_environment_for_token(token: &Token) -> (c: Command)
        ensures
            c.argv@.len() == 0,
            c.cwd is None,
            c.env_sid == token.sid,
            c.token_sid == Some(token.sid),
    {
        Command { argv: Vec::new(), cwd: None, env_sid: token.sid, token_sid: Some(token.sid) }
    }

    /// Replaces the argument vector.
    pub fn set_argv(&mut self, argv: Vec<String>)
        ensures
            final(self).argv@ == argv@,
            final(self).cwd == old(self).cwd,
            final(self).env_sid == old(self).env_sid,
            final(self).token_sid == old(self).token_sid,
    {
        self.argv = argv;
    }

    /// Sets the working directory.
    pub fn set_cwd(&mut self, cwd: String)
        ensures
            final(self).cwd matches Some(d) && d@ == cwd@,
            final(self).argv@ == old(self).argv@,
            final(self).env_sid == old(self).env_sid,
            final(self).token_sid == old(self).token_sid,
    {
        self.cwd = Some(cwd);
    }

    /// Spawns under the configured token with plain standard handles.
    pub fn spawn(&self) -> (r: Result<Process, Error>)
        ensures
            r matches Ok(p) && p.argv@ == self.argv@ && !p.via_pty && p.token_sid
                == self.token_sid && p.verb is None && p.exit_code is None,
    {
        Ok(
            Process {
                argv: clone_strings(&self.argv),
                via_pty: false,
                token_sid: self.token_sid,
                verb: None,
                exit_code: None,
            },
        )
    }

    /// Spawns under the configured token attached to the
    /// pseudo-console: the child inherits the console, not the raw
    /// endpoints.
    pub fn spawn_with_pty(&self, _con: &PsuedoCon) -> (r: Result<Process, Error>)
        ensures
            r matches Ok(p) && p.argv@ == self.argv@ && p.via_pty && p.token_sid == self.token_sid
                && p.verb is None && p.exit_code is None,
    {
        Ok(
            Process {
                argv: clone_strings(&self.argv),
                via_pty: true,
                token_sid: self.token_sid,
                verb: None,
                exit_code: None,
            },
        )
    }

    /// Invokes the OS shell-execute with `verb`. A shell-execute spawn
    /// cannot carry a token: the OS picks the child's identity, for
    /// the `runas` verb by showing the consent prompt.
    pub fn shell_execute(&self, verb: &str) -> (r: Result<Process, Error>)
        ensures
            r matches Ok(p) && p.argv@ == self.argv@ && !p.via_pty && p.token_sid is None && (
            p.verb matches Some(v) && v@ == verb@) && p.exit_code is None,
    {
        Ok(
            Process {
                argv: clone_strings(&self.argv),
                via_pty: false,
                token_sid: None,
                verb: Some(String::from_str(verb)),
                exit_code: None,
            },
        )
    }
}

/// Copies a vector of strings.
fn clone_strings(v: &Vec<String>) -> (out: Vec<String>)
    ensures
        out@ == v@,
{
    let mut out: Vec<String> = Vec::new();
    let mut i: usize = 0;
    while i < v.len()
        invariant
            i <= v.len(),
            out@ == v@.subrange(0, i as int),
        decreases v.len() - i,
    {
        out.push(v[i].clone());
        i = i + 1;
        proof {
            assert(out@ =~= v@.subrange(0, i as int));
        }
    }
    proof {
        assert(out@ =~= v@);
    }
    out
}

} // verus!
