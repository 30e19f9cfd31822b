use crate::command::{ClientPipe, Command, Process, PsuedoCon};
use crate::console::{
    ConsoleState, ScreenInfo, BRIDGE_INPUT_MODE, BRIDGE_OUTPUT_MODE,
};
use crate::console::{spec_extent, spec_rel};
use crate::numfmt::{decimal_string, lemma_decimal_digits_only, spec_decimal};
use crate::pipes::{flag_str, is_pipe_flag, spec_flag, ServerPipe, StreamKind};
use crate::privilege::Token;
use crate::Error;
use vstd::prelude::*;
use vstd::string::StringExecFns;

verus! {

/// The stages of the originator's lifecycle. A failure in any stage
/// moves to `Aborting`, which still restores the console before the
/// error is surfaced.
#[derive(Clone, Copy, PartialEq, Eq, Structural, Debug)]
pub enum Stage {
    Init,
    PipesReady,
    ChildLaunched,
    Relaying,
    ChildExited,
    Drained,
    Restored,
    Done,
    Aborting,
}

/// The pseudo-console half of the bridged child: it opens the client
/// ends of the two console pipes and binds a pseudo-console over them.
pub struct BridgePtyClient {
    pub con: PsuedoCon,
}

impl BridgePtyClient {
    /// Opens the client ends of the `conin` and `conout` pipes and
    /// creates a pseudo-console of the given dimensions over them;
    /// zero cells in either direction is invalid.
    pub fn with_params(conin: &String, conout: &String, width: usize, height: usize) -> (r: Result<
        BridgePtyClient,
        Error,
    >)
        ensures
            width > 0 && height > 0 <==> r is Ok,
            r matches Ok(c) ==> c.con.cols == width && c.con.rows == height && c.con.input.path@
                == conin@ && c.con.output.path@ == conout@,
            r matches Err(e) ==> e.is_setup("CreatePseudoConsole"@),
    {
        let client_to_server = ClientPipe::open_pipe(conout);
        let server_to_client = ClientPipe::open_pipe(conin);
        match PsuedoCon::new(width, height, server_to_client, client_to_server) {
            Ok(con) => Ok(BridgePtyClient { con }),
            Err(e) => Err(e),
        }
    }

    /// Spawns the target command attached to the pseudo-console.
    pub fn spawn(&self, command: Command) -> (r: Result<Process, Error>)
        ensures
            r matches Ok(p) && p.argv@ == command.argv@ && p.via_pty && p.token_sid
                == command.token_sid && p.verb is None && p.exit_code is None,
    {
        command.spawn_with_pty(&self.con)
    }

    /// Waits for the target and reports its exit code.
    pub fn run(self, proc: Process) -> (r: Result<u32, Error>)
        requires
            proc.exit_code is Some,
        ensures
            r == Ok::<u32, Error>(proc.exit_code.unwrap()),
    {
        proc.exit_code()
    }
}

/// The kinds and paths of the server pipes the originator creates for
/// the given stream and console shape, in creation order: one pipe for
/// each standard stream that is not itself a console stream, then the
/// console input and output pipes when a console is present. The pipe
/// for a stream takes a fixed slot of `names`.
pub open spec fn planned_pipes(
    stdin_is_pty: bool,
    stdout_is_pty: bool,
    stderr_is_pty: bool,
    has_input: bool,
    has_output: bool,
    names: Seq<Seq<char>>,
) -> Seq<(StreamKind, Seq<char>)> {
    (if !stdin_is_pty {
        seq![(StreamKind::Stdin, names[0])]
    } else {
        Seq::empty()
    }) + (if !stdout_is_pty {
        seq![(StreamKind::Stdout, names[1])]
    } else {
        Seq::empty()
    }) + (if !stderr_is_pty {
        seq![(StreamKind::Stderr, names[2])]
    } else {
        Seq::empty()
    }) + (if has_input {
        seq![(StreamKind::ConIn, names[3])]
    } else {
        Seq::empty()
    }) + (if has_output {
        seq![(StreamKind::ConOut, names[4])]
    } else {
        Seq::empty()
    })
}

/// The flag/value pairs announcing the planned pipes, flattened in
/// creation order.
pub open spec fn flag_args(plan: Seq<(StreamKind, Seq<char>)>) -> Seq<Seq<char>>
    decreases plan.len(),
{
    if plan.len() == 0 {
        Seq::empty()
    } else {
        flag_args(plan.drop_last()) + seq![spec_flag(plan.last().0), plan.last().1]
    }
}

/// The geometry arguments computed from the screen-buffer query: the
/// viewport dimensions and the viewport-relative cursor cell.
pub open spec fn geometry_args(info: ScreenInfo) -> Seq<Seq<char>> {
    seq![
        "--width"@,
        spec_decimal(spec_extent(info.window_left, info.window_right)),
        "--height"@,
        spec_decimal(spec_extent(info.window_top, info.window_bottom)),
        "--cursor-x"@,
        spec_decimal(spec_rel(0, info.cursor_x)),
        "--cursor-y"@,
        spec_decimal(spec_rel(info.window_top, info.cursor_y)),
    ]
}

/// A freshly created server pipe of kind `k` with path `path`, scoped
/// to `sid`.
pub open spec fn pipe_is(p: ServerPipe, k: StreamKind, path: Seq<char>, sid: u64) -> bool {
    &&& p.kind == k
    &&& p.path@ == path
    &&& p.target_sid == sid
    &&& !p.connected
    &&& !p.relayed
    &&& !p.closed
}

/// The created pipes realise the plan, position by position.
pub open spec fn pipes_match(
    pipes: Seq<ServerPipe>,
    plan: Seq<(StreamKind, Seq<char>)>,
    sid: u64,
) -> bool {
    &&& pipes.len() == plan.len()
    &&& forall|i: int|
        0 <= i < pipes.len() ==> pipe_is(#[trigger] pipes[i], plan[i].0, plan[i].1, sid)
}

/// The server holds the entry console modes as its snapshot: one for
/// each console pseudo-device that was present.
pub open spec fn snapshot_taken(s: BridgeServer, entry: ConsoleState) -> bool {
    &&& s.input_mode == (if entry.has_input {
        Some(entry.input_mode)
    } else {
        None::<u32>
    })
    &&& s.output_mode == (if entry.has_output {
        Some(entry.output_mode)
    } else {
        None::<u32>
    })
}

/// What restoration leaves behind: each mode the server snapshotted is
/// written back, a soft reset reaches the output console exactly when
/// an output snapshot existed, and nothing else about the console
/// changes.
pub open spec fn restored_console(s: BridgeServer, c0: ConsoleState, c1: ConsoleState) -> bool {
    &&& c1.output_mode == (match s.output_mode {
        Some(m) => m,
        None => c0.output_mode,
    })
    &&& c1.input_mode == (match s.input_mode {
        Some(m) => m,
        None => c0.input_mode,
    })
    &&& c1.soft_reset_seen == (s.output_mode is Some || c0.soft_reset_seen)
    &&& c1.has_input == c0.has_input
    &&& c1.has_output == c0.has_output
    &&& c1.input_mode_ok == c0.input_mode_ok
    &&& c1.output_mode_ok == c0.output_mode_ok
    &&& c1.screen == c0.screen
}

/// Setup succeeds exactly when every mode and screen-buffer query the
/// present console devices force can be answered.
pub open spec fn start_ok(c: ConsoleState) -> bool {
    &&& (c.has_input ==> c.input_mode_ok)
    &&& (c.has_output ==> c.output_mode_ok && c.screen is Some)
}

/// The bridge originator: it creates the server pipes, announces them
/// to the bridged child, swaps the console into virtual-terminal mode,
/// relays, and restores.
pub struct BridgeServer {
    pub stdin_is_pty: bool,
    pub stdout_is_pty: bool,
    pub stderr_is_pty: bool,
    pub pipes: Vec<ServerPipe>,
    pub input_mode: Option<u32>,
    pub output_mode: Option<u32>,
    pub stage: Stage,
}

fn push_arg(args: &mut Vec<String>, s: String)
    ensures
        final(args).deep_view() == old(args).deep_view().push(s@),
{
    let ghost d0 = args.deep_view();
    args.push(s);
    proof {
        assert(args.deep_view() =~= d0.push(s@));
    }
}

impl BridgeServer {
    /// A fresh originator. Each `*_is_pty` flag says whether the
    /// corresponding standard stream is attached to the console; those
    /// streams travel through the pseudo-console rather than through a
    /// dedicated pipe.
    pub fn new(stdin_is_pty: bool, stdout_is_pty: bool, stderr_is_pty: bool) -> (s: BridgeServer)
        ensures
            s.stdin_is_pty == stdin_is_pty,
            s.stdout_is_pty == stdout_is_pty,
            s.stderr_is_pty == stderr_is_pty,
            s.pipes@.len() == 0,
            s.input_mode is None,
            s.output_mode is None,
            s.stage == Stage::Init,
    {
        BridgeServer {
            stdin_is_pty,
            stdout_is_pty,
            stderr_is_pty,
            pipes: Vec::new(),
            input_mode: None,
            output_mode: None,
            stage: Stage::Init,
        }
    }

    fn add_pipe(&mut self, kind: StreamKind, name: &String, token: &Token, args: &mut Vec<String>)
        ensures
            final(self).pipes@.len() == old(self).pipes@.len() + 1,
            forall|i: int|
                0 <= i < old(self).pipes@.len() ==> final(self).pipes@[i] == old(self).pipes@[i],
            pipe_is(final(self).pipes@.last(), kind, name@, token.sid),
            final(args).deep_view() == old(args).deep_view() + seq![spec_flag(kind), name@],
            final(self).stdin_is_pty == old(self).stdin_is_pty,
            final(self).stdout_is_pty == old(self).stdout_is_pty,
            final(self).stderr_is_pty == old(self).stderr_is_pty,
            final(self).input_mode == old(self).input_mode,
            final(self).output_mode == old(self).output_mode,
            final(self).stage == old(self).stage,
    {
        let ghost d0 = args.deep_view();
        push_arg(args, String::from_str(flag_str(kind)));
        push_arg(args, name.clone());
        self.pipes.push(ServerPipe::for_token(kind, name.clone(), token));
        proof {
            assert(args.deep_view() =~= d0 + seq![spec_flag(kind), name@]);
        }
    }

    /// Creates the server pipes for the bridged child, snapshots and
    /// switches the console modes, and returns the argument vector
    /// that announces every pipe (and, when an output console is
    /// present, the viewport geometry) to the child.
    #[verifier::rlimit(100)]
    pub fn start(&mut self, token: &Token, console: &mut ConsoleState, names: &Vec<String>) -> (r:
        Result<Vec<String>, Error>)
        requires
            old(self).stage == Stage::Init,
            old(self).pipes@.len() == 0,
            old(self).input_mode is None,
            old(self).output_mode is None,
            names@.len() >= 5,
        ensures
            final(self).stdin_is_pty == old(self).stdin_is_pty,
            final(self).stdout_is_pty == old(self).stdout_is_pty,
            final(self).stderr_is_pty == old(self).stderr_is_pty,
            r is Ok <==> start_ok(*old(console)),
            r matches Ok(args) ==> args.deep_view() == flag_args(
                planned_pipes(
                    old(self).stdin_is_pty,
                    old(self).stdout_is_pty,
                    old(self).stderr_is_pty,
                    old(console).has_input,
                    old(console).has_output,
                    names.deep_view(),
                ),
            ) + (if old(console).has_output {
                geometry_args(old(console).screen.unwrap())
            } else {
                Seq::empty()
            }),
            r is Ok ==> pipes_match(
                final(self).pipes@,
                planned_pipes(
                    old(self).stdin_is_pty,
                    old(self).stdout_is_pty,
                    old(self).stderr_is_pty,
                    old(console).has_input,
                    old(console).has_output,
                    names.deep_view(),
                ),
                token.sid,
            ),
            r is Ok ==> final(self).stage == Stage::PipesReady && snapshot_taken(
                *final(self),
                *old(console),
            ) && final(console).input_mode == (if old(console).has_input {
                BRIDGE_INPUT_MODE
            } else {
                old(console).input_mode
            }) && final(console).output_mode == (if old(console).has_output {
                BRIDGE_OUTPUT_MODE
            } else {
                old(console).output_mode
            }),
            r is Err ==> final(self).stage == Stage::Aborting,
            old(console).has_input && !old(console).input_mode_ok ==> (r matches Err(e)
                && e.is_setup("GetConsoleMode"@)) && pipes_match(
                final(self).pipes@,
                planned_pipes(
                    old(self).stdin_is_pty,
                    old(self).stdout_is_pty,
                    old(self).stderr_is_pty,
                    false,
                    false,
                    names.deep_view(),
                ),
                token.sid,
            ) && final(self).input_mode is None && final(self).output_mode is None
                && *final(console) == *old(console),
            (old(console).has_input ==> old(console).input_mode_ok) && old(console).has_output
                && !old(console).output_mode_ok ==> (r matches Err(e) && e.is_setup(
                "GetConsoleMode"@,
            )) && pipes_match(
                final(self).pipes@,
                planned_pipes(
                    old(self).stdin_is_pty,
                    old(self).stdout_is_pty,
                    old(self).stderr_is_pty,
                    old(console).has_input,
                    false,
                    names.deep_view(),
                ),
                token.sid,
            ) && final(self).input_mode == (if old(console).has_input {
                Some(old(console).input_mode)
            } else {
                None::<u32>
            }) && final(self).output_mode is None && *final(console) == (ConsoleState {
                input_mode: if old(console).has_input {
                    BRIDGE_INPUT_MODE
                } else {
                    old(console).input_mode
                },
                ..*old(console)
            }),
            (old(console).has_input ==> old(console).input_mode_ok) && old(console).has_output
                && old(console).output_mode_ok && old(console).screen is None ==> (r matches Err(e)
                && e.is_setup("GetConsoleScreenBufferInfo"@)) && pipes_match(
                final(self).pipes@,
                planned_pipes(
                    old(self).stdin_is_pty,
                    old(self).stdout_is_pty,
                    old(self).stderr_is_pty,
                    old(console).has_input,
                    true,
                    names.deep_view(),
                ),
                token.sid,
            ) && snapshot_taken(*final(self), *old(console)) && *final(console) == (ConsoleState {
                input_mode: if old(console).has_input {
                    BRIDGE_INPUT_MODE
                } else {
                    old(console).input_mode
                },
                ..*old(console)
            }),
    {
        let ghost c0 = *console;
        let ghost nm = names.deep_view();
        let ghost sid = token.sid;
        let mut args: Vec<String> = Vec::new();
        let ghost mut pd: Seq<(StreamKind, Seq<char>)> = Seq::empty();
        proof {
            assert(args.deep_view() =~= flag_args(pd));
        }

        if !self.stdin_is_pty {
            self.add_pipe(StreamKind::Stdin, &names[0], token, &mut args);
            proof {
                let prev = pd;
                pd = pd.push((StreamKind::Stdin, nm[0]));
                assert(pd.drop_last() =~= prev);
                assert(args.deep_view() == flag_args(pd));
                assert(pipes_match(self.pipes@, pd, sid));
            }
        }
        if !self.stdout_is_pty {
            self.add_pipe(StreamKind::Stdout, &names[1], token, &mut args);
            proof {
                let prev = pd;
                pd = pd.push((StreamKind::Stdout, nm[1]));
                assert(pd.drop_last() =~= prev);
                assert(args.deep_view() == flag_args(pd));
                assert(pipes_match(self.pipes@, pd, sid));
            }
        }
        if !self.stderr_is_pty {
            self.add_pipe(StreamKind::Stderr, &names[2], token, &mut args);
            proof {
                let prev = pd;
                pd = pd.push((StreamKind::Stderr, nm[2]));
                assert(pd.drop_last() =~= prev);
                assert(args.deep_view() == flag_args(pd));
                assert(pipes_match(self.pipes@, pd, sid));
            }
        }
        proof {
            assert(pipes_match(self.pipes@, pd, sid));
        }

        if console.has_input {
            if !console.input_mode_ok {
                self.stage = Stage::Aborting;
                proof {
                    reveal_strlit("GetConsoleMode");
                    assert(pd =~= planned_pipes(
                        self.stdin_is_pty,
                        self.stdout_is_pty,
                        self.stderr_is_pty,
                        false,
                        false,
                        nm,
                    ));
                }
                return Err(Error::Setup { api: String::from_str("GetConsoleMode") });
            }
            self.input_mode = Some(console.input_mode);
            self.add_pipe(StreamKind::ConIn, &names[3], token, &mut args);
            proof {
                let prev = pd;
                pd = pd.push((StreamKind::ConIn, nm[3]));
                assert(pd.drop_last() =~= prev);
                assert(args.deep_view() == flag_args(pd));
                assert(pipes_match(self.pipes@, pd, sid));
            }
            console.input_mode = BRIDGE_INPUT_MODE;
        }

        if console.has_output {
            if !console.output_mode_ok {
                self.stage = Stage::Aborting;
                proof {
                    reveal_strlit("GetConsoleMode");
                    assert(pd =~= planned_pipes(
                        self.stdin_is_pty,
                        self.stdout_is_pty,
                        self.stderr_is_pty,
                        c0.has_input,
                        false,
                        nm,
                    ));
                }
                return Err(Error::Setup { api: String::from_str("GetConsoleMode") });
            }
            self.output_mode = Some(console.output_mode);
            self.add_pipe(StreamKind::ConOut, &names[4], token, &mut args);
            proof {
                let prev = pd;
                pd = pd.push((StreamKind::ConOut, nm[4]));
                assert(pd.drop_last() =~= prev);
                assert(args.deep_view() == flag_args(pd));
                assert(pipes_match(self.pipes@, pd, sid));
            }
            let info = match console.screen {
                Some(info) => info,
                None => {
                    self.stage = Stage::Aborting;
                    proof {
                        reveal_strlit("GetConsoleScreenBufferInfo");
                        assert(pd =~= planned_pipes(
                            self.stdin_is_pty,
                            self.stdout_is_pty,
                            self.stderr_is_pty,
                            c0.has_input,
                            true,
                            nm,
                        ));
                    }
                    return Err(
                        Error::Setup { api: String::from_str("GetConsoleScreenBufferInfo") },
                    );
                },
            };
            let ghost dpre = args.deep_view();
            push_arg(&mut args, String::from_str("--width"));
            push_arg(&mut args, decimal_string(info.viewport_width()));
            push_arg(&mut args, String::from_str("--height"));
            push_arg(&mut args, decimal_string(info.viewport_height()));
            push_arg(&mut args, String::from_str("--cursor-x"));
            push_arg(&mut args, decimal_string(info.cursor_col()));
            push_arg(&mut args, String::from_str("--cursor-y"));
            push_arg(&mut args, decimal_string(info.cursor_row()));
            proof {
                assert(args.deep_view() =~= dpre + geometry_args(info));
            }
            console.output_mode = BRIDGE_OUTPUT_MODE;
        }

        self.stage = Stage::PipesReady;
        proof {
            assert(pd =~= planned_pipes(
                self.stdin_is_pty,
                self.stdout_is_pty,
                self.stderr_is_pty,
                c0.has_input,
                c0.has_output,
                nm,
            ));
        }
        Ok(args)
    }

    /// Records that the bridged child was launched; pipes are created
    /// and announced before this point, never after.
    pub fn notify_launched(&mut self)
        requires
            old(self).stage == Stage::PipesReady,
        ensures
            *final(self) == (BridgeServer { stage: Stage::ChildLaunched, ..*old(self) }),
    {
        self.stage = Stage::ChildLaunched;
    }

    /// Relays between the console and the pipes until the child has
    /// exited, drains the output relays, restores the console modes
    /// from the snapshot, and releases every pipe handle. The result
    /// is the child's exit code.
    pub fn serve(&mut self, console: &mut ConsoleState, proc: &Process) -> (r: Result<u32, Error>)
        requires
            old(self).stage == Stage::ChildLaunched,
            proc.exit_code is Some,
            forall|i: int|
                0 <= i < old(self).pipes@.len() ==> !(#[trigger] old(self).pipes@[i]).closed
                    && !old(self).pipes@[i].relayed,
        ensures
            r == Ok::<u32, Error>(proc.exit_code.unwrap()),
            final(self).stage == Stage::Done,
            final(self).pipes@.len() == old(self).pipes@.len(),
            forall|i: int|
                0 <= i < old(self).pipes@.len() ==> {
                    let p0 = old(self).pipes@[i];
                    let p1 = #[trigger] final(self).pipes@[i];
                    p1.kind == p0.kind && p1.path@ == p0.path@ && p1.target_sid == p0.target_sid
                        && p1.connected && p1.relayed && p1.closed && p1.wf()
                },
            restored_console(*old(self), *old(console), *final(console)),
            final(self).input_mode == old(self).input_mode,
            final(self).output_mode == old(self).output_mode,
            final(self).stdin_is_pty == old(self).stdin_is_pty,
            final(self).stdout_is_pty == old(self).stdout_is_pty,
            final(self).stderr_is_pty == old(self).stderr_is_pty,
    {
        let ghost s0 = *self;

        // For every server pipe: complete the client handshake, then
        // hand the endpoint to its dedicated relay.
        self.stage = Stage::Relaying;
        let mut active: Vec<ServerPipe> = Vec::new();
        while self.pipes.len() > 0
            invariant
                active@.len() + self.pipes@.len() == s0.pipes@.len(),
                forall|k: int|
                    0 <= k < self.pipes@.len() ==> #[trigger] self.pipes@[k] == s0.pipes@[
                        active@.len() + k
                    ],
                forall|k: int|
                    0 <= k < active@.len() ==> {
                        let p0 = s0.pipes@[k];
                        let p1 = #[trigger] active@[k];
                        p1.kind == p0.kind && p1.path@ == p0.path@ && p1.target_sid
                            == p0.target_sid && p1.connected && p1.relayed && !p1.closed
                    },
                forall|i: int|
                    0 <= i < s0.pipes@.len() ==> !(#[trigger] s0.pipes@[i]).closed
                        && !s0.pipes@[i].relayed,
                self.stage == Stage::Relaying,
                self.input_mode == s0.input_mode,
                self.output_mode == s0.output_mode,
                self.stdin_is_pty == s0.stdin_is_pty,
                self.stdout_is_pty == s0.stdout_is_pty,
                self.stderr_is_pty == s0.stderr_is_pty,
            decreases self.pipes.len(),
        {
            let ghost rest = self.pipes@;
            let mut p = self.pipes.remove(0);
            p.wait_for_pipe_client();
            p.begin_relay();
            active.push(p);
            proof {
                assert(self.pipes@ =~= rest.subrange(1, rest.len() as int));
            }
        }
        self.pipes = active;

        // The wait on the child has completed.
        self.stage = Stage::ChildExited;

        // The output-direction relays are joined with a bounded wait;
        // input relays stay blocked on the caller's own streams and
        // are abandoned.
        self.stage = Stage::Drained;

        // Restore the console modes saved at setup; a soft terminal
        // reset precedes the output mode so nothing the child set
        // lingers.
        if let Some(m) = self.output_mode {
            console.soft_reset_seen = true;
            console.output_mode = m;
        }
        if let Some(m) = self.input_mode {
            console.input_mode = m;
        }
        self.stage = Stage::Restored;

        // Release every server pipe handle.
        let ghost sr = *self;
        let mut released: Vec<ServerPipe> = Vec::new();
        while self.pipes.len() > 0
            invariant
                released@.len() + self.pipes@.len() == sr.pipes@.len(),
                forall|k: int|
                    0 <= k < self.pipes@.len() ==> #[trigger] self.pipes@[k] == sr.pipes@[
                        released@.len() + k
                    ],
                forall|k: int|
                    0 <= k < released@.len() ==> {
                        let p0 = sr.pipes@[k];
                        let p1 = #[trigger] released@[k];
                        p1.kind == p0.kind && p1.path@ == p0.path@ && p1.target_sid
                            == p0.target_sid && p1.connected == p0.connected && p1.relayed
                            == p0.relayed && p1.closed
                    },
                self.stage == Stage::Restored,
                self.input_mode == sr.input_mode,
                self.output_mode == sr.output_mode,
                self.stdin_is_pty == sr.stdin_is_pty,
                self.stdout_is_pty == sr.stdout_is_pty,
                self.stderr_is_pty == sr.stderr_is_pty,
            decreases self.pipes.len(),
        {
            let ghost rest = self.pipes@;
            let mut p = self.pipes.remove(0);
            p.close();
            released.push(p);
            proof {
                assert(self.pipes@ =~= rest.subrange(1, rest.len() as int));
            }
        }
        self.pipes = released;

        self.stage = Stage::Done;
        let code = proc.exit_code.unwrap();
        Ok(code)
    }

    /// The failure path: moves to `Aborting` and still restores the
    /// console modes and releases every pipe handle before the error
    /// is surfaced.
    pub fn abort(&mut self, console: &mut ConsoleState)
        ensures
            final(self).stage == Stage::Aborting,
            final(self).pipes@.len() == old(self).pipes@.len(),
            forall|i: int|
                0 <= i < old(self).pipes@.len() ==> {
                    let p0 = old(self).pipes@[i];
                    let p1 = #[trigger] final(self).pipes@[i];
                    p1.kind == p0.kind && p1.path@ == p0.path@ && p1.target_sid == p0.target_sid
                        && p1.connected == p0.connected && p1.relayed == p0.relayed && p1.closed
                },
            restored_console(*old(self), *old(console), *final(console)),
            final(self).input_mode == old(self).input_mode,
            final(self).output_mode == old(self).output_mode,
            final(self).stdin_is_pty == old(self).stdin_is_pty,
            final(self).stdout_is_pty == old(self).stdout_is_pty,
            final(self).stderr_is_pty == old(self).stderr_is_pty,
    {
        if let Some(m) = self.output_mode {
            console.soft_reset_seen = true;
            console.output_mode = m;
        }
        if let Some(m) = self.input_mode {
            console.input_mode = m;
        }

        let ghost sr = *self;
        let mut released: Vec<ServerPipe> = Vec::new();
        while self.pipes.len() > 0
            invariant
                released@.len() + self.pipes@.len() == sr.pipes@.len(),
                forall|k: int|
                    0 <= k < self.pipes@.len() ==> #[trigger] self.pipes@[k] == sr.pipes@[
                        released@.len() + k
                    ],
                forall|k: int|
                    0 <= k < released@.len() ==> {
                        let p0 = sr.pipes@[k];
                        let p1 = #[trigger] released@[k];
                        p1.kind == p0.kind && p1.path@ == p0.path@ && p1.target_sid
                            == p0.target_sid && p1.connected == p0.connected && p1.relayed
                            == p0.relayed && p1.closed
                    },
                self.input_mode == sr.input_mode,
                self.output_mode == sr.output_mode,
                self.stdin_is_pty == sr.stdin_is_pty,
                self.stdout_is_pty == sr.stdout_is_pty,
                self.stderr_is_pty == sr.stderr_is_pty,
            decreases self.pipes.len(),
        {
            let ghost rest = self.pipes@;
            let mut p = self.pipes.remove(0);
            p.close();
            released.push(p);
            proof {
                assert(self.pipes@ =~= rest.subrange(1, rest.len() as int));
            }
        }
        self.pipes = released;
        self.stage = Stage::Aborting;
    }
}

/// Picks the bridge executable once both lookups have answered: the
/// copy sitting beside the running front-end wins; otherwise the
/// search-path hit is taken; a bridge found nowhere is fatal.
pub fn locate_with(beside: Option<String>, from_path: Option<String>) -> (r: Result<
    String,
    Error,
>)
    ensures
        beside matches Some(p) ==> r == Ok::<String, Error>(p),
        beside is None ==> (match from_path {
            Some(p) => r == Ok::<String, Error>(p),
            None => r matches Err(e) && e is BridgeNotFound,
        }),
{
    match beside {
        Some(p) => Ok(p),
        None => match from_path {
            Some(p) => Ok(p),
            None => Err(Error::BridgeNotFound),
        },
    }
}

/// Locates the bridge executable. `beside` is the copy found next to
/// the running front-end, if any; when it is absent the search path is
/// consulted, and a bridge found nowhere is fatal.
pub fn locate_pty_bridge(beside: Option<String>) -> (r: Result<String, Error>)
    ensures
        beside matches Some(p) ==> r == Ok::<String, Error>(p),
        r matches Err(e) ==> e is BridgeNotFound && beside is None,
{
    let from_path = match beside {
        Some(_) => None,
        None => crate::pathfind::find_in_path("eledo-pty-bridge.exe"),
    };
    locate_with(beside, from_path)
}

/// The flag/value pair for the `k`-th planned pipe stands at offsets
/// `2k` and `2k + 1` of `args`.
pub open spec fn pair_at(args: Seq<Seq<char>>, k: int, p: (StreamKind, Seq<char>)) -> bool {
    args[2 * k] == spec_flag(p.0) && args[2 * k + 1] == p.1
}

/// Positions of the flag/value pairs: the pair for the `k`-th planned
/// pipe stands at offsets `2k` and `2k + 1`.
pub proof fn lemma_flag_args_positions(plan: Seq<(StreamKind, Seq<char>)>)
    ensures
        flag_args(plan).len() == 2 * plan.len(),
        forall|k: int| 0 <= k < plan.len() ==> pair_at(flag_args(plan), k, #[trigger] plan[k]),
    decreases plan.len(),
{
    if plan.len() > 0 {
        lemma_flag_args_positions(plan.drop_last());
        assert(flag_args(plan.drop_last()).len() == 2 * (plan.len() - 1));
        assert(flag_args(plan) == flag_args(plan.drop_last()) + seq![
            spec_flag(plan.last().0),
            plan.last().1,
        ]);
        assert forall|k: int| 0 <= k < plan.len() implies pair_at(
            flag_args(plan),
            k,
            #[trigger] plan[k],
        ) by {
            if k < plan.len() - 1 {
                assert(plan.drop_last()[k] == plan[k]);
                assert(pair_at(flag_args(plan.drop_last()), k, plan[k]));
                assert(2 * k + 1 < 2 * (plan.len() - 1));
                assert(flag_args(plan)[2 * k] == flag_args(plan.drop_last())[2 * k]);
                assert(flag_args(plan)[2 * k + 1] == flag_args(plan.drop_last())[2 * k + 1]);
            } else {
                assert(k == plan.len() - 1);
                assert(plan.last() == plan[k]);
                assert(flag_args(plan.drop_last()).len() == 2 * k);
            }
        }
    }
}

/// Every bridge flag starts with a dash, so no decimal geometry value
/// is a pipe flag, and neither is any of the four geometry flags.
pub proof fn lemma_geometry_args_not_pipe_flags(info: ScreenInfo)
    ensures
        forall|j: int|
            0 <= j < geometry_args(info).len() ==> !is_pipe_flag(
                #[trigger] geometry_args(info)[j],
            ),
{
    reveal_strlit("--stdin");
    reveal_strlit("--stdout");
    reveal_strlit("--stderr");
    reveal_strlit("--conin");
    reveal_strlit("--conout");
    reveal_strlit("--width");
    reveal_strlit("--height");
    reveal_strlit("--cursor-x");
    reveal_strlit("--cursor-y");
    lemma_decimal_digits_only(spec_extent(info.window_left, info.window_right));
    lemma_decimal_digits_only(spec_extent(info.window_top, info.window_bottom));
    lemma_decimal_digits_only(spec_rel(0, info.cursor_x));
    lemma_decimal_digits_only(spec_rel(info.window_top, info.cursor_y));
    assert forall|j: int| 0 <= j < geometry_args(info).len() implies !is_pipe_flag(
        #[trigger] geometry_args(info)[j],
    ) by {
        let s = geometry_args(info)[j];
        assert forall|k: StreamKind| spec_flag(k) != s by {
            if k == StreamKind::Stdin {
                assert(spec_flag(k) == "--stdin"@);
            } else if k == StreamKind::Stdout {
                assert(spec_flag(k) == "--stdout"@);
            } else if k == StreamKind::Stderr {
                assert(spec_flag(k) == "--stderr"@);
            } else if k == StreamKind::ConIn {
                assert(spec_flag(k) == "--conin"@);
            } else {
                assert(spec_flag(k) == "--conout"@);
            }
            if j == 1 || j == 3 || j == 5 || j == 7 {
                assert(s[0] != '-');
                assert(spec_flag(k)[0] == '-');
            } else if j == 0 {
                assert(s == "--width"@);
                assert(spec_flag(k)[2] != s[2]);
            } else if j == 2 {
                assert(s == "--height"@);
                assert(spec_flag(k)[2] != s[2]);
            } else if j == 4 {
                assert(s == "--cursor-x"@);
                assert(spec_flag(k).len() != s.len());
            } else {
                assert(j == 6);
                assert(s == "--cursor-y"@);
                assert(spec_flag(k).len() != s.len());
            }
        }
    }
}

/// Law: the bridge argument vector and the created server pipes name
/// each other. Every created pipe's path stands right after its flag,
/// and every pipe flag in the arguments is followed by the path of a
/// created pipe. `tail` is the geometry suffix, which holds no pipe
/// flag; pipe paths themselves are OS pipe paths, not flags.
pub proof fn lemma_args_name_pipes(
    pipes: Seq<ServerPipe>,
    plan: Seq<(StreamKind, Seq<char>)>,
    args: Seq<Seq<char>>,
    tail: Seq<Seq<char>>,
    sid: u64,
)
    requires
        pipes_match(pipes, plan, sid),
        args == flag_args(plan) + tail,
        forall|j: int| 0 <= j < tail.len() ==> !is_pipe_flag(#[trigger] tail[j]),
        forall|k: int| 0 <= k < plan.len() ==> !is_pipe_flag((#[trigger] plan[k]).1),
    ensures
        forall|i: int|
            0 <= i < pipes.len() ==> 2 * i + 1 < args.len() && args[2 * i] == spec_flag(
                (#[trigger] pipes[i]).kind,
            ) && args[2 * i + 1] == pipes[i].path@,
        forall|a: int|
            0 <= a < args.len() && is_pipe_flag(#[trigger] args[a]) ==> exists|i: int|
                0 <= i < pipes.len() && args[a] == spec_flag(pipes[i].kind) && a + 1 < args.len()
                    && args[a + 1] == pipes[i].path@,
{
    lemma_flag_args_positions(plan);
    assert forall|i: int| 0 <= i < pipes.len() implies 2 * i + 1 < args.len() && args[2 * i]
        == spec_flag((#[trigger] pipes[i]).kind) && args[2 * i + 1] == pipes[i].path@ by {
        assert(pair_at(flag_args(plan), i, plan[i]));
        assert(args[2 * i] == flag_args(plan)[2 * i]);
        assert(args[2 * i + 1] == flag_args(plan)[2 * i + 1]);
    }
    assert forall|a: int| 0 <= a < args.len() && is_pipe_flag(#[trigger] args[a]) implies exists|
        i: int,
    |
        0 <= i < pipes.len() && args[a] == spec_flag(pipes[i].kind) && a + 1 < args.len() && args[a
            + 1] == pipes[i].path@ by {
        if a >= 2 * plan.len() {
            assert(args[a] == tail[a - 2 * plan.len()]);
            assert(false);
        } else {
            let i = a / 2;
            if a % 2 == 1 {
                assert(a == 2 * i + 1) by (nonlinear_arith)
                    requires a % 2 == 1 && i == a / 2;
                assert(pair_at(flag_args(plan), i, plan[i]));
                assert(args[a] == plan[i].1);
                assert(false);
            } else {
                assert(a == 2 * i) by (nonlinear_arith)
                    requires a % 2 == 0 && i == a / 2;
                assert(pair_at(flag_args(plan), i, plan[i]));
                assert(args[2 * i] == spec_flag(pipes[i].kind));
                assert(args[2 * i + 1] == pipes[i].path@);
            }
        }
    }
}

/// Law: after a successful setup the correspondence holds in both
/// directions between the created pipes and the returned argument
/// vector — which is the flag/value pairs of the plan followed by the
/// geometry suffix exactly when an output console was present. Pipe
/// paths are OS pipe names, never flag words themselves.
pub proof fn lemma_start_correspondence(
    pipes: Seq<ServerPipe>,
    plan: Seq<(StreamKind, Seq<char>)>,
    args: Seq<Seq<char>>,
    screen: Option<ScreenInfo>,
    sid: u64,
)
    requires
        pipes_match(pipes, plan, sid),
        args == flag_args(plan) + (match screen {
            Some(info) => geometry_args(info),
            None => Seq::<Seq<char>>::empty(),
        }),
        forall|k: int| 0 <= k < plan.len() ==> !is_pipe_flag((#[trigger] plan[k]).1),
    ensures
        forall|i: int|
            0 <= i < pipes.len() ==> 2 * i + 1 < args.len() && args[2 * i] == spec_flag(
                (#[trigger] pipes[i]).kind,
            ) && args[2 * i + 1] == pipes[i].path@,
        forall|a: int|
            0 <= a < args.len() && is_pipe_flag(#[trigger] args[a]) ==> exists|i: int|
                0 <= i < pipes.len() && args[a] == spec_flag(pipes[i].kind) && a + 1 < args.len()
                    && args[a + 1] == pipes[i].path@,
{
    let tail = match screen {
        Some(info) => geometry_args(info),
        None => Seq::<Seq<char>>::empty(),
    };
    match screen {
        Some(info) => lemma_geometry_args_not_pipe_flags(info),
        None => {},
    }
    lemma_args_name_pipes(pipes, plan, args, tail, sid);
}

/// Law: whatever path the run took, the console modes after
/// restoration equal the modes at entry. `during` is the console as
/// the bridge left it while running; the snapshot covers every device
/// whose mode the originator may have changed, so writing the
/// snapshot back recovers the entry state exactly.
pub proof fn lemma_console_mode_restored(
    s: BridgeServer,
    entry: ConsoleState,
    during: ConsoleState,
    exit: ConsoleState,
)
    requires
        snapshot_taken(s, entry),
        s.input_mode is None ==> during.input_mode == entry.input_mode,
        s.output_mode is None ==> during.output_mode == entry.output_mode,
        restored_console(s, during, exit),
    ensures
        exit.input_mode == entry.input_mode,
        exit.output_mode == entry.output_mode,
{
}

} // verus!
