use crate::privilege::PrivilegeLevel;
use crate::Error;
use vstd::prelude::*;

verus! {

/// Which way the front-end moves the child across the privilege
/// boundary.
#[derive(Clone, Copy, PartialEq, Eq, Structural, Debug)]
pub enum Direction {
    /// Run the child elevated.
    Elevate,
    /// Run the child at medium integrity.
    DeElevate,
}

/// Where the token the child runs under comes from.
#[derive(Clone, Copy, PartialEq, Eq, Structural, Debug)]
pub enum TokenSource {
    /// The caller's own token, unchanged.
    CallerToken,
    /// The medium-integrity restricted token derived from the caller's.
    DeriveMedium,
    /// The token of the interactive shell process.
    ShellProcess,
}

/// How the child is spawned.
#[derive(Clone, Copy, PartialEq, Eq, Structural, Debug)]
pub enum SpawnRoute {
    /// Spawn the target directly under the chosen token; no bridge
    /// child, no pipes, no console-mode changes.
    Direct,
    /// Launch the bridge child through the OS shell-execute with the
    /// `runas` verb; the OS asks for consent and picks the identity.
    BridgedRunas,
}

/// The front-end's decision: the route, and the token source for a
/// direct spawn. A bridged spawn carries no token, so its source is
/// `None`.
#[derive(Clone, Copy, PartialEq, Eq, Structural, Debug)]
pub struct LaunchPlan {
    pub route: SpawnRoute,
    pub source: Option<TokenSource>,
}

/// The direction-selection rule. An elevation crossing the caller
/// cannot perform itself — an unprivileged caller wanting an elevated
/// child — takes the bridged consent path; every other combination
/// spawns directly. A de-elevating front-end derives the medium
/// token, except that a caller elevated beyond high integrity
/// transitions into the interactive shell's own context.
pub open spec fn spec_plan(direction: Direction, level: PrivilegeLevel) -> LaunchPlan {
    match direction {
        Direction::Elevate => match level {
            PrivilegeLevel::NotPrivileged => LaunchPlan {
                route: SpawnRoute::BridgedRunas,
                source: None,
            },
            PrivilegeLevel::HighIntegrityAdmin => LaunchPlan {
                route: SpawnRoute::Direct,
                source: Some(TokenSource::CallerToken),
            },
            PrivilegeLevel::Elevated => LaunchPlan {
                route: SpawnRoute::Direct,
                source: Some(TokenSource::CallerToken),
            },
        },
        Direction::DeElevate => match level {
            PrivilegeLevel::NotPrivileged => LaunchPlan {
                route: SpawnRoute::Direct,
                source: Some(TokenSource::DeriveMedium),
            },
            PrivilegeLevel::HighIntegrityAdmin => LaunchPlan {
                route: SpawnRoute::Direct,
                source: Some(TokenSource::DeriveMedium),
            },
            PrivilegeLevel::Elevated => LaunchPlan {
                route: SpawnRoute::Direct,
                source: Some(TokenSource::ShellProcess),
            },
        },
    }
}

/// Chooses the spawn route and token source for a front-end running
/// at `level`.
pub fn plan(direction: Direction, level: PrivilegeLevel) -> (p: LaunchPlan)
    ensures
        p == spec_plan(direction, level),
{
    match direction {
        Direction::Elevate => match level {
            PrivilegeLevel::NotPrivileged => LaunchPlan {
                route: SpawnRoute::BridgedRunas,
                source: None,
            },
            PrivilegeLevel::HighIntegrityAdmin => LaunchPlan {
                route: SpawnRoute::Direct,
                source: Some(TokenSource::CallerToken),
            },
            PrivilegeLevel::Elevated => LaunchPlan {
                route: SpawnRoute::Direct,
                source: Some(TokenSource::CallerToken),
            },
        },
        Direction::DeElevate => match level {
            PrivilegeLevel::NotPrivileged => LaunchPlan {
                route: SpawnRoute::Direct,
                source: Some(TokenSource::DeriveMedium),
            },
            PrivilegeLevel::HighIntegrityAdmin => LaunchPlan {
                route: SpawnRoute::Direct,
                source: Some(TokenSource::DeriveMedium),
            },
            PrivilegeLevel::Elevated => LaunchPlan {
                route: SpawnRoute::Direct,
                source: Some(TokenSource::ShellProcess),
            },
        },
    }
}

/// Law: a caller already at the requested privilege level takes the
/// direct path — the elevating front-end under an elevated caller,
/// and the de-elevating front-end under an unprivileged caller. The
/// direct route builds no bridge child and hands the spawn no bridge
/// arguments, so no pipe is created and no console mode is touched;
/// and the rule is a function of direction and level alone, so
/// successive invocations decide identically.
pub proof fn lemma_already_at_level_is_direct(direction: Direction, level: PrivilegeLevel)
    requires
        direction == Direction::Elevate ==> level != PrivilegeLevel::NotPrivileged,
        direction == Direction::DeElevate ==> level == PrivilegeLevel::NotPrivileged,
    ensures
        spec_plan(direction, level).route == SpawnRoute::Direct,
        spec_plan(direction, level).source is Some,
{
}

/// Law: the bridged consent path is taken exactly by the elevating
/// front-end under an unprivileged caller, and it never carries a
/// token — the OS picks the identity through the consent prompt.
pub proof fn lemma_bridge_only_for_elevation(direction: Direction, level: PrivilegeLevel)
    ensures
        spec_plan(direction, level).route == SpawnRoute::BridgedRunas <==> direction
            == Direction::Elevate && level == PrivilegeLevel::NotPrivileged,
        spec_plan(direction, level).route == SpawnRoute::BridgedRunas ==> spec_plan(
            direction,
            level,
        ).source is None,
{
}

/// The front-end's exit code: the child's own code when the child was
/// launched, and `1` when it could not be.
pub fn frontend_exit_code(child: Option<u32>) -> (r: u32)
    ensures
        child matches Some(c) ==> r == c,
        child is None ==> r == 1,
{
    match child {
        Some(c) => c,
        None => 1,
    }
}

/// Replaces the command word by the path the search found, once the
/// search's answer is in hand: an empty argument vector is a usage
/// error, a missed search is a lookup error, and otherwise the result
/// is the argument vector with its first element replaced by the
/// found path.
pub fn resolve_with(argv: Vec<String>, found: Option<String>) -> (r: Result<Vec<String>, Error>)
    ensures
        argv@.len() == 0 ==> (r matches Err(e) && e is Usage),
        argv@.len() > 0 ==> (match found {
            Some(p) => r matches Ok(out) && out.deep_view() == argv.deep_view().update(0, p@),
            None => r matches Err(e) && e is NotFoundInPath,
        }),
{
    if argv.len() == 0 {
        return Err(Error::Usage);
    }
    match found {
        None => Err(Error::NotFoundInPath),
        Some(p) => {
            let ghost a0 = argv.deep_view();
            let ghost pv = p@;
            let mut out = argv;
            out.set(0, p);
            proof {
                assert(out.deep_view() =~= a0.update(0, pv));
            }
            Ok(out)
        },
    }
}

/// Resolves the command word of `argv` on the search path and
/// replaces it by the absolute path found there: an empty vector is a
/// usage error, a command the search cannot find is a lookup error,
/// and otherwise only the first element changes.
pub fn resolve_target(argv: Vec<String>) -> (r: Result<Vec<String>, Error>)
    ensures
        argv@.len() == 0 ==> (r matches Err(e) && e is Usage),
        r matches Err(e) ==> (e is Usage && argv@.len() == 0) || (e is NotFoundInPath
            && argv@.len() > 0),
        r matches Ok(out) ==> argv@.len() > 0 && out.deep_view().len() == argv.deep_view().len()
            && (forall|i: int|
            1 <= i < argv.deep_view().len() ==> #[trigger] out.deep_view()[i]
                == argv.deep_view()[i]),
{
    if argv.len() == 0 {
        return Err(Error::Usage);
    }
    let found = crate::pathfind::find_in_path(argv[0].as_str());
    resolve_with(argv, found)
}

} // verus!
