//! Choosing the executable and the flags the game is started with, and the
//! decisions of a launch.
//!
//! Looking at the file system and starting the process are the caller's
//! part. The caller reports what it saw as a [`LaunchEvent`]; the state that
//! [`launch_step`] returns tells it what to do next.

use crate::app_config::{AppConfig, Renderer, ShadowMapSize};
use vstd::prelude::*;

verus! {

/// Why the game was not started.
#[derive(Debug, Clone, PartialEq, Eq)]
pub enum LaunchError {
    /// There is no file at the executable's path.
    ExecutableNotFound,
    /// The process could not be created; the text says why.
    Unknown(String),
}

/// What the name of an executable carries behind the renderer: `AVX` for the
/// build that uses AVX instructions, nothing for the plain build.
pub open spec fn spec_avx_suffix(use_avx: bool) -> Seq<char> {
    if use_avx {
        "AVX"@
    } else {
        Seq::empty()
    }
}

/// The executable for a renderer, relative to the game's directory:
/// `bin/Anomaly`, the renderer's name, `AVX` where the AVX build is asked
/// for, and `.exe`.
pub open spec fn spec_resolve(renderer: Renderer, use_avx: bool) -> Seq<char> {
    "bin/Anomaly"@ + renderer.spec_name() + spec_avx_suffix(use_avx) + ".exe"@
}

/// The path of the executable for a renderer, relative to the game's
/// directory. With `use_avx` set it is the AVX build, else the plain one.
pub fn resolve(renderer: Renderer, use_avx: bool) -> (path: &'static str)
    ensures
        path@ == spec_resolve(renderer, use_avx),
{
    proof {
        reveal_strlit("bin/Anomaly");
        reveal_strlit("AVX");
        reveal_strlit(".exe");
        reveal_strlit("DX8");
        reveal_strlit("DX9");
        reveal_strlit("DX10");
        reveal_strlit("DX11");
        reveal_strlit("bin/AnomalyDX8.exe");
        reveal_strlit("bin/AnomalyDX8AVX.exe");
        reveal_strlit("bin/AnomalyDX9.exe");
        reveal_strlit("bin/AnomalyDX9AVX.exe");
        reveal_strlit("bin/AnomalyDX10.exe");
        reveal_strlit("bin/AnomalyDX10AVX.exe");
        reveal_strlit("bin/AnomalyDX11.exe");
        reveal_strlit("bin/AnomalyDX11AVX.exe");
    }
    let path = match (renderer, use_avx) {
        (Renderer::DX8, false) => "bin/AnomalyDX8.exe",
        (Renderer::DX8, true) => "bin/AnomalyDX8AVX.exe",
        (Renderer::DX9, false) => "bin/AnomalyDX9.exe",
        (Renderer::DX9, true) => "bin/AnomalyDX9AVX.exe",
        (Renderer::DX10, false) => "bin/AnomalyDX10.exe",
        (Renderer::DX10, true) => "bin/AnomalyDX10AVX.exe",
        (Renderer::DX11, false) => "bin/AnomalyDX11.exe",
        (Renderer::DX11, true) => "bin/AnomalyDX11AVX.exe",
    };
    assert(path@ =~= spec_resolve(renderer, use_avx));
    path
}

/// No executable path is empty, and two different choices of renderer and
/// AVX build never share a path: the eight paths are eight files.
pub proof fn lemma_resolve_distinct(
    renderer: Renderer,
    use_avx: bool,
    other_renderer: Renderer,
    other_use_avx: bool,
)
    ensures
        spec_resolve(renderer, use_avx).len() > 0,
        spec_resolve(renderer, use_avx) == spec_resolve(other_renderer, other_use_avx) ==> renderer
            == other_renderer && use_avx == other_use_avx,
{
    reveal_strlit("bin/Anomaly");
    reveal_strlit("AVX");
    reveal_strlit(".exe");
    reveal_strlit("DX8");
    reveal_strlit("DX9");
    reveal_strlit("DX10");
    reveal_strlit("DX11");
    let path = spec_resolve(renderer, use_avx);
    let other = spec_resolve(other_renderer, other_use_avx);
    if path == other {
        // The renderer's digits stand at 13 and 14; the length tells the
        // AVX build from the plain one.
        assert(path.len() == other.len());
        assert(path[13] == other[13]);
        assert(path[14] == other[14]);
    }
}

/// The flag that hands the shadow map's size to the game: `-smap` and the
/// size in digits.
pub open spec fn spec_shadow_map_flag(size: ShadowMapSize) -> Seq<char> {
    "-smap"@ + size.spec_label()
}

/// The flags the game is started with: the shadow map's size first, then
/// `-dbg` where debugging is on, then `-prefetch_sounds` where prefetching
/// is on.
pub open spec fn spec_launch_args(config: AppConfig) -> Seq<Seq<char>> {
    seq![spec_shadow_map_flag(config.shadow_map)] + (if config.debug {
        seq!["-dbg"@]
    } else {
        Seq::empty()
    }) + (if config.prefetch_sounds {
        seq!["-prefetch_sounds"@]
    } else {
        Seq::empty()
    })
}

/// The characters of each text of a list.
pub open spec fn arg_texts(args: Seq<String>) -> Seq<Seq<char>> {
    args.map_values(|arg: String| arg@)
}

/// The flag that hands the shadow map's size to the game.
pub fn shadow_map_flag(size: ShadowMapSize) -> (flag: &'static str)
    ensures
        flag@ == spec_shadow_map_flag(size),
{
    proof {
        reveal_strlit("-smap");
        reveal_strlit("1536");
        reveal_strlit("2048");
        reveal_strlit("2560");
        reveal_strlit("3072");
        reveal_strlit("4096");
        reveal_strlit("-smap1536");
        reveal_strlit("-smap2048");
        reveal_strlit("-smap2560");
        reveal_strlit("-smap3072");
        reveal_strlit("-smap4096");
    }
    let flag = match size {
        ShadowMapSize::Size1536 => "-smap1536",
        ShadowMapSize::Size2048 => "-smap2048",
        ShadowMapSize::Size2560 => "-smap2560",
        ShadowMapSize::Size3072 => "-smap3072",
        ShadowMapSize::Size4096 => "-smap4096",
    };
    assert(flag@ =~= spec_shadow_map_flag(size));
    flag
}

/// The flags the game is started with, in order.
pub fn launch_args(config: &AppConfig) -> (args: Vec<String>)
    ensures
        arg_texts(args@) == spec_launch_args(*config),
{
    let mut args: Vec<String> = Vec::new();
    args.push(shadow_map_flag(config.shadow_map).to_owned());
    if config.debug {
        args.push("-dbg".to_owned());
    }
    if config.prefetch_sounds {
        args.push("-prefetch_sounds".to_owned());
    }
    assert(arg_texts(args@) =~= spec_launch_args(*config));
    args
}

impl LaunchError {
    /// The message for the user.
    pub open spec fn spec_message(self) -> Seq<char> {
        match self {
            LaunchError::ExecutableNotFound => "Executable not found"@,
            LaunchError::Unknown(detail) => "Unknown error occurred: "@ + detail@,
        }
    }

    /// The message for the user.
    pub fn message(&self) -> (message: String)
        ensures
            message@ == self.spec_message(),
    {
        match self {
            LaunchError::ExecutableNotFound => "Executable not found".to_owned(),
            LaunchError::Unknown(detail) => {
                let mut message = "Unknown error occurred: ".to_owned();
                message.append(detail.as_str());
                message
            },
        }
    }
}

/// How far a launch has come.
#[derive(Debug, PartialEq, Eq)]
pub enum LaunchState {
    /// The executable's path is known; whether a file is there is to be
    /// looked up.
    Resolved,
    /// The file is there; the process is to be created.
    Spawning,
    /// The process was created. The launcher does not wait for it.
    Launched,
    /// The launch was given up.
    Failed(LaunchError),
}

/// What the caller saw.
#[derive(Debug, PartialEq, Eq)]
pub enum LaunchEvent {
    /// Whether there is a file at the executable's path.
    PathChecked { exists: bool },
    /// What creating the process gave: `None` for success, else the
    /// system's words.
    SpawnReturned { failure: Option<String> },
}

/// The state after an event. A missing file ends the launch before any
/// process is created; a process that cannot be created ends it with the
/// system's words. An event that does not answer the state's question
/// changes nothing.
pub open spec fn spec_launch_step(state: LaunchState, event: LaunchEvent) -> LaunchState {
    match (state, event) {
        (LaunchState::Resolved, LaunchEvent::PathChecked { exists }) => if exists {
            LaunchState::Spawning
        } else {
            LaunchState::Failed(LaunchError::ExecutableNotFound)
        },
        (LaunchState::Spawning, LaunchEvent::SpawnReturned { failure }) => match failure {
            None => LaunchState::Launched,
            Some(detail) => LaunchState::Failed(LaunchError::Unknown(detail)),
        },
        (state, _) => state,
    }
}

/// The state of a launch after the caller reports an event.
pub fn launch_step(state: LaunchState, event: LaunchEvent) -> (next: LaunchState)
    ensures
        next == spec_launch_step(state, event),
{
    match (state, event) {
        (LaunchState::Resolved, LaunchEvent::PathChecked { exists }) => {
            if exists {
                LaunchState::Spawning
            } else {
                LaunchState::Failed(LaunchError::ExecutableNotFound)
            }
        },
        (LaunchState::Spawning, LaunchEvent::SpawnReturned { failure }) => {
            match failure {
                None => LaunchState::Launched,
                Some(detail) => LaunchState::Failed(LaunchError::Unknown(detail)),
            }
        },
        (state, _) => state,
    }
}

/// The state after a run of events, taken in order.
pub open spec fn spec_launch_run(state: LaunchState, events: Seq<LaunchEvent>) -> LaunchState
    decreases events.len(),
{
    if events.len() == 0 {
        state
    } else {
        spec_launch_step(spec_launch_run(state, events.drop_last()), events.last())
    }
}

/// Once the executable was found missing, the launch stays failed with
/// `ExecutableNotFound` whatever is reported afterwards: it never comes to
/// the state in which a process is created.
pub proof fn lemma_missing_executable_never_spawns(events: Seq<LaunchEvent>)
    ensures
        spec_launch_run(
            spec_launch_step(LaunchState::Resolved, LaunchEvent::PathChecked { exists: false }),
            events,
        ) == LaunchState::Failed(LaunchError::ExecutableNotFound),
    decreases events.len(),
{
    if events.len() > 0 {
        lemma_missing_executable_never_spawns(events.drop_last());
    }
}

} // verus!
