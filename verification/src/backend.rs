//! Starting the backend process: whether one is started at all, and what
//! the shell keeps of the attempt.
//!
//! The host spawns the process and waits; this module decides. `H` is the
//! host's handle to a spawned process.

use vstd::prelude::*;
use crate::shell::Shell;

verus! {

/// How long the host waits after a successful spawn before it goes on, so
/// that the backend can come up.
pub const SETTLE_SECONDS: u64 = 2;

/// The configuration in which the shell runs.
#[derive(Clone, Copy, Debug, PartialEq, Eq, Structural)]
pub enum Mode {
    /// The backend is run by the developer, outside the shell.
    Development,
    /// The backend is bundled with the shell and supervised by it.
    Production,
}

/// What the supervisor does about the backend at launch.
#[derive(Clone, Copy, Debug, PartialEq, Eq, Structural)]
pub enum StartPlan {
    /// Nothing is spawned.
    Skip,
    /// The bundled executable is spawned from the resource directory.
    Spawn,
}

/// The next thing that setup asks of the host, or how setup ended.
#[derive(Debug)]
pub enum SetupStep<H> {
    /// Spawn the backend and report the result to `finish_setup`.
    SpawnBackend,
    /// Setup is complete.
    Ready(Startup<H>),
    /// Setup is abandoned, and the application with it.
    Abort(String),
}

/// A completed setup.
#[derive(Debug)]
pub struct Startup<H> {
    /// The shell, holding the backend's handle if one was spawned.
    pub shell: Shell<H>,
    /// Seconds to wait before the shell starts to serve events.
    pub settle_seconds: u64,
    /// The spawn failure to log, if there was one.
    pub spawn_failure: Option<String>,
}

/// The mode of a build, by whether it carries debug assertions.
pub open spec fn mode_of(debug_build: bool) -> Mode {
    if debug_build {
        Mode::Development
    } else {
        Mode::Production
    }
}

/// What is done about the backend in each mode.
pub open spec fn plan_of(mode: Mode) -> StartPlan {
    match mode {
        Mode::Development => StartPlan::Skip,
        Mode::Production => StartPlan::Spawn,
    }
}

/// Setup once the tray is built, or has failed to build. A tray failure
/// abandons setup before anything is decided about the backend.
pub open spec fn setup_begun<H>(mode: Mode, tray: Result<(), String>, step: SetupStep<H>) -> bool {
    match tray {
        Err(reason) => step == SetupStep::<H>::Abort(reason),
        Ok(_) => match plan_of(mode) {
            StartPlan::Spawn => step is SpawnBackend,
            StartPlan::Skip => {
                &&& step matches SetupStep::Ready(startup)
                &&& startup.shell.backend() is None
                &&& startup.settle_seconds == 0
                &&& startup.spawn_failure is None
            },
        },
    }
}

/// Setup once the host has tried to spawn the backend. It is complete
/// either way: with the handle and a wait, or with the failure to log.
pub open spec fn setup_finished<H>(spawned: Result<H, String>, step: SetupStep<H>) -> bool {
    &&& step matches SetupStep::Ready(startup)
    &&& match spawned {
        Ok(handle) => {
            &&& startup.shell.backend() == Some(handle)
            &&& startup.settle_seconds == SETTLE_SECONDS
            &&& startup.spawn_failure is None
        },
        Err(reason) => {
            &&& startup.shell.backend() is None
            &&& startup.settle_seconds == 0
            &&& startup.spawn_failure == Some(reason)
        },
    }
}

/// The mode of a build: development where it carries debug assertions.
pub fn mode_for(debug_build: bool) -> (r: Mode)
    ensures
        r == mode_of(debug_build),
{
    if debug_build {
        Mode::Development
    } else {
        Mode::Production
    }
}

/// The file name of the bundled backend inside the resource directory.
pub fn backend_executable() -> (r: &'static str)
    ensures
        r@ == "ab360-backend.exe"@,
{
    "ab360-backend.exe"
}

/// Decides whether the backend is spawned: never in development, always in
/// production.
pub fn start_backend(mode: Mode) -> (r: StartPlan)
    ensures
        r == plan_of(mode),
        mode is Development ==> r is Skip,
{
    match mode {
        Mode::Development => StartPlan::Skip,
        Mode::Production => StartPlan::Spawn,
    }
}

/// First step of setup, taken when the host has tried to build the tray.
pub fn begin_setup<H>(mode: Mode, tray: Result<(), String>) -> (r: SetupStep<H>)
    ensures
        setup_begun(mode, tray, r),
{
    match tray {
        Err(reason) => SetupStep::Abort(reason),
        Ok(_) => match start_backend(mode) {
            StartPlan::Spawn => SetupStep::SpawnBackend,
            StartPlan::Skip => SetupStep::Ready(
                Startup { shell: Shell::new(None), settle_seconds: 0, spawn_failure: None },
            ),
        },
    }
}

/// Last step of setup in production, taken when the host has tried to
/// spawn the backend. A failed spawn leaves the shell without a backend and
/// is handed on to be logged; it does not abandon setup.
pub fn finish_setup<H>(spawned: Result<H, String>) -> (r: SetupStep<H>)
    ensures
        setup_finished(spawned, r),
{
    match spawned {
        Ok(handle) => SetupStep::Ready(
            Startup {
                shell: Shell::new(Some(handle)),
                settle_seconds: SETTLE_SECONDS,
                spawn_failure: None,
            },
        ),
        Err(reason) => SetupStep::Ready(
            Startup { shell: Shell::new(None), settle_seconds: 0, spawn_failure: Some(reason) },
        ),
    }
}

/// In development no step of setup asks for a spawn, whatever the tray did.
pub proof fn lemma_development_never_spawns<H>(tray: Result<(), String>, step: SetupStep<H>)
    requires
        setup_begun(Mode::Development, tray, step),
    ensures
        !(step is SpawnBackend),
{
}

/// A failed spawn does not abandon setup: the shell is ready, without a
/// backend, and with nothing to wait for.
pub proof fn lemma_spawn_failure_completes_setup<H>(reason: String, step: SetupStep<H>)
    requires
        setup_finished(Err::<H, String>(reason), step),
    ensures
        step is Ready,
        !(step is Abort),
        step->Ready_0.shell.backend() is None,
        step->Ready_0.settle_seconds == 0,
{
}

/// Setup is abandoned only where the tray could not be built.
pub proof fn lemma_only_tray_failure_aborts<H>(mode: Mode, tray: Result<(), String>, step: SetupStep<H>)
    requires
        setup_begun(mode, tray, step),
    ensures
        step is Abort <==> tray is Err,
{
}

} // verus!
