//! Backend core of a pomodoro-style desktop timer: a schema-versioning data
//! store. The library defines the ordered migration registry that evolves the
//! application's embedded database (timer settings, session history, daily
//! statistics, streak tracking), a runner that applies pending migrations in
//! ascending version order, write operations that enforce the schema's check
//! and uniqueness constraints, and the greeting command exposed to the
//! front-end. All of it is verified; the host shell around it only performs
//! I/O with plain values.

pub mod db;
pub mod migrate;
pub mod registry;
pub mod rows;
pub mod runner;
pub mod schema;
pub mod store;

use vstd::prelude::*;
use vstd::string::StringExecFns;

verus! {

/// The greeting command exposed to the front-end: name in, greeting out.
pub fn greet(name: &str) -> (r: String)
    ensures
        r@ == "Hello, "@ + name@ + "! You've been greeted from Rust!"@,
{
    let mut s: String = "Hello, ".to_owned();
    s.append(name);
    s.append("! You've been greeted from Rust!");
    s
}

/// Operating-system families the shell may run on.
#[derive(Clone, Copy, Debug, PartialEq, Eq, Structural)]
pub enum Platform {
    Linux,
    MacOs,
    Windows,
    Android,
    Ios,
}

/// The best-effort purge of the application's cache directory at startup is
/// wanted on exactly one platform family.
pub fn cache_purge_required(p: Platform) -> (r: bool)
    ensures
        r == (p == Platform::Linux),
{
    p == Platform::Linux
}

/// The ordered initialization steps the shell performs at startup.
#[derive(Clone, Copy, Debug, PartialEq, Eq, Structural)]
pub enum StartupStep {
    OpenAndMigrateStore,
    RegisterPlatformIntegrations,
    ExposeCommandSurface,
}

/// The startup sequence: open and migrate the embedded store, register the
/// platform integrations, then expose the command surface — in that order.
pub fn startup_sequence() -> (r: Vec<StartupStep>)
    ensures
        r@ == seq![
            StartupStep::OpenAndMigrateStore,
            StartupStep::RegisterPlatformIntegrations,
            StartupStep::ExposeCommandSurface,
        ],
{
    let mut r: Vec<StartupStep> = Vec::new();
    r.push(StartupStep::OpenAndMigrateStore);
    r.push(StartupStep::RegisterPlatformIntegrations);
    r.push(StartupStep::ExposeCommandSurface);
    proof {
        assert(r@ =~= seq![
            StartupStep::OpenAndMigrateStore,
            StartupStep::RegisterPlatformIntegrations,
            StartupStep::ExposeCommandSurface,
        ]);
    }
    r
}

} // verus!
