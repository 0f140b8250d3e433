//! The settings of the application and the decision how to start the game.

use vstd::prelude::*;
use vstd::string::*;
use crate::error::EngineError;

verus! {

/// How the game is started.
#[derive(Clone, Copy, Debug, PartialEq, Eq, Structural)]
pub enum LaunchMethod {
    /// Through the Steam client.
    Steam,
    /// By running the executable in the game directory.
    Executable,
}

impl Default for LaunchMethod {
    fn default() -> (r: LaunchMethod)
        ensures
            r == LaunchMethod::Steam,
    {
        LaunchMethod::Steam
    }
}

/// The settings that are kept between runs.
#[derive(Clone, Copy, Debug, PartialEq, Eq, Structural)]
pub struct AppSettings {
    pub launch_method: LaunchMethod,
}

impl Default for AppSettings {
    fn default() -> (r: AppSettings)
        ensures
            r == (AppSettings { launch_method: LaunchMethod::Steam }),
    {
        AppSettings { launch_method: LaunchMethod::Steam }
    }
}

/// What has to be started to launch the game.
#[derive(Clone, Debug, PartialEq, Eq)]
pub enum LaunchPlan {
    /// Hand this address to the system, which passes it to Steam.
    OpenUrl(String),
    /// Run the file of this name in the game directory, from that
    /// directory.
    RunExecutable(String),
}

/// The address by which Steam starts the game.
pub open spec fn steam_url() -> Seq<char> {
    "steam://rungameid/1329500"@
}

/// The file name of the game's executable.
pub open spec fn executable_name() -> Seq<char> {
    "SpiderHeckApp.exe"@
}

/// The file name of the game's executable, whose presence `launch_game`
/// asks about.
pub fn game_executable() -> (r: &'static str)
    ensures
        r@ == executable_name(),
{
    "SpiderHeckApp.exe"
}

/// Decides how to start the game. Through Steam nothing of the game
/// directory is needed. A direct start fails with `NotFound` exactly when
/// the executable is not in the game directory.
pub fn launch_game(executable_present: bool, launch_method: &LaunchMethod) -> (r: Result<
    LaunchPlan,
    EngineError,
>)
    ensures
        *launch_method == LaunchMethod::Steam ==> (r matches Ok(LaunchPlan::OpenUrl(u)) && u@
            == steam_url()),
        *launch_method == LaunchMethod::Executable && executable_present ==> (
        r matches Ok(LaunchPlan::RunExecutable(f)) && f@ == executable_name()),
        *launch_method == LaunchMethod::Executable && !executable_present ==> r == Err::<
            LaunchPlan,
            EngineError,
        >(EngineError::NotFound),
{
    match launch_method {
        LaunchMethod::Steam => Ok(LaunchPlan::OpenUrl(String::from_str("steam://rungameid/1329500"))),
        LaunchMethod::Executable => {
            if executable_present {
                Ok(LaunchPlan::RunExecutable(String::from_str("SpiderHeckApp.exe")))
            } else {
                Err(EngineError::NotFound)
            }
        },
    }
}

} // verus!
