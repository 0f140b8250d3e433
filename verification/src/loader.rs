//! The two loaders and what is observed of them at the installation root.

use vstd::prelude::*;
use vstd::string::*;
use crate::error::EngineError;

verus! {

/// The two loaders. Each has a payload directory of its own at the
/// installation root; both are started through one shim library there.
#[derive(Clone, Copy, Debug, PartialEq, Eq, Structural)]
pub enum LoaderKind {
    Silk,
    BepInEx,
}

impl LoaderKind {
    /// The loader that this one shares the installation root with.
    pub open spec fn counterpart(self) -> LoaderKind {
        match self {
            LoaderKind::Silk => LoaderKind::BepInEx,
            LoaderKind::BepInEx => LoaderKind::Silk,
        }
    }

    /// The loader that this one shares the installation root with.
    pub fn other(self) -> (r: LoaderKind)
        ensures
            r == self.counterpart(),
    {
        match self {
            LoaderKind::Silk => LoaderKind::BepInEx,
            LoaderKind::BepInEx => LoaderKind::Silk,
        }
    }
}

/// What was found at the installation root: the payload directory of each
/// loader, and the shim library.
#[derive(Clone, Copy, Debug, PartialEq, Eq, Structural)]
pub struct InstallRoot {
    pub silk_dir: bool,
    pub bepinex_dir: bool,
    pub shim: bool,
}

impl InstallRoot {
    /// The payload directory of a loader is there.
    pub open spec fn payload_present(self, kind: LoaderKind) -> bool {
        match kind {
            LoaderKind::Silk => self.silk_dir,
            LoaderKind::BepInEx => self.bepinex_dir,
        }
    }

    /// Whether the payload directory of a loader is there.
    pub fn has_payload(&self, kind: LoaderKind) -> (r: bool)
        ensures
            r == self.payload_present(kind),
    {
        match kind {
            LoaderKind::Silk => self.silk_dir,
            LoaderKind::BepInEx => self.bepinex_dir,
        }
    }

    /// The root once the payload of a loader has been unpacked into it.
    /// Only the archive of Silk brings the shim.
    pub open spec fn unpacked(self, kind: LoaderKind) -> InstallRoot {
        match kind {
            LoaderKind::Silk => InstallRoot { silk_dir: true, shim: true, ..self },
            LoaderKind::BepInEx => InstallRoot { bepinex_dir: true, ..self },
        }
    }

    /// The root once the payload of a loader has been unpacked into it.
    pub fn after_unpack(&self, kind: LoaderKind) -> (r: InstallRoot)
        ensures
            r == self.unpacked(kind),
    {
        match kind {
            LoaderKind::Silk => InstallRoot {
                silk_dir: true,
                bepinex_dir: self.bepinex_dir,
                shim: true,
            },
            LoaderKind::BepInEx => InstallRoot {
                silk_dir: self.silk_dir,
                bepinex_dir: true,
                shim: self.shim,
            },
        }
    }

    /// The root once a removal plan for a loader has been carried out.
    pub open spec fn removed(self, kind: LoaderKind, plan: UninstallPlan) -> InstallRoot {
        InstallRoot {
            silk_dir: self.silk_dir && !(kind == LoaderKind::Silk && plan.remove_payload),
            bepinex_dir: self.bepinex_dir && !(kind == LoaderKind::BepInEx && plan.remove_payload),
            shim: self.shim && !plan.remove_shim,
        }
    }

    /// The root once a removal plan for a loader has been carried out.
    pub fn after_removal(&self, kind: LoaderKind, plan: &UninstallPlan) -> (r: InstallRoot)
        ensures
            r == self.removed(kind, *plan),
    {
        let drops_silk: bool = match kind {
            LoaderKind::Silk => plan.remove_payload,
            LoaderKind::BepInEx => false,
        };
        let drops_bepinex: bool = match kind {
            LoaderKind::Silk => false,
            LoaderKind::BepInEx => plan.remove_payload,
        };
        InstallRoot {
            silk_dir: self.silk_dir && !drops_silk,
            bepinex_dir: self.bepinex_dir && !drops_bepinex,
            shim: self.shim && !plan.remove_shim,
        }
    }
}

/// What uninstalling a loader removes from the installation root.
#[derive(Clone, Copy, Debug, PartialEq, Eq, Structural)]
pub struct UninstallPlan {
    /// Remove the payload directory of the loader.
    pub remove_payload: bool,
    /// Remove the shim library.
    pub remove_shim: bool,
}

/// What uninstalling a loader removes: its payload directory where there is
/// one, and the shim where it is there and the other loader, which would
/// still need it, is not installed. There is nothing to uninstall where
/// neither the payload directory nor the shim is there.
pub open spec fn uninstall_decision(kind: LoaderKind, root: InstallRoot) -> Result<
    UninstallPlan,
    EngineError,
> {
    if !root.payload_present(kind) && !root.shim {
        Err(EngineError::NotFound)
    } else {
        Ok(
            UninstallPlan {
                remove_payload: root.payload_present(kind),
                remove_shim: root.shim && !root.payload_present(kind.counterpart()),
            },
        )
    }
}

/// Plans the removal of a loader. Fails with `NotFound` exactly when
/// neither its payload directory nor the shim is there.
pub fn uninstall_loader(kind: LoaderKind, root: &InstallRoot) -> (r: Result<
    UninstallPlan,
    EngineError,
>)
    ensures
        r == uninstall_decision(kind, *root),
{
    let payload: bool = root.has_payload(kind);
    if !payload && !root.shim {
        Err(EngineError::NotFound)
    } else {
        Ok(
            UninstallPlan {
                remove_payload: payload,
                remove_shim: root.shim && !root.has_payload(kind.other()),
            },
        )
    }
}

/// Plans the removal of Silk.
pub fn uninstall_silk(root: &InstallRoot) -> (r: Result<UninstallPlan, EngineError>)
    ensures
        r == uninstall_decision(LoaderKind::Silk, *root),
{
    uninstall_loader(LoaderKind::Silk, root)
}

/// Plans the removal of BepInEx.
pub fn uninstall_bepinex(root: &InstallRoot) -> (r: Result<UninstallPlan, EngineError>)
    ensures
        r == uninstall_decision(LoaderKind::BepInEx, *root),
{
    uninstall_loader(LoaderKind::BepInEx, root)
}

/// Uninstalling a loader never takes the shim from under the other one, and
/// leaves the payload directory of the other one alone.
pub proof fn uninstall_spares_the_other(kind: LoaderKind, root: InstallRoot)
    requires
        uninstall_decision(kind, root) is Ok,
    ensures
        ({
            let after = root.removed(kind, uninstall_decision(kind, root)->Ok_0);
            &&& after.payload_present(kind.counterpart()) == root.payload_present(
                kind.counterpart(),
            )
            &&& !after.payload_present(kind)
            &&& root.payload_present(kind.counterpart()) ==> after.shim == root.shim
        }),
{
}

/// BepInEx is installed: its payload directory and the shim are both there.
pub fn is_bepinex_installed(root: &InstallRoot) -> (r: bool)
    ensures
        r == (root.bepinex_dir && root.shim),
{
    root.bepinex_dir && root.shim
}

/// The version of BepInEx that this engine installs.
pub open spec fn bepinex_version() -> Seq<char> {
    "5.4.23.4"@
}

/// The version of the installed BepInEx. Fails with `NotFound` exactly when
/// BepInEx is not installed.
pub fn get_bepinex_version(root: &InstallRoot) -> (r: Result<String, EngineError>)
    ensures
        root.bepinex_dir && root.shim ==> (r matches Ok(v) && v@ == bepinex_version()),
        !(root.bepinex_dir && root.shim) ==> r == Err::<String, EngineError>(
            EngineError::NotFound,
        ),
{
    if is_bepinex_installed(root) {
        Ok(String::from_str("5.4.23.4"))
    } else {
        Err(EngineError::NotFound)
    }
}

/// Silk counts as installed where the shim or its payload directory is
/// there.
pub fn is_silk_installed(root: &InstallRoot) -> (r: bool)
    ensures
        r == (root.shim || root.silk_dir),
{
    root.shim || root.silk_dir
}

/// Where the archive of a loader is fetched, and which part of it is
/// unpacked.
#[derive(Clone, Debug, PartialEq, Eq)]
pub struct LoaderSource {
    pub url: String,
    /// Only entries below this directory of the archive are unpacked; all
    /// of them where none is given.
    pub required_dir: Option<String>,
}

/// The address of the archive of BepInEx.
pub open spec fn bepinex_url() -> Seq<char> {
    "https://github.com/BepInEx/BepInEx/releases/download/v5.4.23.4/BepInEx_win_x64_5.4.23.4.zip"@
}

/// The source of BepInEx: of its archive only the directory `BepInEx` is
/// unpacked, so that the shim and the bootstrap configuration of the
/// installation stay as they are.
pub fn bepinex_source() -> (r: LoaderSource)
    ensures
        r.url@ == bepinex_url(),
        r.required_dir matches Some(d) && d@ == "BepInEx"@,
{
    LoaderSource {
        url: String::from_str(
            "https://github.com/BepInEx/BepInEx/releases/download/v5.4.23.4/BepInEx_win_x64_5.4.23.4.zip",
        ),
        required_dir: Some(String::from_str("BepInEx")),
    }
}

/// The state of the application as it is shown: whether Silk is installed,
/// and the directories of the game and of its mods where the game was
/// found.
#[derive(Clone, Debug, PartialEq, Eq)]
pub struct AppStatus {
    pub silk_installed: bool,
    pub game_path: Option<String>,
    pub mods_path: Option<String>,
}

/// A game directory that was found, with what was observed in it.
#[derive(Clone, Debug, PartialEq, Eq)]
pub struct Installation {
    pub game_path: String,
    pub mods_path: String,
    pub root: InstallRoot,
}

/// Reports the state of the application for the installation that was
/// found, if any.
pub fn get_app_status(found: Option<Installation>) -> (r: AppStatus)
    ensures
        match found {
            Some(i) => r.silk_installed == (i.root.shim || i.root.silk_dir) && (
            r.game_path matches Some(g) && g@ == i.game_path@) && (r.mods_path matches Some(m)
                && m@ == i.mods_path@),
            None => !r.silk_installed && r.game_path is None && r.mods_path is None,
        },
{
    match found {
        Some(i) => AppStatus {
            silk_installed: is_silk_installed(&i.root),
            game_path: Some(i.game_path),
            mods_path: Some(i.mods_path),
        },
        None => AppStatus { silk_installed: false, game_path: None, mods_path: None },
    }
}

/// Accepts a directory chosen by hand as the game directory. Fails with
/// `NotFound` exactly when the directory does not exist, and with
/// `NotAnInstallation` exactly when it exists and holds no executable of the
/// game.
pub fn set_game_path(chosen: Installation, exists: bool, has_executable: bool) -> (r: Result<
    AppStatus,
    EngineError,
>)
    ensures
        !exists ==> r == Err::<AppStatus, EngineError>(EngineError::NotFound),
        exists && !has_executable ==> r == Err::<AppStatus, EngineError>(
            EngineError::NotAnInstallation,
        ),
        exists && has_executable ==> (r matches Ok(s) && s.silk_installed == (chosen.root.shim
            || chosen.root.silk_dir) && (s.game_path matches Some(g) && g@ == chosen.game_path@)
            && (s.mods_path matches Some(m) && m@ == chosen.mods_path@)),
{
    if !exists {
        Err(EngineError::NotFound)
    } else if !has_executable {
        Err(EngineError::NotAnInstallation)
    } else {
        Ok(get_app_status(Some(chosen)))
    }
}

/// The name of a loader's payload directory at the installation root.
pub open spec fn payload_dir_name(kind: LoaderKind) -> Seq<char> {
    match kind {
        LoaderKind::Silk => "Silk"@,
        LoaderKind::BepInEx => "BepInEx"@,
    }
}

/// The name of a loader's payload directory at the installation root.
pub fn payload_dir(kind: LoaderKind) -> (r: &'static str)
    ensures
        r@ == payload_dir_name(kind),
{
    match kind {
        LoaderKind::Silk => "Silk",
        LoaderKind::BepInEx => "BepInEx",
    }
}

/// The name of the shim library at the installation root.
pub fn shim_file() -> (r: &'static str)
    ensures
        r@ == "winhttp.dll"@,
{
    "winhttp.dll"
}

} // verus!
