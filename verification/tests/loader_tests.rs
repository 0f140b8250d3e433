use entwine::archive::{is_under_dir, unpack_step, ArchiveEntry, UnpackStep};
use entwine::discovery::{find_spiderheck_path, game_dir_name, Candidate};
use entwine::error::EngineError;
use entwine::loader::{
    bepinex_source, get_app_status, get_bepinex_version, is_bepinex_installed, is_silk_installed,
    set_game_path, uninstall_bepinex, uninstall_loader, uninstall_silk, AppStatus, InstallRoot,
    Installation, LoaderKind, UninstallPlan,
};
use entwine::metadata::{
    check_installed_mod_compatibility, get_mod_version_info, version_info_from_fields,
};
use entwine::settings::{game_executable, launch_game, AppSettings, LaunchMethod, LaunchPlan};
use entwine::version::ModVersionInfo;

fn root(silk_dir: bool, bepinex_dir: bool, shim: bool) -> InstallRoot {
    InstallRoot { silk_dir, bepinex_dir, shim }
}

fn entry(path: &str, raw_name: &str) -> ArchiveEntry {
    ArchiveEntry { path: path.to_string(), raw_name: raw_name.to_string() }
}

#[test]
fn bepinex_needs_directory_and_shim() {
    assert!(is_bepinex_installed(&root(false, true, true)));
    assert!(!is_bepinex_installed(&root(true, true, false)));
    assert!(!is_bepinex_installed(&root(true, false, true)));
    assert!(!is_bepinex_installed(&root(false, false, false)));
}

#[test]
fn bepinex_version_when_installed() {
    assert_eq!(get_bepinex_version(&root(false, true, true)), Ok("5.4.23.4".to_string()));
    assert_eq!(get_bepinex_version(&root(true, false, true)), Err(EngineError::NotFound));
}

#[test]
fn silk_counts_as_installed_by_shim_or_directory() {
    assert!(is_silk_installed(&root(true, false, false)));
    assert!(is_silk_installed(&root(false, false, true)));
    assert!(!is_silk_installed(&root(false, true, false)));
}

#[test]
fn other_loader_is_the_counterpart() {
    assert_eq!(LoaderKind::Silk.other(), LoaderKind::BepInEx);
    assert_eq!(LoaderKind::BepInEx.other(), LoaderKind::Silk);
    assert!(root(true, false, false).has_payload(LoaderKind::Silk));
    assert!(!root(true, false, false).has_payload(LoaderKind::BepInEx));
}

#[test]
fn uninstall_fails_when_nothing_is_there() {
    assert_eq!(uninstall_silk(&root(false, false, false)), Err(EngineError::NotFound));
    assert_eq!(uninstall_silk(&root(false, true, false)), Err(EngineError::NotFound));
    assert_eq!(uninstall_bepinex(&root(true, false, false)), Err(EngineError::NotFound));
}

#[test]
fn uninstall_keeps_shim_for_the_other_loader() {
    assert_eq!(
        uninstall_silk(&root(true, true, true)),
        Ok(UninstallPlan { remove_payload: true, remove_shim: false })
    );
    assert_eq!(
        uninstall_bepinex(&root(true, true, true)),
        Ok(UninstallPlan { remove_payload: true, remove_shim: false })
    );
}

#[test]
fn uninstall_removes_shim_with_the_last_loader() {
    assert_eq!(
        uninstall_silk(&root(true, false, true)),
        Ok(UninstallPlan { remove_payload: true, remove_shim: true })
    );
    assert_eq!(
        uninstall_loader(LoaderKind::Silk, &root(false, false, true)),
        Ok(UninstallPlan { remove_payload: false, remove_shim: true })
    );
    assert_eq!(
        uninstall_loader(LoaderKind::Silk, &root(true, false, false)),
        Ok(UninstallPlan { remove_payload: true, remove_shim: false })
    );
}

#[test]
fn removal_updates_the_root() {
    let before = root(true, true, true);
    let plan = uninstall_silk(&before).unwrap();
    assert_eq!(before.after_removal(LoaderKind::Silk, &plan), root(false, true, true));
    let before = root(true, false, true);
    let plan = uninstall_silk(&before).unwrap();
    assert_eq!(before.after_removal(LoaderKind::Silk, &plan), root(false, false, false));
}

#[test]
fn bepinex_archive_is_filtered() {
    let source = bepinex_source();
    assert_eq!(
        source.url,
        "https://github.com/BepInEx/BepInEx/releases/download/v5.4.23.4/BepInEx_win_x64_5.4.23.4.zip"
    );
    assert_eq!(source.required_dir.as_deref(), Some("BepInEx"));
}

#[test]
fn unpack_skips_entries_outside_the_required_directory() {
    let wanted = Some("BepInEx".to_string());
    assert_eq!(unpack_step(&entry("winhttp.dll", "winhttp.dll"), &wanted), UnpackStep::Skip);
    assert_eq!(unpack_step(&entry("BepInEx", "BepInEx"), &wanted), UnpackStep::Skip);
    assert_eq!(unpack_step(&entry("BepInExtra/a", "BepInExtra/a"), &wanted), UnpackStep::Skip);
    assert_eq!(
        unpack_step(&entry("BepInEx/core/a.dll", "BepInEx/core/a.dll"), &wanted),
        UnpackStep::WriteFile
    );
    assert_eq!(
        unpack_step(&entry("BepInEx\\core", "BepInEx/core/"), &wanted),
        UnpackStep::CreateDir
    );
}

#[test]
fn unpack_takes_everything_without_a_required_directory() {
    assert_eq!(unpack_step(&entry("winhttp.dll", "winhttp.dll"), &None), UnpackStep::WriteFile);
    assert_eq!(unpack_step(&entry("Silk", "Silk/"), &None), UnpackStep::CreateDir);
    assert!(is_under_dir("Silk/Mods", "Silk"));
    assert!(!is_under_dir("Silk", "Silk"));
}

#[test]
fn status_without_installation() {
    assert_eq!(
        get_app_status(None),
        AppStatus { silk_installed: false, game_path: None, mods_path: None }
    );
}

#[test]
fn status_with_installation() {
    let found = Installation {
        game_path: "/games/SpiderHeck".to_string(),
        mods_path: "/games/SpiderHeck/Silk/Mods".to_string(),
        root: root(false, false, true),
    };
    assert_eq!(
        get_app_status(Some(found)),
        AppStatus {
            silk_installed: true,
            game_path: Some("/games/SpiderHeck".to_string()),
            mods_path: Some("/games/SpiderHeck/Silk/Mods".to_string()),
        }
    );
}

#[test]
fn chosen_game_path_is_checked() {
    let chosen = Installation {
        game_path: "/x".to_string(),
        mods_path: "/x/Silk/Mods".to_string(),
        root: root(false, false, false),
    };
    assert_eq!(set_game_path(chosen.clone(), false, false), Err(EngineError::NotFound));
    assert_eq!(set_game_path(chosen.clone(), false, true), Err(EngineError::NotFound));
    assert_eq!(set_game_path(chosen.clone(), true, false), Err(EngineError::NotAnInstallation));
    assert_eq!(
        set_game_path(chosen, true, true),
        Ok(AppStatus {
            silk_installed: false,
            game_path: Some("/x".to_string()),
            mods_path: Some("/x/Silk/Mods".to_string()),
        })
    );
}

#[test]
fn settings_default_to_steam() {
    assert_eq!(LaunchMethod::default(), LaunchMethod::Steam);
    assert_eq!(AppSettings::default(), AppSettings { launch_method: LaunchMethod::Steam });
}

#[test]
fn launch_through_steam_needs_no_executable() {
    assert_eq!(
        launch_game(false, &LaunchMethod::Steam),
        Ok(LaunchPlan::OpenUrl("steam://rungameid/1329500".to_string()))
    );
}

#[test]
fn launch_executable_needs_the_file() {
    assert_eq!(game_executable(), "SpiderHeckApp.exe");
    assert_eq!(
        launch_game(true, &LaunchMethod::Executable),
        Ok(LaunchPlan::RunExecutable("SpiderHeckApp.exe".to_string()))
    );
    assert_eq!(launch_game(false, &LaunchMethod::Executable), Err(EngineError::NotFound));
}

#[test]
fn every_error_has_a_message() {
    let all = [
        EngineError::InvalidVersion,
        EngineError::PrerequisiteMissing,
        EngineError::NotFound,
        EngineError::MalformedMetadata,
        EngineError::NotAnInstallation,
    ];
    for (i, a) in all.iter().enumerate() {
        assert!(!a.message().is_empty());
        for b in all.iter().skip(i + 1) {
            assert_ne!(a.message(), b.message());
        }
    }
    assert_eq!(EngineError::NotFound.message(), "Target not found");
}

const METADATA: &str = r#"{
  "cool": {"id": "id-42", "version": "1.4.0", "silkVersion": "0.6.0",
           "minSilkVersion": "0.5.0", "maxSilkVersion": "0.6.5"},
  "bare": {"id": "id-7"},
  "odd": {"version": 3, "minSilkVersion": null, "maxSilkVersion": "soon"}
}"#;

#[test]
fn version_info_reads_declared_window() {
    assert_eq!(
        get_mod_version_info("cool", METADATA),
        Ok(ModVersionInfo {
            mod_id: "cool".to_string(),
            version: "1.4.0".to_string(),
            silk_version: "0.6.0".to_string(),
            min_silk_version: Some("0.5.0".to_string()),
            max_silk_version: Some("0.6.5".to_string()),
        })
    );
}

#[test]
fn version_info_defaults_missing_fields() {
    assert_eq!(
        get_mod_version_info("bare", METADATA),
        Ok(ModVersionInfo {
            mod_id: "bare".to_string(),
            version: "Unknown".to_string(),
            silk_version: "Unknown".to_string(),
            min_silk_version: None,
            max_silk_version: None,
        })
    );
}

#[test]
fn version_info_ignores_fields_that_are_no_strings() {
    let info = get_mod_version_info("odd", METADATA).unwrap();
    assert_eq!(info.version, "Unknown");
    assert_eq!(info.min_silk_version, None);
    assert_eq!(info.max_silk_version, Some("soon".to_string()));
}

#[test]
fn version_info_of_unknown_mod_is_not_found() {
    assert_eq!(get_mod_version_info("missing", METADATA), Err(EngineError::NotFound));
    assert_eq!(get_mod_version_info("cool", "{}"), Err(EngineError::NotFound));
}

#[test]
fn version_info_of_malformed_metadata() {
    assert_eq!(get_mod_version_info("cool", "{"), Err(EngineError::MalformedMetadata));
    assert_eq!(get_mod_version_info("cool", ""), Err(EngineError::MalformedMetadata));
    assert_eq!(get_mod_version_info("cool", "[1, 2]"), Err(EngineError::MalformedMetadata));
    assert_eq!(get_mod_version_info("cool", "\"cool\""), Err(EngineError::MalformedMetadata));
}

#[test]
fn version_info_from_fields_defaults() {
    let info = version_info_from_fields("m", None, Some("0.6.0".to_string()), None, None);
    assert_eq!(info.mod_id, "m");
    assert_eq!(info.version, "Unknown");
    assert_eq!(info.silk_version, "0.6.0");
}

#[test]
fn installed_mod_compatibility_from_file_contents() {
    assert_eq!(check_installed_mod_compatibility("0.6.1\n", METADATA, "cool"), Ok(true));
    assert_eq!(check_installed_mod_compatibility("0.7.0\n", METADATA, "cool"), Ok(false));
    assert_eq!(check_installed_mod_compatibility("0.6.1", METADATA, "bare"), Ok(true));
    assert_eq!(
        check_installed_mod_compatibility("0.6.1", METADATA, "odd"),
        Err(EngineError::InvalidVersion)
    );
    assert_eq!(
        check_installed_mod_compatibility("garbage", METADATA, "cool"),
        Err(EngineError::InvalidVersion)
    );
    assert_eq!(
        check_installed_mod_compatibility("0.6.1", METADATA, "missing"),
        Err(EngineError::NotFound)
    );
    assert_eq!(
        check_installed_mod_compatibility("0.6.1", "nonsense", "cool"),
        Err(EngineError::MalformedMetadata)
    );
}

fn candidate(path: &str, exists: bool) -> Candidate {
    Candidate { path: path.to_string(), exists }
}

#[test]
fn game_is_found_at_the_first_existing_candidate() {
    let candidates = vec![
        candidate("/a/SpiderHeck", false),
        candidate("/b/SpiderHeck", true),
        candidate("/c/SpiderHeck", true),
    ];
    assert_eq!(find_spiderheck_path(&candidates), Some("/b/SpiderHeck".to_string()));
    assert_eq!(game_dir_name(), "SpiderHeck");
}

#[test]
fn game_is_not_found_without_an_existing_candidate() {
    assert_eq!(find_spiderheck_path(&Vec::new()), None);
    assert_eq!(find_spiderheck_path(&vec![candidate("/a/SpiderHeck", false)]), None);
}
