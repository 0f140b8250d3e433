use entwine::bootstrap::{
    assembly_path, build_config, classify, ensure_loader_configured, names_loader,
    names_loader_as_target, release_loader_configuration, strip_lines, ConfigAction, ConfigState,
};
use entwine::error::EngineError;
use entwine::loader::{uninstall_loader, InstallRoot, LoaderKind};

const SILK_ONLY: &str = "[General]\nenabled=true\ntarget_assembly=Silk\\Silk.dll\n";
const BEPINEX_ONLY: &str =
    "[General]\nenabled=true\ntarget_assembly=BepInEx\\core\\BepInEx.Preloader.dll\n";
const SHARED: &str = "[General]\nenabled=true\ntarget_assembly=BepInEx\\core\\BepInEx.Preloader.dll\nsecondary_assembly=Silk\\Silk.dll\n";
const FOREIGN: &str = "[General]\nenabled=true\ntarget_assembly=Custom\\Thing.dll\n# my notes\n";

const EMPTY_ROOT: InstallRoot = InstallRoot { silk_dir: false, bepinex_dir: false, shim: false };

fn apply(file: Option<String>, action: ConfigAction) -> Option<String> {
    match action {
        ConfigAction::Keep => file,
        ConfigAction::Write(content) => Some(content),
        ConfigAction::Delete => None,
    }
}

#[test]
fn written_configurations_are_exact() {
    assert_eq!(build_config(LoaderKind::Silk, false), SILK_ONLY);
    assert_eq!(build_config(LoaderKind::BepInEx, false), BEPINEX_ONLY);
    assert_eq!(build_config(LoaderKind::BepInEx, true), SHARED);
    assert_eq!(assembly_path(LoaderKind::Silk), "Silk\\Silk.dll");
    assert_eq!(assembly_path(LoaderKind::BepInEx), "BepInEx\\core\\BepInEx.Preloader.dll");
}

#[test]
fn classify_by_markers() {
    assert_eq!(classify(None), ConfigState::Absent);
    assert_eq!(classify(Some(SILK_ONLY)), ConfigState::SilkOnly);
    assert_eq!(classify(Some(BEPINEX_ONLY)), ConfigState::BepInExOnly);
    assert_eq!(classify(Some(SHARED)), ConfigState::Both);
    assert_eq!(classify(Some(FOREIGN)), ConfigState::Foreign);
    assert_eq!(classify(Some("")), ConfigState::Foreign);
}

#[test]
fn target_and_secondary_are_told_apart() {
    assert!(names_loader(SHARED, LoaderKind::Silk));
    assert!(!names_loader_as_target(SHARED, LoaderKind::Silk));
    assert!(names_loader_as_target(SHARED, LoaderKind::BepInEx));
    assert!(names_loader_as_target(SILK_ONLY, LoaderKind::Silk));
    assert!(!names_loader(SILK_ONLY, LoaderKind::BepInEx));
}

#[test]
fn ensure_writes_fresh_file_for_silk() {
    let root = EMPTY_ROOT.after_unpack(LoaderKind::Silk);
    assert_eq!(
        ensure_loader_configured(LoaderKind::Silk, None, &root),
        Ok(ConfigAction::Write(SILK_ONLY.to_string()))
    );
}

#[test]
fn ensure_writes_shared_file_when_other_loader_is_present() {
    let root = InstallRoot { silk_dir: true, bepinex_dir: true, shim: true };
    assert_eq!(
        ensure_loader_configured(LoaderKind::Silk, None, &root),
        Ok(ConfigAction::Write(SHARED.to_string()))
    );
    assert_eq!(
        ensure_loader_configured(LoaderKind::BepInEx, None, &root),
        Ok(ConfigAction::Write(SHARED.to_string()))
    );
}

#[test]
fn ensure_twice_is_byte_identical() {
    let root = EMPTY_ROOT.after_unpack(LoaderKind::Silk);
    let first = ensure_loader_configured(LoaderKind::Silk, None, &root).unwrap();
    let after_first = apply(None, first);
    let second =
        ensure_loader_configured(LoaderKind::Silk, after_first.as_deref(), &root).unwrap();
    assert_eq!(second, ConfigAction::Keep);
    let after_second = apply(after_first.clone(), second);
    assert_eq!(after_second, after_first);
    assert_eq!(after_second.as_deref(), Some(SILK_ONLY));
}

#[test]
fn ensure_keeps_hand_edited_file_that_names_the_loader() {
    let edited = "# tuned by hand\ntarget_assembly=Silk\\Silk.dll\nextra=1\n";
    let root = InstallRoot { silk_dir: true, bepinex_dir: true, shim: true };
    assert_eq!(
        ensure_loader_configured(LoaderKind::Silk, Some(edited), &root),
        Ok(ConfigAction::Keep)
    );
}

#[test]
fn ensure_leaves_foreign_file_alone() {
    let root = InstallRoot { silk_dir: true, bepinex_dir: true, shim: true };
    assert_eq!(
        ensure_loader_configured(LoaderKind::Silk, Some(FOREIGN), &root),
        Ok(ConfigAction::Keep)
    );
    assert_eq!(
        ensure_loader_configured(LoaderKind::BepInEx, Some(FOREIGN), &root),
        Ok(ConfigAction::Keep)
    );
}

#[test]
fn ensure_bepinex_without_shim_fails() {
    let root = EMPTY_ROOT.after_unpack(LoaderKind::BepInEx);
    assert!(!root.shim);
    assert_eq!(
        ensure_loader_configured(LoaderKind::BepInEx, None, &root),
        Err(EngineError::PrerequisiteMissing)
    );
    assert_eq!(
        ensure_loader_configured(LoaderKind::BepInEx, Some(SILK_ONLY), &root),
        Err(EngineError::PrerequisiteMissing)
    );
    assert_eq!(
        ensure_loader_configured(LoaderKind::BepInEx, Some(BEPINEX_ONLY), &root),
        Ok(ConfigAction::Keep)
    );
}

#[test]
fn release_leaves_foreign_file_untouched() {
    for root in [EMPTY_ROOT, InstallRoot { silk_dir: true, bepinex_dir: true, shim: true }] {
        for loader in [LoaderKind::Silk, LoaderKind::BepInEx] {
            let action = release_loader_configuration(loader, Some(FOREIGN), &root);
            assert_eq!(action, ConfigAction::Keep);
            assert_eq!(apply(Some(FOREIGN.to_string()), action).as_deref(), Some(FOREIGN));
        }
    }
}

#[test]
fn release_without_file_does_nothing() {
    assert_eq!(
        release_loader_configuration(LoaderKind::Silk, None, &EMPTY_ROOT),
        ConfigAction::Keep
    );
}

#[test]
fn release_leaves_file_of_the_other_loader() {
    assert_eq!(
        release_loader_configuration(LoaderKind::BepInEx, Some(SILK_ONLY), &EMPTY_ROOT),
        ConfigAction::Keep
    );
}

#[test]
fn release_target_retargets_to_installed_other() {
    let root = InstallRoot { silk_dir: true, bepinex_dir: false, shim: true };
    assert_eq!(
        release_loader_configuration(LoaderKind::BepInEx, Some(SHARED), &root),
        ConfigAction::Write(SILK_ONLY.to_string())
    );
    let root = InstallRoot { silk_dir: false, bepinex_dir: true, shim: true };
    assert_eq!(
        release_loader_configuration(LoaderKind::Silk, Some(SILK_ONLY), &root),
        ConfigAction::Write(BEPINEX_ONLY.to_string())
    );
}

#[test]
fn release_target_deletes_when_no_loader_is_left() {
    assert_eq!(
        release_loader_configuration(LoaderKind::Silk, Some(SILK_ONLY), &EMPTY_ROOT),
        ConfigAction::Delete
    );
    assert_eq!(
        release_loader_configuration(LoaderKind::BepInEx, Some(SHARED), &EMPTY_ROOT),
        ConfigAction::Delete
    );
}

#[test]
fn release_secondary_strips_only_its_marker() {
    let root = InstallRoot { silk_dir: false, bepinex_dir: true, shim: true };
    assert_eq!(
        release_loader_configuration(LoaderKind::Silk, Some(SHARED), &root),
        ConfigAction::Write(BEPINEX_ONLY.to_string())
    );
    let edited = "# mine\ntarget_assembly=BepInEx\\core\\BepInEx.Preloader.dll\nsecondary_assembly=Silk\\Silk.dll\nkeep=this";
    assert_eq!(
        release_loader_configuration(LoaderKind::Silk, Some(edited), &root),
        ConfigAction::Write(
            "# mine\ntarget_assembly=BepInEx\\core\\BepInEx.Preloader.dll\nkeep=this".to_string()
        )
    );
}

#[test]
fn strip_lines_removes_matching_lines_only() {
    assert_eq!(strip_lines("a\nxb\nc\n", "x"), "a\nc\n");
    assert_eq!(strip_lines("a\nb\nxc", "x"), "a\nb\n");
    assert_eq!(strip_lines("x\n\n\ny", "x"), "\n\n" .to_string() + "y");
    assert_eq!(strip_lines("x1\nx2\n", "x"), "");
    assert_eq!(strip_lines("", "x"), "");
    assert_eq!(strip_lines("a\r\nb\r\n", "zzz"), "a\r\nb\r\n");
    assert_eq!(strip_lines("ab\ncd", "b\nc"), "ab\ncd");
}

#[test]
fn end_to_end_two_loaders() {
    let mut root = EMPTY_ROOT;
    let mut file: Option<String> = None;

    // BepInEx first: its payload arrives, but the shim is not there.
    let attempted = root.after_unpack(LoaderKind::BepInEx);
    assert_eq!(
        ensure_loader_configured(LoaderKind::BepInEx, file.as_deref(), &attempted),
        Err(EngineError::PrerequisiteMissing)
    );

    // Silk first.
    root = root.after_unpack(LoaderKind::Silk);
    let action = ensure_loader_configured(LoaderKind::Silk, file.as_deref(), &root).unwrap();
    file = apply(file, action);
    assert_eq!(file.as_deref(), Some(SILK_ONLY));
    assert!(names_loader_as_target(file.as_deref().unwrap(), LoaderKind::Silk));

    // Then BepInEx.
    root = root.after_unpack(LoaderKind::BepInEx);
    let action = ensure_loader_configured(LoaderKind::BepInEx, file.as_deref(), &root).unwrap();
    file = apply(file, action);
    assert_eq!(file.as_deref(), Some(SHARED));
    assert!(names_loader_as_target(file.as_deref().unwrap(), LoaderKind::BepInEx));
    assert!(names_loader(file.as_deref().unwrap(), LoaderKind::Silk));
    assert!(!names_loader_as_target(file.as_deref().unwrap(), LoaderKind::Silk));

    // Uninstall BepInEx: the shim stays for Silk.
    let plan = uninstall_loader(LoaderKind::BepInEx, &root).unwrap();
    assert!(plan.remove_payload);
    assert!(!plan.remove_shim);
    root = root.after_removal(LoaderKind::BepInEx, &plan);
    assert_eq!(root, InstallRoot { silk_dir: true, bepinex_dir: false, shim: true });
    let action = release_loader_configuration(LoaderKind::BepInEx, file.as_deref(), &root);
    file = apply(file, action);
    assert_eq!(file.as_deref(), Some(SILK_ONLY));

    // Uninstall Silk: nothing is left.
    let plan = uninstall_loader(LoaderKind::Silk, &root).unwrap();
    assert!(plan.remove_payload && plan.remove_shim);
    root = root.after_removal(LoaderKind::Silk, &plan);
    assert_eq!(root, EMPTY_ROOT);
    let action = release_loader_configuration(LoaderKind::Silk, file.as_deref(), &root);
    assert_eq!(apply(file, action), None);
}
