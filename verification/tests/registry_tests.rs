use entwine::error::EngineError;
use entwine::registry::{
    entry_base_name, get_installed_mods, install_mod, join_entry, load_registry, metadata_entry,
    save_mod_metadata, toggle_mod, uninstall_mod, DirEntry, EntryKind, InstallTarget,
    InstalledMod, Mod, Registry, RemovalAction, ToggleAction,
};

fn file(name: &str) -> DirEntry {
    DirEntry { name: name.to_string(), is_dir: false }
}

fn dir(name: &str) -> DirEntry {
    DirEntry { name: name.to_string(), is_dir: true }
}

fn catalog_mod(file_name: &str) -> Mod {
    Mod {
        id: "id-42".to_string(),
        name: "Cool Mod".to_string(),
        description: "Does cool things".to_string(),
        version: "1.4.0".to_string(),
        author: "melon".to_string(),
        file_name: file_name.to_string(),
        file_path: "/uploads/cool".to_string(),
        file_size: 1234,
        icon_path: "/icons/cool.png".to_string(),
        upload_date: "2024-01-01".to_string(),
        downloads: 7,
        last_downloaded: None,
    }
}

fn synthesized(base: &str, file_name: &str, enabled: bool) -> InstalledMod {
    InstalledMod {
        id: base.to_string(),
        name: base.to_string(),
        file_name: file_name.to_string(),
        enabled,
        version: "Unknown".to_string(),
        author: "Unknown".to_string(),
        description: "Locally installed mod".to_string(),
        icon_path: String::new(),
    }
}

fn kind_of(entries: &Vec<DirEntry>, name: &str) -> EntryKind {
    match entries.iter().find(|e| e.name == name) {
        Some(e) if e.is_dir => EntryKind::Directory,
        Some(_) => EntryKind::File,
        None => EntryKind::Missing,
    }
}

fn apply_toggle(entries: &mut Vec<DirEntry>, name: &str, action: &ToggleAction) {
    if let ToggleAction::Rename { to } = action {
        for e in entries.iter_mut() {
            if e.name == name {
                e.name = to.clone();
            }
        }
    }
}

#[test]
fn join_without_registry_entries() {
    let entries = vec![file("foo.dll"), file("bar.dll.disabled"), dir("baz")];
    let mods = get_installed_mods(&entries, &Registry::new());
    assert_eq!(mods.len(), 3);
    assert_eq!(mods.iter().map(|m| m.enabled).collect::<Vec<bool>>(), vec![true, false, true]);
    assert_eq!(mods[0], synthesized("foo", "foo.dll", true));
    assert_eq!(mods[1], synthesized("bar", "bar.dll.disabled", false));
    assert_eq!(mods[2], synthesized("baz", "baz", true));
}

#[test]
fn join_skips_hidden_and_unrecognised_entries() {
    let entries = vec![
        file(".entwine_metadata.json"),
        file("readme.txt"),
        dir(".cache"),
        file(".hidden.dll"),
        file("notes.disabled"),
        file("real.dll"),
    ];
    let mods = get_installed_mods(&entries, &Registry::new());
    assert_eq!(mods, vec![synthesized("real", "real.dll", true)]);
}

#[test]
fn join_of_empty_listing_is_empty() {
    assert_eq!(get_installed_mods(&Vec::new(), &Registry::new()), Vec::<InstalledMod>::new());
}

#[test]
fn join_classifies_in_any_letter_case() {
    let entries = vec![file("LOUD.DLL"), file("Quiet.Dll.Disabled")];
    let mods = get_installed_mods(&entries, &Registry::new());
    assert_eq!(mods.len(), 2);
    assert!(mods[0].enabled);
    assert_eq!(mods[0].file_name, "LOUD.DLL");
    assert_eq!(mods[0].id, "LOUD.DLL");
    assert!(!mods[1].enabled);
    assert_eq!(mods[1].id, "Quiet.Dll.Disabled");
}

#[test]
fn join_prefers_registry_description_and_directory_state() {
    let mut registry = Registry::new();
    save_mod_metadata(&mut registry, &catalog_mod("cool.dll"));
    let entries = vec![file("cool.dll.disabled")];
    let mods = get_installed_mods(&entries, &registry);
    assert_eq!(
        mods,
        vec![InstalledMod {
            id: "id-42".to_string(),
            name: "Cool Mod".to_string(),
            file_name: "cool.dll.disabled".to_string(),
            enabled: false,
            version: "1.4.0".to_string(),
            author: "melon".to_string(),
            description: "Does cool things".to_string(),
            icon_path: "https://silk.abstractmelon.net/icons/cool.png".to_string(),
        }]
    );
}

#[test]
fn join_with_metadata_ahead_of_filesystem() {
    let mut registry = Registry::new();
    save_mod_metadata(&mut registry, &catalog_mod("cool.dll"));
    let mods = get_installed_mods(&vec![file("other.dll")], &registry);
    assert_eq!(mods, vec![synthesized("other", "other.dll", true)]);
    assert!(registry.contains_key("cool"));
}

#[test]
fn join_entry_reports_directories_as_enabled() {
    let report = join_entry(&dir("pack.disabled"), &Registry::new()).unwrap();
    assert!(report.enabled);
    assert_eq!(report.id, "pack");
    assert_eq!(report.file_name, "pack.disabled");
    assert_eq!(join_entry(&file("plain"), &Registry::new()), None);
}

#[test]
fn base_name_strips_disabled_then_dll() {
    assert_eq!(entry_base_name("foo.dll"), "foo");
    assert_eq!(entry_base_name("foo.dll.disabled"), "foo");
    assert_eq!(entry_base_name("foo.dll.dll.disabled.disabled"), "foo");
    assert_eq!(entry_base_name("foo.disabled.dll"), "foo.disabled");
    assert_eq!(entry_base_name("folder"), "folder");
}

#[test]
fn registry_insert_replaces_and_get_finds() {
    let mut registry = Registry::new();
    assert_eq!(registry.get("a"), None);
    registry.insert("a".to_string(), synthesized("a", "a.dll", true));
    registry.insert("b".to_string(), synthesized("b", "b.dll", true));
    registry.insert("a".to_string(), synthesized("a2", "a.dll", false));
    assert_eq!(registry.get("a"), Some(synthesized("a2", "a.dll", false)));
    assert_eq!(registry.get("b"), Some(synthesized("b", "b.dll", true)));
    assert!(!registry.contains_key("c"));
}

#[test]
fn metadata_entry_is_keyed_by_stripped_file_name() {
    let (key, record) = metadata_entry(&catalog_mod("cool.dll"));
    assert_eq!(key, "cool");
    assert!(record.enabled);
    assert_eq!(record.file_name, "cool.dll");
    assert_eq!(record.icon_path, "https://silk.abstractmelon.net/icons/cool.png");
    assert_eq!(metadata_entry(&catalog_mod("pack.zip")).0, "pack");
    assert_eq!(metadata_entry(&catalog_mod("pack.silkmod")).0, "pack");
    assert_eq!(metadata_entry(&catalog_mod("pack.silkmod.zip")).0, "pack");
    assert_eq!(metadata_entry(&catalog_mod("pack.zip.silkmod")).0, "pack.zip");
    assert_eq!(metadata_entry(&catalog_mod("pack.zip.dll")).0, "pack");
}

#[test]
fn reinstall_updates_the_record() {
    let mut registry = Registry::new();
    save_mod_metadata(&mut registry, &catalog_mod("cool.dll"));
    let mut newer = catalog_mod("cool.dll");
    newer.version = "2.0.0".to_string();
    save_mod_metadata(&mut registry, &newer);
    assert_eq!(registry.get("cool").unwrap().version, "2.0.0");
}

#[test]
fn install_plan_for_library_file() {
    let plan = install_mod(&catalog_mod("cool.dll"));
    assert_eq!(plan.download_url, "https://silk.abstractmelon.net/uploads/cool");
    assert_eq!(plan.target, InstallTarget::WriteFile { file_name: "cool.dll".to_string() });
}

#[test]
fn install_plan_for_archives() {
    let plan = install_mod(&catalog_mod("cool.ZIP"));
    assert_eq!(plan.target, InstallTarget::ExtractInto { folder: "Cool Mod".to_string() });
    let plan = install_mod(&catalog_mod("cool.silkmod"));
    assert_eq!(plan.target, InstallTarget::ExtractInto { folder: "Cool Mod".to_string() });
}

#[test]
fn toggle_missing_is_not_found() {
    assert_eq!(toggle_mod(EntryKind::Missing, "foo.dll", true), Err(EngineError::NotFound));
    assert_eq!(toggle_mod(EntryKind::Missing, "foo.dll", false), Err(EngineError::NotFound));
}

#[test]
fn toggle_file_adds_and_removes_suffix() {
    assert_eq!(
        toggle_mod(EntryKind::File, "foo.dll", false),
        Ok(ToggleAction::Rename { to: "foo.dll.disabled".to_string() })
    );
    assert_eq!(
        toggle_mod(EntryKind::File, "foo.dll.disabled", true),
        Ok(ToggleAction::Rename { to: "foo.dll".to_string() })
    );
}

#[test]
fn toggle_to_same_name_does_nothing() {
    assert_eq!(toggle_mod(EntryKind::File, "foo.dll", true), Ok(ToggleAction::Nothing));
    assert_eq!(toggle_mod(EntryKind::File, "foo.dll.disabled", false), Ok(ToggleAction::Nothing));
}

#[test]
fn toggle_directory_is_asymmetric() {
    assert_eq!(toggle_mod(EntryKind::Directory, "pack", true), Ok(ToggleAction::Nothing));
    assert_eq!(
        toggle_mod(EntryKind::Directory, "pack", false),
        Ok(ToggleAction::Rename { to: "pack.disabled".to_string() })
    );
    assert_eq!(toggle_mod(EntryKind::Directory, "pack.disabled", true), Ok(ToggleAction::Nothing));
}

#[test]
fn toggle_round_trip_restores_name_and_existence() {
    let mut entries = vec![file("foo.dll"), file("bar.dll")];
    let off = toggle_mod(kind_of(&entries, "foo.dll"), "foo.dll", false).unwrap();
    apply_toggle(&mut entries, "foo.dll", &off);
    assert_eq!(kind_of(&entries, "foo.dll"), EntryKind::Missing);
    assert_eq!(kind_of(&entries, "foo.dll.disabled"), EntryKind::File);
    assert!(!get_installed_mods(&entries, &Registry::new())[0].enabled);
    let on = toggle_mod(kind_of(&entries, "foo.dll.disabled"), "foo.dll.disabled", true).unwrap();
    apply_toggle(&mut entries, "foo.dll.disabled", &on);
    assert_eq!(entries, vec![file("foo.dll"), file("bar.dll")]);
}

#[test]
fn uninstall_decides_by_kind() {
    assert_eq!(uninstall_mod(EntryKind::Missing), Err(EngineError::NotFound));
    assert_eq!(uninstall_mod(EntryKind::File), Ok(RemovalAction::RemoveFile));
    assert_eq!(uninstall_mod(EntryKind::Directory), Ok(RemovalAction::RemoveTree));
}

#[test]
fn uninstall_then_list_keeps_the_record() {
    let mut registry = Registry::new();
    save_mod_metadata(&mut registry, &catalog_mod("foo.dll"));
    let mut entries = vec![file("foo.dll"), file("bar.dll")];
    assert_eq!(uninstall_mod(kind_of(&entries, "foo.dll")), Ok(RemovalAction::RemoveFile));
    entries.retain(|e| e.name != "foo.dll");
    let listed = get_installed_mods(&entries, &registry);
    assert_eq!(listed.len(), 1);
    assert!(listed.iter().all(|m| m.file_name != "foo.dll" && m.id != "id-42"));
    assert_eq!(registry.get("foo").unwrap().id, "id-42");
    assert_eq!(uninstall_mod(kind_of(&entries, "foo.dll")), Err(EngineError::NotFound));
}

#[test]
fn unreadable_metadata_stands_for_an_empty_registry() {
    let registry = load_registry(None);
    assert!(!registry.contains_key("foo"));
    let mods = get_installed_mods(&vec![file("foo.dll")], &registry);
    assert_eq!(mods, vec![synthesized("foo", "foo.dll", true)]);
}

#[test]
fn loaded_registry_holds_the_last_record_of_each_key() {
    let registry = load_registry(Some(vec![
        ("a".to_string(), synthesized("first", "a.dll", true)),
        ("b".to_string(), synthesized("b", "b.dll", true)),
        ("a".to_string(), synthesized("second", "a.dll", true)),
    ]));
    assert_eq!(registry.get("a").unwrap().id, "second");
    assert_eq!(registry.get("b").unwrap().id, "b");
    assert_eq!(registry.get("c"), None);
}
