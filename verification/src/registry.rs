//! The installed mods of a mods directory: the join of what lies in the
//! directory with the metadata registry, and the decisions behind install,
//! toggle and uninstall.
//!
//! The directory decides whether a mod exists and whether it is enabled. The
//! registry decides how it is described.

use vstd::prelude::*;
use vstd::string::*;
use vstd::hash_map::StringHashMap;
use crate::error::EngineError;
use crate::text::{
    has_prefix,
    has_suffix,
    lowercase,
    str_ends_with,
    str_equal,
    str_starts_with,
    to_lowercase,
    trim_end_matches,
    trim_suffix,
    trim_suffix_is_trimmed,
};

verus! {

/// A mod as the remote catalog lists it.
#[derive(Clone, Debug, PartialEq, Eq)]
pub struct Mod {
    pub id: String,
    pub name: String,
    pub description: String,
    pub version: String,
    pub author: String,
    pub file_name: String,
    pub file_path: String,
    pub file_size: u64,
    pub icon_path: String,
    pub upload_date: String,
    pub downloads: u64,
    pub last_downloaded: Option<String>,
}

/// A mod as it is reported for a mods directory, and as the registry keeps
/// it.
#[derive(Clone, Debug, PartialEq, Eq)]
pub struct InstalledMod {
    pub id: String,
    pub name: String,
    pub file_name: String,
    pub enabled: bool,
    pub version: String,
    pub author: String,
    pub description: String,
    pub icon_path: String,
}

/// The texts and the flag of an `InstalledMod`.
pub struct InstalledModView {
    pub id: Seq<char>,
    pub name: Seq<char>,
    pub file_name: Seq<char>,
    pub enabled: bool,
    pub version: Seq<char>,
    pub author: Seq<char>,
    pub description: Seq<char>,
    pub icon_path: Seq<char>,
}

impl View for InstalledMod {
    type V = InstalledModView;

    open spec fn view(&self) -> InstalledModView {
        InstalledModView {
            id: self.id@,
            name: self.name@,
            file_name: self.file_name@,
            enabled: self.enabled,
            version: self.version@,
            author: self.author@,
            description: self.description@,
            icon_path: self.icon_path@,
        }
    }
}

impl InstalledMod {
    /// A copy with the same texts and flag.
    pub fn duplicate(&self) -> (r: InstalledMod)
        ensures
            r@ == self@,
    {
        InstalledMod {
            id: self.id.clone(),
            name: self.name.clone(),
            file_name: self.file_name.clone(),
            enabled: self.enabled,
            version: self.version.clone(),
            author: self.author.clone(),
            description: self.description.clone(),
            icon_path: self.icon_path.clone(),
        }
    }
}

/// One entry of a directory listing: its name and whether it is a directory.
#[derive(Clone, Debug, PartialEq, Eq)]
pub struct DirEntry {
    pub name: String,
    pub is_dir: bool,
}

/// What lies under a name in a directory.
#[derive(Clone, Copy, Debug, PartialEq, Eq, Structural)]
pub enum EntryKind {
    Missing,
    File,
    Directory,
}

/// The name begins with a dot: the metadata file and other hidden files.
pub open spec fn is_hidden(name: Seq<char>) -> bool {
    has_prefix(name, "."@)
}

/// The name is that of an enabled library file, in any letter case.
pub open spec fn is_enabled_file(name: Seq<char>) -> bool {
    has_suffix(lowercase(name), ".dll"@)
}

/// The name is that of a disabled library file, in any letter case.
pub open spec fn is_disabled_file(name: Seq<char>) -> bool {
    has_suffix(lowercase(name), ".dll.disabled"@)
}

/// The entry denotes an installed mod: it is not hidden, and it is a
/// library file, a disabled library file or a directory.
pub open spec fn is_mod_entry(name: Seq<char>, is_dir: bool) -> bool {
    !is_hidden(name) && (is_enabled_file(name) || is_disabled_file(name) || is_dir)
}

/// A directory counts as enabled, and so does a library file that does not
/// carry the disabled suffix.
pub open spec fn entry_enabled(name: Seq<char>, is_dir: bool) -> bool {
    is_enabled_file(name) || is_dir
}

/// The identity of an entry in the registry: its name without trailing
/// `.disabled` and `.dll`.
pub open spec fn base_name(name: Seq<char>) -> Seq<char> {
    trim_suffix(trim_suffix(name, ".disabled"@), ".dll"@)
}

/// The identity under which an entry is looked up in the registry.
pub fn entry_base_name(name: &str) -> (r: String)
    ensures
        r@ == base_name(name@),
{
    let enabled_name = trim_end_matches(name, ".disabled");
    trim_end_matches(enabled_name.as_str(), ".dll")
}

/// The metadata registry of one mods directory: a mapping from base name to
/// record. Each base name has at most one record.
pub struct Registry {
    records: StringHashMap<InstalledMod>,
}

impl View for Registry {
    type V = Map<Seq<char>, InstalledModView>;

    closed spec fn view(&self) -> Map<Seq<char>, InstalledModView> {
        self.records@.map_values(|m: InstalledMod| m@)
    }
}

impl Registry {
    /// A registry without records, which is also what an unreadable
    /// metadata file stands for.
    pub fn new() -> (r: Registry)
        ensures
            r@ == Map::<Seq<char>, InstalledModView>::empty(),
    {
        let r = Registry { records: StringHashMap::new() };
        assert(r@ =~= Map::<Seq<char>, InstalledModView>::empty());
        r
    }

    /// Stores a record under a base name, in place of the one that was
    /// there.
    pub fn insert(&mut self, key: String, record: InstalledMod)
        ensures
            final(self)@ == old(self)@.insert(key@, record@),
    {
        self.records.insert(key, record);
        assert(self@ =~= old(self)@.insert(key@, record@));
    }

    /// The record stored under a base name, if there is one.
    pub fn get(&self, key: &str) -> (r: Option<InstalledMod>)
        ensures
            match r {
                Some(m) => self@.contains_key(key@) && m@ == self@[key@],
                None => !self@.contains_key(key@),
            },
    {
        match self.records.get(key) {
            Some(m) => Some(m.duplicate()),
            None => None,
        }
    }

    /// Whether a record is stored under a base name.
    pub fn contains_key(&self, key: &str) -> (r: bool)
        ensures
            r == self@.contains_key(key@),
    {
        self.records.contains_key(key)
    }
}

/// The mapping that a sequence of keyed records stands for. Where a key
/// occurs more than once, its last record counts.
pub open spec fn mapping_of(records: Seq<(String, InstalledMod)>) -> Map<
    Seq<char>,
    InstalledModView,
>
    decreases records.len(),
{
    if records.len() == 0 {
        Map::empty()
    } else {
        mapping_of(records.drop_last()).insert(records.last().0@, records.last().1@)
    }
}

/// What was read from a metadata file stands for: the mapping of its
/// records, and the empty mapping where the file is missing or could not be
/// read. The metadata is a cache over the directory, so an unreadable file
/// is no failure.
pub open spec fn loaded_mapping(records: Option<Seq<(String, InstalledMod)>>) -> Map<
    Seq<char>,
    InstalledModView,
> {
    match records {
        Some(r) => mapping_of(r),
        None => Map::empty(),
    }
}

/// Builds the registry from what was read from the metadata file, if it
/// could be read.
pub fn load_registry(records: Option<Vec<(String, InstalledMod)>>) -> (r: Registry)
    ensures
        r@ == loaded_mapping(
            match records {
                Some(v) => Some(v@),
                None => None,
            },
        ),
{
    let mut registry = Registry::new();
    match records {
        None => {},
        Some(list) => {
            let mut i: usize = 0;
            assert(list@.subrange(0, 0) =~= Seq::<(String, InstalledMod)>::empty());
            while i < list.len()
                invariant
                    i <= list@.len(),
                    registry@ == mapping_of(list@.subrange(0, i as int)),
                decreases list@.len() - i,
            {
                proof {
                    let upto = list@.subrange(0, i + 1);
                    assert(upto.drop_last() =~= list@.subrange(0, i as int));
                    assert(upto.last() == list@[i as int]);
                }
                registry.insert(list[i].0.clone(), list[i].1.duplicate());
                i = i + 1;
            }
            assert(list@.subrange(0, list@.len() as int) =~= list@);
        },
    }
    registry
}

/// The record made up for an entry that the registry does not know.
pub open spec fn synthesized(name: Seq<char>, is_dir: bool) -> InstalledModView {
    InstalledModView {
        id: base_name(name),
        name: base_name(name),
        file_name: name,
        enabled: entry_enabled(name, is_dir),
        version: "Unknown"@,
        author: "Unknown"@,
        description: "Locally installed mod"@,
        icon_path: Seq::<char>::empty(),
    }
}

/// A registry record joined with an entry: the description comes from the
/// record, the file name and the enabled flag from the directory.
pub open spec fn merged(record: InstalledModView, name: Seq<char>, is_dir: bool) -> InstalledModView {
    InstalledModView { file_name: name, enabled: entry_enabled(name, is_dir), ..record }
}

/// What is reported for one entry that denotes a mod.
pub open spec fn entry_report(
    registry: Map<Seq<char>, InstalledModView>,
    name: Seq<char>,
    is_dir: bool,
) -> InstalledModView {
    if registry.contains_key(base_name(name)) {
        merged(registry[base_name(name)], name, is_dir)
    } else {
        synthesized(name, is_dir)
    }
}

/// The join of a listing with the registry: one report for each entry that
/// denotes a mod, in the order of the listing.
pub open spec fn joined(entries: Seq<DirEntry>, registry: Map<Seq<char>, InstalledModView>) -> Seq<
    InstalledModView,
>
    decreases entries.len(),
{
    if entries.len() == 0 {
        Seq::empty()
    } else {
        let rest = joined(entries.drop_last(), registry);
        let e = entries.last();
        if is_mod_entry(e.name@, e.is_dir) {
            rest.push(entry_report(registry, e.name@, e.is_dir))
        } else {
            rest
        }
    }
}

/// The views of a sequence of reports.
pub open spec fn views(mods: Seq<InstalledMod>) -> Seq<InstalledModView> {
    Seq::new(mods.len(), |i: int| mods[i]@)
}

/// Every report of the join stems from an entry of the listing that
/// denotes a mod, and carries that entry's name.
pub proof fn report_stems_from_entry(
    entries: Seq<DirEntry>,
    registry: Map<Seq<char>, InstalledModView>,
    i: int,
) -> (j: int)
    requires
        0 <= i < joined(entries, registry).len(),
    ensures
        0 <= j < entries.len(),
        is_mod_entry(entries[j].name@, entries[j].is_dir),
        joined(entries, registry)[i] == entry_report(registry, entries[j].name@, entries[j].is_dir),
        joined(entries, registry)[i].file_name == entries[j].name@,
        joined(entries, registry)[i].enabled == entry_enabled(entries[j].name@, entries[j].is_dir),
    decreases entries.len(),
{
    let rest = joined(entries.drop_last(), registry);
    let e = entries.last();
    if is_mod_entry(e.name@, e.is_dir) && i == rest.len() {
        entries.len() - 1
    } else {
        report_stems_from_entry(entries.drop_last(), registry, i)
    }
}

/// Every entry of the listing that denotes a mod is reported by the join.
pub proof fn entry_is_reported(
    entries: Seq<DirEntry>,
    registry: Map<Seq<char>, InstalledModView>,
    j: int,
) -> (i: int)
    requires
        0 <= j < entries.len(),
        is_mod_entry(entries[j].name@, entries[j].is_dir),
    ensures
        0 <= i < joined(entries, registry).len(),
        joined(entries, registry)[i] == entry_report(registry, entries[j].name@, entries[j].is_dir),
    decreases entries.len(),
{
    let rest = joined(entries.drop_last(), registry);
    if j == entries.len() - 1 {
        rest.len() as int
    } else {
        entry_is_reported(entries.drop_last(), registry, j)
    }
}

/// A name under which nothing lies in the directory is not reported,
/// whatever the registry holds: the registry alone installs nothing.
pub proof fn unlisted_name_is_not_reported(
    entries: Seq<DirEntry>,
    registry: Map<Seq<char>, InstalledModView>,
    name: Seq<char>,
)
    requires
        forall|j: int| 0 <= j < entries.len() ==> entries[j].name@ != name,
    ensures
        forall|i: int|
            0 <= i < joined(entries, registry).len() ==> joined(entries, registry)[i].file_name
                != name,
{
    assert forall|i: int| 0 <= i < joined(entries, registry).len() implies joined(
        entries,
        registry,
    )[i].file_name != name by {
        let j = report_stems_from_entry(entries, registry, i);
    }
}

/// Without a record for it, an entry is reported with a made-up record: the
/// directory alone is enough for a mod to be listed.
pub proof fn unrecorded_entry_is_synthesized(
    entries: Seq<DirEntry>,
    registry: Map<Seq<char>, InstalledModView>,
    j: int,
) -> (i: int)
    requires
        0 <= j < entries.len(),
        is_mod_entry(entries[j].name@, entries[j].is_dir),
        !registry.contains_key(base_name(entries[j].name@)),
    ensures
        0 <= i < joined(entries, registry).len(),
        joined(entries, registry)[i] == synthesized(entries[j].name@, entries[j].is_dir),
{
    entry_is_reported(entries, registry, j)
}

/// Joins one entry with the registry: nothing for an entry that denotes no
/// mod, else its report.
pub fn join_entry(entry: &DirEntry, registry: &Registry) -> (r: Option<InstalledMod>)
    ensures
        match r {
            Some(m) => is_mod_entry(entry.name@, entry.is_dir) && m@ == entry_report(
                registry@,
                entry.name@,
                entry.is_dir,
            ),
            None => !is_mod_entry(entry.name@, entry.is_dir),
        },
{
    let name = entry.name.as_str();
    if str_starts_with(name, ".") {
        return None;
    }
    let lower = to_lowercase(name);
    let is_enabled: bool = str_ends_with(lower.as_str(), ".dll");
    let is_disabled: bool = str_ends_with(lower.as_str(), ".dll.disabled");
    if !(is_enabled || is_disabled || entry.is_dir) {
        return None;
    }
    let base = entry_base_name(name);
    let enabled: bool = is_enabled || entry.is_dir;
    match registry.get(base.as_str()) {
        Some(record) => Some(
            InstalledMod {
                id: record.id,
                name: record.name,
                file_name: entry.name.clone(),
                enabled,
                version: record.version,
                author: record.author,
                description: record.description,
                icon_path: record.icon_path,
            },
        ),
        None => Some(
            InstalledMod {
                id: base.clone(),
                name: base,
                file_name: entry.name.clone(),
                enabled,
                version: String::from_str("Unknown"),
                author: String::from_str("Unknown"),
                description: String::from_str("Locally installed mod"),
                icon_path: String::new(),
            },
        ),
    }
}

/// Lists the installed mods of a directory: each entry of the listing that
/// denotes a mod, in the order of the listing, described by its registry
/// record where there is one and by a made-up record otherwise.
pub fn get_installed_mods(entries: &Vec<DirEntry>, registry: &Registry) -> (r: Vec<InstalledMod>)
    ensures
        views(r@) == joined(entries@, registry@),
{
    let mut out: Vec<InstalledMod> = Vec::new();
    let mut i: usize = 0;
    assert(views(out@) =~= joined(entries@.subrange(0, 0), registry@));
    while i < entries.len()
        invariant
            i <= entries.len(),
            views(out@) == joined(entries@.subrange(0, i as int), registry@),
        decreases entries.len() - i,
    {
        proof {
            let upto = entries@.subrange(0, i + 1);
            assert(upto.drop_last() =~= entries@.subrange(0, i as int));
            assert(upto.last() == entries@[i as int]);
        }
        let ghost before = out@;
        match join_entry(&entries[i], registry) {
            Some(m) => {
                out.push(m);
                assert(views(out@) =~= views(before).push(m@));
            },
            None => {},
        }
        i = i + 1;
    }
    assert(entries@.subrange(0, entries@.len() as int) =~= entries@);
    out
}

/// The base name under which an installed mod is recorded: the file name
/// of the catalog without trailing `.dll`, then `.zip`, then `.silkmod`.
pub open spec fn registry_key(file_name: Seq<char>) -> Seq<char> {
    trim_suffix(trim_suffix(trim_suffix(file_name, ".dll"@), ".zip"@), ".silkmod"@)
}

/// The address of the mod catalog's host, to which the catalog's paths are
/// relative.
pub open spec fn mods_base_url() -> Seq<char> {
    "https://silk.abstractmelon.net"@
}

/// The record written for a mod on install: its catalog description, the
/// icon's full address, and the enabled flag set.
pub open spec fn installed_record(m: Mod) -> InstalledModView {
    InstalledModView {
        id: m.id@,
        name: m.name@,
        file_name: m.file_name@,
        enabled: true,
        version: m.version@,
        author: m.author@,
        description: m.description@,
        icon_path: mods_base_url() + m.icon_path@,
    }
}

/// The registry entry for a mod that is being installed: its key and its
/// record.
pub fn metadata_entry(mod_info: &Mod) -> (r: (String, InstalledMod))
    ensures
        r.0@ == registry_key(mod_info.file_name@),
        r.1@ == installed_record(*mod_info),
{
    let without_dll = trim_end_matches(mod_info.file_name.as_str(), ".dll");
    let without_zip = trim_end_matches(without_dll.as_str(), ".zip");
    let key = trim_end_matches(without_zip.as_str(), ".silkmod");
    let mut icon = String::from_str("https://silk.abstractmelon.net");
    icon.append(mod_info.icon_path.as_str());
    let record = InstalledMod {
        id: mod_info.id.clone(),
        name: mod_info.name.clone(),
        file_name: mod_info.file_name.clone(),
        enabled: true,
        version: mod_info.version.clone(),
        author: mod_info.author.clone(),
        description: mod_info.description.clone(),
        icon_path: icon,
    };
    (key, record)
}

/// Records an installed mod in the registry, in place of what was recorded
/// under the same key. No other record changes.
pub fn save_mod_metadata(registry: &mut Registry, mod_info: &Mod)
    ensures
        final(registry)@ == old(registry)@.insert(
            registry_key(mod_info.file_name@),
            installed_record(*mod_info),
        ),
{
    let (key, record) = metadata_entry(mod_info);
    registry.insert(key, record);
}

/// The file name is that of an archive, in any letter case.
pub open spec fn is_archive_name(file_name: Seq<char>) -> bool {
    has_suffix(lowercase(file_name), ".zip"@) || has_suffix(lowercase(file_name), ".silkmod"@)
}

/// Where the payload of a mod goes, below the mods directory.
#[derive(Clone, Debug, PartialEq, Eq)]
pub enum InstallTarget {
    /// An archive is unpacked into the directory of this name, which may
    /// exist already.
    ExtractInto { folder: String },
    /// A single file is written under this name.
    WriteFile { file_name: String },
}

/// What installing a mod takes: where its payload is fetched and where it
/// goes.
#[derive(Clone, Debug, PartialEq, Eq)]
pub struct InstallPlan {
    pub download_url: String,
    pub target: InstallTarget,
}

/// Plans the install of a mod: the payload comes from the catalog's host;
/// an archive is unpacked into a directory named after the mod, anything
/// else is written as one file under its own name.
pub fn install_mod(mod_info: &Mod) -> (r: InstallPlan)
    ensures
        r.download_url@ == mods_base_url() + mod_info.file_path@,
        is_archive_name(mod_info.file_name@) ==> (r.target matches InstallTarget::ExtractInto {
            folder,
        } && folder@ == mod_info.name@),
        !is_archive_name(mod_info.file_name@) ==> (r.target matches InstallTarget::WriteFile {
            file_name,
        } && file_name@ == mod_info.file_name@),
{
    let mut url = String::from_str("https://silk.abstractmelon.net");
    url.append(mod_info.file_path.as_str());
    let lower = to_lowercase(mod_info.file_name.as_str());
    let is_zip: bool = str_ends_with(lower.as_str(), ".zip") || str_ends_with(
        lower.as_str(),
        ".silkmod",
    );
    if is_zip {
        InstallPlan {
            download_url: url,
            target: InstallTarget::ExtractInto { folder: mod_info.name.clone() },
        }
    } else {
        InstallPlan {
            download_url: url,
            target: InstallTarget::WriteFile { file_name: mod_info.file_name.clone() },
        }
    }
}

/// What a toggle does to the directory.
#[derive(Clone, Debug, PartialEq, Eq)]
pub enum ToggleAction {
    /// The entry has the wanted name already.
    Nothing,
    /// The entry is renamed to this name.
    Rename { to: String },
}

/// The name of a file-form mod after a toggle: without any trailing
/// `.disabled` when enabled, with one when disabled.
pub open spec fn toggled_name(file_name: Seq<char>, enable: bool) -> Seq<char> {
    if enable {
        trim_suffix(file_name, ".disabled"@)
    } else if has_suffix(file_name, ".disabled"@) {
        file_name
    } else {
        file_name + ".disabled"@
    }
}

/// The name of an entry after a toggle. A directory keeps its name when
/// enabled and gets `.disabled` appended when disabled.
pub open spec fn toggle_target(kind: EntryKind, file_name: Seq<char>, enable: bool) -> Seq<char> {
    match kind {
        EntryKind::Directory => if enable {
            file_name
        } else {
            file_name + ".disabled"@
        },
        _ => toggled_name(file_name, enable),
    }
}

/// Decides how to enable or disable a mod. Fails with `NotFound` exactly
/// when nothing lies under the name; else the entry is renamed to its
/// toggled name, or left alone where it bears that name already.
pub fn toggle_mod(target: EntryKind, file_name: &str, enable: bool) -> (r: Result<
    ToggleAction,
    EngineError,
>)
    ensures
        target == EntryKind::Missing ==> r == Err::<ToggleAction, EngineError>(
            EngineError::NotFound,
        ),
        target != EntryKind::Missing && toggle_target(target, file_name@, enable) == file_name@
            ==> r == Ok::<ToggleAction, EngineError>(ToggleAction::Nothing),
        target != EntryKind::Missing && toggle_target(target, file_name@, enable) != file_name@
            ==> (r matches Ok(ToggleAction::Rename { to }) && to@ == toggle_target(
            target,
            file_name@,
            enable,
        )),
{
    proof {
        reveal_strlit(".disabled");
    }
    match target {
        EntryKind::Missing => Err(EngineError::NotFound),
        EntryKind::Directory => {
            if enable {
                Ok(ToggleAction::Nothing)
            } else {
                let mut to = String::from_str(file_name);
                to.append(".disabled");
                assert(to@.len() != file_name@.len());
                Ok(ToggleAction::Rename { to })
            }
        },
        EntryKind::File => {
            let to = if enable {
                trim_end_matches(file_name, ".disabled")
            } else if str_ends_with(file_name, ".disabled") {
                String::from_str(file_name)
            } else {
                let mut appended = String::from_str(file_name);
                appended.append(".disabled");
                appended
            };
            if str_equal(to.as_str(), file_name) {
                Ok(ToggleAction::Nothing)
            } else {
                Ok(ToggleAction::Rename { to })
            }
        },
    }
}

/// Disabling a file that is not disabled and enabling it again gives its
/// name back, and each of the two steps does rename it.
pub proof fn toggle_round_trip(file_name: Seq<char>)
    requires
        !has_suffix(file_name, ".disabled"@),
    ensures
        toggled_name(file_name, false) == file_name + ".disabled"@,
        toggled_name(file_name, false) != file_name,
        toggled_name(toggled_name(file_name, false), true) == file_name,
{
    reveal_strlit(".disabled");
    let pat = ".disabled"@;
    let off = file_name + pat;
    assert(off.len() == file_name.len() + pat.len());
    assert(off.subrange(off.len() - pat.len(), off.len() as int) =~= pat);
    assert(has_suffix(off, pat));
    assert(off.subrange(0, off.len() - pat.len()) =~= file_name);
    assert(trim_suffix(file_name, pat) == file_name);
    assert(trim_suffix(off, pat) == trim_suffix(file_name, pat));
}

/// A toggle towards the state that a file is in already leaves it alone.
pub proof fn toggle_is_idempotent(file_name: Seq<char>, enable: bool)
    ensures
        toggled_name(toggled_name(file_name, enable), enable) == toggled_name(file_name, enable),
{
    reveal_strlit(".disabled");
    let pat = ".disabled"@;
    if enable {
        trim_suffix_is_trimmed(file_name, pat);
    } else if !has_suffix(file_name, pat) {
        let off = file_name + pat;
        assert(off.subrange(off.len() - pat.len(), off.len() as int) =~= pat);
    }
}

/// How an entry is taken out of the mods directory.
#[derive(Clone, Copy, Debug, PartialEq, Eq, Structural)]
pub enum RemovalAction {
    /// Delete the single file.
    RemoveFile,
    /// Delete the directory with all that is in it.
    RemoveTree,
}

/// Decides how to uninstall a mod. Fails with `NotFound` exactly when
/// nothing lies under the name. The registry is not involved: the record of
/// the mod stays.
pub fn uninstall_mod(target: EntryKind) -> (r: Result<RemovalAction, EngineError>)
    ensures
        r == match target {
            EntryKind::Missing => Err::<RemovalAction, EngineError>(EngineError::NotFound),
            EntryKind::File => Ok(RemovalAction::RemoveFile),
            EntryKind::Directory => Ok(RemovalAction::RemoveTree),
        },
{
    match target {
        EntryKind::Missing => Err(EngineError::NotFound),
        EntryKind::File => Ok(RemovalAction::RemoveFile),
        EntryKind::Directory => Ok(RemovalAction::RemoveTree),
    }
}

/// The name of the metadata file in a mods directory. It begins with a dot,
/// so the listing of installed mods passes over it.
pub fn metadata_file() -> (r: &'static str)
    ensures
        r@ == ".entwine_metadata.json"@,
        is_hidden(r@),
{
    proof {
        reveal_strlit(".entwine_metadata.json");
        reveal_strlit(".");
        assert(".entwine_metadata.json"@.subrange(0, 1) =~= "."@);
    }
    ".entwine_metadata.json"
}

} // verus!
