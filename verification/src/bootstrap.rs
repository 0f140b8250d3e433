//! The bootstrap configuration: the one file at the installation root that
//! tells the shim which assembly to load first, and which both loaders have
//! to share.
//!
//! The file is edited by hand as well, so it is never parsed as a whole.
//! Every decision rests on whether the path of a loader's assembly occurs in
//! it, and a file that names neither loader is left as it is.

use vstd::prelude::*;
use vstd::string::*;
use crate::error::EngineError;
use crate::loader::{InstallRoot, LoaderKind};
use crate::text::{
    chars_of,
    contains,
    find_char,
    index_of_char,
    index_of_char_bounds,
    index_of_char_found,
    occurs_at,
    str_contains,
};

verus! {

/// The path of a loader's assembly below the installation root, by which
/// the file refers to the loader.
pub open spec fn assembly_token(kind: LoaderKind) -> Seq<char> {
    match kind {
        LoaderKind::Silk => "Silk\\Silk.dll"@,
        LoaderKind::BepInEx => "BepInEx\\core\\BepInEx.Preloader.dll"@,
    }
}

/// The key of the entry that names the assembly to load first.
pub open spec fn target_key() -> Seq<char> {
    "target_assembly="@
}

/// The key of the entry that names the loader to start after the first.
pub open spec fn secondary_key() -> Seq<char> {
    "secondary_assembly="@
}

/// The lines with which a configuration written by the engine begins.
pub open spec fn preamble() -> Seq<char> {
    "[General]\nenabled=true\n"@
}

/// The end of a line.
pub open spec fn newline() -> Seq<char> {
    "\n"@
}

/// The file names the loader's assembly somewhere.
pub open spec fn references(content: Seq<char>, kind: LoaderKind) -> bool {
    contains(content, assembly_token(kind))
}

/// The file names the loader's assembly as the one to load first.
pub open spec fn targets(content: Seq<char>, kind: LoaderKind) -> bool {
    contains(content, target_key() + assembly_token(kind))
}

/// What the file says of the two loaders.
#[derive(Clone, Copy, Debug, PartialEq, Eq, Structural)]
pub enum ConfigState {
    /// There is no file.
    Absent,
    /// The file names Silk and not BepInEx.
    SilkOnly,
    /// The file names BepInEx and not Silk.
    BepInExOnly,
    /// The file names both loaders.
    Both,
    /// The file names neither loader.
    Foreign,
}

/// The state of a file by the loaders it names.
pub open spec fn state_of(file: Option<Seq<char>>) -> ConfigState {
    match file {
        None => ConfigState::Absent,
        Some(c) => if references(c, LoaderKind::Silk) {
            if references(c, LoaderKind::BepInEx) {
                ConfigState::Both
            } else {
                ConfigState::SilkOnly
            }
        } else if references(c, LoaderKind::BepInEx) {
            ConfigState::BepInExOnly
        } else {
            ConfigState::Foreign
        },
    }
}

/// What is to be done with the file.
#[derive(Clone, Debug, PartialEq, Eq)]
pub enum ConfigAction {
    /// Leave the file, or its absence, as it is.
    Keep,
    /// Write this content in place of whatever is there.
    Write(String),
    /// Delete the file.
    Delete,
}

/// A `ConfigAction` with its content as text.
pub enum ConfigActionView {
    Keep,
    Write(Seq<char>),
    Delete,
}

impl View for ConfigAction {
    type V = ConfigActionView;

    open spec fn view(&self) -> ConfigActionView {
        match self {
            ConfigAction::Keep => ConfigActionView::Keep,
            ConfigAction::Write(c) => ConfigActionView::Write(c@),
            ConfigAction::Delete => ConfigActionView::Delete,
        }
    }
}

/// The file after an action has been carried out on it.
pub open spec fn applied(file: Option<Seq<char>>, action: ConfigActionView) -> Option<Seq<char>> {
    match action {
        ConfigActionView::Keep => file,
        ConfigActionView::Write(c) => Some(c),
        ConfigActionView::Delete => None,
    }
}

/// The configuration that the engine writes: the primary loader as the
/// assembly to load first, and the other loader as secondary where it is to
/// run as well.
pub open spec fn fresh_config(primary: LoaderKind, with_secondary: bool) -> Seq<char> {
    let base = preamble() + target_key() + assembly_token(primary) + newline();
    if with_secondary {
        base + secondary_key() + assembly_token(primary.counterpart()) + newline()
    } else {
        base
    }
}

/// The configuration for both loaders: BepInEx has to run first to set up
/// its own pipeline, so it is the target, and Silk is the secondary.
pub open spec fn shared_config() -> Seq<char> {
    fresh_config(LoaderKind::BepInEx, true)
}

/// The path of a loader's assembly, as the file names it.
pub fn assembly_path(kind: LoaderKind) -> (r: &'static str)
    ensures
        r@ == assembly_token(kind),
{
    match kind {
        LoaderKind::Silk => "Silk\\Silk.dll",
        LoaderKind::BepInEx => "BepInEx\\core\\BepInEx.Preloader.dll",
    }
}

/// Whether the file names the loader's assembly somewhere.
pub fn names_loader(content: &str, kind: LoaderKind) -> (r: bool)
    ensures
        r == references(content@, kind),
{
    str_contains(content, assembly_path(kind))
}

/// Whether the file names the loader's assembly as the one to load first.
pub fn names_loader_as_target(content: &str, kind: LoaderKind) -> (r: bool)
    ensures
        r == targets(content@, kind),
{
    let mut entry = String::from_str("target_assembly=");
    entry.append(assembly_path(kind));
    str_contains(content, entry.as_str())
}

/// Tells what the file says of the two loaders.
pub fn classify(file: Option<&str>) -> (r: ConfigState)
    ensures
        r == state_of(
            match file {
                Some(c) => Some(c@),
                None => None,
            },
        ),
{
    match file {
        None => ConfigState::Absent,
        Some(c) => {
            let silk: bool = names_loader(c, LoaderKind::Silk);
            let bepinex: bool = names_loader(c, LoaderKind::BepInEx);
            if silk && bepinex {
                ConfigState::Both
            } else if silk {
                ConfigState::SilkOnly
            } else if bepinex {
                ConfigState::BepInExOnly
            } else {
                ConfigState::Foreign
            }
        },
    }
}

/// Builds the configuration that the engine writes.
pub fn build_config(primary: LoaderKind, with_secondary: bool) -> (r: String)
    ensures
        r@ == fresh_config(primary, with_secondary),
{
    let mut out = String::from_str("[General]\nenabled=true\n");
    out.append("target_assembly=");
    out.append(assembly_path(primary));
    out.append("\n");
    if with_secondary {
        out.append("secondary_assembly=");
        out.append(assembly_path(primary.other()));
        out.append("\n");
    }
    out
}

/// The configuration written where there is no file yet: for both loaders
/// where the payload of the other one is there, else for the installed one
/// alone.
pub open spec fn first_config(loader: LoaderKind, root: InstallRoot) -> Seq<char> {
    if root.payload_present(loader.counterpart()) {
        shared_config()
    } else {
        fresh_config(loader, false)
    }
}

/// What installing a loader does to the file.
///
/// A file that names the loader already stays as it is. BepInEx is started
/// through the shim that comes with Silk, so without the shim it cannot be
/// configured. Where there is no file, one is written. A file that names
/// only the other loader is rewritten for both. A file that names neither
/// loader is left alone.
pub open spec fn ensure_decision(
    loader: LoaderKind,
    file: Option<Seq<char>>,
    root: InstallRoot,
) -> Result<ConfigActionView, EngineError> {
    if file is Some && references(file->0, loader) {
        Ok(ConfigActionView::Keep)
    } else if loader == LoaderKind::BepInEx && !root.shim {
        Err(EngineError::PrerequisiteMissing)
    } else {
        match file {
            None => Ok(ConfigActionView::Write(first_config(loader, root))),
            Some(c) => if references(c, loader.counterpart()) {
                Ok(ConfigActionView::Write(shared_config()))
            } else {
                Ok(ConfigActionView::Keep)
            },
        }
    }
}

/// The text of an optional string slice.
pub open spec fn file_text(file: Option<&str>) -> Option<Seq<char>> {
    match file {
        Some(c) => Some(c@),
        None => None,
    }
}

/// Decides what installing a loader does to the bootstrap configuration,
/// given the content of the file, if there is one, and what lies at the
/// installation root after the payload was unpacked. Fails with
/// `PrerequisiteMissing` exactly when BepInEx is asked for, the shim is
/// missing, and no file names BepInEx already.
pub fn ensure_loader_configured(loader: LoaderKind, file: Option<&str>, root: &InstallRoot) -> (r:
    Result<ConfigAction, EngineError>)
    ensures
        match ensure_decision(loader, file_text(file), *root) {
            Ok(a) => r matches Ok(x) && x@ == a,
            Err(e) => r == Err::<ConfigAction, EngineError>(e),
        },
{
    let configured: bool = match file {
        Some(c) => names_loader(c, loader),
        None => false,
    };
    if configured {
        return Ok(ConfigAction::Keep);
    }
    let needs_shim: bool = match loader {
        LoaderKind::BepInEx => true,
        LoaderKind::Silk => false,
    };
    if needs_shim && !root.shim {
        return Err(EngineError::PrerequisiteMissing);
    }
    match file {
        None => {
            if root.has_payload(loader.other()) {
                Ok(ConfigAction::Write(build_config(LoaderKind::BepInEx, true)))
            } else {
                Ok(ConfigAction::Write(build_config(loader, false)))
            }
        },
        Some(c) => {
            if names_loader(c, loader.other()) {
                Ok(ConfigAction::Write(build_config(LoaderKind::BepInEx, true)))
            } else {
                Ok(ConfigAction::Keep)
            }
        },
    }
}

/// The length of the first line of `s` with its line feed.
pub open spec fn first_line_len(s: Seq<char>) -> int {
    let end = index_of_char(s, '\n', 0);
    if 0 <= end < s.len() {
        end + 1
    } else {
        s.len() as int
    }
}

/// `s` without the lines in which `token` occurs. Every other line stays
/// as it is, with its line feed.
pub open spec fn without_lines(s: Seq<char>, token: Seq<char>) -> Seq<char>
    decreases s.len(),
{
    if s.len() == 0 {
        s
    } else {
        let next = first_line_len(s);
        let rest = without_lines(s.subrange(next, s.len() as int), token);
        if contains(s.subrange(0, next), token) {
            rest
        } else {
            s.subrange(0, next) + rest
        }
    }
}

/// Removes from a text every line in which `token` occurs.
pub fn strip_lines(content: &str, token: &str) -> (r: String)
    ensures
        r@ == without_lines(content@, token@),
{
    let sv = chars_of(content);
    let n: usize = sv.len();
    let mut out = String::new();
    let mut pos: usize = 0;
    assert(content@.subrange(0, n as int) =~= content@);
    assert(out@ + without_lines(content@, token@) =~= without_lines(content@, token@));
    while pos < n
        invariant
            sv@ == content@,
            n == content@.len(),
            pos <= n,
            without_lines(content@, token@) == out@ + without_lines(
                content@.subrange(pos as int, n as int),
                token@,
            ),
        decreases n - pos,
    {
        let end: usize = find_char(&sv, '\n', pos);
        let next: usize = if end < n {
            end + 1
        } else {
            n
        };
        let line = content.substring_char(pos, next);
        let ghost tail = content@.subrange(pos as int, n as int);
        proof {
            assert forall|j: int| 0 <= j < end - pos implies tail[j] != '\n' by {
                assert(tail[j] == content@[pos + j]);
            }
            index_of_char_found(tail, '\n', 0, end - pos);
            assert(first_line_len(tail) == next - pos);
            assert(tail.subrange(0, next - pos) =~= line@);
            assert(tail.subrange(next - pos, tail.len() as int) =~= content@.subrange(
                next as int,
                n as int,
            ));
        }
        let ghost before = out@;
        if !str_contains(line, token) {
            out.append(line);
        }
        proof {
            let rest = without_lines(content@.subrange(next as int, n as int), token@);
            if contains(line@, token@) {
                assert(without_lines(tail, token@) == rest);
            } else {
                assert(without_lines(tail, token@) == line@ + rest);
                assert(before + (line@ + rest) =~= (before + line@) + rest);
            }
        }
        pos = next;
    }
    assert(content@.subrange(n as int, n as int) =~= Seq::<char>::empty());
    assert(out@ + Seq::<char>::empty() =~= out@);
    out
}

/// A token that holds no line feed does not occur in a text from which its
/// lines were removed.
pub proof fn stripped_text_lacks_token(s: Seq<char>, token: Seq<char>)
    requires
        token.len() > 0,
        forall|k: int| 0 <= k < token.len() ==> token[k] != '\n',
    ensures
        !contains(without_lines(s, token), token),
    decreases s.len(),
{
    if s.len() > 0 {
        index_of_char_bounds(s, '\n', 0);
        let next = first_line_len(s);
        let line = s.subrange(0, next);
        let rest = s.subrange(next, s.len() as int);
        let stripped = without_lines(rest, token);
        stripped_text_lacks_token(rest, token);
        if !contains(line, token) {
            let whole = line + stripped;
            let width = token.len() as int;
            assert forall|at: int| !occurs_at(whole, token, at) by {
                if occurs_at(whole, token, at) {
                    if at + width <= line.len() {
                        assert(whole.subrange(at, at + width) =~= line.subrange(at, at + width));
                        assert(occurs_at(line, token, at));
                    } else if at >= line.len() {
                        assert(whole.subrange(at, at + width) =~= stripped.subrange(
                            at - line.len(),
                            at - line.len() + width,
                        ));
                        assert(occurs_at(stripped, token, at - line.len()));
                    } else {
                        let k = line.len() - 1 - at;
                        assert(whole.subrange(at, at + width)[k] == whole[at + k]);
                        assert(line[line.len() - 1] == '\n');
                    }
                }
            }
        }
    }
}

/// What uninstalling a loader does to the file.
///
/// A file that does not name the loader stays as it is, and so does the
/// absence of a file. Where the loader is the target, the file is rewritten
/// for the other loader alone if that one is installed, and deleted if not.
/// Where the loader is only named as secondary, the lines that name it are
/// taken out and all others stay.
pub open spec fn release_decision(
    loader: LoaderKind,
    file: Option<Seq<char>>,
    root: InstallRoot,
) -> ConfigActionView {
    match file {
        None => ConfigActionView::Keep,
        Some(c) => if !references(c, loader) {
            ConfigActionView::Keep
        } else if targets(c, loader) {
            if root.payload_present(loader.counterpart()) {
                ConfigActionView::Write(fresh_config(loader.counterpart(), false))
            } else {
                ConfigActionView::Delete
            }
        } else {
            ConfigActionView::Write(without_lines(c, assembly_token(loader)))
        },
    }
}

/// Decides what uninstalling a loader does to the bootstrap configuration,
/// given the content of the file, if there is one, and what lies at the
/// installation root after the payload was removed.
pub fn release_loader_configuration(loader: LoaderKind, file: Option<&str>, root: &InstallRoot) -> (r:
    ConfigAction)
    ensures
        r@ == release_decision(loader, file_text(file), *root),
{
    match file {
        None => ConfigAction::Keep,
        Some(c) => {
            if !names_loader(c, loader) {
                ConfigAction::Keep
            } else if names_loader_as_target(c, loader) {
                if root.has_payload(loader.other()) {
                    ConfigAction::Write(build_config(loader.other(), false))
                } else {
                    ConfigAction::Delete
                }
            } else {
                ConfigAction::Write(strip_lines(c, assembly_path(loader)))
            }
        },
    }
}

/// A text occurs in every text that is built around it.
pub proof fn contains_in_middle(before: Seq<char>, token: Seq<char>, after: Seq<char>)
    ensures
        contains(before + token + after, token),
{
    let whole = before + token + after;
    assert(whole.subrange(before.len() as int, (before.len() + token.len()) as int) =~= token);
    assert(occurs_at(whole, token, before.len() as int));
}

/// A configuration written by the engine names its primary loader, as the
/// target, and its secondary loader where it has one.
pub proof fn fresh_config_names_its_loaders(primary: LoaderKind, with_secondary: bool)
    ensures
        references(fresh_config(primary, with_secondary), primary),
        targets(fresh_config(primary, with_secondary), primary),
        with_secondary ==> references(
            fresh_config(primary, with_secondary),
            primary.counterpart(),
        ),
{
    let token = assembly_token(primary);
    let second = assembly_token(primary.counterpart());
    let tail = if with_secondary {
        newline() + secondary_key() + second + newline()
    } else {
        newline()
    };
    let whole = fresh_config(primary, with_secondary);
    assert(whole =~= (preamble() + target_key()) + token + tail);
    contains_in_middle(preamble() + target_key(), token, tail);
    assert(whole =~= preamble() + (target_key() + token) + tail);
    contains_in_middle(preamble(), target_key() + token, tail);
    if with_secondary {
        assert(whole =~= (preamble() + target_key() + token + newline() + secondary_key())
            + second + newline());
        contains_in_middle(
            preamble() + target_key() + token + newline() + secondary_key(),
            second,
            newline(),
        );
    }
}

/// Installing a loader a second time changes nothing: once the first
/// install has been carried out, the decision for the same loader is to
/// keep the file as it is.
pub proof fn ensure_is_idempotent(loader: LoaderKind, file: Option<Seq<char>>, root: InstallRoot)
    requires
        ensure_decision(loader, file, root) is Ok,
    ensures
        ({
            let once = applied(file, ensure_decision(loader, file, root)->Ok_0);
            &&& ensure_decision(loader, once, root) == Ok::<ConfigActionView, EngineError>(
                ConfigActionView::Keep,
            )
            &&& applied(once, ensure_decision(loader, once, root)->Ok_0) == once
        }),
{
    fresh_config_names_its_loaders(LoaderKind::BepInEx, true);
    fresh_config_names_its_loaders(loader, false);
}

/// Silk has no prerequisite: configuring it never fails.
pub proof fn silk_is_always_configurable(file: Option<Seq<char>>, root: InstallRoot)
    ensures
        ensure_decision(LoaderKind::Silk, file, root) is Ok,
{
}

/// A file that names neither loader is never touched: neither installing
/// nor uninstalling a loader changes it.
pub proof fn foreign_file_is_untouched(loader: LoaderKind, content: Seq<char>, root: InstallRoot)
    requires
        state_of(Some(content)) == ConfigState::Foreign,
    ensures
        release_decision(loader, Some(content), root) == ConfigActionView::Keep,
        applied(Some(content), release_decision(loader, Some(content), root)) == Some(content),
        ensure_decision(loader, Some(content), root) matches Ok(a) ==> a == ConfigActionView::Keep,
{
}

/// Uninstalling a loader leaves alone a file that does not name it, and the
/// absence of a file.
pub proof fn release_keeps_what_does_not_name_the_loader(
    loader: LoaderKind,
    file: Option<Seq<char>>,
    root: InstallRoot,
)
    requires
        file matches Some(c) ==> !references(c, loader),
    ensures
        release_decision(loader, file, root) == ConfigActionView::Keep,
{
}

/// The name of the bootstrap configuration file at the installation root.
pub fn bootstrap_file() -> (r: &'static str)
    ensures
        r@ == "doorstop_config.ini"@,
{
    "doorstop_config.ini"
}

/// The path of a loader's assembly holds no line feed.
pub proof fn assembly_token_is_one_line(kind: LoaderKind)
    ensures
        assembly_token(kind).len() > 0,
        forall|k: int| 0 <= k < assembly_token(kind).len() ==> assembly_token(kind)[k] != '\n',
{
    reveal_strlit("Silk\\Silk.dll");
    reveal_strlit("BepInEx\\core\\BepInEx.Preloader.dll");
}

/// Uninstalling a loader that the file names only as secondary takes out
/// every mention of it: the file that is written does not name the loader.
pub proof fn release_of_secondary_removes_every_mention(
    loader: LoaderKind,
    content: Seq<char>,
    root: InstallRoot,
)
    requires
        references(content, loader),
        !targets(content, loader),
    ensures
        release_decision(loader, Some(content), root) == ConfigActionView::Write(
            without_lines(content, assembly_token(loader)),
        ),
        !references(without_lines(content, assembly_token(loader)), loader),
{
    assembly_token_is_one_line(loader);
    stripped_text_lacks_token(content, assembly_token(loader));
}

/// The character does not occur in the text.
pub open spec fn lacks_char(s: Seq<char>, c: char) -> bool {
    forall|i: int| 0 <= i < s.len() ==> s[i] != c
}

/// What two texts lack, they lack when joined.
pub proof fn joined_texts_lack_char(a: Seq<char>, b: Seq<char>, c: char)
    requires
        lacks_char(a, c),
        lacks_char(b, c),
    ensures
        lacks_char(a + b, c),
{
}

/// A text in which the first character of a token does not occur does not
/// hold the token.
pub proof fn lacks_token_without_its_first_char(s: Seq<char>, token: Seq<char>)
    requires
        token.len() > 0,
        lacks_char(s, token[0]),
    ensures
        !contains(s, token),
{
    assert forall|at: int| !occurs_at(s, token, at) by {
        if occurs_at(s, token, at) {
            assert(s.subrange(at, at + token.len())[0] == s[at]);
        }
    }
}

proof fn preamble_lacks_initials()
    ensures
        lacks_char(preamble(), 'S'),
        lacks_char(preamble(), 'B'),
{
    reveal_strlit("[General]\nenabled=true\n");
}

proof fn target_key_lacks_initials()
    ensures
        lacks_char(target_key(), 'S'),
        lacks_char(target_key(), 'B'),
{
    reveal_strlit("target_assembly=");
}

proof fn newline_lacks_initials()
    ensures
        lacks_char(newline(), 'S'),
        lacks_char(newline(), 'B'),
{
    reveal_strlit("\n");
}

proof fn silk_token_initial()
    ensures
        assembly_token(LoaderKind::Silk).len() > 0,
        assembly_token(LoaderKind::Silk)[0] == 'S',
        lacks_char(assembly_token(LoaderKind::Silk), 'B'),
{
    reveal_strlit("Silk\\Silk.dll");
}

proof fn bepinex_token_initial()
    ensures
        assembly_token(LoaderKind::BepInEx).len() > 0,
        assembly_token(LoaderKind::BepInEx)[0] == 'B',
        lacks_char(assembly_token(LoaderKind::BepInEx), 'S'),
{
    reveal_strlit("BepInEx\\core\\BepInEx.Preloader.dll");
}

/// A configuration written for one loader alone does not name the other.
pub proof fn single_config_names_one_loader(kind: LoaderKind)
    ensures
        references(fresh_config(kind, false), kind),
        !references(fresh_config(kind, false), kind.counterpart()),
{
    fresh_config_names_its_loaders(kind, false);
    preamble_lacks_initials();
    target_key_lacks_initials();
    newline_lacks_initials();
    silk_token_initial();
    bepinex_token_initial();
    let other = assembly_token(kind.counterpart());
    let c = other[0];
    joined_texts_lack_char(preamble(), target_key(), c);
    joined_texts_lack_char(preamble() + target_key(), assembly_token(kind), c);
    joined_texts_lack_char(preamble() + target_key() + assembly_token(kind), newline(), c);
    lacks_token_without_its_first_char(fresh_config(kind, false), other);
}

/// A configuration written for one loader alone names that loader and not
/// the other, and the configuration for both names both: the engine writes
/// a file in each of the three states that name a loader.
pub proof fn written_configs_are_in_their_states()
    ensures
        state_of(Some(fresh_config(LoaderKind::Silk, false))) == ConfigState::SilkOnly,
        state_of(Some(fresh_config(LoaderKind::BepInEx, false))) == ConfigState::BepInExOnly,
        state_of(Some(shared_config())) == ConfigState::Both,
{
    single_config_names_one_loader(LoaderKind::Silk);
    single_config_names_one_loader(LoaderKind::BepInEx);
    fresh_config_names_its_loaders(LoaderKind::BepInEx, true);
}

/// Once a loader is released, the file does not name it any more, whatever
/// the file held and whatever lies at the installation root.
pub proof fn released_loader_is_not_named(
    loader: LoaderKind,
    file: Option<Seq<char>>,
    root: InstallRoot,
)
    ensures
        applied(file, release_decision(loader, file, root)) matches Some(c) ==> !references(
            c,
            loader,
        ),
{
    written_configs_are_in_their_states();
    assembly_token_is_one_line(loader);
    if file is Some {
        stripped_text_lacks_token(file->0, assembly_token(loader));
    }
}

/// Once a loader is configured, the file names it, unless the file names
/// neither loader and is left to its author.
pub proof fn configured_loader_is_named(
    loader: LoaderKind,
    file: Option<Seq<char>>,
    root: InstallRoot,
)
    requires
        ensure_decision(loader, file, root) is Ok,
        state_of(file) != ConfigState::Foreign,
    ensures
        applied(file, ensure_decision(loader, file, root)->Ok_0) matches Some(c) && references(
            c,
            loader,
        ),
{
    fresh_config_names_its_loaders(LoaderKind::BepInEx, true);
    fresh_config_names_its_loaders(loader, false);
}

} // verus!
