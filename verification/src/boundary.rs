//! The record as the embedding host sees it: one operation for each field it
//! may read or set, and the path of the game's executable beside a
//! launcher.

use vstd::prelude::*;
use vstd::string::*;
use crate::config::engine::EngineOptions;
use crate::config::engine::EngineOptionsView;
use crate::resources::ResourceVersion;

verus! {

/// The settings directory.
pub fn get_stracciatella_home(options: &EngineOptions) -> (r: String)
    ensures
        r@ == options@.stracciatella_home,
{
    options.stracciatella_home.clone()
}

/// The data directory of the vanilla game.
pub fn get_vanilla_data_dir(options: &EngineOptions) -> (r: String)
    ensures
        r@ == options@.vanilla_data_dir,
{
    options.vanilla_data_dir.clone()
}

/// Sets the data directory of the vanilla game.
pub fn set_vanilla_data_dir(options: &mut EngineOptions, data_dir: &str)
    ensures
        final(options)@ == (EngineOptionsView { vanilla_data_dir: data_dir@, ..old(options)@ }),
{
    options.vanilla_data_dir = String::from_str(data_dir);
}

/// The number of active mods, cut to its lower 32 bits.
pub fn get_number_of_mods(options: &EngineOptions) -> (r: u32)
    ensures
        r == options@.mods.len() as u32,
        options@.mods.len() <= u32::MAX ==> r == options@.mods.len(),
{
    #[verifier::truncate]
    (options.mods.len() as u32)
}

/// The mod at a position in activation order. There is none at a position
/// from the number of mods on.
pub fn get_mod(options: &EngineOptions, index: u32) -> (r: String)
    requires
        index < options@.mods.len(),
    ensures
        r@ == options@.mods[index as int],
{
    options.mods[index as usize].clone()
}

/// The width of the screen.
pub fn get_resolution_x(options: &EngineOptions) -> (r: u16)
    ensures
        r == options@.resolution.0,
{
    options.resolution.0
}

/// The height of the screen.
pub fn get_resolution_y(options: &EngineOptions) -> (r: u16)
    ensures
        r == options@.resolution.1,
{
    options.resolution.1
}

/// Sets width and height of the screen.
pub fn set_resolution(options: &mut EngineOptions, x: u16, y: u16)
    ensures
        final(options)@ == (EngineOptionsView { resolution: (x, y), ..old(options)@ }),
{
    options.resolution = (x, y);
}

/// The localisation of the game data.
pub fn get_resource_version(options: &EngineOptions) -> (r: ResourceVersion)
    ensures
        r == options@.resource_version,
{
    options.resource_version
}

/// Sets the localisation of the game data from its tag. A text that is no
/// tag changes nothing.
pub fn set_resource_version(options: &mut EngineOptions, version: &str)
    ensures
        final(options)@ == (EngineOptionsView {
            resource_version: match ResourceVersion::named_by(version@) {
                Some(v) => v,
                None => old(options)@.resource_version,
            },
            ..old(options)@
        }),
{
    match ResourceVersion::from_str(version) {
        Ok(v) => {
            options.resource_version = v;
        },
        Err(_) => {},
    }
}

/// Whether the unit tests are to run.
pub fn should_run_unittests(options: &EngineOptions) -> (r: bool)
    ensures
        r == options@.run_unittests,
{
    options.run_unittests
}

/// Whether the usage text is to be shown.
pub fn should_show_help(options: &EngineOptions) -> (r: bool)
    ensures
        r == options@.show_help,
{
    options.show_help
}

/// Whether the map editor is to start.
pub fn should_run_editor(options: &EngineOptions) -> (r: bool)
    ensures
        r == options@.run_editor,
{
    options.run_editor
}

/// Whether the engine starts in fullscreen.
pub fn should_start_in_fullscreen(options: &EngineOptions) -> (r: bool)
    ensures
        r == options@.start_in_fullscreen,
{
    options.start_in_fullscreen
}

/// Sets whether the engine starts in fullscreen.
pub fn set_start_in_fullscreen(options: &mut EngineOptions, val: bool)
    ensures
        final(options)@ == (EngineOptionsView { start_in_fullscreen: val, ..old(options)@ }),
{
    options.start_in_fullscreen = val;
}

/// Whether a window was requested.
pub fn should_start_in_window(options: &EngineOptions) -> (r: bool)
    ensures
        r == options@.start_in_window,
{
    options.start_in_window
}

/// Whether the engine starts in debug mode.
pub fn should_start_in_debug_mode(options: &EngineOptions) -> (r: bool)
    ensures
        r == options@.start_in_debug_mode,
{
    options.start_in_debug_mode
}

/// Whether the engine starts without sound.
pub fn should_start_without_sound(options: &EngineOptions) -> (r: bool)
    ensures
        r == options@.start_without_sound,
{
    options.start_without_sound
}

/// Sets whether the engine starts without sound.
pub fn set_start_without_sound(options: &mut EngineOptions, val: bool)
    ensures
        final(options)@ == (EngineOptionsView { start_without_sound: val, ..old(options)@ }),
{
    options.start_without_sound = val;
}

/// The tag of a localisation.
pub fn get_resource_version_string(version: ResourceVersion) -> (r: String)
    ensures
        r@ == version.tag(),
{
    version.to_string()
}

/// Whether a character is the given lower-case character or, where that is a
/// letter of `a` to `z`, its capital.
pub open spec fn same_letter(c: char, lower: char) -> bool {
    c == lower || ('a' <= lower && lower <= 'z' && c as int + 32 == lower as int)
}

/// Whether a text ends in a suffix, capitals in the text counting as their
/// lower-case letters.
pub open spec fn ends_with_ignoring_case(text: Seq<char>, suffix: Seq<char>) -> bool {
    &&& text.len() >= suffix.len()
    &&& forall|i: int|
        0 <= i < suffix.len() ==> same_letter(
            #[trigger] text[text.len() - suffix.len() + i],
            suffix[i],
        )
}

/// Whether a path is that of a launcher: it ends in `-launcher` or
/// `-launcher.exe`, in capitals or not.
pub open spec fn is_launcher_path(path: Seq<char>) -> bool {
    ends_with_ignoring_case(path, "-launcher"@) || ends_with_ignoring_case(path, "-launcher.exe"@)
}

/// The path of the executable beside a launcher: the launcher's path without
/// its `-launcher`, and with `.exe` at the end where the launcher's path
/// ends in `.exe`, in capitals or not.
pub open spec fn executable_beside(launcher: Seq<char>) -> Seq<char> {
    if ends_with_ignoring_case(launcher, ".exe"@) {
        launcher.subrange(0, launcher.len() - 13) + ".exe"@
    } else {
        launcher.subrange(0, launcher.len() - 9)
    }
}

fn is_same_letter(c: char, lower: char) -> (r: bool)
    ensures
        r == same_letter(c, lower),
{
    c == lower || ('a' <= lower && lower <= 'z' && (c as u32) + 32 == (lower as u32))
}

fn has_suffix_ignoring_case(text: &str, suffix: &str) -> (r: bool)
    ensures
        r == ends_with_ignoring_case(text@, suffix@),
{
    let n: usize = text.unicode_len();
    let m: usize = suffix.unicode_len();
    if n < m {
        return false;
    }
    let mut i: usize = 0;
    while i < m
        invariant
            i <= m <= n,
            n == text@.len(),
            m == suffix@.len(),
            forall|j: int| 0 <= j < i ==> same_letter(#[trigger] text@[n - m + j], suffix@[j]),
        decreases m - i,
    {
        if !is_same_letter(text.get_char(n - m + i), suffix.get_char(i)) {
            return false;
        }
        i = i + 1;
    }
    true
}

/// Whether a path is that of a launcher, and so has an executable beside it.
pub fn is_launcher(path: &str) -> (r: bool)
    ensures
        r == is_launcher_path(path@),
{
    has_suffix_ignoring_case(path, "-launcher") || has_suffix_ignoring_case(path, "-launcher.exe")
}

/// The path of the game's executable, from the path of its launcher.
pub fn find_ja2_executable(launcher_path: &str) -> (r: String)
    requires
        is_launcher_path(launcher_path@),
    ensures
        r@ == executable_beside(launcher_path@),
{
    let n: usize = launcher_path.unicode_len();
    let is_exe = has_suffix_ignoring_case(launcher_path, ".exe");
    proof {
        reveal_strlit(".exe");
        reveal_strlit("-launcher");
        reveal_strlit("-launcher.exe");
        if is_exe && ends_with_ignoring_case(launcher_path@, "-launcher"@) {
            assert(same_letter(launcher_path@[n - 4 + 3], ".exe"@[3]));
            assert(same_letter(launcher_path@[n - 9 + 8], "-launcher"@[8]));
        }
        if !is_exe && ends_with_ignoring_case(launcher_path@, "-launcher.exe"@) {
            assert forall|i: int| 0 <= i < 4 implies same_letter(
                #[trigger] launcher_path@[n - 4 + i],
                ".exe"@[i],
            ) by {
                assert(same_letter(launcher_path@[n - 13 + (i + 9)], "-launcher.exe"@[i + 9]));
            }
        }
    }
    if is_exe {
        String::from_str(launcher_path.substring_char(0, n - 13)).concat(".exe")
    } else {
        String::from_str(launcher_path.substring_char(0, n - 9))
    }
}

} // verus!
