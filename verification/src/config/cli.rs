//! The command line: its option surface, and how what was given on it is laid
//! over an options record.

use vstd::prelude::*;
use vstd::string::*;
use vstd::slice::slice_subrange;
use getopts::Matches;
use getopts::Options;
use crate::config::engine::EngineOptions;
use crate::config::engine::EngineOptionsView;
use crate::config::resolution::invalid_resolution_message;
use crate::config::resolution::parse_resolution;
use crate::config::resolution::resolution_of;
use crate::config::resolution::find_char;
use crate::resources::unknown_version_message;
use crate::resources::ResourceVersion;
use crate::text::clone_strings;
use crate::text::join_with_spaces;
use crate::text::joined;
use crate::text::optional_text;
use crate::text::outcome_text;

verus! {

/// `getopts::Options`: the description of the options that a command line may
/// hold.
#[verifier::external_type_specification]
#[verifier::external_body]
pub struct ExOptions(getopts::Options);

/// `getopts::Matches`: what parsing a command line found.
#[verifier::external_type_specification]
#[verifier::external_body]
pub struct ExMatches(getopts::Matches);

/// The options that a description holds, in the order of their declaration:
/// for each its long name, whether it takes a value, and whether it may be
/// given more than once.
pub uninterp spec fn declared_options(opts: Options) -> Seq<(Seq<char>, bool, bool)>;

/// Whether a description is in "long options only" mode, in which a single
/// dash introduces a long option as a double dash does.
pub uninterp spec fn long_only_mode(opts: Options) -> bool;

/// Whether a description makes parsing treat everything after the first free
/// argument as free.
pub uninterp spec fn stops_at_first_free(opts: Options) -> bool;

/// For each declared option, by its long name, its occurrences on the command
/// line in order: the value that an occurrence carried, if it carried one.
pub uninterp spec fn occurrences(m: Matches) -> Map<Seq<char>, Seq<Option<Seq<char>>>>;

/// The arguments that belong to no option, in order.
pub uninterp spec fn free_arguments(m: Matches) -> Seq<Seq<char>>;

/// What `getopts` makes of a list of arguments under a description with the
/// given options and modes: the occurrences of each option and the free
/// arguments, or the text of the failure.
pub uninterp spec fn parse_outcome(
    declared: Seq<(Seq<char>, bool, bool)>,
    long_only: bool,
    stop_at_first_free: bool,
    args: Seq<Seq<char>>,
) -> Result<(Map<Seq<char>, Seq<Option<Seq<char>>>>, Seq<Seq<char>>), Seq<char>>;

/// Every declared option has a long name of more than one character.
pub open spec fn all_long_names(declared: Seq<(Seq<char>, bool, bool)>) -> bool {
    forall|i: int| 0 <= i < declared.len() ==> (#[trigger] declared[i]).0.len() > 1
}

/// The value of the first occurrence, if there is an occurrence and it
/// carried one.
pub open spec fn first_value(found: Seq<Option<Seq<char>>>) -> Option<Seq<char>> {
    if found.len() > 0 {
        found[0]
    } else {
        None
    }
}

/// The values that the occurrences carried, in order.
pub open spec fn given_values(found: Seq<Option<Seq<char>>>) -> Seq<Seq<char>> {
    found.filter(|o: Option<Seq<char>>| o is Some).map_values(|o: Option<Seq<char>>| o->Some_0)
}

/// `Options::new`: a description with no option, in neither mode.
#[verifier::external_body]
fn new_description() -> (r: Options)
    ensures
        declared_options(r) == Seq::<(Seq<char>, bool, bool)>::empty(),
        !long_only_mode(r),
        !stops_at_first_free(r),
{
    Options::new()
}

/// `Options::long_only`: sets or clears "long options only" mode and leaves
/// the rest of the description as it is.
#[verifier::external_body]
fn set_long_only(opts: &mut Options, long_only: bool)
    ensures
        long_only_mode(*final(opts)) == long_only,
        declared_options(*final(opts)) == declared_options(*old(opts)),
        stops_at_first_free(*final(opts)) == stops_at_first_free(*old(opts)),
{
    opts.long_only(long_only);
}

/// `Options::optmulti`, for an option without a short name: declares, after
/// those already there, an option that takes a value and may be repeated.
/// `getopts` panics on a long name of one byte, which `requires` leaves out.
#[verifier::external_body]
fn declare_repeatable(opts: &mut Options, short_name: &str, long_name: &str, desc: &str, hint: &str)
    requires
        short_name@.len() == 0,
        long_name@.len() > 1,
    ensures
        declared_options(*final(opts)) == declared_options(*old(opts)).push((long_name@, true, true)),
        long_only_mode(*final(opts)) == long_only_mode(*old(opts)),
        stops_at_first_free(*final(opts)) == stops_at_first_free(*old(opts)),
{
    opts.optmulti(short_name, long_name, desc, hint);
}

/// `Options::optopt`, for an option without a short name: declares, after
/// those already there, an option that takes a value and may be given once.
/// `getopts` panics on a long name of one byte, which `requires` leaves out.
#[verifier::external_body]
fn declare_single(opts: &mut Options, short_name: &str, long_name: &str, desc: &str, hint: &str)
    requires
        short_name@.len() == 0,
        long_name@.len() > 1,
    ensures
        declared_options(*final(opts)) == declared_options(*old(opts)).push((long_name@, true, false)),
        long_only_mode(*final(opts)) == long_only_mode(*old(opts)),
        stops_at_first_free(*final(opts)) == stops_at_first_free(*old(opts)),
{
    opts.optopt(short_name, long_name, desc, hint);
}

/// `Options::optflag`, for an option without a short name: declares, after
/// those already there, an option that takes no value and may be given once.
/// `getopts` panics on a long name of one byte, which `requires` leaves out.
#[verifier::external_body]
fn declare_flag(opts: &mut Options, short_name: &str, long_name: &str, desc: &str)
    requires
        short_name@.len() == 0,
        long_name@.len() > 1,
    ensures
        declared_options(*final(opts)) == declared_options(*old(opts)).push((long_name@, false, false)),
        long_only_mode(*final(opts)) == long_only_mode(*old(opts)),
        stops_at_first_free(*final(opts)) == stops_at_first_free(*old(opts)),
{
    opts.optflag(short_name, long_name, desc);
}

/// `Options::parse`, with a failure turned into its text by `Fail`'s
/// `to_string`. The outcome is the one that `getopts` computes from the
/// description and the arguments alone. After a success every declared option
/// can be asked for by its long name. `getopts` panics while parsing on an
/// option declared without any name, which `requires` leaves out.
#[verifier::external_body]
fn parse_arguments(opts: &Options, args: &[String]) -> (r: Result<Matches, String>)
    requires
        all_long_names(declared_options(*opts)),
    ensures
        match parse_outcome(
            declared_options(*opts),
            long_only_mode(*opts),
            stops_at_first_free(*opts),
            args.deep_view(),
        ) {
            Ok(found) => r is Ok && occurrences(r->Ok_0) == found.0 && free_arguments(r->Ok_0)
                == found.1,
            Err(message) => r is Err && r->Err_0@ == message,
        },
        r is Ok ==> forall|i: int|
            0 <= i < declared_options(*opts).len() ==> occurrences(r->Ok_0).contains_key(
                (#[trigger] declared_options(*opts)[i]).0,
            ),
{
    match opts.parse(args) {
        Ok(matches) => Ok(matches),
        Err(fail) => Err(fail.to_string()),
    }
}

/// `Matches::opt_present`: whether the option occurred at all. `getopts`
/// panics on a name that was not declared, which `requires` leaves out.
#[verifier::external_body]
fn option_present(m: &Matches, name: &str) -> (r: bool)
    requires
        occurrences(*m).contains_key(name@),
    ensures
        r == (occurrences(*m)[name@].len() > 0),
{
    m.opt_present(name)
}

/// `Matches::opt_str`: the value of the option's first occurrence, if there
/// is one and it carried a value. `getopts` panics on a name that was not
/// declared, which `requires` leaves out.
#[verifier::external_body]
fn option_value(m: &Matches, name: &str) -> (r: Option<String>)
    requires
        occurrences(*m).contains_key(name@),
    ensures
        optional_text(r) == first_value(occurrences(*m)[name@]),
{
    m.opt_str(name)
}

/// `Matches::opt_strs`: the values of all the option's occurrences that
/// carried one, in order. `getopts` panics on a name that was not declared,
/// which `requires` leaves out.
#[verifier::external_body]
fn option_values(m: &Matches, name: &str) -> (r: Vec<String>)
    requires
        occurrences(*m).contains_key(name@),
    ensures
        r.deep_view() == given_values(occurrences(*m)[name@]),
{
    m.opt_strs(name)
}

/// The field `free` of `Matches`: a copy of the free arguments.
#[verifier::external_body]
fn free_of(m: &Matches) -> (r: Vec<String>)
    ensures
        r.deep_view() == free_arguments(*m),
{
    m.free.clone()
}

/// The options of the engine's command line, as they are declared: long names
/// only, `datadir` and `mod` repeatable with a value, `res` and `resversion`
/// single with a value, the rest flags.
pub open spec fn option_surface() -> Seq<(Seq<char>, bool, bool)> {
    seq![
        ("datadir"@, true, true),
        ("mod"@, true, true),
        ("res"@, true, false),
        ("resversion"@, true, false),
        ("unittests"@, false, false),
        ("editor"@, false, false),
        ("fullscreen"@, false, false),
        ("nosound"@, false, false),
        ("window"@, false, false),
        ("debug"@, false, false),
        ("help"@, false, false),
    ]
}

/// What a command line holds, option by option.
#[derive(Debug, PartialEq)]
pub struct ParsedArgs {
    /// The arguments that belong to no option.
    pub free: Vec<String>,
    /// The value of the first `datadir`.
    pub datadir: Option<String>,
    /// The values of every `mod`, in order.
    pub mods: Vec<String>,
    /// The value of `res`.
    pub res: Option<String>,
    /// The value of `resversion`.
    pub resversion: Option<String>,
    pub help: bool,
    pub unittests: bool,
    pub editor: bool,
    pub fullscreen: bool,
    pub nosound: bool,
    pub window: bool,
    pub debug: bool,
}

/// The mathematical value of a [`ParsedArgs`].
pub struct ParsedArgsView {
    pub free: Seq<Seq<char>>,
    pub datadir: Option<Seq<char>>,
    pub mods: Seq<Seq<char>>,
    pub res: Option<Seq<char>>,
    pub resversion: Option<Seq<char>>,
    pub help: bool,
    pub unittests: bool,
    pub editor: bool,
    pub fullscreen: bool,
    pub nosound: bool,
    pub window: bool,
    pub debug: bool,
}

impl View for ParsedArgs {
    type V = ParsedArgsView;

    open spec fn view(&self) -> ParsedArgsView {
        ParsedArgsView {
            free: self.free.deep_view(),
            datadir: optional_text(self.datadir),
            mods: self.mods.deep_view(),
            res: optional_text(self.res),
            resversion: optional_text(self.resversion),
            help: self.help,
            unittests: self.unittests,
            editor: self.editor,
            fullscreen: self.fullscreen,
            nosound: self.nosound,
            window: self.window,
            debug: self.debug,
        }
    }
}

/// The options read off the occurrences that parsing found.
pub open spec fn arguments_found(
    found: Map<Seq<char>, Seq<Option<Seq<char>>>>,
    free: Seq<Seq<char>>,
) -> ParsedArgsView {
    ParsedArgsView {
        free: free,
        datadir: first_value(found["datadir"@]),
        mods: given_values(found["mod"@]),
        res: first_value(found["res"@]),
        resversion: first_value(found["resversion"@]),
        help: found["help"@].len() > 0,
        unittests: found["unittests"@].len() > 0,
        editor: found["editor"@].len() > 0,
        fullscreen: found["fullscreen"@].len() > 0,
        nosound: found["nosound"@].len() > 0,
        window: found["window"@].len() > 0,
        debug: found["debug"@].len() > 0,
    }
}

/// The arguments after the program's name, which comes first. An empty list
/// has none.
pub open spec fn after_program_name(args: Seq<Seq<char>>) -> Seq<Seq<char>> {
    if args.len() >= 1 {
        args.subrange(1, args.len() as int)
    } else {
        args
    }
}

/// What the engine's command line holds, or the text of the failure that
/// parsing it ends in.
pub open spec fn command_line(args: Seq<Seq<char>>) -> Result<ParsedArgsView, Seq<char>> {
    match parse_outcome(option_surface(), true, false, after_program_name(args)) {
        Ok(found) => Ok(arguments_found(found.0, found.1)),
        Err(message) => Err(message),
    }
}

/// The text that free arguments are rejected with: all of them, as given,
/// with single spaces between.
pub open spec fn unknown_arguments_message(free: Seq<Seq<char>>) -> Seq<char> {
    "Unknown arguments: '"@ + joined(free) + "'."@
}

/// The text that `fullscreen` together with `window` is rejected with.
pub open spec fn conflicting_flags_message() -> Seq<char> {
    "Cannot use fullscreen and window switches at the same time."@
}

/// The text that a data directory which cannot be resolved is rejected with.
pub open spec fn invalid_datadir_message() -> Seq<char> {
    "Please specify an existing datadir."@
}

/// A path without its UNC prefix: where the path starts with two backslashes,
/// these and the segment after them, up to and with the next backslash, are
/// removed. A segment that runs to the end of the path leaves nothing. Any
/// other path stays as it is.
pub open spec fn without_unc_prefix(path: Seq<char>) -> Seq<char> {
    if path.len() >= 2 && path[0] == '\\' && path[1] == '\\' {
        let next = find_char(path, '\\', 2);
        if next < path.len() {
            path.subrange(next + 1, path.len() as int)
        } else {
            Seq::empty()
        }
    } else {
        path
    }
}

/// The record after the data directory and the mods of a command line were
/// laid over it.
pub open spec fn with_directories(
    before: EngineOptionsView,
    parsed: ParsedArgsView,
    canonical: Option<Seq<char>>,
) -> EngineOptionsView {
    EngineOptionsView {
        vanilla_data_dir: if parsed.datadir is Some && canonical is Some {
            without_unc_prefix(canonical->Some_0)
        } else {
            before.vanilla_data_dir
        },
        mods: if parsed.mods.len() > 0 {
            parsed.mods
        } else {
            before.mods
        },
        ..before
    }
}

/// The record after the flags of a command line were laid over it. A flag
/// that is present switches its field on; `window` switches `fullscreen` off;
/// an absent flag changes nothing.
pub open spec fn with_flags(before: EngineOptionsView, parsed: ParsedArgsView) -> EngineOptionsView {
    EngineOptionsView {
        show_help: before.show_help || parsed.help,
        run_unittests: before.run_unittests || parsed.unittests,
        run_editor: before.run_editor || parsed.editor,
        start_in_fullscreen: (before.start_in_fullscreen || parsed.fullscreen) && !parsed.window,
        start_without_sound: before.start_without_sound || parsed.nosound,
        start_in_debug_mode: before.start_in_debug_mode || parsed.debug,
        ..before
    }
}

/// The record after the resolution, the resource version and the flags of a
/// command line were laid over it, and success or the text of the failure.
/// A resolution that cannot be read ends it with the record unchanged; a
/// resource version that cannot be read ends it with the resolution set.
pub open spec fn with_values(before: EngineOptionsView, parsed: ParsedArgsView) -> (
    EngineOptionsView,
    Result<(), Seq<char>>,
) {
    if parsed.res is Some && resolution_of(parsed.res->Some_0) is None {
        (before, Err(invalid_resolution_message()))
    } else {
        let sized = EngineOptionsView {
            resolution: if parsed.res is Some {
                resolution_of(parsed.res->Some_0)->Some_0
            } else {
                before.resolution
            },
            ..before
        };
        if parsed.resversion is Some && ResourceVersion::named_by(parsed.resversion->Some_0)
            is None {
            (sized, Err(unknown_version_message(parsed.resversion->Some_0)))
        } else {
            let versioned = EngineOptionsView {
                resource_version: if parsed.resversion is Some {
                    ResourceVersion::named_by(parsed.resversion->Some_0)->Some_0
                } else {
                    sized.resource_version
                },
                ..sized
            };
            (with_flags(versioned, parsed), Ok(()))
        }
    }
}

/// The command line that holds `window` and nothing else.
pub open spec fn only_window() -> ParsedArgsView {
    ParsedArgsView {
        free: Seq::empty(),
        datadir: None,
        mods: Seq::empty(),
        res: None,
        resversion: None,
        help: false,
        unittests: false,
        editor: false,
        fullscreen: false,
        nosound: false,
        window: true,
        debug: false,
    }
}

/// What laying a command line over a record does: the record afterwards, and
/// success or the text of the failure.
///
/// `canonical` is the canonical form of the `datadir` value as the file system
/// gave it, or `None` where it could not resolve the path; it is looked at
/// only if `datadir` was given.
///
/// The checks come in this order, and the first that fails ends the merge:
/// free arguments; `fullscreen` with `window`; the data directory; the
/// resolution; the resource version. The first three leave the record as it
/// was. A failure after that leaves the record with what was laid over it
/// before.
pub open spec fn merged(
    before: EngineOptionsView,
    parsed: ParsedArgsView,
    canonical: Option<Seq<char>>,
) -> (EngineOptionsView, Result<(), Seq<char>>) {
    if parsed.free.len() > 0 {
        (before, Err(unknown_arguments_message(parsed.free)))
    } else if parsed.fullscreen && parsed.window {
        (before, Err(conflicting_flags_message()))
    } else if parsed.datadir is Some && canonical is None {
        (before, Err(invalid_datadir_message()))
    } else {
        with_values(with_directories(before, parsed, canonical), parsed)
    }
}

/// Removes the UNC prefix of a path, if it has one.
pub fn strip_unc_prefix(path: String) -> (r: String)
    ensures
        r@ == without_unc_prefix(path@),
{
    let text = path.as_str();
    let n: usize = text.unicode_len();
    if n >= 2 && text.get_char(0) == '\\' && text.get_char(1) == '\\' {
        let mut i: usize = 2;
        while i < n && text.get_char(i) != '\\'
            invariant
                2 <= i <= n == text@.len(),
                find_char(text@, '\\', 2) == find_char(text@, '\\', i as int),
            decreases n - i,
        {
            i = i + 1;
        }
        if i < n {
            String::from_str(text.substring_char(i + 1, n))
        } else {
            String::new()
        }
    } else {
        path
    }
}

/// Switches on the fields whose flags are present, and `fullscreen` off
/// where `window` is.
fn apply_flags(engine_options: &mut EngineOptions, parsed: &ParsedArgs)
    ensures
        final(engine_options)@ == with_flags(old(engine_options)@, parsed@),
{
    engine_options.show_help = engine_options.show_help || parsed.help;
    engine_options.run_unittests = engine_options.run_unittests || parsed.unittests;
    engine_options.run_editor = engine_options.run_editor || parsed.editor;
    engine_options.start_in_fullscreen = (engine_options.start_in_fullscreen || parsed.fullscreen)
        && !parsed.window;
    engine_options.start_without_sound = engine_options.start_without_sound || parsed.nosound;
    engine_options.start_in_debug_mode = engine_options.start_in_debug_mode || parsed.debug;
}

/// Sets the data directory, where one was given and resolved, and the mods,
/// where any were given.
fn apply_directories(
    engine_options: &mut EngineOptions,
    parsed: &ParsedArgs,
    canonical_datadir: Option<String>,
)
    ensures
        final(engine_options)@ == with_directories(
            old(engine_options)@,
            parsed@,
            optional_text(canonical_datadir),
        ),
{
    if parsed.datadir.is_some() {
        if let Some(canonical) = canonical_datadir {
            engine_options.vanilla_data_dir = strip_unc_prefix(canonical);
        }
    }
    if parsed.mods.len() > 0 {
        engine_options.mods = clone_strings(&parsed.mods);
    }
}

/// Sets the resolution and the resource version, where they were given, and
/// then the flags. Stops with the record as far as it got at a resolution or
/// a version that cannot be read.
fn apply_values(engine_options: &mut EngineOptions, parsed: &ParsedArgs) -> (r: Result<(), String>)
    ensures
        final(engine_options)@ == with_values(old(engine_options)@, parsed@).0,
        outcome_text(r) == with_values(old(engine_options)@, parsed@).1,
{
    if let Some(s) = &parsed.res {
        match parse_resolution(s.as_str()) {
            Ok(resolution) => {
                engine_options.resolution = resolution;
            },
            Err(message) => {
                return Err(message);
            },
        }
    }
    if let Some(s) = &parsed.resversion {
        match ResourceVersion::from_str(s.as_str()) {
            Ok(version) => {
                engine_options.resource_version = version;
            },
            Err(message) => {
                return Err(message);
            },
        }
    }
    apply_flags(engine_options, parsed);
    Ok(())
}

/// Lays what a command line holds over an options record.
///
/// `canonical_datadir` is what the file system made of the `datadir` value:
/// its canonical form, or `None` where the path does not resolve. The record
/// afterwards and the result are exactly those of [`merged`].
pub fn merge_parsed(
    engine_options: &mut EngineOptions,
    parsed: &ParsedArgs,
    canonical_datadir: Option<String>,
) -> (r: Result<(), String>)
    ensures
        final(engine_options)@ == merged(
            old(engine_options)@,
            parsed@,
            optional_text(canonical_datadir),
        ).0,
        outcome_text(r) == merged(old(engine_options)@, parsed@, optional_text(canonical_datadir)).1,
{
    if parsed.free.len() > 0 {
        let listed = join_with_spaces(&parsed.free);
        let message = String::from_str("Unknown arguments: '").concat(listed.as_str()).concat("'.");
        return Err(message);
    }
    if parsed.fullscreen && parsed.window {
        return Err(String::from_str("Cannot use fullscreen and window switches at the same time."));
    }
    if parsed.datadir.is_some() && canonical_datadir.is_none() {
        return Err(String::from_str("Please specify an existing datadir."));
    }
    apply_directories(engine_options, parsed, canonical_datadir);
    apply_values(engine_options, parsed)
}

/// The engine's command line: the arguments as the process got them, the
/// program's name first.
pub struct Cli {
    args: Vec<String>,
}

impl Cli {
    /// The arguments that the command line was made of.
    pub closed spec fn arguments(&self) -> Seq<Seq<char>> {
        self.args.deep_view()
    }

    /// A command line of the given arguments, of which the first is the
    /// program's name.
    pub fn new(args: Vec<String>) -> (r: Cli)
        ensures
            r.arguments() == args.deep_view(),
    {
        Cli { args: args }
    }

    /// The description of the engine's options: the options of
    /// [`option_surface`], in "long options only" mode.
    pub fn options() -> (r: Options)
        ensures
            declared_options(r) == option_surface(),
            long_only_mode(r),
            !stops_at_first_free(r),
    {
        let mut opts = new_description();
        set_long_only(&mut opts, true);
        proof {
            reveal_strlit("");
            reveal_strlit("datadir");
            reveal_strlit("mod");
            reveal_strlit("res");
            reveal_strlit("resversion");
            reveal_strlit("unittests");
            reveal_strlit("editor");
            reveal_strlit("fullscreen");
            reveal_strlit("nosound");
            reveal_strlit("window");
            reveal_strlit("debug");
            reveal_strlit("help");
        }
        declare_repeatable(&mut opts, "", "datadir", "Set path for data directory", "/opt/ja2");
        declare_repeatable(
            &mut opts,
            "",
            "mod",
            "Start one of the game modifications. MOD_NAME is the name of modification, e.g. 'from-russia-with-love. See mods folder for possible options'.",
            "MOD_NAME",
        );
        declare_single(
            &mut opts,
            "",
            "res",
            "Screen resolution, e.g. 800x600. Default value is 640x480",
            "WIDTHxHEIGHT",
        );
        declare_single(
            &mut opts,
            "",
            "resversion",
            "Version of the game resources. Possible values: DUTCH, ENGLISH, FRENCH, GERMAN, ITALIAN, POLISH, RUSSIAN, RUSSIAN_GOLD. Default value is ENGLISH. RUSSIAN is for BUKA Agonia Vlasty release. RUSSIAN_GOLD is for Gold release",
            "RUSSIAN_GOLD",
        );
        declare_flag(
            &mut opts,
            "",
            "unittests",
            "Perform unit tests. E.g. 'ja2.exe -unittests --gtest_output=\"xml:report.xml\" --gtest_repeat=2'",
        );
        declare_flag(&mut opts, "", "editor", "Start the map editor (Editor.slf is required)");
        declare_flag(&mut opts, "", "fullscreen", "Start the game in the fullscreen mode");
        declare_flag(&mut opts, "", "nosound", "Turn the sound and music off");
        declare_flag(&mut opts, "", "window", "Start the game in a window");
        declare_flag(&mut opts, "", "debug", "Enable Debug Mode");
        declare_flag(&mut opts, "", "help", "print this help menu");
        assert(declared_options(opts) =~= option_surface());
        opts
    }

    /// Parses the arguments after the program's name.
    ///
    /// The result is what [`command_line`] names for these arguments: the
    /// options found, or the failure's text as `getopts` words it.
    pub fn parse(&self) -> (r: Result<ParsedArgs, String>)
        ensures
            match command_line(self.arguments()) {
                Ok(found) => r is Ok && r->Ok_0@ == found,
                Err(message) => r is Err && r->Err_0@ == message,
            },
    {
        let opts = Cli::options();
        let all = self.args.as_slice();
        let given = if all.len() >= 1 {
            slice_subrange(all, 1, all.len())
        } else {
            all
        };
        proof {
            assert(given.deep_view() =~= after_program_name(self.arguments()));
            lemma_surface_names();
        }
        match parse_arguments(&opts, given) {
            Ok(matches) => Ok(read_matches(&matches)),
            Err(message) => Err(message),
        }
    }

    /// The value of `datadir` on the command line, for the caller to resolve
    /// on the file system before it merges. `None` where the command line
    /// does not parse or names no data directory.
    pub fn datadir(&self) -> (r: Option<String>)
        ensures
            optional_text(r) == match command_line(self.arguments()) {
                Ok(found) => found.datadir,
                Err(_) => None,
            },
    {
        match self.parse() {
            Ok(parsed) => parsed.datadir,
            Err(_) => None,
        }
    }

    /// Parses the command line and lays it over an options record.
    ///
    /// `canonical_datadir` is what the file system made of the value of
    /// [`Cli::datadir`]: its canonical form, or `None` where the path does
    /// not resolve or none was given. A command line that does not parse
    /// leaves the record as it was and fails with the parser's text. One that
    /// parses is merged as [`merged`] says.
    pub fn merge_options(
        &self,
        engine_options: &mut EngineOptions,
        canonical_datadir: Option<String>,
    ) -> (r: Result<(), String>)
        ensures
            final(engine_options)@ == merge_outcome(
                old(engine_options)@,
                command_line(self.arguments()),
                optional_text(canonical_datadir),
            ).0,
            outcome_text(r) == merge_outcome(
                old(engine_options)@,
                command_line(self.arguments()),
                optional_text(canonical_datadir),
            ).1,
    {
        match self.parse() {
            Ok(parsed) => merge_parsed(engine_options, &parsed, canonical_datadir),
            Err(message) => Err(message),
        }
    }
}

/// What merging does with the outcome of parsing: a failure of the parser is
/// handed on with the record unchanged, and what was found is merged.
pub open spec fn merge_outcome(
    before: EngineOptionsView,
    parsed: Result<ParsedArgsView, Seq<char>>,
    canonical: Option<Seq<char>>,
) -> (EngineOptionsView, Result<(), Seq<char>>) {
    match parsed {
        Ok(found) => merged(before, found, canonical),
        Err(message) => (before, Err(message)),
    }
}

/// Every option of the surface has a long name of more than one character.
proof fn lemma_surface_names()
    ensures
        all_long_names(option_surface()),
{
    reveal_strlit("datadir");
    reveal_strlit("mod");
    reveal_strlit("res");
    reveal_strlit("resversion");
    reveal_strlit("unittests");
    reveal_strlit("editor");
    reveal_strlit("fullscreen");
    reveal_strlit("nosound");
    reveal_strlit("window");
    reveal_strlit("debug");
    reveal_strlit("help");
}

/// Reads every option of the surface out of what parsing found.
fn read_matches(matches: &Matches) -> (r: ParsedArgs)
    requires
        forall|i: int|
            0 <= i < option_surface().len() ==> occurrences(*matches).contains_key(
                (#[trigger] option_surface()[i]).0,
            ),
    ensures
        r@ == arguments_found(occurrences(*matches), free_arguments(*matches)),
{
    proof {
        let surface = option_surface();
        assert(surface[0].0 == "datadir"@);
        assert(surface[1].0 == "mod"@);
        assert(surface[2].0 == "res"@);
        assert(surface[3].0 == "resversion"@);
        assert(surface[4].0 == "unittests"@);
        assert(surface[5].0 == "editor"@);
        assert(surface[6].0 == "fullscreen"@);
        assert(surface[7].0 == "nosound"@);
        assert(surface[8].0 == "window"@);
        assert(surface[9].0 == "debug"@);
        assert(surface[10].0 == "help"@);
    }
    ParsedArgs {
        free: free_of(matches),
        datadir: option_value(matches, "datadir"),
        mods: option_values(matches, "mod"),
        res: option_value(matches, "res"),
        resversion: option_value(matches, "resversion"),
        help: option_present(matches, "help"),
        unittests: option_present(matches, "unittests"),
        editor: option_present(matches, "editor"),
        fullscreen: option_present(matches, "fullscreen"),
        nosound: option_present(matches, "nosound"),
        window: option_present(matches, "window"),
        debug: option_present(matches, "debug"),
    }
}

/// Parses a command line and lays it over an options record, as
/// [`Cli::merge_options`] does, and gives the failure's text, if any.
pub fn parse_args(
    engine_options: &mut EngineOptions,
    args: Vec<String>,
    canonical_datadir: Option<String>,
) -> (r: Option<String>)
    ensures
        final(engine_options)@ == merge_outcome(
            old(engine_options)@,
            command_line(args.deep_view()),
            optional_text(canonical_datadir),
        ).0,
        match merge_outcome(
            old(engine_options)@,
            command_line(args.deep_view()),
            optional_text(canonical_datadir),
        ).1 {
            Ok(_) => r is None,
            Err(message) => r is Some && r->Some_0@ == message,
        },
{
    let cli = Cli::new(args);
    match cli.merge_options(engine_options, canonical_datadir) {
        Ok(_) => None,
        Err(message) => Some(message),
    }
}

/// `fullscreen` together with `window` is rejected as a conflict, and the
/// record stays as it was, whatever else the command line holds besides free
/// arguments.
pub proof fn lemma_fullscreen_with_window_conflicts(
    before: EngineOptionsView,
    parsed: ParsedArgsView,
    canonical: Option<Seq<char>>,
)
    requires
        parsed.fullscreen,
        parsed.window,
        parsed.free.len() == 0,
    ensures
        merged(before, parsed, canonical) == (before, Err::<(), Seq<char>>(conflicting_flags_message())),
{
}

/// After a merge that succeeds on a command line with `window`, the record
/// does not start in fullscreen, whatever it said before.
pub proof fn lemma_window_clears_fullscreen(
    before: EngineOptionsView,
    parsed: ParsedArgsView,
    canonical: Option<Seq<char>>,
)
    requires
        parsed.window,
        merged(before, parsed, canonical).1 is Ok,
    ensures
        !merged(before, parsed, canonical).0.start_in_fullscreen,
{
}

/// `window` alone always succeeds, switches `fullscreen` off and changes
/// nothing else.
pub proof fn lemma_window_alone(before: EngineOptionsView, canonical: Option<Seq<char>>)
    ensures
        merged(before, only_window(), canonical) == (
            EngineOptionsView { start_in_fullscreen: false, ..before },
            Ok::<(), Seq<char>>(()),
        ),
{
}

/// A merge never switches a flag off but `fullscreen` under `window`, and
/// never touches the settings directory or the window request.
pub proof fn lemma_merge_keeps_flags(
    before: EngineOptionsView,
    parsed: ParsedArgsView,
    canonical: Option<Seq<char>>,
)
    ensures
        ({
            let after = merged(before, parsed, canonical).0;
            &&& before.show_help ==> after.show_help
            &&& before.run_unittests ==> after.run_unittests
            &&& before.run_editor ==> after.run_editor
            &&& before.start_without_sound ==> after.start_without_sound
            &&& before.start_in_debug_mode ==> after.start_in_debug_mode
            &&& before.start_in_fullscreen && !parsed.window ==> after.start_in_fullscreen
            &&& after.start_in_window == before.start_in_window
            &&& after.stracciatella_home == before.stracciatella_home
        }),
{
}

/// A merge keeps a valid record valid: a resolution that it sets has two
/// positive components.
pub proof fn lemma_merge_keeps_validity(
    before: EngineOptionsView,
    parsed: ParsedArgsView,
    canonical: Option<Seq<char>>,
)
    requires
        before.is_valid(),
    ensures
        merged(before, parsed, canonical).0.is_valid(),
{
}

/// A command line without options and free arguments changes nothing.
pub proof fn lemma_empty_command_line_changes_nothing(
    before: EngineOptionsView,
    parsed: ParsedArgsView,
    canonical: Option<Seq<char>>,
)
    requires
        parsed.free.len() == 0,
        parsed.datadir is None,
        parsed.mods.len() == 0,
        parsed.res is None,
        parsed.resversion is None,
        !parsed.help && !parsed.unittests && !parsed.editor && !parsed.fullscreen,
        !parsed.nosound && !parsed.window && !parsed.debug,
    ensures
        merged(before, parsed, canonical) == (before, Ok::<(), Seq<char>>(())),
{
}

} // verus!
