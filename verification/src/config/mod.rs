//! The engine options record and the stages that fill it: the settings
//! directory, the settings file, the command line, and the final check.

pub mod cli;
pub mod engine;
pub mod home;
pub mod json;
pub mod resolution;

pub use self::cli::parse_args;
pub use self::cli::Cli;
pub use self::cli::ParsedArgs;
pub use self::engine::EngineOptions;
pub use self::engine::PersistedOptions;
pub use self::home::find_stracciatella_home;
pub use self::home::find_stracciatella_home_on_windows;
pub use self::home::DocumentsFolder;
pub use self::json::JsonConfig;
pub use self::resolution::format_resolution;
pub use self::resolution::parse_resolution;

use vstd::prelude::*;
use vstd::string::*;
use self::cli::command_line;
use self::cli::merge_outcome;
use self::cli::merged;
use self::cli::without_unc_prefix;
use self::cli::ParsedArgsView;
use self::engine::EngineOptionsView;
use crate::text::optional_text;

verus! {

/// The text that a record without a data directory is rejected with.
pub open spec fn missing_data_dir_message() -> Seq<char> {
    "Vanilla data directory has to be set either in config file or per command line switch"@
}

/// What resolution makes of a loaded record, the settings directory and the
/// outcome of parsing the command line: the settings directory is stamped on
/// the record, the command line is merged over it, and the result must hold
/// a data directory. The first failure ends it.
pub open spec fn resolved(
    loaded: EngineOptionsView,
    stracciatella_home: Seq<char>,
    parsed: Result<ParsedArgsView, Seq<char>>,
    canonical: Option<Seq<char>>,
) -> Result<EngineOptionsView, Seq<char>> {
    let stamped = EngineOptionsView { stracciatella_home: stracciatella_home, ..loaded };
    let (after, outcome) = merge_outcome(stamped, parsed, canonical);
    match outcome {
        Err(message) => Err(message),
        Ok(_) => if after.vanilla_data_dir.len() == 0 {
            Err(missing_data_dir_message())
        } else {
            Ok(after)
        },
    }
}

/// Builds the options that the engine starts with.
///
/// `stracciatella_home` is the settings directory, `loaded` the record that
/// the settings file in it was decoded to, `args` the command line with the
/// program's name first, and `canonical_datadir` what the file system made
/// of the command line's `datadir`, if it names one and the path resolves.
/// The result is exactly that of [`resolved`].
pub fn build_engine_options_from_env_and_args(
    stracciatella_home: String,
    loaded: EngineOptions,
    args: Vec<String>,
    canonical_datadir: Option<String>,
) -> (r: Result<EngineOptions, String>)
    ensures
        match resolved(
            loaded@,
            stracciatella_home@,
            command_line(args.deep_view()),
            optional_text(canonical_datadir),
        ) {
            Ok(options) => r is Ok && r->Ok_0@ == options,
            Err(message) => r is Err && r->Err_0@ == message,
        },
{
    let cli = Cli::new(args);
    let mut engine_options = loaded;
    engine_options.stracciatella_home = stracciatella_home;
    match cli.merge_options(&mut engine_options, canonical_datadir) {
        Err(message) => Err(message),
        Ok(_) => {
            if engine_options.vanilla_data_dir.as_str().unicode_len() == 0 {
                Err(
                    String::from_str(
                        "Vanilla data directory has to be set either in config file or per command line switch",
                    ),
                )
            } else {
                Ok(engine_options)
            }
        },
    }
}

/// A record that resolution hands out holds a data directory and the settings
/// directory that was given, whatever the settings file said of either; and
/// it is valid if the loaded record was.
pub proof fn lemma_resolved_record(
    loaded: EngineOptionsView,
    stracciatella_home: Seq<char>,
    parsed: Result<ParsedArgsView, Seq<char>>,
    canonical: Option<Seq<char>>,
)
    requires
        resolved(loaded, stracciatella_home, parsed, canonical) is Ok,
    ensures
        resolved(loaded, stracciatella_home, parsed, canonical)->Ok_0.vanilla_data_dir.len() > 0,
        resolved(loaded, stracciatella_home, parsed, canonical)->Ok_0.stracciatella_home
            == stracciatella_home,
        loaded.is_valid() ==> resolved(loaded, stracciatella_home, parsed, canonical)->Ok_0.is_valid(),
{
}

/// A command line that the parser rejects ends resolution with the parser's
/// words, whatever the settings file held.
pub proof fn lemma_parser_failure_ends_resolution(
    loaded: EngineOptionsView,
    stracciatella_home: Seq<char>,
    message: Seq<char>,
    canonical: Option<Seq<char>>,
)
    ensures
        resolved(loaded, stracciatella_home, Err(message), canonical) == Err::<
            EngineOptionsView,
            Seq<char>,
        >(message),
{
}

/// Where neither the settings file nor the command line names a data
/// directory, resolution fails for want of one, provided that the command
/// line is accepted.
pub proof fn lemma_no_data_dir_fails(
    loaded: EngineOptionsView,
    stracciatella_home: Seq<char>,
    found: ParsedArgsView,
    canonical: Option<Seq<char>>,
)
    requires
        loaded.vanilla_data_dir.len() == 0,
        found.datadir is None,
        merged(
            EngineOptionsView { stracciatella_home: stracciatella_home, ..loaded },
            found,
            canonical,
        ).1 is Ok,
    ensures
        resolved(loaded, stracciatella_home, Ok(found), canonical) == Err::<
            EngineOptionsView,
            Seq<char>,
        >(missing_data_dir_message()),
{
}

/// Where the command line names a data directory that resolves to a path
/// which is not empty once its UNC prefix is off, and is accepted,
/// resolution succeeds with that path, whatever the settings file held.
pub proof fn lemma_data_dir_from_command_line(
    loaded: EngineOptionsView,
    stracciatella_home: Seq<char>,
    found: ParsedArgsView,
    canonical: Seq<char>,
)
    requires
        found.datadir is Some,
        without_unc_prefix(canonical).len() > 0,
        merged(
            EngineOptionsView { stracciatella_home: stracciatella_home, ..loaded },
            found,
            Some(canonical),
        ).1 is Ok,
    ensures
        resolved(loaded, stracciatella_home, Ok(found), Some(canonical)) is Ok,
        resolved(loaded, stracciatella_home, Ok(found), Some(canonical))->Ok_0.vanilla_data_dir
            == without_unc_prefix(canonical),
        resolved(loaded, stracciatella_home, Ok(found), Some(canonical))->Ok_0.stracciatella_home
            == stracciatella_home,
{
}

} // verus!
