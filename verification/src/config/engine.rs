//! The options record that the engine is started with.

use vstd::prelude::*;
use crate::config::resolution::lemma_parse_of_formatted;
use crate::config::resolution::resolution_of;
use crate::config::resolution::resolution_text;
use crate::resources::ResourceVersion;
use crate::text::clone_strings;

verus! {

/// Everything the engine needs to know at start-up.
///
/// Paths are held as text. The empty text in `vanilla_data_dir` means that no
/// data directory is set.
#[derive(Debug, PartialEq)]
pub struct EngineOptions {
    /// The settings directory of the user. Never stored in the settings file.
    pub stracciatella_home: String,
    /// The directory of the vanilla game's data.
    pub vanilla_data_dir: String,
    /// The active mods, in activation order.
    pub mods: Vec<String>,
    /// Width and height of the screen.
    pub resolution: (u16, u16),
    /// The localisation of the game data.
    pub resource_version: ResourceVersion,
    /// Session flag: print the usage text.
    pub show_help: bool,
    /// Session flag: run the unit tests.
    pub run_unittests: bool,
    /// Session flag: start the map editor.
    pub run_editor: bool,
    pub start_in_fullscreen: bool,
    /// Never stored and never driven by the command line.
    pub start_in_window: bool,
    pub start_in_debug_mode: bool,
    pub start_without_sound: bool,
}

/// The mathematical value of an [`EngineOptions`] record.
pub struct EngineOptionsView {
    pub stracciatella_home: Seq<char>,
    pub vanilla_data_dir: Seq<char>,
    pub mods: Seq<Seq<char>>,
    pub resolution: (u16, u16),
    pub resource_version: ResourceVersion,
    pub show_help: bool,
    pub run_unittests: bool,
    pub run_editor: bool,
    pub start_in_fullscreen: bool,
    pub start_in_window: bool,
    pub start_in_debug_mode: bool,
    pub start_without_sound: bool,
}

impl View for EngineOptions {
    type V = EngineOptionsView;

    open spec fn view(&self) -> EngineOptionsView {
        EngineOptionsView {
            stracciatella_home: self.stracciatella_home@,
            vanilla_data_dir: self.vanilla_data_dir@,
            mods: self.mods.deep_view(),
            resolution: self.resolution,
            resource_version: self.resource_version,
            show_help: self.show_help,
            run_unittests: self.run_unittests,
            run_editor: self.run_editor,
            start_in_fullscreen: self.start_in_fullscreen,
            start_in_window: self.start_in_window,
            start_in_debug_mode: self.start_in_debug_mode,
            start_without_sound: self.start_without_sound,
        }
    }
}

/// The part of the record that the settings file holds.
#[derive(Debug, PartialEq)]
pub struct PersistedOptions {
    pub data_dir: String,
    pub mods: Vec<String>,
    pub resolution: (u16, u16),
    pub resource_version: ResourceVersion,
    pub fullscreen: bool,
    pub debug: bool,
    pub nosound: bool,
}

/// The mathematical value of a [`PersistedOptions`] record.
pub struct PersistedOptionsView {
    pub data_dir: Seq<char>,
    pub mods: Seq<Seq<char>>,
    pub resolution: (u16, u16),
    pub resource_version: ResourceVersion,
    pub fullscreen: bool,
    pub debug: bool,
    pub nosound: bool,
}

impl View for PersistedOptions {
    type V = PersistedOptionsView;

    open spec fn view(&self) -> PersistedOptionsView {
        PersistedOptionsView {
            data_dir: self.data_dir@,
            mods: self.mods.deep_view(),
            resolution: self.resolution,
            resource_version: self.resource_version,
            fullscreen: self.fullscreen,
            debug: self.debug,
            nosound: self.nosound,
        }
    }
}

impl EngineOptionsView {
    /// The record that nothing has been set in yet.
    pub open spec fn initial() -> EngineOptionsView {
        EngineOptionsView {
            stracciatella_home: Seq::empty(),
            vanilla_data_dir: Seq::empty(),
            mods: Seq::empty(),
            resolution: (640u16, 480u16),
            resource_version: ResourceVersion::ENGLISH,
            show_help: false,
            run_unittests: false,
            run_editor: false,
            start_in_fullscreen: false,
            start_in_window: true,
            start_in_debug_mode: false,
            start_without_sound: false,
        }
    }

    /// Both components of the resolution are positive.
    pub open spec fn is_valid(self) -> bool {
        self.resolution.0 > 0 && self.resolution.1 > 0
    }

    /// The fields that the settings file holds.
    pub open spec fn persisted(self) -> PersistedOptionsView {
        PersistedOptionsView {
            data_dir: self.vanilla_data_dir,
            mods: self.mods,
            resolution: self.resolution,
            resource_version: self.resource_version,
            fullscreen: self.start_in_fullscreen,
            debug: self.start_in_debug_mode,
            nosound: self.start_without_sound,
        }
    }

    /// The record that a settings file's fields stand for: every field that
    /// the file does not hold has its initial value.
    pub open spec fn loaded(p: PersistedOptionsView) -> EngineOptionsView {
        EngineOptionsView {
            vanilla_data_dir: p.data_dir,
            mods: p.mods,
            resolution: p.resolution,
            resource_version: p.resource_version,
            start_in_fullscreen: p.fullscreen,
            start_in_debug_mode: p.debug,
            start_without_sound: p.nosound,
            ..Self::initial()
        }
    }
}

impl Clone for EngineOptions {
    fn clone(&self) -> (r: EngineOptions)
        ensures
            r@ == self@,
    {
        EngineOptions {
            stracciatella_home: self.stracciatella_home.clone(),
            vanilla_data_dir: self.vanilla_data_dir.clone(),
            mods: clone_strings(&self.mods),
            resolution: (self.resolution.0, self.resolution.1),
            resource_version: self.resource_version,
            show_help: self.show_help,
            run_unittests: self.run_unittests,
            run_editor: self.run_editor,
            start_in_fullscreen: self.start_in_fullscreen,
            start_in_window: self.start_in_window,
            start_in_debug_mode: self.start_in_debug_mode,
            start_without_sound: self.start_without_sound,
        }
    }
}

impl Clone for PersistedOptions {
    fn clone(&self) -> (r: PersistedOptions)
        ensures
            r@ == self@,
    {
        PersistedOptions {
            data_dir: self.data_dir.clone(),
            mods: clone_strings(&self.mods),
            resolution: (self.resolution.0, self.resolution.1),
            resource_version: self.resource_version,
            fullscreen: self.fullscreen,
            debug: self.debug,
            nosound: self.nosound,
        }
    }
}

impl Default for EngineOptions {
    /// The record that nothing has been set in yet: 640x480, English data,
    /// the window requested and every other flag off.
    fn default() -> (r: EngineOptions)
        ensures
            r@ == EngineOptionsView::initial(),
            r@.is_valid(),
    {
        let r = EngineOptions {
            stracciatella_home: String::new(),
            vanilla_data_dir: String::new(),
            mods: Vec::new(),
            resolution: (640, 480),
            resource_version: ResourceVersion::ENGLISH,
            show_help: false,
            run_unittests: false,
            run_editor: false,
            start_in_fullscreen: false,
            start_in_window: true,
            start_in_debug_mode: false,
            start_without_sound: false,
        };
        assert(r.mods.deep_view() =~= Seq::<Seq<char>>::empty());
        r
    }
}

impl Default for PersistedOptions {
    /// The fields of a settings file that holds no key at all.
    fn default() -> (r: PersistedOptions)
        ensures
            r@ == EngineOptionsView::initial().persisted(),
    {
        let r = PersistedOptions {
            data_dir: String::new(),
            mods: Vec::new(),
            resolution: (640, 480),
            resource_version: ResourceVersion::ENGLISH,
            fullscreen: false,
            debug: false,
            nosound: false,
        };
        assert(r.mods.deep_view() =~= Seq::<Seq<char>>::empty());
        r
    }
}

impl EngineOptions {
    /// The fields that the settings file holds, copied out of the record.
    pub fn persisted(&self) -> (r: PersistedOptions)
        ensures
            r@ == self@.persisted(),
    {
        PersistedOptions {
            data_dir: self.vanilla_data_dir.clone(),
            mods: clone_strings(&self.mods),
            resolution: self.resolution,
            resource_version: self.resource_version,
            fullscreen: self.start_in_fullscreen,
            debug: self.start_in_debug_mode,
            nosound: self.start_without_sound,
        }
    }

    /// The record that a decoded settings file stands for. The settings
    /// directory and the session flags are not taken from a file: they start
    /// from their initial values.
    pub fn from_persisted(p: PersistedOptions) -> (r: EngineOptions)
        ensures
            r@ == EngineOptionsView::loaded(p@),
    {
        EngineOptions {
            stracciatella_home: String::new(),
            vanilla_data_dir: p.data_dir,
            mods: p.mods,
            resolution: p.resolution,
            resource_version: p.resource_version,
            show_help: false,
            run_unittests: false,
            run_editor: false,
            start_in_fullscreen: p.fullscreen,
            start_in_window: true,
            start_in_debug_mode: p.debug,
            start_without_sound: p.nosound,
        }
    }
}

/// Storing a record's persisted fields and loading them again keeps every
/// persisted field.
pub proof fn lemma_persisted_fields_survive(o: EngineOptionsView)
    ensures
        EngineOptionsView::loaded(o.persisted()).persisted() == o.persisted(),
{
}

/// What a valid record stores reads back as it was: the text of its
/// resolution denotes the resolution, the tag of its resource version names
/// the version, and loading the stored fields gives a record with the same
/// stored fields.
pub proof fn lemma_stored_form_reads_back(o: EngineOptionsView)
    requires
        o.is_valid(),
    ensures
        resolution_of(resolution_text(o.resolution.0, o.resolution.1)) == Some(o.resolution),
        ResourceVersion::named_by(o.resource_version.tag()) == Some(o.resource_version),
        EngineOptionsView::loaded(o.persisted()).persisted() == o.persisted(),
        EngineOptionsView::loaded(o.persisted()).is_valid(),
{
    lemma_parse_of_formatted(o.resolution.0, o.resolution.1);
    o.resource_version.lemma_tag_names_version();
}

/// Loading an empty settings file gives the initial record: every field at
/// its default, the window requested and no mods.
pub proof fn lemma_empty_file_loads_initial()
    ensures
        EngineOptionsView::loaded(EngineOptionsView::initial().persisted())
            == EngineOptionsView::initial(),
        EngineOptionsView::initial().start_in_window,
        EngineOptionsView::initial().mods.len() == 0,
{
}

/// Loading never takes the settings directory or a session flag from the
/// file.
pub proof fn lemma_loading_resets_session_fields(p: PersistedOptionsView)
    ensures
        EngineOptionsView::loaded(p).stracciatella_home.len() == 0,
        !EngineOptionsView::loaded(p).show_help,
        !EngineOptionsView::loaded(p).run_unittests,
        !EngineOptionsView::loaded(p).run_editor,
        EngineOptionsView::loaded(p).start_in_window,
{
}

} // verus!
