//! The settings file: where it lies, what a fresh one holds, and the steps
//! that make sure it exists.

use vstd::prelude::*;
use vstd::string::*;

verus! {

/// A directory's path with a relative name added, as the platform's path type
/// joins the two: a `/` goes between them unless the directory's path is
/// empty or ends in one already.
pub open spec fn joined_path(directory: Seq<char>, name: Seq<char>) -> Seq<char> {
    if directory.len() == 0 || directory.last() == '/' {
        directory + name
    } else {
        directory + seq!['/'] + name
    }
}

/// Adds a relative name to a directory's path.
pub fn join_path(directory: &str, name: &str) -> (r: String)
    ensures
        r@ == joined_path(directory@, name@),
{
    let n: usize = directory.unicode_len();
    let mut out = String::from_str(directory);
    if n > 0 && directory.get_char(n - 1) != '/' {
        out.push('/');
    }
    out.append(name);
    out
}

/// The path of the settings file in a settings directory.
pub open spec fn config_file_in(stracciatella_home: Seq<char>) -> Seq<char> {
    joined_path(stracciatella_home, "ja2.json"@)
}

/// The family of platforms that the settings file is made for.
#[derive(Debug, PartialEq, Eq, Structural, Clone, Copy)]
pub enum Platform {
    /// POSIX-like systems.
    Unix,
    /// Windows.
    Windows,
}

/// What a fresh settings file holds: a hint for the user, and an example of a
/// data directory in the platform's notation.
pub open spec fn default_json_content(platform: Platform) -> Seq<char> {
    match platform {
        Platform::Unix => "{\n    \"help\": \"Put the directory to your original ja2 installation into the line below\",\n    \"data_dir\": \"/some/place/where/the/data/is\"\n}"@,
        Platform::Windows => "{\n   \"help\": \"Put the directory to your original ja2 installation into the line below. Make sure to use double backslashes.\",\n   \"data_dir\": \"C:\\\\Program Files\\\\Jagged Alliance 2\"\n}"@,
    }
}

/// What the caller reports back while it makes sure that the settings file
/// exists.
#[derive(Debug, PartialEq, Eq, Structural, Clone, Copy)]
pub enum EnsureEvent {
    /// Nothing was done yet.
    Start,
    /// The settings directory and its parents exist now.
    DirectoryCreated,
    /// The settings file was looked for: whether a file is there.
    Probed { is_file: bool },
    /// The fresh content was written.
    DefaultWritten,
}

/// What the caller does next to make sure that the settings file exists.
#[derive(Debug, PartialEq, Eq, Structural, Clone, Copy)]
pub enum EnsureStep {
    /// Create the settings directory with its parents.
    CreateDirectory,
    /// Look whether the settings file is there.
    ProbeFile,
    /// Create the settings file with the fresh content.
    WriteDefault,
    /// The settings file exists.
    Done,
}

/// The step that follows an event. The directory comes first, then the look
/// for the file; the fresh content is written only where no file was found.
pub open spec fn step_after(event: EnsureEvent) -> EnsureStep {
    match event {
        EnsureEvent::Start => EnsureStep::CreateDirectory,
        EnsureEvent::DirectoryCreated => EnsureStep::ProbeFile,
        EnsureEvent::Probed { is_file } => if is_file {
            EnsureStep::Done
        } else {
            EnsureStep::WriteDefault
        },
        EnsureEvent::DefaultWritten => EnsureStep::Done,
    }
}

/// The text that a failed step on the file system is reported with, from the
/// kind of the failure.
pub open spec fn io_failure_message(kind: Seq<char>) -> Seq<char> {
    "! "@ + kind
}

/// The text that a settings file which cannot be opened is reported with.
pub open spec fn read_failure_message(description: Seq<char>) -> Seq<char> {
    "Error reading ja2.json config file: "@ + description
}

/// The text that a settings file which cannot be decoded is reported with;
/// it ends in the decoder's own words.
pub open spec fn parse_failure_message(diagnostic: Seq<char>) -> Seq<char> {
    "Error parsing ja2.json config file: "@ + diagnostic
}

/// The stage at which writing the settings file failed.
#[derive(Debug, PartialEq, Eq, Structural, Clone, Copy)]
pub enum WriteStage {
    /// The record could not be encoded.
    Encode,
    /// The file could not be created.
    Create,
    /// The content could not be written.
    Write,
}

/// The text that a failed write of the settings file is reported with.
pub open spec fn write_failure_message(stage: WriteStage, description: Seq<char>) -> Seq<char> {
    match stage {
        WriteStage::Encode => "Error creating contents of ja2.json config file: "@ + description,
        WriteStage::Create => "Error creating ja2.json config file: "@ + description,
        WriteStage::Write => "Error writing ja2.json config file: "@ + description,
    }
}

/// The settings file of one settings directory.
pub struct JsonConfig {
    home: String,
    path: String,
}

impl JsonConfig {
    /// The settings directory.
    pub closed spec fn directory(&self) -> Seq<char> {
        self.home@
    }

    /// The path of the settings file.
    pub closed spec fn location(&self) -> Seq<char> {
        self.path@
    }

    /// The file lies in its directory under the fixed name.
    pub closed spec fn is_valid(&self) -> bool {
        self.path@ == config_file_in(self.home@)
    }

    /// The settings file of the given settings directory: the file named
    /// `ja2.json` in it.
    pub fn new(stracciatella_home: &str) -> (r: JsonConfig)
        ensures
            r.is_valid(),
            r.directory() == stracciatella_home@,
            r.location() == config_file_in(stracciatella_home@),
    {
        JsonConfig {
            home: String::from_str(stracciatella_home),
            path: join_path(stracciatella_home, "ja2.json"),
        }
    }

    /// The settings directory, which is created before the file.
    pub fn home(&self) -> (r: &str)
        ensures
            r@ == self.directory(),
    {
        self.home.as_str()
    }

    /// The path of the settings file.
    pub fn path(&self) -> (r: &str)
        ensures
            r@ == self.location(),
    {
        self.path.as_str()
    }

    /// What a fresh settings file holds on a platform.
    pub fn default_content(platform: Platform) -> (r: &'static str)
        ensures
            r@ == default_json_content(platform),
    {
        match platform {
            Platform::Unix => "{\n    \"help\": \"Put the directory to your original ja2 installation into the line below\",\n    \"data_dir\": \"/some/place/where/the/data/is\"\n}",
            Platform::Windows => "{\n   \"help\": \"Put the directory to your original ja2 installation into the line below. Make sure to use double backslashes.\",\n   \"data_dir\": \"C:\\\\Program Files\\\\Jagged Alliance 2\"\n}",
        }
    }

    /// The next step towards an existing settings file, after what the
    /// caller reports. A file that is there is never written over.
    pub fn ensure_existence(&self, event: EnsureEvent) -> (r: EnsureStep)
        ensures
            r == step_after(event),
    {
        match event {
            EnsureEvent::Start => EnsureStep::CreateDirectory,
            EnsureEvent::DirectoryCreated => EnsureStep::ProbeFile,
            EnsureEvent::Probed { is_file } => {
                if is_file {
                    EnsureStep::Done
                } else {
                    EnsureStep::WriteDefault
                }
            },
            EnsureEvent::DefaultWritten => EnsureStep::Done,
        }
    }

    /// The failure of a step on the file system while the file's existence
    /// is made sure of, worded from the kind of the failure.
    pub fn io_failure(kind: &str) -> (r: String)
        ensures
            r@ == io_failure_message(kind@),
    {
        String::from_str("! ").concat(kind)
    }

    /// The failure to open the settings file, worded from the system's
    /// description.
    pub fn read_failure(description: &str) -> (r: String)
        ensures
            r@ == read_failure_message(description@),
    {
        String::from_str("Error reading ja2.json config file: ").concat(description)
    }

    /// The failure to decode the settings file. The decoder's diagnostic,
    /// with its line and column, is kept word for word.
    pub fn parse_failure(diagnostic: &str) -> (r: String)
        ensures
            r@ == parse_failure_message(diagnostic@),
    {
        String::from_str("Error parsing ja2.json config file: ").concat(diagnostic)
    }

    /// The failure to write the settings file, worded by the stage that
    /// failed and the system's description.
    pub fn write_failure(stage: WriteStage, description: &str) -> (r: String)
        ensures
            r@ == write_failure_message(stage, description@),
    {
        match stage {
            WriteStage::Encode => String::from_str(
                "Error creating contents of ja2.json config file: ",
            ).concat(description),
            WriteStage::Create => String::from_str("Error creating ja2.json config file: ").concat(
                description,
            ),
            WriteStage::Write => String::from_str("Error writing ja2.json config file: ").concat(
                description,
            ),
        }
    }
}

/// The fresh content is written after exactly one event: the look for the
/// file that found none. So a file that is there is never written over.
pub proof fn lemma_existing_file_is_kept(event: EnsureEvent)
    ensures
        step_after(event) == EnsureStep::WriteDefault <==> event == (EnsureEvent::Probed {
            is_file: false,
        }),
        step_after(EnsureEvent::Probed { is_file: true }) == EnsureStep::Done,
{
}

} // verus!
