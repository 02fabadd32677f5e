use stracciatella::config::build_engine_options_from_env_and_args;
use stracciatella::config::find_stracciatella_home;
use stracciatella::config::find_stracciatella_home_on_windows;
use stracciatella::config::DocumentsFolder;
use stracciatella::config::parse_resolution;
use stracciatella::config::EngineOptions;
use stracciatella::config::PersistedOptions;
use stracciatella::resources::ResourceVersion;

fn load(contents: &[u8]) -> EngineOptions {
    let value: serde_json::Value = serde_json::from_slice(contents).unwrap();
    let mut stored = PersistedOptions::default();
    if let Some(text) = value.get("data_dir").and_then(|v| v.as_str()) {
        stored.data_dir = String::from(text);
    }
    if let Some(text) = value.get("res").and_then(|v| v.as_str()) {
        stored.resolution = parse_resolution(text).unwrap();
    }
    if let Some(text) = value.get("resversion").and_then(|v| v.as_str()) {
        stored.resource_version = ResourceVersion::from_str(text).unwrap();
    }
    if let Some(flag) = value.get("fullscreen").and_then(|v| v.as_bool()) {
        stored.fullscreen = flag;
    }
    EngineOptions::from_persisted(stored)
}

#[test]
fn home_find_stracciatella_home_should_find_the_correct_stracciatella_home_path_on_unixlike() {
    let stracciatella_home = find_stracciatella_home(Some(String::from("/home/test"))).unwrap();

    assert_eq!(stracciatella_home, format!("{}/.ja2", "/home/test"));
}

#[test]
fn find_stracciatella_home_fails_without_a_home_directory() {
    assert_eq!(find_stracciatella_home(None), Err(String::from("Could not find home directory")));
}

#[test]
fn find_stracciatella_home_adds_no_second_separator() {
    assert_eq!(find_stracciatella_home(Some(String::from("/"))), Ok(String::from("/.ja2")));
    assert_eq!(find_stracciatella_home(Some(String::from("/home/test/"))), Ok(String::from("/home/test/.ja2")));
}

#[test]
fn mod_build_engine_options_from_env_and_args_should_overwrite_json_with_command_line_args() {
    let loaded = load(b"{ \"data_dir\": \"/some/place/where/the/data/is\", \"res\": \"1024x768\", \"fullscreen\": true }");
    let args = vec![String::from("ja2"), String::from("--res"), String::from("1100x480")];

    let engine_options_res = build_engine_options_from_env_and_args(String::from("/home/test/.ja2"), loaded, args, None);
    let engine_options = engine_options_res.unwrap();

    assert_eq!(engine_options.resolution, (1100, 480));
    assert!(engine_options.start_in_fullscreen);
}

#[test]
fn mod_build_engine_options_from_env_and_args_should_return_an_error_if_datadir_is_not_set() {
    let loaded = load(b"{ \"res\": \"1024x768\", \"fullscreen\": true }");
    let args = vec![String::from("ja2"), String::from("--res"), String::from("1100x480")];
    let expected_error_message = "Vanilla data directory has to be set either in config file or per command line switch";

    let engine_options_res = build_engine_options_from_env_and_args(String::from("/home/test/.ja2"), loaded, args, None);

    assert_eq!(engine_options_res, Err(String::from(expected_error_message)));
}

#[test]
fn resolution_lays_the_command_line_over_the_settings_file() {
    let loaded = load(b"{\"data_dir\": \"/data\", \"res\": \"1024x768\", \"fullscreen\": true}");
    let args = vec![String::from("ja2"), String::from("--res"), String::from("1100x480")];

    let engine_options = build_engine_options_from_env_and_args(String::from("/home/test/.ja2"), loaded, args, None).unwrap();

    assert_eq!(engine_options.resolution, (1100, 480));
    assert!(engine_options.start_in_fullscreen);
    assert_eq!(engine_options.vanilla_data_dir, "/data");
    assert_eq!(engine_options.stracciatella_home, "/home/test/.ja2");
}

#[test]
fn resolution_takes_the_data_directory_from_the_command_line() {
    let loaded = load(b"{}");
    let args = vec![String::from("ja2"), String::from("--datadir"), String::from("/tmp/../tmp")];

    let engine_options = build_engine_options_from_env_and_args(String::from("/home/test/.ja2"), loaded, args, Some(String::from("/tmp"))).unwrap();

    assert_eq!(engine_options.vanilla_data_dir, "/tmp");
}

#[test]
fn resolution_stops_at_the_first_failure() {
    let args = vec![String::from("ja2"), String::from("--fullscreen"), String::from("--window")];
    assert_eq!(
        build_engine_options_from_env_and_args(String::from("/home/test/.ja2"), load(b"{}"), args, None),
        Err(String::from("Cannot use fullscreen and window switches at the same time."))
    );

    let args = vec![String::from("ja2"), String::from("--nope")];
    assert_eq!(
        build_engine_options_from_env_and_args(String::from("/home/test/.ja2"), load(b"{\"data_dir\": \"/data\"}"), args, None),
        Err(String::from("Unrecognized option: 'nope'"))
    );
}

#[test]
fn find_stracciatella_home_on_windows_lies_in_the_documents_folder() {
    assert_eq!(
        find_stracciatella_home_on_windows(DocumentsFolder::Found(String::from("C:\\Users\\test\\Documents"))),
        Ok(String::from("C:\\Users\\test\\Documents\\JA2"))
    );
    assert_eq!(
        find_stracciatella_home_on_windows(DocumentsFolder::Found(String::from("D:\\"))),
        Ok(String::from("D:\\JA2"))
    );
    assert_eq!(
        find_stracciatella_home_on_windows(DocumentsFolder::Found(String::from("D:/docs/"))),
        Ok(String::from("D:/docs/JA2"))
    );
}

#[test]
fn find_stracciatella_home_on_windows_reports_the_error_code() {
    assert_eq!(
        find_stracciatella_home_on_windows(DocumentsFolder::Undecodable),
        Err(String::from("Could not decode documents folder string."))
    );
    assert_eq!(
        find_stracciatella_home_on_windows(DocumentsFolder::Failed(1)),
        Err(String::from("Could not get documents folder: 1"))
    );
    assert_eq!(
        find_stracciatella_home_on_windows(DocumentsFolder::Failed(-2147024894)),
        Err(format!("Could not get documents folder: {}", -2147024894))
    );
    assert_eq!(
        find_stracciatella_home_on_windows(DocumentsFolder::Failed(i32::MIN)),
        Err(format!("Could not get documents folder: {}", i32::MIN))
    );
    assert_eq!(
        find_stracciatella_home_on_windows(DocumentsFolder::Failed(i32::MAX)),
        Err(String::from("Could not get documents folder: 2147483647"))
    );
}
