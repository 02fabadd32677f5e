use stracciatella::config::json::join_path;
use stracciatella::config::json::EnsureEvent;
use stracciatella::config::json::EnsureStep;
use stracciatella::config::json::Platform;
use stracciatella::config::json::WriteStage;
use stracciatella::config::JsonConfig;

#[test]
fn it_should_be_instantiable() {
    JsonConfig::new("/test");
}

#[test]
fn the_settings_file_lies_in_the_settings_directory() {
    let cfg = JsonConfig::new("/test");
    assert_eq!(cfg.home(), "/test");
    assert_eq!(cfg.path(), "/test/ja2.json");
    assert_eq!(JsonConfig::new("/test/").path(), "/test/ja2.json");
    assert_eq!(JsonConfig::new("").path(), "ja2.json");
    assert_eq!(JsonConfig::new("relative/home").path(), "relative/home/ja2.json");
    assert_eq!(JsonConfig::new("/").path(), "/ja2.json");
}

#[test]
fn join_path_agrees_with_the_platform() {
    for (directory, name) in [("/test", "ja2.json"), ("/test/", "ja2.json"), ("", "ja2.json"), ("/home/user", ".ja2"), ("a/b", "c")].iter() {
        let expected = std::path::Path::new(directory).join(name);
        assert_eq!(join_path(directory, name), expected.to_str().unwrap());
    }
}

#[test]
fn the_fresh_content_names_an_example_data_directory() {
    assert_eq!(
        JsonConfig::default_content(Platform::Unix),
        "{\n    \"help\": \"Put the directory to your original ja2 installation into the line below\",\n    \"data_dir\": \"/some/place/where/the/data/is\"\n}"
    );
    assert_eq!(
        JsonConfig::default_content(Platform::Windows),
        "{\n   \"help\": \"Put the directory to your original ja2 installation into the line below. Make sure to use double backslashes.\",\n   \"data_dir\": \"C:\\\\Program Files\\\\Jagged Alliance 2\"\n}"
    );
    for platform in [Platform::Unix, Platform::Windows].iter() {
        let value: serde_json::Value = serde_json::from_str(JsonConfig::default_content(*platform)).unwrap();
        assert!(value.get("data_dir").unwrap().is_string());
    }
    let value: serde_json::Value = serde_json::from_str(JsonConfig::default_content(Platform::Windows)).unwrap();
    assert_eq!(value.get("data_dir").unwrap().as_str(), Some("C:\\Program Files\\Jagged Alliance 2"));
}

#[test]
fn ensuring_existence_creates_the_directory_then_looks_then_writes() {
    let cfg = JsonConfig::new("/test");
    assert_eq!(cfg.ensure_existence(EnsureEvent::Start), EnsureStep::CreateDirectory);
    assert_eq!(cfg.ensure_existence(EnsureEvent::DirectoryCreated), EnsureStep::ProbeFile);
    assert_eq!(cfg.ensure_existence(EnsureEvent::Probed { is_file: false }), EnsureStep::WriteDefault);
    assert_eq!(cfg.ensure_existence(EnsureEvent::DefaultWritten), EnsureStep::Done);
}

#[test]
fn ensuring_json_config_existence_should_not_overwrite_existing_file() {
    let cfg = JsonConfig::new("/test");
    assert_eq!(cfg.ensure_existence(EnsureEvent::Probed { is_file: true }), EnsureStep::Done);
}

#[test]
fn failures_are_worded_with_their_cause() {
    assert_eq!(JsonConfig::io_failure("PermissionDenied"), "! PermissionDenied");
    assert_eq!(JsonConfig::read_failure("entity not found"), "Error reading ja2.json config file: entity not found");
    assert_eq!(
        JsonConfig::parse_failure("key must be a string at line 1 column 3"),
        "Error parsing ja2.json config file: key must be a string at line 1 column 3"
    );
    assert_eq!(JsonConfig::write_failure(WriteStage::Encode, "x"), "Error creating contents of ja2.json config file: x");
    assert_eq!(JsonConfig::write_failure(WriteStage::Create, "y"), "Error creating ja2.json config file: y");
    assert_eq!(JsonConfig::write_failure(WriteStage::Write, "z"), "Error writing ja2.json config file: z");
}
