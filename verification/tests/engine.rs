use stracciatella::config::EngineOptions;
use stracciatella::config::PersistedOptions;
use stracciatella::resources::ResourceVersion;

#[test]
fn default_options_hold_the_documented_values() {
    let options = EngineOptions::default();
    assert_eq!(options.stracciatella_home, "");
    assert_eq!(options.vanilla_data_dir, "");
    assert!(options.mods.is_empty());
    assert_eq!(options.resolution, (640, 480));
    assert_eq!(options.resource_version, ResourceVersion::ENGLISH);
    assert!(!options.show_help);
    assert!(!options.run_unittests);
    assert!(!options.run_editor);
    assert!(!options.start_in_fullscreen);
    assert!(options.start_in_window);
    assert!(!options.start_in_debug_mode);
    assert!(!options.start_without_sound);
}

#[test]
fn an_empty_file_loads_the_default_record() {
    let loaded = EngineOptions::from_persisted(PersistedOptions::default());
    assert_eq!(loaded, EngineOptions::default());
    assert!(loaded.start_in_window);
    assert!(loaded.mods.is_empty());
}

#[test]
fn persisted_fields_survive_store_and_load() {
    let mut options = EngineOptions::default();
    options.stracciatella_home = String::from("/home/test/.ja2");
    options.vanilla_data_dir = String::from("/dd");
    options.mods = vec![String::from("m1"), String::from("a2")];
    options.resolution = (100, 100);
    options.resource_version = ResourceVersion::RUSSIAN;
    options.show_help = true;
    options.run_unittests = true;
    options.run_editor = true;
    options.start_in_fullscreen = true;
    options.start_in_window = false;
    options.start_in_debug_mode = true;
    options.start_without_sound = true;

    let stored = options.persisted();
    assert_eq!(stored.data_dir, "/dd");
    assert_eq!(stored.mods, vec!["m1", "a2"]);
    assert_eq!(stored.resolution, (100, 100));
    assert_eq!(stored.resource_version, ResourceVersion::RUSSIAN);
    assert!(stored.fullscreen);
    assert!(stored.debug);
    assert!(stored.nosound);

    let loaded = EngineOptions::from_persisted(stored.clone());
    assert_eq!(loaded.persisted(), stored);
    assert_eq!(loaded.stracciatella_home, "");
    assert!(!loaded.show_help);
    assert!(!loaded.run_unittests);
    assert!(!loaded.run_editor);
    assert!(loaded.start_in_window);
}

#[test]
fn clone_copies_every_field() {
    let mut options = EngineOptions::default();
    options.vanilla_data_dir = String::from("/dd");
    options.mods = vec![String::from("m1")];
    options.resolution = (800, 600);
    options.start_in_window = false;
    assert_eq!(options.clone(), options);
}
