use d2sed::config::Config;
use d2sed::paths::{choose_home_dir, default_save_folder_for_home};
use std::path::PathBuf;

#[test]
fn default_save_folder_prefers_saved_games_when_available() {
    let home = PathBuf::from(r"C:\Users\Test");

    assert_eq!(
        PathBuf::from(default_save_folder_for_home(r"C:\Users\Test", true)),
        home.join("Saved Games")
    );
}

#[test]
fn default_save_folder_falls_back_to_home_without_saved_games() {
    let home = PathBuf::from(r"C:\Users\Test");

    assert_eq!(
        PathBuf::from(default_save_folder_for_home(r"C:\Users\Test", false)),
        home
    );
}

#[test]
fn saved_games_folder_extends_home() {
    for home in ["/home/test", "/home/test/", "relative", ""] {
        let folder = default_save_folder_for_home(home, true);
        assert!(folder.starts_with(home));
        assert!(folder.ends_with("Saved Games"));
        assert!(folder.len() > home.len());
        assert!(folder.len() <= home.len() + 1 + "Saved Games".len());
    }
    assert_eq!(default_save_folder_for_home("/home/test", true).len(), "/home/test".len() + 1 + 11);
    assert_eq!(default_save_folder_for_home("relative", true).len(), "relative".len() + 1 + 11);
}

#[test]
fn home_dir_prefers_non_empty_userprofile() {
    assert_eq!(
        choose_home_dir(Some("C:\\Users\\A".to_string()), Some("/home/a".to_string())),
        Some("C:\\Users\\A".to_string())
    );
    assert_eq!(
        choose_home_dir(Some(String::new()), Some("/home/a".to_string())),
        Some("/home/a".to_string())
    );
    assert_eq!(choose_home_dir(None, Some("/home/a".to_string())), Some("/home/a".to_string()));
    assert_eq!(choose_home_dir(None, Some(String::new())), None);
    assert_eq!(choose_home_dir(None, None), None);
}

#[test]
fn config_defaults_to_nothing_stored() {
    let c = Config::default();
    assert_eq!(c.export_path, None);
    assert_eq!(c.selected_version, None);
}
