use d2sed::config::Config;
use d2sed::model::{BaseStats, CharacterClass, GameVersion, Savegame};
use d2sed::session::{
    back_to_launch_dialog, upgrade_version_dialog, ConfirmationAction, LoadRequest, Session,
};

#[test]
fn launch_choices_replace_each_other() {
    let mut s = Session::new("/exports".to_string());
    assert_eq!(s.load_request(), LoadRequest::Nothing);
    s.file_path_changed("/saves/a.d2s".to_string());
    assert_eq!(s.load_request(), LoadRequest::File("/saves/a.d2s".to_string()));
    s.template_selected(CharacterClass::Druid);
    assert_eq!(s.file_path, "");
    assert_eq!(s.load_request(), LoadRequest::Template(CharacterClass::Druid, GameVersion::Legacy));
    s.selected_version = GameVersion::Warlock;
    assert_eq!(s.load_request(), LoadRequest::Template(CharacterClass::Druid, GameVersion::Warlock));
    s.file_path_changed("/saves/b.d2s".to_string());
    assert_eq!(s.selected_template, None);
    assert_eq!(s.load_request(), LoadRequest::File("/saves/b.d2s".to_string()));
}

#[test]
fn export_folder_is_adopted_only_once() {
    let mut s = Session::new(String::new());
    let mut config = Config::default();
    assert!(!s.adopt_export_folder(&mut config, None));
    assert!(s.adopt_export_folder(&mut config, Some("/saves".to_string())));
    assert_eq!(config.export_path, Some("/saves".to_string()));
    assert_eq!(s.export_path_input, "/saves");
    assert!(!s.adopt_export_folder(&mut config, Some("/other".to_string())));
    assert_eq!(config.export_path, Some("/saves".to_string()));
    assert_eq!(s.export_path_input, "/saves");
}

#[test]
fn dialogs_confirm_and_cancel() {
    let mut s = Session::new(String::new());
    assert_eq!(s.confirm(), None);
    s.load_failed("bad header");
    assert_eq!(s.status_message.as_deref(), Some("Failed to load savegame: bad header"));
    s.request_upgrade();
    assert_eq!(s.confirmation, Some(upgrade_version_dialog()));
    assert_eq!(s.confirm(), Some(ConfirmationAction::UpgradeVersion));
    assert_eq!(s.status_message.as_deref(), Some("Version upgrade is not implemented yet."));
    assert_eq!(s.confirmation, None);
    s.request_back_to_launch();
    assert_eq!(s.confirmation, Some(back_to_launch_dialog()));
    assert_eq!(back_to_launch_dialog().title, "Return to start screen?");
    s.cancel();
    assert_eq!(s.confirmation, None);
    s.request_back_to_launch();
    assert_eq!(s.confirm(), Some(ConfirmationAction::BackToLaunch));
    assert_eq!(s.status_message, None);
}

#[test]
fn save_results_are_reported() {
    let mut s = Session::new(String::new());
    let mut config = Config::default();
    s.export_folder_missing();
    assert_eq!(s.status_message.as_deref(), Some("Set an export path before saving."));
    s.save_finished(&mut config, "/x".to_string(), Ok("/x/Hero.d2s".to_string()));
    assert_eq!(s.status_message.as_deref(), Some("Saved /x/Hero.d2s"));
    assert_eq!(config.export_path.as_deref(), Some("/x"));
    s.save_finished(&mut config, "/y".to_string(), Err("disk full".to_string()));
    assert_eq!(s.status_message.as_deref(), Some("Failed to save: disk full"));
    assert_eq!(config.export_path.as_deref(), Some("/y"));
}

#[test]
fn export_file_name_appends_extension() {
    let save = Savegame::generate_blank_template(
        CharacterClass::Barbarian,
        "Conan".to_string(),
        BaseStats { strength: 30, dexterity: 20, vitality: 25, energy: 10, hp: 55, mana: 10, stamina: 92 },
        [vec![], vec![], vec![]],
        0,
    );
    assert_eq!(save.export_file_name(), "Conan.d2s");
}

#[test]
fn save_folder_trims_white_space() {
    let mut s = Session::new("  /exports/d2 \t\n".to_string());
    assert_eq!(s.save_folder(), Some("/exports/d2".to_string()));
    s.export_path_changed(" \u{3000}\t ".to_string());
    assert_eq!(s.save_folder(), None);
    s.export_path_changed(String::new());
    assert_eq!(s.save_folder(), None);
    s.export_path_changed("a b".to_string());
    assert_eq!(s.save_folder(), Some("a b".to_string()));
}

#[test]
fn export_path_and_version_edits() {
    let mut s = Session::new(String::new());
    let mut config = Config::default();
    s.load_failed("x");
    s.export_path_changed("/typed".to_string());
    assert_eq!(s.export_path_input, "/typed");
    assert_eq!(s.status_message, None);
    s.load_failed("x");
    s.export_path_selected(&mut config, "/picked".to_string());
    assert_eq!(s.export_path_input, "/picked");
    assert_eq!(config.export_path.as_deref(), Some("/picked"));
    assert_eq!(s.status_message, None);
    s.version_selected(GameVersion::Resurrected);
    assert_eq!(s.selected_version, GameVersion::Resurrected);
    s.load_failed("x");
    s.load_succeeded();
    assert_eq!(s.status_message, None);
}
