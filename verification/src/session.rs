use vstd::prelude::*;
use crate::config::Config;
use crate::model::{CharacterClass, GameVersion, Savegame};

verus! {

/// What a confirmed dialog goes on to do.
#[derive(Debug, Clone, Copy, PartialEq, Eq, Structural)]
pub enum ConfirmationAction {
    BackToLaunch,
    UpgradeVersion,
}

/// A question put to the user before an action that cannot be undone.
#[derive(Debug, Clone, Copy, PartialEq, Eq)]
pub struct ConfirmationDialog {
    pub title: &'static str,
    pub description: &'static str,
    pub confirm_label: &'static str,
    pub action: ConfirmationAction,
}

/// What loading on the launch screen is to open.
#[derive(Debug, Clone, PartialEq, Eq)]
pub enum LoadRequest {
    /// A fresh level 99 template of the class, for the game version.
    Template(CharacterClass, GameVersion),
    /// The save file at the path.
    File(String),
    /// Nothing has been chosen.
    Nothing,
}

/// The editor's state outside the character being edited: the launch screen
/// choices, the export folder being typed, the status line and any open
/// confirmation dialog.
#[derive(Debug, Clone)]
pub struct Session {
    pub file_path: String,
    pub selected_template: Option<CharacterClass>,
    pub selected_version: GameVersion,
    pub export_path_input: String,
    pub status_message: Option<String>,
    pub confirmation: Option<ConfirmationDialog>,
}

/// The dialog asked before leaving the editor.
pub open spec fn back_to_launch_dialog_value() -> ConfirmationDialog {
    ConfirmationDialog {
        title: "Return to start screen?",
        description: "Unsaved changes in the current editor session will be discarded.",
        confirm_label: "Back",
        action: ConfirmationAction::BackToLaunch,
    }
}

/// The dialog asked before upgrading a character's game version.
pub open spec fn upgrade_version_dialog_value() -> ConfirmationDialog {
    ConfirmationDialog {
        title: "Upgrade character version?",
        description: "Upgrading a character save is irreversible. Continue only if you have a backup.",
        confirm_label: "Upgrade",
        action: ConfirmationAction::UpgradeVersion,
    }
}

/// The dialog asked before leaving the editor.
pub fn back_to_launch_dialog() -> (d: ConfirmationDialog)
    ensures
        d == back_to_launch_dialog_value(),
{
    ConfirmationDialog {
        title: "Return to start screen?",
        description: "Unsaved changes in the current editor session will be discarded.",
        confirm_label: "Back",
        action: ConfirmationAction::BackToLaunch,
    }
}

/// The dialog asked before upgrading a character's game version.
pub fn upgrade_version_dialog() -> (d: ConfirmationDialog)
    ensures
        d == upgrade_version_dialog_value(),
{
    ConfirmationDialog {
        title: "Upgrade character version?",
        description: "Upgrading a character save is irreversible. Continue only if you have a backup.",
        confirm_label: "Upgrade",
        action: ConfirmationAction::UpgradeVersion,
    }
}

/// `prefix` followed by `detail`.
fn message(prefix: &str, detail: &str) -> (m: String)
    ensures
        m@ == prefix@ + detail@,
{
    String::from_str(prefix).concat(detail)
}

impl Session {
    /// The launch screen with nothing chosen, Legacy selected and the given
    /// export folder.
    pub fn new(export_path_input: String) -> (s: Session)
        ensures
            s.file_path@ == Seq::<char>::empty(),
            s.selected_template is None,
            s.selected_version == GameVersion::Legacy,
            s.export_path_input == export_path_input,
            s.status_message is None,
            s.confirmation is None,
    {
        Session {
            file_path: String::new(),
            selected_template: None,
            selected_version: GameVersion::Legacy,
            export_path_input,
            status_message: None,
            confirmation: None,
        }
    }

    /// A typed or picked save path replaces any template choice.
    pub fn file_path_changed(&mut self, path: String)
        ensures
            *final(self) == (Session {
                file_path: path,
                selected_template: None,
                status_message: None,
                ..*old(self)
            }),
    {
        self.file_path = path;
        self.selected_template = None;
        self.status_message = None;
    }

    /// A chosen template class replaces any save path.
    pub fn template_selected(&mut self, class: CharacterClass)
        ensures
            final(self).file_path@ == Seq::<char>::empty(),
            *final(self) == (Session {
                file_path: final(self).file_path,
                selected_template: Some(class),
                status_message: None,
                ..*old(self)
            }),
    {
        self.selected_template = Some(class);
        self.file_path = String::new();
        self.status_message = None;
    }

    /// What loading opens: the chosen template first, else the save path if
    /// one is given.
    pub fn load_request(&self) -> (r: LoadRequest)
        ensures
            self.selected_template matches Some(class) ==> r == LoadRequest::Template(
                class,
                self.selected_version,
            ),
            self.selected_template is None && self.file_path@.len() > 0 ==> (r matches LoadRequest::File(p)
                && p@ == self.file_path@),
            self.selected_template is None && self.file_path@.len() == 0 ==> r
                == LoadRequest::Nothing,
    {
        match self.selected_template {
            Some(class) => LoadRequest::Template(class, self.selected_version),
            None => {
                if self.file_path.as_str().unicode_len() > 0 {
                    LoadRequest::File(String::from_str(self.file_path.as_str()))
                } else {
                    LoadRequest::Nothing
                }
            },
        }
    }

    /// Adopts the folder of a loaded save as the export folder, unless one
    /// is already configured. Returns whether the settings changed.
    pub fn adopt_export_folder(&mut self, config: &mut Config, parent: Option<String>) -> (changed: bool)
        ensures
            changed == (old(config).export_path is None && parent is Some),
            changed ==> final(self).export_path_input@ == parent->0@,
            *final(self) == (Session {
                export_path_input: if changed {
                    final(self).export_path_input
                } else {
                    old(self).export_path_input
                },
                ..*old(self)
            }),
            *final(config) == if changed {
                Config { export_path: parent, ..*old(config) }
            } else {
                *old(config)
            },
    {
        if config.export_path.is_none() {
            match parent {
                Some(p) => {
                    self.export_path_input = String::from_str(p.as_str());
                    config.export_path = Some(p);
                    true
                },
                None => false,
            }
        } else {
            false
        }
    }

    /// Shows why loading a save failed.
    pub fn load_failed(&mut self, error: &str)
        ensures
            final(self).status_message is Some,
            final(self).status_message->0@ == "Failed to load savegame: "@ + error@,
            *final(self) == (Session { status_message: final(self).status_message, ..*old(self) }),
    {
        self.status_message = Some(message("Failed to load savegame: ", error));
    }

    /// Asks before going back to the launch screen.
    pub fn request_back_to_launch(&mut self)
        ensures
            *final(self) == (Session {
                confirmation: Some(back_to_launch_dialog_value()),
                ..*old(self)
            }),
    {
        self.confirmation = Some(back_to_launch_dialog());
    }

    /// Asks before upgrading the character's version.
    pub fn request_upgrade(&mut self)
        ensures
            *final(self) == (Session {
                confirmation: Some(upgrade_version_dialog_value()),
                ..*old(self)
            }),
    {
        self.confirmation = Some(upgrade_version_dialog());
    }

    /// Confirms the open dialog, if any, and closes it. Going back clears the
    /// status line; an upgrade reports that it is not available.
    pub fn confirm(&mut self) -> (action: Option<ConfirmationAction>)
        ensures
            action == (match old(self).confirmation {
                Some(d) => Some(d.action),
                None => None::<ConfirmationAction>,
            }),
            action == Some(ConfirmationAction::BackToLaunch) ==> final(self).status_message is None,
            action == Some(ConfirmationAction::UpgradeVersion) ==> (final(self).status_message
                is Some && final(self).status_message->0@
                == "Version upgrade is not implemented yet."@),
            *final(self) == (Session {
                confirmation: None,
                status_message: if action is Some {
                    final(self).status_message
                } else {
                    old(self).status_message
                },
                ..*old(self)
            }),
    {
        match self.confirmation.take() {
            Some(dialog) => {
                match dialog.action {
                    ConfirmationAction::BackToLaunch => {
                        self.status_message = None;
                    },
                    ConfirmationAction::UpgradeVersion => {
                        self.status_message = Some(
                            String::from_str("Version upgrade is not implemented yet."),
                        );
                    },
                }
                Some(dialog.action)
            },
            None => None,
        }
    }

    /// Closes the open dialog without acting.
    pub fn cancel(&mut self)
        ensures
            *final(self) == (Session { confirmation: None, ..*old(self) }),
    {
        self.confirmation = None;
    }

    /// Reports that saving needs an export folder.
    pub fn export_folder_missing(&mut self)
        ensures
            final(self).status_message is Some,
            final(self).status_message->0@ == "Set an export path before saving."@,
            *final(self) == (Session { status_message: final(self).status_message, ..*old(self) }),
    {
        self.status_message = Some(String::from_str("Set an export path before saving."));
    }

    /// Reports a finished save, and keeps `folder` as the export folder.
    pub fn save_finished(&mut self, config: &mut Config, folder: String, result: Result<String, String>)
        ensures
            *final(config) == (Config { export_path: Some(folder), ..*old(config) }),
            final(self).status_message is Some,
            result matches Ok(path) ==> final(self).status_message->0@ == "Saved "@ + path@,
            result matches Err(e) ==> final(self).status_message->0@ == "Failed to save: "@ + e@,
            *final(self) == (Session { status_message: final(self).status_message, ..*old(self) }),
    {
        config.export_path = Some(folder);
        match result {
            Ok(path) => {
                self.status_message = Some(message("Saved ", path.as_str()));
            },
            Err(e) => {
                self.status_message = Some(message("Failed to save: ", e.as_str()));
            },
        }
    }
}

impl Session {
    /// Chooses the game version for new templates.
    pub fn version_selected(&mut self, version: GameVersion)
        ensures
            *final(self) == (Session { selected_version: version, ..*old(self) }),
    {
        self.selected_version = version;
    }

    /// A loaded or generated character clears the status line.
    pub fn load_succeeded(&mut self)
        ensures
            *final(self) == (Session { status_message: None, ..*old(self) }),
    {
        self.status_message = None;
    }

    /// The export folder being typed changes, and the status line clears.
    pub fn export_path_changed(&mut self, path: String)
        ensures
            *final(self) == (Session { export_path_input: path, status_message: None, ..*old(self) }),
    {
        self.export_path_input = path;
        self.status_message = None;
    }

    /// A picked export folder becomes both the typed folder and the stored
    /// one, and the status line clears.
    pub fn export_path_selected(&mut self, config: &mut Config, folder: String)
        ensures
            final(self).export_path_input@ == folder@,
            *final(self) == (Session {
                export_path_input: final(self).export_path_input,
                status_message: None,
                ..*old(self)
            }),
            *final(config) == (Config { export_path: Some(folder), ..*old(config) }),
    {
        self.export_path_input = String::from_str(folder.as_str());
        self.status_message = None;
        config.export_path = Some(folder);
    }

    /// The typed export folder with surrounding whitespace removed, or
    /// `None` when nothing but whitespace is typed.
    pub fn save_folder(&self) -> (folder: Option<String>)
        ensures
            folder is None <==> all_white_space(self.export_path_input@),
            folder matches Some(f) ==> is_trim_of(f@, self.export_path_input@),
    {
        let trimmed = trim_str(self.export_path_input.as_str());
        if trimmed.as_str().unicode_len() == 0 {
            proof {
                let (i, j) = choose|i: int, j: int| trim_bounds(trimmed@, self.export_path_input@, i, j);
                assert(i == j);
                assert forall|k: int| 0 <= k < self.export_path_input@.len() implies #[trigger]
                    unicode_white_space(self.export_path_input@[k]) by {}
            }
            None
        } else {
            proof {
                let (i, j) = choose|i: int, j: int| trim_bounds(trimmed@, self.export_path_input@, i, j);
                assert(i < j);
                assert(!unicode_white_space(self.export_path_input@[i]));
            }
            Some(trimmed)
        }
    }
}

/// The Unicode `White_Space` characters: U+0009 to U+000D, U+0020, U+0085,
/// U+00A0, U+1680, U+2000 to U+200A, U+2028, U+2029, U+202F, U+205F and U+3000.
pub open spec fn unicode_white_space(c: char) -> bool {
    let n = c as u32;
    ||| 0x9 <= n <= 0xd
    ||| n == 0x20
    ||| n == 0x85
    ||| n == 0xa0
    ||| n == 0x1680
    ||| 0x2000 <= n <= 0x200a
    ||| n == 0x2028
    ||| n == 0x2029
    ||| n == 0x202f
    ||| n == 0x205f
    ||| n == 0x3000
}

/// Every character of `s` is white space.
pub open spec fn all_white_space(s: Seq<char>) -> bool {
    forall|k: int| 0 <= k < s.len() ==> #[trigger] unicode_white_space(s[k])
}

/// `t` is `s[i..j]`, everything before `i` and from `j` on is white space,
/// and `t` neither starts nor ends with white space.
pub open spec fn trim_bounds(t: Seq<char>, s: Seq<char>, i: int, j: int) -> bool {
    &&& 0 <= i <= j <= s.len()
    &&& t == s.subrange(i, j)
    &&& forall|k: int| 0 <= k < i ==> #[trigger] unicode_white_space(s[k])
    &&& forall|k: int| j <= k < s.len() ==> #[trigger] unicode_white_space(s[k])
    &&& i < j ==> !unicode_white_space(s[i]) && !unicode_white_space(s[j - 1])
}

/// `t` is `s` with leading and trailing white space removed.
pub open spec fn is_trim_of(t: Seq<char>, s: Seq<char>) -> bool {
    exists|i: int, j: int| trim_bounds(t, s, i, j)
}

/// `str::trim`: `s` without its leading and trailing characters that have
/// the Unicode `White_Space` property.
#[verifier::external_body]
fn trim_str(s: &str) -> (t: String)
    ensures
        is_trim_of(t@, s@),
{
    s.trim().to_string()
}

impl Savegame {
    /// The file name a character is exported under.
    pub fn export_file_name(&self) -> (file_name: String)
        ensures
            file_name@ == self.name@ + ".d2s"@,
    {
        String::from_str(self.name.as_str()).concat(".d2s")
    }
}

} // verus!
