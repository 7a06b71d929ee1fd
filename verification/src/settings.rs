//! The configuration: where workspaces, records and the context file live.
use vstd::prelude::*;
use vstd::string::*;

pub mod settings_tui;

verus! {

/// The configuration as contracts see it.
pub struct SettingsView {
    pub settings_file: Seq<char>,
    pub workdir: Seq<char>,
    pub db_file: Seq<char>,
    pub context_file: Seq<char>,
    pub tobi_command: Seq<char>,
    pub context_changes_dir: bool,
}

/// The configuration.
#[derive(Debug)]
pub struct Settings {
    /// The file that holds the configuration itself.
    pub settings_file: String,
    /// The directory below which every workspace has its directory.
    pub workdir: String,
    /// The file that holds the records.
    pub db_file: String,
    /// The file that holds the active context.
    pub context_file: String,
    /// The command that a call without arguments stands for.
    pub tobi_command: String,
    /// Whether switching the context also changes the directory.
    pub context_changes_dir: bool,
}

impl View for Settings {
    type V = SettingsView;

    open spec fn view(&self) -> SettingsView {
        SettingsView {
            settings_file: self.settings_file@,
            workdir: self.workdir@,
            db_file: self.db_file@,
            context_file: self.context_file@,
            tobi_command: self.tobi_command@,
            context_changes_dir: self.context_changes_dir,
        }
    }
}

impl Clone for Settings {
    fn clone(&self) -> (s: Self)
        ensures
            s@ == self@,
    {
        Settings {
            settings_file: self.settings_file.clone(),
            workdir: self.workdir.clone(),
            db_file: self.db_file.clone(),
            context_file: self.context_file.clone(),
            tobi_command: self.tobi_command.clone(),
            context_changes_dir: self.context_changes_dir,
        }
    }
}

/// The configuration before anything was chosen, kept in `settings_file`.
pub open spec fn default_settings(settings_file: Seq<char>) -> SettingsView {
    SettingsView {
        settings_file,
        workdir: "Not set"@,
        db_file: "Not set"@,
        context_file: "Not set"@,
        tobi_command: "ctf"@,
        context_changes_dir: true,
    }
}

impl SettingsView {
    /// Whether the three paths have been chosen.
    pub open spec fn configured(self) -> bool {
        self.workdir != "Not set"@ && self.db_file != "Not set"@ && self.context_file
            != "Not set"@
    }
}

impl Settings {
    /// The configuration before anything was chosen. It is kept in
    /// `settings_file`, which callers place in the user's home directory.
    pub fn new_default(settings_file: String) -> (s: Self)
        ensures
            s@ == default_settings(settings_file@),
    {
        Settings {
            settings_file,
            workdir: "Not set".to_string(),
            db_file: "Not set".to_string(),
            context_file: "Not set".to_string(),
            tobi_command: "ctf".to_string(),
            context_changes_dir: true,
        }
    }

    /// Whether the three paths have been chosen, so that commands can run.
    pub fn is_configured(&self) -> (b: bool)
        ensures
            b == self@.configured(),
    {
        !self.workdir.as_str().eq("Not set") && !self.db_file.as_str().eq("Not set")
            && !self.context_file.as_str().eq("Not set")
    }
}

/// Puts the configuration back to its defaults. The file that holds it stays
/// the same.
pub fn reset_settings(settings: &mut Settings)
    ensures
        final(settings)@ == default_settings(old(settings)@.settings_file),
{
    let file = settings.settings_file.clone();
    *settings = Settings::new_default(file);
}

} // verus!
