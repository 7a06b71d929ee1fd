//! The settings menu: its screens, and what a key does on each of them.
//!
//! The menu is driven from outside: whoever draws the screen reads a key,
//! hands it to the function of the screen that is shown, and shows the
//! screen that the function names.
use vstd::prelude::*;
use vstd::string::*;
use crate::settings::{Settings, SettingsView};
use crate::text::concat2;

verus! {

/// A key, as far as the menu tells keys apart.
#[derive(Clone, Copy, Debug, PartialEq, Eq, Structural)]
pub enum Key {
    Down,
    Up,
    Home,
    End,
    Enter,
    Left,
    Right,
    Char(char),
    Other,
}

/// The screens of the menu.
#[derive(Clone, Copy, Debug, PartialEq, Eq, Structural)]
pub enum Screen {
    MainMenu,
    PathMenu,
    FileExplorer,
    BehaviourMenu,
}

impl Screen {
    /// The number of the screen.
    pub open spec fn idx(self) -> int {
        match self {
            Screen::MainMenu => 0,
            Screen::PathMenu => 1,
            Screen::FileExplorer => 2,
            Screen::BehaviourMenu => 3,
        }
    }

    /// The screen with the number `idx`; the main menu for any other number.
    pub open spec fn of_idx(idx: int) -> Screen {
        if idx == 1 {
            Screen::PathMenu
        } else if idx == 2 {
            Screen::FileExplorer
        } else if idx == 3 {
            Screen::BehaviourMenu
        } else {
            Screen::MainMenu
        }
    }

    /// The number of the screen.
    pub fn to_idx(&self) -> (idx: i32)
        ensures
            idx == self.idx(),
    {
        match self {
            Screen::MainMenu => 0,
            Screen::PathMenu => 1,
            Screen::FileExplorer => 2,
            Screen::BehaviourMenu => 3,
        }
    }

    /// The screen with the number `idx`; the main menu for any other number.
    pub fn from_idx(idx: i32) -> (s: Self)
        ensures
            s == Self::of_idx(idx as int),
    {
        if idx == 1 {
            Screen::PathMenu
        } else if idx == 2 {
            Screen::FileExplorer
        } else if idx == 3 {
            Screen::BehaviourMenu
        } else {
            Screen::MainMenu
        }
    }

    /// Every screen is the screen of its number.
    pub proof fn lemma_idx_round_trip(self)
        ensures
            Self::of_idx(self.idx()) == self,
    {
    }
}

/// The screen to show after a key: the one that the shown screen asked for,
/// where it asked for another than itself.
pub fn next_screen(current: Screen, asked: Option<i32>) -> (next: Screen)
    ensures
        next == match asked {
            Some(idx) => if idx != current.idx() {
                Screen::of_idx(idx as int)
            } else {
                current
            },
            None => current,
        },
{
    match asked {
        Some(idx) => if idx != current.to_idx() {
            Screen::from_idx(idx)
        } else {
            current
        },
        None => current,
    }
}

/// Where a key that moves through a list puts the selection; `None` for any
/// other key. The selection may pass the end of the list: it is brought
/// back, as `clamped` says, when the list is drawn.
pub open spec fn moved(selected: Option<usize>, key: Key) -> Option<Option<usize>> {
    match key {
        Key::Down => Some(
            Some(
                match selected {
                    Some(i) => if i < usize::MAX {
                        (i + 1) as usize
                    } else {
                        i
                    },
                    None => 0,
                },
            ),
        ),
        Key::Up => Some(
            Some(
                match selected {
                    Some(i) => if i > 0 {
                        (i - 1) as usize
                    } else {
                        0
                    },
                    None => usize::MAX,
                },
            ),
        ),
        Key::Home => Some(Some(0)),
        Key::End => Some(Some(usize::MAX)),
        _ => None,
    }
}

/// Moves the selection where `key` moves through a list, and says whether it
/// does.
pub fn handle_list_key_event(selected: &mut Option<usize>, key: Key) -> (r: Result<(), ()>)
    ensures
        match moved(*old(selected), key) {
            Some(s) => r is Ok && *final(selected) == s,
            None => r is Err && *final(selected) == *old(selected),
        },
{
    match key {
        Key::Down => {
            *selected = Some(
                match *selected {
                    Some(i) => if i < usize::MAX {
                        i + 1
                    } else {
                        i
                    },
                    None => 0,
                },
            );
            Ok(())
        },
        Key::Up => {
            *selected = Some(
                match *selected {
                    Some(i) => if i > 0 {
                        i - 1
                    } else {
                        0
                    },
                    None => usize::MAX,
                },
            );
            Ok(())
        },
        Key::Home => {
            *selected = Some(0);
            Ok(())
        },
        Key::End => {
            *selected = Some(usize::MAX);
            Ok(())
        },
        _ => Err(()),
    }
}

/// The selection as a list of `len` items shows it once it is drawn: an
/// empty list has no selection, and a selection past the end is the last
/// item.
pub open spec fn clamped(selected: Option<usize>, len: nat) -> Option<usize> {
    if len == 0 {
        None
    } else {
        match selected {
            Some(i) => if i >= len {
                Some((len - 1) as usize)
            } else {
                selected
            },
            None => None,
        }
    }
}

/// Brings the selection back into a list of `len` items.
pub fn clamp_selection(selected: Option<usize>, len: usize) -> (r: Option<usize>)
    ensures
        r == clamped(selected, len as nat),
{
    if len == 0 {
        None
    } else {
        match selected {
            Some(i) => if i >= len {
                Some(len - 1)
            } else {
                selected
            },
            None => None,
        }
    }
}

/// An entry of a menu as contracts see it.
pub struct MenuItemView {
    pub title: Seq<char>,
    pub description: Seq<char>,
}

/// An entry of a menu.
#[derive(Debug)]
pub struct MenuItem {
    pub title: String,
    pub description: String,
}

impl View for MenuItem {
    type V = MenuItemView;

    open spec fn view(&self) -> MenuItemView {
        MenuItemView { title: self.title@, description: self.description@ }
    }
}

impl DeepView for MenuItem {
    type V = MenuItemView;

    open spec fn deep_view(&self) -> MenuItemView {
        self@
    }
}

impl MenuItem {
    /// An entry.
    pub fn new(title: &str, description: String) -> (item: Self)
        ensures
            item@ == (MenuItemView { title: title@, description: description@ }),
    {
        MenuItem { title: title.to_string(), description }
    }
}

/// A menu as contracts see it.
pub struct MenuView {
    pub items: Seq<MenuItemView>,
    pub selected: Option<usize>,
    pub should_exit: bool,
}

/// A menu: its entries, the one that is selected, and whether the user has
/// asked to leave.
#[derive(Debug)]
pub struct Menu {
    pub items: Vec<MenuItem>,
    pub selected: Option<usize>,
    pub should_exit: bool,
}

impl View for Menu {
    type V = MenuView;

    open spec fn view(&self) -> MenuView {
        MenuView {
            items: self.items.deep_view(),
            selected: self.selected,
            should_exit: self.should_exit,
        }
    }
}

/// The entries of the main menu.
pub open spec fn main_items() -> Seq<MenuItemView> {
    seq![
        MenuItemView {
            title: "Path Settings"@,
            description: "Change default path for CTFs, db, etc."@,
        },
        MenuItemView {
            title: "Behavior Settings"@,
            description: "Customize tobi behavior to your liking"@,
        },
        MenuItemView { title: "Info"@, description: "Info about tobi"@ },
    ]
}

/// The entries of the path menu: the three paths, each with its present
/// value.
pub open spec fn path_items(settings: SettingsView) -> Seq<MenuItemView> {
    seq![
        MenuItemView { title: "CTF path"@, description: settings.workdir },
        MenuItemView { title: "DB path"@, description: settings.db_file },
        MenuItemView { title: "Context path"@, description: settings.context_file },
    ]
}

impl Menu {
    /// The main menu, with its first entry selected.
    pub fn main_menu() -> (m: Self)
        ensures
            m@ == (MenuView { items: main_items(), selected: Some(0), should_exit: false }),
    {
        let mut items: Vec<MenuItem> = Vec::new();
        items.push(
            MenuItem::new("Path Settings", "Change default path for CTFs, db, etc.".to_string()),
        );
        items.push(
            MenuItem::new(
                "Behavior Settings",
                "Customize tobi behavior to your liking".to_string(),
            ),
        );
        items.push(MenuItem::new("Info", "Info about tobi".to_string()));
        assert(items.deep_view() =~= main_items());
        Menu { items, selected: Some(0), should_exit: false }
    }

    /// The path menu, with its first entry selected.
    pub fn path_menu(settings: &Settings) -> (m: Self)
        ensures
            m@ == (MenuView {
                items: path_items(settings@),
                selected: Some(0),
                should_exit: false,
            }),
    {
        let mut items: Vec<MenuItem> = Vec::new();
        items.push(MenuItem::new("CTF path", settings.workdir.clone()));
        items.push(MenuItem::new("DB path", settings.db_file.clone()));
        items.push(MenuItem::new("Context path", settings.context_file.clone()));
        assert(items.deep_view() =~= path_items(settings@));
        Menu { items, selected: Some(0), should_exit: false }
    }

    /// What a key does on the main menu. The keys that move through a list
    /// move the selection; `q` asks to leave; Enter on the first entry asks
    /// for the path menu.
    pub fn main_menu_event(&mut self, key: Key) -> (asked: Option<i32>)
        ensures
            final(self)@.items == old(self)@.items,
            match moved(old(self).selected, key) {
                Some(s) => asked is None && final(self).selected == s && final(self).should_exit
                    == old(self).should_exit,
                None => final(self).selected == old(self).selected && final(self).should_exit == (
                old(self).should_exit || key == Key::Char('q')) && asked == if key == Key::Enter
                    && old(self).selected == Some(0usize) {
                    Some(1i32)
                } else {
                    None
                },
            },
    {
        if handle_list_key_event(&mut self.selected, key).is_ok() {
            return None;
        }
        match key {
            Key::Char('q') => {
                self.should_exit = true;
                None
            },
            Key::Enter => match self.selected {
                Some(0) => Some(1),
                _ => None,
            },
            _ => None,
        }
    }

    /// What a key does on the path menu. The keys that move through a list
    /// move the selection; `q` asks for the main menu; Enter asks for the
    /// file explorer.
    pub fn path_menu_event(&mut self, key: Key) -> (asked: Option<i32>)
        ensures
            final(self)@.items == old(self)@.items,
            final(self).should_exit == old(self).should_exit,
            match moved(old(self).selected, key) {
                Some(s) => asked is None && final(self).selected == s,
                None => final(self).selected == old(self).selected && asked == if key == Key::Char(
                    'q',
                ) {
                    Some(0i32)
                } else if key == Key::Enter {
                    Some(2i32)
                } else {
                    None
                },
            },
    {
        if handle_list_key_event(&mut self.selected, key).is_ok() {
            return None;
        }
        match key {
            Key::Char('q') => Some(0),
            Key::Enter => Some(2),
            _ => None,
        }
    }

    /// The title of the selected entry.
    pub fn get_selected_item(&self) -> (title: Option<String>)
        ensures
            match self.selected {
                Some(i) => if i < self@.items.len() {
                    title matches Some(t) && t@ == self@.items[i as int].title
                } else {
                    title is None
                },
                None => title is None,
            },
    {
        match self.selected {
            Some(i) => if i < self.items.len() {
                Some(self.items[i].title.clone())
            } else {
                None
            },
            None => None,
        }
    }
}

/// The commands that a call without arguments can stand for.
pub open spec fn command_options() -> Seq<Seq<char>> {
    seq!["ctf"@, "context"@, "list"@, "solve"@, "unsolve"@]
}

/// The option after the option `i` of `n`, going round.
pub open spec fn next_option(i: usize, n: nat) -> usize {
    if i + 1 >= n {
        0
    } else {
        (i + 1) as usize
    }
}

/// The option before the option `i` of `n`, going round.
pub open spec fn previous_option(i: usize, n: nat) -> usize {
    if i == 0 {
        (n - 1) as usize
    } else {
        (i - 1) as usize
    }
}

/// The behaviour menu: one setting, the command that a call without
/// arguments stands for, with the option that is chosen.
#[derive(Debug)]
pub struct BehaviourMenu {
    /// The commands to choose from.
    pub options: Vec<String>,
    /// The command that is chosen, as a position in `options`.
    pub chosen: usize,
    /// The line that is selected.
    pub selected: Option<usize>,
}

impl BehaviourMenu {
    /// Whether the chosen option is one of the options.
    pub open spec fn wf(&self) -> bool {
        self.chosen < self.options@.len()
    }

    /// The behaviour menu for the settings as they are: the command of the
    /// settings is chosen, or the first where it is none of the options.
    pub fn new(settings: &Settings) -> (m: Self)
        ensures
            m.wf(),
            m.options.deep_view() == command_options(),
            m.selected == Some(0usize),
            m.options.deep_view()[m.chosen as int] == settings@.tobi_command || (m.chosen == 0
                && !command_options().contains(settings@.tobi_command)),
            forall|j: int|
                0 <= j < m.chosen ==> command_options()[j] != settings@.tobi_command,
    {
        let mut options: Vec<String> = Vec::new();
        options.push("ctf".to_string());
        options.push("context".to_string());
        options.push("list".to_string());
        options.push("solve".to_string());
        options.push("unsolve".to_string());
        assert(options.deep_view() =~= command_options());
        let mut chosen: usize = 0;
        while chosen < options.len() && options[chosen] != settings.tobi_command
            invariant
                chosen <= options@.len(),
                options.deep_view() == command_options(),
                forall|j: int|
                    0 <= j < chosen ==> command_options()[j] != settings@.tobi_command,
            decreases options@.len() - chosen,
        {
            chosen = chosen + 1;
        }
        if chosen >= options.len() {
            chosen = 0;
        }
        BehaviourMenu { options, chosen, selected: Some(0) }
    }

    /// What a key does on the behaviour menu. The keys that move through a
    /// list move the selection; `q` asks for the main menu; with the first
    /// line selected, Right and Left choose the next and the previous
    /// command, going round, and write it to the settings.
    pub fn behaviour_menu_event(&mut self, settings: &mut Settings, key: Key) -> (asked: Option<
        i32,
    >)
        requires
            old(self).wf(),
        ensures
            final(self).wf(),
            final(self).options.deep_view() == old(self).options.deep_view(),
            match moved(old(self).selected, key) {
                Some(s) => asked is None && final(self).selected == s && final(self).chosen == old(
                    self,
                ).chosen && final(settings)@ == old(settings)@,
                None => {
                    &&& final(self).selected == old(self).selected
                    &&& asked == if key == Key::Char('q') {
                        Some(0i32)
                    } else {
                        None
                    }
                    &&& if (key == Key::Right || key == Key::Left) && old(self).selected == Some(
                        0usize,
                    ) {
                        &&& final(self).chosen == if key == Key::Right {
                            next_option(old(self).chosen, old(self).options@.len())
                        } else {
                            previous_option(old(self).chosen, old(self).options@.len())
                        }
                        &&& final(settings)@ == (SettingsView {
                            tobi_command: old(self).options.deep_view()[final(self).chosen as int],
                            ..old(settings)@
                        })
                    } else {
                        final(self).chosen == old(self).chosen && final(settings)@ == old(
                            settings,
                        )@
                    }
                },
            },
    {
        if handle_list_key_event(&mut self.selected, key).is_ok() {
            return None;
        }
        match key {
            Key::Char('q') => Some(0),
            Key::Right | Key::Left => {
                match self.selected {
                    Some(0) => {
                        let n = self.options.len();
                        let chosen = match key {
                            Key::Right => if self.chosen + 1 >= n {
                                0
                            } else {
                                self.chosen + 1
                            },
                            _ => if self.chosen == 0 {
                                n - 1
                            } else {
                                self.chosen - 1
                            },
                        };
                        self.chosen = chosen;
                        settings.tobi_command = self.options[chosen].clone();
                    },
                    _ => {},
                }
                None
            },
            _ => None,
        }
    }
}

/// The setting that the explorer chooses a directory for.
#[derive(Clone, Copy, Debug, PartialEq, Eq, Structural)]
pub enum PathSetting {
    /// The directory of all workspaces.
    Workdir,
    /// The file of the records, `tobi.db` in the chosen directory.
    DbFile,
    /// The context file, `.tobicntxt` in the chosen directory.
    ContextFile,
}

impl PathSetting {
    /// The setting that the entry `title` of the path menu stands for.
    pub open spec fn of_title(title: Seq<char>) -> Option<PathSetting> {
        if title == "CTF path"@ {
            Some(PathSetting::Workdir)
        } else if title == "DB path"@ {
            Some(PathSetting::DbFile)
        } else if title == "Context path"@ {
            Some(PathSetting::ContextFile)
        } else {
            None
        }
    }

    /// The setting that the entry `title` of the path menu stands for.
    pub fn from_title(title: &str) -> (s: Option<Self>)
        ensures
            s == Self::of_title(title@),
    {
        if title.eq("CTF path") {
            Some(PathSetting::Workdir)
        } else if title.eq("DB path") {
            Some(PathSetting::DbFile)
        } else if title.eq("Context path") {
            Some(PathSetting::ContextFile)
        } else {
            None
        }
    }
}

/// The settings after the directory `dir` has been chosen for `setting`.
pub open spec fn with_path(settings: SettingsView, setting: PathSetting, dir: Seq<char>)
    -> SettingsView {
    match setting {
        PathSetting::Workdir => SettingsView { workdir: dir, ..settings },
        PathSetting::DbFile => SettingsView { db_file: dir + "/tobi.db"@, ..settings },
        PathSetting::ContextFile => SettingsView {
            context_file: dir + "/.tobicntxt"@,
            ..settings
        },
    }
}

/// Writes the directory `dir` to the settings as the choice for `setting`.
pub fn choose_path(settings: &mut Settings, setting: PathSetting, dir: String)
    ensures
        final(settings)@ == with_path(old(settings)@, setting, dir@),
{
    match setting {
        PathSetting::Workdir => {
            settings.workdir = dir;
        },
        PathSetting::DbFile => {
            settings.db_file = concat2(dir.as_str(), "/tobi.db");
        },
        PathSetting::ContextFile => {
            settings.context_file = concat2(dir.as_str(), "/.tobicntxt");
        },
    }
}

/// Whether the explorer lists the directory `name`: not where its name
/// starts with a dot.
pub fn is_listed(name: &str) -> (b: bool)
    ensures
        b == !(name@.len() > 0 && name@[0] == '.'),
{
    if name.unicode_len() == 0 {
        true
    } else {
        name.get_char(0) != '.'
    }
}

/// What the explorer asks of its caller after a key.
#[derive(Clone, Copy, Debug, PartialEq, Eq, Structural)]
pub enum Visit {
    /// Nothing.
    Stay,
    /// List the directory at this position of the listing, and hand its
    /// path and what it holds to `set_path`.
    Open(usize),
    /// List the directory above the present one, and hand its path and
    /// what it holds to `set_path`.
    Parent,
    /// Hand the path of the directory at this position of the listing to
    /// `choose_path`, as the choice for the setting.
    Choose(PathSetting, usize),
}

/// The file explorer: the title of the path menu's entry that a directory
/// is chosen for, the directory that is shown, the directories in it, and
/// the one that is selected.
#[derive(Debug)]
pub struct FileList {
    pub selecting_for: String,
    pub cur_path: String,
    pub items: Vec<String>,
    pub selected: Option<usize>,
}

/// The position that a selection stands for: the first where there is none.
pub open spec fn position(selected: Option<usize>) -> int {
    match selected {
        Some(i) => i as int,
        None => 0,
    }
}

impl FileList {
    /// The explorer at the directory `path`, which holds the directories
    /// `items`, with the first of them selected.
    pub fn new(selecting_for: String, path: String, items: Vec<String>) -> (list: Self)
        ensures
            list.selecting_for == selecting_for,
            list.cur_path == path,
            list.items == items,
            list.selected == Some(0usize),
    {
        FileList { selecting_for, cur_path: path, items, selected: Some(0) }
    }

    /// Shows the directory `path`, which holds the directories `items`.
    pub fn set_path(&mut self, path: String, items: Vec<String>)
        ensures
            final(self).cur_path == path,
            final(self).items == items,
            final(self).selecting_for == old(self).selecting_for,
            final(self).selected == old(self).selected,
    {
        self.cur_path = path;
        self.items = items;
    }

    /// What a key does in the file explorer. The keys that move through a
    /// list move the selection. `q` asks for the path menu. Right asks to
    /// list the selected directory, Left the directory above; either puts
    /// the selection on the first line. Enter chooses the selected
    /// directory for the entry that the explorer was opened for, and asks
    /// for the path menu. Right and Enter do nothing while no directory is
    /// selected, and Enter does nothing where the explorer was opened for no
    /// entry of the path menu.
    pub fn explorer_event(&mut self, key: Key) -> (r: (Option<i32>, Visit))
        ensures
            final(self).items == old(self).items,
            final(self).cur_path == old(self).cur_path,
            final(self).selecting_for == old(self).selecting_for,
            match moved(old(self).selected, key) {
                Some(s) => r.0 is None && r.1 == Visit::Stay && final(self).selected == s,
                None => {
                    let at = position(old(self).selected);
                    let inside = at < old(self).items@.len();
                    let setting = PathSetting::of_title(old(self).selecting_for@);
                    &&& r.1 == if key == Key::Right && inside {
                        Visit::Open(at as usize)
                    } else if key == Key::Left {
                        Visit::Parent
                    } else if key == Key::Enter && inside && setting is Some {
                        Visit::Choose(setting->0, at as usize)
                    } else {
                        Visit::Stay
                    }
                    &&& r.0 == if key == Key::Char('q') || r.1 is Choose {
                        Some(1i32)
                    } else {
                        None
                    }
                    &&& final(self).selected == if r.1 is Open || r.1 is Parent {
                        Some(0usize)
                    } else {
                        old(self).selected
                    }
                },
            },
    {
        if handle_list_key_event(&mut self.selected, key).is_ok() {
            return (None, Visit::Stay);
        }
        let at = match self.selected {
            Some(i) => i,
            None => 0,
        };
        match key {
            Key::Char('q') => (Some(1), Visit::Stay),
            Key::Right => {
                if at >= self.items.len() {
                    return (None, Visit::Stay);
                }
                self.selected = Some(0);
                (None, Visit::Open(at))
            },
            Key::Left => {
                self.selected = Some(0);
                (None, Visit::Parent)
            },
            Key::Enter => {
                if at >= self.items.len() {
                    return (None, Visit::Stay);
                }
                match PathSetting::from_title(self.selecting_for.as_str()) {
                    Some(setting) => (Some(1), Visit::Choose(setting, at)),
                    None => (None, Visit::Stay),
                }
            },
            _ => (None, Visit::Stay),
        }
    }
}

} // verus!
