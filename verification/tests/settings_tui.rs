use tobi::settings::settings_tui::{
    choose_path, clamp_selection, handle_list_key_event, is_listed, next_screen, BehaviourMenu,
    FileList, Key, Menu, MenuItem, PathSetting, Screen, Visit,
};
use tobi::settings::Settings;

fn settings() -> Settings {
    Settings {
        settings_file: "/home/me/.tobi".to_string(),
        workdir: "/work".to_string(),
        db_file: "/work/tobi.db".to_string(),
        context_file: "/work/.tobicntxt".to_string(),
        tobi_command: "list".to_string(),
        context_changes_dir: true,
    }
}

fn explorer(selecting_for: &str) -> FileList {
    FileList::new(
        selecting_for.to_string(),
        "/home".to_string(),
        vec!["alice".to_string(), "bob".to_string()],
    )
}

#[test]
fn screens_and_their_numbers() {
    let all = [Screen::MainMenu, Screen::PathMenu, Screen::FileExplorer, Screen::BehaviourMenu];
    for (i, screen) in all.iter().enumerate() {
        assert_eq!(screen.to_idx(), i as i32);
        assert_eq!(Screen::from_idx(i as i32), *screen);
    }
    assert_eq!(Screen::from_idx(4), Screen::MainMenu);
    assert_eq!(Screen::from_idx(-1), Screen::MainMenu);
    assert_eq!(Screen::from_idx(i32::MAX), Screen::MainMenu);
}

#[test]
fn the_next_screen_is_the_one_asked_for() {
    assert_eq!(next_screen(Screen::MainMenu, None), Screen::MainMenu);
    assert_eq!(next_screen(Screen::MainMenu, Some(1)), Screen::PathMenu);
    assert_eq!(next_screen(Screen::PathMenu, Some(2)), Screen::FileExplorer);
    assert_eq!(next_screen(Screen::PathMenu, Some(1)), Screen::PathMenu);
    assert_eq!(next_screen(Screen::FileExplorer, Some(0)), Screen::MainMenu);
    assert_eq!(next_screen(Screen::BehaviourMenu, Some(9)), Screen::MainMenu);
}

#[test]
fn list_keys_move_the_selection() {
    let mut sel = Some(1);
    assert_eq!(handle_list_key_event(&mut sel, Key::Down), Ok(()));
    assert_eq!(sel, Some(2));
    assert_eq!(handle_list_key_event(&mut sel, Key::Up), Ok(()));
    assert_eq!(sel, Some(1));
    assert_eq!(handle_list_key_event(&mut sel, Key::End), Ok(()));
    assert_eq!(sel, Some(usize::MAX));
    assert_eq!(handle_list_key_event(&mut sel, Key::Down), Ok(()));
    assert_eq!(sel, Some(usize::MAX));
    assert_eq!(handle_list_key_event(&mut sel, Key::Home), Ok(()));
    assert_eq!(sel, Some(0));
    assert_eq!(handle_list_key_event(&mut sel, Key::Up), Ok(()));
    assert_eq!(sel, Some(0));
    let mut none = None;
    assert_eq!(handle_list_key_event(&mut none, Key::Down), Ok(()));
    assert_eq!(none, Some(0));
    let mut none = None;
    assert_eq!(handle_list_key_event(&mut none, Key::Up), Ok(()));
    assert_eq!(none, Some(usize::MAX));
}

#[test]
fn other_keys_leave_the_selection() {
    for key in [Key::Enter, Key::Left, Key::Right, Key::Char('q'), Key::Char('j'), Key::Other] {
        let mut sel = Some(1);
        assert_eq!(handle_list_key_event(&mut sel, key), Err(()));
        assert_eq!(sel, Some(1));
    }
}

#[test]
fn the_selection_is_brought_back_into_the_list() {
    assert_eq!(clamp_selection(Some(usize::MAX), 3), Some(2));
    assert_eq!(clamp_selection(Some(3), 3), Some(2));
    assert_eq!(clamp_selection(Some(2), 3), Some(2));
    assert_eq!(clamp_selection(Some(0), 3), Some(0));
    assert_eq!(clamp_selection(None, 3), None);
    assert_eq!(clamp_selection(None, 0), None);
    assert_eq!(clamp_selection(Some(5), 0), None);
    assert_eq!(clamp_selection(Some(0), 0), None);
    assert_eq!(clamp_selection(Some(1), 1), Some(0));
}

#[test]
fn menu_items_keep_title_and_description() {
    let item = MenuItem::new("CTF path", "/work".to_string());
    assert_eq!(item.title, "CTF path");
    assert_eq!(item.description, "/work");
}

#[test]
fn the_main_menu_has_three_entries() {
    let menu = Menu::main_menu();
    let titles: Vec<&str> = menu.items.iter().map(|i| i.title.as_str()).collect();
    assert_eq!(titles, vec!["Path Settings", "Behavior Settings", "Info"]);
    assert_eq!(menu.items[0].description, "Change default path for CTFs, db, etc.");
    assert_eq!(menu.items[1].description, "Customize tobi behavior to your liking");
    assert_eq!(menu.items[2].description, "Info about tobi");
    assert_eq!(menu.selected, Some(0));
    assert!(!menu.should_exit);
}

#[test]
fn keys_on_the_main_menu() {
    let mut menu = Menu::main_menu();
    assert_eq!(menu.main_menu_event(Key::Enter), Some(1));
    assert_eq!(menu.main_menu_event(Key::Down), None);
    assert_eq!(menu.selected, Some(1));
    assert_eq!(menu.main_menu_event(Key::Enter), None);
    assert_eq!(menu.main_menu_event(Key::Left), None);
    assert_eq!(menu.main_menu_event(Key::Char('x')), None);
    assert!(!menu.should_exit);
    assert_eq!(menu.main_menu_event(Key::Char('q')), None);
    assert!(menu.should_exit);
    assert_eq!(menu.selected, Some(1));
    assert_eq!(menu.items.len(), 3);
}

#[test]
fn the_path_menu_shows_the_present_paths() {
    let menu = Menu::path_menu(&settings());
    let shown: Vec<(&str, &str)> =
        menu.items.iter().map(|i| (i.title.as_str(), i.description.as_str())).collect();
    assert_eq!(
        shown,
        vec![("CTF path", "/work"), ("DB path", "/work/tobi.db"), ("Context path", "/work/.tobicntxt")]
    );
    assert_eq!(menu.selected, Some(0));
}

#[test]
fn keys_on_the_path_menu() {
    let mut menu = Menu::path_menu(&settings());
    assert_eq!(menu.get_selected_item(), Some("CTF path".to_string()));
    assert_eq!(menu.path_menu_event(Key::Down), None);
    assert_eq!(menu.get_selected_item(), Some("DB path".to_string()));
    assert_eq!(menu.path_menu_event(Key::Enter), Some(2));
    assert_eq!(menu.path_menu_event(Key::Char('q')), Some(0));
    assert_eq!(menu.path_menu_event(Key::Right), None);
    assert!(!menu.should_exit);
    assert_eq!(menu.path_menu_event(Key::End), None);
    assert_eq!(menu.get_selected_item(), None);
    menu.selected = None;
    assert_eq!(menu.get_selected_item(), None);
}

#[test]
fn the_behaviour_menu_starts_at_the_present_command() {
    let menu = BehaviourMenu::new(&settings());
    assert_eq!(menu.options, vec!["ctf", "context", "list", "solve", "unsolve"]);
    assert_eq!(menu.chosen, 2);
    assert_eq!(menu.selected, Some(0));
    let mut other = settings();
    other.tobi_command = "frobnicate".to_string();
    assert_eq!(BehaviourMenu::new(&other).chosen, 0);
    other.tobi_command = "unsolve".to_string();
    assert_eq!(BehaviourMenu::new(&other).chosen, 4);
}

#[test]
fn right_and_left_go_round_the_commands() {
    let mut s = settings();
    let mut menu = BehaviourMenu::new(&s);
    assert_eq!(menu.behaviour_menu_event(&mut s, Key::Right), None);
    assert_eq!((menu.chosen, s.tobi_command.as_str()), (3, "solve"));
    menu.behaviour_menu_event(&mut s, Key::Right);
    assert_eq!((menu.chosen, s.tobi_command.as_str()), (4, "unsolve"));
    menu.behaviour_menu_event(&mut s, Key::Right);
    assert_eq!((menu.chosen, s.tobi_command.as_str()), (0, "ctf"));
    menu.behaviour_menu_event(&mut s, Key::Left);
    assert_eq!((menu.chosen, s.tobi_command.as_str()), (4, "unsolve"));
    menu.behaviour_menu_event(&mut s, Key::Left);
    assert_eq!((menu.chosen, s.tobi_command.as_str()), (3, "solve"));
    assert_eq!(s.workdir, "/work");
}

#[test]
fn other_keys_on_the_behaviour_menu() {
    let mut s = settings();
    let mut menu = BehaviourMenu::new(&s);
    assert_eq!(menu.behaviour_menu_event(&mut s, Key::Char('q')), Some(0));
    assert_eq!(menu.behaviour_menu_event(&mut s, Key::Enter), None);
    assert_eq!(menu.behaviour_menu_event(&mut s, Key::Down), None);
    assert_eq!(menu.selected, Some(1));
    assert_eq!(menu.behaviour_menu_event(&mut s, Key::Right), None);
    assert_eq!((menu.chosen, s.tobi_command.as_str()), (2, "list"));
}

#[test]
fn hidden_directories_are_not_listed() {
    assert!(is_listed("home"));
    assert!(is_listed("a.b"));
    assert!(is_listed(""));
    assert!(!is_listed(".cache"));
    assert!(!is_listed("."));
    assert!(!is_listed(".."));
}

#[test]
fn a_chosen_directory_is_written_to_its_setting() {
    let mut s = settings();
    choose_path(&mut s, PathSetting::Workdir, "/ctfs".to_string());
    assert_eq!(s.workdir, "/ctfs");
    choose_path(&mut s, PathSetting::DbFile, "/data".to_string());
    assert_eq!(s.db_file, "/data/tobi.db");
    choose_path(&mut s, PathSetting::ContextFile, "/data".to_string());
    assert_eq!(s.context_file, "/data/.tobicntxt");
    assert_eq!(s.workdir, "/ctfs");
    assert_eq!(s.tobi_command, "list");
    assert_eq!(PathSetting::from_title("CTF path"), Some(PathSetting::Workdir));
    assert_eq!(PathSetting::from_title("DB path"), Some(PathSetting::DbFile));
    assert_eq!(PathSetting::from_title("Context path"), Some(PathSetting::ContextFile));
    assert_eq!(PathSetting::from_title("Info"), None);
    assert_eq!(PathSetting::from_title(""), None);
}

#[test]
fn right_in_the_explorer_opens_the_selected_directory() {
    let mut list = explorer("CTF path");
    list.explorer_event(Key::Down);
    let (asked, visit) = list.explorer_event(Key::Right);
    assert_eq!(asked, None);
    assert_eq!(visit, Visit::Open(1));
    assert_eq!(list.selected, Some(0));
    assert_eq!(list.cur_path, "/home");
    list.set_path("/home/bob".to_string(), vec![]);
    assert_eq!(list.cur_path, "/home/bob");
    assert!(list.items.is_empty());
    assert_eq!(list.selecting_for, "CTF path");
    assert_eq!(list.explorer_event(Key::Right), (None, Visit::Stay));
}

#[test]
fn left_in_the_explorer_goes_up() {
    let mut list = explorer("CTF path");
    list.explorer_event(Key::Down);
    assert_eq!(list.explorer_event(Key::Left), (None, Visit::Parent));
    assert_eq!(list.selected, Some(0));
    let mut empty = FileList::new("CTF path".to_string(), "/".to_string(), vec![]);
    assert_eq!(empty.explorer_event(Key::Left), (None, Visit::Parent));
}

#[test]
fn enter_in_the_explorer_chooses_the_directory() {
    let mut list = explorer("CTF path");
    assert_eq!(
        list.explorer_event(Key::Enter),
        (Some(1), Visit::Choose(PathSetting::Workdir, 0))
    );
    let mut list = explorer("DB path");
    list.explorer_event(Key::Down);
    assert_eq!(list.explorer_event(Key::Enter), (Some(1), Visit::Choose(PathSetting::DbFile, 1)));
    assert_eq!(list.selected, Some(1));
    let mut list = explorer("Context path");
    list.selected = None;
    assert_eq!(
        list.explorer_event(Key::Enter),
        (Some(1), Visit::Choose(PathSetting::ContextFile, 0))
    );
}

#[test]
fn enter_without_a_directory_or_a_setting_does_nothing() {
    let mut list = explorer("");
    assert_eq!(list.explorer_event(Key::Enter), (None, Visit::Stay));
    let mut list = explorer("CTF path");
    list.selected = Some(2);
    assert_eq!(list.explorer_event(Key::Enter), (None, Visit::Stay));
    assert_eq!(list.explorer_event(Key::Right), (None, Visit::Stay));
    let mut empty = FileList::new("CTF path".to_string(), "/".to_string(), vec![]);
    assert_eq!(empty.explorer_event(Key::Enter), (None, Visit::Stay));
}

#[test]
fn q_in_the_explorer_goes_back_to_the_path_menu() {
    let mut list = explorer("CTF path");
    assert_eq!(list.explorer_event(Key::Char('q')), (Some(1), Visit::Stay));
    assert_eq!(list.explorer_event(Key::Char('w')), (None, Visit::Stay));
    assert_eq!(list.explorer_event(Key::Other), (None, Visit::Stay));
    assert_eq!(list.selected, Some(0));
    assert_eq!(list.explorer_event(Key::End), (None, Visit::Stay));
    assert_eq!(list.selected, Some(usize::MAX));
}
