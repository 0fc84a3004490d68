use scratchpad::config::{Config, Item, DEFAULT_LAUNCH_TIMEOUT, DEFAULT_SCRATCHPAD_SPACE};
use scratchpad::error::ToggleError;
use scratchpad::scratchpad::{Coordinate, LaunchOption, Target};

const FULL: &str = r#"
launch_timeout = 5
scratchpad_space = 3

[[scratchpad]]
name = "term"
target = "kitty"
position = [100, 200]
size = [800, 600]
launch_command = "kitty.app"

[[scratchpad]]
name = "notes"
target = "Notes"
target_type = "title"
position = [0, 65535]
size = [1, 2]
launch_type = "command"
launch_command = "open -a Notes"

[[scratchpad]]
name = "mail"
target = "Mail"
target_type = "app"
position = [10, 20]
size = [30, 40]
launch_type = "application_with_arg"
launch_command = ["Mail.app", "--flag", "value"]
"#;

fn entry(extra: &str) -> String {
    format!(
        "[[scratchpad]]\nname = \"a\"\ntarget = \"b\"\nposition = [1, 2]\nsize = [3, 4]\n{}\n",
        extra
    )
}

fn is_refused(text: &str) -> bool {
    matches!(Config::from(text), Err(ToggleError::ConfigurationError))
}

#[test]
fn reads_a_full_document() {
    let config = Config::from(FULL).unwrap();
    assert_eq!(config.launch_timeout, 5);
    assert_eq!(config.scratchpad_space, 3);
    assert_eq!(config.scratchpads.len(), 3);
    let term = &config.scratchpads[0];
    assert_eq!(term.name, "term");
    assert_eq!(term.target, Target::App(String::from("kitty")));
    assert_eq!(term.position, Coordinate { x: 100, y: 200 });
    assert_eq!(term.size, Coordinate { x: 800, y: 600 });
    assert_eq!(term.launch_command, LaunchOption::Application(String::from("kitty.app")));
    assert_eq!(term.launch_timeout, 5);
    assert_eq!(term.scratchpad_space, 3);
    let notes = &config.scratchpads[1];
    assert_eq!(notes.name, "notes");
    assert_eq!(notes.target, Target::Title(String::from("Notes")));
    assert_eq!(notes.position, Coordinate { x: 0, y: 65535 });
    assert_eq!(notes.launch_command, LaunchOption::Command(String::from("open -a Notes")));
    let mail = &config.scratchpads[2];
    assert_eq!(mail.target, Target::App(String::from("Mail")));
    assert_eq!(
        mail.launch_command,
        LaunchOption::ApplicationWithArgs(
            String::from("Mail.app"),
            vec![String::from("--flag"), String::from("value")]
        )
    );
}

#[test]
fn absent_settings_take_their_defaults() {
    let config = Config::from(&entry("launch_command = \"x.app\"")).unwrap();
    assert_eq!(config.launch_timeout, 10);
    assert_eq!(config.scratchpad_space, 8);
    assert_eq!(DEFAULT_LAUNCH_TIMEOUT, 10);
    assert_eq!(DEFAULT_SCRATCHPAD_SPACE, 8);
    assert_eq!(config.scratchpads[0].launch_timeout, 10);
    assert_eq!(config.scratchpads[0].scratchpad_space, 8);
    assert_eq!(config.scratchpads[0].target, Target::App(String::from("b")));
    assert_eq!(
        config.scratchpads[0].launch_command,
        LaunchOption::Application(String::from("x.app"))
    );
}

#[test]
fn explicit_application_launch_type() {
    let text = entry("launch_type = \"application\"\nlaunch_command = \"x.app\"");
    let config = Config::from(&text).unwrap();
    assert_eq!(
        config.scratchpads[0].launch_command,
        LaunchOption::Application(String::from("x.app"))
    );
}

#[test]
fn text_that_is_no_document_is_refused() {
    assert!(is_refused("this is = = not toml"));
    assert!(is_refused("[[scratchpad]\nname = 1"));
}

#[test]
fn document_without_scratchpads_is_refused() {
    assert!(is_refused(""));
    assert!(is_refused("launch_timeout = 3"));
    assert!(is_refused("scratchpad = 3"));
    assert!(is_refused("[scratchpad]\nname = \"a\""));
}

#[test]
fn empty_list_of_scratchpads_is_accepted() {
    let config = Config::from("scratchpad = []").unwrap();
    assert_eq!(config.scratchpads.len(), 0);
}

#[test]
fn unusable_numbers_are_refused() {
    let good = entry("launch_command = \"x.app\"");
    assert!(is_refused(&format!("launch_timeout = 256\n{}", good)));
    assert!(is_refused(&format!("launch_timeout = -1\n{}", good)));
    assert!(is_refused(&format!("launch_timeout = \"5\"\n{}", good)));
    assert!(is_refused(&format!("scratchpad_space = 1000\n{}", good)));
    assert!(is_refused(&format!("scratchpad_space = 1.5\n{}", good)));
    assert!(Config::from(&format!("launch_timeout = 255\nscratchpad_space = 0\n{}", good)).is_ok());
}

#[test]
fn unknown_tags_are_refused() {
    assert!(is_refused(&entry("target_type = \"class\"\nlaunch_command = \"x.app\"")));
    assert!(is_refused(&entry("target_type = 1\nlaunch_command = \"x.app\"")));
    assert!(is_refused(&entry("launch_type = \"script\"\nlaunch_command = \"x.app\"")));
    assert!(is_refused(&entry("launch_type = 2\nlaunch_command = \"x.app\"")));
}

#[test]
fn unusable_entries_are_refused() {
    assert!(is_refused(&entry("")));
    assert!(is_refused(&entry("launch_command = 5")));
    assert!(is_refused(&entry("launch_command = [\"a\"]")));
    assert!(is_refused(&entry("launch_type = \"application_with_arg\"\nlaunch_command = []")));
    assert!(is_refused(&entry("launch_type = \"application_with_arg\"\nlaunch_command = [1]")));
    assert!(is_refused(&entry("launch_type = \"application_with_arg\"\nlaunch_command = \"a\"")));
    let head = "[[scratchpad]]\nlaunch_command = \"x\"\n";
    assert!(is_refused(&format!("{}target = \"b\"\nposition = [1, 2]\nsize = [3, 4]", head)));
    assert!(is_refused(&format!("{}name = \"a\"\nposition = [1, 2]\nsize = [3, 4]", head)));
    assert!(is_refused(&format!("{}name = \"a\"\ntarget = \"b\"\nsize = [3, 4]", head)));
    assert!(is_refused(&format!("{}name = \"a\"\ntarget = \"b\"\nposition = [1, 2]", head)));
    let named = format!("{}name = \"a\"\ntarget = \"b\"\n", head);
    assert!(is_refused(&format!("{}position = [1]\nsize = [3, 4]", named)));
    assert!(is_refused(&format!("{}position = [1, 2, 3]\nsize = [3, 4]", named)));
    assert!(is_refused(&format!("{}position = [1, 65536]\nsize = [3, 4]", named)));
    assert!(is_refused(&format!("{}position = [1, 2]\nsize = [-3, 4]", named)));
    assert!(is_refused(&format!("{}position = [1, 2]\nsize = [\"3\", 4]", named)));
    assert!(Config::from(&format!("{}position = [1, 2]\nsize = [3, 4]", named)).is_ok());
}

#[test]
fn application_with_a_single_token_has_no_arguments() {
    let text = entry("launch_type = \"application_with_arg\"\nlaunch_command = [\"x.app\"]");
    let config = Config::from(&text).unwrap();
    assert_eq!(
        config.scratchpads[0].launch_command,
        LaunchOption::ApplicationWithArgs(String::from("x.app"), Vec::new())
    );
}

#[test]
fn reads_the_settings_out_of_items() {
    let pad = Item::Table(vec![
        (String::from("name"), Item::Text(String::from("a"))),
        (String::from("target"), Item::Text(String::from("b"))),
        (String::from("target_type"), Item::Text(String::from("title"))),
        (String::from("position"), Item::List(vec![Item::Integer(1), Item::Integer(2)])),
        (String::from("size"), Item::List(vec![Item::Integer(3), Item::Integer(4)])),
        (String::from("launch_command"), Item::Text(String::from("c"))),
    ]);
    let root = Item::Table(vec![
        (String::from("scratchpad"), Item::List(vec![pad])),
        (String::from("launch_timeout"), Item::Integer(2)),
    ]);
    let config = Config::from_document(Some(root)).unwrap();
    assert_eq!(config.launch_timeout, 2);
    assert_eq!(config.scratchpad_space, 8);
    assert_eq!(config.scratchpads.len(), 1);
    assert_eq!(config.scratchpads[0].target, Target::Title(String::from("b")));
    assert_eq!(config.scratchpads[0].size, Coordinate { x: 3, y: 4 });
    assert!(matches!(Config::from_document(None), Err(ToggleError::ConfigurationError)));
    assert!(matches!(
        Config::from_document(Some(Item::Other)),
        Err(ToggleError::ConfigurationError)
    ));
}

#[test]
fn item_lookup_finds_keys_of_tables_only() {
    let table = Item::Table(vec![
        (String::from("a"), Item::Integer(1)),
        (String::from("b"), Item::Integer(2)),
    ]);
    assert!(matches!(table.get("b"), Some(Item::Integer(2))));
    assert!(matches!(table.get("a"), Some(Item::Integer(1))));
    assert!(table.get("c").is_none());
    assert!(table.get("").is_none());
    assert!(Item::List(vec![Item::Integer(1)]).get("a").is_none());
    assert!(Item::Text(String::from("a")).get("a").is_none());
}

#[test]
fn command_line_is_split_when_the_document_is_read() {
    let open_quote = entry("launch_type = \"command\"\nlaunch_command = \"sh -c 'oops\"");
    assert!(is_refused(&open_quote));
    let no_word = entry("launch_type = \"command\"\nlaunch_command = \"   \"");
    assert!(is_refused(&no_word));
    let good = entry("launch_type = \"command\"\nlaunch_command = \"sh -c 'fine'\"");
    let config = Config::from(&good).unwrap();
    assert_eq!(
        config.scratchpads[0].launch_command,
        LaunchOption::Command(String::from("sh -c 'fine'"))
    );
    assert_eq!(
        config.scratchpads[0].launch(),
        Ok(vec![String::from("sh"), String::from("-c"), String::from("fine")])
    );
}
