use crate::error::ToggleError;
use crate::scratchpad::{
    command_line, command_of, first_from, shell_words, split_line, Coordinate, Definition, Launch,
    LaunchOption, Matcher, Scratchpad, Target,
};
use crate::text::words;
use vstd::prelude::*;
use vstd::string::*;

verus! {

/// One value of a configuration document: what the settings are read from.
#[derive(Debug)]
pub enum Item {
    Integer(i64),
    Text(String),
    List(Vec<Item>),
    /// The entries of a table. Of two entries with one key the first counts.
    Table(Vec<(String, Item)>),
    /// A value of a kind that no setting has.
    Other,
}

/// The settings of a run: the defaults of all scratchpads, and the
/// scratchpads in the order of the document.
#[derive(Debug, Clone)]
pub struct Config {
    pub launch_timeout: u8,
    pub scratchpad_space: u8,
    pub scratchpads: Vec<Scratchpad>,
}

/// The settings by the texts and numbers that they hold.
pub struct Settings {
    pub launch_timeout: u8,
    pub scratchpad_space: u8,
    pub scratchpads: Seq<Definition>,
}

impl View for Config {
    type V = Settings;

    open spec fn view(&self) -> Settings {
        Settings {
            launch_timeout: self.launch_timeout,
            scratchpad_space: self.scratchpad_space,
            scratchpads: Seq::new(self.scratchpads@.len(), |i: int| self.scratchpads@[i]@),
        }
    }
}

/// The seconds that a launch may take where the document says nothing.
pub const DEFAULT_LAUNCH_TIMEOUT: u8 = 10;

/// The space that hides the windows where the document says nothing.
pub const DEFAULT_SCRATCHPAD_SPACE: u8 = 8;

/// The value under a key of a table, or nothing where the item is no table
/// or has no such key.
pub open spec fn field(item: Item, key: Seq<char>) -> Option<Item> {
    match item {
        Item::Table(entries) => match first_from(
            entries@,
            |entry: (String, Item)| entry.0@ == key,
            0,
        ) {
            Some(i) => Some(entries@[i].1),
            None => None,
        },
        _ => None,
    }
}

/// A small number: the default where the setting is absent, the number
/// where it is an integer from 0 to 255, and nothing otherwise.
pub open spec fn small_of(item: Option<Item>, default: u8) -> Option<u8> {
    match item {
        None => Some(default),
        Some(Item::Integer(number)) => if 0 <= number <= 255 {
            Some(number as u8)
        } else {
            None
        },
        Some(_) => None,
    }
}

/// A number of pixels: an integer from 0 to 65535.
pub open spec fn pixels_of(item: Item) -> Option<u16> {
    match item {
        Item::Integer(number) => if 0 <= number <= 65535 {
            Some(number as u16)
        } else {
            None
        },
        _ => None,
    }
}

/// A coordinate: a list of exactly two numbers of pixels.
pub open spec fn coordinate_of(item: Option<Item>) -> Option<Coordinate> {
    match item {
        Some(Item::List(list)) => if list@.len() == 2 && pixels_of(list@[0]).is_some()
            && pixels_of(list@[1]).is_some() {
            Some(Coordinate { x: pixels_of(list@[0]).unwrap(), y: pixels_of(list@[1]).unwrap() })
        } else {
            None
        },
        _ => None,
    }
}

/// A text.
pub open spec fn text_of(item: Option<Item>) -> Option<Seq<char>> {
    match item {
        Some(Item::Text(text)) => Some(text@),
        _ => None,
    }
}

/// A list of texts.
pub open spec fn texts_of(item: Option<Item>) -> Option<Seq<Seq<char>>> {
    match item {
        Some(Item::List(list)) => if forall|i: int|
            0 <= i < list@.len() ==> text_of(Some(#[trigger] list@[i])).is_some() {
            Some(Seq::new(list@.len(), |i: int| text_of(Some(list@[i])).unwrap()))
        } else {
            None
        },
        _ => None,
    }
}

/// The target of an entry: the text under `target`, taken as an
/// application's name where `target_type` is absent or `app`, and as a title
/// where it is `title`. Any other `target_type` is refused.
pub open spec fn target_of(entry: Item) -> Option<Matcher> {
    match text_of(field(entry, "target"@)) {
        Some(text) => match field(entry, "target_type"@) {
            None => Some(Matcher::App(text)),
            Some(Item::Text(kind)) => if kind@ == "app"@ {
                Some(Matcher::App(text))
            } else if kind@ == "title"@ {
                Some(Matcher::Title(text))
            } else {
                None
            },
            Some(_) => None,
        },
        None => None,
    }
}

/// The launch option of a kind and the value under `launch_command`.
pub open spec fn launch_as(kind: Seq<char>, command: Option<Item>) -> Option<Launch> {
    if kind == "application_with_arg"@ {
        match texts_of(command) {
            Some(tokens) => if tokens.len() > 0 {
                Some(Launch::ApplicationWithArgs(tokens[0], tokens.remove(0)))
            } else {
                None
            },
            None => None,
        }
    } else if kind == "application"@ {
        match text_of(command) {
            Some(text) => Some(Launch::Application(text)),
            None => None,
        }
    } else if kind == "command"@ {
        match text_of(command) {
            Some(text) => if command_of(shell_words(text)).is_ok() {
                Some(Launch::Command(text))
            } else {
                None
            },
            None => None,
        }
    } else {
        None
    }
}

/// The launch option of an entry: of the kind under `launch_type`, or an
/// application where that is absent. With `application_with_arg` the
/// command is a list of texts, the bundle first; with `application` and
/// `command` it is one text, and with `command` one that splits into at
/// least one word. Any other `launch_type` is refused.
pub open spec fn launch_of(entry: Item) -> Option<Launch> {
    match field(entry, "launch_type"@) {
        None => launch_as("application"@, field(entry, "launch_command"@)),
        Some(Item::Text(kind)) => launch_as(kind@, field(entry, "launch_command"@)),
        Some(_) => None,
    }
}

/// The scratchpad that an entry defines, or nothing where a setting is
/// missing or of the wrong kind.
pub open spec fn definition_of(entry: Item, launch_timeout: u8, scratchpad_space: u8) -> Option<
    Definition,
> {
    if text_of(field(entry, "name"@)).is_some() && target_of(entry).is_some() && coordinate_of(
        field(entry, "position"@),
    ).is_some() && coordinate_of(field(entry, "size"@)).is_some() && launch_of(entry).is_some() {
        Some(
            Definition {
                name: text_of(field(entry, "name"@)).unwrap(),
                target: target_of(entry).unwrap(),
                position: coordinate_of(field(entry, "position"@)).unwrap(),
                size: coordinate_of(field(entry, "size"@)).unwrap(),
                launch_command: launch_of(entry).unwrap(),
                launch_timeout,
                scratchpad_space,
            },
        )
    } else {
        None
    }
}

/// The scratchpads that a list of entries defines, or nothing where one of
/// them defines none.
pub open spec fn definitions_of(entries: Seq<Item>, launch_timeout: u8, scratchpad_space: u8)
    -> Option<Seq<Definition>> {
    if forall|i: int|
        0 <= i < entries.len() ==> definition_of(
            #[trigger] entries[i],
            launch_timeout,
            scratchpad_space,
        ).is_some() {
        Some(
            Seq::new(
                entries.len(),
                |i: int| definition_of(entries[i], launch_timeout, scratchpad_space).unwrap(),
            ),
        )
    } else {
        None
    }
}

/// The settings that a document holds: `launch_timeout` and
/// `scratchpad_space`, with their defaults, and one scratchpad for each
/// entry of the list under `scratchpad`. Nothing where the document could
/// not be read, the list is missing, or a setting is unusable.
pub open spec fn settings_of(document: Option<Item>) -> Option<Settings> {
    match document {
        Some(root) => match (
            small_of(field(root, "launch_timeout"@), DEFAULT_LAUNCH_TIMEOUT),
            small_of(field(root, "scratchpad_space"@), DEFAULT_SCRATCHPAD_SPACE),
            field(root, "scratchpad"@),
        ) {
            (Some(launch_timeout), Some(scratchpad_space), Some(Item::List(entries))) => {
                match definitions_of(entries@, launch_timeout, scratchpad_space) {
                    Some(scratchpads) => Some(
                        Settings { launch_timeout, scratchpad_space, scratchpads },
                    ),
                    None => None,
                }
            },
            _ => None,
        },
        None => None,
    }
}

/// Whether a result holds these settings, or a configuration error in
/// their absence.
pub open spec fn same_settings(got: Result<Config, ToggleError>, expected: Option<Settings>) -> bool {
    match (got, expected) {
        (Ok(config), Some(settings)) => config@ == settings,
        (Err(error), None) => error == ToggleError::ConfigurationError,
        _ => false,
    }
}

impl Item {
    /// The value under a key of a table.
    #[verifier::loop_isolation(false)]
    pub fn get<'a>(&'a self, key: &str) -> (found: Option<&'a Item>)
        ensures
            match field(*self, key@) {
                Some(item) => found == Some(&item),
                None => found.is_none(),
            },
    {
        match self {
            Item::Table(entries) => {
                let wanted_key = String::from_str(key);
                let ghost wanted = |entry: (String, Item)| entry.0@ == key@;
                let mut i: usize = 0;
                while i < entries.len()
                    invariant
                        i <= entries.len(),
                        wanted_key@ == key@,
                        wanted == (|entry: (String, Item)| entry.0@ == key@),
                        first_from(entries@, wanted, 0) == first_from(entries@, wanted, i as int),
                    decreases entries.len() - i,
                {
                    if entries[i].0 == wanted_key {
                        assert(wanted(entries@[i as int]));
                        return Some(&entries[i].1);
                    }
                    i += 1;
                }
                None
            },
            _ => None,
        }
    }
}

fn small(entry: &Item, key: &str, default: u8) -> (number: Option<u8>)
    ensures
        number == small_of(field(*entry, key@), default),
{
    match entry.get(key) {
        None => Some(default),
        Some(Item::Integer(number)) => {
            if 0 <= *number && *number <= 255 {
                Some(*number as u8)
            } else {
                None
            }
        },
        Some(_) => None,
    }
}

fn pixels(item: &Item) -> (number: Option<u16>)
    ensures
        number == pixels_of(*item),
{
    match item {
        Item::Integer(number) => {
            if 0 <= *number && *number <= 65535 {
                Some(*number as u16)
            } else {
                None
            }
        },
        _ => None,
    }
}

fn coordinate(entry: &Item, key: &str) -> (pair: Option<Coordinate>)
    ensures
        pair == coordinate_of(field(*entry, key@)),
{
    match entry.get(key) {
        Some(Item::List(list)) => {
            if list.len() != 2 {
                return None;
            }
            match (pixels(&list[0]), pixels(&list[1])) {
                (Some(x), Some(y)) => Some(Coordinate { x, y }),
                _ => None,
            }
        },
        _ => None,
    }
}

fn text(entry: &Item, key: &str) -> (value: Option<String>)
    ensures
        match (value, text_of(field(*entry, key@))) {
            (Some(got), Some(expected)) => got@ == expected,
            (None, None) => true,
            _ => false,
        },
{
    match entry.get(key) {
        Some(Item::Text(value)) => Some(value.clone()),
        _ => None,
    }
}

#[verifier::loop_isolation(false)]
fn texts(entry: &Item, key: &str) -> (value: Option<Vec<String>>)
    ensures
        match (value, texts_of(field(*entry, key@))) {
            (Some(got), Some(expected)) => words(got) == expected,
            (None, None) => true,
            _ => false,
        },
{
    match entry.get(key) {
        Some(Item::List(list)) => {
            let mut tokens: Vec<String> = Vec::new();
            let mut i: usize = 0;
            while i < list.len()
                invariant
                    i <= list.len(),
                    tokens@.len() == i,
                    forall|j: int|
                        0 <= j < i ==> text_of(Some(#[trigger] list@[j])) == Some(tokens@[j]@),
                decreases list.len() - i,
            {
                match &list[i] {
                    Item::Text(token) => {
                        tokens.push(token.clone());
                    },
                    _ => {
                        assert(!text_of(Some(list@[i as int])).is_some());
                        return None;
                    },
                }
                i += 1;
            }
            assert(words(tokens) =~= texts_of(Some(Item::List(*list))).unwrap());
            Some(tokens)
        },
        _ => None,
    }
}

fn target(entry: &Item) -> (value: Option<Target>)
    ensures
        match (value, target_of(*entry)) {
            (Some(got), Some(expected)) => got@ == expected,
            (None, None) => true,
            _ => false,
        },
{
    match text(entry, "target") {
        Some(name) => match entry.get("target_type") {
            None => Some(Target::App(name)),
            Some(Item::Text(kind)) => {
                if *kind == String::from_str("app") {
                    Some(Target::App(name))
                } else if *kind == String::from_str("title") {
                    Some(Target::Title(name))
                } else {
                    None
                }
            },
            Some(_) => None,
        },
        None => None,
    }
}

fn launch_with(kind: &str, entry: &Item) -> (value: Option<LaunchOption>)
    ensures
        match (value, launch_as(kind@, field(*entry, "launch_command"@))) {
            (Some(got), Some(expected)) => got@ == expected,
            (None, None) => true,
            _ => false,
        },
{
    let kind = String::from_str(kind);
    if kind == String::from_str("application_with_arg") {
        match texts(entry, "launch_command") {
            Some(tokens) => {
                let mut tokens = tokens;
                if tokens.len() > 0 {
                    let ghost all = words(tokens);
                    let bundle = tokens.remove(0);
                    assert(words(tokens) =~= all.remove(0));
                    Some(LaunchOption::ApplicationWithArgs(bundle, tokens))
                } else {
                    None
                }
            },
            None => None,
        }
    } else if kind == String::from_str("application") {
        match text(entry, "launch_command") {
            Some(value) => Some(LaunchOption::Application(value)),
            None => None,
        }
    } else if kind == String::from_str("command") {
        match text(entry, "launch_command") {
            Some(value) => {
                if command_line(split_line(value.as_str())).is_ok() {
                    Some(LaunchOption::Command(value))
                } else {
                    None
                }
            },
            None => None,
        }
    } else {
        None
    }
}

fn launch_option(entry: &Item) -> (value: Option<LaunchOption>)
    ensures
        match (value, launch_of(*entry)) {
            (Some(got), Some(expected)) => got@ == expected,
            (None, None) => true,
            _ => false,
        },
{
    match entry.get("launch_type") {
        None => launch_with("application", entry),
        Some(Item::Text(kind)) => launch_with(kind.as_str(), entry),
        Some(_) => None,
    }
}

fn scratchpad(entry: &Item, launch_timeout: u8, scratchpad_space: u8) -> (value: Option<Scratchpad>)
    ensures
        match (value, definition_of(*entry, launch_timeout, scratchpad_space)) {
            (Some(got), Some(expected)) => got@ == expected,
            (None, None) => true,
            _ => false,
        },
{
    let name = match text(entry, "name") {
        Some(name) => name,
        None => { return None; },
    };
    let target = match target(entry) {
        Some(target) => target,
        None => { return None; },
    };
    let position = match coordinate(entry, "position") {
        Some(position) => position,
        None => { return None; },
    };
    let size = match coordinate(entry, "size") {
        Some(size) => size,
        None => { return None; },
    };
    let launch_command = match launch_option(entry) {
        Some(launch_command) => launch_command,
        None => { return None; },
    };
    Some(
        Scratchpad {
            name,
            target,
            position,
            size,
            launch_command,
            launch_timeout,
            scratchpad_space,
        },
    )
}

/// What the TOML reader makes of a text: the document's root table, or
/// nothing where the text is not well-formed TOML.
pub uninterp spec fn toml_document(text: Seq<char>) -> Option<Item>;

#[verifier::external_type_specification]
#[verifier::external_body]
pub struct ExTomlValue(toml::Value);

/// Copies a `toml::Value` into an item, variant by variant: integers,
/// strings, arrays and tables keep what they hold, and every other kind of
/// value becomes `Other`.
#[verifier::external_body]
fn item_of(value: &toml::Value) -> Item {
    match value {
        toml::Value::Integer(number) => Item::Integer(*number),
        toml::Value::String(text) => Item::Text(text.clone()),
        toml::Value::Array(list) => Item::List(list.iter().map(item_of).collect()),
        toml::Value::Table(table) => Item::Table(
            table.iter().map(|(key, value)| (key.clone(), item_of(value))).collect(),
        ),
        _ => Item::Other,
    }
}

/// `toml::from_str` at the type `toml::Value`: the document that a text
/// holds, copied into an item, or nothing where the reader reports an
/// error. The result depends on the text alone.
#[verifier::external_body]
fn parse_document(text: &str) -> (document: Option<Item>)
    ensures
        document == toml_document(text@),
{
    match toml::from_str::<toml::Value>(text) {
        Ok(value) => Some(item_of(&value)),
        Err(_) => None,
    }
}

impl Config {
    /// Reads the settings out of a document.
    #[verifier::loop_isolation(false)]
    pub fn from_document(document: Option<Item>) -> (config: Result<Config, ToggleError>)
        ensures
            same_settings(config, settings_of(document)),
    {
        let root = match document {
            Some(root) => root,
            None => { return Err(ToggleError::ConfigurationError); },
        };
        let launch_timeout = match small(&root, "launch_timeout", DEFAULT_LAUNCH_TIMEOUT) {
            Some(number) => number,
            None => { return Err(ToggleError::ConfigurationError); },
        };
        let scratchpad_space = match small(&root, "scratchpad_space", DEFAULT_SCRATCHPAD_SPACE) {
            Some(number) => number,
            None => { return Err(ToggleError::ConfigurationError); },
        };
        match root.get("scratchpad") {
            Some(Item::List(entries)) => {
                let mut scratchpads: Vec<Scratchpad> = Vec::new();
                let mut i: usize = 0;
                while i < entries.len()
                    invariant
                        i <= entries.len(),
                        scratchpads@.len() == i,
                        forall|j: int|
                            0 <= j < i ==> definition_of(
                                #[trigger] entries@[j],
                                launch_timeout,
                                scratchpad_space,
                            ) == Some(scratchpads@[j]@),
                    decreases entries.len() - i,
                {
                    match scratchpad(&entries[i], launch_timeout, scratchpad_space) {
                        Some(pad) => {
                            scratchpads.push(pad);
                        },
                        None => {
                            assert(!definition_of(
                                entries@[i as int],
                                launch_timeout,
                                scratchpad_space,
                            ).is_some());
                            return Err(ToggleError::ConfigurationError);
                        },
                    }
                    i += 1;
                }
                let config = Config { launch_timeout, scratchpad_space, scratchpads };
                assert(config@.scratchpads =~= definitions_of(
                    entries@,
                    launch_timeout,
                    scratchpad_space,
                ).unwrap());
                Ok(config)
            },
            _ => Err(ToggleError::ConfigurationError),
        }
    }

    /// Reads the settings out of the text of a configuration file.
    pub fn from(config_string: &str) -> (config: Result<Config, ToggleError>)
        ensures
            same_settings(config, settings_of(toml_document(config_string@))),
    {
        Config::from_document(parse_document(config_string))
    }
}

/// A scratchpad that was read from a document can be launched: its
/// command line, where it has one, splits into a program and arguments, so
/// that no toggle of it ends with a configuration error.
pub proof fn lemma_configured_scratchpad_launches(
    entry: Item,
    launch_timeout: u8,
    scratchpad_space: u8,
    pad: Scratchpad,
)
    requires
        definition_of(entry, launch_timeout, scratchpad_space) == Some(pad@),
    ensures
        pad.launch_plan().is_ok(),
        pad.launch_timeout == launch_timeout,
        pad.scratchpad_space == scratchpad_space,
{
}

} // verus!
