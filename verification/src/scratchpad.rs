use crate::error::ToggleError;
use crate::text::{decimal, decimal_text, lines, quadruple, triple, words};
use crate::yabai_schema::{Space, Window};
use vstd::prelude::*;
use vstd::string::*;

verus! {

/// How a scratchpad's window is told from the others.
#[derive(Debug, Clone, PartialEq, Eq)]
pub enum Target {
    /// By its title, letter for letter.
    Title(String),
    /// By the name of its application, letter for letter.
    App(String),
}

/// A position or a size on the screen, in pixels.
#[derive(Debug, Clone, Copy, PartialEq, Eq, Structural)]
pub struct Coordinate {
    pub x: u16,
    pub y: u16,
}

impl From<[u16; 2]> for Coordinate {
    fn from(nums: [u16; 2]) -> (coordinate: Self) {
        Coordinate { x: nums[0], y: nums[1] }
    }
}

impl vstd::std_specs::convert::FromSpecImpl<[u16; 2]> for Coordinate {
    open spec fn obeys_from_spec() -> bool {
        true
    }

    open spec fn from_spec(nums: [u16; 2]) -> Self {
        Coordinate { x: nums[0], y: nums[1] }
    }
}

impl Coordinate {
    /// The coordinate as the daemon reads it: `abs:`, the first number, a
    /// colon and the second number.
    pub open spec fn wire(self) -> Seq<char> {
        "abs:"@ + decimal_text(self.x as nat) + ":"@ + decimal_text(self.y as nat)
    }

    /// Writes the coordinate as the daemon reads it.
    pub fn to_string(&self) -> (text: String)
        ensures
            text@ == self.wire(),
    {
        let x = decimal(self.x as u64);
        let y = decimal(self.y as u64);
        String::from_str("abs:").concat(x.as_str()).concat(":").concat(y.as_str())
    }
}

/// How a scratchpad's application is started when it has no window.
#[derive(Debug, Clone, PartialEq, Eq)]
pub enum LaunchOption {
    /// An application bundle, by name.
    Application(String),
    /// An application bundle and the arguments handed to it.
    ApplicationWithArgs(String, Vec<String>),
    /// A command line, split as a shell splits it.
    Command(String),
}

/// One configured scratchpad.
#[derive(Debug, Clone)]
pub struct Scratchpad {
    pub name: String,
    pub target: Target,
    pub position: Coordinate,
    pub size: Coordinate,
    pub launch_command: LaunchOption,
    pub launch_timeout: u8,
    pub scratchpad_space: u8,
}

/// A target by the text that it holds.
pub enum Matcher {
    Title(Seq<char>),
    App(Seq<char>),
}

impl View for Target {
    type V = Matcher;

    open spec fn view(&self) -> Matcher {
        match *self {
            Target::Title(title) => Matcher::Title(title@),
            Target::App(app) => Matcher::App(app@),
        }
    }
}

/// A launch option by the texts that it holds.
pub enum Launch {
    Application(Seq<char>),
    ApplicationWithArgs(Seq<char>, Seq<Seq<char>>),
    Command(Seq<char>),
}

impl View for LaunchOption {
    type V = Launch;

    open spec fn view(&self) -> Launch {
        match *self {
            LaunchOption::Application(application) => Launch::Application(application@),
            LaunchOption::ApplicationWithArgs(application, args) => Launch::ApplicationWithArgs(
                application@,
                words(args),
            ),
            LaunchOption::Command(line) => Launch::Command(line@),
        }
    }
}

/// A scratchpad by the texts and numbers that it holds.
pub struct Definition {
    pub name: Seq<char>,
    pub target: Matcher,
    pub position: Coordinate,
    pub size: Coordinate,
    pub launch_command: Launch,
    pub launch_timeout: u8,
    pub scratchpad_space: u8,
}

impl View for Scratchpad {
    type V = Definition;

    open spec fn view(&self) -> Definition {
        Definition {
            name: self.name@,
            target: self.target@,
            position: self.position,
            size: self.size,
            launch_command: self.launch_command@,
            launch_timeout: self.launch_timeout,
            scratchpad_space: self.scratchpad_space,
        }
    }
}

/// The first index from `start` on whose item is wanted.
pub open spec fn first_from<T>(items: Seq<T>, wanted: spec_fn(T) -> bool, start: int) -> Option<
    int,
>
    decreases items.len() - start,
{
    if start < 0 || start >= items.len() {
        None
    } else if wanted(items[start]) {
        Some(start)
    } else {
        first_from(items, wanted, start + 1)
    }
}

/// `first_from` finds the least wanted index that is not below `start`,
/// and finds nothing only where no item from `start` on is wanted.
pub proof fn lemma_first_from<T>(items: Seq<T>, wanted: spec_fn(T) -> bool, start: int)
    requires
        0 <= start,
    ensures
        match first_from(items, wanted, start) {
            Some(found) => start <= found < items.len() && wanted(items[found]) && forall|j: int|
                start <= j < found ==> !wanted(#[trigger] items[j]),
            None => forall|j: int| start <= j < items.len() ==> !wanted(#[trigger] items[j]),
        },
    decreases items.len() - start,
{
    if start < items.len() && !wanted(items[start]) {
        lemma_first_from(items, wanted, start + 1);
    }
}

/// What the external word splitter makes of a command line: the words, or
/// nothing where the quoting is malformed.
pub uninterp spec fn shell_words(line: Seq<char>) -> Option<Seq<Seq<char>>>;

/// `shlex::split`: the words of a command line as a POSIX shell would
/// split it, or nothing where a quote or an escape is left open. The
/// result depends on the line alone.
#[verifier::external_body]
pub(crate) fn split_line(line: &str) -> (split: Option<Vec<String>>)
    ensures
        match split {
            Some(list) => shell_words(line@) == Some(words(list)),
            None => shell_words(line@).is_none(),
        },
{
    shlex::split(line)
}

/// The program and its arguments that a split command line stands for. A
/// line that could not be split, or that holds no word, is no command.
pub open spec fn command_of(split: Option<Seq<Seq<char>>>) -> Result<Seq<Seq<char>>, ToggleError> {
    match split {
        Some(list) => if list.len() > 0 {
            Ok(list)
        } else {
            Err(ToggleError::ConfigurationError)
        },
        None => Err(ToggleError::ConfigurationError),
    }
}

/// Whether a result holds these words, or this error.
pub open spec fn same_words(
    got: Result<Vec<String>, ToggleError>,
    expected: Result<Seq<Seq<char>>, ToggleError>,
) -> bool {
    match (got, expected) {
        (Ok(list), Ok(texts)) => words(list) == texts,
        (Err(error), Err(other)) => error == other,
        _ => false,
    }
}

/// Accepts the words of a command line as a program with its arguments.
pub fn command_line(split: Option<Vec<String>>) -> (command: Result<Vec<String>, ToggleError>)
    ensures
        same_words(
            command,
            command_of(
                match split {
                    Some(list) => Some(words(list)),
                    None => None,
                },
            ),
        ),
{
    match split {
        Some(list) => {
            if list.len() > 0 {
                Ok(list)
            } else {
                Err(ToggleError::ConfigurationError)
            }
        },
        None => Err(ToggleError::ConfigurationError),
    }
}

/// Where a toggle stands between two steps.
#[derive(Debug, Clone, Copy, PartialEq, Eq, Structural)]
pub enum Stage {
    /// Nothing was asked yet.
    Start,
    /// The windows were asked for, and nothing was launched.
    Locating,
    /// The application is being started.
    Launching,
    /// The windows were asked for after the application was started.
    Polling,
    /// The window is known and shall be shown; the spaces were asked for.
    Placing { window: u32, floating: bool },
    /// Nothing is left to decide.
    Finished,
}

/// What happened since the last step.
#[derive(Debug)]
pub enum Event {
    /// The toggle begins.
    Begin,
    /// The daemon's windows, and the milliseconds that have passed since
    /// the application was started (of no account before that).
    Windows(Vec<Window>, u64),
    /// The application was started.
    Spawned,
    /// The daemon's spaces.
    Spaces(Vec<Space>),
    /// The last action failed.
    Failed(ToggleError),
}

/// What is to be done next.
#[derive(Debug, PartialEq, Eq)]
pub enum Action {
    /// Wait so many milliseconds, send the request and hand back the
    /// windows of the answer.
    AskWindows { delay_ms: u64, request: Vec<String> },
    /// Send the request and hand back the spaces of the answer.
    AskSpaces(Vec<String>),
    /// Start this program with these arguments, without waiting for it.
    Spawn(Vec<String>),
    /// Send these commands in order, stop at the first that fails, and end.
    Send(Vec<Vec<String>>),
    /// End with this error.
    Abort(ToggleError),
}

/// An action by the texts that it holds.
pub enum Plan {
    AskWindows { delay_ms: u64, request: Seq<Seq<char>> },
    AskSpaces(Seq<Seq<char>>),
    Spawn(Seq<Seq<char>>),
    Send(Seq<Seq<Seq<char>>>),
    Abort(ToggleError),
}

impl View for Action {
    type V = Plan;

    open spec fn view(&self) -> Plan {
        match *self {
            Action::AskWindows { delay_ms, request } => Plan::AskWindows {
                delay_ms,
                request: words(request),
            },
            Action::AskSpaces(request) => Plan::AskSpaces(words(request)),
            Action::Spawn(command) => Plan::Spawn(words(command)),
            Action::Send(commands) => Plan::Send(lines(commands)),
            Action::Abort(error) => Plan::Abort(error),
        }
    }
}

/// The milliseconds between two looks at the windows while an application
/// starts.
pub const POLL_INTERVAL_MS: u64 = 100;

/// The request for the daemon's windows.
pub open spec fn windows_request() -> Seq<Seq<char>> {
    seq!["query"@, "--windows"@]
}

/// The request for the daemon's spaces.
pub open spec fn spaces_request() -> Seq<Seq<char>> {
    seq!["query"@, "--spaces"@]
}

impl Scratchpad {
    /// Whether a window is the one that the scratchpad names: its title or
    /// its application's name equals the configured text exactly.
    pub open spec fn is_target(&self, window: Window) -> bool {
        match self.target {
            Target::Title(title) => window.title@ == title@,
            Target::App(app) => window.app@ == app@,
        }
    }

    /// The index of the first window that the scratchpad names.
    pub open spec fn target_index(&self, windows: Seq<Window>) -> Option<int> {
        first_from(windows, |window: Window| self.is_target(window), 0)
    }

    /// The command that parks a window on the scratchpad's space.
    pub open spec fn hide_commands(&self, window: u32) -> Seq<Seq<Seq<char>>> {
        seq![
            seq![
                "window"@,
                decimal_text(window as nat),
                "--space"@,
                decimal_text(self.scratchpad_space as nat),
            ],
        ]
    }

    /// The commands that show a window on a space: it is made floating
    /// unless it floats already, moved to the space, moved to the
    /// configured position, given the configured size, and focused.
    pub open spec fn restore_commands(&self, window: u32, floating: bool, space: u32) -> Seq<
        Seq<Seq<char>>,
    > {
        let id = decimal_text(window as nat);
        let float = if floating {
            Seq::<Seq<Seq<char>>>::empty()
        } else {
            seq![seq!["window"@, id, "--toggle"@, "float"@]]
        };
        float + seq![
            seq!["window"@, id, "--space"@, decimal_text(space as nat)],
            seq!["window"@, id, "--move"@, self.position.wire()],
            seq!["window"@, id, "--resize"@, self.size.wire()],
            seq!["window"@, "--focus"@, id],
        ]
    }

    /// The program and arguments that start the scratchpad's application.
    pub open spec fn launch_plan(&self) -> Result<Seq<Seq<char>>, ToggleError> {
        match self.launch_command {
            LaunchOption::Application(application) => Ok(
                seq!["open"@, "-n"@, "/Applications/"@ + application@],
            ),
            LaunchOption::ApplicationWithArgs(application, args) => Ok(
                seq!["open"@, "-n"@, "/Applications/"@ + application@, "--args"@] + words(args),
            ),
            LaunchOption::Command(line) => command_of(shell_words(line@)),
        }
    }

    /// The step that follows on having found, or not, the window.
    pub open spec fn after_launch_look(&self, found: Option<Window>, waited_ms: u64) -> (
        Stage,
        Plan,
    ) {
        match found {
            Some(window) => (
                Stage::Placing { window: window.id, floating: window.is_floating },
                Plan::AskSpaces(spaces_request()),
            ),
            None => if waited_ms > self.launch_timeout as u64 * 1000 {
                (Stage::Finished, Plan::Abort(ToggleError::LaunchTimeout))
            } else {
                (
                    Stage::Polling,
                    Plan::AskWindows { delay_ms: POLL_INTERVAL_MS, request: windows_request() },
                )
            },
        }
    }

    /// The step that follows on the first look at the windows.
    pub open spec fn after_first_look(&self, found: Option<Window>) -> (Stage, Plan) {
        match found {
            Some(window) => if window.has_focus {
                (Stage::Finished, Plan::Send(self.hide_commands(window.id)))
            } else {
                (
                    Stage::Placing { window: window.id, floating: window.is_floating },
                    Plan::AskSpaces(spaces_request()),
                )
            },
            None => match self.launch_plan() {
                Ok(command) => (Stage::Launching, Plan::Spawn(command)),
                Err(error) => (Stage::Finished, Plan::Abort(error)),
            },
        }
    }

    /// One step of a toggle: the stage that follows and the action to take.
    /// An event that does not answer the stage's action ends the toggle
    /// with a protocol error, and a failure ends it with its own error.
    pub open spec fn next(&self, stage: Stage, event: Event) -> (Stage, Plan) {
        match (stage, event) {
            (_, Event::Failed(error)) => (Stage::Finished, Plan::Abort(error)),
            (Stage::Start, Event::Begin) => (
                Stage::Locating,
                Plan::AskWindows { delay_ms: 0, request: windows_request() },
            ),
            (Stage::Locating, Event::Windows(windows, _)) => self.after_first_look(
                match self.target_index(windows@) {
                    Some(i) => Some(windows@[i]),
                    None => None,
                },
            ),
            (Stage::Launching, Event::Spawned) => (
                Stage::Polling,
                Plan::AskWindows { delay_ms: 0, request: windows_request() },
            ),
            (Stage::Polling, Event::Windows(windows, waited_ms)) => self.after_launch_look(
                match self.target_index(windows@) {
                    Some(i) => Some(windows@[i]),
                    None => None,
                },
                waited_ms,
            ),
            (Stage::Placing { window, floating }, Event::Spaces(spaces)) => match first_from(
                spaces@,
                |space: Space| space.has_focus,
                0,
            ) {
                Some(i) => (
                    Stage::Finished,
                    Plan::Send(self.restore_commands(window, floating, spaces@[i].index)),
                ),
                None => (Stage::Finished, Plan::Abort(ToggleError::NoFocusedSpace)),
            },
            _ => (Stage::Finished, Plan::Abort(ToggleError::ProtocolError)),
        }
    }

    /// The first window of the inventory that the scratchpad names.
    pub fn get_target_window<'a>(&self, windows: &'a Vec<Window>) -> (found: Option<&'a Window>)
        ensures
            match self.target_index(windows@) {
                Some(i) => found == Some(&windows@[i]),
                None => found.is_none(),
            },
    {
        let ghost wanted = |window: Window| self.is_target(window);
        let mut i: usize = 0;
        while i < windows.len()
            invariant
                i <= windows.len(),
                wanted == (|window: Window| self.is_target(window)),
                first_from(windows@, wanted, 0) == first_from(windows@, wanted, i as int),
            decreases windows.len() - i,
        {
            let window = &windows[i];
            let matches = match &self.target {
                Target::Title(title) => window.title == *title,
                Target::App(app) => window.app == *app,
            };
            if matches {
                return Some(window);
            }
            i += 1;
        }
        None
    }

    /// The first space of the inventory that has the focus.
    pub fn get_focused_space<'a>(&self, spaces: &'a Vec<Space>) -> (found: Option<&'a Space>)
        ensures
            match first_from(spaces@, |space: Space| space.has_focus, 0) {
                Some(i) => found == Some(&spaces@[i]),
                None => found.is_none(),
            },
    {
        let ghost wanted = |space: Space| space.has_focus;
        let mut i: usize = 0;
        while i < spaces.len()
            invariant
                i <= spaces.len(),
                wanted == (|space: Space| space.has_focus),
                first_from(spaces@, wanted, 0) == first_from(spaces@, wanted, i as int),
            decreases spaces.len() - i,
        {
            if spaces[i].has_focus {
                return Some(&spaces[i]);
            }
            i += 1;
        }
        None
    }

    /// The program and its arguments that start the scratchpad's
    /// application: `open -n` on the bundle under `/Applications/`, with
    /// `--args` and the arguments where there are any, or the words of the
    /// configured command line. A command line with malformed quoting, or
    /// without a word, is a configuration error.
    pub fn launch(&self) -> (command: Result<Vec<String>, ToggleError>)
        ensures
            same_words(command, self.launch_plan()),
    {
        match &self.launch_command {
            LaunchOption::Application(application) => {
                let bundle = String::from_str("/Applications/").concat(application.as_str());
                Ok(triple("open", "-n", bundle.as_str()))
            },
            LaunchOption::ApplicationWithArgs(application, args) => {
                let bundle = String::from_str("/Applications/").concat(application.as_str());
                let mut command = quadruple("open", "-n", bundle.as_str(), "--args");
                let ghost head = words(command);
                let mut i: usize = 0;
                assert(words(command) =~= head + words(*args).take(0));
                while i < args.len()
                    invariant
                        i <= args.len(),
                        words(command) == head + words(*args).take(i as int),
                    decreases args.len() - i,
                {
                    let ghost before = words(command);
                    command.push(args[i].clone());
                    assert(words(command) =~= before.push(args@[i as int]@));
                    assert(words(*args).take(i + 1) =~= words(*args).take(i as int).push(
                        args@[i as int]@,
                    ));
                    i += 1;
                }
                assert(words(*args).take(args@.len() as int) =~= words(*args));
                Ok(command)
            },
            LaunchOption::Command(line) => command_line(split_line(line.as_str())),
        }
    }

    /// Builds the command that parks a window.
    pub fn park(&self, window: u32) -> (commands: Vec<Vec<String>>)
        ensures
            lines(commands) == self.hide_commands(window),
    {
        let id = decimal(window as u64);
        let space = decimal(self.scratchpad_space as u64);
        let mut commands: Vec<Vec<String>> = Vec::new();
        commands.push(quadruple("window", id.as_str(), "--space", space.as_str()));
        assert(lines(commands) =~= self.hide_commands(window));
        commands
    }

    /// Builds the commands that show a window on a space.
    pub fn place(&self, window: u32, floating: bool, space: u32) -> (commands: Vec<Vec<String>>)
        ensures
            lines(commands) == self.restore_commands(window, floating, space),
    {
        let id = decimal(window as u64);
        let index = decimal(space as u64);
        let position = self.position.to_string();
        let size = self.size.to_string();
        let mut commands: Vec<Vec<String>> = Vec::new();
        if !floating {
            commands.push(quadruple("window", id.as_str(), "--toggle", "float"));
        }
        commands.push(quadruple("window", id.as_str(), "--space", index.as_str()));
        commands.push(quadruple("window", id.as_str(), "--move", position.as_str()));
        commands.push(quadruple("window", id.as_str(), "--resize", size.as_str()));
        commands.push(triple("window", "--focus", id.as_str()));
        assert(lines(commands) =~= self.restore_commands(window, floating, space));
        commands
    }

    /// Takes one step of a toggle. The caller carries out the action and
    /// comes back with the event that it led to, until the action is to
    /// send commands or to abort.
    pub fn toggle(&self, stage: Stage, event: Event) -> (step: (Stage, Action))
        ensures
            step.0 == self.next(stage, event).0,
            step.1@ == self.next(stage, event).1,
    {
        match (stage, event) {
            (_, Event::Failed(error)) => (Stage::Finished, Action::Abort(error)),
            (Stage::Start, Event::Begin) => (
                Stage::Locating,
                Action::AskWindows { delay_ms: 0, request: ask_windows() },
            ),
            (Stage::Locating, Event::Windows(windows, _)) => {
                match self.get_target_window(&windows) {
                    Some(window) => {
                        if window.has_focus {
                            (Stage::Finished, Action::Send(self.park(window.id)))
                        } else {
                            (
                                Stage::Placing { window: window.id, floating: window.is_floating },
                                Action::AskSpaces(ask_spaces()),
                            )
                        }
                    },
                    None => match self.launch() {
                        Ok(command) => (Stage::Launching, Action::Spawn(command)),
                        Err(error) => (Stage::Finished, Action::Abort(error)),
                    },
                }
            },
            (Stage::Launching, Event::Spawned) => (
                Stage::Polling,
                Action::AskWindows { delay_ms: 0, request: ask_windows() },
            ),
            (Stage::Polling, Event::Windows(windows, waited_ms)) => {
                match self.get_target_window(&windows) {
                    Some(window) => (
                        Stage::Placing { window: window.id, floating: window.is_floating },
                        Action::AskSpaces(ask_spaces()),
                    ),
                    None => {
                        if waited_ms > self.launch_timeout as u64 * 1000 {
                            (Stage::Finished, Action::Abort(ToggleError::LaunchTimeout))
                        } else {
                            (
                                Stage::Polling,
                                Action::AskWindows {
                                    delay_ms: POLL_INTERVAL_MS,
                                    request: ask_windows(),
                                },
                            )
                        }
                    },
                }
            },
            (Stage::Placing { window, floating }, Event::Spaces(spaces)) => {
                match self.get_focused_space(&spaces) {
                    Some(space) => (
                        Stage::Finished,
                        Action::Send(self.place(window, floating, space.index)),
                    ),
                    None => (Stage::Finished, Action::Abort(ToggleError::NoFocusedSpace)),
                }
            },
            _ => (Stage::Finished, Action::Abort(ToggleError::ProtocolError)),
        }
    }
}

/// Builds the request for the daemon's windows.
pub fn ask_windows() -> (request: Vec<String>)
    ensures
        words(request) == windows_request(),
{
    let mut request: Vec<String> = Vec::new();
    request.push(String::from_str("query"));
    request.push(String::from_str("--windows"));
    assert(words(request) =~= windows_request());
    request
}

/// Builds the request for the daemon's spaces.
pub fn ask_spaces() -> (request: Vec<String>)
    ensures
        words(request) == spaces_request(),
{
    let mut request: Vec<String> = Vec::new();
    request.push(String::from_str("query"));
    request.push(String::from_str("--spaces"));
    assert(words(request) =~= spaces_request());
    request
}

/// The window that a toggle works on is the first of the inventory that
/// the scratchpad names: it is named, no window before it is, and nothing
/// is found only where no window is named.
pub proof fn lemma_target_is_first_named(pad: Scratchpad, windows: Seq<Window>)
    ensures
        match pad.target_index(windows) {
            Some(found) => 0 <= found < windows.len() && pad.is_target(windows[found])
                && forall|j: int| 0 <= j < found ==> !pad.is_target(#[trigger] windows[j]),
            None => forall|j: int| 0 <= j < windows.len() ==> !pad.is_target(#[trigger] windows[j]),
        },
{
    lemma_first_from(windows, |window: Window| pad.is_target(window), 0);
}

/// A window that is found with the focus is hidden: the toggle ends with
/// exactly one command, which moves the window to the scratchpad's space.
pub proof fn lemma_focused_window_is_parked(
    pad: Scratchpad,
    windows: Vec<Window>,
    waited_ms: u64,
    found: int,
)
    requires
        pad.target_index(windows@) == Some(found),
        windows@[found].has_focus,
    ensures
        pad.next(Stage::Locating, Event::Windows(windows, waited_ms)) == (
            Stage::Finished,
            Plan::Send(pad.hide_commands(windows@[found].id)),
        ),
        pad.hide_commands(windows@[found].id).len() == 1,
        pad.hide_commands(windows@[found].id)[0] == seq![
            "window"@,
            decimal_text(windows@[found].id as nat),
            "--space"@,
            decimal_text(pad.scratchpad_space as nat),
        ],
{
}

/// A window that is found without the focus and not floating is shown:
/// the spaces are asked for, and with a focused space among them the
/// toggle ends with five commands in this order: toggle float, move to the
/// focused space, move to the position, resize, focus.
pub proof fn lemma_tiled_window_is_shown(
    pad: Scratchpad,
    windows: Vec<Window>,
    waited_ms: u64,
    found: int,
    spaces: Vec<Space>,
    focused: int,
)
    requires
        pad.target_index(windows@) == Some(found),
        !windows@[found].has_focus,
        !windows@[found].is_floating,
        first_from(spaces@, |space: Space| space.has_focus, 0) == Some(focused),
    ensures
        pad.next(Stage::Locating, Event::Windows(windows, waited_ms)) == (
            Stage::Placing { window: windows@[found].id, floating: false },
            Plan::AskSpaces(spaces_request()),
        ),
        pad.next(
            Stage::Placing { window: windows@[found].id, floating: false },
            Event::Spaces(spaces),
        ) == (
            Stage::Finished,
            Plan::Send(
                seq![
                    seq!["window"@, decimal_text(windows@[found].id as nat), "--toggle"@, "float"@],
                    seq![
                        "window"@,
                        decimal_text(windows@[found].id as nat),
                        "--space"@,
                        decimal_text(spaces@[focused].index as nat),
                    ],
                    seq![
                        "window"@,
                        decimal_text(windows@[found].id as nat),
                        "--move"@,
                        pad.position.wire(),
                    ],
                    seq![
                        "window"@,
                        decimal_text(windows@[found].id as nat),
                        "--resize"@,
                        pad.size.wire(),
                    ],
                    seq!["window"@, "--focus"@, decimal_text(windows@[found].id as nat)],
                ],
            ),
        ),
{
    let id = windows@[found].id;
    let commands = pad.restore_commands(id, false, spaces@[focused].index);
    assert(commands =~= seq![
        seq!["window"@, decimal_text(id as nat), "--toggle"@, "float"@],
        seq!["window"@, decimal_text(id as nat), "--space"@, decimal_text(spaces@[focused].index as nat)],
        seq!["window"@, decimal_text(id as nat), "--move"@, pad.position.wire()],
        seq!["window"@, decimal_text(id as nat), "--resize"@, pad.size.wire()],
        seq!["window"@, "--focus"@, decimal_text(id as nat)],
    ]);
}

/// While an application starts and no window is named, the toggle looks
/// again after the polling interval as long as no more than the launch
/// timeout has passed, and ends with a launch timeout as soon as more has:
/// it never waits on once the timeout is exceeded.
pub proof fn lemma_launch_wait_is_bounded(pad: Scratchpad, windows: Vec<Window>, waited_ms: u64)
    requires
        pad.target_index(windows@).is_none(),
    ensures
        waited_ms > pad.launch_timeout as u64 * 1000 ==> pad.next(
            Stage::Polling,
            Event::Windows(windows, waited_ms),
        ) == (Stage::Finished, Plan::Abort(ToggleError::LaunchTimeout)),
        waited_ms <= pad.launch_timeout as u64 * 1000 ==> pad.next(
            Stage::Polling,
            Event::Windows(windows, waited_ms),
        ) == (
            Stage::Polling,
            Plan::AskWindows { delay_ms: POLL_INTERVAL_MS, request: windows_request() },
        ),
{
}

/// A failure of the transport or of a launch ends the toggle at once, at
/// every stage, with the error that was reported.
pub proof fn lemma_failure_ends_toggle(pad: Scratchpad, stage: Stage, error: ToggleError)
    ensures
        pad.next(stage, Event::Failed(error)) == (Stage::Finished, Plan::Abort(error)),
{
}

} // verus!
