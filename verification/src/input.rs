//! The input line of the calendar widget: slash commands, and the history
//! of what was entered.

use std::collections::VecDeque;
use vstd::prelude::*;
use vstd::string::StrSliceExecFns;
use crate::text::{str_eq, texts, trim_str, trimmed_text};

verus! {

/// Which parser reads free text into an event.
#[derive(Debug, Clone, Copy, PartialEq, Eq)]
pub enum ParserStrategy {
    SimpleParser,
    AIParser,
}

/// The reader of slash commands.
#[derive(Debug, Clone, Copy, PartialEq, Eq)]
pub struct CommandParser;

/// A slash command.
#[derive(Debug, Clone, PartialEq, Eq)]
pub enum Command {
    Help,
    ShowToday,
    Search(String),
    Settings,
    Clear,
    Export(String),
    Exit,
}

/// The mathematical content of a command.
pub enum CommandModel {
    Help,
    ShowToday,
    Search(Seq<char>),
    Settings,
    Clear,
    Export(Seq<char>),
    Exit,
}

/// What became of a line of input.
#[derive(Debug, Clone, PartialEq, Eq)]
pub enum InputResult {
    Processing(String),
    ShowHelp,
    Info(String),
    Search(String),
    OpenSettings,
    Clear,
    Export(String),
    Exit,
    Error(String),
}

/// The mathematical content of an input result.
pub enum OutcomeModel {
    Processing(Seq<char>),
    ShowHelp,
    Info(Seq<char>),
    Search(Seq<char>),
    OpenSettings,
    Clear,
    Export(Seq<char>),
    Exit,
    Error(Seq<char>),
}

impl View for Command {
    type V = CommandModel;

    open spec fn view(&self) -> CommandModel {
        match self {
            Command::Help => CommandModel::Help,
            Command::ShowToday => CommandModel::ShowToday,
            Command::Search(q) => CommandModel::Search(q@),
            Command::Settings => CommandModel::Settings,
            Command::Clear => CommandModel::Clear,
            Command::Export(f) => CommandModel::Export(f@),
            Command::Exit => CommandModel::Exit,
        }
    }
}

impl View for InputResult {
    type V = OutcomeModel;

    open spec fn view(&self) -> OutcomeModel {
        match self {
            InputResult::Processing(t) => OutcomeModel::Processing(t@),
            InputResult::ShowHelp => OutcomeModel::ShowHelp,
            InputResult::Info(t) => OutcomeModel::Info(t@),
            InputResult::Search(t) => OutcomeModel::Search(t@),
            InputResult::OpenSettings => OutcomeModel::OpenSettings,
            InputResult::Clear => OutcomeModel::Clear,
            InputResult::Export(t) => OutcomeModel::Export(t@),
            InputResult::Exit => OutcomeModel::Exit,
            InputResult::Error(t) => OutcomeModel::Error(t@),
        }
    }
}

/// The view of a string slice that may be absent.
pub open spec fn opt_str(value: Option<&str>) -> Option<Seq<char>> {
    match value {
        Some(t) => Some(t@),
        None => None,
    }
}

/// The content of a command that may be absent.
pub open spec fn opt_command(value: Option<Command>) -> Option<CommandModel> {
    match value {
        Some(c) => Some(c@),
        None => None,
    }
}

/// The number of characters before the first space of a text, or its
/// length where it holds no space.
pub open spec fn word_len(text: Seq<char>) -> nat
    decreases text.len(),
{
    if text.len() == 0 || text[0] == ' ' {
        0
    } else {
        1 + word_len(text.skip(1))
    }
}

/// The text before the first space.
pub open spec fn first_word(text: Seq<char>) -> Seq<char> {
    text.take(word_len(text) as int)
}

/// The text after the first space; empty where there is no space.
pub open spec fn after_first_word(text: Seq<char>) -> Seq<char> {
    if word_len(text) < text.len() {
        text.skip(word_len(text) as int + 1)
    } else {
        Seq::empty()
    }
}

/// The command that a line names by its first word, with the rest of the
/// line as the argument of a search or an export.
pub open spec fn command_of(text: Seq<char>) -> Option<CommandModel> {
    let word = first_word(text);
    if word == "/help"@ {
        Some(CommandModel::Help)
    } else if word == "/today"@ {
        Some(CommandModel::ShowToday)
    } else if word == "/search"@ {
        Some(CommandModel::Search(after_first_word(text)))
    } else if word == "/settings"@ {
        Some(CommandModel::Settings)
    } else if word == "/clear"@ {
        Some(CommandModel::Clear)
    } else if word == "/export"@ {
        Some(CommandModel::Export(after_first_word(text)))
    } else if word == "/exit"@ || word == "/quit"@ {
        Some(CommandModel::Exit)
    } else {
        None
    }
}

/// What carrying out a command results in.
pub open spec fn outcome_of_command(command: CommandModel) -> OutcomeModel {
    match command {
        CommandModel::Help => OutcomeModel::ShowHelp,
        CommandModel::ShowToday => OutcomeModel::Info("Showing today's events"@),
        CommandModel::Search(q) => OutcomeModel::Search(q),
        CommandModel::Settings => OutcomeModel::OpenSettings,
        CommandModel::Clear => OutcomeModel::Clear,
        CommandModel::Export(f) => OutcomeModel::Export(f),
        CommandModel::Exit => OutcomeModel::Exit,
    }
}

/// A text that starts with `{` and ends with `}`.
pub open spec fn is_braced(text: Seq<char>) -> bool {
    text.len() > 0 && text[0] == '{' && text.last() == '}'
}

/// What a trimmed line of input results in: nothing to do for an empty
/// line, the outcome of a command, a note for JSON, and else the line
/// itself to be read as an event.
pub open spec fn outcome_of(line: Seq<char>) -> OutcomeModel {
    if line.len() == 0 {
        OutcomeModel::Clear
    } else {
        match command_of(line) {
            Some(c) => outcome_of_command(c),
            None => if is_braced(trimmed_text(line)) {
                OutcomeModel::Info("JSON input detected"@)
            } else {
                OutcomeModel::Processing(line)
            },
        }
    }
}

/// A position before which a text holds no space, and which is its end or
/// holds a space, is the length of its first word.
pub proof fn word_len_is(text: Seq<char>, n: int)
    requires
        0 <= n <= text.len(),
        forall|k: int| 0 <= k < n ==> text[k] != ' ',
        n == text.len() || text[n] == ' ',
    ensures
        word_len(text) == n,
    decreases n,
{
    if n > 0 {
        let rest = text.skip(1);
        assert forall|k: int| 0 <= k < n - 1 implies rest[k] != ' ' by {
            assert(rest[k] == text[k + 1]);
        }
        word_len_is(rest, n - 1);
    }
}

impl CommandParser {
    /// Whether the input, without the white space at its ends, starts with
    /// `{` and ends with `}`.
    pub fn is_json(&self, input: &str) -> (result: bool)
        ensures
            result == is_braced(trimmed_text(input@)),
    {
        let trimmed = trim_str(input);
        let n: usize = trimmed.unicode_len();
        n > 0 && trimmed.get_char(0) == '{' && trimmed.get_char(n - 1) == '}'
    }

    /// Whether the input starts with a slash.
    pub fn is_command(&self, input: &str) -> (result: bool)
        ensures
            result == (input@.len() > 0 && input@[0] == '/'),
    {
        input.unicode_len() > 0 && input.get_char(0) == '/'
    }

    /// Reads a slash command: the first word names it, and what follows
    /// the first space is the argument of a search or an export.
    pub fn parse_command(&self, input: &str) -> (result: Option<Command>)
        ensures
            opt_command(result) == command_of(input@),
    {
        let n: usize = input.unicode_len();
        let mut i: usize = 0;
        while i < n && input.get_char(i) != ' '
            invariant
                n == input@.len(),
                i <= n,
                forall|k: int| 0 <= k < i ==> input@[k] != ' ',
            decreases n - i,
        {
            i += 1;
        }
        proof {
            word_len_is(input@, i as int);
        }
        let word = input.substring_char(0, i);
        assert(word@ =~= first_word(input@));
        if str_eq(word, "/help") {
            Some(Command::Help)
        } else if str_eq(word, "/today") {
            Some(Command::ShowToday)
        } else if str_eq(word, "/search") {
            Some(Command::Search(CommandParser::argument(input, i, n)))
        } else if str_eq(word, "/settings") {
            Some(Command::Settings)
        } else if str_eq(word, "/clear") {
            Some(Command::Clear)
        } else if str_eq(word, "/export") {
            Some(Command::Export(CommandParser::argument(input, i, n)))
        } else if str_eq(word, "/exit") || str_eq(word, "/quit") {
            Some(Command::Exit)
        } else {
            None
        }
    }

    /// The text after the space at `at`; empty where `at` is the end.
    fn argument(input: &str, at: usize, n: usize) -> (result: String)
        requires
            n == input@.len(),
            at <= n,
            word_len(input@) == at,
        ensures
            result@ == after_first_word(input@),
    {
        if at < n {
            let rest = input.substring_char(at + 1, n);
            assert(rest@ =~= input@.skip(at as int + 1));
            rest.to_owned()
        } else {
            String::new()
        }
    }
}

/// The input line with its history.
pub struct InputHandler {
    command_parser: CommandParser,
    input_history: VecDeque<String>,
    history_position: Option<usize>,
}

impl InputHandler {
    /// The position in the history, if any, lies within it.
    #[verifier::type_invariant]
    pub closed spec fn wf(self) -> bool {
        self.history_position matches Some(p) ==> p < self.input_history@.len()
    }

    /// The lines entered so far, oldest first.
    pub closed spec fn history(self) -> Seq<Seq<char>> {
        texts(self.input_history@)
    }

    /// The place in the history that is shown, if any.
    pub closed spec fn position(self) -> Option<usize> {
        self.history_position
    }

    /// A handler with an empty history.
    pub fn new() -> (result: InputHandler)
        ensures
            result.history() == Seq::<Seq<char>>::empty(),
            result.position() is None,
    {
        let result = InputHandler {
            command_parser: CommandParser,
            input_history: VecDeque::with_capacity(100),
            history_position: None,
        };
        assert(texts(result.input_history@) =~= Seq::<Seq<char>>::empty());
        result
    }

    /// What a line of input results in, the white space at its ends cut.
    pub fn handle_input(&mut self, input: &str) -> (result: InputResult)
        ensures
            result@ == outcome_of(trimmed_text(input@)),
            final(self).history() == old(self).history(),
            final(self).position() == old(self).position(),
    {
        let trimmed = trim_str(input);
        if trimmed.unicode_len() == 0 {
            return InputResult::Clear;
        }
        match self.command_parser.parse_command(trimmed) {
            Some(command) => self.execute_command(command),
            None => {
                if self.command_parser.is_json(trimmed) {
                    InputResult::Info("JSON input detected".to_owned())
                } else {
                    InputResult::Processing(trimmed.to_owned())
                }
            },
        }
    }

    /// What carrying out a command results in.
    pub fn execute_command(&self, command: Command) -> (result: InputResult)
        ensures
            result@ == outcome_of_command(command@),
    {
        match command {
            Command::Help => InputResult::ShowHelp,
            Command::ShowToday => InputResult::Info("Showing today's events".to_owned()),
            Command::Search(query) => InputResult::Search(query),
            Command::Settings => InputResult::OpenSettings,
            Command::Clear => InputResult::Clear,
            Command::Export(format) => InputResult::Export(format),
            Command::Exit => InputResult::Exit,
        }
    }

    /// Steps back in the history: to the line before the one shown, which
    /// is returned. Nothing happens where no line is shown or the first is.
    pub fn history_up(&mut self) -> (result: Option<&str>)
        ensures
            final(self).history() == old(self).history(),
            match old(self).position() {
                Some(p) if p > 0 => final(self).position() == Some((p - 1) as usize) && opt_str(
                    result,
                ) == Some(old(self).history()[p - 1]),
                _ => final(self).position() == old(self).position() && result is None,
            },
    {
        proof {
            use_type_invariant(&*self);
        }
        match self.history_position {
            Some(pos) => {
                if pos > 0 {
                    self.history_position = Some(pos - 1);
                    Some(self.input_history[pos - 1].as_str())
                } else {
                    None
                }
            },
            None => None,
        }
    }

    /// Steps forward in the history: to the line after the one shown, which
    /// is returned; from the last line to no line at all.
    pub fn history_down(&mut self) -> (result: Option<&str>)
        ensures
            final(self).history() == old(self).history(),
            match old(self).position() {
                Some(p) if p + 1 < old(self).history().len() => final(self).position() == Some(
                    (p + 1) as usize,
                ) && opt_str(result) == Some(old(self).history()[p + 1]),
                _ => final(self).position() is None && result is None,
            },
    {
        proof {
            use_type_invariant(&*self);
        }
        match self.history_position {
            Some(pos) => {
                if pos < self.input_history.len() - 1 {
                    self.history_position = Some(pos + 1);
                    Some(self.input_history[pos + 1].as_str())
                } else {
                    self.history_position = None;
                    None
                }
            },
            None => None,
        }
    }
}

} // verus!
