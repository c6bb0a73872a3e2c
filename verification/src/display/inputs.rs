//! The three input widgets, as far as they decide anything: what a key does
//! to a number being typed, to a question, to a menu.  Reading the keys and
//! drawing the widget is left to the caller.
use vstd::prelude::*;

verus! {

/// A key as the widgets see it.
#[derive(Debug, PartialEq, Eq, Clone, Copy, Structural)]
pub enum Key {
    Char(char),
    Up,
    Down,
    Left,
    Right,
    Enter,
    Backspace,
    Other,
}

/// What a key did to a widget.
#[derive(Debug, PartialEq, Eq)]
pub enum Answer<T> {
    /// The widget waits for more keys.
    Pending,
    /// The user has answered.
    Given(T),
    /// The user wants to leave the program.
    Quit,
}

/// What `char::is_numeric` returns for the character.
pub uninterp spec fn numeric(c: char) -> bool;

/// Calls `char::is_numeric`, which tells whether the character has one of
/// the general categories for numbers.  The contract gives the answer a
/// name and claims nothing else.
#[verifier::external_body]
fn is_numeric(c: char) -> (b: bool)
    ensures
        b == numeric(c),
{
    c.is_numeric()
}

/// What `str::parse::<i32>` returns for the text: the number it stands
/// for, or `None` where parsing fails.
pub uninterp spec fn parsed(text: Seq<char>) -> Option<i32>;

/// Calls `str::parse::<i32>` and drops what the error says.  The contract
/// gives the result a name and claims nothing else.
#[verifier::external_body]
fn parse_number(text: &str) -> (number: Option<i32>)
    ensures
        number == parsed(text@),
{
    text.parse::<i32>().ok()
}

/// Calls `String::push`, which appends the character to the end.
#[verifier::external_body]
fn push_char(text: &mut String, c: char)
    ensures
        final(text)@ == old(text)@.push(c),
{
    text.push(c);
}

/// Calls `String::pop`, which removes the last character and does nothing
/// to an empty string.
#[verifier::external_body]
fn pop_char(text: &mut String)
    ensures
        final(text)@ == if old(text)@.len() > 0 {
            old(text)@.drop_last()
        } else {
            old(text)@
        },
{
    text.pop();
}

/// Asks for a number within bounds.
pub struct NumberInput {
    pub message: String,
    pub min: i32,
    pub max: Option<i32>,
}

impl NumberInput {
    /// An input without a message that accepts every number from 0 on.
    pub fn new() -> (input: Self)
        ensures
            input.message@ == Seq::<char>::empty(),
            input.min == 0,
            input.max is None,
    {
        NumberInput { message: String::new(), min: 0, max: None }
    }

    pub fn set_message(self, message: &str) -> (input: Self)
        ensures
            input.message@ == message@,
            input.min == self.min,
            input.max == self.max,
    {
        let mut input = self;
        input.message = message.to_string();
        input
    }

    pub fn set_min(self, min: i32) -> (input: Self)
        ensures
            input.message == self.message,
            input.min == min,
            input.max == self.max,
    {
        let mut input = self;
        input.min = min;
        input
    }

    pub fn set_max(self, max: i32) -> (input: Self)
        ensures
            input.message == self.message,
            input.min == self.min,
            input.max == Some(max),
    {
        let mut input = self;
        input.max = Some(max);
        input
    }

    /// The number lies within the bounds.
    pub open spec fn accepts(&self, number: i32) -> bool {
        number >= self.min && match self.max {
            Some(max) => number <= max,
            None => true,
        }
    }

    /// The number that the typed text stands for: what it parses to, and 0
    /// if it does not parse.
    pub open spec fn typed(text: Seq<char>) -> i32 {
        match parsed(text) {
            Some(number) => number,
            None => 0,
        }
    }

    /// What a key does while the number is typed.
    ///
    /// `q` quits.  Another character joins the text if it is numeric, and is
    /// dropped if not.  Backspace takes the last character away.  Enter
    /// gives the number typed if it lies within the bounds, and clears the
    /// text if not.  Other keys do nothing.
    pub fn key_pressed(&self, current_number_string: &mut String, key: Key) -> (answer: Answer<i32>)
        ensures
            answer == match key {
                Key::Char(c) => if c == 'q' {
                    Answer::Quit
                } else {
                    Answer::Pending
                },
                Key::Enter => if self.accepts(Self::typed(old(current_number_string)@)) {
                    Answer::Given(Self::typed(old(current_number_string)@))
                } else {
                    Answer::Pending
                },
                _ => Answer::Pending,
            },
            final(current_number_string)@ == match key {
                Key::Char(c) => if c != 'q' && numeric(c) {
                    old(current_number_string)@.push(c)
                } else {
                    old(current_number_string)@
                },
                Key::Backspace => if old(current_number_string)@.len() > 0 {
                    old(current_number_string)@.drop_last()
                } else {
                    old(current_number_string)@
                },
                Key::Enter => if self.accepts(Self::typed(old(current_number_string)@)) {
                    old(current_number_string)@
                } else {
                    Seq::<char>::empty()
                },
                _ => old(current_number_string)@,
            },
    {
        match key {
            Key::Char(c) => {
                if c == 'q' {
                    return Answer::Quit;
                }
                if is_numeric(c) {
                    push_char(current_number_string, c);
                }
            },
            Key::Backspace => {
                pop_char(current_number_string);
            },
            Key::Enter => {
                let current_number = match parse_number(current_number_string.as_str()) {
                    Some(number) => number,
                    None => 0,
                };
                if current_number >= self.min {
                    if let Some(max) = self.max {
                        if current_number <= max {
                            return Answer::Given(current_number);
                        }
                    } else {
                        return Answer::Given(current_number);
                    }
                }
                *current_number_string = String::new();
            },
            _ => {},
        }
        Answer::Pending
    }
}

/// Asks a question that is answered by yes or no.
pub struct Confirm {
    pub message: String,
}

impl Confirm {
    /// A question without a message.
    pub fn new() -> (confirm: Self)
        ensures
            confirm.message@ == Seq::<char>::empty(),
    {
        Confirm { message: String::new() }
    }

    pub fn set_message(self, message: String) -> (confirm: Self)
        ensures
            confirm.message == message,
    {
        let mut confirm = self;
        confirm.message = message;
        confirm
    }

    /// What a key does to the question: `q` quits, `c` says no, Enter says
    /// yes, and every other key leaves the question open.
    pub fn key_pressed(&self, key: Key) -> (answer: Answer<bool>)
        ensures
            answer == match key {
                Key::Char(c) => if c == 'q' {
                    Answer::Quit
                } else if c == 'c' {
                    Answer::Given(false)
                } else {
                    Answer::Pending
                },
                Key::Enter => Answer::Given(true),
                _ => Answer::Pending,
            },
    {
        match key {
            Key::Char(c) => {
                if c == 'q' {
                    Answer::Quit
                } else if c == 'c' {
                    Answer::Given(false)
                } else {
                    Answer::Pending
                }
            },
            Key::Enter => Answer::Given(true),
            _ => Answer::Pending,
        }
    }
}

/// A menu: a title and the options to choose from.
#[derive(Debug, PartialEq, Eq, Clone)]
pub struct OptionSelect {
    pub title: String,
    pub options: Vec<String>,
}

/// The texts of the options, in their order.
pub open spec fn texts(options: Seq<String>) -> Seq<Seq<char>> {
    Seq::new(options.len(), |i: int| options[i]@)
}

impl OptionSelect {
    /// A menu without a title and without options.
    pub fn new() -> (menu: Self)
        ensures
            menu.title@ == Seq::<char>::empty(),
            menu.options@ == Seq::<String>::empty(),
    {
        OptionSelect { title: String::new(), options: Vec::new() }
    }

    pub fn set_title(self, title: &str) -> (menu: Self)
        ensures
            menu.title@ == title@,
            menu.options == self.options,
    {
        let mut menu = self;
        menu.title = title.to_string();
        menu
    }

    /// Adds an option at the end.
    pub fn add_option(self, option: &str) -> (menu: Self)
        ensures
            menu.title == self.title,
            texts(menu.options@) == texts(self.options@).push(option@),
    {
        let mut menu = self;
        menu.options.push(option.to_string());
        assert(texts(menu.options@) =~= texts(self.options@).push(option@));
        menu
    }

    /// Adds an option at the end if the condition holds.
    pub fn add_option_if_true(self, option: String, condition: bool) -> (menu: Self)
        ensures
            menu.title == self.title,
            menu.options@ == if condition {
                self.options@.push(option)
            } else {
                self.options@
            },
    {
        let mut menu = self;
        if condition {
            menu.options.push(option);
        }
        menu
    }

    /// Where a key takes the selection.  Up and Down move by one option and
    /// wrap round at the ends; every other key leaves it where it is.
    pub open spec fn selection_after(&self, current_option: int, key: Key) -> int {
        match key {
            Key::Up => if current_option > 0 {
                current_option - 1
            } else {
                self.options@.len() - 1
            },
            Key::Down => if current_option < self.options@.len() - 1 {
                current_option + 1
            } else {
                0
            },
            _ => current_option,
        }
    }

    /// What a key does to a menu that is not empty, with the selection on
    /// one of its options.
    ///
    /// `q` quits.  Enter chooses the selected option.  Up and Down move the
    /// selection, see [`OptionSelect::selection_after`]; it stays on an
    /// option of the menu.
    pub fn key_pressed(&self, current_option: &mut usize, key: Key) -> (answer: Answer<String>)
        requires
            *old(current_option) < self.options@.len(),
        ensures
            *final(current_option) == self.selection_after(*old(current_option) as int, key),
            *final(current_option) < self.options@.len(),
            match key {
                Key::Char(c) => if c == 'q' {
                    answer is Quit
                } else {
                    answer is Pending
                },
                Key::Enter => answer is Given && answer->Given_0@ == self.options@[*old(
                    current_option,
                ) as int]@,
                _ => answer is Pending,
            },
    {
        match key {
            Key::Char(c) => {
                if c == 'q' {
                    return Answer::Quit;
                }
            },
            Key::Up => {
                if *current_option > 0 {
                    *current_option -= 1;
                } else {
                    *current_option = self.options.len() - 1;
                }
            },
            Key::Down => {
                if *current_option < self.options.len() - 1 {
                    *current_option += 1;
                } else {
                    *current_option = 0;
                }
            },
            Key::Enter => {
                return Answer::Given(self.options[*current_option].clone());
            },
            _ => {},
        }
        Answer::Pending
    }
}

} // verus!
