//! What a key press asks of the outside world: a command to start, the
//! snapshot to be saved, or the session to end.

use crate::strings::texts;
use vstd::prelude::*;

verus! {

/// Whether a character is whitespace, as `char::is_whitespace` tells: that
/// it has the Unicode property `White_Space`.
pub uninterp spec fn is_space(c: char) -> bool;

/// `char::is_whitespace` is a function of the character alone; its result is
/// named by `is_space`.
pub assume_specification[ char::is_whitespace ](c: char) -> (space: bool)
    ensures
        space == is_space(c),
;

/// The words of a text: its longest runs of characters that are not
/// whitespace, in order. A character that is not whitespace lengthens the
/// word that the character before it belongs to, or starts a new word.
pub open spec fn words(text: Seq<char>) -> Seq<Seq<char>>
    decreases text.len(),
{
    if text.len() == 0 {
        Seq::empty()
    } else {
        let before = words(text.drop_last());
        if is_space(text.last()) {
            before
        } else if before.len() > 0 && text.len() >= 2 && !is_space(text[text.len() - 2]) {
            before.drop_last().push(before.last().push(text.last()))
        } else {
            before.push(seq![text.last()])
        }
    }
}

/// A text holds a word exactly when one of its characters is not whitespace.
pub proof fn lemma_words_of_blank(text: Seq<char>)
    ensures
        words(text).len() == 0 <==> forall|i: int| 0 <= i < text.len() ==> is_space(text[i]),
    decreases text.len(),
{
    if text.len() > 0 {
        lemma_words_of_blank(text.drop_last());
        if words(text).len() == 0 {
            assert forall|i: int| 0 <= i < text.len() implies is_space(text[i]) by {
                if i < text.len() - 1 {
                    assert(text[i] == text.drop_last()[i]);
                }
            }
        } else if is_space(text.last()) {
            let i = choose|i: int| 0 <= i < text.len() - 1 && !is_space(text.drop_last()[i]);
            assert(!is_space(text[i]));
        }
    }
}

/// No word is empty, and no word holds whitespace.
pub proof fn lemma_words_hold_no_space(text: Seq<char>)
    ensures
        forall|k: int| 0 <= k < words(text).len() ==> (#[trigger] words(text)[k]).len() > 0,
        forall|k: int, i: int|
            0 <= k < words(text).len() && 0 <= i < words(text)[k].len() ==> !is_space(
                #[trigger] words(text)[k][i],
            ),
    decreases text.len(),
{
    if text.len() > 0 {
        let before = words(text.drop_last());
        let after = words(text);
        lemma_words_hold_no_space(text.drop_last());
        assert forall|k: int| 0 <= k < after.len() implies (#[trigger] after[k]).len() > 0 && (
        forall|i: int| 0 <= i < after[k].len() ==> !is_space(#[trigger] after[k][i])) by {
            if k < before.len() && after[k] == before[k] {
                assert forall|i: int| 0 <= i < after[k].len() implies !is_space(
                    #[trigger] after[k][i],
                ) by {
                    assert(!is_space(before[k][i]));
                }
            } else if k < before.len() {
                assert(after[k] == before.last().push(text.last()));
                assert forall|i: int| 0 <= i < after[k].len() implies !is_space(
                    #[trigger] after[k][i],
                ) by {
                    if i < before.last().len() {
                        assert(!is_space(before[before.len() - 1][i]));
                    }
                }
            }
        }
    }
}

/// The mathematical model of a command line.
#[verifier::ext_equal]
pub struct CommandView {
    pub program: Seq<char>,
    pub args: Seq<Seq<char>>,
}

/// The mathematical model of an action.
#[verifier::ext_equal]
pub enum ActionView {
    Idle,
    Run(CommandView),
    Save,
    Quit,
}

/// The command line that a todo's command text stands for: its first word
/// is the program, the words after it are the arguments. A text without a
/// word stands for none.
pub open spec fn command_of(words: Seq<Seq<char>>) -> Option<CommandView> {
    if words.len() > 0 {
        Some(CommandView { program: words[0], args: words.skip(1) })
    } else {
        None
    }
}

/// A program to start and the arguments to start it with.
#[derive(Clone, Debug)]
pub struct Command {
    pub program: String,
    pub args: Vec<String>,
}

/// The model of a command line.
impl View for Command {
    type V = CommandView;

    open spec fn view(&self) -> CommandView {
        CommandView { program: self.program@, args: texts(self.args@) }
    }
}

impl Command {
    /// The command line made of the given words.
    pub fn from_words(words: Vec<String>) -> (command: Option<Command>)
        ensures
            match command {
                Some(c) => Some(c@) == command_of(texts(words@)),
                None => command_of(texts(words@)).is_none(),
            },
    {
        let mut words = words;
        if words.len() == 0 {
            return None;
        }
        let ghost all = words@;
        let program = words.remove(0);
        assert(texts(words@) =~= texts(all).skip(1));
        Some(Command { program, args: words })
    }

    /// The command line that a command text stands for.
    pub fn parse(text: &str) -> (command: Option<Command>)
        ensures
            match command {
                Some(c) => Some(c@) == command_of(words(text@)),
                None => command_of(words(text@)).is_none(),
            },
    {
        Command::from_words(split_words(text))
    }
}

/// The words of a text, each in a string of its own.
pub fn split_words(text: &str) -> (out: Vec<String>)
    ensures
        texts(out@) == words(text@),
{
    broadcast use vstd::string::group_string_axioms;

    let mut out: Vec<String> = Vec::new();
    let mut in_word: bool = false;
    for c in it: text.chars()
        invariant
            it.seq() == text@,
            texts(out@) =~= words(text@.take(it.index())),
            in_word == (it.index() > 0 && !is_space(text@[it.index() - 1])),
            in_word ==> out@.len() > 0,
    {
        assert(text@.take(it.index() + 1).drop_last() =~= text@.take(it.index()));
        assert(text@.take(it.index() + 1).last() == c);
        if c.is_whitespace() {
            in_word = false;
        } else if in_word {
            let last: usize = out.len() - 1;
            out[last].push(c);
        } else {
            let mut word = String::new();
            word.push(c);
            out.push(word);
            in_word = true;
        }
    }
    assert(text@.take(text@.len() as int) =~= text@);
    out
}

/// What the caller is to do after a key press.
#[derive(Clone, Debug)]
pub enum Action {
    /// Nothing.
    Idle,
    /// Start the command as a detached process, its output discarded, and
    /// keep its handle.
    Run(Command),
    /// Write the snapshot of the notes to storage.
    Save,
    /// Join the started commands, end those still running, and leave.
    Quit,
}

/// The model of an action.
impl View for Action {
    type V = ActionView;

    open spec fn view(&self) -> ActionView {
        match self {
            Action::Idle => ActionView::Idle,
            Action::Run(c) => ActionView::Run(c@),
            Action::Save => ActionView::Save,
            Action::Quit => ActionView::Quit,
        }
    }
}

} // verus!
