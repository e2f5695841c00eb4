//! The command line: how a line is cut into words, and what the words of a
//! task command ask for.

use crate::quick_date::{all_digits, decimal_value, parse_digits};
use vstd::prelude::*;
use vstd::string::*;

verus! {

/// Why a command could not be carried out.
#[derive(Clone, Copy, Debug, PartialEq, Eq, Structural)]
pub enum TaskCommandError {
    UnknownCommand,
    InvalidFilePath,
    InvalidFileFormat,
    NotANumber,
    MissingField,
}

/// What a command asks of the application: nothing more, to show the tab
/// that took the command, or to do work on files.
#[derive(Debug)]
pub enum CommandRequest {
    Nothing,
    SetActive,
    /// Write all lists to the file of this name.
    Save(String),
    /// Read all lists from the file of this name, in place of the present ones.
    Load(String),
    /// Read one list from the file of this name and add it.
    Import(String),
    /// Write the list with this index to a file named after it. The index
    /// names one of the lists.
    Export(usize),
}

/// A request as a value.
pub enum CommandRequestView {
    Nothing,
    SetActive,
    Save(Seq<char>),
    Load(Seq<char>),
    Import(Seq<char>),
    Export(usize),
}

impl View for CommandRequest {
    type V = CommandRequestView;

    open spec fn view(&self) -> CommandRequestView {
        match *self {
            CommandRequest::Nothing => CommandRequestView::Nothing,
            CommandRequest::SetActive => CommandRequestView::SetActive,
            CommandRequest::Save(name) => CommandRequestView::Save(name@),
            CommandRequest::Load(name) => CommandRequestView::Load(name@),
            CommandRequest::Import(name) => CommandRequestView::Import(name@),
            CommandRequest::Export(index) => CommandRequestView::Export(index),
        }
    }
}

/// The words of a line: the stretches between its spaces. A line without
/// a space is one word; two spaces in a row have an empty word between them.
pub open spec fn split_spec(line: Seq<char>) -> Seq<Seq<char>>
    decreases line.len(),
{
    if line.len() == 0 {
        seq![Seq::empty()]
    } else {
        let before = split_spec(line.drop_last());
        if line.last() == ' ' {
            before.push(Seq::empty())
        } else {
            before.update(before.len() - 1, before.last().push(line.last()))
        }
    }
}

/// The characters of each word.
pub open spec fn word_views(words: Seq<String>) -> Seq<Seq<char>> {
    Seq::new(words.len(), |i: int| words[i]@)
}

/// A line has at least one word.
pub proof fn lemma_split_nonempty(line: Seq<char>)
    ensures
        split_spec(line).len() >= 1,
    decreases line.len(),
{
    if line.len() > 0 {
        lemma_split_nonempty(line.drop_last());
    }
}

/// Cuts a line into its words.
pub fn split_words(line: &str) -> (words: Vec<String>)
    ensures
        word_views(words@) == split_spec(line@),
        words.len() >= 1,
{
    let len = line.unicode_len();
    let mut words: Vec<String> = Vec::new();
    let mut start: usize = 0;
    let mut i: usize = 0;
    proof {
        assert(line@.subrange(0, 0) =~= Seq::<char>::empty());
        assert(word_views(words@).push(line@.subrange(0, 0)) =~= seq![Seq::<char>::empty()]);
    }
    while i < len
        invariant
            len == line@.len(),
            start <= i <= len,
            word_views(words@).push(line@.subrange(start as int, i as int)) == split_spec(
                line@.subrange(0, i as int),
            ),
        decreases len - i,
    {
        let c = line.get_char(i);
        let ghost upto = line@.subrange(0, i + 1);
        proof {
            assert(upto.drop_last() =~= line@.subrange(0, i as int));
            assert(upto.last() == c);
        }
        if c == ' ' {
            let word = String::from_str(line.substring_char(start, i));
            let ghost before = words@;
            words.push(word);
            start = i + 1;
            proof {
                assert(line@.subrange(start as int, i + 1) =~= Seq::<char>::empty());
                assert(word_views(words@) =~= word_views(before).push(word@));
            }
        } else {
            proof {
                let before = word_views(words@).push(line@.subrange(start as int, i as int));
                assert(before.update(before.len() - 1, before.last().push(c)) =~= word_views(
                    words@,
                ).push(line@.subrange(start as int, i + 1))) by {
                    assert(line@.subrange(start as int, i as int).push(c) =~= line@.subrange(
                        start as int,
                        i + 1,
                    ));
                }
            }
        }
        i += 1;
    }
    let word = String::from_str(line.substring_char(start, len));
    let ghost before = words@;
    words.push(word);
    proof {
        assert(word_views(words@) =~= word_views(before).push(word@));
        assert(line@.subrange(0, len as int) =~= line@);
        lemma_split_nonempty(line@);
    }
    words
}

/// Whether two texts are the same.
pub fn same_text(a: &str, b: &str) -> (r: bool)
    ensures
        r == (a@ == b@),
{
    let len = a.unicode_len();
    if len != b.unicode_len() {
        return false;
    }
    let mut i: usize = 0;
    while i < len
        invariant
            len == a@.len() == b@.len(),
            i <= len,
            forall|k: int| 0 <= k < i ==> a@[k] == b@[k],
        decreases len - i,
    {
        if a.get_char(i) != b.get_char(i) {
            return false;
        }
        i += 1;
    }
    assert(a@ =~= b@);
    true
}

/// The digits of a number as it may be written for a list index: with or
/// without a `+` in front.
pub open spec fn unsigned_part(text: Seq<char>) -> Seq<char> {
    if text.len() > 0 && text[0] == '+' {
        text.skip(1)
    } else {
        text
    }
}

/// The list index that a word writes, if it writes one: decimal digits, at
/// least one, a `+` allowed before them, and the number no larger than an
/// index can be.
pub open spec fn index_spec(text: Seq<char>) -> Option<usize> {
    let digits = unsigned_part(text);
    if digits.len() > 0 && all_digits(digits) && decimal_value(digits) <= usize::MAX {
        Some(decimal_value(digits) as usize)
    } else {
        None
    }
}

/// Reads a word as a list index.
pub fn parse_index(text: &str) -> (r: Option<usize>)
    ensures
        r == index_spec(text@),
{
    let len = text.unicode_len();
    let from: usize = if len > 0 && text.get_char(0) == '+' {
        1
    } else {
        0
    };
    proof {
        assert(unsigned_part(text@) =~= text@.subrange(from as int, len as int));
    }
    match parse_digits(text, from, len) {
        Some(value) => {
            if value <= usize::MAX as u64 {
                Some(value as usize)
            } else {
                None
            }
        },
        None => None,
    }
}

/// What the words after the tab's name ask of the task tab, where there
/// are `lists` lists. An `export` of an index that names none of the lists
/// is an `InvalidFilePath`: there is no list to name the file after.
pub open spec fn task_command_spec(words: Seq<Seq<char>>, lists: nat) -> Result<
    CommandRequestView,
    TaskCommandError,
> {
    if words.len() == 0 {
        Ok(CommandRequestView::SetActive)
    } else if words[0] == "new"@ || words[0] == "newlist"@ {
        Ok(CommandRequestView::Nothing)
    } else if words[0] == "save"@ {
        Ok(CommandRequestView::Save(file_name_spec(words)))
    } else if words[0] == "load"@ {
        Ok(CommandRequestView::Load(file_name_spec(words)))
    } else if words[0] == "import"@ {
        if words.len() > 1 {
            Ok(CommandRequestView::Import(words[1]))
        } else {
            Err(TaskCommandError::MissingField)
        }
    } else if words[0] == "export"@ {
        if words.len() > 1 {
            match index_spec(words[1]) {
                Some(index) => if index < lists {
                    Ok(CommandRequestView::Export(index))
                } else {
                    Err(TaskCommandError::InvalidFilePath)
                },
                None => Err(TaskCommandError::NotANumber),
            }
        } else {
            Err(TaskCommandError::MissingField)
        }
    } else {
        Err(TaskCommandError::UnknownCommand)
    }
}

/// The file that `save` and `load` work on: the second word, or
/// `list.json` where there is none.
pub open spec fn file_name_spec(words: Seq<Seq<char>>) -> Seq<char> {
    if words.len() > 1 {
        words[1]
    } else {
        "list.json"@
    }
}

/// The view of a command's outcome.
pub open spec fn outcome_view(r: Result<CommandRequest, TaskCommandError>) -> Result<
    CommandRequestView,
    TaskCommandError,
> {
    match r {
        Ok(request) => Ok(request@),
        Err(e) => Err(e),
    }
}

/// The second word as a file name, or `list.json`.
fn file_name(words: &Vec<String>) -> (r: String)
    requires
        words.len() >= 1,
    ensures
        r@ == file_name_spec(word_views(words@)),
{
    if words.len() > 1 {
        words[1].clone()
    } else {
        String::from_str("list.json")
    }
}

/// Reads the words after the tab's name as a task command, where there
/// are `lists` lists. An `export` of an index that names none of them is
/// an `InvalidFilePath`.
pub fn parse_task_command(words: &Vec<String>, lists: usize) -> (r: Result<
    CommandRequest,
    TaskCommandError,
>)
    ensures
        outcome_view(r) == task_command_spec(word_views(words@), lists as nat),
        r matches Ok(CommandRequest::Export(index)) ==> index < lists,
{
    if words.len() == 0 {
        return Ok(CommandRequest::SetActive);
    }
    let first = words[0].as_str();
    if same_text(first, "new") || same_text(first, "newlist") {
        Ok(CommandRequest::Nothing)
    } else if same_text(first, "save") {
        Ok(CommandRequest::Save(file_name(words)))
    } else if same_text(first, "load") {
        Ok(CommandRequest::Load(file_name(words)))
    } else if same_text(first, "import") {
        if words.len() > 1 {
            Ok(CommandRequest::Import(words[1].clone()))
        } else {
            Err(TaskCommandError::MissingField)
        }
    } else if same_text(first, "export") {
        if words.len() > 1 {
            match parse_index(words[1].as_str()) {
                Some(index) => {
                    if index < lists {
                        Ok(CommandRequest::Export(index))
                    } else {
                        Err(TaskCommandError::InvalidFilePath)
                    }
                },
                None => Err(TaskCommandError::NotANumber),
            }
        } else {
            Err(TaskCommandError::MissingField)
        }
    } else {
        Err(TaskCommandError::UnknownCommand)
    }
}

} // verus!
