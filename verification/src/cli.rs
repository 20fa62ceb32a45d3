//! What the program can be asked to do, and the files it reads for it.

use vstd::prelude::*;
use crate::text::{chars_of, text_of};

verus! {

/// The command line.
#[derive(Clone, Copy, Debug, PartialEq, Eq, Structural)]
pub struct Cli {
    pub command: Commands,
}

#[derive(Clone, Copy, Debug, PartialEq, Eq, Structural)]
pub enum Commands {
    /// Commands on the store.
    Db { command: DbCommands },
    /// Commands on the source files.
    Xml { command: XmlCommands },
}

#[derive(Clone, Copy, Debug, PartialEq, Eq, Structural)]
pub enum DbCommands {
    /// Fill the store from the source files, which are in one of two
    /// formats.
    Populate { xml: bool, yml: bool },
    /// Empty the store.
    Reset,
}

#[derive(Clone, Copy, Debug, PartialEq, Eq, Structural)]
pub enum XmlCommands {
    /// Write the markup files again as block-mapping files.
    Convert,
}

/// The format of a source file.
#[derive(Clone, Copy, Debug, PartialEq, Eq, Structural)]
pub enum FileFormat {
    Xml,
    Yml,
}

/// What a command line asks for.
#[derive(Clone, Copy, Debug, PartialEq, Eq, Structural)]
pub enum Task {
    Populate(FileFormat),
    Reset,
    Convert,
}

impl FileFormat {
    /// The ending of the names of files in this format.
    pub open spec fn extension_text(self) -> Seq<char> {
        match self {
            FileFormat::Xml => "xml"@,
            FileFormat::Yml => "yml"@,
        }
    }

    /// The ending of the names of files in this format.
    pub fn extension(&self) -> (out: &'static str)
        ensures
            out@ == self.extension_text(),
    {
        match self {
            FileFormat::Xml => "xml",
            FileFormat::Yml => "yml",
        }
    }

    /// The format that two flags name: the one whose flag is set, where
    /// exactly one is.
    pub open spec fn of_flags(xml: bool, yml: bool) -> Option<FileFormat> {
        if xml && !yml {
            Some(FileFormat::Xml)
        } else if yml && !xml {
            Some(FileFormat::Yml)
        } else {
            None
        }
    }

    /// The format that two flags name, or none unless exactly one is set.
    pub fn from_flags(xml: bool, yml: bool) -> (out: Option<FileFormat>)
        ensures
            out == FileFormat::of_flags(xml, yml),
    {
        if xml && !yml {
            Some(FileFormat::Xml)
        } else if yml && !xml {
            Some(FileFormat::Yml)
        } else {
            None
        }
    }
}

impl Cli {
    /// What the command line asks for, or none where it asks to populate
    /// without naming exactly one format.
    pub open spec fn task_of(self) -> Option<Task> {
        match self.command {
            Commands::Db { command: DbCommands::Populate { xml, yml } } => match FileFormat::of_flags(
                xml,
                yml,
            ) {
                Some(format) => Some(Task::Populate(format)),
                None => None,
            },
            Commands::Db { command: DbCommands::Reset } => Some(Task::Reset),
            Commands::Xml { command: XmlCommands::Convert } => Some(Task::Convert),
        }
    }

    /// What the command line asks for.
    pub fn task(&self) -> (out: Option<Task>)
        ensures
            out == self.task_of(),
    {
        match self.command {
            Commands::Db { command } => match command {
                DbCommands::Populate { xml, yml } => match FileFormat::from_flags(xml, yml) {
                    Some(format) => Some(Task::Populate(format)),
                    None => None,
                },
                DbCommands::Reset => Some(Task::Reset),
            },
            Commands::Xml { command } => match command {
                XmlCommands::Convert => Some(Task::Convert),
            },
        }
    }
}

/// Two texts with `between` between them.
pub open spec fn joined_by(a: Seq<char>, between: char, b: Seq<char>) -> Seq<char> {
    a.push(between) + b
}

fn join(a: &str, between: char, b: &str) -> (out: String)
    ensures
        out@ == joined_by(a@, between, b@),
{
    let mut chars = chars_of(a);
    chars.push(between);
    let mut tail = chars_of(b);
    chars.append(&mut tail);
    text_of(&chars)
}

/// The name of a file in a directory: the two with a slash between.
pub fn file_in(directory: &str, name: &str) -> (out: String)
    ensures
        out@ == joined_by(directory@, '/', name@),
{
    join(directory, '/', name)
}

/// The name of a file in a format: the stem, a dot, and the format's
/// ending.
pub fn file_of_format(stem: &str, format: FileFormat) -> (out: String)
    ensures
        out@ == joined_by(stem@, '.', format.extension_text()),
{
    join(stem, '.', format.extension())
}

/// The text before the first dot, or all of it where it has none.
pub open spec fn stem_text(name: Seq<char>) -> Seq<char>
    decreases name.len(),
{
    if name.len() == 0 || name[0] == '.' {
        Seq::empty()
    } else {
        seq![name[0]] + stem_text(name.drop_first())
    }
}

/// The text before the first dot of a file's name.
pub fn stem_of(name: &str) -> (out: Vec<char>)
    ensures
        out@ == stem_text(name@),
{
    let chars = chars_of(name);
    let mut out: Vec<char> = Vec::new();
    let mut i: usize = 0;
    assert(chars@.skip(0) == chars@);
    while i < chars.len() && chars[i] != '.'
        invariant
            i <= chars.len(),
            stem_text(chars@) == out@ + stem_text(chars@.skip(i as int)),
        decreases chars.len() - i,
    {
        proof {
            let rest = chars@.skip(i as int);
            assert(rest.drop_first() == chars@.skip(i + 1));
            assert(out@.push(chars@[i as int]) + stem_text(rest.drop_first()) == out@ + (
            seq![rest[0]] + stem_text(rest.drop_first())));
        }
        out.push(chars[i]);
        i += 1;
    }
    proof {
        assert(stem_text(chars@.skip(i as int)) == Seq::<char>::empty());
        assert(out@ + Seq::<char>::empty() == out@);
    }
    out
}

/// The name under which a markup file is written again: what stands before
/// its first dot, and `.yml`.
pub fn yml_name(name: &str) -> (out: String)
    ensures
        out@ == joined_by(stem_text(name@), '.', FileFormat::Yml.extension_text()),
{
    let stem = text_of(&stem_of(name));
    file_of_format(stem.as_str(), FileFormat::Yml)
}

} // verus!
