//! The decisions of the command line tool: which kind of file a path names,
//! where its transformation is written, and what is reported after a run.
use std::path::Path;
use vstd::prelude::*;
use crate::acceptance::block_accepted;
use crate::accepted::accepted_block;
use crate::lua::{Block, LastStmt};
use crate::roblox::{spec_dom, transform_dom, Dom};
use crate::statements::transform_module_block::{returns_value, spec_module_block, transform_module_block};
use crate::text::concat;
use crate::ts::{view_module_items, ModuleItem, SpecModuleItem};

verus! {

/// The kinds of file that the tool transforms.
#[derive(Clone, Copy, Debug, PartialEq, Eq, Structural)]
pub enum FileKind {
    /// A Luau source file (`.lua`, `.luau`).
    Lua,
    /// A binary Roblox model (`.rbxm`).
    BinaryModel,
    /// An XML Roblox model (`.rbxmx`).
    XmlModel,
}

/// The extension of the path `path`, as `Path::extension` finds it.
pub uninterp spec fn path_extension(path: Seq<char>) -> Option<Seq<char>>;

/// The path `path` with its extension replaced by `ts`, as
/// `Path::with_extension` makes it.
pub uninterp spec fn path_with_ts_extension(path: Seq<char>) -> Seq<char>;

/// `Path::extension`: the extension of `path`, if it has one. The text of
/// the extension is named, not stated.
#[verifier::external_body]
fn extension(path: &str) -> (r: Option<String>)
    ensures
        match r {
            Some(e) => path_extension(path@) == Some(e@),
            None => path_extension(path@) is None,
        },
{
    Path::new(path).extension().map(|e| e.to_string_lossy().into_owned())
}

/// `Path::with_extension` with `ts`: the path that the transformation of the
/// file at `path` is written to. The text of the path is named, not stated.
#[verifier::external_body]
fn with_ts_extension(path: &str) -> (r: String)
    ensures
        r@ == path_with_ts_extension(path@),
{
    Path::new(path).with_extension("ts").to_string_lossy().into_owned()
}

/// The kind of file that an extension stands for.
pub open spec fn kind_of_extension(ext: Option<Seq<char>>) -> Option<FileKind> {
    match ext {
        Some(e) => if e == "lua"@ || e == "luau"@ {
            Some(FileKind::Lua)
        } else if e == "rbxm"@ {
            Some(FileKind::BinaryModel)
        } else if e == "rbxmx"@ {
            Some(FileKind::XmlModel)
        } else {
            None
        },
        None => None,
    }
}

/// The kind of file that the extension `ext` stands for, if any.
pub fn file_kind_of_extension(ext: Option<&str>) -> (r: Option<FileKind>)
    ensures
        r == kind_of_extension(
            match ext {
                Some(e) => Some(e@),
                None => None,
            },
        ),
{
    match ext {
        Some(e) => {
            if crate::text::str_eq(e, "lua") || crate::text::str_eq(e, "luau") {
                Some(FileKind::Lua)
            } else if crate::text::str_eq(e, "rbxm") {
                Some(FileKind::BinaryModel)
            } else if crate::text::str_eq(e, "rbxmx") {
                Some(FileKind::XmlModel)
            } else {
                None
            }
        },
        None => None,
    }
}

/// The kind of the file at `path`, told by its extension.
pub fn detect_file_kind(path: &str) -> (r: Option<FileKind>)
    ensures
        r == kind_of_extension(path_extension(path@)),
{
    match extension(path) {
        Some(e) => file_kind_of_extension(Some(e.as_str())),
        None => file_kind_of_extension(None),
    }
}

/// The path that the transformation of the file at `path` is written to.
pub fn target_path(path: &str) -> (r: String)
    ensures
        r@ == path_with_ts_extension(path@),
{
    with_ts_extension(path)
}

/// A parsed file, ready to be transformed.
#[derive(Debug, PartialEq)]
pub enum TransformFile {
    /// The top-level block of a Luau file.
    Lua(Block),
    /// A Roblox model.
    Model(Dom),
}

/// The module that a file becomes.
pub open spec fn spec_transform_file(file: TransformFile) -> Seq<SpecModuleItem> {
    match file {
        TransformFile::Lua(block) => spec_module_block(block),
        TransformFile::Model(dom) => spec_dom(dom),
    }
}

impl TransformFile {
    /// Whether the transformation can be made: a Luau file must hold no
    /// misused `unpack` and must not end with a `return` of nothing.
    pub open spec fn transformable(self) -> bool {
        match self {
            TransformFile::Lua(block) => accepted_block(block) && returns_value(block),
            TransformFile::Model(_) => true,
        }
    }

    /// Whether the transformation of the file can be made.
    pub fn can_transform(&self) -> (r: bool)
        ensures
            r == self.transformable(),
    {
        match self {
            TransformFile::Lua(block) => {
                let gives_value = match &block.last_stmt {
                    Some(LastStmt::Return(v)) => v.len() > 0,
                    _ => true,
                };
                gives_value && block_accepted(block)
            },
            TransformFile::Model(_) => true,
        }
    }

    /// Transforms the file into a TypeScript module.
    pub fn transform(self) -> (r: Vec<ModuleItem>)
        requires
            self.transformable(),
        ensures
            view_module_items(r@) == spec_transform_file(self),
    {
        match self {
            TransformFile::Lua(block) => transform_module_block(&block),
            TransformFile::Model(dom) => transform_dom(dom),
        }
    }
}

/// What became of one file given to the tool.
#[derive(Debug, PartialEq)]
pub enum FileOutcome {
    /// The file could not be read; the text of the error.
    OpenFailed(String),
    /// The file could not be parsed; the text of the error.
    ParseFailed(String),
    /// The path has no extension that the tool knows.
    UnknownKind,
    /// The target exists, and overwriting was not asked for.
    TargetExists,
    /// The target could not be opened for writing; the text of the error.
    CreateFailed(String),
    /// The target could not be written; the text of the error.
    WriteFailed(String),
    /// The transformation was written.
    Written,
}

/// The status that the tool exits with, named after the codes of
/// `sysexits.h`.
#[derive(Clone, Copy, Debug, PartialEq, Eq, Structural)]
pub enum ExitStatus {
    /// Every file was written.
    Success,
    /// The input was not a file that the tool can transform.
    DataErr,
    /// The output file could not be created.
    CantCreat,
    /// The output file could not be written.
    IoErr,
}

/// The line that reports an outcome, if it is a failure.
pub open spec fn failure_message(path: Seq<char>, outcome: FileOutcome) -> Option<Seq<char>> {
    let target = path_with_ts_extension(path);
    match outcome {
        FileOutcome::OpenFailed(e) => Some("Error while opening `"@ + path + "`: "@ + e@),
        FileOutcome::ParseFailed(e) => Some("Error while parsing `"@ + path + "`: "@ + e@),
        FileOutcome::UnknownKind => Some("Could not detect file kind of `"@ + path + "`"@),
        FileOutcome::TargetExists => Some("Refusing to overwrite `"@ + target + "`"@),
        FileOutcome::CreateFailed(e) => Some(
            "Error while opening file handle for `"@ + target + "`: "@ + e@,
        ),
        FileOutcome::WriteFailed(e) => Some("Error while writing `"@ + target + "`: "@ + e@),
        FileOutcome::Written => None,
    }
}

/// The status that an outcome sets; a written file leaves it as it was.
pub open spec fn status_after(status: ExitStatus, outcome: FileOutcome) -> ExitStatus {
    match outcome {
        FileOutcome::OpenFailed(_) => ExitStatus::DataErr,
        FileOutcome::ParseFailed(_) => ExitStatus::DataErr,
        FileOutcome::UnknownKind => ExitStatus::DataErr,
        FileOutcome::TargetExists => ExitStatus::CantCreat,
        FileOutcome::CreateFailed(_) => ExitStatus::CantCreat,
        FileOutcome::WriteFailed(_) => ExitStatus::IoErr,
        FileOutcome::Written => status,
    }
}

/// The status after a run in which the outcomes `outcomes` came in turn,
/// starting from `start`.
pub open spec fn status_after_all(start: ExitStatus, outcomes: Seq<FileOutcome>) -> ExitStatus
    decreases outcomes.len(),
{
    if outcomes.len() == 0 {
        start
    } else {
        status_after(status_after_all(start, outcomes.drop_last()), outcomes.last())
    }
}

/// A run in which every file was written exits with success; any other run
/// exits with the status that its last failure sets.
pub proof fn lemma_status_of_last_failure(outcomes: Seq<FileOutcome>)
    ensures
        (forall|i: int| 0 <= i < outcomes.len() ==> #[trigger] outcomes[i] is Written)
            ==> status_after_all(ExitStatus::Success, outcomes) == ExitStatus::Success,
        forall|i: int|
            0 <= i < outcomes.len() && !(#[trigger] outcomes[i] is Written) && (forall|j: int|
                i < j < outcomes.len() ==> #[trigger] outcomes[j] is Written)
                ==> status_after_all(ExitStatus::Success, outcomes) == status_after(
                ExitStatus::Success,
                outcomes[i],
            ),
    decreases outcomes.len(),
{
    if outcomes.len() > 0 {
        let init = outcomes.drop_last();
        lemma_status_of_last_failure(init);
        assert forall|i: int|
            0 <= i < outcomes.len() && !(#[trigger] outcomes[i] is Written) && (forall|j: int|
                i < j < outcomes.len() ==> #[trigger] outcomes[j] is Written) implies status_after_all(
            ExitStatus::Success,
            outcomes,
        ) == status_after(ExitStatus::Success, outcomes[i]) by {
            if i < outcomes.len() - 1 {
                assert(outcomes[outcomes.len() - 1] is Written);
                assert(init[i] == outcomes[i]);
                assert forall|j: int| i < j < init.len() implies #[trigger] init[j] is Written by {
                    assert(outcomes[j] is Written);
                }
            }
        }
        if forall|i: int| 0 <= i < outcomes.len() ==> #[trigger] outcomes[i] is Written {
            assert forall|i: int| 0 <= i < init.len() implies #[trigger] init[i] is Written by {
                assert(outcomes[i] is Written);
            }
            assert(outcomes[outcomes.len() - 1] is Written);
        }
    }
}

/// A file that could not be read, parsed or recognised is a data error; a
/// target that exists or cannot be opened is a failure to create; a failed
/// write is an I/O error; a written file leaves the status as it was.
pub proof fn lemma_status_of_each_outcome(status: ExitStatus, outcome: FileOutcome)
    ensures
        outcome is OpenFailed || outcome is ParseFailed || outcome is UnknownKind
            ==> status_after(status, outcome) == ExitStatus::DataErr,
        outcome is TargetExists || outcome is CreateFailed ==> status_after(status, outcome)
            == ExitStatus::CantCreat,
        outcome is WriteFailed ==> status_after(status, outcome) == ExitStatus::IoErr,
        outcome is Written ==> status_after(status, outcome) == status,
{
}

/// `.lua` and `.luau` files are Luau source, `.rbxm` files binary models and
/// `.rbxmx` files XML models; no other extension, and no extension, names a
/// kind.
pub proof fn lemma_kinds_of_extensions(ext: Option<Seq<char>>)
    ensures
        ext == Some("lua"@) || ext == Some("luau"@) ==> kind_of_extension(ext) == Some(FileKind::Lua),
        ext == Some("rbxm"@) ==> kind_of_extension(ext) == Some(FileKind::BinaryModel),
        ext == Some("rbxmx"@) ==> kind_of_extension(ext) == Some(FileKind::XmlModel),
        ext is None ==> kind_of_extension(ext) is None,
        kind_of_extension(ext) is Some ==> ext == Some("lua"@) || ext == Some("luau"@) || ext
            == Some("rbxm"@) || ext == Some("rbxmx"@),
{
    reveal_strlit("lua");
    reveal_strlit("luau");
    reveal_strlit("rbxm");
    reveal_strlit("rbxmx");
    if ext == Some("rbxm"@) {
        assert("rbxm"@[0] != "lua"@[0]);
        assert("rbxm"@[0] != "luau"@[0]);
    }
    if ext == Some("rbxmx"@) {
        assert("rbxmx"@[0] != "lua"@[0]);
        assert("rbxmx"@[0] != "luau"@[0]);
        assert("rbxmx"@.len() != "rbxm"@.len());
    }
}

/// The failures of a run so far, one line each, and the status that the run
/// exits with.
#[derive(Debug, PartialEq)]
pub struct Report {
    pub failures: Vec<String>,
    pub status: ExitStatus,
}

/// `lines` joined by line breaks.
pub open spec fn joined(lines: Seq<Seq<char>>) -> Seq<char>
    decreases lines.len(),
{
    if lines.len() == 0 {
        Seq::empty()
    } else if lines.len() == 1 {
        lines[0]
    } else {
        joined(lines.drop_last()) + "\n"@ + lines.last()
    }
}

impl Report {
    /// The report of a run in which nothing has happened yet.
    pub fn new() -> (r: Report)
        ensures
            r.failures@.len() == 0,
            r.status == ExitStatus::Success,
    {
        Report { failures: Vec::new(), status: ExitStatus::Success }
    }

    /// Records what became of the file at `path`: a failure adds its line
    /// and sets the status; a written file changes nothing.
    pub fn record(&mut self, path: &str, outcome: &FileOutcome)
        ensures
            final(self).failures@.len() == old(self).failures@.len() + match failure_message(
                path@,
                *outcome,
            ) {
                Some(_) => 1int,
                None => 0int,
            },
            forall|i: int|
                0 <= i < old(self).failures@.len() ==> final(self).failures@[i]@
                    == old(self).failures@[i]@,
            failure_message(path@, *outcome) matches Some(m) ==> final(self).failures@.last()@ == m,
            final(self).status == status_after(old(self).status, *outcome),
    {
        let message = match outcome {
            FileOutcome::OpenFailed(e) => Some(
                concat(concat(concat("Error while opening `", path).as_str(), "`: ").as_str(), e),
            ),
            FileOutcome::ParseFailed(e) => Some(
                concat(concat(concat("Error while parsing `", path).as_str(), "`: ").as_str(), e),
            ),
            FileOutcome::UnknownKind => Some(
                concat(concat("Could not detect file kind of `", path).as_str(), "`"),
            ),
            FileOutcome::TargetExists => {
                let target = target_path(path);
                Some(concat(concat("Refusing to overwrite `", target.as_str()).as_str(), "`"))
            },
            FileOutcome::CreateFailed(e) => {
                let target = target_path(path);
                Some(
                    concat(
                        concat(
                            concat("Error while opening file handle for `", target.as_str()).as_str(),
                            "`: ",
                        ).as_str(),
                        e,
                    ),
                )
            },
            FileOutcome::WriteFailed(e) => {
                let target = target_path(path);
                Some(
                    concat(
                        concat(concat("Error while writing `", target.as_str()).as_str(), "`: ").as_str(),
                        e,
                    ),
                )
            },
            FileOutcome::Written => None,
        };
        self.status = match outcome {
            FileOutcome::OpenFailed(_) => ExitStatus::DataErr,
            FileOutcome::ParseFailed(_) => ExitStatus::DataErr,
            FileOutcome::UnknownKind => ExitStatus::DataErr,
            FileOutcome::TargetExists => ExitStatus::CantCreat,
            FileOutcome::CreateFailed(_) => ExitStatus::CantCreat,
            FileOutcome::WriteFailed(_) => ExitStatus::IoErr,
            FileOutcome::Written => self.status,
        };
        if let Some(m) = message {
            self.failures.push(m);
        }
    }

    /// What the tool prints at the end of a run: its failures, one per line,
    /// or nothing when every file was written.
    pub fn output(&self) -> (r: Option<String>)
        ensures
            self.failures@.len() == 0 ==> r is None,
            self.failures@.len() > 0 ==> (r matches Some(t) && t@ == joined(
                self.failures@.map_values(|f: String| f@),
            )),
    {
        if self.failures.len() == 0 {
            return None;
        }
        let ghost lines = self.failures@.map_values(|f: String| f@);
        let mut out = self.failures[0].clone();
        let mut i: usize = 1;
        assert(lines.take(1) =~= seq![lines[0]]);
        while i < self.failures.len()
            invariant
                1 <= i <= self.failures@.len(),
                lines == self.failures@.map_values(|f: String| f@),
                out@ == joined(lines.take(i as int)),
            decreases self.failures@.len() - i,
        {
            assert(lines.take(i + 1).drop_last() =~= lines.take(i as int));
            out = concat(concat(out.as_str(), "\n").as_str(), self.failures[i].as_str());
            i = i + 1;
        }
        assert(lines.take(i as int) =~= lines);
        Some(out)
    }
}

} // verus!
