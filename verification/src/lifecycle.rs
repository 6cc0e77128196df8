//! The life of a pidfile, step by step.
//!
//! Each step is a value. The caller performs the filesystem operation that
//! the value stands for and hands the outcome to the step's closing method,
//! which decides what comes next. `E` is the caller's type for the failure of
//! such an operation; the steps hand it on as it came.
use crate::decimal::{
    decimal, format_decimal, is_digit, lemma_decimal_digits, lemma_decimal_len,
    lemma_decimal_no_leading_zero, lemma_value_of_decimal, value,
};
use std::path::PathBuf;
use vstd::prelude::*;

verus! {

/// `std::path::PathBuf`, which the steps carry from the caller to the
/// operations and never look into.
#[verifier::external_type_specification]
#[verifier::external_body]
pub struct ExPathBuf(PathBuf);

/// The operation at which a creation failed.
#[derive(Debug, Clone, Copy, PartialEq, Eq, Structural)]
pub enum Stage {
    /// The file could not be created or opened for writing.
    Open,
    /// The file was opened, and writing the process identifier failed.
    Write,
}

/// Why no pidfile was created.
#[derive(Debug)]
pub struct CreationError<E> {
    /// The operation that failed.
    pub stage: Stage,
    /// The failure, as the caller reported it.
    pub cause: E,
}

/// A removal that failed. It is a diagnostic to report, not a failure of the
/// release: the handle is gone either way.
#[derive(Debug)]
pub struct CleanupError<E> {
    /// The path of the file that is still there, or was gone already.
    pub path: PathBuf,
    /// The failure, as the caller reported it.
    pub cause: E,
}

/// A pidfile about to be created: the file at `path` is to be opened for
/// writing, created if absent and truncated if present.
#[derive(Debug)]
pub struct Creation {
    fname: PathBuf,
    pid: u32,
}

/// A pidfile that was opened, and is empty: `content` is to be written to it.
#[derive(Debug)]
pub struct Writing {
    fname: PathBuf,
    pid: u32,
}

/// The handle of a pidfile that was created. While it lives, the file at its
/// path holds the decimal notation of the process identifier that the creation
/// was started with.
#[derive(Debug)]
pub struct Pidfile {
    fname: PathBuf,
}

/// A handle that was released: the file at `path` is to be removed, once.
#[derive(Debug)]
pub struct Removal {
    fname: PathBuf,
}

impl Creation {
    /// The path of the file to open.
    pub closed spec fn spec_path(&self) -> PathBuf {
        self.fname
    }

    /// The process identifier that the file will hold.
    pub closed spec fn spec_pid(&self) -> u32 {
        self.pid
    }

    /// The path of the file to open.
    pub fn path(&self) -> (path: &PathBuf)
        ensures
            *path == self.spec_path(),
    {
        &self.fname
    }

    /// The process identifier that the file will hold.
    pub fn pid(&self) -> (pid: u32)
        ensures
            pid == self.spec_pid(),
    {
        self.pid
    }

    /// Takes the outcome of opening the file. After a success the content is
    /// to be written; after a failure the creation is over, and nothing is
    /// to be written or removed.
    pub fn opened<E>(self, outcome: Result<(), E>) -> (next: Result<Writing, CreationError<E>>)
        ensures
            outcome is Ok ==> next is Ok && next->Ok_0.follows(self),
            outcome is Err ==> next == Err::<Writing, CreationError<E>>(
                CreationError { stage: Stage::Open, cause: outcome->Err_0 },
            ),
    {
        match outcome {
            Ok(()) => Ok(Writing { fname: self.fname, pid: self.pid }),
            Err(cause) => Err(CreationError { stage: Stage::Open, cause }),
        }
    }
}

impl Writing {
    /// The path of the file to write to.
    pub closed spec fn spec_path(&self) -> PathBuf {
        self.fname
    }

    /// The process identifier to write.
    pub closed spec fn spec_pid(&self) -> u32 {
        self.pid
    }

    /// The bytes that the file is to hold: the process identifier in
    /// decimal, and nothing else.
    pub open spec fn spec_content(&self) -> Seq<u8> {
        decimal(self.spec_pid() as nat)
    }

    /// Whether this step is the one that `creation` leads to once its file
    /// is open: it has the same path and the same process identifier.
    pub open spec fn follows(&self, creation: Creation) -> bool {
        self.spec_path() == creation.spec_path() && self.spec_pid() == creation.spec_pid()
    }

    /// The path of the file to write to.
    pub fn path(&self) -> (path: &PathBuf)
        ensures
            *path == self.spec_path(),
    {
        &self.fname
    }

    /// The process identifier to write.
    pub fn pid(&self) -> (pid: u32)
        ensures
            pid == self.spec_pid(),
    {
        self.pid
    }

    /// The bytes that the file is to hold, all of them: the process
    /// identifier in decimal.
    pub fn content(&self) -> (bytes: Vec<u8>)
        ensures
            bytes@ == self.spec_content(),
    {
        format_decimal(self.pid)
    }

    /// Takes the outcome of writing the content. After a success the pidfile
    /// exists and the handle owns it; after a failure there is no handle, and
    /// nothing is to be removed.
    pub fn written<E>(self, outcome: Result<(), E>) -> (next: Result<Pidfile, CreationError<E>>)
        ensures
            outcome is Ok ==> next is Ok && next->Ok_0.follows(self),
            outcome is Err ==> next == Err::<Pidfile, CreationError<E>>(
                CreationError { stage: Stage::Write, cause: outcome->Err_0 },
            ),
    {
        match outcome {
            Ok(()) => Ok(Pidfile { fname: self.fname }),
            Err(cause) => Err(CreationError { stage: Stage::Write, cause }),
        }
    }
}

impl Pidfile {
    /// The path of the pidfile.
    pub closed spec fn spec_path(&self) -> PathBuf {
        self.fname
    }

    /// Whether this handle is the one that `writing` leads to once its
    /// content is written: it has the same path.
    pub open spec fn follows(&self, writing: Writing) -> bool {
        self.spec_path() == writing.spec_path()
    }

    /// Starts the creation of a pidfile at `fname` for the process `pid`.
    /// Whatever the file held before is to be replaced.
    pub fn new(fname: PathBuf, pid: u32) -> (creation: Creation)
        ensures
            creation.spec_path() == fname,
            creation.spec_pid() == pid,
    {
        Creation { fname, pid }
    }

    /// The path of the pidfile.
    pub fn path(&self) -> (path: &PathBuf)
        ensures
            *path == self.spec_path(),
    {
        &self.fname
    }

    /// Ends the handle. The file at its path is to be removed, and the handle
    /// cannot be used again.
    pub fn release(self) -> (removal: Removal)
        ensures
            removal.follows(self),
    {
        Removal { fname: self.fname }
    }
}

impl Removal {
    /// The path of the file to remove.
    pub closed spec fn spec_path(&self) -> PathBuf {
        self.fname
    }

    /// Whether this step is the one that releasing `handle` leads to: it has
    /// the same path.
    pub open spec fn follows(&self, handle: Pidfile) -> bool {
        self.spec_path() == handle.spec_path()
    }

    /// The path of the file to remove.
    pub fn path(&self) -> (path: &PathBuf)
        ensures
            *path == self.spec_path(),
    {
        &self.fname
    }

    /// Takes the outcome of removing the file. A failure, whatever its
    /// cause, does not fail the release: it comes back as a diagnostic for
    /// the caller to report. No second removal is asked for.
    pub fn removed<E>(self, outcome: Result<(), E>) -> (report: Option<CleanupError<E>>)
        ensures
            outcome is Ok ==> report is None,
            outcome is Err ==> report == Some(
                CleanupError { path: self.spec_path(), cause: outcome->Err_0 },
            ),
    {
        match outcome {
            Ok(()) => None,
            Err(cause) => Some(CleanupError { path: self.fname, cause }),
        }
    }
}

/// The content of a pidfile is its process identifier and nothing more: one
/// to ten ASCII digits, without a leading zero unless the identifier is zero,
/// which read as a number give the identifier back.
pub proof fn lemma_content_is_the_pid(writing: Writing)
    ensures
        1 <= writing.spec_content().len() <= 10,
        forall|i: int|
            0 <= i < writing.spec_content().len() ==> is_digit(
                #[trigger] writing.spec_content()[i],
            ),
        writing.spec_content()[0] == 0x30 <==> writing.spec_pid() == 0,
        value(writing.spec_content()) == writing.spec_pid(),
{
    let pid = writing.spec_pid() as nat;
    lemma_decimal_len(pid);
    lemma_decimal_digits(pid);
    lemma_decimal_no_leading_zero(pid);
    lemma_value_of_decimal(pid);
}

/// From the start of a creation to the removal, every step names one path,
/// the one that the creation was started with, and the content written is
/// the process identifier that it was started with.
pub proof fn lemma_one_path_from_creation_to_removal(
    creation: Creation,
    writing: Writing,
    handle: Pidfile,
    removal: Removal,
)
    requires
        writing.follows(creation),
        handle.follows(writing),
        removal.follows(handle),
    ensures
        writing.spec_content() == decimal(creation.spec_pid() as nat),
        handle.spec_path() == creation.spec_path(),
        removal.spec_path() == creation.spec_path(),
{
}

} // verus!
