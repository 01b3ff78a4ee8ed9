use vstd::prelude::*;
use vstd::string::*;

verus! {

/// The name of the key-value namespace that holds the process records.
pub const PROCESSES: &'static str = "processes";

/// A registry key: the raw bytes of the canonicalized absolute path of a
/// watched working directory.
#[derive(Debug, Clone, PartialEq, Eq)]
pub struct Key(Vec<u8>);

impl Key {
    pub closed spec fn view(&self) -> Seq<u8> {
        self.0@
    }

    /// The key under which a directory path is registered: the raw bytes of
    /// its UTF-8 text.
    pub fn from_text(value: &str) -> (r: Key)
        ensures
            r@ == value.spec_bytes(),
    {
        Key(value.as_bytes_vec())
    }

    pub fn from_bytes(value: Vec<u8>) -> (r: Key)
        ensures
            r@ == value@,
    {
        Key(value)
    }

    pub fn as_bytes(&self) -> (r: &Vec<u8>)
        ensures
            r@ == self@,
    {
        &self.0
    }
}

/// The mathematical content of a process record, independent of its wire
/// encoding: the watched directory, the two output destinations, and the
/// process id of the worker, when one is associated.
#[verifier::ext_equal]
pub ghost struct ProcessModel {
    pub directory: Seq<char>,
    pub stdout: Seq<char>,
    pub stderr: Seq<char>,
    pub process_id: Option<u32>,
}

/// A versioned process record: the registry entity stored once per watched
/// working directory. The version tag on the wire encoding permits schema
/// evolution without breaking old records; every match on this type is
/// exhaustive, so adding a version is a compile-time-checked exercise.
#[derive(Debug, Clone, PartialEq, Eq)]
pub enum Process {
    V1(v1::Process),
}

impl View for Process {
    type V = ProcessModel;

    open spec fn view(&self) -> ProcessModel {
        match self {
            Process::V1(v) => ProcessModel {
                directory: v.directory@,
                stdout: v.stdout@,
                stderr: v.stderr@,
                process_id: v.process_id,
            },
        }
    }
}

impl Process {
    pub fn directory(&self) -> (r: &str)
        ensures
            r@ == self@.directory,
    {
        match self {
            Process::V1(v) => v.directory.as_str(),
        }
    }

    pub fn stdout(&self) -> (r: &str)
        ensures
            r@ == self@.stdout,
    {
        match self {
            Process::V1(v) => v.stdout.as_str(),
        }
    }

    pub fn stderr(&self) -> (r: &str)
        ensures
            r@ == self@.stderr,
    {
        match self {
            Process::V1(v) => v.stderr.as_str(),
        }
    }

    /// Whether a worker process is currently associated with this record.
    /// An absent process id only ever means "no process associated",
    /// never "unknown".
    pub fn active(&self) -> (r: bool)
        ensures
            r == (self@.process_id is Some),
    {
        match self {
            Process::V1(v) => v.process_id.is_some(),
        }
    }

    pub fn process_id(&self) -> (r: Option<u32>)
        ensures
            r == self@.process_id,
    {
        match self {
            Process::V1(v) => v.process_id,
        }
    }
}

} // verus!

pub mod v1;
