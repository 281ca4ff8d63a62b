use crate::error::{ErrorKind, HostError};
use vstd::prelude::*;

verus! {

/// The fixed set of host capabilities that script code can call.
#[derive(Clone, Copy, Debug, PartialEq, Eq, Structural)]
pub enum HostOp {
    ReadFile,
    WriteFile,
    RemoveFile,
    Fetch,
}

/// Whether an operation returns at once or suspends the calling script.
#[derive(Clone, Copy, Debug, PartialEq, Eq, Structural)]
pub enum CallingConvention {
    Fast,
    Async,
}

/// Only file removal runs without suspending.
pub open spec fn convention_of(op: HostOp) -> CallingConvention {
    if op == HostOp::RemoveFile {
        CallingConvention::Fast
    } else {
        CallingConvention::Async
    }
}

/// The kind of failure that an operation reports to the script.
pub open spec fn failure_kind_of(op: HostOp) -> ErrorKind {
    if op == HostOp::Fetch {
        ErrorKind::NetworkFailure
    } else {
        ErrorKind::IoFailure
    }
}

/// The name under which the engine registers an operation.
pub open spec fn op_name_of(op: HostOp) -> Seq<char> {
    match op {
        HostOp::ReadFile => "op_read_file"@,
        HostOp::WriteFile => "op_write_file"@,
        HostOp::RemoveFile => "op_remove_file"@,
        HostOp::Fetch => "op_fetch"@,
    }
}

/// The name by which script code calls an operation.
pub open spec fn script_name_of(op: HostOp) -> Seq<char> {
    match op {
        HostOp::ReadFile => "readFile"@,
        HostOp::WriteFile => "writeFile"@,
        HostOp::RemoveFile => "removeFile"@,
        HostOp::Fetch => "fetch"@,
    }
}

/// The whole capability surface, in registration order.
pub open spec fn registry_spec() -> Seq<HostOp> {
    seq![HostOp::Fetch, HostOp::ReadFile, HostOp::WriteFile, HostOp::RemoveFile]
}

impl HostOp {
    pub fn convention(self) -> (r: CallingConvention)
        ensures
            r == convention_of(self),
    {
        match self {
            HostOp::RemoveFile => CallingConvention::Fast,
            _ => CallingConvention::Async,
        }
    }

    pub fn failure_kind(self) -> (r: ErrorKind)
        ensures
            r == failure_kind_of(self),
    {
        match self {
            HostOp::Fetch => ErrorKind::NetworkFailure,
            _ => ErrorKind::IoFailure,
        }
    }

    pub fn op_name(self) -> (r: &'static str)
        ensures
            r@ == op_name_of(self),
    {
        match self {
            HostOp::ReadFile => "op_read_file",
            HostOp::WriteFile => "op_write_file",
            HostOp::RemoveFile => "op_remove_file",
            HostOp::Fetch => "op_fetch",
        }
    }

    pub fn script_name(self) -> (r: &'static str)
        ensures
            r@ == script_name_of(self),
    {
        match self {
            HostOp::ReadFile => "readFile",
            HostOp::WriteFile => "writeFile",
            HostOp::RemoveFile => "removeFile",
            HostOp::Fetch => "fetch",
        }
    }

    /// The failure that a call of this operation hands back to the script
    /// when the host work behind it fails with `message`.
    pub fn failure(self, message: String) -> (r: HostError)
        ensures
            r.kind == failure_kind_of(self),
            r.message@ == message@,
    {
        HostError::new(self.failure_kind(), message)
    }
}

/// The fixed operation registry installed in every engine instance.
pub fn registry() -> (r: Vec<HostOp>)
    ensures
        r@ == registry_spec(),
{
    vec![HostOp::Fetch, HostOp::ReadFile, HostOp::WriteFile, HostOp::RemoveFile]
}

/// Each capability stands in the registry exactly once.
pub proof fn lemma_registry_complete(op: HostOp)
    ensures
        registry_spec().contains(op),
        forall|i: int, j: int|
            0 <= i < j < registry_spec().len() ==> registry_spec()[i] != registry_spec()[j],
{
    match op {
        HostOp::Fetch => assert(registry_spec()[0] == op),
        HostOp::ReadFile => assert(registry_spec()[1] == op),
        HostOp::WriteFile => assert(registry_spec()[2] == op),
        HostOp::RemoveFile => assert(registry_spec()[3] == op),
    }
}

} // verus!
