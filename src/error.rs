use vstd::prelude::*;

verus! {

/// The kinds of failure that cross from the host into a run.
#[derive(Clone, Copy, Debug, PartialEq, Eq, Structural)]
pub enum ErrorKind {
    /// A malformed or unsupported module specifier.
    Resolution,
    /// A file name whose extension names no loadable media type.
    UnsupportedMediaType,
    /// A syntax error in a module of a typed dialect.
    Transpile,
    /// A file system failure.
    IoFailure,
    /// A failed network fetch.
    NetworkFailure,
    /// An error that script code did not handle.
    ScriptException,
    /// A failure of the fixed bootstrap script.
    BootstrapFailure,
}

/// The name by which a failure kind is written in a message.
pub open spec fn kind_name(k: ErrorKind) -> Seq<char> {
    match k {
        ErrorKind::Resolution => "Resolution"@,
        ErrorKind::UnsupportedMediaType => "UnsupportedMediaType"@,
        ErrorKind::Transpile => "Transpile"@,
        ErrorKind::IoFailure => "IoFailure"@,
        ErrorKind::NetworkFailure => "NetworkFailure"@,
        ErrorKind::ScriptException => "ScriptException"@,
        ErrorKind::BootstrapFailure => "BootstrapFailure"@,
    }
}

/// `text` begins with the name of `k` and a colon.
pub open spec fn is_described_as(text: Seq<char>, k: ErrorKind) -> bool {
    let p = kind_name(k) + seq![':'];
    p.len() <= text.len() && text.subrange(0, p.len() as int) == p
}

/// The failure kind that a message written by `HostError::describe` names;
/// a message that names none is an error of the script itself.
pub open spec fn kind_of_text(text: Seq<char>) -> ErrorKind {
    if is_described_as(text, ErrorKind::Resolution) {
        ErrorKind::Resolution
    } else if is_described_as(text, ErrorKind::UnsupportedMediaType) {
        ErrorKind::UnsupportedMediaType
    } else if is_described_as(text, ErrorKind::Transpile) {
        ErrorKind::Transpile
    } else if is_described_as(text, ErrorKind::IoFailure) {
        ErrorKind::IoFailure
    } else if is_described_as(text, ErrorKind::NetworkFailure) {
        ErrorKind::NetworkFailure
    } else if is_described_as(text, ErrorKind::BootstrapFailure) {
        ErrorKind::BootstrapFailure
    } else {
        ErrorKind::ScriptException
    }
}

impl ErrorKind {
    pub fn name(self) -> (r: &'static str)
        ensures
            r@ == kind_name(self),
    {
        match self {
            ErrorKind::Resolution => "Resolution",
            ErrorKind::UnsupportedMediaType => "UnsupportedMediaType",
            ErrorKind::Transpile => "Transpile",
            ErrorKind::IoFailure => "IoFailure",
            ErrorKind::NetworkFailure => "NetworkFailure",
            ErrorKind::ScriptException => "ScriptException",
            ErrorKind::BootstrapFailure => "BootstrapFailure",
        }
    }
}

fn is_described_as_exec(text: &str, k: ErrorKind) -> (r: bool)
    ensures
        r == is_described_as(text@, k),
{
    let name = k.name();
    let n = name.unicode_len();
    let t = text.unicode_len();
    if n >= t {
        return false;
    }
    let mut i: usize = 0;
    while i < n
        invariant
            n == name@.len(),
            t == text@.len(),
            n < t,
            i <= n,
            name@ == kind_name(k),
            forall|j: int| 0 <= j < i ==> text@[j] == name@[j],
        decreases n - i,
    {
        if text.get_char(i) != name.get_char(i) {
            assert(text@.subrange(0, n as int + 1)[i as int] != (kind_name(k) + seq![':'])[i as int]);
            return false;
        }
        i = i + 1;
    }
    if text.get_char(n) != ':' {
        assert(text@.subrange(0, n as int + 1)[n as int] != (kind_name(k) + seq![':'])[n as int]);
        return false;
    }
    assert(text@.subrange(0, n as int + 1) =~= kind_name(k) + seq![':']);
    true
}

/// Recovers the failure kind from a message written by
/// `HostError::describe`; any other message counts as a script exception.
pub fn kind_of_description(text: &str) -> (r: ErrorKind)
    ensures
        r == kind_of_text(text@),
{
    if is_described_as_exec(text, ErrorKind::Resolution) {
        ErrorKind::Resolution
    } else if is_described_as_exec(text, ErrorKind::UnsupportedMediaType) {
        ErrorKind::UnsupportedMediaType
    } else if is_described_as_exec(text, ErrorKind::Transpile) {
        ErrorKind::Transpile
    } else if is_described_as_exec(text, ErrorKind::IoFailure) {
        ErrorKind::IoFailure
    } else if is_described_as_exec(text, ErrorKind::NetworkFailure) {
        ErrorKind::NetworkFailure
    } else if is_described_as_exec(text, ErrorKind::BootstrapFailure) {
        ErrorKind::BootstrapFailure
    } else {
        ErrorKind::ScriptException
    }
}

/// A failure with the text that describes it: the path, the specifier or
/// the diagnostic it concerns.
#[derive(Clone, Debug)]
pub struct HostError {
    pub kind: ErrorKind,
    pub message: String,
}

impl HostError {
    /// The kind and the message text.
    pub open spec fn view(&self) -> (ErrorKind, Seq<char>) {
        (self.kind, self.message@)
    }

    pub fn new(kind: ErrorKind, message: String) -> (r: HostError)
        ensures
            r.kind == kind,
            r.message@ == message@,
    {
        HostError { kind, message }
    }

    /// The kind of the failure.
    pub fn kind(&self) -> (r: ErrorKind)
        ensures
            r == self.kind,
    {
        self.kind
    }

    /// The failure as one line: its kind's name, a colon, a space and the
    /// message.
    pub fn describe(&self) -> (r: String)
        ensures
            r@ == kind_name(self.kind) + seq![':', ' '] + self.message@,
    {
        let mut line = String::from_str(self.kind.name());
        line.append(": ");
        line.append(self.message.as_str());
        proof {
            reveal_strlit(": ");
        }
        assert(line@ =~= kind_name(self.kind) + seq![':', ' '] + self.message@);
        line
    }

    /// The text that the failure concerns.
    pub fn message(&self) -> (r: &str)
        ensures
            r@ == self.message@,
    {
        self.message.as_str()
    }
}

/// Describing a failure and reading the kind back gives the kind again.
pub proof fn lemma_describe_round_trip(k: ErrorKind, message: Seq<char>)
    ensures
        kind_of_text(kind_name(k) + seq![':', ' '] + message) == k,
{
    let text = kind_name(k) + seq![':', ' '] + message;
    reveal_strlit("Resolution");
    reveal_strlit("UnsupportedMediaType");
    reveal_strlit("Transpile");
    reveal_strlit("IoFailure");
    reveal_strlit("NetworkFailure");
    reveal_strlit("ScriptException");
    reveal_strlit("BootstrapFailure");
    let p = kind_name(k) + seq![':'];
    assert(text.subrange(0, p.len() as int) =~= p);
    assert(text[0] == kind_name(k)[0]);
    assert forall|o: ErrorKind| o != k implies !is_described_as(text, o) by {
        let q = kind_name(o) + seq![':'];
        if q.len() <= text.len() {
            assert(text.subrange(0, q.len() as int)[0] != q[0]);
        }
    }
}

} // verus!
