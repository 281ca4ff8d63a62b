use deno_ast::MediaType as AstMediaType;
use vstd::prelude::*;

verus! {

/// Source dialect of a module, derived from its file name.
#[derive(Clone, Copy, Debug, PartialEq, Eq, Structural)]
pub enum MediaType {
    JavaScript,
    Jsx,
    Mjs,
    Cjs,
    TypeScript,
    Mts,
    Cts,
    Dts,
    Dmts,
    Dcts,
    Tsx,
    Json,
    Wasm,
    TsBuildInfo,
    SourceMap,
    Unknown,
}

/// How the engine compiles a loaded module.
#[derive(Clone, Copy, Debug, PartialEq, Eq, Structural)]
pub enum ModuleKind {
    Script,
    Data,
}

/// What the loader does with a module of a given media type.
#[derive(Clone, Copy, Debug, PartialEq, Eq, Structural)]
pub struct LoadDirective {
    pub module_type: ModuleKind,
    pub requires_transpile: bool,
}

/// Directly executable script dialects.
pub open spec fn is_executable(m: MediaType) -> bool {
    m == MediaType::JavaScript || m == MediaType::Mjs || m == MediaType::Cjs
}

/// Typed dialects, with or without embedded markup, and markup extensions.
pub open spec fn is_typed(m: MediaType) -> bool {
    m == MediaType::TypeScript || m == MediaType::Mts || m == MediaType::Cts
        || m == MediaType::Dts || m == MediaType::Dmts || m == MediaType::Dcts
        || m == MediaType::Tsx || m == MediaType::Jsx
}

/// The dispatch table: `None` for a media type that cannot be loaded.
pub open spec fn directive_of(m: MediaType) -> Option<LoadDirective> {
    if is_executable(m) {
        Some(LoadDirective { module_type: ModuleKind::Script, requires_transpile: false })
    } else if is_typed(m) {
        Some(LoadDirective { module_type: ModuleKind::Script, requires_transpile: true })
    } else if m == MediaType::Json {
        Some(LoadDirective { module_type: ModuleKind::Data, requires_transpile: false })
    } else {
        None
    }
}

/// Looks a media type up in the dispatch table; `None` means the module
/// is of an unsupported media type.
pub fn directive_for(m: MediaType) -> (r: Option<LoadDirective>)
    ensures
        r == directive_of(m),
{
    match m {
        MediaType::JavaScript | MediaType::Mjs | MediaType::Cjs => Some(
            LoadDirective { module_type: ModuleKind::Script, requires_transpile: false },
        ),
        MediaType::Jsx | MediaType::TypeScript | MediaType::Mts | MediaType::Cts
        | MediaType::Dts | MediaType::Dmts | MediaType::Dcts | MediaType::Tsx => Some(
            LoadDirective { module_type: ModuleKind::Script, requires_transpile: true },
        ),
        MediaType::Json => Some(
            LoadDirective { module_type: ModuleKind::Data, requires_transpile: false },
        ),
        _ => None,
    }
}

/// `path` names a file whose extension is `ext`: the extension follows the
/// last dot of the file name, and that dot neither starts the file name nor
/// follows a backslash or a colon, which some platforms read as separators.
/// Meant for extensions without `.` or `/` in them.
pub open spec fn has_extension(path: Seq<char>, ext: Seq<char>) -> bool {
    let n = path.len();
    let k = ext.len();
    &&& n >= k + 2
    &&& path.subrange(n - k, n as int) == ext
    &&& path[n - k - 1] == '.'
    &&& path[n - k - 2] != '/'
    &&& path[n - k - 2] != '\\'
    &&& path[n - k - 2] != ':'
}

/// A path that std splits alike on every platform: `/` is its only
/// separator, and it holds nothing that could open a Windows prefix (a
/// drive's colon, a backslash, or a leading `//`).
pub open spec fn is_plain_path(path: Seq<char>) -> bool {
    &&& forall|i: int| 0 <= i < path.len() ==> path[i] != '\\' && path[i] != ':'
    &&& !(path.len() >= 2 && path[0] == '/' && path[1] == '/')
}

/// `path` is a plain path to a file whose extension is `ext`.
pub open spec fn names_extension(path: Seq<char>, ext: Seq<char>) -> bool {
    is_plain_path(path) && has_extension(path, ext)
}

/// A plain path to a file of a directly executable dialect.
pub open spec fn has_executable_extension(path: Seq<char>) -> bool {
    names_extension(path, seq!['j', 's']) || names_extension(path, seq!['m', 'j', 's'])
        || names_extension(path, seq!['c', 'j', 's'])
}

/// A plain path to a file of a typed dialect.
pub open spec fn has_typed_extension(path: Seq<char>) -> bool {
    names_extension(path, seq!['t', 's']) || names_extension(path, seq!['m', 't', 's'])
        || names_extension(path, seq!['c', 't', 's']) || names_extension(path, seq!['t', 's', 'x'])
}

/// The media type that the file name `path` implies.
pub uninterp spec fn media_type_of(path: Seq<char>) -> MediaType;

/// Relies on deno_ast's `MediaType::from_path`, which decides by the file
/// name's extension (a `.ts`, `.mts` or `.cts` file whose stem marks it as a
/// declaration file is a declaration type).
#[verifier::external_body]
fn media_type_from_path(path: &str) -> (r: MediaType)
    ensures
        r == media_type_of(path@),
        names_extension(path@, seq!['j', 's']) ==> r == MediaType::JavaScript,
        names_extension(path@, seq!['m', 'j', 's']) ==> r == MediaType::Mjs,
        names_extension(path@, seq!['c', 'j', 's']) ==> r == MediaType::Cjs,
        names_extension(path@, seq!['j', 's', 'x']) ==> r == MediaType::Jsx,
        names_extension(path@, seq!['t', 's']) ==> r == MediaType::TypeScript || r == MediaType::Dts,
        names_extension(path@, seq!['m', 't', 's']) ==> r == MediaType::Mts || r == MediaType::Dmts,
        names_extension(path@, seq!['c', 't', 's']) ==> r == MediaType::Cts || r == MediaType::Dcts,
        names_extension(path@, seq!['t', 's', 'x']) ==> r == MediaType::Tsx,
        names_extension(path@, seq!['j', 's', 'o', 'n']) ==> r == MediaType::Json,
{
    match AstMediaType::from_path(std::path::Path::new(path)) {
        AstMediaType::JavaScript => MediaType::JavaScript, AstMediaType::Jsx => MediaType::Jsx,
        AstMediaType::Mjs => MediaType::Mjs, AstMediaType::Cjs => MediaType::Cjs,
        AstMediaType::TypeScript => MediaType::TypeScript, AstMediaType::Mts => MediaType::Mts,
        AstMediaType::Cts => MediaType::Cts, AstMediaType::Dts => MediaType::Dts,
        AstMediaType::Dmts => MediaType::Dmts, AstMediaType::Dcts => MediaType::Dcts,
        AstMediaType::Tsx => MediaType::Tsx, AstMediaType::Json => MediaType::Json,
        AstMediaType::Wasm => MediaType::Wasm, AstMediaType::TsBuildInfo => MediaType::TsBuildInfo,
        AstMediaType::SourceMap => MediaType::SourceMap, AstMediaType::Unknown => MediaType::Unknown,
    }
}

/// The extension, as written in lower case, that a loadable media type is
/// known by; empty for the others.
pub open spec fn canonical_extension(m: MediaType) -> Seq<char> {
    match m {
        MediaType::JavaScript => seq!['j', 's'],
        MediaType::Jsx => seq!['j', 's', 'x'],
        MediaType::Mjs => seq!['m', 'j', 's'],
        MediaType::Cjs => seq!['c', 'j', 's'],
        MediaType::TypeScript | MediaType::Dts => seq!['t', 's'],
        MediaType::Mts | MediaType::Dmts => seq!['m', 't', 's'],
        MediaType::Cts | MediaType::Dcts => seq!['c', 't', 's'],
        MediaType::Tsx => seq!['t', 's', 'x'],
        MediaType::Json => seq!['j', 's', 'o', 'n'],
        _ => Seq::empty(),
    }
}

fn canonical_extension_exec(m: MediaType) -> (r: Vec<char>)
    ensures
        r@ == canonical_extension(m),
{
    match m {
        MediaType::JavaScript => vec!['j', 's'],
        MediaType::Jsx => vec!['j', 's', 'x'],
        MediaType::Mjs => vec!['m', 'j', 's'],
        MediaType::Cjs => vec!['c', 'j', 's'],
        MediaType::TypeScript | MediaType::Dts => vec!['t', 's'],
        MediaType::Mts | MediaType::Dmts => vec!['m', 't', 's'],
        MediaType::Cts | MediaType::Dcts => vec!['c', 't', 's'],
        MediaType::Tsx => vec!['t', 's', 'x'],
        MediaType::Json => vec!['j', 's', 'o', 'n'],
        _ => Vec::new(),
    }
}

fn has_extension_exec(path: &str, ext: &Vec<char>) -> (r: bool)
    ensures
        r == has_extension(path@, ext@),
{
    let n = path.unicode_len();
    let k = ext.len();
    if n < 2 || k > n - 2 {
        return false;
    }
    let before = path.get_char(n - k - 2);
    if path.get_char(n - k - 1) != '.' || before == '/' || before == '\\' || before == ':' {
        return false;
    }
    let mut i: usize = 0;
    while i < k
        invariant
            k == ext@.len(),
            n == path@.len(),
            n >= k + 2,
            i <= k,
            forall|j: int| 0 <= j < i ==> path@[n - k + j] == ext@[j],
        decreases k - i,
    {
        if path.get_char(n - k + i) != ext[i] {
            assert(path@.subrange(n - k, n as int)[i as int] != ext@[i as int]);
            return false;
        }
        i = i + 1;
    }
    assert(path@.subrange(n - k, n as int) =~= ext@);
    true
}

/// The directive for the module stored at `path`: its media type must be
/// loadable, and its extension must be written exactly as that media type's
/// (the match is case-sensitive).
pub open spec fn classification(path: Seq<char>) -> Option<LoadDirective> {
    let m = media_type_of(path);
    if has_extension(path, canonical_extension(m)) {
        directive_of(m)
    } else {
        None
    }
}

/// Classifies the module stored at `path` by its file name. `None` means
/// that its media type is unsupported.
pub fn classify(path: &str) -> (r: Option<LoadDirective>)
    ensures
        r == classification(path@),
        has_executable_extension(path@) ==> r == Some(
            LoadDirective { module_type: ModuleKind::Script, requires_transpile: false },
        ),
        has_typed_extension(path@) ==> r == Some(
            LoadDirective { module_type: ModuleKind::Script, requires_transpile: true },
        ),
        names_extension(path@, seq!['j', 's', 'o', 'n']) ==> r == Some(
            LoadDirective { module_type: ModuleKind::Data, requires_transpile: false },
        ),
{
    let m = media_type_from_path(path);
    let ext = canonical_extension_exec(m);
    if has_extension_exec(path, &ext) {
        directive_for(m)
    } else {
        None
    }
}

} // verus!
