use crate::error::{ErrorKind, HostError};
use crate::media::{
    classification, classify, has_executable_extension, has_typed_extension, names_extension,
    LoadDirective, ModuleKind,
};
use crate::transpile::{transpile, transpile_outcome, transpiled};
use vstd::prelude::*;

verus! {

/// A module ready for the engine to compile.
#[derive(Clone, Debug)]
pub struct LoadedModule {
    pub specifier: String,
    pub module_type: ModuleKind,
    pub code: String,
}

impl LoadedModule {
    /// The specifier, the module type and the source text.
    pub open spec fn view(&self) -> (Seq<char>, ModuleKind, Seq<char>) {
        (self.specifier@, self.module_type, self.code@)
    }
}

/// The file system path of a `file:` URL, where there is one.
pub uninterp spec fn file_path_for(specifier: Seq<char>) -> Option<Seq<char>>;

/// Relies on url's `Url::parse` and `Url::to_file_path`; a path that is not
/// valid UTF-8 counts as none.
#[verifier::external_body]
fn url_to_file_path(specifier: &str) -> (r: Option<String>)
    ensures
        match r {
            Some(p) => file_path_for(specifier@) == Some(p@),
            None => file_path_for(specifier@) == None::<Seq<char>>,
        },
{
    let url = url::Url::parse(specifier).ok()?;
    let path = url.to_file_path().ok()?;
    path.to_str().map(|p| p.to_string())
}

/// The URL scheme `file:` begins the text, in any mix of ASCII case.
pub open spec fn is_file_url(specifier: Seq<char>) -> bool {
    &&& specifier.len() >= 5
    &&& (specifier[0] == 'f' || specifier[0] == 'F')
    &&& (specifier[1] == 'i' || specifier[1] == 'I')
    &&& (specifier[2] == 'l' || specifier[2] == 'L')
    &&& (specifier[3] == 'e' || specifier[3] == 'E')
    &&& specifier[4] == ':'
}

/// The message with which a specifier that names no local file is refused.
pub open spec fn not_file_message() -> Seq<char> {
    "Only file:// URLs are supported."@
}

/// Where the module `specifier` is read from: only local files are loaded,
/// and any other specifier is refused with `not_file_message`.
pub open spec fn path_outcome(specifier: Seq<char>) -> Result<Seq<char>, (ErrorKind, Seq<char>)> {
    if !is_file_url(specifier) {
        Err((ErrorKind::Resolution, not_file_message()))
    } else {
        match file_path_for(specifier) {
            Some(p) => Ok(p),
            None => Err((ErrorKind::Resolution, not_file_message())),
        }
    }
}

pub open spec fn path_result_view(r: Result<String, HostError>) -> Result<Seq<char>, (ErrorKind, Seq<char>)> {
    match r {
        Ok(p) => Ok(p@),
        Err(e) => Err(e@),
    }
}

fn not_file_text() -> (r: String)
    ensures
        r@ == not_file_message(),
{
    String::from_str("Only file:// URLs are supported.")
}

/// The file path that the module `specifier` is read from. Specifiers of
/// another scheme than `file:`, and `file:` URLs without a local path, are
/// refused with a resolution error.
pub fn file_path_of(specifier: &str) -> (r: Result<String, HostError>)
    ensures
        path_result_view(r) == path_outcome(specifier@),
        !is_file_url(specifier@) ==> (r matches Err(e) && e.kind == ErrorKind::Resolution
            && e.message@ == not_file_message()),
{
    let n = specifier.unicode_len();
    let mut file_scheme = n >= 5;
    if file_scheme {
        let (c0, c1, c2, c3) = (
            specifier.get_char(0),
            specifier.get_char(1),
            specifier.get_char(2),
            specifier.get_char(3),
        );
        file_scheme = (c0 == 'f' || c0 == 'F') && (c1 == 'i' || c1 == 'I') && (c2 == 'l' || c2
            == 'L') && (c3 == 'e' || c3 == 'E') && specifier.get_char(4) == ':';
    }
    if !file_scheme {
        return Err(HostError::new(ErrorKind::Resolution, not_file_text()));
    }
    match url_to_file_path(specifier) {
        Some(p) => Ok(p),
        None => Err(HostError::new(ErrorKind::Resolution, not_file_text())),
    }
}

/// What loading the module `specifier`, stored at `path`, yields for the
/// file contents `contents` (`None`: the file could not be read).
pub open spec fn load_outcome(specifier: Seq<char>, path: Seq<char>, contents: Option<Seq<char>>) -> Result<
    (Seq<char>, ModuleKind, Seq<char>),
    (ErrorKind, Seq<char>),
> {
    match contents {
        None => Err((ErrorKind::IoFailure, path)),
        Some(code) => match classification(path) {
            None => Err((ErrorKind::UnsupportedMediaType, path)),
            Some(d) => match transpile_outcome(specifier, path, code, d) {
                Ok(text) => Ok((specifier, d.module_type, text)),
                Err(e) => Err(e),
            },
        },
    }
}

pub open spec fn load_result_view(r: Result<LoadedModule, HostError>) -> Result<
    (Seq<char>, ModuleKind, Seq<char>),
    (ErrorKind, Seq<char>),
> {
    match r {
        Ok(m) => Ok(m@),
        Err(e) => Err(e@),
    }
}

pub open spec fn contents_view(contents: Option<String>) -> Option<Seq<char>> {
    match contents {
        Some(c) => Some(c@),
        None => None,
    }
}

/// Builds the record of the module `specifier` stored at `path` from what
/// reading the file gave: classifies it, transpiles it where its dialect
/// asks for it, and reports an unreadable file as an I/O failure on `path`.
pub fn load_module(specifier: &str, path: &str, contents: Option<String>) -> (r: Result<
    LoadedModule,
    HostError,
>)
    ensures
        load_result_view(r) == load_outcome(specifier@, path@, contents_view(contents)),
        contents is None ==> (r matches Err(e) && e.kind == ErrorKind::IoFailure && e.message@
            == path@),
        contents is Some && has_executable_extension(path@) ==> (r matches Ok(m)
            && m.specifier@ == specifier@ && m.module_type == ModuleKind::Script && m.code@
            == contents->0@),
        contents is Some && names_extension(path@, seq!['j', 's', 'o', 'n']) ==> (r matches Ok(m)
            && m.specifier@ == specifier@ && m.module_type == ModuleKind::Data && m.code@
            == contents->0@),
        contents is Some && has_typed_extension(path@) ==> match transpiled(
            specifier@,
            path@,
            contents->0@,
        ) {
            Ok(t) => r matches Ok(m) && m.specifier@ == specifier@ && m.module_type
                == ModuleKind::Script && m.code@ == t,
            Err(d) => r matches Err(e) && e.kind == ErrorKind::Transpile && e.message@ == d,
        },
{
    let code = match contents {
        Some(c) => c,
        None => {
            return Err(HostError::new(ErrorKind::IoFailure, path.to_string()));
        },
    };
    let directive: LoadDirective = match classify(path) {
        Some(d) => d,
        None => {
            return Err(HostError::new(ErrorKind::UnsupportedMediaType, path.to_string()));
        },
    };
    let text = transpile(specifier, path, code, directive)?;
    Ok(LoadedModule { specifier: specifier.to_string(), module_type: directive.module_type, code: text })
}

/// Loading is deterministic: the same specifier, path and file state give
/// the same record, or the same failure.
pub proof fn lemma_load_deterministic(
    specifier: Seq<char>,
    path: Seq<char>,
    contents: Option<Seq<char>>,
    specifier2: Seq<char>,
    path2: Seq<char>,
    contents2: Option<Seq<char>>,
)
    requires
        specifier == specifier2,
        path == path2,
        contents == contents2,
    ensures
        load_outcome(specifier, path, contents) == load_outcome(specifier2, path2, contents2),
{
}

} // verus!
