use crate::error::{ErrorKind, HostError};
use crate::media::LoadDirective;
use vstd::prelude::*;

verus! {

/// What deno_ast makes of the source text `code` of the module `specifier`
/// stored at `path`: the emitted script text, or the parse diagnostic.
pub uninterp spec fn transpiled(specifier: Seq<char>, path: Seq<char>, code: Seq<char>) -> Result<
    Seq<char>,
    Seq<char>,
>;

/// Relies on deno_ast: `MediaType::from_path` gives the dialect,
/// `parse_module` parses the text as a module of it, and
/// `ParsedSource::transpile` with default options emits directly executable
/// script text. Every failure is reported by its message.
#[verifier::external_body]
fn transpile_with_ast(specifier: &str, path: &str, code: String) -> (r: Result<String, String>)
    ensures
        match r {
            Ok(t) => transpiled(specifier@, path@, code@) == Ok::<Seq<char>, Seq<char>>(t@),
            Err(e) => transpiled(specifier@, path@, code@) == Err::<Seq<char>, Seq<char>>(e@),
        },
{
    let parsed = deno_ast::parse_module(deno_ast::ParseParams {
        specifier: deno_ast::ModuleSpecifier::parse(specifier).map_err(|e| e.to_string())?,
        text_info: deno_ast::SourceTextInfo::from_string(code),
        media_type: deno_ast::MediaType::from_path(std::path::Path::new(path)),
        capture_tokens: false,
        scope_analysis: false,
        maybe_syntax: None,
    }).map_err(|e| e.to_string())?;
    parsed.transpile(&Default::default()).map(|t| t.text).map_err(|e| e.to_string())
}

/// The text handed to the engine for `code`, or the failure's kind and text.
pub open spec fn transpile_outcome(
    specifier: Seq<char>,
    path: Seq<char>,
    code: Seq<char>,
    directive: LoadDirective,
) -> Result<Seq<char>, (ErrorKind, Seq<char>)> {
    if !directive.requires_transpile {
        Ok(code)
    } else {
        match transpiled(specifier, path, code) {
            Ok(t) => Ok(t),
            Err(d) => Err((ErrorKind::Transpile, d)),
        }
    }
}

/// The view of a transpiler result.
pub open spec fn text_result_view(r: Result<String, HostError>) -> Result<Seq<char>, (ErrorKind, Seq<char>)> {
    match r {
        Ok(t) => Ok(t@),
        Err(e) => Err(e@),
    }
}

/// Lowers `code` to directly executable text when `directive` asks for it,
/// and hands it back unchanged otherwise.
pub fn transpile(specifier: &str, path: &str, code: String, directive: LoadDirective) -> (r: Result<
    String,
    HostError,
>)
    ensures
        text_result_view(r) == transpile_outcome(specifier@, path@, code@, directive),
        !directive.requires_transpile ==> (r matches Ok(t) && t@ == code@),
{
    if !directive.requires_transpile {
        return Ok(code);
    }
    match transpile_with_ast(specifier, path, code) {
        Ok(t) => Ok(t),
        Err(d) => Err(HostError::new(ErrorKind::Transpile, d)),
    }
}

} // verus!
