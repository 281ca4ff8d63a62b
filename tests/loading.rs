use runjs::error::ErrorKind;
use runjs::loader::{file_path_of, load_module};
use runjs::media::{classify, directive_for, LoadDirective, MediaType, ModuleKind};
use runjs::resolver::resolve;
use runjs::transpile::transpile;

const SCRIPT: LoadDirective = LoadDirective { module_type: ModuleKind::Script, requires_transpile: false };
const TYPED: LoadDirective = LoadDirective { module_type: ModuleKind::Script, requires_transpile: true };
const DATA: LoadDirective = LoadDirective { module_type: ModuleKind::Data, requires_transpile: false };

#[test]
fn executable_extensions_need_no_transpile() {
    assert_eq!(classify("/src/app.js"), Some(SCRIPT));
    assert_eq!(classify("/src/app.mjs"), Some(SCRIPT));
    assert_eq!(classify("/src/app.cjs"), Some(SCRIPT));
}

#[test]
fn typed_extensions_always_transpile() {
    assert_eq!(classify("/src/app.ts"), Some(TYPED));
    assert_eq!(classify("/src/app.mts"), Some(TYPED));
    assert_eq!(classify("/src/app.cts"), Some(TYPED));
    assert_eq!(classify("/src/app.tsx"), Some(TYPED));
    assert_eq!(classify("/src/app.jsx"), Some(TYPED));
    assert_eq!(classify("/src/types.d.ts"), Some(TYPED));
}

#[test]
fn data_extension_loads_as_data() {
    assert_eq!(classify("/src/config.json"), Some(DATA));
}

#[test]
fn unknown_extensions_are_unsupported() {
    assert_eq!(classify("/src/app.xyz"), None);
    assert_eq!(classify("/src/module.wasm"), None);
    assert_eq!(classify("/src/Makefile"), None);
    assert_eq!(directive_for(MediaType::SourceMap), None);
    assert_eq!(directive_for(MediaType::Unknown), None);
}

#[test]
fn no_transpile_returns_input_unchanged() {
    let code = "const x = 1;\nconsole.log(x) ;  // kept as is\n".to_string();
    let out = transpile("file:///a.js", "/a.js", code.clone(), SCRIPT).unwrap();
    assert_eq!(out, code);
    let again = transpile("file:///a.js", "/a.js", out.clone(), SCRIPT).unwrap();
    assert_eq!(again, code);
}

#[test]
fn type_annotations_are_erased() {
    let code = "const x: number = 1;\nfunction f(a: string): string { return a; }\n".to_string();
    let out = transpile("file:///a.ts", "/a.ts", code, TYPED).unwrap();
    assert!(!out.contains(": number"));
    assert!(!out.contains(": string"));
    assert!(out.contains("const x = 1"));
}

#[test]
fn typed_syntax_error_is_a_transpile_failure() {
    let code = "const x: = ;".to_string();
    let err = transpile("file:///bad.ts", "/bad.ts", code, TYPED).unwrap_err();
    assert_eq!(err.kind(), ErrorKind::Transpile);
}

#[test]
fn relative_specifier_joins_referrer() {
    let r = resolve("./util.ts", "file:///home/user/app.ts").unwrap();
    assert_eq!(r, "file:///home/user/util.ts");
    let up = resolve("../lib/b.js", "file:///home/user/app.ts").unwrap();
    assert_eq!(up, "file:///home/lib/b.js");
    let root = resolve("/etc/c.js", "file:///home/user/app.ts").unwrap();
    assert_eq!(root, "file:///etc/c.js");
}

#[test]
fn resolution_is_deterministic() {
    let a = resolve("./util.ts", "file:///home/user/app.ts").unwrap();
    let b = resolve("./util.ts", "file:///home/user/app.ts").unwrap();
    assert_eq!(a, b);
}

#[test]
fn absolute_specifier_is_kept() {
    let r = resolve("https://example.com/mod.js", "file:///home/user/app.ts").unwrap();
    assert_eq!(r, "https://example.com/mod.js");
}

#[test]
fn bare_specifier_is_refused() {
    let err = resolve("lodash", "file:///home/user/app.ts").unwrap_err();
    assert_eq!(err.kind(), ErrorKind::Resolution);
    assert_eq!(err.message(), "lodash");
}

#[test]
fn only_file_urls_have_a_path() {
    assert_eq!(file_path_of("file:///tmp/app.ts").unwrap(), "/tmp/app.ts");
    let err = file_path_of("https://example.com/app.ts").unwrap_err();
    assert_eq!(err.kind(), ErrorKind::Resolution);
    assert_eq!(err.message(), "Only file:// URLs are supported.");
    let err = file_path_of("file://remote-host/app.ts").unwrap_err();
    assert_eq!(err.kind(), ErrorKind::Resolution);
    assert_eq!(err.message(), "Only file:// URLs are supported.");
}

#[test]
fn missing_file_is_an_io_failure_naming_the_path() {
    let err = load_module("file:///nowhere/app.ts", "/nowhere/app.ts", None).unwrap_err();
    assert_eq!(err.kind(), ErrorKind::IoFailure);
    assert!(err.message().contains("/nowhere/app.ts"));
}

#[test]
fn unknown_extension_fails_before_evaluation() {
    let err = load_module("file:///p/app.xyz", "/p/app.xyz", Some("print(1)".to_string())).unwrap_err();
    assert_eq!(err.kind(), ErrorKind::UnsupportedMediaType);
    assert_eq!(err.message(), "/p/app.xyz");
}

#[test]
fn typed_entry_and_import_load_as_scripts() {
    let app = "import { greet } from \"./util.ts\";\nconst n: number = 2;\ngreet(n);\n";
    let util = "export function greet(n: number): void { print(n); }\n";
    let a = load_module("file:///p/app.ts", "/p/app.ts", Some(app.to_string())).unwrap();
    let u = load_module("file:///p/util.ts", "/p/util.ts", Some(util.to_string())).unwrap();
    assert_eq!(a.module_type, ModuleKind::Script);
    assert_eq!(u.module_type, ModuleKind::Script);
    assert_eq!(a.specifier, "file:///p/app.ts");
    assert!(a.code.contains("./util.ts"));
    assert!(!u.code.contains(": number"));
}

#[test]
fn equal_inputs_give_identical_records() {
    let code = "export const a: string = \"x\";\n";
    let a = load_module("file:///p/a.ts", "/p/a.ts", Some(code.to_string())).unwrap();
    let b = load_module("file:///p/a.ts", "/p/a.ts", Some(code.to_string())).unwrap();
    assert_eq!(a.code, b.code);
    assert_eq!(a.specifier, b.specifier);
    assert_eq!(a.module_type, b.module_type);
}

#[test]
fn self_importing_module_load_reads_only_itself() {
    let code = "import \"./cycle.js\";\nexport const c = 1;\n";
    let m = load_module("file:///p/cycle.js", "/p/cycle.js", Some(code.to_string())).unwrap();
    assert_eq!(m.code, code);
}

#[test]
fn json_module_is_data_unchanged() {
    let code = "{ \"a\": 1 }";
    let m = load_module("file:///p/c.json", "/p/c.json", Some(code.to_string())).unwrap();
    assert_eq!(m.module_type, ModuleKind::Data);
    assert_eq!(m.code, code);
}

#[test]
fn file_scheme_ignores_ascii_case() {
    assert_eq!(file_path_of("FILE:///tmp/app.ts").unwrap(), "/tmp/app.ts");
    assert_eq!(file_path_of("File:///tmp/app.ts").unwrap(), "/tmp/app.ts");
}

#[test]
fn windows_style_names_are_not_guessed() {
    assert_eq!(classify("C:\\dir\\.js"), None);
    assert_eq!(classify("/dir/.js"), None);
}

#[test]
fn extension_match_is_case_sensitive() {
    assert_eq!(classify("/src/APP.JS"), None);
    assert_eq!(classify("/src/app.Ts"), None);
    assert_eq!(classify("/src/.js"), None);
}

#[test]
fn absolute_specifier_is_normalized() {
    let r = resolve("HTTPS://Example.com/a/../b.js", "file:///home/user/app.ts").unwrap();
    assert_eq!(r, "https://example.com/b.js");
}

#[test]
fn relative_specifier_with_bad_referrer_fails() {
    let err = resolve("./util.ts", "not a url").unwrap_err();
    assert_eq!(err.kind(), ErrorKind::Resolution);
}
