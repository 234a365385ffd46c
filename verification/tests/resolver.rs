use godbolt::Compiler;
use godbolt::Format;
use godbolt::Godbolt;
use godbolt::Language;

fn lang_of(id: &str, default_compiler: &str) -> Language {
    Language {
        id: String::from(id),
        name: String::from(id),
        extensions: vec![],
        monaco: String::new(),
        default_compiler: String::from(default_compiler),
    }
}

fn comp_of(id: &str, lang: &str) -> Compiler {
    Compiler {
        id: String::from(id),
        name: String::from(id),
        lang: String::from(lang),
        alias: vec![],
    }
}

#[test]
fn end_to_end() {
    let gbolt = Godbolt::new(
        vec![lang_of("c++", "gcc1")],
        vec![comp_of("gcc1", "c++"), comp_of("clang1", "c++")],
        vec![],
    );
    assert_eq!(gbolt.cache.len(), 1);
    assert_eq!(gbolt.cache[0].language.id, "c++");
    assert_eq!(gbolt.cache[0].compilers.len(), 2);
    assert_eq!(gbolt.cache[0].compilers[0].id, "gcc1");
    assert_eq!(gbolt.cache[0].compilers[1].id, "clang1");
    assert_eq!(gbolt.resolve("c++").unwrap().id, "gcc1");
    assert_eq!(gbolt.resolve("clang1").unwrap().id, "clang1");
    assert!(gbolt.resolve("rustc").is_none());
}

#[test]
fn resolve() {
    let gbolt = Godbolt::new(
        vec![lang_of("c++", "gcc1")],
        vec![comp_of("clang1000", "c++"), comp_of("gcc1", "c++")],
        vec![],
    );
    let c = gbolt.resolve("clang1000");
    assert!(c.is_some());
}

#[test]
fn format_test() {
    let formats = vec![Format {
        exe: String::from("/opt/clangformat"),
        version: String::from("10.0"),
        name: String::from("clangformat"),
        styles: vec![String::from("Google"), String::from("LLVM")],
        format_type: String::from("clangformat"),
    }];
    let gbolt = Godbolt::new(vec![], vec![], formats);
    assert!(gbolt.formats.len() > 0);
}

#[test]
fn grouping_by_language() {
    let gbolt = Godbolt::new(
        vec![lang_of("c++", "gcc1"), lang_of("rust", "rs1")],
        vec![
            comp_of("gcc1", "c++"),
            comp_of("rs1", "rust"),
            comp_of("clang1", "c++"),
            comp_of("lost1", "cobol"),
        ],
        vec![],
    );
    assert_eq!(gbolt.cache.len(), 2);
    let cpp = &gbolt.cache[0];
    assert_eq!(cpp.compilers.len(), 2);
    assert_eq!(cpp.compilers[0].id, "gcc1");
    assert_eq!(cpp.compilers[1].id, "clang1");
    let rust = &gbolt.cache[1];
    assert_eq!(rust.compilers.len(), 1);
    assert_eq!(rust.compilers[0].id, "rs1");
    // a compiler whose lang matches no language appears in no entry
    for entry in &gbolt.cache {
        assert!(entry.compilers.iter().all(|c| c.id != "lost1"));
    }
}

#[test]
fn exact_match_priority() {
    // "c++" is both a compiler id and (case-insensitively) a language id:
    // the exact compiler match must win.
    let gbolt = Godbolt::new(
        vec![lang_of("c++", "gcc1")],
        vec![comp_of("gcc1", "c++"), comp_of("c++", "c++")],
        vec![],
    );
    assert_eq!(gbolt.resolve("c++").unwrap().id, "c++");
}

#[test]
fn case_insensitive_resolution() {
    let gbolt = Godbolt::new(
        vec![lang_of("c++", "gcc1")],
        vec![comp_of("gcc1", "c++")],
        vec![],
    );
    let lower = gbolt.resolve("c++").unwrap();
    let upper = gbolt.resolve("C++").unwrap();
    let upper2 = gbolt.resolve(&"c++".to_uppercase()).unwrap();
    let lower2 = gbolt.resolve(&"C++".to_lowercase()).unwrap();
    assert_eq!(lower.id, "gcc1");
    assert_eq!(upper.id, "gcc1");
    assert_eq!(upper2.id, "gcc1");
    assert_eq!(lower2.id, "gcc1");
}

#[test]
fn fallback_to_default_compiler() {
    let gbolt = Godbolt::new(
        vec![lang_of("rust", "rs2")],
        vec![comp_of("rs1", "rust"), comp_of("rs2", "rust")],
        vec![],
    );
    assert_eq!(gbolt.resolve("rust").unwrap().id, "rs2");
}

#[test]
fn total_miss() {
    let gbolt = Godbolt::new(
        vec![lang_of("c++", "gcc1")],
        vec![comp_of("gcc1", "c++")],
        vec![],
    );
    assert!(gbolt.resolve("fortran").is_none());
}

#[test]
fn fallback_with_unknown_default_misses() {
    // the language matches but its default compiler id resolves to nothing:
    // same observable outcome as a total miss
    let gbolt = Godbolt::new(vec![lang_of("c++", "ghost1")], vec![comp_of("gcc1", "c++")], vec![]);
    assert!(gbolt.resolve("c++").is_none());
}

#[test]
fn direct_lookups() {
    let gbolt = Godbolt::new(
        vec![lang_of("c++", "gcc1")],
        vec![comp_of("gcc1", "c++")],
        vec![],
    );
    assert_eq!(gbolt.find_compiler_by_id("gcc1").unwrap().id, "gcc1");
    assert!(gbolt.find_compiler_by_id("GCC1").is_none());
    assert_eq!(gbolt.find_language_by_id("C++").unwrap().id, "c++");
    assert!(gbolt.find_language_by_id("rust").is_none());
}
