use godbolt::CompilationFilters;
use godbolt::CompilationRequest;
use godbolt::Compiler;
use godbolt::CompilerOptions;
use godbolt::ExecuteParameters;
use godbolt::FormatterRequest;
use godbolt::GodboltError;
use godbolt::GodboltResponse;
use godbolt::RequestOptions;

fn wire_comp(id: &str, lang: &str) -> Compiler {
    Compiler {
        id: String::from(id),
        name: String::from(id),
        lang: String::from(lang),
        alias: vec![],
    }
}

#[test]
fn filters_all_unset_serialize_empty() {
    let f = CompilationFilters::default();
    let mut s = String::new();
    f.write_json(&mut s);
    assert_eq!(s, "{}");
}

#[test]
fn filters_execute_only() {
    let f = CompilationFilters {
        execute: Some(true),
        ..CompilationFilters::default()
    };
    let mut s = String::new();
    f.write_json(&mut s);
    assert_eq!(s, "{\"execute\":true}");
}

#[test]
fn filters_several_in_order() {
    let f = CompilationFilters {
        comment_only: Some(true),
        demangle: Some(false),
        trim: Some(true),
        ..CompilationFilters::default()
    };
    let mut s = String::new();
    f.write_json(&mut s);
    assert_eq!(s, "{\"commentOnly\":true,\"demangle\":false,\"trim\":true}");
}

#[test]
fn request_body_exact_text() {
    let c = wire_comp("clang1000", "c++");
    let options = RequestOptions {
        user_arguments: String::from(""),
        compiler_options: CompilerOptions {
            skip_asm: true,
            executor_request: true,
        },
        execute_parameters: ExecuteParameters {
            args: vec![],
            stdin: String::from(""),
        },
        filters: CompilationFilters::default(),
    };
    let req = CompilationRequest::new(&c, "int main(void) {return 0;}", options);
    let body = req.to_json();
    assert_eq!(
        body,
        "{\"source\":\"int main(void) {return 0;}\",\"compiler\":\"clang1000\",\
         \"options\":{\"userArguments\":\"\",\"compilerOptions\":{\"skipAsm\":true,\
         \"executorRequest\":true},\"executeParameters\":{\"args\":[],\"stdin\":\"\"},\
         \"filters\":{}}}"
    );
}

#[test]
fn request_body_parses_and_round_trips_source() {
    // quote, backslash, newline, tab, a control character, and an emoji:
    // an independent parser must read back exactly the original text
    let src = "a\"b\\c\nd\te\u{1}f😂";
    let c = wire_comp("gcc1", "c++");
    let options = RequestOptions {
        user_arguments: String::from("-O2 -Wall"),
        compiler_options: CompilerOptions {
            skip_asm: false,
            executor_request: false,
        },
        execute_parameters: ExecuteParameters {
            args: vec![String::from("x"), String::from("y z")],
            stdin: String::from("feed\nme"),
        },
        filters: CompilationFilters {
            binary: Some(false),
            execute: Some(true),
            ..CompilationFilters::default()
        },
    };
    let req = CompilationRequest::new(&c, src, options);
    let body = req.to_json();
    let v: serde_json::Value = serde_json::from_str(&body).unwrap();
    assert_eq!(v["source"].as_str().unwrap(), src);
    assert_eq!(v["compiler"].as_str().unwrap(), "gcc1");
    assert_eq!(v["options"]["userArguments"].as_str().unwrap(), "-O2 -Wall");
    assert_eq!(v["options"]["compilerOptions"]["skipAsm"].as_bool().unwrap(), false);
    assert_eq!(v["options"]["executeParameters"]["args"][1].as_str().unwrap(), "y z");
    assert_eq!(v["options"]["executeParameters"]["stdin"].as_str().unwrap(), "feed\nme");
    let filters = v["options"]["filters"].as_object().unwrap();
    assert_eq!(filters.len(), 2);
    assert_eq!(filters["binary"].as_bool().unwrap(), false);
    assert_eq!(filters["execute"].as_bool().unwrap(), true);
}

#[test]
fn escaped_control_characters_exact() {
    let c = wire_comp("gcc1", "c++");
    let req = CompilationRequest::new(&c, "\u{8}\u{c}\r\u{1f}", RequestOptions::default());
    let body = req.to_json();
    assert!(body.starts_with("{\"source\":\"\\b\\f\\r\\u001f\""));
}

#[test]
fn formatter_request_with_style() {
    let req = FormatterRequest::new("Google", "int main(){}", true, 4);
    assert_eq!(
        req.to_json(),
        "{\"source\":\"int main(){}\",\"base\":\"Google\",\"useSpaces\":true,\"tabWidth\":4}"
    );
}

#[test]
fn formatter_request_without_style() {
    // an empty style is omitted from the body entirely
    let req = FormatterRequest::new("", "x", false, -3);
    assert_eq!(
        req.to_json(),
        "{\"source\":\"x\",\"useSpaces\":false,\"tabWidth\":-3}"
    );
}

#[test]
fn error_message_round_trip() {
    let e = GodboltError::new("connection reset");
    assert_eq!(e.message(), "connection reset");
}

#[test]
fn response_default_is_all_absent() {
    let r = GodboltResponse::default();
    assert_eq!(r.code, 0);
    assert!(r.did_execute.is_none());
    assert!(r.build_result.is_none());
    assert!(r.execution_time.is_none());
    assert!(r.stdout.is_empty());
    assert!(r.stderr.is_empty());
    assert!(r.asm_size.is_none());
    assert!(r.asm_lines.is_none());
}

#[test]
fn request_options_default_is_empty() {
    let o = RequestOptions::default();
    assert_eq!(o.user_arguments, "");
    assert!(!o.compiler_options.skip_asm);
    assert!(!o.compiler_options.executor_request);
    assert!(o.execute_parameters.args.is_empty());
    assert_eq!(o.execute_parameters.stdin, "");
    assert!(o.filters.binary.is_none());
    assert!(o.filters.trim.is_none());
}
