use base64::Engine;
use godbolt::CompilationFilters;
use godbolt::Compiler;
use godbolt::CompilerOptions;
use godbolt::ExecuteParameters;
use godbolt::Godbolt;
use godbolt::Language;
use godbolt::RequestOptions;

fn token_lang(id: &str, default_compiler: &str) -> Language {
    Language {
        id: String::from(id),
        name: String::from(id),
        extensions: vec![],
        monaco: String::new(),
        default_compiler: String::from(default_compiler),
    }
}

fn token_comp(id: &str, lang: &str) -> Compiler {
    Compiler {
        id: String::from(id),
        name: String::from(id),
        lang: String::from(lang),
        alias: vec![],
    }
}

fn sample_options() -> RequestOptions {
    RequestOptions {
        user_arguments: "-O3".to_string(),
        compiler_options: CompilerOptions {
            skip_asm: false,
            executor_request: true,
        },
        execute_parameters: ExecuteParameters {
            args: vec![String::from("awd")],
            stdin: "teststdin".to_string(),
        },
        filters: CompilationFilters {
            binary: None,
            comment_only: Some(true),
            demangle: Some(true),
            directives: Some(true),
            execute: None,
            intel: Some(true),
            labels: Some(true),
            library_code: None,
            trim: None,
        },
    }
}

#[test]
fn base64() {
    let gbolt = Godbolt::new(
        vec![token_lang("c++", "clang1000")],
        vec![token_comp("clang1000", "c++")],
        vec![],
    );
    let c = gbolt.resolve("clang1000").unwrap();
    let token =
        Godbolt::get_base64(&c, "int main() {\nstd::cout << \"😂\";\n}", sample_options()).unwrap();
    assert!(token.len() > 0);
}

#[test]
fn token_deterministic() {
    let c = token_comp("clang1000", "c++");
    let src = "int main() { return 0; }";
    let t1 = Godbolt::get_base64(&c, src, sample_options()).unwrap();
    let t2 = Godbolt::get_base64(&c, src, sample_options()).unwrap();
    assert_eq!(t1, t2);
}

#[test]
fn token_alphabet_safe() {
    let c = token_comp("gcc1", "c++");
    let emoji = Godbolt::get_base64(&c, "std::cout << \"😂\";", sample_options()).unwrap();
    let plain = Godbolt::get_base64(&c, "int main(void) { return 0; }", sample_options()).unwrap();
    for token in [emoji, plain] {
        assert!(token.chars().all(|ch| {
            ch.is_ascii_alphanumeric() || ch == '+' || ch == '/' || ch == '='
        }));
    }
}

#[test]
fn token_decodes_to_canonical_text() {
    let c = token_comp("gcc1", "c++");
    let options = RequestOptions {
        user_arguments: "-O3".to_string(),
        compiler_options: CompilerOptions {
            skip_asm: false,
            executor_request: true,
        },
        execute_parameters: ExecuteParameters {
            args: vec![String::from("a"), String::from("b")],
            stdin: "in".to_string(),
        },
        filters: CompilationFilters::default(),
    };
    let token = Godbolt::get_base64(&c, "int main(){}", options).unwrap();
    let bytes = base64::engine::general_purpose::STANDARD
        .decode(token.as_bytes())
        .unwrap();
    let text = String::from_utf8(bytes).unwrap();
    assert_eq!(
        text,
        "{\"sessions\":[{\"id\":0,\"language\":\"c++\",\"source\":\"int main(){}\",\
         \"compilers\":[{\"id\":\"gcc1\",\"options\":\"-O3\"}],\"executors\":[\
         {\"arguments\":\"a b\",\"compiler\":{\"id\":\"gcc1\",\"libs\":[],\
         \"options\":\"-O3\"},\"stdin\":\"in\"}]}]}"
    );
}

#[test]
fn token_structure_via_parser() {
    let c = token_comp("gcc1", "c++");
    let src = "std::cout << \"😂\\n\";";
    let token = Godbolt::get_base64(&c, src, sample_options()).unwrap();
    let bytes = base64::engine::general_purpose::STANDARD
        .decode(token.as_bytes())
        .unwrap();
    let v: serde_json::Value = serde_json::from_slice(&bytes).unwrap();
    let session = &v["sessions"][0];
    assert_eq!(session["id"].as_i64().unwrap(), 0);
    assert_eq!(session["language"].as_str().unwrap(), "c++");
    assert_eq!(session["source"].as_str().unwrap(), src);
    assert_eq!(session["compilers"][0]["id"].as_str().unwrap(), "gcc1");
    assert_eq!(session["compilers"][0]["options"].as_str().unwrap(), "-O3");
    let executor = &session["executors"][0];
    assert_eq!(executor["arguments"].as_str().unwrap(), "awd");
    assert_eq!(executor["compiler"]["id"].as_str().unwrap(), "gcc1");
    assert!(executor["compiler"]["libs"].as_array().unwrap().is_empty());
    assert_eq!(executor["compiler"]["options"].as_str().unwrap(), "-O3");
    assert_eq!(executor["stdin"].as_str().unwrap(), "teststdin");
}
