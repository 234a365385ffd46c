//! The session token encoder.
//!
//! A compilation session (compiler, source, options) is packaged into a
//! canonical client state, serialized to the deterministic wire text of
//! [`crate::session`], and that text's raw UTF-8 bytes are encoded into a
//! printable, URL-safe token.  The token is write-only: the remote service
//! is its only consumer.

use base64::Engine;
use vstd::prelude::*;
use vstd::string::StringSliceAdditionalSpecFns;
use vstd::utf8::encode_utf8;

use crate::cache::Godbolt;
use crate::cache::GodboltError;
use crate::json::int_chars;
use crate::json::join_spaces;
use crate::json::join_spaces_exec;
use crate::json::json_string;
use crate::metadata::views_of_strings;
use crate::metadata::Compiler;
use crate::request::RequestOptions;
use crate::session::executor_compiler_json;
use crate::session::executor_json;
use crate::session::executors_inner;
use crate::session::session_compiler_json;
use crate::session::session_compilers_inner;
use crate::session::session_json;
use crate::session::sessions_inner;
use crate::session::ClientState;
use crate::session::Executor;
use crate::session::ExecutorCompiler;
use crate::session::Session;
use crate::session::SessionCompiler;

verus! {

/// What the base64 crate's `STANDARD` engine returns for a byte sequence.
/// The encoding is a function of the input bytes alone.
pub uninterp spec fn base64_std_of(bytes: Seq<u8>) -> Seq<char>;

/// The fixed transport-safe alphabet of the token: the RFC 4648 standard
/// base64 symbols plus the padding character.
pub open spec fn is_base64_char(c: char) -> bool {
    let x = c as int;
    (65 <= x && x <= 90) || (97 <= x && x <= 122) || (48 <= x && x <= 57) || x == 43 || x == 47
        || x == 61
}

/// Relies on the base64 crate's `Engine::encode` with the
/// `general_purpose::STANDARD` engine: the RFC 4648 standard alphabet
/// (`A`-`Z`, `a`-`z`, `0`-`9`, `+`, `/`) with `=` padding.  The result is a
/// function of the input bytes alone and holds four symbols for every three
/// input bytes, the last group padded.
#[verifier::external_body]
fn base64_encode(bytes: &[u8]) -> (r: String)
    ensures
        r@ == base64_std_of(bytes@),
        r@.len() == 4 * ((bytes@.len() + 2) / 3),
        forall|i: int| 0 <= i < r@.len() ==> is_base64_char(#[trigger] r@[i]),
{
    base64::engine::general_purpose::STANDARD.encode(bytes)
}

/// Wire text of the one executor pane of an encoded session: the execution
/// arguments joined into one string, the compiler repeated with an empty
/// library list, and the stdin text.
pub open spec fn one_executor_chars(
    arguments: Seq<char>,
    compiler_id: Seq<char>,
    user_args: Seq<char>,
    stdin: Seq<char>,
) -> Seq<char> {
    "{\"arguments\":"@ + json_string(arguments) + ",\"compiler\":"@ + executor_compiler_json(
        compiler_id,
        Seq::empty(),
        user_args,
    ) + ",\"stdin\":"@ + json_string(stdin) + "}"@
}

/// Wire text of the one session of an encoded client state: fixed slot
/// zero, the compiler's language, the source text, a one-element compiler
/// list and a one-element executor list.
pub open spec fn one_session_chars(
    lang: Seq<char>,
    source: Seq<char>,
    compiler_id: Seq<char>,
    user_args: Seq<char>,
    arguments: Seq<char>,
    stdin: Seq<char>,
) -> Seq<char> {
    "{\"id\":"@ + int_chars(0) + ",\"language\":"@ + json_string(lang) + ",\"source\":"@
        + json_string(source) + ",\"compilers\":["@ + session_compiler_json(
        compiler_id,
        user_args,
    ) + "],\"executors\":["@ + one_executor_chars(arguments, compiler_id, user_args, stdin)
        + "]}"@
}

/// The canonical intermediate text of an encoded session: a client state
/// with exactly one session, rendered as wire text.
pub open spec fn token_chars(
    lang: Seq<char>,
    source: Seq<char>,
    compiler_id: Seq<char>,
    user_args: Seq<char>,
    exec_args: Seq<Seq<char>>,
    stdin: Seq<char>,
) -> Seq<char> {
    "{\"sessions\":["@ + one_session_chars(
        lang,
        source,
        compiler_id,
        user_args,
        join_spaces(exec_args),
        stdin,
    ) + "]}"@
}

/// The token text itself: the canonical intermediate text, taken as its raw
/// UTF-8 bytes, encoded with the standard base64 alphabet.
pub open spec fn session_token_of(
    lang: Seq<char>,
    source: Seq<char>,
    compiler_id: Seq<char>,
    user_args: Seq<char>,
    exec_args: Seq<Seq<char>>,
    stdin: Seq<char>,
) -> Seq<char> {
    base64_std_of(encode_utf8(token_chars(lang, source, compiler_id, user_args, exec_args, stdin)))
}

impl Godbolt {
    /// Encodes one compilation session into the portable token: a client
    /// state holding one session (slot zero, the compiler's language, the
    /// source, one compiler pane and one executor pane) is serialized to
    /// the canonical wire text, and that text's raw bytes are encoded into
    /// the transport-safe alphabet.  Always succeeds, and the token is a
    /// function of the inputs alone.
    #[verifier::rlimit(60)]
    pub fn get_base64(c: &Compiler, source: &str, options: RequestOptions) -> (r: Result<
        String,
        GodboltError,
    >)
        ensures
            r is Ok,
            r matches Ok(t) ==> t@ == session_token_of(
                c.lang@,
                source@,
                c.id@,
                options.user_arguments@,
                views_of_strings(options.execute_parameters.args@),
                options.execute_parameters.stdin@,
            ),
            r matches Ok(t) ==> forall|i: int|
                0 <= i < t@.len() ==> is_base64_char(#[trigger] t@[i]),
    {
        let arguments = join_spaces_exec(&options.execute_parameters.args);
        let session_compiler = SessionCompiler {
            id: c.id.clone(),
            options: options.user_arguments.clone(),
        };
        let executor_compiler = ExecutorCompiler {
            id: c.id.clone(),
            libs: Vec::new(),
            options: options.user_arguments,
        };
        let executor = Executor {
            arguments,
            compiler: executor_compiler,
            stdin: options.execute_parameters.stdin,
        };
        let ghost gexecutor = executor;
        let ghost gsession_compiler = session_compiler;
        let mut compilers: Vec<SessionCompiler> = Vec::new();
        compilers.push(session_compiler);
        let mut executors: Vec<Executor> = Vec::new();
        executors.push(executor);
        let session = Session {
            id: 0,
            language: c.lang.clone(),
            source: source.to_owned(),
            compilers,
            executors,
        };
        let ghost gsession = session;
        let mut sessions: Vec<Session> = Vec::new();
        sessions.push(session);
        let cstate = ClientState { sessions };
        proof {
            assert(cstate.sessions@ =~= seq![gsession]);
            assert(gsession.compilers@ =~= seq![gsession_compiler]);
            assert(gsession.executors@ =~= seq![gexecutor]);
            assert(views_of_strings(gexecutor.compiler.libs@) =~= Seq::<Seq<char>>::empty());
            assert(sessions_inner(cstate.sessions@) == session_json(gsession));
            assert(session_compilers_inner(gsession.compilers@) == session_compiler_json(
                c.id@,
                options.user_arguments@,
            ));
            assert(executors_inner(gsession.executors@) == executor_json(gexecutor));
            assert(executor_json(gexecutor) == one_executor_chars(
                join_spaces(views_of_strings(options.execute_parameters.args@)),
                c.id@,
                options.user_arguments@,
                options.execute_parameters.stdin@,
            ));
            assert(session_json(gsession) == one_session_chars(
                c.lang@,
                source@,
                c.id@,
                options.user_arguments@,
                join_spaces(views_of_strings(options.execute_parameters.args@)),
                options.execute_parameters.stdin@,
            ));
        }
        let json = cstate.to_json();
        proof {
            assert(json@ == token_chars(
                c.lang@,
                source@,
                c.id@,
                options.user_arguments@,
                views_of_strings(options.execute_parameters.args@),
                options.execute_parameters.stdin@,
            ));
        }
        let token = base64_encode(json.as_str().as_bytes());
        Ok(token)
    }
}

/// Token determinism: the token text is a function of the compiler's
/// language and id, the source text, the user arguments, the execution
/// arguments and the stdin text alone, so encoding the same session twice
/// yields byte-identical tokens.
pub proof fn lemma_token_deterministic(
    t1: Seq<char>,
    t2: Seq<char>,
    lang: Seq<char>,
    source: Seq<char>,
    compiler_id: Seq<char>,
    user_args: Seq<char>,
    exec_args: Seq<Seq<char>>,
    stdin: Seq<char>,
)
    requires
        t1 == session_token_of(lang, source, compiler_id, user_args, exec_args, stdin),
        t2 == session_token_of(lang, source, compiler_id, user_args, exec_args, stdin),
    ensures
        t1 == t2,
{
}

} // verus!
