//! The shareable-session data model and its canonical wire text.
//!
//! A client state holds the sessions to share; the session token encoder
//! serializes it to the canonical compact JSON form below and then encodes
//! that text into the transport-safe token.

use vstd::prelude::*;

use crate::json::int_chars;
use crate::json::json_string;
use crate::json::json_string_array;
use crate::json::write_i32;
use crate::json::write_json_string;
use crate::json::write_json_string_array;
use crate::metadata::views_of_strings;

verus! {

/// The whole state shared through a session token.
#[derive(Clone, Debug)]
pub struct ClientState {
    pub sessions: Vec<Session>,
}

/// One shared session: a language, a source text, and the compilers and
/// executors opened on it.
#[derive(Clone, Debug)]
pub struct Session {
    pub id: i32,
    pub language: String,
    pub source: String,
    pub compilers: Vec<SessionCompiler>,
    pub executors: Vec<Executor>,
}

/// One compiler pane of a session: a compiler id and its option string.
#[derive(Clone, Debug)]
pub struct SessionCompiler {
    pub id: String,
    pub options: String,
}

/// One executor pane of a session.
#[derive(Clone, Debug)]
pub struct Executor {
    pub arguments: String,
    pub compiler: ExecutorCompiler,
    pub stdin: String,
}

/// The compiler block inside an executor pane.
#[derive(Clone, Debug)]
pub struct ExecutorCompiler {
    pub id: String,
    pub libs: Vec<String>,
    pub options: String,
}

/// Wire text of one compiler pane.
pub open spec fn session_compiler_json(id: Seq<char>, options: Seq<char>) -> Seq<char> {
    "{\"id\":"@ + json_string(id) + ",\"options\":"@ + json_string(options) + "}"@
}

/// Wire text of the compiler block of an executor pane.
pub open spec fn executor_compiler_json(
    id: Seq<char>,
    libs: Seq<Seq<char>>,
    options: Seq<char>,
) -> Seq<char> {
    "{\"id\":"@ + json_string(id) + ",\"libs\":"@ + json_string_array(libs) + ",\"options\":"@
        + json_string(options) + "}"@
}

/// Wire text of one executor pane.
pub open spec fn executor_json(e: Executor) -> Seq<char> {
    "{\"arguments\":"@ + json_string(e.arguments@) + ",\"compiler\":"@ + executor_compiler_json(
        e.compiler.id@,
        views_of_strings(e.compiler.libs@),
        e.compiler.options@,
    ) + ",\"stdin\":"@ + json_string(e.stdin@) + "}"@
}

/// The comma-separated compiler panes of a session.
pub open spec fn session_compilers_inner(cs: Seq<SessionCompiler>) -> Seq<char>
    decreases cs.len(),
{
    if cs.len() == 0 {
        Seq::empty()
    } else if cs.len() == 1 {
        session_compiler_json(cs[0].id@, cs[0].options@)
    } else {
        session_compilers_inner(cs.drop_last()) + ","@ + session_compiler_json(
            cs.last().id@,
            cs.last().options@,
        )
    }
}

/// The comma-separated executor panes of a session.
pub open spec fn executors_inner(es: Seq<Executor>) -> Seq<char>
    decreases es.len(),
{
    if es.len() == 0 {
        Seq::empty()
    } else if es.len() == 1 {
        executor_json(es[0])
    } else {
        executors_inner(es.drop_last()) + ","@ + executor_json(es.last())
    }
}

/// Wire text of one session.
pub open spec fn session_json(s: Session) -> Seq<char> {
    "{\"id\":"@ + int_chars(s.id as int) + ",\"language\":"@ + json_string(s.language@)
        + ",\"source\":"@ + json_string(s.source@) + ",\"compilers\":["@ + session_compilers_inner(
        s.compilers@,
    ) + "],\"executors\":["@ + executors_inner(s.executors@) + "]}"@
}

/// The comma-separated sessions of a client state.
pub open spec fn sessions_inner(ss: Seq<Session>) -> Seq<char>
    decreases ss.len(),
{
    if ss.len() == 0 {
        Seq::empty()
    } else if ss.len() == 1 {
        session_json(ss[0])
    } else {
        sessions_inner(ss.drop_last()) + ","@ + session_json(ss.last())
    }
}

/// Wire text of a whole client state.
pub open spec fn client_state_json(cs: ClientState) -> Seq<char> {
    "{\"sessions\":["@ + sessions_inner(cs.sessions@) + "]}"@
}

impl SessionCompiler {
    /// Appends this pane's wire text to `out`.
    pub fn write_json(&self, out: &mut String)
        ensures
            final(out)@ == old(out)@ + session_compiler_json(self.id@, self.options@),
    {
        out.append("{\"id\":");
        write_json_string(out, self.id.as_str());
        out.append(",\"options\":");
        write_json_string(out, self.options.as_str());
        out.append("}");
    }
}

impl Default for SessionCompiler {
    /// Empty id and options.
    fn default() -> (r: Self)
        ensures
            r.id@ == Seq::<char>::empty(),
            r.options@ == Seq::<char>::empty(),
    {
        SessionCompiler { id: String::new(), options: String::new() }
    }
}

impl ExecutorCompiler {
    /// Appends this block's wire text to `out`.
    pub fn write_json(&self, out: &mut String)
        ensures
            final(out)@ == old(out)@ + executor_compiler_json(
                self.id@,
                views_of_strings(self.libs@),
                self.options@,
            ),
    {
        out.append("{\"id\":");
        write_json_string(out, self.id.as_str());
        out.append(",\"libs\":");
        write_json_string_array(out, &self.libs);
        out.append(",\"options\":");
        write_json_string(out, self.options.as_str());
        out.append("}");
    }
}

impl Default for ExecutorCompiler {
    /// Empty id, no libraries, empty options.
    fn default() -> (r: Self)
        ensures
            r.id@ == Seq::<char>::empty(),
            r.libs@ == Seq::<String>::empty(),
            r.options@ == Seq::<char>::empty(),
    {
        ExecutorCompiler { id: String::new(), libs: Vec::new(), options: String::new() }
    }
}

impl Executor {
    /// Appends this pane's wire text to `out`.
    pub fn write_json(&self, out: &mut String)
        ensures
            final(out)@ == old(out)@ + executor_json(*self),
    {
        out.append("{\"arguments\":");
        write_json_string(out, self.arguments.as_str());
        out.append(",\"compiler\":");
        self.compiler.write_json(out);
        out.append(",\"stdin\":");
        write_json_string(out, self.stdin.as_str());
        out.append("}");
    }
}

impl Default for Executor {
    /// Empty arguments, default compiler block, empty standard input.
    fn default() -> (r: Self)
        ensures
            r.arguments@ == Seq::<char>::empty(),
            r.compiler.id@ == Seq::<char>::empty(),
            r.compiler.libs@ == Seq::<String>::empty(),
            r.compiler.options@ == Seq::<char>::empty(),
            r.stdin@ == Seq::<char>::empty(),
    {
        Executor {
            arguments: String::new(),
            compiler: ExecutorCompiler::default(),
            stdin: String::new(),
        }
    }
}

impl Session {
    /// Appends this session's wire text to `out`.
    #[verifier::loop_isolation(false)]
    #[verifier::rlimit(60)]
    pub fn write_json(&self, out: &mut String)
        ensures
            final(out)@ == old(out)@ + session_json(*self),
    {
        out.append("{\"id\":");
        write_i32(out, self.id);
        out.append(",\"language\":");
        write_json_string(out, self.language.as_str());
        out.append(",\"source\":");
        write_json_string(out, self.source.as_str());
        out.append(",\"compilers\":[");
        let ghost head = out@;
        proof {
            assert(head == old(out)@ + "{\"id\":"@ + int_chars(self.id as int) + ",\"language\":"@
                + json_string(self.language@) + ",\"source\":"@ + json_string(self.source@)
                + ",\"compilers\":["@);
        }
        let mut i: usize = 0;
        while i < self.compilers.len()
            invariant
                i <= self.compilers@.len(),
                out@ == head + session_compilers_inner(self.compilers@.take(i as int)),
            decreases self.compilers@.len() - i,
        {
            proof {
                assert(self.compilers@.take(i + 1).drop_last() =~= self.compilers@.take(i as int));
                assert(self.compilers@.take(i + 1).last() == self.compilers@[i as int]);
            }
            if i > 0 {
                out.append(",");
            }
            self.compilers[i].write_json(out);
            i += 1;
        }
        proof {
            assert(self.compilers@.take(self.compilers@.len() as int) =~= self.compilers@);
        }
        out.append("],\"executors\":[");
        let ghost mid = out@;
        let mut j: usize = 0;
        while j < self.executors.len()
            invariant
                j <= self.executors@.len(),
                out@ == mid + executors_inner(self.executors@.take(j as int)),
            decreases self.executors@.len() - j,
        {
            proof {
                assert(self.executors@.take(j + 1).drop_last() =~= self.executors@.take(j as int));
                assert(self.executors@.take(j + 1).last() == self.executors@[j as int]);
            }
            if j > 0 {
                out.append(",");
            }
            self.executors[j].write_json(out);
            j += 1;
        }
        proof {
            assert(self.executors@.take(self.executors@.len() as int) =~= self.executors@);
        }
        out.append("]}");
    }
}

impl Default for Session {
    /// Session slot zero with empty language, source and pane lists.
    fn default() -> (r: Self)
        ensures
            r.id == 0,
            r.language@ == Seq::<char>::empty(),
            r.source@ == Seq::<char>::empty(),
            r.compilers@ == Seq::<SessionCompiler>::empty(),
            r.executors@ == Seq::<Executor>::empty(),
    {
        Session {
            id: 0,
            language: String::new(),
            source: String::new(),
            compilers: Vec::new(),
            executors: Vec::new(),
        }
    }
}

impl ClientState {
    /// The canonical wire text of this client state: the deterministic
    /// intermediate form behind the session token.
    #[verifier::loop_isolation(false)]
    pub fn to_json(&self) -> (r: String)
        ensures
            r@ == client_state_json(*self),
    {
        let mut out = String::new();
        out.append("{\"sessions\":[");
        let mut i: usize = 0;
        while i < self.sessions.len()
            invariant
                i <= self.sessions@.len(),
                out@ == "{\"sessions\":["@ + sessions_inner(self.sessions@.take(i as int)),
            decreases self.sessions@.len() - i,
        {
            proof {
                assert(self.sessions@.take(i + 1).drop_last() =~= self.sessions@.take(i as int));
                assert(self.sessions@.take(i + 1).last() == self.sessions@[i as int]);
            }
            if i > 0 {
                out.append(",");
            }
            self.sessions[i].write_json(&mut out);
            i += 1;
        }
        proof {
            assert(self.sessions@.take(self.sessions@.len() as int) =~= self.sessions@);
        }
        out.append("]}");
        out
    }
}

impl Default for ClientState {
    /// No sessions.
    fn default() -> (r: Self)
        ensures
            r.sessions@ == Seq::<Session>::empty(),
    {
        ClientState { sessions: Vec::new() }
    }
}

} // verus!
