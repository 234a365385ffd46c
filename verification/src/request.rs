//! The compilation-request data model and its wire-text encoding.
//!
//! A request is pure data shaping: no local validation is performed.  Each
//! filter is an independent tri-state (unset / false / true); an unset
//! filter is omitted from the body entirely, which the service reads as
//! "use the default".

use vstd::prelude::*;

use crate::json::comma_join;
use crate::json::int_chars;
use crate::json::json_bool;
use crate::json::json_string;
use crate::json::json_string_array;
use crate::json::write_i32;
use crate::json::write_json_bool;
use crate::json::write_json_string;
use crate::json::write_json_string_array;
use crate::metadata::views_of_strings;
use crate::metadata::Compiler;

verus! {

/// Compiler-side options of a request.
#[derive(Clone, Debug)]
pub struct CompilerOptions {
    /// Skip producing the assembly listing
    pub skip_asm: bool,
    /// Mark the request as an execution request
    pub executor_request: bool,
}

/// Parameters for executing the compiled program.
#[derive(Clone, Debug)]
pub struct ExecuteParameters {
    /// Arguments handed to the executed program
    pub args: Vec<String>,
    /// Text handed to the executed program on its standard input
    pub stdin: String,
}

/// Output-shaping filters of a request.  Every field is an independent
/// tri-state: `None` means "unset" and is omitted from the body.
#[derive(Clone, Debug)]
pub struct CompilationFilters {
    pub binary: Option<bool>,
    pub comment_only: Option<bool>,
    pub demangle: Option<bool>,
    pub directives: Option<bool>,
    pub execute: Option<bool>,
    pub intel: Option<bool>,
    pub labels: Option<bool>,
    pub library_code: Option<bool>,
    pub trim: Option<bool>,
}

/// Options block of a request.
#[derive(Clone, Debug)]
pub struct RequestOptions {
    /// Flags passed to the compiler (for example `-Wall -Werror`)
    pub user_arguments: String,
    /// Compiler-side options
    pub compiler_options: CompilerOptions,
    /// Execution parameters
    pub execute_parameters: ExecuteParameters,
    /// Output-shaping filters
    pub filters: CompilationFilters,
}

/// All the information needed to submit one compilation request.
#[derive(Clone, Debug)]
pub struct CompilationRequest {
    /// Source code to compile
    source: String,
    /// Compiler identifier
    compiler: String,
    /// Request options
    options: RequestOptions,
}

/// Body of a code-formatting request.  An unset style is omitted from the
/// body entirely.
#[derive(Clone, Debug)]
pub struct FormatterRequest {
    source: String,
    base: Option<String>,
    use_spaces: bool,
    tab_width: i32,
}

/// Wire text of the compiler-options block.
pub open spec fn compiler_options_json(skip_asm: bool, executor_request: bool) -> Seq<char> {
    "{\"skipAsm\":"@ + json_bool(skip_asm) + ",\"executorRequest\":"@ + json_bool(executor_request)
        + "}"@
}

/// Wire text of the execute-parameters block.
pub open spec fn execute_parameters_json(args: Seq<Seq<char>>, stdin: Seq<char>) -> Seq<char> {
    "{\"args\":"@ + json_string_array(args) + ",\"stdin\":"@ + json_string(stdin) + "}"@
}

/// The rendered fragment of one optional filter: nothing when unset, a
/// single `key:value` fragment when set.
pub open spec fn opt_bool_item(key: Seq<char>, o: Option<bool>) -> Seq<Seq<char>> {
    match o {
        Option::None => Seq::empty(),
        Option::Some(b) => seq![key + json_bool(b)],
    }
}

/// The present filter fragments, in declaration order.
pub open spec fn filters_items(f: CompilationFilters) -> Seq<Seq<char>> {
    opt_bool_item("\"binary\":"@, f.binary) + opt_bool_item("\"commentOnly\":"@, f.comment_only)
        + opt_bool_item("\"demangle\":"@, f.demangle) + opt_bool_item(
        "\"directives\":"@,
        f.directives,
    ) + opt_bool_item("\"execute\":"@, f.execute) + opt_bool_item("\"intel\":"@, f.intel)
        + opt_bool_item("\"labels\":"@, f.labels) + opt_bool_item(
        "\"libraryCode\":"@,
        f.library_code,
    ) + opt_bool_item("\"trim\":"@, f.trim)
}

/// Wire text of the filters block: only the filters that are set appear,
/// comma-separated, in declaration order.
pub open spec fn filters_json(f: CompilationFilters) -> Seq<char> {
    "{"@ + comma_join(filters_items(f)) + "}"@
}

/// Wire text of the whole options block.
pub open spec fn request_options_json(o: RequestOptions) -> Seq<char> {
    "{\"userArguments\":"@ + json_string(o.user_arguments@) + ",\"compilerOptions\":"@
        + compiler_options_json(o.compiler_options.skip_asm, o.compiler_options.executor_request)
        + ",\"executeParameters\":"@ + execute_parameters_json(
        views_of_strings(o.execute_parameters.args@),
        o.execute_parameters.stdin@,
    ) + ",\"filters\":"@ + filters_json(o.filters) + "}"@
}

/// Wire text of a whole compilation request.
pub open spec fn compilation_request_json(
    source: Seq<char>,
    compiler: Seq<char>,
    options: RequestOptions,
) -> Seq<char> {
    "{\"source\":"@ + json_string(source) + ",\"compiler\":"@ + json_string(compiler)
        + ",\"options\":"@ + request_options_json(options) + "}"@
}

/// Wire text of a formatting request; the `base` key is omitted when the
/// style is unset.
pub open spec fn formatter_request_json(
    source: Seq<char>,
    base: Option<Seq<char>>,
    use_spaces: bool,
    tab_width: int,
) -> Seq<char> {
    "{\"source\":"@ + json_string(source) + (match base {
        Option::Some(b) => ",\"base\":"@ + json_string(b),
        Option::None => Seq::<char>::empty(),
    }) + ",\"useSpaces\":"@ + json_bool(use_spaces) + ",\"tabWidth\":"@ + int_chars(tab_width)
        + "}"@
}

/// Appends one optional filter fragment to the fragment list.
fn push_opt_bool(frags: &mut Vec<String>, key: &str, o: Option<bool>)
    ensures
        views_of_strings(final(frags)@) == views_of_strings(old(frags)@) + opt_bool_item(key@, o),
{
    match o {
        Option::Some(b) => {
            let mut s = key.to_owned();
            if b {
                s.append("true");
            } else {
                s.append("false");
            }
            let ghost before = frags@;
            frags.push(s);
            proof {
                assert(views_of_strings(frags@) =~= views_of_strings(before) + opt_bool_item(
                    key@,
                    o,
                ));
            }
        },
        Option::None => {
            proof {
                assert(views_of_strings(frags@) =~= views_of_strings(frags@)
                    + opt_bool_item(key@, o));
            }
        },
    }
}

/// Appends the already-rendered fragments, comma-separated, to `out`.
#[verifier::loop_isolation(false)]
fn write_comma_join(out: &mut String, parts: &Vec<String>)
    ensures
        final(out)@ == old(out)@ + comma_join(views_of_strings(parts@)),
{
    let ghost views = views_of_strings(parts@);
    let mut i: usize = 0;
    while i < parts.len()
        invariant
            i <= parts@.len(),
            views == views_of_strings(parts@),
            out@ == old(out)@ + comma_join(views.take(i as int)),
        decreases parts@.len() - i,
    {
        proof {
            assert(views.take(i + 1).drop_last() =~= views.take(i as int));
            assert(views.take(i + 1).last() == views[i as int]);
            assert(views[i as int] == parts@[i as int]@);
        }
        if i > 0 {
            out.append(",");
        }
        out.append(parts[i].as_str());
        i += 1;
    }
    proof {
        assert(views.take(views.len() as int) =~= views);
    }
}

impl CompilerOptions {
    /// Appends this block's wire text to `out`.
    pub fn write_json(&self, out: &mut String)
        ensures
            final(out)@ == old(out)@ + compiler_options_json(self.skip_asm, self.executor_request),
    {
        out.append("{\"skipAsm\":");
        write_json_bool(out, self.skip_asm);
        out.append(",\"executorRequest\":");
        write_json_bool(out, self.executor_request);
        out.append("}");
    }
}

impl Default for CompilerOptions {
    /// Both options cleared.
    fn default() -> (r: Self)
        ensures
            !r.skip_asm,
            !r.executor_request,
    {
        CompilerOptions { skip_asm: false, executor_request: false }
    }
}

impl ExecuteParameters {
    /// Appends this block's wire text to `out`.
    pub fn write_json(&self, out: &mut String)
        ensures
            final(out)@ == old(out)@ + execute_parameters_json(
                views_of_strings(self.args@),
                self.stdin@,
            ),
    {
        out.append("{\"args\":");
        write_json_string_array(out, &self.args);
        out.append(",\"stdin\":");
        write_json_string(out, self.stdin.as_str());
        out.append("}");
    }
}

impl Default for ExecuteParameters {
    /// No arguments and empty standard input.
    fn default() -> (r: Self)
        ensures
            r.args@ == Seq::<String>::empty(),
            r.stdin@ == Seq::<char>::empty(),
    {
        ExecuteParameters { args: Vec::new(), stdin: String::new() }
    }
}

impl CompilationFilters {
    /// Appends the filters block to `out`: exactly the filters that are set,
    /// in declaration order.
    pub fn write_json(&self, out: &mut String)
        ensures
            final(out)@ == old(out)@ + filters_json(*self),
    {
        let mut frags: Vec<String> = Vec::new();
        proof {
            assert(views_of_strings(frags@) =~= Seq::<Seq<char>>::empty());
        }
        push_opt_bool(&mut frags, "\"binary\":", self.binary);
        push_opt_bool(&mut frags, "\"commentOnly\":", self.comment_only);
        push_opt_bool(&mut frags, "\"demangle\":", self.demangle);
        push_opt_bool(&mut frags, "\"directives\":", self.directives);
        push_opt_bool(&mut frags, "\"execute\":", self.execute);
        push_opt_bool(&mut frags, "\"intel\":", self.intel);
        push_opt_bool(&mut frags, "\"labels\":", self.labels);
        push_opt_bool(&mut frags, "\"libraryCode\":", self.library_code);
        push_opt_bool(&mut frags, "\"trim\":", self.trim);
        proof {
            assert(views_of_strings(frags@) =~= filters_items(*self));
        }
        out.append("{");
        write_comma_join(out, &frags);
        out.append("}");
    }
}

impl Default for CompilationFilters {
    /// Every filter unset.
    fn default() -> (r: Self)
        ensures
            r.binary is None,
            r.comment_only is None,
            r.demangle is None,
            r.directives is None,
            r.execute is None,
            r.intel is None,
            r.labels is None,
            r.library_code is None,
            r.trim is None,
    {
        CompilationFilters {
            binary: None,
            comment_only: None,
            demangle: None,
            directives: None,
            execute: None,
            intel: None,
            labels: None,
            library_code: None,
            trim: None,
        }
    }
}

impl RequestOptions {
    /// Appends the whole options block to `out`.
    pub fn write_json(&self, out: &mut String)
        ensures
            final(out)@ == old(out)@ + request_options_json(*self),
    {
        out.append("{\"userArguments\":");
        write_json_string(out, self.user_arguments.as_str());
        out.append(",\"compilerOptions\":");
        self.compiler_options.write_json(out);
        out.append(",\"executeParameters\":");
        self.execute_parameters.write_json(out);
        out.append(",\"filters\":");
        self.filters.write_json(out);
        out.append("}");
    }
}

impl Default for RequestOptions {
    /// Empty user arguments, cleared options, empty execution parameters and
    /// every filter unset.
    fn default() -> (r: Self)
        ensures
            r.user_arguments@ == Seq::<char>::empty(),
            !r.compiler_options.skip_asm,
            !r.compiler_options.executor_request,
            r.execute_parameters.args@ == Seq::<String>::empty(),
            r.execute_parameters.stdin@ == Seq::<char>::empty(),
            r.filters.binary is None,
            r.filters.comment_only is None,
            r.filters.demangle is None,
            r.filters.directives is None,
            r.filters.execute is None,
            r.filters.intel is None,
            r.filters.labels is None,
            r.filters.library_code is None,
            r.filters.trim is None,
    {
        RequestOptions {
            user_arguments: String::new(),
            compiler_options: CompilerOptions::default(),
            execute_parameters: ExecuteParameters::default(),
            filters: CompilationFilters::default(),
        }
    }
}

impl CompilationRequest {
    /// The source text of this request.
    pub closed spec fn spec_source(&self) -> Seq<char> {
        self.source@
    }

    /// The compiler id of this request.
    pub closed spec fn spec_compiler(&self) -> Seq<char> {
        self.compiler@
    }

    /// The options block of this request.
    pub closed spec fn spec_options(&self) -> RequestOptions {
        self.options
    }

    /// Assembles a request from a resolved compiler, the source text and the
    /// options block.
    pub fn new(c: &Compiler, source: &str, options: RequestOptions) -> (r: Self)
        ensures
            r.spec_source() == source@,
            r.spec_compiler() == c.id@,
            r.spec_options() == options,
    {
        CompilationRequest {
            source: source.to_owned(),
            compiler: c.id.clone(),
            options,
        }
    }

    /// The request body as wire text: source, compiler id and the options
    /// block, in that fixed order.
    pub fn to_json(&self) -> (r: String)
        ensures
            r@ == compilation_request_json(
                self.spec_source(),
                self.spec_compiler(),
                self.spec_options(),
            ),
    {
        let mut out = String::new();
        out.append("{\"source\":");
        write_json_string(&mut out, self.source.as_str());
        out.append(",\"compiler\":");
        write_json_string(&mut out, self.compiler.as_str());
        out.append(",\"options\":");
        self.options.write_json(&mut out);
        out.append("}");
        out
    }
}

impl FormatterRequest {
    /// The source text of this request.
    pub closed spec fn spec_source(&self) -> Seq<char> {
        self.source@
    }

    /// The style of this request, when one is set.
    pub closed spec fn spec_base(&self) -> Option<Seq<char>> {
        match self.base {
            Option::Some(s) => Some(s@),
            Option::None => None,
        }
    }

    /// Whether indentation uses spaces.
    pub closed spec fn spec_use_spaces(&self) -> bool {
        self.use_spaces
    }

    /// The tab width of this request.
    pub closed spec fn spec_tab_width(&self) -> int {
        self.tab_width as int
    }

    /// Assembles a formatting request; an empty style means "no style" and
    /// is omitted from the body.
    pub fn new(style: &str, source: &str, use_spaces: bool, tab_width: i32) -> (r: Self)
        ensures
            r.spec_source() == source@,
            style@.len() == 0 ==> r.spec_base() is None,
            style@.len() > 0 ==> r.spec_base() == Some(style@),
            r.spec_use_spaces() == use_spaces,
            r.spec_tab_width() == tab_width as int,
    {
        let base = if style.is_empty() {
            None
        } else {
            Some(style.to_owned())
        };
        FormatterRequest { source: source.to_owned(), base, use_spaces, tab_width }
    }

    /// The request body as wire text.
    pub fn to_json(&self) -> (r: String)
        ensures
            r@ == formatter_request_json(
                self.spec_source(),
                self.spec_base(),
                self.spec_use_spaces(),
                self.spec_tab_width(),
            ),
    {
        let mut out = String::new();
        out.append("{\"source\":");
        write_json_string(&mut out, self.source.as_str());
        match &self.base {
            Option::Some(b) => {
                out.append(",\"base\":");
                write_json_string(&mut out, b.as_str());
            },
            Option::None => {},
        }
        out.append(",\"useSpaces\":");
        write_json_bool(&mut out, self.use_spaces);
        out.append(",\"tabWidth\":");
        write_i32(&mut out, self.tab_width);
        out.append("}");
        out
    }
}

impl Default for FormatterRequest {
    /// Empty source, no style, tabs, width zero.
    fn default() -> (r: Self)
        ensures
            r.spec_source() == Seq::<char>::empty(),
            r.spec_base() is None,
            !r.spec_use_spaces(),
            r.spec_tab_width() == 0,
    {
        FormatterRequest { source: String::new(), base: None, use_spaces: false, tab_width: 0 }
    }
}

/// Filter omission: with every filter unset the serialized filters block is
/// the empty object, with no filter key present.
pub proof fn lemma_filters_all_unset(f: CompilationFilters)
    requires
        f.binary is None,
        f.comment_only is None,
        f.demangle is None,
        f.directives is None,
        f.execute is None,
        f.intel is None,
        f.labels is None,
        f.library_code is None,
        f.trim is None,
    ensures
        filters_json(f) == "{}"@,
{
    assert(filters_items(f) =~= Seq::<Seq<char>>::empty());
    reveal_strlit("{");
    reveal_strlit("}");
    reveal_strlit("{}");
    assert(filters_json(f) =~= "{}"@);
}

/// Filter omission: with exactly the `execute` filter set the serialized
/// filters block holds that one key and no other.
pub proof fn lemma_filters_execute_only(f: CompilationFilters, b: bool)
    requires
        f.binary is None,
        f.comment_only is None,
        f.demangle is None,
        f.directives is None,
        f.execute == Some(b),
        f.intel is None,
        f.labels is None,
        f.library_code is None,
        f.trim is None,
    ensures
        filters_json(f) == "{"@ + "\"execute\":"@ + json_bool(b) + "}"@,
{
    assert(filters_items(f) =~= seq!["\"execute\":"@ + json_bool(b)]);
    assert(filters_json(f) =~= "{"@ + "\"execute\":"@ + json_bool(b) + "}"@);
}

} // verus!
