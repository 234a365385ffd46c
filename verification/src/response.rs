//! The compilation-response data model.
//!
//! Every optional field may be entirely absent depending on which filters
//! the request carried; the transport layer fills these records from the
//! service's answer and hands them over unchanged.

use vstd::prelude::*;

verus! {

/// One line of the assembly listing.
#[derive(Clone, Debug)]
pub struct AsmResult {
    pub text: Option<String>,
}

/// One line of standard output.
#[derive(Clone, Debug)]
pub struct StdOutResult {
    pub text: String,
}

/// One line of standard error, possibly tagged with a source location.
#[derive(Clone, Debug)]
pub struct StdErrResult {
    pub text: String,
    pub tag: Option<TagResult>,
}

/// A source-location tag attached to a diagnostic line.
#[derive(Clone, Debug)]
pub struct TagResult {
    pub line: i32,
    pub column: i32,
    pub text: String,
}

/// The nested build result of an execution request.
#[derive(Clone, Debug)]
pub struct BuildResult {
    pub code: i32,
    pub stdout: Option<Vec<StdOutResult>>,
    pub stderr: Option<Vec<StdErrResult>>,
    pub input_filename: Option<String>,
    pub compilation_options: Option<Vec<String>>,
    pub tools: Option<Vec<String>>,
}

/// The structured answer to a compilation request.
#[derive(Clone, Debug)]
pub struct GodboltResponse {
    pub code: i32,
    pub did_execute: Option<bool>,
    pub build_result: Option<BuildResult>,
    pub execution_time: Option<String>,
    pub stdout: Vec<StdOutResult>,
    pub stderr: Vec<StdErrResult>,
    pub asm_size: Option<i32>,
    pub asm_lines: Option<Vec<AsmResult>>,
}

/// The answer to a code-formatting request.
#[derive(Clone, Debug)]
pub struct FormatResult {
    /// Exit code of the formatter
    pub exit: i32,
    /// Formatter output
    pub answer: String,
}

impl Default for AsmResult {
    /// No text.
    fn default() -> (r: Self)
        ensures
            r.text is None,
    {
        AsmResult { text: None }
    }
}

impl Default for StdOutResult {
    /// Empty text.
    fn default() -> (r: Self)
        ensures
            r.text@ == Seq::<char>::empty(),
    {
        StdOutResult { text: String::new() }
    }
}

impl Default for StdErrResult {
    /// Empty text, no tag.
    fn default() -> (r: Self)
        ensures
            r.text@ == Seq::<char>::empty(),
            r.tag is None,
    {
        StdErrResult { text: String::new(), tag: None }
    }
}

impl Default for TagResult {
    /// Zero location, empty text.
    fn default() -> (r: Self)
        ensures
            r.line == 0,
            r.column == 0,
            r.text@ == Seq::<char>::empty(),
    {
        TagResult { line: 0, column: 0, text: String::new() }
    }
}

impl Default for BuildResult {
    /// Zero exit code and every optional part absent.
    fn default() -> (r: Self)
        ensures
            r.code == 0,
            r.stdout is None,
            r.stderr is None,
            r.input_filename is None,
            r.compilation_options is None,
            r.tools is None,
    {
        BuildResult {
            code: 0,
            stdout: None,
            stderr: None,
            input_filename: None,
            compilation_options: None,
            tools: None,
        }
    }
}

impl Default for GodboltResponse {
    /// Zero status, empty output lists and every optional part absent.
    fn default() -> (r: Self)
        ensures
            r.code == 0,
            r.did_execute is None,
            r.build_result is None,
            r.execution_time is None,
            r.stdout@ == Seq::<StdOutResult>::empty(),
            r.stderr@ == Seq::<StdErrResult>::empty(),
            r.asm_size is None,
            r.asm_lines is None,
    {
        GodboltResponse {
            code: 0,
            did_execute: None,
            build_result: None,
            execution_time: None,
            stdout: Vec::new(),
            stderr: Vec::new(),
            asm_size: None,
            asm_lines: None,
        }
    }
}

impl Default for FormatResult {
    /// Zero exit code and empty output.
    fn default() -> (r: Self)
        ensures
            r.exit == 0,
            r.answer@ == Seq::<char>::empty(),
    {
        FormatResult { exit: 0, answer: String::new() }
    }
}

} // verus!
