//! Immutable value records describing the metadata listings of the remote
//! service: languages, compilers, libraries and code formatters.

use vstd::prelude::*;

verus! {

/// The sequence of views of a sequence of strings.
pub open spec fn views_of_strings(ss: Seq<String>) -> Seq<Seq<char>> {
    ss.map_values(|s: String| s@)
}

/// A compiler known to the remote service.
///
/// Compiler ids are unique across the whole service; `lang` names the
/// language the compiler targets and is matched against `Language::id`
/// when the metadata cache is built.
#[derive(Debug)]
pub struct Compiler {
    /// Unique compiler id
    pub id: String,
    /// Display name of the compiler
    pub name: String,
    /// Id of the language this compiler targets
    pub lang: String,
    /// Alias strings for the compiler
    pub alias: Vec<String>,
}

/// Mathematical model of a [`Compiler`]: every text field as a sequence of
/// characters.
#[verifier::ext_equal]
pub struct CompilerView {
    pub id: Seq<char>,
    pub name: Seq<char>,
    pub lang: Seq<char>,
    pub alias: Seq<Seq<char>>,
}

impl View for Compiler {
    type V = CompilerView;

    open spec fn view(&self) -> CompilerView {
        CompilerView {
            id: self.id@,
            name: self.name@,
            lang: self.lang@,
            alias: views_of_strings(self.alias@),
        }
    }
}

impl Clone for Compiler {
    fn clone(&self) -> (res: Self)
        ensures
            res@ == self@,
    {
        let res = Compiler {
            id: self.id.clone(),
            name: self.name.clone(),
            lang: self.lang.clone(),
            alias: self.alias.clone(),
        };
        proof {
            assert forall|i: int| 0 <= i < self.alias@.len() implies res.alias@[i]
                == self.alias@[i] by {
                assert(cloned::<String>(self.alias@[i], res.alias@[i]));
            }
            assert(views_of_strings(res.alias@) =~= views_of_strings(self.alias@));
            assert(res@ =~= self@);
        }
        res
    }
}

/// A language known to the remote service.
#[derive(Debug)]
pub struct Language {
    /// Unique language id
    pub id: String,
    /// Language display name
    pub name: String,
    /// File extensions associated with the language
    pub extensions: Vec<String>,
    /// Editor-mode tag for the language
    pub monaco: String,
    /// Id of the compiler the service picks for this language by default
    pub default_compiler: String,
}

/// Mathematical model of a [`Language`].
#[verifier::ext_equal]
pub struct LanguageView {
    pub id: Seq<char>,
    pub name: Seq<char>,
    pub extensions: Seq<Seq<char>>,
    pub monaco: Seq<char>,
    pub default_compiler: Seq<char>,
}

impl View for Language {
    type V = LanguageView;

    open spec fn view(&self) -> LanguageView {
        LanguageView {
            id: self.id@,
            name: self.name@,
            extensions: views_of_strings(self.extensions@),
            monaco: self.monaco@,
            default_compiler: self.default_compiler@,
        }
    }
}

impl Clone for Language {
    fn clone(&self) -> (res: Self)
        ensures
            res@ == self@,
    {
        let res = Language {
            id: self.id.clone(),
            name: self.name.clone(),
            extensions: self.extensions.clone(),
            monaco: self.monaco.clone(),
            default_compiler: self.default_compiler.clone(),
        };
        proof {
            assert forall|i: int| 0 <= i < self.extensions@.len() implies res.extensions@[i]
                == self.extensions@[i] by {
                assert(cloned::<String>(self.extensions@[i], res.extensions@[i]));
            }
            assert(views_of_strings(res.extensions@) =~= views_of_strings(self.extensions@));
            assert(res@ =~= self@);
        }
        res
    }
}

/// A library listed by the remote service for some language.
#[derive(Clone, Debug)]
pub struct Library {
    /// Unique identifier of the library
    pub id: String,
    /// Library display name
    pub name: String,
    /// URL to the library source
    pub url: Option<String>,
    /// Library versions
    pub versions: Vec<LibraryVersion>,
}

/// One version of a [`Library`].
#[derive(Clone, Debug)]
pub struct LibraryVersion {
    /// Version of the library
    pub version: String,
    /// Names used for static linking against the library
    pub staticliblink: Vec<String>,
    /// Description of the library
    pub description: Option<String>,
    /// Alias strings for the library
    pub alias: Vec<String>,
    /// Ids of the libraries this version depends on
    pub dependencies: Vec<String>,
    /// Header search paths the service passes to the compiler
    pub path: Vec<String>,
    /// Library binary paths
    pub libpath: Vec<String>,
    /// Additional library options
    pub options: Vec<String>,
    /// Unique library id
    pub id: String,
}

/// A code-formatting tool known to the remote service.
#[derive(Clone, Debug)]
pub struct Format {
    /// Path to the formatter executable
    pub exe: String,
    /// Long version string
    pub version: String,
    /// Name of the formatter
    pub name: String,
    /// Style names the formatter accepts, if any
    pub styles: Vec<String>,
    /// Format type tag
    pub format_type: String,
}

impl Default for Format {
    fn default() -> (r: Self)
        ensures
            r.exe@ == Seq::<char>::empty(),
            r.version@ == Seq::<char>::empty(),
            r.name@ == Seq::<char>::empty(),
            r.styles@ == Seq::<String>::empty(),
            r.format_type@ == Seq::<char>::empty(),
    {
        Format {
            exe: String::new(),
            version: String::new(),
            name: String::new(),
            styles: Vec::new(),
            format_type: String::new(),
        }
    }
}

} // verus!
