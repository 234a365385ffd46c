//! The metadata cache and the resolver.
//!
//! The cache is built once from two already-fetched listings (languages and
//! compilers) and groups every compiler under the language whose id equals
//! the compiler's `lang` field.  The resolver turns a user-supplied
//! identifier into a concrete compiler: first by exact compiler-id match,
//! then by case-insensitive language-id match falling back to that
//! language's default compiler.

use vstd::prelude::*;

use crate::metadata::Compiler;
use crate::metadata::CompilerView;
use crate::metadata::Format;
use crate::metadata::Language;
use crate::metadata::LanguageView;

verus! {

/// One cache entry: a language together with the compilers that target it,
/// in listing order.
pub struct GodboltCacheEntry {
    /// The language
    pub language: Language,
    /// The compilers whose `lang` equals the language's id, in listing order
    pub compilers: Vec<Compiler>,
}

/// The metadata cache: one entry per listed language, plus the flat list of
/// formatting tools.
pub struct Godbolt {
    /// Cache entries, one per language, in listing order
    pub cache: Vec<GodboltCacheEntry>,
    /// All formatting tools, in listing order
    pub formats: Vec<Format>,
}

/// An error carrying a human-readable message, used by the encoding and
/// transport layers.
#[derive(Debug)]
pub struct GodboltError {
    details: String,
}

impl View for GodboltError {
    type V = Seq<char>;

    closed spec fn view(&self) -> Seq<char> {
        self.details@
    }
}

impl GodboltError {
    /// Wraps a message into an error value.
    pub fn new(msg: &str) -> (r: GodboltError)
        ensures
            r@ == msg@,
    {
        GodboltError { details: msg.to_owned() }
    }

    /// The human-readable message carried by this error.
    pub fn message(&self) -> (r: &str)
        ensures
            r@ == self@,
    {
        self.details.as_str()
    }
}

/// The sequence of views of a sequence of compilers.
pub open spec fn views_of_compilers(cs: Seq<Compiler>) -> Seq<CompilerView> {
    cs.map_values(|c: Compiler| c@)
}

/// Code of a character with the ASCII uppercase letters folded to lowercase.
/// This is the one case-folding rule of the library: identifiers are compared
/// case-insensitively by comparing these codes.
pub open spec fn lower_code(c: char) -> int {
    if 65 <= c as int && c as int <= 90 {
        c as int + 32
    } else {
        c as int
    }
}

/// Case-folded codes of a whole character sequence.
pub open spec fn lower_codes(s: Seq<char>) -> Seq<int> {
    s.map_values(|c: char| lower_code(c))
}

/// Case-insensitive equality of two character sequences.
pub open spec fn eq_ci(a: Seq<char>, b: Seq<char>) -> bool {
    lower_codes(a) == lower_codes(b)
}

/// First compiler of the sequence whose id is exactly `id`, if any.
pub open spec fn find_in_compilers(cs: Seq<Compiler>, id: Seq<char>) -> Option<CompilerView>
    decreases cs.len(),
{
    if cs.len() == 0 {
        None
    } else if cs[0].id@ == id {
        Some(cs[0]@)
    } else {
        find_in_compilers(cs.drop_first(), id)
    }
}

/// First compiler with id `id` across all cache entries, scanning entries in
/// order and each entry's compilers in order.
pub open spec fn find_compiler_spec(cache: Seq<GodboltCacheEntry>, id: Seq<char>) -> Option<
    CompilerView,
>
    decreases cache.len(),
{
    if cache.len() == 0 {
        None
    } else {
        match find_in_compilers(cache[0].compilers@, id) {
            Some(c) => Some(c),
            None => find_compiler_spec(cache.drop_first(), id),
        }
    }
}

/// First language whose id equals `id` case-insensitively, if any.
pub open spec fn find_language_spec(cache: Seq<GodboltCacheEntry>, id: Seq<char>) -> Option<
    LanguageView,
>
    decreases cache.len(),
{
    if cache.len() == 0 {
        None
    } else if eq_ci(cache[0].language.id@, id) {
        Some(cache[0].language@)
    } else {
        find_language_spec(cache.drop_first(), id)
    }
}

/// What `resolve` returns: the compiler with exactly this id if one exists;
/// otherwise, if a language matches the id case-insensitively, the compiler
/// named by that language's `default_compiler` (exact match); otherwise
/// nothing.
pub open spec fn resolve_spec(cache: Seq<GodboltCacheEntry>, id: Seq<char>) -> Option<CompilerView> {
    match find_compiler_spec(cache, id) {
        Some(c) => Some(c),
        None => match find_language_spec(cache, id) {
            Some(l) => find_compiler_spec(cache, l.default_compiler),
            None => None,
        },
    }
}

/// The subsequence (in listing order) of compilers whose `lang` field equals
/// `lang_id`, as views.
pub open spec fn compilers_for(cs: Seq<Compiler>, lang_id: Seq<char>) -> Seq<CompilerView>
    decreases cs.len(),
{
    if cs.len() == 0 {
        Seq::empty()
    } else {
        compilers_for(cs.drop_last(), lang_id) + (if cs.last().lang@ == lang_id {
            seq![cs.last()@]
        } else {
            Seq::<CompilerView>::empty()
        })
    }
}

/// The cache is exactly what construction from the two listings gives: one
/// entry per language, in listing order, holding the compilers whose `lang`
/// equals that language's id, in listing order.
pub open spec fn cache_built_from(
    cache: Seq<GodboltCacheEntry>,
    languages: Seq<Language>,
    compilers: Seq<Compiler>,
) -> bool {
    &&& cache.len() == languages.len()
    &&& forall|j: int|
        0 <= j < languages.len() ==> (#[trigger] cache[j]).language@ == languages[j]@
    &&& forall|j: int|
        0 <= j < languages.len() ==> #[trigger] views_of_compilers(cache[j].compilers@)
            == compilers_for(compilers, languages[j]@.id)
}

/// Exact equality of two string slices, decided character by character.
pub fn str_eq(a: &str, b: &str) -> (r: bool)
    ensures
        r == (a@ == b@),
{
    let na = a.unicode_len();
    let nb = b.unicode_len();
    if na != nb {
        return false;
    }
    let mut i: usize = 0;
    while i < na
        invariant
            na == a@.len(),
            na == b@.len(),
            i <= na,
            forall|j: int| 0 <= j < i ==> a@[j] == b@[j],
        decreases na - i,
    {
        let ca = a.get_char(i);
        let cb = b.get_char(i);
        if ca != cb {
            return false;
        }
        i += 1;
    }
    proof {
        assert(a@ =~= b@);
    }
    true
}

/// Case-insensitive equality of two string slices, decided by comparing
/// case-folded character codes.
pub fn str_eq_ci(a: &str, b: &str) -> (r: bool)
    ensures
        r == eq_ci(a@, b@),
{
    let na = a.unicode_len();
    let nb = b.unicode_len();
    if na != nb {
        proof {
            assert(lower_codes(a@).len() != lower_codes(b@).len());
        }
        return false;
    }
    let mut i: usize = 0;
    while i < na
        invariant
            na == a@.len(),
            na == b@.len(),
            i <= na,
            forall|j: int| 0 <= j < i ==> lower_code(a@[j]) == lower_code(b@[j]),
        decreases na - i,
    {
        let ca = char_lower_code(a.get_char(i));
        let cb = char_lower_code(b.get_char(i));
        if ca != cb {
            proof {
                assert(lower_codes(a@)[i as int] == lower_code(a@[i as int]));
                assert(lower_codes(b@)[i as int] == lower_code(b@[i as int]));
            }
            return false;
        }
        i += 1;
    }
    proof {
        assert forall|j: int| 0 <= j < a@.len() implies lower_codes(a@)[j] == lower_codes(
            b@,
        )[j] by {
            assert(lower_codes(a@)[j] == lower_code(a@[j]));
            assert(lower_codes(b@)[j] == lower_code(b@[j]));
        }
        assert(lower_codes(a@) =~= lower_codes(b@));
    }
    true
}

/// The case-folded code of one character.
fn char_lower_code(c: char) -> (r: u32)
    ensures
        r as int == lower_code(c),
{
    let x = c as u32;
    if 65 <= x && x <= 90 {
        x + 32
    } else {
        x
    }
}

impl Godbolt {
    /// Builds the cache from two already-fetched listings plus the formatter
    /// listing: one entry per language, pairing it with the subsequence of
    /// compilers whose `lang` equals the language's id.  A compiler whose
    /// `lang` matches no language is silently omitted from every entry.
    #[verifier::loop_isolation(false)]
    pub fn new(languages: Vec<Language>, compilers: Vec<Compiler>, formats: Vec<Format>) -> (r:
        Godbolt)
        ensures
            cache_built_from(r.cache@, languages@, compilers@),
            r.formats@ == formats@,
    {
        let mut cache: Vec<GodboltCacheEntry> = Vec::new();
        let mut i: usize = 0;
        while i < languages.len()
            invariant
                i <= languages@.len(),
                cache@.len() == i,
                forall|k: int|
                    0 <= k < i ==> (#[trigger] cache@[k]).language@ == languages@[k]@,
                forall|k: int|
                    0 <= k < i ==> #[trigger] views_of_compilers(cache@[k].compilers@)
                        == compilers_for(compilers@, languages@[k]@.id),
            decreases languages@.len() - i,
        {
            let lang = languages[i].clone();
            let mut relevant: Vec<Compiler> = Vec::new();
            let mut j: usize = 0;
            while j < compilers.len()
                invariant
                    j <= compilers@.len(),
                    views_of_compilers(relevant@) == compilers_for(
                        compilers@.take(j as int),
                        lang@.id,
                    ),
                decreases compilers@.len() - j,
            {
                proof {
                    assert(compilers@.take(j + 1).drop_last() =~= compilers@.take(j as int));
                    assert(compilers@.take(j + 1).last() == compilers@[j as int]);
                }
                if str_eq(compilers[j].lang.as_str(), lang.id.as_str()) {
                    let c = compilers[j].clone();
                    let ghost old_relevant = relevant@;
                    relevant.push(c);
                    proof {
                        assert(views_of_compilers(relevant@) =~= views_of_compilers(
                            old_relevant,
                        ).push(c@));
                        assert(compilers_for(compilers@.take(j + 1), lang@.id)
                            =~= compilers_for(compilers@.take(j as int), lang@.id).push(
                            compilers@[j as int]@,
                        ));
                    }
                } else {
                    proof {
                        assert(compilers_for(compilers@.take(j + 1), lang@.id) =~= compilers_for(
                            compilers@.take(j as int),
                            lang@.id,
                        ));
                    }
                }
                j += 1;
            }
            proof {
                assert(compilers@.take(compilers@.len() as int) =~= compilers@);
            }
            cache.push(GodboltCacheEntry { language: lang, compilers: relevant });
            i += 1;
        }
        Godbolt { cache, formats }
    }

    /// Scans all cache entries, in order, for the first compiler whose id is
    /// exactly `compiler_id`.
    #[verifier::loop_isolation(false)]
    pub fn find_compiler_by_id(&self, compiler_id: &str) -> (r: Option<&Compiler>)
        ensures
            match r {
                Some(c) => find_compiler_spec(self.cache@, compiler_id@) == Some(c@),
                None => find_compiler_spec(self.cache@, compiler_id@) is None,
            },
    {
        proof {
            assert(self.cache@.skip(0) =~= self.cache@);
        }
        let mut i: usize = 0;
        while i < self.cache.len()
            invariant
                i <= self.cache@.len(),
                find_compiler_spec(self.cache@, compiler_id@) == find_compiler_spec(
                    self.cache@.skip(i as int),
                    compiler_id@,
                ),
            decreases self.cache@.len() - i,
        {
            let entry = &self.cache[i];
            proof {
                assert(entry.compilers@.skip(0) =~= entry.compilers@);
                assert(self.cache@.skip(i as int)[0] == self.cache@[i as int]);
            }
            let mut j: usize = 0;
            while j < entry.compilers.len()
                invariant
                    j <= entry.compilers@.len(),
                    find_in_compilers(entry.compilers@, compiler_id@) == find_in_compilers(
                        entry.compilers@.skip(j as int),
                        compiler_id@,
                    ),
                decreases entry.compilers@.len() - j,
            {
                let c = &entry.compilers[j];
                if str_eq(c.id.as_str(), compiler_id) {
                    proof {
                        assert(entry.compilers@.skip(j as int)[0] == entry.compilers@[j as int]);
                        assert(self.cache@.skip(i as int)[0] == self.cache@[i as int]);
                    }
                    return Some(c);
                }
                proof {
                    assert(entry.compilers@.skip(j as int).drop_first() =~= entry.compilers@.skip(
                        j + 1,
                    ));
                    assert(entry.compilers@.skip(j as int)[0] == entry.compilers@[j as int]);
                }
                j += 1;
            }
            proof {
                assert(entry.compilers@.skip(entry.compilers@.len() as int).len() == 0);
                assert(self.cache@.skip(i as int)[0] == self.cache@[i as int]);
                assert(self.cache@.skip(i as int).drop_first() =~= self.cache@.skip(i + 1));
            }
            i += 1;
        }
        None
    }

    /// Scans the cache entries, in order, for the first language whose id
    /// equals `language_id` case-insensitively.
    #[verifier::loop_isolation(false)]
    pub fn find_language_by_id(&self, language_id: &str) -> (r: Option<&Language>)
        ensures
            match r {
                Some(l) => find_language_spec(self.cache@, language_id@) == Some(l@),
                None => find_language_spec(self.cache@, language_id@) is None,
            },
    {
        proof {
            assert(self.cache@.skip(0) =~= self.cache@);
        }
        let mut i: usize = 0;
        while i < self.cache.len()
            invariant
                i <= self.cache@.len(),
                find_language_spec(self.cache@, language_id@) == find_language_spec(
                    self.cache@.skip(i as int),
                    language_id@,
                ),
            decreases self.cache@.len() - i,
        {
            let entry = &self.cache[i];
            proof {
                assert(self.cache@.skip(i as int)[0] == self.cache@[i as int]);
            }
            if str_eq_ci(entry.language.id.as_str(), language_id) {
                return Some(&entry.language);
            }
            proof {
                assert(self.cache@.skip(i as int).drop_first() =~= self.cache@.skip(i + 1));
            }
            i += 1;
        }
        None
    }

    /// Resolves a user-supplied identifier to a compiler: an exact
    /// compiler-id match wins; otherwise a case-insensitive language-id
    /// match falls back to that language's default compiler; otherwise the
    /// result is `None`.
    pub fn resolve(&self, target: &str) -> (r: Option<Compiler>)
        ensures
            match r {
                Some(c) => resolve_spec(self.cache@, target@) == Some(c@),
                None => resolve_spec(self.cache@, target@) is None,
            },
    {
        if let Some(comp) = self.find_compiler_by_id(target) {
            Some(comp.clone())
        } else if let Some(lang) = self.find_language_by_id(target) {
            match self.find_compiler_by_id(lang.default_compiler.as_str()) {
                Some(c) => Some(c.clone()),
                None => None,
            }
        } else {
            None
        }
    }
}

/// A filtered view sequence contains `v` exactly when some compiler of the
/// listing has view `v` and its `lang` equals `lang_id`.
pub proof fn lemma_compilers_for_contains(cs: Seq<Compiler>, lang_id: Seq<char>, v: CompilerView)
    ensures
        compilers_for(cs, lang_id).contains(v) <==> (exists|k: int|
            0 <= k < cs.len() && (#[trigger] cs[k])@ == v && cs[k].lang@ == lang_id),
    decreases cs.len(),
{
    if cs.len() == 0 {
    } else {
        lemma_compilers_for_contains(cs.drop_last(), lang_id, v);
        let head = compilers_for(cs.drop_last(), lang_id);
        let tail: Seq<CompilerView> = if cs.last().lang@ == lang_id {
            seq![cs.last()@]
        } else {
            Seq::empty()
        };
        assert(compilers_for(cs, lang_id) == head + tail);
        if compilers_for(cs, lang_id).contains(v) {
            let idx = choose|idx: int|
                0 <= idx < (head + tail).len() && (head + tail)[idx] == v;
            if idx < head.len() {
                assert(head.contains(v));
                let k = choose|k: int|
                    0 <= k < cs.drop_last().len() && (#[trigger] cs.drop_last()[k])@ == v
                        && cs.drop_last()[k].lang@ == lang_id;
                assert(cs[k]@ == v && cs[k].lang@ == lang_id);
            } else {
                assert(tail[idx - head.len()] == v);
                assert(cs[cs.len() - 1]@ == v && cs[cs.len() - 1].lang@ == lang_id);
            }
        }
        if exists|k: int|
            0 <= k < cs.len() && (#[trigger] cs[k])@ == v && cs[k].lang@ == lang_id {
            let k = choose|k: int|
                0 <= k < cs.len() && (#[trigger] cs[k])@ == v && cs[k].lang@ == lang_id;
            if k < cs.len() - 1 {
                assert(cs.drop_last()[k] == cs[k]);
                assert(head.contains(v));
                let idx = choose|idx: int| 0 <= idx < head.len() && head[idx] == v;
                assert((head + tail)[idx] == v);
            } else {
                assert(tail[0] == v);
                assert((head + tail)[head.len() as int] == v);
            }
        }
    }
}

/// Grouping correctness: in a cache built from the two listings, a listed
/// compiler appears in the entry of language `j` exactly when its `lang`
/// equals that language's id.  In particular a compiler whose `lang` matches
/// no language appears in no entry.
pub proof fn lemma_grouping(
    cache: Seq<GodboltCacheEntry>,
    languages: Seq<Language>,
    compilers: Seq<Compiler>,
    i: int,
    j: int,
)
    requires
        cache_built_from(cache, languages, compilers),
        0 <= i < compilers.len(),
        0 <= j < languages.len(),
    ensures
        views_of_compilers(cache[j].compilers@).contains(compilers[i]@) <==> compilers[i].lang@
            == languages[j]@.id,
{
    lemma_compilers_for_contains(compilers, languages[j]@.id, compilers[i]@);
    if compilers[i].lang@ == languages[j]@.id {
        assert(compilers_for(compilers, languages[j]@.id).contains(compilers[i]@));
    }
    if views_of_compilers(cache[j].compilers@).contains(compilers[i]@) {
        let k = choose|k: int|
            0 <= k < compilers.len() && (#[trigger] compilers[k])@ == compilers[i]@
                && compilers[k].lang@ == languages[j]@.id;
        assert(compilers[i]@.lang == compilers[k]@.lang);
    }
}

/// Resolver exact-match priority: when the identifier equals some compiler's
/// id exactly, `resolve` returns that compiler, whatever the language
/// listing holds.
pub proof fn lemma_resolve_exact_match(
    cache: Seq<GodboltCacheEntry>,
    id: Seq<char>,
    c: CompilerView,
)
    requires
        find_compiler_spec(cache, id) == Some(c),
    ensures
        resolve_spec(cache, id) == Some(c),
{
}

/// Case-insensitive congruence of the language lookup.
pub proof fn lemma_find_language_ci(cache: Seq<GodboltCacheEntry>, a: Seq<char>, b: Seq<char>)
    requires
        eq_ci(a, b),
    ensures
        find_language_spec(cache, a) == find_language_spec(cache, b),
    decreases cache.len(),
{
    if cache.len() == 0 {
    } else {
        lemma_find_language_ci(cache.drop_first(), a, b);
    }
}

/// Resolver case-insensitivity: two identifiers that are equal up to ASCII
/// case resolve identically, provided neither is itself an exact compiler
/// id (the exact-match stage compares case-sensitively, so an identifier
/// that names a compiler directly wins regardless of case rules).
pub proof fn lemma_resolve_case_insensitive(
    cache: Seq<GodboltCacheEntry>,
    a: Seq<char>,
    b: Seq<char>,
)
    requires
        eq_ci(a, b),
        find_compiler_spec(cache, a) is None,
        find_compiler_spec(cache, b) is None,
    ensures
        resolve_spec(cache, a) == resolve_spec(cache, b),
{
    lemma_find_language_ci(cache, a, b);
}

/// Resolver fallback: when the identifier matches no compiler id but matches
/// a language case-insensitively, `resolve` returns whatever the language's
/// `default_compiler` id resolves to as an exact compiler id.
pub proof fn lemma_resolve_fallback(
    cache: Seq<GodboltCacheEntry>,
    id: Seq<char>,
    l: LanguageView,
)
    requires
        find_compiler_spec(cache, id) is None,
        find_language_spec(cache, id) == Some(l),
    ensures
        resolve_spec(cache, id) == find_compiler_spec(cache, l.default_compiler),
{
}

/// Resolver total miss: an identifier matching neither a compiler id nor a
/// language id resolves to nothing.
pub proof fn lemma_resolve_total_miss(cache: Seq<GodboltCacheEntry>, id: Seq<char>)
    requires
        find_compiler_spec(cache, id) is None,
        find_language_spec(cache, id) is None,
    ensures
        resolve_spec(cache, id) is None,
{
}

} // verus!
