//! From a destination template, a formatted date and a source path to a
//! concrete destination path.
use vstd::prelude::*;

use crate::error::ConfigError;
use crate::paths::{extension, extension_of, file_name, is_dot_name, trim_trailing, with_extension, with_extension_of};
use crate::text::{contains_seq, contains_str, occurs_at, opt_str_chars, replace_all, replace_str};

verus! {

/// The placeholder that a template holds where the date goes.
pub open spec fn date_placeholder() -> Seq<char> {
    "{DATE}"@
}

/// The template with the date put in place of each placeholder, or the
/// template verbatim when it holds none.
pub open spec fn substituted(template: Seq<char>, date: Seq<char>) -> Seq<char> {
    if contains_seq(template, date_placeholder()) {
        replace_all(template, date_placeholder(), date)
    } else {
        template
    }
}

/// The destination for `template`: the date substituted, then, where the
/// result has no extension, the source's extension appended; without a
/// source to take it from that is an error.
pub open spec fn destination(template: Seq<char>, date: Seq<char>, src: Option<Seq<char>>) -> Result<
    Seq<char>,
    ConfigError,
> {
    let p = substituted(template, date);
    if extension_of(p) is Some {
        Ok(p)
    } else {
        match src {
            None => Err(ConfigError::SourceRequired),
            Some(s) => match extension_of(s) {
                Some(e) => Ok(with_extension_of(p, e)),
                None => Ok(p),
            },
        }
    }
}

/// The characters of a resolved path, or its error.
pub open spec fn result_chars(r: Result<String, ConfigError>) -> Result<Seq<char>, ConfigError> {
    match r {
        Ok(s) => Ok(s@),
        Err(e) => Err(e),
    }
}

/// Resolves `template` against an already formatted `date` and the source
/// path, if any.
pub fn resolve_destination(template: &str, date: &str, path_src: Option<&str>) -> (r: Result<
    String,
    ConfigError,
>)
    ensures
        result_chars(r) == destination(template@, date@, opt_str_chars(path_src)),
{
    let tag = "{DATE}";
    proof {
        reveal_strlit("{DATE}");
    }
    let p = if contains_str(template, tag) {
        replace_str(template, tag, date)
    } else {
        String::from_str(template)
    };
    match extension(p.as_str()) {
        Some(_) => Ok(p),
        None => match path_src {
            None => Err(ConfigError::SourceRequired),
            Some(src) => match extension(src) {
                Some(e) => Ok(with_extension(p.as_str(), e.as_str())),
                None => Ok(p),
            },
        },
    }
}

/// Substitution treats each occurrence of the placeholder alike: the text
/// before the first occurrence, the date, and the substituted rest.
pub proof fn lemma_substitution_splits(a: Seq<char>, b: Seq<char>, pat: Seq<char>, rep: Seq<char>)
    requires
        pat.len() > 0,
        forall|k: int| 0 <= k < a.len() ==> !occurs_at(a + pat + b, k, pat),
    ensures
        replace_all(a + pat + b, pat, rep) == replace_all(a, pat, rep) + rep + replace_all(
            b,
            pat,
            rep,
        ),
    decreases a.len(),
{
    let s = a + pat + b;
    if a.len() == 0 {
        assert(s =~= pat + b);
        assert(s.subrange(0, pat.len() as int) =~= pat);
        assert(s.skip(pat.len() as int) =~= b);
        assert(replace_all(a, pat, rep) =~= Seq::<char>::empty());
        assert(replace_all(s, pat, rep) =~= replace_all(a, pat, rep) + rep + replace_all(b, pat, rep));
    } else {
        let a1 = a.skip(1);
        let s1 = a1 + pat + b;
        assert(s.skip(1) =~= s1);
        assert(!occurs_at(s, 0, pat));
        if occurs_at(a, 0, pat) {
            assert(s.subrange(0, pat.len() as int) =~= a.subrange(0, pat.len() as int));
        }
        assert forall|k: int| 0 <= k < a1.len() implies !occurs_at(s1, k, pat) by {
            assert(!occurs_at(s, k + 1, pat));
            if k + pat.len() <= s1.len() {
                assert(s1.subrange(k, k + pat.len()) =~= s.subrange(k + 1, k + 1 + pat.len()));
            }
        }
        lemma_substitution_splits(a1, b, pat, rep);
        assert(s[0] == a[0]);
        assert(replace_all(s, pat, rep) =~= replace_all(a, pat, rep) + rep + replace_all(b, pat, rep));
    }
}

/// A template without the placeholder resolves to the same destination
/// whatever the date.
pub proof fn lemma_resolution_ignores_date(
    template: Seq<char>,
    d1: Seq<char>,
    d2: Seq<char>,
    src: Option<Seq<char>>,
)
    requires
        !contains_seq(template, date_placeholder()),
    ensures
        destination(template, d1, src) == destination(template, d2, src),
{
}

/// Where the substituted template has no extension and the source has the
/// non-empty extension `e`, the destination is the template, without what
/// trails its file name, ending in `.e`; where it has one, nothing is
/// appended.
pub proof fn lemma_extension_inherited(template: Seq<char>, date: Seq<char>, src: Seq<char>)
    ensures
        ({
            let p = substituted(template, date);
            let f = file_name(p);
            match (extension_of(p), extension_of(src)) {
                (Some(_), _) => destination(template, date, Some(src)) == Ok::<Seq<char>, ConfigError>(p),
                (None, Some(e)) => e.len() > 0 && f.len() > 0 && !is_dot_name(f) ==> {
                    &&& destination(template, date, Some(src)) == Ok::<Seq<char>, ConfigError>(
                        trim_trailing(p) + seq!['.'] + e,
                    )
                    &&& (trim_trailing(p) + seq!['.'] + e).skip(trim_trailing(p).len() as int) == seq!['.'] + e
                },
                (None, None) => destination(template, date, Some(src)) == Ok::<Seq<char>, ConfigError>(p),
            }
        }),
{
    let p = substituted(template, date);
    if let (None, Some(e)) = (extension_of(p), extension_of(src)) {
        let q = trim_trailing(p);
        assert((q + seq!['.'] + e).skip(q.len() as int) =~= seq!['.'] + e);
    }
}

} // verus!
