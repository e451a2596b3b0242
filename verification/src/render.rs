//! Rendering support for the binding generator: the name mangling applied
//! to header names and the records that hold generated sources.

use vstd::prelude::*;

use vstd::string::StrSliceExecFns;
use vstd::string::StringExecFns;

use crate::manifest::FileInfo;

verus! {

/// `s` with every occurrence of `pat` removed, scanning left to right
/// without overlap: wherever `pat` starts, it is skipped; otherwise one
/// character is kept and the scan moves on.
pub open spec fn remove_all(s: Seq<char>, pat: Seq<char>) -> Seq<char>
    decreases s.len(),
{
    if pat.len() == 0 || s.len() < pat.len() {
        s
    } else if s.take(pat.len() as int) == pat {
        remove_all(s.skip(pat.len() as int), pat)
    } else {
        seq![s[0]] + remove_all(s.skip(1), pat)
    }
}

/// The prettified form of a header name: underscores, then the `TW`
/// prefix convention, then the `Proto` marker removed, in that order.
pub open spec fn pretty_name_spec(s: Seq<char>) -> Seq<char> {
    remove_all(remove_all(remove_all(s, seq!['_']), seq!['T', 'W']), seq!['P', 'r', 'o', 't', 'o'])
}

/// Whether `pat` occurs in `s` at position `i`.
fn match_at(s: &str, pat: &str, i: usize, n: usize, m: usize) -> (b: bool)
    requires
        n == s@.len(),
        m == pat@.len(),
        i + m <= n,
    ensures
        b == (s@.subrange(i as int, (i + m) as int) == pat@),
{
    let mut j: usize = 0;
    while j < m
        invariant
            n == s@.len(),
            m == pat@.len(),
            i + m <= n,
            j <= m,
            forall|k: int| 0 <= k < j ==> s@[i + k] == pat@[k],
        decreases m - j,
    {
        if s.get_char(i + j) != pat.get_char(j) {
            proof {
                assert(s@.subrange(i as int, (i + m) as int)[j as int] != pat@[j as int]);
            }
            return false;
        }
        j += 1;
    }
    proof {
        assert(s@.subrange(i as int, (i + m) as int) =~= pat@);
    }
    true
}

/// Removes every left-to-right occurrence of `pat` from `s`.
fn remove_pat(s: &str, pat: &str) -> (r: String)
    requires
        pat@.len() >= 1,
    ensures
        r@ == remove_all(s@, pat@),
{
    let n: usize = s.unicode_len();
    let m: usize = pat.unicode_len();
    let mut out = String::new();
    let mut i: usize = 0;
    proof {
        assert(s@.skip(0) =~= s@);
        assert(Seq::<char>::empty() + remove_all(s@, pat@) =~= remove_all(s@, pat@));
    }
    while i < n
        invariant
            n == s@.len(),
            m == pat@.len(),
            m >= 1,
            i <= n,
            remove_all(s@, pat@) == out@ + remove_all(s@.skip(i as int), pat@),
        decreases n - i,
    {
        let matched = if m <= n - i {
            match_at(s, pat, i, n, m)
        } else {
            false
        };
        if matched {
            proof {
                assert(s@.skip(i as int).take(m as int) =~= s@.subrange(
                    i as int,
                    (i + m) as int,
                ));
                assert(s@.skip(i as int).skip(m as int) =~= s@.skip((i + m) as int));
            }
            i += m;
        } else {
            let piece = s.substring_char(i, i + 1);
            out.append(piece);
            proof {
                if m <= n - i {
                    assert(s@.skip(i as int).take(m as int) =~= s@.subrange(
                        i as int,
                        (i + m) as int,
                    ));
                }
                assert(s@.skip(i as int).skip(1) =~= s@.skip(i as int + 1));
                assert(seq![s@.skip(i as int)[0]] =~= s@.subrange(i as int, i as int + 1));
                assert(s@.skip(i as int) =~= s@.subrange(i as int, i as int + 1) + s@.skip(
                    i as int + 1,
                ));
            }
            i += 1;
        }
    }
    proof {
        assert(s@.skip(n as int) =~= Seq::<char>::empty());
    }
    out
}

/// Prettifies a header name for use as a binding type name: removes
/// underscores, the `TW` prefix convention and the `Proto` marker, in
/// that order.
pub fn pretty_name(name: String) -> (r: String)
    ensures
        r@ == pretty_name_spec(name@),
{
    proof {
        reveal_strlit("_");
        reveal_strlit("TW");
        reveal_strlit("Proto");
        assert(("_")@ =~= seq!['_']);
        assert(("TW")@ =~= seq!['T', 'W']);
        assert(("Proto")@ =~= seq!['P', 'r', 'o', 't', 'o']);
    }
    let s1 = remove_pat(name.as_str(), "_");
    let s2 = remove_pat(s1.as_str(), "TW");
    let s3 = remove_pat(s2.as_str(), "Proto");
    s3
}

/// A datum paired with the copyright year to stamp on generated sources.
pub struct WithYear<'a, T> {
    /// The current year.
    pub current_year: u64,
    /// The datum being rendered.
    pub data: &'a T,
}

/// The inputs of one rendering run: the parsed manifest of a header file
/// and the template sources for each kind of generated item.
pub struct RenderIntput<'a> {
    /// The parsed manifest.
    pub file_info: FileInfo,
    /// The template for platform-specific struct bindings.
    pub android_main_struct: &'a str,
    /// The template for platform-specific enum bindings.
    pub android_main_enum: &'a str,
    /// The template for shared struct bindings.
    pub common_main_struct: &'a str,
    /// The template for shared enum bindings.
    pub common_main_enum: &'a str,
}

/// The typed bindings generated for one platform.
pub struct GeneratedTypes<S, E> {
    /// The generated struct bindings.
    pub structs: Vec<S>,
    /// The generated enum bindings.
    pub enums: Vec<E>,
}

impl<S, E> Default for GeneratedTypes<S, E> {
    /// An empty set of generated bindings.
    fn default() -> (r: Self)
        ensures
            r.structs@ == Seq::<S>::empty(),
            r.enums@ == Seq::<E>::empty(),
    {
        GeneratedTypes { structs: Vec::new(), enums: Vec::new() }
    }
}

/// The rendered sources generated for one platform, each under the name
/// of the type it binds.
pub struct GeneratedStrings {
    /// The rendered struct bindings.
    pub structs: Vec<(String, String)>,
    /// The rendered enum bindings.
    pub enums: Vec<(String, String)>,
}

impl Default for GeneratedStrings {
    /// An empty set of rendered sources.
    fn default() -> (r: Self)
        ensures
            r.structs@ == Seq::<(String, String)>::empty(),
            r.enums@ == Seq::<(String, String)>::empty(),
    {
        GeneratedStrings { structs: Vec::new(), enums: Vec::new() }
    }
}

/// The rendered sources of both target source sets.
pub struct GeneratedMultiplatformStrings {
    /// The sources of the platform-specific set.
    pub android_main: GeneratedStrings,
    /// The sources of the shared set.
    pub common_main: GeneratedStrings,
}

impl Default for GeneratedMultiplatformStrings {
    /// An empty set of rendered sources for both sets.
    fn default() -> (r: Self)
        ensures
            r.android_main.structs@ == Seq::<(String, String)>::empty(),
            r.android_main.enums@ == Seq::<(String, String)>::empty(),
            r.common_main.structs@ == Seq::<(String, String)>::empty(),
            r.common_main.enums@ == Seq::<(String, String)>::empty(),
    {
        GeneratedMultiplatformStrings {
            android_main: GeneratedStrings { structs: Vec::new(), enums: Vec::new() },
            common_main: GeneratedStrings { structs: Vec::new(), enums: Vec::new() },
        }
    }
}

} // verus!
