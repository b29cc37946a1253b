//! The path patterns suggested to the user for a home prompt, in their fixed
//! order, and which of them is selected at first.
use vstd::prelude::*;
use vstd::string::*;
use crate::model::{pattern_rank, PatternType, TypedPathPattern};

verus! {

/// The index of the last `c` in `s`, or -1.
pub open spec fn last_index(s: Seq<char>, c: char) -> int
    decreases s.len(),
{
    if s.len() == 0 {
        -1
    } else if s.last() == c {
        s.len() - 1
    } else {
        last_index(s.drop_last(), c)
    }
}

/// The index of the first `c` in `s`, or -1.
pub open spec fn first_index(s: Seq<char>, c: char) -> int
    decreases s.len(),
{
    if s.len() == 0 {
        -1
    } else if s[0] == c {
        0
    } else if first_index(s.drop_first(), c) < 0 {
        -1
    } else {
        first_index(s.drop_first(), c) + 1
    }
}

proof fn lemma_last_index_bounds(s: Seq<char>, c: char)
    ensures
        -1 <= last_index(s, c) < s.len(),
    decreases s.len(),
{
    if s.len() > 0 {
        lemma_last_index_bounds(s.drop_last(), c);
    }
}

proof fn lemma_first_index_at(s: Seq<char>, c: char, i: int)
    requires
        0 <= i <= s.len(),
        forall|j: int| 0 <= j < i ==> s[j] != c,
        i < s.len() ==> s[i] == c,
    ensures
        first_index(s, c) == (if i < s.len() { i } else { -1 }),
    decreases i,
{
    if i > 0 {
        lemma_first_index_at(s.drop_first(), c, i - 1);
    }
}

/// The index of the last `c` in `s`, if there is one.
fn find_last(s: &str, c: char) -> (r: Option<usize>)
    ensures
        r is None <==> last_index(s@, c) < 0,
        r matches Some(k) ==> k == last_index(s@, c),
{
    proof {
        lemma_last_index_bounds(s@, c);
    }
    let mut i: usize = s.unicode_len();
    assert(s@.subrange(0, i as int) =~= s@);
    while i > 0
        invariant
            i <= s@.len(),
            last_index(s@, c) == last_index(s@.subrange(0, i as int), c),
        decreases i,
    {
        let ch = s.get_char(i - 1);
        if ch == c {
            return Some(i - 1);
        }
        assert(s@.subrange(0, i as int).drop_last() =~= s@.subrange(0, i - 1));
        i = i - 1;
    }
    None
}

/// The index of the first `c` in `s`, if there is one.
fn find_first(s: &str, c: char) -> (r: Option<usize>)
    ensures
        r is None <==> first_index(s@, c) < 0,
        r matches Some(k) ==> k == first_index(s@, c) && k < s@.len(),
{
    let n = s.unicode_len();
    let mut i: usize = 0;
    while i < n
        invariant
            n == s@.len(),
            i <= n,
            forall|j: int| 0 <= j < i ==> s@[j] != c,
        decreases n - i,
    {
        if s.get_char(i) == c {
            proof {
                lemma_first_index_at(s@, c, i as int);
            }
            return Some(i);
        }
        i = i + 1;
    }
    proof {
        lemma_first_index_at(s@, c, n as int);
    }
    None
}

/// Whether a requested path names a directory: it ends with `/`.
pub open spec fn is_dir_path(p: Seq<char>) -> bool {
    p.len() > 0 && p.last() == '/'
}

/// The directory of a request, without a trailing `/`: the path itself for a
/// directory, the part before the last `/` for a file.
pub open spec fn dir_of(p: Seq<char>) -> Seq<char> {
    if is_dir_path(p) {
        p.drop_last()
    } else if last_index(p, '/') < 0 {
        Seq::empty()
    } else {
        p.subrange(0, last_index(p, '/'))
    }
}

/// The last component of a path.
pub open spec fn file_name(p: Seq<char>) -> Seq<char> {
    p.subrange(last_index(p, '/') + 1, p.len() as int)
}

/// The extension of a file name: what follows its last `.`, when that dot
/// neither starts nor ends the name; otherwise nothing.
pub open spec fn extension(p: Seq<char>) -> Seq<char> {
    let n = file_name(p);
    let d = last_index(n, '.');
    if 0 < d < n.len() - 1 {
        n.subrange(d + 1, n.len() as int)
    } else {
        Seq::empty()
    }
}

/// The directory directly under the home directory that holds the path, as
/// a recursive pattern; none when the path is not inside such a directory.
pub open spec fn top_level_pattern(p: Seq<char>, h: Seq<char>) -> Option<Seq<char>> {
    if p.len() > h.len() + 1 && p.subrange(0, h.len() as int) == h && p[h.len() as int] == '/' {
        let r = p.subrange(h.len() as int + 1, p.len() as int);
        let k = first_index(r, '/');
        if k > 0 {
            Some(h + "/"@ + r.subrange(0, k) + "/**"@)
        } else {
            None
        }
    } else {
        None
    }
}

/// What a suggested pattern is made of.
pub open spec fn pattern_view(t: TypedPathPattern) -> (PatternType, Seq<char>, bool) {
    (t.pattern_type, t.path_pattern@, t.show_initially)
}

/// The patterns suggested for a request of path `p` under the home
/// directory `h`, in their fixed order.
pub open spec fn pattern_options_spec(p: Seq<char>, h: Seq<char>) -> Seq<(PatternType, Seq<char>, bool)> {
    let file = !is_dir_path(p);
    let d = dir_of(p);
    let e = extension(p);
    seq![(PatternType::RequestedDirectory, d + "/"@, !file)] + (if file {
        seq![(PatternType::RequestedFile, p, true)]
    } else {
        Seq::empty()
    }) + seq![(PatternType::RequestedDirectoryContents, d + "/**"@, !file)] + (match top_level_pattern(p, h) {
        Some(t) => seq![(PatternType::TopLevelDirectory, t, true)],
        None => Seq::empty(),
    }) + seq![(PatternType::HomeDirectory, h + "/**"@, true)] + (if file && e.len() > 0 {
        seq![(PatternType::MatchingFileExtension, h + "/**/*."@ + e, true)]
    } else {
        Seq::empty()
    }) + seq![(PatternType::ContainingDirectory, d + "/*"@, true)]
}

/// The index of the first pattern shown initially, or 0 when none is.
pub open spec fn first_shown(s: Seq<(PatternType, Seq<char>, bool)>) -> int
    decreases s.len(),
{
    if s.len() == 0 {
        0
    } else if s[0].2 {
        0
    } else if exists|i: int| 0 <= i < s.len() && #[trigger] s[i].2 {
        first_shown(s.drop_first()) + 1
    } else {
        0
    }
}

pub open spec fn views_of(v: Seq<TypedPathPattern>) -> Seq<(PatternType, Seq<char>, bool)> {
    v.map_values(|t: TypedPathPattern| pattern_view(t))
}

fn push_pattern(
    v: &mut Vec<TypedPathPattern>,
    pattern_type: PatternType,
    path_pattern: String,
    show_initially: bool,
)
    ensures
        views_of(final(v)@) == views_of(old(v)@) + seq![(pattern_type, path_pattern@, show_initially)],
{
    v.push(TypedPathPattern { pattern_type, path_pattern, show_initially });
    assert(views_of(v@) =~= views_of(old(v)@) + seq![(pattern_type, path_pattern@, show_initially)]);
}

/// The top-level pattern of a path under the home directory, if it has one.
fn top_level(path: &str, home: &str) -> (r: Option<String>)
    ensures
        r is None <==> top_level_pattern(path@, home@) is None,
        r matches Some(t) ==> top_level_pattern(path@, home@) == Some(t@),
{
    let n = path.unicode_len();
    let hl = home.unicode_len();
    if hl >= n || n - hl < 2 {
        return None;
    }
    let prefix = String::from_str(path.substring_char(0, hl));
    let home_dir = String::from_str(home);
    if prefix != home_dir || path.get_char(hl) != '/' {
        return None;
    }
    let rest = path.substring_char(hl + 1, n);
    match find_first(rest, '/') {
        Some(k) => {
            if k == 0 {
                None
            } else {
                Some(
                    String::from_str(home).concat("/").concat(rest.substring_char(0, k)).concat(
                        "/**",
                    ),
                )
            }
        },
        None => None,
    }
}

/// The extension of the file that a path names, possibly empty.
fn file_extension(path: &str) -> (r: String)
    ensures
        r@ == extension(path@),
{
    let n = path.unicode_len();
    proof {
        lemma_last_index_bounds(path@, '/');
    }
    let start: usize = match find_last(path, '/') {
        Some(k) => k + 1,
        None => 0,
    };
    let name = path.substring_char(start, n);
    assert(name@ == file_name(path@));
    proof {
        lemma_last_index_bounds(name@, '.');
    }
    let len = name.unicode_len();
    match find_last(name, '.') {
        Some(d) => {
            if 0 < d && d + 1 < len {
                String::from_str(name.substring_char(d + 1, len))
            } else {
                String::new()
            }
        },
        None => String::new(),
    }
}

/// The patterns to suggest for a request of `path` under the home directory
/// `home`, in their fixed order, with the index of the one selected first.
pub fn pattern_options(path: &str, home: &str) -> (r: (Vec<TypedPathPattern>, usize))
    ensures
        views_of(r.0@) == pattern_options_spec(path@, home@),
        r.1 == first_shown(pattern_options_spec(path@, home@)),
{
    let ghost p = path@;
    let ghost h = home@;
    let n = path.unicode_len();
    let file = !(n > 0 && path.get_char(n - 1) == '/');
    proof {
        lemma_last_index_bounds(p, '/');
    }
    let dir: String = if !file {
        String::from_str(path.substring_char(0, n - 1))
    } else {
        match find_last(path, '/') {
            Some(k) => String::from_str(path.substring_char(0, k)),
            None => String::new(),
        }
    };
    assert(!file ==> p.drop_last() =~= p.subrange(0, n - 1));
    assert(dir@ == dir_of(p));
    let ext = file_extension(path);
    let ghost spec = pattern_options_spec(p, h);
    let mut v: Vec<TypedPathPattern> = Vec::new();
    assert(views_of(v@) =~= Seq::empty());
    push_pattern(&mut v, PatternType::RequestedDirectory, dir.clone().concat("/"), !file);
    if file {
        push_pattern(&mut v, PatternType::RequestedFile, String::from_str(path), true);
    }
    push_pattern(&mut v, PatternType::RequestedDirectoryContents, dir.clone().concat("/**"), !file);
    match top_level(path, home) {
        Some(t) => push_pattern(&mut v, PatternType::TopLevelDirectory, t, true),
        None => {},
    }
    push_pattern(&mut v, PatternType::HomeDirectory, String::from_str(home).concat("/**"), true);
    if file && ext.as_str().unicode_len() > 0 {
        push_pattern(
            &mut v,
            PatternType::MatchingFileExtension,
            String::from_str(home).concat("/**/*.").concat(ext.as_str()),
            true,
        );
    }
    push_pattern(&mut v, PatternType::ContainingDirectory, dir.concat("/*"), true);
    assert(views_of(v@) =~= spec);
    let initial: usize = if file { 1 } else { 0 };
    proof {
        assert(spec[0].2 == !file);
        if file {
            assert(spec[1].2);
            assert(spec.drop_first()[0].2);
            assert(first_shown(spec.drop_first()) == 0);
            assert(first_shown(spec) == 1);
        } else {
            assert(first_shown(spec) == 0);
        }
    }
    (v, initial)
}

/// The suggested patterns come in the fixed order of their kinds, each kind
/// at most once, and the pattern selected first is the first one shown
/// initially, or the first of all when none is.
pub proof fn lemma_pattern_order(path: Seq<char>, home: Seq<char>)
    ensures
        forall|i: int, j: int|
            0 <= i < j < pattern_options_spec(path, home).len() ==> pattern_rank(
                #[trigger] pattern_options_spec(path, home)[i].0,
            ) < pattern_rank(#[trigger] pattern_options_spec(path, home)[j].0),
        0 <= first_shown(pattern_options_spec(path, home)) < pattern_options_spec(path, home).len(),
        pattern_options_spec(path, home)[first_shown(pattern_options_spec(path, home))].2,
        forall|i: int|
            0 <= i < first_shown(pattern_options_spec(path, home)) ==> !(
            #[trigger] pattern_options_spec(path, home)[i]).2,
{
    let s = pattern_options_spec(path, home);
    assert(s[0].0 == PatternType::RequestedDirectory);
    if is_dir_path(path) {
        assert(s[0].2);
        assert(first_shown(s) == 0);
    } else {
        assert(!s[0].2);
        assert(s[1].2);
        assert(s.drop_first()[0].2);
        assert(first_shown(s.drop_first()) == 0);
        assert(first_shown(s) == 1);
    }
}

} // verus!
