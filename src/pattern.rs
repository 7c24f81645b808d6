use vstd::prelude::*;

verus! {

/// The operating-system family of the host, which decides the path separator
/// that appears in a tool agent's command line.
#[derive(Clone, Copy, Debug, PartialEq, Eq, Structural)]
pub enum OsFamily {
    Unix,
    Windows,
}

/// The path separator of a family.
pub open spec fn separator_of(family: OsFamily) -> char {
    match family {
        OsFamily::Unix => '/',
        OsFamily::Windows => '\\',
    }
}

/// What lowercasing turns a string into.
pub uninterp spec fn lower_of(s: Seq<char>) -> Seq<char>;

/// Relies on `str::to_lowercase`: the lowercase form depends on the characters alone.
#[verifier::external_body]
pub(crate) fn lowercase(s: &str) -> (r: String)
    ensures
        r@ == lower_of(s@),
{
    s.to_lowercase()
}

/// `<sep>tool_id<sep>agent`, before lowercasing.
pub open spec fn raw_pattern(tool_id: Seq<char>, family: OsFamily) -> Seq<char> {
    seq![separator_of(family)] + tool_id + seq![separator_of(family)] + seq!['a', 'g', 'e', 'n', 't']
}

/// The command pattern that identifies the agent of `tool_id`.
pub open spec fn pattern_for(tool_id: Seq<char>, family: OsFamily) -> Seq<char> {
    lower_of(raw_pattern(tool_id, family))
}

/// The tokens of a command line, joined with single spaces.
pub open spec fn join_space(items: Seq<Seq<char>>) -> Seq<char>
    decreases items.len(),
{
    if items.len() == 0 {
        Seq::empty()
    } else if items.len() == 1 {
        items[0]
    } else {
        join_space(items.drop_last()) + seq![' '] + items.last()
    }
}

/// The character sequences of a list of strings.
pub open spec fn token_views(items: Seq<String>) -> Seq<Seq<char>> {
    items.map_values(|s: String| s@)
}

/// `needle` occurs in `hay` starting at position `i`.
pub open spec fn occurs_at(hay: Seq<char>, needle: Seq<char>, i: int) -> bool {
    0 <= i && i + needle.len() <= hay.len() && hay.subrange(i, i + needle.len()) == needle
}

/// `needle` occurs somewhere in `hay`.
pub open spec fn contains_sub(hay: Seq<char>, needle: Seq<char>) -> bool {
    exists|i: int| occurs_at(hay, needle, i)
}

/// A command line, given as its tokens, is recognised by `pattern`: the
/// lowercased, space-joined line holds the pattern as a substring.
pub open spec fn command_matches_spec(tokens: Seq<String>, pattern: Seq<char>) -> bool {
    contains_sub(lower_of(join_space(token_views(tokens))), pattern)
}

fn chars_of(s: &str) -> (r: Vec<char>)
    ensures
        r@ == s@,
{
    let mut v: Vec<char> = Vec::new();
    broadcast use vstd::string::axiom_spec_iter;
    for c in it: s.chars()
        invariant
            it.seq() == s@,
            v@ == it.seq().subrange(0, it.index() as int),
    {
        v.push(c);
    }
    v
}

/// Whether `pattern` occurs as a substring of `line`.
pub fn line_contains(line: &str, pattern: &str) -> (r: bool)
    ensures
        r == contains_sub(line@, pattern@),
{
    let h = chars_of(line);
    let n = chars_of(pattern);
    if n.len() > h.len() {
        assert forall|i: int| !occurs_at(line@, pattern@, i) by {}
        return false;
    }
    let last: usize = h.len() - n.len();
    let mut i: usize = 0;
    while i <= last
        invariant
            h@ == line@,
            n@ == pattern@,
            last == h.len() - n.len(),
            n.len() <= h.len(),
            i <= last + 1,
            forall|k: int| 0 <= k < i ==> !occurs_at(line@, pattern@, k),
        decreases last + 1 - i,
    {
        let mut j: usize = 0;
        while j < n.len() && h[i + j] == n[j]
            invariant
                h@ == line@,
                n@ == pattern@,
                i <= last,
                last == h.len() - n.len(),
                j <= n.len(),
                forall|m: int| 0 <= m < j ==> h@[i + m] == n@[m],
            decreases n.len() - j,
        {
            j = j + 1;
        }
        if j == n.len() {
            assert(line@.subrange(i as int, i + n.len()) =~= pattern@);
            assert(occurs_at(line@, pattern@, i as int));
            return true;
        }
        assert(line@.subrange(i as int, i + n.len())[j as int] != pattern@[j as int]);
        i = i + 1;
    }
    assert forall|k: int| !occurs_at(line@, pattern@, k) by {
        if 0 <= k && k + pattern@.len() <= line@.len() {
            assert(k < i);
        }
    }
    false
}

/// Joins the tokens of a command line with single spaces.
pub fn join_tokens(tokens: &Vec<String>) -> (r: String)
    ensures
        r@ == join_space(token_views(tokens@)),
{
    let mut s = String::new();
    let mut i: usize = 0;
    while i < tokens.len()
        invariant
            i <= tokens.len(),
            s@ == join_space(token_views(tokens@.subrange(0, i as int))),
        decreases tokens.len() - i,
    {
        proof {
            reveal_strlit(" ");
        }
        let ghost before = tokens@.subrange(0, i as int);
        let ghost after = tokens@.subrange(0, i + 1);
        assert(token_views(after).drop_last() =~= token_views(before));
        if i > 0 {
            s.append(" ");
        }
        s.append(tokens[i].as_str());
        assert(token_views(after).last() == tokens@[i as int]@);
        if i == 0 {
            assert(s@ =~= join_space(token_views(after)));
        } else {
            assert(s@ =~= join_space(token_views(after)));
        }
        i = i + 1;
    }
    assert(tokens@.subrange(0, tokens.len() as int) =~= tokens@);
    s
}

/// Any command line that holds the pattern somewhere, whatever surrounds
/// it, is recognised: matching is by substring, not by equality.
pub proof fn lemma_substring_match(prefix: Seq<char>, pattern: Seq<char>, suffix: Seq<char>)
    ensures
        contains_sub(prefix + pattern + suffix, pattern),
{
    let hay = prefix + pattern + suffix;
    assert(hay.subrange(prefix.len() as int, (prefix.len() + pattern.len()) as int) =~= pattern);
    assert(occurs_at(hay, pattern, prefix.len() as int));
}

/// Matching ignores case: two command lines with the same lowercase form are
/// recognised by the same patterns.
pub proof fn lemma_match_ignores_case(a: Seq<String>, b: Seq<String>, pattern: Seq<char>)
    requires
        lower_of(join_space(token_views(a))) == lower_of(join_space(token_views(b))),
    ensures
        command_matches_spec(a, pattern) == command_matches_spec(b, pattern),
{
}

/// Whether a process with command-line `tokens` is recognised by `pattern`.
pub fn command_matches(tokens: &Vec<String>, pattern: &str) -> (r: bool)
    ensures
        r == command_matches_spec(tokens@, pattern@),
{
    let line = join_tokens(tokens);
    let lowered = lowercase(line.as_str());
    line_contains(lowered.as_str(), pattern)
}

} // verus!
