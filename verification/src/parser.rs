//! Splitting an input line into stages and a stage into tokens.
//!
//! A command line is the input line split on the segment separator `'|'`;
//! each stage string is split on whitespace into its tokens, the maximal
//! runs of non-whitespace characters.  No token is empty: runs of
//! whitespace count once, and a stage string of nothing but whitespace
//! has no tokens at all.

use vstd::prelude::*;

verus! {

/// Index of the first occurrence of `sep` in `s`, or `s.len()` if `sep`
/// does not occur.
pub open spec fn find_sep(s: Seq<char>, sep: char) -> int
    decreases s.len(),
{
    if s.len() == 0 {
        0
    } else if s[0] == sep {
        0
    } else {
        1 + find_sep(s.drop_first(), sep)
    }
}

pub proof fn lemma_find_sep(s: Seq<char>, sep: char)
    ensures
        0 <= find_sep(s, sep) <= s.len(),
        find_sep(s, sep) < s.len() ==> s[find_sep(s, sep)] == sep,
        forall|j: int| 0 <= j < find_sep(s, sep) ==> s[j] != sep,
    decreases s.len(),
{
    if s.len() == 0 {
    } else if s[0] == sep {
    } else {
        lemma_find_sep(s.drop_first(), sep);
        assert forall|j: int| 0 <= j < find_sep(s, sep) implies s[j] != sep by {
            if j > 0 {
                assert(s.drop_first()[j - 1] == s[j]);
            }
        }
    }
}

/// How many times `c` occurs in `s`.
pub open spec fn count_char(s: Seq<char>, c: char) -> nat
    decreases s.len(),
{
    if s.len() == 0 {
        0
    } else {
        (if s[0] == c {
            1nat
        } else {
            0nat
        }) + count_char(s.drop_first(), c)
    }
}

pub proof fn lemma_count_char_zero(s: Seq<char>, c: char)
    ensures
        count_char(s, c) == 0 <==> (forall|j: int| 0 <= j < s.len() ==> s[j] != c),
    decreases s.len(),
{
    if s.len() == 0 {
    } else {
        lemma_count_char_zero(s.drop_first(), c);
        if count_char(s, c) == 0 {
            assert forall|j: int| 0 <= j < s.len() implies s[j] != c by {
                if j > 0 {
                    assert(s.drop_first()[j - 1] == s[j]);
                }
            }
        } else {
            if s[0] != c {
                assert(count_char(s.drop_first(), c) != 0);
                let j = choose|j: int| 0 <= j < s.drop_first().len() && s.drop_first()[j] == c;
                assert(s[j + 1] == c);
            }
        }
    }
}

pub proof fn lemma_count_char_concat(a: Seq<char>, b: Seq<char>, c: char)
    ensures
        count_char(a + b, c) == count_char(a, c) + count_char(b, c),
    decreases a.len(),
{
    if a.len() == 0 {
        assert(a + b =~= b);
    } else {
        lemma_count_char_concat(a.drop_first(), b, c);
        assert((a + b).drop_first() =~= a.drop_first() + b);
        assert((a + b)[0] == a[0]);
    }
}

/// The segments of `s` between occurrences of `sep`, in order.  There is
/// always at least one segment; an occurrence of `sep` at either end or two
/// adjacent occurrences contribute an empty segment.
pub open spec fn split_on(s: Seq<char>, sep: char) -> Seq<Seq<char>>
    decreases s.len(),
    via split_on_decreases
{
    let i = find_sep(s, sep);
    if i == s.len() {
        seq![s]
    } else {
        seq![s.subrange(0, i)] + split_on(s.subrange(i + 1, s.len() as int), sep)
    }
}

#[via_fn]
proof fn split_on_decreases(s: Seq<char>, sep: char) {
    lemma_find_sep(s, sep);
}

pub proof fn lemma_split_on_len(s: Seq<char>, sep: char)
    ensures
        split_on(s, sep).len() == count_char(s, sep) + 1,
    decreases s.len(),
{
    lemma_find_sep(s, sep);
    let i = find_sep(s, sep);
    if i == s.len() {
        lemma_count_char_zero(s, sep);
    } else {
        let tail = s.subrange(i + 1, s.len() as int);
        lemma_split_on_len(tail, sep);
        let head = s.subrange(0, i);
        let mid = seq![sep] + tail;
        assert(s =~= head + mid);
        lemma_count_char_concat(head, mid, sep);
        lemma_count_char_concat(seq![sep], tail, sep);
        lemma_count_char_zero(head, sep);
        assert(count_char(head, sep) == 0) by {
            assert(forall|j: int| 0 <= j < head.len() ==> head[j] == s[j] && s[j] != sep);
        }
        assert(seq![sep].drop_first() =~= Seq::<char>::empty());
        assert(count_char(Seq::<char>::empty(), sep) == 0);
        assert(seq![sep][0] == sep);
        assert(count_char(seq![sep], sep) == 1);
    }
}

/// The segments rejoined with the separator between them.
pub open spec fn join_with(segs: Seq<Seq<char>>, sep: char) -> Seq<char>
    decreases segs.len(),
{
    if segs.len() == 0 {
        Seq::empty()
    } else if segs.len() == 1 {
        segs[0]
    } else {
        segs[0] + seq![sep] + join_with(segs.drop_first(), sep)
    }
}

/// No segment of a split holds the separator.
pub proof fn lemma_split_on_sep_free(s: Seq<char>, sep: char)
    ensures
        forall|k: int|
            0 <= k < split_on(s, sep).len() ==> count_char(
                #[trigger] split_on(s, sep)[k],
                sep,
            ) == 0,
    decreases s.len(),
{
    lemma_find_sep(s, sep);
    let i = find_sep(s, sep);
    if i == s.len() {
        lemma_count_char_zero(s, sep);
    } else {
        let head = s.subrange(0, i);
        let tail = s.subrange(i + 1, s.len() as int);
        lemma_count_char_zero(head, sep);
        lemma_split_on_sep_free(tail, sep);
        assert forall|k: int| 0 <= k < split_on(s, sep).len() implies count_char(
            #[trigger] split_on(s, sep)[k],
            sep,
        ) == 0 by {
            if k == 0 {
                assert(forall|j: int| 0 <= j < head.len() ==> head[j] == s[j] && s[j] != sep);
            } else {
                assert(split_on(s, sep)[k] == split_on(tail, sep)[k - 1]);
            }
        }
    }
}

/// Splitting loses nothing: rejoining the segments with the separator
/// gives the line back.
pub proof fn lemma_join_split_on(s: Seq<char>, sep: char)
    ensures
        join_with(split_on(s, sep), sep) == s,
    decreases s.len(),
{
    lemma_find_sep(s, sep);
    let i = find_sep(s, sep);
    if i == s.len() {
        assert(s.subrange(0, s.len() as int) =~= s);
        assert(split_on(s, sep)[0] =~= s);
    } else {
        let head = s.subrange(0, i);
        let tail = s.subrange(i + 1, s.len() as int);
        lemma_join_split_on(tail, sep);
        let segs = split_on(s, sep);
        lemma_split_on_len(tail, sep);
        assert(segs.len() >= 2);
        assert(segs[0] == head);
        assert(segs.drop_first() =~= split_on(tail, sep));
        assert(head + seq![sep] + tail =~= s);
    }
}

/// With no occurrence of the separator, the whole line is the one segment.
pub proof fn lemma_split_on_no_sep(s: Seq<char>, sep: char)
    requires
        count_char(s, sep) == 0,
    ensures
        split_on(s, sep) == seq![s],
{
    lemma_find_sep(s, sep);
    lemma_count_char_zero(s, sep);
    if find_sep(s, sep) < s.len() {
        assert(s[find_sep(s, sep)] == sep);
    }
}

/// The characters that separate one token from the next: the characters
/// with the Unicode white-space property.
pub open spec fn is_space_char(c: char) -> bool {
    ||| c == '\u{9}'
    ||| c == '\u{A}'
    ||| c == '\u{B}'
    ||| c == '\u{C}'
    ||| c == '\u{D}'
    ||| c == ' '
    ||| c == '\u{85}'
    ||| c == '\u{A0}'
    ||| c == '\u{1680}'
    ||| ('\u{2000}' <= c && c <= '\u{200A}')
    ||| c == '\u{2028}'
    ||| c == '\u{2029}'
    ||| c == '\u{202F}'
    ||| c == '\u{205F}'
    ||| c == '\u{3000}'
}

/// Index of the first whitespace character in `s`, or `s.len()` if there
/// is none.
pub open spec fn find_space(s: Seq<char>) -> int
    decreases s.len(),
{
    if s.len() == 0 {
        0
    } else if is_space_char(s[0]) {
        0
    } else {
        1 + find_space(s.drop_first())
    }
}

pub proof fn lemma_find_space(s: Seq<char>)
    ensures
        0 <= find_space(s) <= s.len(),
        find_space(s) < s.len() ==> is_space_char(s[find_space(s)]),
        forall|j: int| 0 <= j < find_space(s) ==> !is_space_char(s[j]),
    decreases s.len(),
{
    if s.len() == 0 {
    } else if is_space_char(s[0]) {
    } else {
        lemma_find_space(s.drop_first());
        assert forall|j: int| 0 <= j < find_space(s) implies !is_space_char(s[j]) by {
            if j > 0 {
                assert(s.drop_first()[j - 1] == s[j]);
            }
        }
    }
}

/// The whitespace-split tokens of `s`: the maximal runs of non-whitespace
/// characters, in order.  There are no empty tokens; a string of nothing
/// but whitespace has none at all.
pub open spec fn tokens_of(s: Seq<char>) -> Seq<Seq<char>>
    decreases s.len(),
    via tokens_of_decreases
{
    if s.len() == 0 {
        Seq::empty()
    } else if is_space_char(s[0]) {
        tokens_of(s.drop_first())
    } else {
        let i = find_space(s);
        seq![s.subrange(0, i)] + tokens_of(s.subrange(i, s.len() as int))
    }
}

#[via_fn]
proof fn tokens_of_decreases(s: Seq<char>) {
    if s.len() > 0 && !is_space_char(s[0]) {
        lemma_find_space(s);
        lemma_find_space(s.drop_first());
    }
}

/// The full plan for one input line: the line's segments, each tokenized.
pub open spec fn line_plan(s: Seq<char>) -> Seq<Seq<Seq<char>>> {
    split_on(s, '|').map_values(|t: Seq<char>| tokens_of(t))
}

/// A non-empty line without the segment separator becomes a command line
/// of exactly one stage, and that stage's tokens are the whitespace-split
/// tokens of the line.
pub proof fn lemma_single_stage_plan(s: Seq<char>)
    requires
        s.len() > 0,
        count_char(s, '|') == 0,
    ensures
        line_plan(s).len() == 1,
        line_plan(s) == seq![tokens_of(s)],
{
    lemma_split_on_no_sep(s, '|');
    assert(line_plan(s) =~= seq![tokens_of(s)]);
}

/// A line with k segment separators becomes a command line of k + 1
/// stages.
pub proof fn lemma_stage_count(s: Seq<char>)
    ensures
        line_plan(s).len() == count_char(s, '|') + 1,
{
    lemma_split_on_len(s, '|');
}

/// No token is empty, and no token holds a whitespace character: every
/// token is a run of non-whitespace.
pub proof fn lemma_tokens_nonempty(s: Seq<char>)
    ensures
        forall|k: int|
            0 <= k < tokens_of(s).len() ==> (#[trigger] tokens_of(s)[k]).len() > 0,
        forall|k: int, j: int|
            0 <= k < tokens_of(s).len() && 0 <= j < tokens_of(s)[k].len()
                ==> !is_space_char(#[trigger] tokens_of(s)[k][j]),
    decreases s.len(),
{
    if s.len() == 0 {
    } else if is_space_char(s[0]) {
        lemma_tokens_nonempty(s.drop_first());
        assert(tokens_of(s) == tokens_of(s.drop_first()));
        assert forall|k: int|
            0 <= k < tokens_of(s).len() implies (#[trigger] tokens_of(s)[k]).len() > 0 by {
            assert(tokens_of(s)[k] == tokens_of(s.drop_first())[k]);
        }
        assert forall|k: int, j: int|
            0 <= k < tokens_of(s).len() && 0 <= j < tokens_of(s)[k].len() implies !is_space_char(
            #[trigger] tokens_of(s)[k][j],
        ) by {
            assert(tokens_of(s)[k] == tokens_of(s.drop_first())[k]);
        }
    } else {
        lemma_find_space(s);
        lemma_find_space(s.drop_first());
        let i = find_space(s);
        assert(i >= 1);
        let rest_src = s.subrange(i, s.len() as int);
        lemma_tokens_nonempty(rest_src);
        let rest = tokens_of(rest_src);
        assert(tokens_of(s) == seq![s.subrange(0, i)] + rest);
        assert forall|k: int|
            0 <= k < tokens_of(s).len() implies (#[trigger] tokens_of(s)[k]).len() > 0 by {
            if k == 0 {
                assert(tokens_of(s)[0] == s.subrange(0, i));
            } else {
                assert(tokens_of(s)[k] == rest[k - 1]);
            }
        }
        assert forall|k: int, j: int|
            0 <= k < tokens_of(s).len() && 0 <= j < tokens_of(s)[k].len() implies !is_space_char(
            #[trigger] tokens_of(s)[k][j],
        ) by {
            if k == 0 {
                assert(tokens_of(s)[0] == s.subrange(0, i));
                assert(s.subrange(0, i)[j] == s[j]);
            } else {
                assert(tokens_of(s)[k] == rest[k - 1]);
            }
        }
    }
}

/// A stage string has no tokens at all exactly when it holds nothing but
/// whitespace — such a stage is invalid and is refused by the launch gate
/// before any process is created.
pub proof fn lemma_tokens_empty_iff(s: Seq<char>)
    ensures
        tokens_of(s).len() == 0 <==> (forall|j: int| 0 <= j < s.len() ==> is_space_char(s[j])),
    decreases s.len(),
{
    if s.len() == 0 {
    } else if is_space_char(s[0]) {
        lemma_tokens_empty_iff(s.drop_first());
        if tokens_of(s).len() == 0 {
            assert forall|j: int| 0 <= j < s.len() implies is_space_char(s[j]) by {
                if j > 0 {
                    assert(s.drop_first()[j - 1] == s[j]);
                }
            }
        } else {
            let j = choose|j: int|
                0 <= j < s.drop_first().len() && !is_space_char(s.drop_first()[j]);
            assert(!is_space_char(s[j + 1]));
        }
    } else {
        assert(!is_space_char(s[0]));
    }
}

pub fn char_is_space(c: char) -> (b: bool)
    ensures
        b == is_space_char(c),
{
    c == '\u{9}' || c == '\u{A}' || c == '\u{B}' || c == '\u{C}' || c == '\u{D}' || c == ' '
        || c == '\u{85}' || c == '\u{A0}' || c == '\u{1680}' || ('\u{2000}' <= c && c
        <= '\u{200A}') || c == '\u{2028}' || c == '\u{2029}' || c == '\u{202F}' || c == '\u{205F}'
        || c == '\u{3000}'
}

fn find_space_str(s: &str) -> (i: usize)
    ensures
        i as int == find_space(s@),
    decreases s@.len(),
{
    let n = s.unicode_len();
    if n == 0 {
        0
    } else if char_is_space(s.get_char(0)) {
        0
    } else {
        let rest = s.substring_char(1, n);
        proof {
            assert(rest@ =~= s@.drop_first());
            lemma_find_space(s@.drop_first());
        }
        let i = find_space_str(rest);
        1 + i
    }
}

fn find_sep_str(s: &str, sep: char) -> (i: usize)
    ensures
        i as int == find_sep(s@, sep),
    decreases s@.len(),
{
    let n = s.unicode_len();
    if n == 0 {
        0
    } else if s.get_char(0) == sep {
        0
    } else {
        let rest = s.substring_char(1, n);
        proof {
            assert(rest@ =~= s@.drop_first());
            lemma_find_sep(s@.drop_first(), sep);
        }
        let i = find_sep_str(rest, sep);
        1 + i
    }
}

/// Splits `s` on `sep`; there is always at least one segment.
pub fn split_str(s: &str, sep: char) -> (r: Vec<String>)
    ensures
        r@.len() > 0,
        r@.map_values(|t: String| t@) == split_on(s@, sep),
    decreases s@.len(),
{
    proof {
        lemma_find_sep(s@, sep);
    }
    let n = s.unicode_len();
    let i = find_sep_str(s, sep);
    if i == n {
        let mut v: Vec<String> = Vec::new();
        v.push(s.to_owned());
        proof {
            assert(v@.map_values(|t: String| t@) =~= seq![s@]);
        }
        v
    } else {
        let head = s.substring_char(0, i).to_owned();
        let tail = s.substring_char(i + 1, n);
        let mut rest = split_str(tail, sep);
        let mut v: Vec<String> = Vec::new();
        v.push(head);
        v.append(&mut rest);
        proof {
            assert(v@.map_values(|t: String| t@) =~= split_on(s@, sep));
        }
        v
    }
}

/// Divides a raw input line into its stage strings on the segment
/// separator `'|'`.  An empty line yields no command line at all; any other
/// line yields one stage string per segment, separators excluded.
pub fn parse_command_line(input: String) -> (r: Option<Vec<String>>)
    ensures
        r is None <==> input@.len() == 0,
        r matches Some(v) ==> v@.len() > 0 && v@.map_values(|t: String| t@) == split_on(
            input@,
            '|',
        ),
{
    if input.as_str().unicode_len() == 0 {
        None
    } else {
        Some(split_str(input.as_str(), '|'))
    }
}

/// The whitespace-split tokens of one stage string: the maximal runs of
/// non-whitespace characters, in order.  No token is empty; a stage
/// string of nothing but whitespace yields no tokens.
pub fn tokenize_stage(stage: &str) -> (r: Vec<String>)
    ensures
        r@.map_values(|t: String| t@) == tokens_of(stage@),
    decreases stage@.len(),
{
    let n = stage.unicode_len();
    if n == 0 {
        let v: Vec<String> = Vec::new();
        proof {
            assert(v@.map_values(|t: String| t@) =~= tokens_of(stage@));
        }
        v
    } else if char_is_space(stage.get_char(0)) {
        let rest = stage.substring_char(1, n);
        proof {
            assert(rest@ =~= stage@.drop_first());
        }
        tokenize_stage(rest)
    } else {
        proof {
            lemma_find_space(stage@);
            lemma_find_space(stage@.drop_first());
        }
        let i = find_space_str(stage);
        let head = stage.substring_char(0, i).to_owned();
        let tail = stage.substring_char(i, n);
        let mut rest = tokenize_stage(tail);
        let mut v: Vec<String> = Vec::new();
        v.push(head);
        v.append(&mut rest);
        proof {
            assert(v@.map_values(|t: String| t@) =~= tokens_of(stage@));
        }
        v
    }
}

} // verus!
