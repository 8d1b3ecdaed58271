//! Word-motion analysis. A line is tokenized into maximal runs of either
//! word characters (alphanumeric or underscore) or punctuation characters
//! (non-word, non-whitespace); whitespace separates tokens and matches
//! nothing. Each token carries `[start, end)` character offsets.

use vstd::prelude::*;

verus! {

/// Whether a character is alphanumeric; names `char::is_alphanumeric`.
pub uninterp spec fn alnum(c: char) -> bool;

/// Whether a character is whitespace; names `char::is_whitespace`.
pub uninterp spec fn white(c: char) -> bool;

/// Relies on `char::is_alphanumeric`: the result depends on the character
/// alone.
#[verifier::external_body]
fn char_is_alphanumeric(c: char) -> (r: bool)
    ensures
        r == alnum(c),
{
    c.is_alphanumeric()
}

/// Relies on `char::is_whitespace`: the result depends on the character
/// alone.
#[verifier::external_body]
fn char_is_whitespace(c: char) -> (r: bool)
    ensures
        r == white(c),
{
    c.is_whitespace()
}

/// A word character: alphanumeric or underscore.
pub open spec fn word_char(c: char) -> bool {
    alnum(c) || c == '_'
}

/// A punctuation character: neither a word character nor whitespace.
pub open spec fn punct_char(c: char) -> bool {
    !word_char(c) && !white(c)
}

/// Two characters extend the same kind of token run.
pub open spec fn same_class(a: char, b: char) -> bool {
    (word_char(a) && word_char(b)) || (punct_char(a) && punct_char(b))
}

fn is_word_char(c: char) -> (r: bool)
    ensures
        r == word_char(c),
{
    char_is_alphanumeric(c) || c == '_'
}

fn chars_same_class(a: char, b: char) -> (r: bool)
    ensures
        r == same_class(a, b),
{
    let wa = is_word_char(a);
    let wb = is_word_char(b);
    if wa && wb {
        true
    } else {
        let pa = !wa && !char_is_whitespace(a);
        let pb = !wb && !char_is_whitespace(b);
        pa && pb
    }
}

/// The first offset at or after `i` that no longer extends a run of the
/// class of `s[start]`.
pub open spec fn run_end(s: Seq<char>, start: int, i: int) -> int
    decreases s.len() - i,
{
    if i < 0 || i >= s.len() {
        i
    } else if same_class(s[start], s[i]) {
        run_end(s, start, i + 1)
    } else {
        i
    }
}

pub proof fn lemma_run_end_bounds(s: Seq<char>, start: int, i: int)
    requires
        0 <= i <= s.len(),
    ensures
        i <= run_end(s, start, i) <= s.len(),
    decreases s.len() - i,
{
    if i < s.len() && same_class(s[start], s[i]) {
        lemma_run_end_bounds(s, start, i + 1);
    }
}

/// The tokens of `s` from offset `i` on, as `(start, end)` offset pairs in
/// order.
pub open spec fn tokens_from(s: Seq<char>, i: int) -> Seq<(int, int)>
    decreases s.len() - i,
{
    if i < 0 || i >= s.len() {
        Seq::empty()
    } else if white(s[i]) {
        tokens_from(s, i + 1)
    } else {
        proof {
            lemma_run_end_bounds(s, i, i + 1);
        }
        seq![(i, run_end(s, i, i + 1))] + tokens_from(s, run_end(s, i, i + 1))
    }
}

/// The tokens of a whole line.
pub open spec fn line_tokens(s: Seq<char>) -> Seq<(int, int)> {
    tokens_from(s, 0)
}

/// A token: a maximal run of word or punctuation characters, as `[start,
/// end)` character offsets.
#[derive(Clone, Copy, PartialEq, Eq, Structural, Debug)]
pub struct Token {
    pub start: usize,
    pub end: usize,
}

/// The offset pairs of a sequence of tokens.
pub open spec fn token_pairs(ts: Seq<Token>) -> Seq<(int, int)> {
    ts.map(|i: int, t: Token| (t.start as int, t.end as int))
}

fn run_end_from(line: &Vec<char>, start: usize, from: usize) -> (e: usize)
    requires
        start < line@.len(),
        from <= line@.len(),
    ensures
        e == run_end(line@, start as int, from as int),
    decreases line@.len() - from,
{
    if from < line.len() {
        if chars_same_class(line[start], line[from]) {
            run_end_from(line, start, from + 1)
        } else {
            from
        }
    } else {
        from
    }
}

/// Tokenizes a line into its maximal word and punctuation runs, in order.
pub fn tokenize(line: &Vec<char>) -> (ts: Vec<Token>)
    ensures
        token_pairs(ts@) == line_tokens(line@),
        forall|j: int| 0 <= j < ts@.len() ==> (#[trigger] ts@[j]).start < ts@[j].end <= line@.len(),
{
    let n = line.len();
    let mut ts: Vec<Token> = Vec::new();
    let mut i: usize = 0;
    proof {
        assert(token_pairs(ts@) + tokens_from(line@, 0) =~= tokens_from(line@, 0));
    }
    while i < n
        invariant
            n == line@.len(),
            i <= n,
            token_pairs(ts@) + tokens_from(line@, i as int) == tokens_from(line@, 0),
            forall|j: int| 0 <= j < ts@.len() ==> (#[trigger] ts@[j]).start < ts@[j].end <= line@.len(),
        decreases n - i,
    {
        if char_is_whitespace(line[i]) {
            proof {
                assert(tokens_from(line@, i as int) == tokens_from(line@, i as int + 1));
            }
            i += 1;
        } else {
            let e = run_end_from(line, i, i + 1);
            proof {
                lemma_run_end_bounds(line@, i as int, i as int + 1);
            }
            let ghost pairs_before = token_pairs(ts@);
            ts.push(Token { start: i, end: e });
            proof {
                let s = line@;
                assert(token_pairs(ts@) =~= pairs_before + seq![(i as int, e as int)]);
                assert(tokens_from(s, i as int) == seq![(i as int, e as int)] + tokens_from(
                    s,
                    e as int,
                ));
                assert(token_pairs(ts@) + tokens_from(s, e as int) =~= tokens_from(s, 0));
            }
            i = e;
        }
    }
    proof {
        assert(token_pairs(ts@) =~= tokens_from(line@, 0));
    }
    ts
}

/// `[start, end)` is a token as the grammar has it: a maximal run of one
/// class, starting outside whitespace, that no neighbouring character
/// extends.
pub open spec fn is_token(s: Seq<char>, start: int, end: int) -> bool {
    &&& 0 <= start < end <= s.len()
    &&& !white(s[start])
    &&& (forall|j: int| start <= j < end ==> same_class(s[start], #[trigger] s[j]))
    &&& (start == 0 || white(s[start - 1]) || !same_class(s[start - 1], s[start]))
    &&& (end == s.len() || !same_class(s[start], s[end]))
}

proof fn lemma_run_end_run(s: Seq<char>, start: int, j: int)
    requires
        0 <= j <= s.len(),
    ensures
        forall|m: int| j <= m < run_end(s, start, j) ==> same_class(s[start], #[trigger] s[m]),
        run_end(s, start, j) == s.len() || !same_class(s[start], s[run_end(s, start, j)]),
    decreases s.len() - j,
{
    if j < s.len() && same_class(s[start], s[j]) {
        lemma_run_end_run(s, start, j + 1);
    }
}

proof fn lemma_tokens_from_bounds(s: Seq<char>, i: int)
    requires
        0 <= i <= s.len(),
    ensures
        forall|k: int|
            0 <= k < tokens_from(s, i).len() ==> i <= (#[trigger] tokens_from(s, i)[k]).0
                < tokens_from(s, i)[k].1 <= s.len(),
    decreases s.len() - i,
{
    if i >= s.len() {
    } else if white(s[i]) {
        lemma_tokens_from_bounds(s, i + 1);
        assert forall|k: int| 0 <= k < tokens_from(s, i).len() implies i
            <= (#[trigger] tokens_from(s, i)[k]).0 < tokens_from(s, i)[k].1 <= s.len() by {
            assert(tokens_from(s, i)[k] == tokens_from(s, i + 1)[k]);
        }
    } else {
        let e = run_end(s, i, i + 1);
        lemma_run_end_bounds(s, i, i + 1);
        lemma_tokens_from_bounds(s, e);
        let ts = tokens_from(s, i);
        let rest = tokens_from(s, e);
        assert(ts == seq![(i, e)] + rest);
        assert forall|k: int| 0 <= k < ts.len() implies i <= (#[trigger] ts[k]).0 < ts[k].1
            <= s.len() by {
            if k == 0 {
                assert(ts[0] == (i, e));
            } else {
                assert(ts[k] == rest[k - 1]);
            }
        }
    }
}

proof fn lemma_tokens_from_are_tokens(s: Seq<char>, i: int)
    requires
        0 <= i <= s.len(),
        i == 0 || i == s.len() || white(s[i - 1]) || !same_class(s[i - 1], s[i]),
    ensures
        forall|k: int|
            0 <= k < tokens_from(s, i).len() ==> is_token(
                s,
                (#[trigger] tokens_from(s, i)[k]).0,
                tokens_from(s, i)[k].1,
            ),
    decreases s.len() - i,
{
    if i >= s.len() {
    } else if white(s[i]) {
        lemma_tokens_from_are_tokens(s, i + 1);
        assert forall|k: int| 0 <= k < tokens_from(s, i).len() implies is_token(
            s,
            (#[trigger] tokens_from(s, i)[k]).0,
            tokens_from(s, i)[k].1,
        ) by {
            assert(tokens_from(s, i)[k] == tokens_from(s, i + 1)[k]);
        }
    } else {
        let e = run_end(s, i, i + 1);
        lemma_run_end_bounds(s, i, i + 1);
        lemma_run_end_run(s, i, i + 1);
        assert(is_token(s, i, e));
        lemma_tokens_from_are_tokens(s, e);
        let ts = tokens_from(s, i);
        let rest = tokens_from(s, e);
        assert(ts == seq![(i, e)] + rest);
        assert forall|k: int| 0 <= k < ts.len() implies is_token(
            s,
            (#[trigger] ts[k]).0,
            ts[k].1,
        ) by {
            if k == 0 {
                assert(ts[0] == (i, e));
            } else {
                assert(ts[k] == rest[k - 1]);
            }
        }
    }
}

proof fn lemma_tokens_from_covering(s: Seq<char>, i: int)
    requires
        0 <= i <= s.len(),
    ensures
        forall|j: int|
            i <= j < s.len() && !(#[trigger] white(s[j])) ==> exists|k: int|
                0 <= k < tokens_from(s, i).len() && (#[trigger] tokens_from(s, i)[k]).0 <= j
                    < tokens_from(s, i)[k].1,
    decreases s.len() - i,
{
    if i >= s.len() {
    } else if white(s[i]) {
        lemma_tokens_from_covering(s, i + 1);
        assert forall|j: int| i <= j < s.len() && !(#[trigger] white(s[j])) implies exists|k: int|
            0 <= k < tokens_from(s, i).len() && (#[trigger] tokens_from(s, i)[k]).0 <= j
                < tokens_from(s, i)[k].1 by {
            let k0 = choose|k: int|
                0 <= k < tokens_from(s, i + 1).len() && (#[trigger] tokens_from(s, i + 1)[k]).0
                    <= j < tokens_from(s, i + 1)[k].1;
            assert(tokens_from(s, i)[k0] == tokens_from(s, i + 1)[k0]);
            assert(0 <= k0 < tokens_from(s, i).len() && tokens_from(s, i)[k0].0 <= j
                < tokens_from(s, i)[k0].1);
        }
    } else {
        let e = run_end(s, i, i + 1);
        lemma_run_end_bounds(s, i, i + 1);
        lemma_tokens_from_covering(s, e);
        let ts = tokens_from(s, i);
        let rest = tokens_from(s, e);
        assert(ts == seq![(i, e)] + rest);
        assert forall|j: int| i <= j < s.len() && !(#[trigger] white(s[j])) implies exists|k: int|
            0 <= k < ts.len() && (#[trigger] ts[k]).0 <= j < ts[k].1 by {
            if j < e {
                assert(ts[0] == (i, e));
                assert(0 <= 0 < ts.len() && ts[0].0 <= j < ts[0].1);
            } else {
                let k0 = choose|k: int|
                    0 <= k < rest.len() && (#[trigger] rest[k]).0 <= j < rest[k].1;
                assert(ts[k0 + 1] == rest[k0]);
                assert(0 <= k0 + 1 < ts.len() && ts[k0 + 1].0 <= j < ts[k0 + 1].1);
            }
        }
    }
}

/// A line's tokens are exactly its maximal word and punctuation runs, in
/// order: each token is such a run, later tokens start no earlier than
/// earlier ones end, and every character outside whitespace lies in one.
pub proof fn lemma_line_tokens_are_the_maximal_runs(s: Seq<char>)
    ensures
        forall|k: int|
            0 <= k < line_tokens(s).len() ==> is_token(
                s,
                (#[trigger] line_tokens(s)[k]).0,
                line_tokens(s)[k].1,
            ),
        forall|k: int|
            0 <= k < line_tokens(s).len() - 1 ==> (#[trigger] line_tokens(s)[k]).1 <= line_tokens(
                s,
            )[k + 1].0,
        forall|j: int|
            0 <= j < s.len() && !(#[trigger] white(s[j])) ==> exists|k: int|
                0 <= k < line_tokens(s).len() && (#[trigger] line_tokens(s)[k]).0 <= j
                    < line_tokens(s)[k].1,
{
    lemma_tokens_from_bounds(s, 0);
    lemma_tokens_from_are_tokens(s, 0);
    lemma_tokens_from_covering(s, 0);
    lemma_tokens_from_ordered(s, 0);
    assert forall|k: int| 0 <= k < line_tokens(s).len() implies is_token(
        s,
        (#[trigger] line_tokens(s)[k]).0,
        line_tokens(s)[k].1,
    ) by {
        assert(line_tokens(s)[k] == tokens_from(s, 0)[k]);
    }
    assert forall|k: int| 0 <= k < line_tokens(s).len() - 1 implies (
    #[trigger] line_tokens(s)[k]).1 <= line_tokens(s)[k + 1].0 by {
        assert(line_tokens(s)[k] == tokens_from(s, 0)[k]);
        assert(line_tokens(s)[k + 1] == tokens_from(s, 0)[k + 1]);
    }
    assert forall|j: int| 0 <= j < s.len() && !(#[trigger] white(s[j])) implies exists|k: int|
        0 <= k < line_tokens(s).len() && (#[trigger] line_tokens(s)[k]).0 <= j < line_tokens(
        s,
    )[k].1 by {
        let k0 = choose|k: int|
            0 <= k < tokens_from(s, 0).len() && (#[trigger] tokens_from(s, 0)[k]).0 <= j
                < tokens_from(s, 0)[k].1;
        assert(line_tokens(s)[k0] == tokens_from(s, 0)[k0]);
        assert(0 <= k0 < line_tokens(s).len() && line_tokens(s)[k0].0 <= j < line_tokens(s)[k0].1);
    }
}

proof fn lemma_tokens_from_ordered(s: Seq<char>, i: int)
    requires
        0 <= i <= s.len(),
    ensures
        forall|k: int|
            0 <= k < tokens_from(s, i).len() - 1 ==> (#[trigger] tokens_from(s, i)[k]).1
                <= tokens_from(s, i)[k + 1].0,
    decreases s.len() - i,
{
    if i >= s.len() {
    } else if white(s[i]) {
        lemma_tokens_from_ordered(s, i + 1);
        assert forall|k: int| 0 <= k < tokens_from(s, i).len() - 1 implies (
        #[trigger] tokens_from(s, i)[k]).1 <= tokens_from(s, i)[k + 1].0 by {
            assert(tokens_from(s, i)[k] == tokens_from(s, i + 1)[k]);
            assert(tokens_from(s, i)[k + 1] == tokens_from(s, i + 1)[k + 1]);
        }
    } else {
        let e = run_end(s, i, i + 1);
        lemma_run_end_bounds(s, i, i + 1);
        lemma_tokens_from_ordered(s, e);
        lemma_tokens_from_bounds(s, e);
        let ts = tokens_from(s, i);
        let rest = tokens_from(s, e);
        assert(ts == seq![(i, e)] + rest);
        assert forall|k: int| 0 <= k < ts.len() - 1 implies (#[trigger] ts[k]).1 <= ts[k + 1].0 by {
            if k == 0 {
                assert(ts[0] == (i, e));
                assert(ts[1] == rest[0]);
            } else {
                assert(ts[k] == rest[k - 1]);
                assert(ts[k + 1] == rest[k]);
            }
        }
    }
}

/// The start of the right-most token lying fully left of `col`: the last
/// token of the line truncated at `col`.
pub open spec fn spec_prev_word_start(s: Seq<char>, col: int) -> Option<int> {
    let ts = tokens_from(s.subrange(0, col), 0);
    if ts.len() == 0 {
        None
    } else {
        Some(ts.last().0)
    }
}

/// The next word end strictly right of `col`, skipping ahead one token when
/// the cursor already sits on a token's last character.
pub open spec fn next_end_from(ts: Seq<(int, int)>, col: int) -> Option<int>
    decreases ts.len(),
{
    if ts.len() == 0 {
        None
    } else if ts[0].1 <= col {
        next_end_from(ts.drop_first(), col)
    } else if ts[0].1 - 1 == col {
        if ts.len() >= 2 {
            Some(ts[1].1 - 1)
        } else {
            None
        }
    } else {
        Some(ts[0].1 - 1)
    }
}

pub open spec fn spec_next_word_end(s: Seq<char>, col: int) -> Option<int> {
    next_end_from(line_tokens(s), col)
}

/// The start of the token after the first one reaching past `col`, skipping
/// ahead one more when the cursor already sits on that start.
pub open spec fn next_start_from(ts: Seq<(int, int)>, col: int) -> Option<int>
    decreases ts.len(),
{
    if ts.len() == 0 {
        None
    } else if ts[0].1 <= col {
        next_start_from(ts.drop_first(), col)
    } else if ts.len() < 2 {
        None
    } else if ts[1].0 == col {
        if ts.len() >= 3 {
            Some(ts[2].0)
        } else {
            None
        }
    } else {
        Some(ts[1].0)
    }
}

pub open spec fn spec_next_word_start(s: Seq<char>, col: int) -> Option<int> {
    next_start_from(line_tokens(s), col)
}

/// The end of a line's first token, or offset 0 when the line has none.
pub open spec fn spec_first_word_end(s: Seq<char>) -> int {
    let ts = line_tokens(s);
    if ts.len() == 0 {
        0
    } else {
        ts[0].1 - 1
    }
}

/// The start of a line's first token, or offset 0 when the line has none.
pub open spec fn spec_first_word_start(s: Seq<char>) -> int {
    let ts = line_tokens(s);
    if ts.len() == 0 {
        0
    } else {
        ts[0].0
    }
}

/// The start of a line's last token, or offset 0 when the line has none.
pub open spec fn spec_last_word_start(s: Seq<char>) -> int {
    let ts = line_tokens(s);
    if ts.len() == 0 {
        0
    } else {
        ts.last().0
    }
}

/// Whether an optional exec offset matches an optional spec offset.
pub open spec fn opt_matches(r: Option<usize>, s: Option<int>) -> bool {
    match (r, s) {
        (Some(a), Some(b)) => a == b,
        (None, None) => true,
        _ => false,
    }
}

/// The start of the right-most token fully left of `col` on this line.
pub fn prev_word_start(line: &Vec<char>, col: usize) -> (r: Option<usize>)
    requires
        col <= line@.len(),
    ensures
        opt_matches(r, spec_prev_word_start(line@, col as int)),
{
    let mut prefix: Vec<char> = Vec::new();
    let mut k: usize = 0;
    proof {
        assert(prefix@ =~= line@.subrange(0, 0));
    }
    while k < col
        invariant
            col <= line@.len(),
            k <= col,
            prefix@ == line@.subrange(0, k as int),
        decreases col - k,
    {
        prefix.push(line[k]);
        proof {
            assert(prefix@ =~= line@.subrange(0, k as int + 1));
        }
        k += 1;
    }
    let ts = tokenize(&prefix);
    if ts.len() == 0 {
        None
    } else {
        let t = ts[ts.len() - 1];
        proof {
            let pairs = token_pairs(ts@);
            assert(pairs[pairs.len() - 1] == (t.start as int, t.end as int));
        }
        Some(t.start)
    }
}

fn next_end_scan(ts: &Vec<Token>, k: usize, col: usize) -> (r: Option<usize>)
    requires
        k <= ts@.len(),
        forall|j: int| 0 <= j < ts@.len() ==> (#[trigger] ts@[j]).start < ts@[j].end,
    ensures
        opt_matches(r, next_end_from(token_pairs(ts@).skip(k as int), col as int)),
    decreases ts@.len() - k,
{
    proof {
        let pairs = token_pairs(ts@);
        if k < ts@.len() {
            assert(pairs.skip(k as int)[0] == pairs[k as int]);
            assert(pairs[k as int] == (ts@[k as int].start as int, ts@[k as int].end as int));
        }
    }
    if k == ts.len() {
        None
    } else if ts[k].end <= col {
        proof {
            let pairs = token_pairs(ts@);
            assert(pairs.skip(k as int).drop_first() =~= pairs.skip(k as int + 1));
        }
        next_end_scan(ts, k + 1, col)
    } else if ts[k].end - 1 == col {
        if k + 1 < ts.len() {
            proof {
                let pairs = token_pairs(ts@);
                assert(pairs.skip(k as int)[1] == pairs[k as int + 1]);
                assert(pairs[k as int + 1] == (
                    ts@[k as int + 1].start as int,
                    ts@[k as int + 1].end as int,
                ));
            }
            Some(ts[k + 1].end - 1)
        } else {
            None
        }
    } else {
        Some(ts[k].end - 1)
    }
}

/// The next word end on this line, with the skip-ahead rule when the cursor
/// already sits on a word's last character.
pub fn next_word_end(line: &Vec<char>, col: usize) -> (r: Option<usize>)
    ensures
        opt_matches(r, spec_next_word_end(line@, col as int)),
{
    let ts = tokenize(line);
    let r = next_end_scan(&ts, 0, col);
    proof {
        assert(token_pairs(ts@).skip(0) =~= line_tokens(line@));
    }
    r
}

fn next_start_scan(ts: &Vec<Token>, k: usize, col: usize) -> (r: Option<usize>)
    requires
        k <= ts@.len(),
    ensures
        opt_matches(r, next_start_from(token_pairs(ts@).skip(k as int), col as int)),
    decreases ts@.len() - k,
{
    proof {
        let pairs = token_pairs(ts@);
        if k < ts@.len() {
            assert(pairs.skip(k as int)[0] == pairs[k as int]);
            assert(pairs[k as int] == (ts@[k as int].start as int, ts@[k as int].end as int));
        }
    }
    if k == ts.len() {
        None
    } else if ts[k].end <= col {
        proof {
            let pairs = token_pairs(ts@);
            assert(pairs.skip(k as int).drop_first() =~= pairs.skip(k as int + 1));
        }
        next_start_scan(ts, k + 1, col)
    } else if k + 1 >= ts.len() {
        None
    } else {
        proof {
            let pairs = token_pairs(ts@);
            assert(pairs.skip(k as int)[1] == pairs[k as int + 1]);
            assert(pairs[k as int + 1] == (
                ts@[k as int + 1].start as int,
                ts@[k as int + 1].end as int,
            ));
        }
        if ts[k + 1].start == col {
            if k + 2 < ts.len() {
                proof {
                    let pairs = token_pairs(ts@);
                    assert(pairs.skip(k as int)[2] == pairs[k as int + 2]);
                    assert(pairs[k as int + 2] == (
                        ts@[k as int + 2].start as int,
                        ts@[k as int + 2].end as int,
                    ));
                }
                Some(ts[k + 2].start)
            } else {
                None
            }
        } else {
            Some(ts[k + 1].start)
        }
    }
}

/// The next word start on this line, with the skip-ahead rule when the
/// cursor already sits on a word's start.
pub fn next_word_start(line: &Vec<char>, col: usize) -> (r: Option<usize>)
    ensures
        opt_matches(r, spec_next_word_start(line@, col as int)),
{
    let ts = tokenize(line);
    let r = next_start_scan(&ts, 0, col);
    proof {
        assert(token_pairs(ts@).skip(0) =~= line_tokens(line@));
    }
    r
}

/// The end of this line's first word, or offset 0 when it has none.
pub fn first_word_end(line: &Vec<char>) -> (r: usize)
    ensures
        r == spec_first_word_end(line@),
{
    let ts = tokenize(line);
    if ts.len() == 0 {
        0
    } else {
        let t = ts[0];
        proof {
            assert(token_pairs(ts@)[0] == (t.start as int, t.end as int));
        }
        t.end - 1
    }
}

/// The start of this line's first word, or offset 0 when it has none.
pub fn first_word_start(line: &Vec<char>) -> (r: usize)
    ensures
        r == spec_first_word_start(line@),
{
    let ts = tokenize(line);
    if ts.len() == 0 {
        0
    } else {
        let t = ts[0];
        proof {
            assert(token_pairs(ts@)[0] == (t.start as int, t.end as int));
        }
        t.start
    }
}

/// The start of this line's last word, or offset 0 when it has none.
pub fn last_word_start(line: &Vec<char>) -> (r: usize)
    ensures
        r == spec_last_word_start(line@),
{
    let ts = tokenize(line);
    if ts.len() == 0 {
        0
    } else {
        let t = ts[ts.len() - 1];
        proof {
            let pairs = token_pairs(ts@);
            assert(pairs[pairs.len() - 1] == (t.start as int, t.end as int));
        }
        t.start
    }
}

} // verus!
