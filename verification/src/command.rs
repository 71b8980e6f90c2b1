use vstd::prelude::*;

verus! {

/// A structured subprocess invocation: a program name and its arguments, in
/// order. Built once from a command template; a process-spawning host takes
/// it from there. No shell semantics are implied beyond the quoting rules of
/// the tokenizer that built it.
#[derive(Debug)]
pub struct Invocation {
    pub program: String,
    pub arguments: Vec<String>,
}

/// The whitespace the template trimming strips: the ASCII whitespace
/// characters. Tokens are then split on the plain space alone.
pub open spec fn is_space_char(c: char) -> bool {
    c == ' ' || c == '\t' || c == '\n' || c == '\r' || c == '\x0b' || c == '\x0c'
}

/// A character that opens or closes a quoted run.
pub open spec fn is_quote_char(c: char) -> bool {
    c == '"' || c == '\''
}

/// `s` with its leading whitespace stripped.
pub open spec fn trim_start_spec(s: Seq<char>) -> Seq<char>
    decreases s.len(),
{
    if s.len() > 0 && is_space_char(s.first()) {
        trim_start_spec(s.drop_first())
    } else {
        s
    }
}

/// `s` with its trailing whitespace stripped.
pub open spec fn trim_end_spec(s: Seq<char>) -> Seq<char>
    decreases s.len(),
{
    if s.len() > 0 && is_space_char(s.last()) {
        trim_end_spec(s.drop_last())
    } else {
        s
    }
}

/// `s` with leading and trailing whitespace stripped.
pub open spec fn trim_spec(s: Seq<char>) -> Seq<char> {
    trim_end_spec(trim_start_spec(s))
}

/// The index of the first space of `s`, or its length when it has none.
pub open spec fn first_space(s: Seq<char>) -> int
    decreases s.len(),
{
    if s.len() == 0 {
        0
    } else if s.first() == ' ' {
        0
    } else {
        1 + first_space(s.drop_first())
    }
}

/// What [`first_space`] returns: a position within `s`, holding a space
/// unless it is the length, with no space before it.
pub proof fn lemma_first_space_bounds(s: Seq<char>)
    ensures
        0 <= first_space(s) <= s.len(),
        first_space(s) < s.len() ==> s[first_space(s)] == ' ',
        forall|j: int| 0 <= j < first_space(s) ==> s[j] != ' ',
    decreases s.len(),
{
    if s.len() > 0 && s.first() != ' ' {
        lemma_first_space_bounds(s.drop_first());
        assert forall|j: int| 0 <= j < first_space(s) implies s[j] != ' ' by {
            if j >= 1 {
                assert(s[j] == s.drop_first()[j - 1]);
                assert(s.drop_first()[j - 1] != ' ');
            }
        }
    }
}

/// The raw tokens of `s`: the runs between its spaces, in order. Every
/// space separates two tokens, so adjacent spaces yield empty tokens and
/// the empty text yields one empty token.
pub open spec fn split_on_space(s: Seq<char>) -> Seq<Seq<char>>
    decreases s.len(),
    via split_on_space_decreases
{
    let k = first_space(s);
    if k >= s.len() {
        seq![s]
    } else {
        seq![s.take(k)] + split_on_space(s.skip(k + 1))
    }
}

#[via_fn]
proof fn split_on_space_decreases(s: Seq<char>) {
    lemma_first_space_bounds(s);
}

/// The fragments joined by single spaces, in order.
pub open spec fn join_spaces(frags: Seq<Seq<char>>) -> Seq<char>
    decreases frags.len(),
{
    if frags.len() == 0 {
        Seq::empty()
    } else if frags.len() == 1 {
        frags[0]
    } else {
        join_spaces(frags.drop_last()) + " "@ + frags.last()
    }
}

/// The arguments resolved from the raw tokens `toks`. A token that opens
/// and closes with the same quote character loses both quotes and stands as
/// one argument; one that only opens a quote starts a quoted run resolved
/// by [`resolve_quoted`]; any other token — including an empty one and a
/// token that is a single bare quote character — stands verbatim.
pub open spec fn resolve_args(toks: Seq<Seq<char>>) -> Seq<Seq<char>>
    decreases toks.len(), 1int,
{
    if toks.len() == 0 {
        Seq::empty()
    } else {
        let t = toks.first();
        if t.len() >= 2 && is_quote_char(t.first()) && t.last() == t.first() {
            seq![t.subrange(1, t.len() - 1)] + resolve_args(toks.drop_first())
        } else if t.len() >= 2 && is_quote_char(t.first()) {
            resolve_quoted(t.first(), seq![t.drop_first()], toks.drop_first())
        } else {
            seq![t] + resolve_args(toks.drop_first())
        }
    }
}

/// A quoted run in progress: `frags` are the fragments gathered so far
/// (the opening quote already stripped from the first). A token ending in
/// the active quote closes the run; the fragments, joined by single spaces,
/// stand as one argument. If the tokens run out first, the run is
/// unterminated and each gathered fragment stands as its own argument.
pub open spec fn resolve_quoted(quote: char, frags: Seq<Seq<char>>, toks: Seq<Seq<char>>) -> Seq<
    Seq<char>,
>
    decreases toks.len(), 0int,
{
    if toks.len() == 0 {
        frags
    } else {
        let t = toks.first();
        if t.len() >= 1 && t.last() == quote {
            seq![join_spaces(frags.push(t.drop_last()))] + resolve_args(toks.drop_first())
        } else {
            resolve_quoted(quote, frags.push(t), toks.drop_first())
        }
    }
}

/// The raw tokens of a template: trimmed, then split on spaces.
pub open spec fn raw_tokens(template: Seq<char>) -> Seq<Seq<char>> {
    split_on_space(trim_spec(template))
}

/// The program name a template yields: its first raw token. An all-space
/// template yields the empty name.
pub open spec fn spec_program(template: Seq<char>) -> Seq<char> {
    raw_tokens(template).first()
}

/// The arguments a template yields: the remaining raw tokens, resolved.
pub open spec fn spec_arguments(template: Seq<char>) -> Seq<Seq<char>> {
    resolve_args(raw_tokens(template).drop_first())
}

/// The character sequences of a sequence of strings.
pub open spec fn seq_views(strings: Seq<String>) -> Seq<Seq<char>> {
    strings.map_values(|s: String| s@)
}

/// Where the leading spaces end, trimming the start begins: with spaces
/// exactly on `[0, k)`, the trimmed text is the suffix from `k`.
proof fn lemma_trim_start_at(s: Seq<char>, k: int)
    requires
        0 <= k <= s.len(),
        forall|j: int| 0 <= j < k ==> is_space_char(s[j]),
        k < s.len() ==> !is_space_char(s[k]),
    ensures
        trim_start_spec(s) == s.skip(k),
    decreases k,
{
    if k == 0 {
        assert(s.skip(0) =~= s);
    } else {
        lemma_trim_start_at(s.drop_first(), k - 1);
        assert(s.drop_first().skip(k - 1) =~= s.skip(k));
    }
}

/// With spaces exactly on `[k, len)` of `s`, trimming the end keeps the
/// prefix up to `k`.
proof fn lemma_trim_end_at(s: Seq<char>, k: int)
    requires
        0 <= k <= s.len(),
        forall|j: int| k <= j < s.len() ==> is_space_char(s[j]),
        k > 0 ==> !is_space_char(s[k - 1]),
    ensures
        trim_end_spec(s) == s.take(k),
    decreases s.len() - k,
{
    if k == s.len() {
        assert(s.take(k) =~= s);
    } else {
        lemma_trim_end_at(s.drop_last(), k);
        assert(s.drop_last().take(k) =~= s.take(k));
    }
}

/// With no space on `[0, k)` of `s` and a space at `k` (or `k` the length),
/// the first space of `s` is at `k`.
proof fn lemma_first_space_at(s: Seq<char>, k: int)
    requires
        0 <= k <= s.len(),
        forall|j: int| 0 <= j < k ==> s[j] != ' ',
        k < s.len() ==> s[k] == ' ',
    ensures
        first_space(s) == k,
    decreases k,
{
    if k == 0 {
    } else {
        lemma_first_space_at(s.drop_first(), k - 1);
    }
}

/// Whether `c` is stripped by trimming.
fn is_space(c: char) -> (result: bool)
    ensures
        result == is_space_char(c),
{
    c == ' ' || c == '\t' || c == '\n' || c == '\r' || c == '\x0b' || c == '\x0c'
}

/// Whether `c` opens or closes a quoted run.
fn is_quote(c: char) -> (result: bool)
    ensures
        result == is_quote_char(c),
{
    c == '"' || c == '\''
}

/// Copies the characters `[from, to)` of `s` into a fresh string.
fn copy_range(s: &str, from: usize, to: usize) -> (out: String)
    requires
        from <= to <= s@.len(),
    ensures
        out@ == s@.subrange(from as int, to as int),
{
    s.substring_char(from, to).to_owned()
}

/// Copies the characters `[from, to)` of `s` into a fresh string.
fn copy_string_range(s: &String, from: usize, to: usize) -> (out: String)
    requires
        from <= to <= s@.len(),
    ensures
        out@ == s@.subrange(from as int, to as int),
{
    s.as_str().substring_char(from, to).to_owned()
}

/// A vector opening with `first`, then the elements of `rest` in order.
fn prepend(first: String, rest: Vec<String>) -> (out: Vec<String>)
    ensures
        out@ == seq![first] + rest@,
{
    let mut out: Vec<String> = Vec::new();
    out.push(first);
    let mut tail = rest;
    let ghost tail0 = tail@;
    out.append(&mut tail);
    proof {
        assert(out@ =~= seq![first] + tail0);
    }
    out
}

/// The raw tokens of `template`: trimmed, then split on spaces.
fn split_template(template: &str) -> (tokens: Vec<String>)
    ensures
        seq_views(tokens@) == raw_tokens(template@),
        tokens@.len() >= 1,
{
    let n = template.unicode_len();
    let mut lo: usize = 0;
    while lo < n && is_space(template.get_char(lo))
        invariant
            lo <= n,
            n == template@.len(),
            forall|j: int| 0 <= j < lo ==> is_space_char(template@[j]),
        decreases n - lo,
    {
        lo = lo + 1;
    }
    let mut hi: usize = n;
    while hi > lo && is_space(template.get_char(hi - 1))
        invariant
            lo <= hi <= n,
            n == template@.len(),
            forall|j: int| hi <= j < n ==> is_space_char(template@[j]),
        decreases hi,
    {
        hi = hi - 1;
    }
    let ghost trimmed = template@.subrange(lo as int, hi as int);
    proof {
        lemma_trim_start_at(template@, lo as int);
        lemma_trim_end_at(template@.skip(lo as int), hi - lo);
        assert(template@.skip(lo as int).take(hi - lo) =~= trimmed);
        assert(trim_spec(template@) == trimmed);
    }

    let mut tokens: Vec<String> = Vec::new();
    let mut start: usize = lo;
    let mut i: usize = lo;
    proof {
        assert(trimmed.skip(0) =~= trimmed);
        assert(seq_views(tokens@) + split_on_space(trimmed) =~~= split_on_space(trimmed));
    }
    while i < hi
        invariant
            lo <= start <= i <= hi <= n,
            n == template@.len(),
            trimmed == template@.subrange(lo as int, hi as int),
            forall|j: int| start <= j < i ==> template@[j] != ' ',
            seq_views(tokens@) + split_on_space(trimmed.skip(start - lo)) == split_on_space(
                trimmed,
            ),
        decreases hi - i,
    {
        if template.get_char(i) == ' ' {
            let token = copy_range(template, start, i);
            let ghost tokens_before = tokens@;
            tokens.push(token);
            proof {
                let rest = trimmed.skip(start - lo);
                assert(forall|j: int|
                    0 <= j < rest.len() ==> rest[j] == template@[lo + (start - lo) + j]);
                lemma_first_space_at(rest, i - start);
                assert(rest.take(i - start) =~= template@.subrange(start as int, i as int));
                assert(rest.skip(i - start + 1) =~= trimmed.skip(i + 1 - lo));
                assert(seq_views(tokens@) =~~= seq_views(tokens_before).push(
                    template@.subrange(start as int, i as int),
                ));
                assert(seq_views(tokens@) + split_on_space(trimmed.skip(i + 1 - lo))
                    =~~= seq_views(tokens_before) + split_on_space(rest));
            }
            start = i + 1;
        }
        i = i + 1;
    }
    let token = copy_range(template, start, hi);
    let ghost tokens_before = tokens@;
    tokens.push(token);
    proof {
        let rest = trimmed.skip(start - lo);
        assert(forall|j: int| 0 <= j < rest.len() ==> rest[j] == template@[lo + (start - lo) + j]);
        lemma_first_space_at(rest, hi - start);
        assert(rest =~= template@.subrange(start as int, hi as int));
        assert(split_on_space(rest) =~~= seq![rest]);
        assert(seq_views(tokens@) =~~= seq_views(tokens_before).push(rest));
        assert(seq_views(tokens@) =~~= seq_views(tokens_before) + split_on_space(rest));
        assert(seq_views(tokens@) == raw_tokens(template@));
    }
    tokens
}

/// Joins the fragments and `last` with single spaces.
fn join_with_last(frags: &Vec<String>, last: String) -> (joined: String)
    ensures
        joined@ == join_spaces(seq_views(frags@).push(last@)),
{
    let mut joined = String::new();
    let mut i: usize = 0;
    while i < frags.len()
        invariant
            i <= frags@.len(),
            joined@ == join_spaces(seq_views(frags@).take(i as int)),
        decreases frags@.len() - i,
    {
        if i > 0 {
            joined.append(" ");
        }
        let frag = &frags[i];
        joined.append(frag.as_str());
        proof {
            let views = seq_views(frags@);
            assert(views.take(i + 1).drop_last() =~~= views.take(i as int));
            assert(views.take(i + 1).last() == frags@[i as int]@);
            if i == 0 {
                assert(join_spaces(views.take(1)) == views.take(1)[0]);
            }
            assert(joined@ =~= join_spaces(views.take(i + 1)));
        }
        i = i + 1;
    }
    if frags.len() > 0 {
        joined.append(" ");
    }
    joined.append(last.as_str());
    proof {
        let views = seq_views(frags@);
        assert(views.take(frags@.len() as int) =~~= views);
        assert(views.push(last@).drop_last() =~~= views);
        if frags@.len() == 0 {
            assert(join_spaces(views.push(last@)) == views.push(last@)[0]);
        }
        assert(joined@ =~= join_spaces(views.push(last@)));
    }
    joined
}

/// Resolves the raw tokens from position `j` on into arguments, as
/// [`resolve_args`] describes.
fn resolve_args_exec(tokens: &Vec<String>, j: usize) -> (args: Vec<String>)
    requires
        j <= tokens@.len(),
    ensures
        seq_views(args@) == resolve_args(seq_views(tokens@).skip(j as int)),
    decreases tokens@.len() - j, 1int,
{
    let ghost toks = seq_views(tokens@).skip(j as int);
    if j == tokens.len() {
        let args: Vec<String> = Vec::new();
        proof {
            assert(toks =~~= Seq::<Seq<char>>::empty());
            assert(seq_views(args@) =~~= resolve_args(toks));
        }
        return args;
    }
    proof {
        assert(toks.first() == tokens@[j as int]@);
        assert(toks.drop_first() =~~= seq_views(tokens@).skip(j + 1));
    }
    let token = &tokens[j];
    let t_len = token.as_str().unicode_len();
    if t_len >= 2 {
        let first = token.as_str().get_char(0);
        let last = token.as_str().get_char(t_len - 1);
        if is_quote(first) && last == first {
            let arg = copy_string_range(token, 1, t_len - 1);
            let rest = resolve_args_exec(tokens, j + 1);
            let args = prepend(arg, rest);
            proof {
                assert(seq_views(args@) =~~= seq![arg@] + seq_views(rest@));
                assert(seq_views(args@) =~~= resolve_args(toks));
            }
            return args;
        }
        if is_quote(first) {
            let opening = copy_string_range(token, 1, t_len);
            let mut frags: Vec<String> = Vec::new();
            frags.push(opening);
            proof {
                assert(token@.drop_first() =~= token@.subrange(1, t_len as int));
                assert(seq_views(frags@) =~~= seq![token@.drop_first()]);
            }
            let args = resolve_quoted_exec(tokens, j + 1, first, frags);
            proof {
                assert(seq_views(args@) =~~= resolve_args(toks));
            }
            return args;
        }
    }
    let arg = token.clone();
    let rest = resolve_args_exec(tokens, j + 1);
    let args = prepend(arg, rest);
    proof {
        assert(seq_views(args@) =~~= seq![arg@] + seq_views(rest@));
        assert(seq_views(args@) =~~= resolve_args(toks));
    }
    args
}

/// Resolves a quoted run in progress from position `j` on, as
/// [`resolve_quoted`] describes.
fn resolve_quoted_exec(tokens: &Vec<String>, j: usize, quote: char, frags: Vec<String>) -> (args:
    Vec<String>)
    requires
        j <= tokens@.len(),
    ensures
        seq_views(args@) == resolve_quoted(quote, seq_views(frags@), seq_views(tokens@).skip(
            j as int,
        )),
    decreases tokens@.len() - j, 0int,
{
    let ghost toks = seq_views(tokens@).skip(j as int);
    if j == tokens.len() {
        proof {
            assert(toks =~~= Seq::<Seq<char>>::empty());
        }
        return frags;
    }
    proof {
        assert(toks.first() == tokens@[j as int]@);
        assert(toks.drop_first() =~~= seq_views(tokens@).skip(j + 1));
    }
    let token = &tokens[j];
    let t_len = token.as_str().unicode_len();
    if t_len >= 1 {
        let last = token.as_str().get_char(t_len - 1);
        if last == quote {
            let stripped = copy_string_range(token, 0, t_len - 1);
            proof {
                assert(token@.drop_last() =~= token@.subrange(0, t_len - 1));
            }
            let joined = join_with_last(&frags, stripped);
            let rest = resolve_args_exec(tokens, j + 1);
            let args = prepend(joined, rest);
            proof {
                assert(seq_views(args@) =~~= seq![joined@] + seq_views(rest@));
                assert(seq_views(args@) =~~= resolve_quoted(quote, seq_views(frags@), toks));
            }
            return args;
        }
    }
    let ghost frags_before = frags@;
    let mut grown = frags;
    grown.push(token.clone());
    proof {
        assert(seq_views(grown@) =~~= seq_views(frags_before).push(token@));
    }
    let args = resolve_quoted_exec(tokens, j + 1, quote, grown);
    proof {
        assert(seq_views(args@) =~~= resolve_quoted(quote, seq_views(frags_before), toks));
    }
    args
}

impl Invocation {
    /// Builds an invocation directly from a program name and an argument
    /// list. An empty list gives a no-argument invocation, indistinguishable
    /// from one whose template simply named no arguments.
    pub fn new(program: String, arguments: Vec<String>) -> (invocation: Invocation)
        ensures
            invocation.program == program,
            invocation.arguments == arguments,
    {
        Invocation { program, arguments }
    }

    /// Tokenizes a command template — already fully substituted — into a
    /// program name and arguments, honoring single- and double-quoted
    /// substrings as single arguments, and builds the invocation. The
    /// template is trimmed and split on single spaces; see [`resolve_args`]
    /// for how quoted runs, unterminated quotes and bare quote characters
    /// resolve. An all-whitespace template yields an empty program name.
    pub fn from_template(template: &str) -> (invocation: Invocation)
        ensures
            invocation.program@ == spec_program(template@),
            seq_views(invocation.arguments@) == spec_arguments(template@),
    {
        let tokens = split_template(template);
        let program = tokens[0].clone();
        let arguments = resolve_args_exec(&tokens, 1);
        proof {
            assert(program@ == seq_views(tokens@).first());
            assert(seq_views(tokens@).skip(1) =~~= raw_tokens(template@).drop_first());
        }
        Invocation { program, arguments }
    }
}

} // verus!
