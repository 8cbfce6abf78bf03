//! Lexical view of Rust source text: the code that remains once comments are
//! removed.
//!
//! Architecture guards read the library's own source and must not be fooled
//! by prose: a word inside a comment is not code, while a comment marker
//! inside a string, raw string or character literal is not a comment. The
//! scanner walks the text once with a small lexical automaton; line breaks
//! are kept, so line numbers survive, and every block comment leaves one
//! space, so no two tokens merge.
use vstd::prelude::*;
use vstd::string::*;

verus! {

/// Where the scanner stands.
#[derive(Debug, Clone, Copy, PartialEq, Eq, Structural)]
pub enum LexStateV1 {
    /// Ordinary code.
    Code,
    /// Inside `// ...`, up to the line break.
    LineComment,
    /// Inside `/* ... */`, nested `depth` deep.
    BlockComment { depth: usize },
    /// Inside a quoted string or byte string.
    Text,
    /// Inside a raw string closed by `"` and `hashes` times `#`.
    RawText { hashes: usize },
    /// Inside a character literal that starts with an escape.
    CharEscape,
}

/// A character that continues an identifier.
pub open spec fn is_ident_char(c: char) -> bool {
    ('a' <= c && c <= 'z') || ('A' <= c && c <= 'Z') || ('0' <= c && c <= '9') || c == '_'
}

/// Number of consecutive `#` from position `j`.
pub open spec fn hash_run(s: Seq<char>, j: int) -> nat
    decreases s.len() - j,
{
    if j < 0 || j >= s.len() || s[j] != '#' {
        0
    } else {
        1 + hash_run(s, j + 1)
    }
}

/// The `r` at `i` opens a raw string (`r"`, `r#"`, `br#"`, ...): it does not
/// continue an identifier other than a lone `b` prefix, and `#`s then `"`
/// follow it.
pub open spec fn opens_raw_text(s: Seq<char>, i: int) -> bool {
    &&& 0 <= i < s.len()
    &&& s[i] == 'r'
    &&& i == 0 || !is_ident_char(s[i - 1]) || (s[i - 1] == 'b' && (i == 1 || !is_ident_char(
        s[i - 2],
    )))
    &&& i + 1 + hash_run(s, i + 1) < s.len()
    &&& s[i + 1 + hash_run(s, i + 1)] == '"'
}

/// One step of the scanner at position `i` (with `i < s.len()`): the text
/// it keeps, the position after the step, and the next state.
pub open spec fn lex_step(s: Seq<char>, i: int, state: LexStateV1) -> (Seq<char>, int, LexStateV1) {
    let c = s[i];
    let has_next = i + 1 < s.len();
    match state {
        LexStateV1::Code => if c == '/' && has_next && s[i + 1] == '/' {
            (Seq::empty(), i + 2, LexStateV1::LineComment)
        } else if c == '/' && has_next && s[i + 1] == '*' {
            (seq![' '], i + 2, LexStateV1::BlockComment { depth: 1 })
        } else if c == '"' {
            (seq![c], i + 1, LexStateV1::Text)
        } else if opens_raw_text(s, i) {
            let h = hash_run(s, i + 1);
            (s.subrange(i, i + 2 + h), i + 2 + h, LexStateV1::RawText { hashes: h as usize })
        } else if c == '\'' && has_next && s[i + 1] == '\\' {
            (s.subrange(i, i + 2), i + 2, LexStateV1::CharEscape)
        } else if c == '\'' && i + 2 < s.len() && s[i + 2] == '\'' {
            (s.subrange(i, i + 3), i + 3, LexStateV1::Code)
        } else {
            (seq![c], i + 1, LexStateV1::Code)
        },
        LexStateV1::LineComment => if c == '\n' {
            (seq![c], i + 1, LexStateV1::Code)
        } else {
            (Seq::empty(), i + 1, LexStateV1::LineComment)
        },
        LexStateV1::BlockComment { depth } => if c == '*' && has_next && s[i + 1] == '/' {
            (
                Seq::empty(),
                i + 2,
                if depth <= 1 {
                    LexStateV1::Code
                } else {
                    LexStateV1::BlockComment { depth: (depth - 1) as usize }
                },
            )
        } else if c == '/' && has_next && s[i + 1] == '*' {
            (Seq::empty(), i + 2, LexStateV1::BlockComment { depth: (depth + 1) as usize })
        } else if c == '\n' {
            (seq![c], i + 1, state)
        } else {
            (Seq::empty(), i + 1, state)
        },
        LexStateV1::Text => if c == '\\' && has_next {
            (s.subrange(i, i + 2), i + 2, state)
        } else if c == '"' {
            (seq![c], i + 1, LexStateV1::Code)
        } else {
            (seq![c], i + 1, state)
        },
        LexStateV1::RawText { hashes } => if c == '"' && hash_run(s, i + 1) >= hashes {
            (s.subrange(i, i + 1 + hashes), i + 1 + hashes, LexStateV1::Code)
        } else {
            (seq![c], i + 1, state)
        },
        LexStateV1::CharEscape => if c == '\\' && has_next {
            (s.subrange(i, i + 2), i + 2, state)
        } else if c == '\'' {
            (seq![c], i + 1, LexStateV1::Code)
        } else {
            (seq![c], i + 1, state)
        },
    }
}

proof fn lemma_hash_run_bound(s: Seq<char>, j: int)
    requires
        0 <= j,
    ensures
        j + hash_run(s, j) <= s.len() || hash_run(s, j) == 0,
        forall|k: int| j <= k < j + hash_run(s, j) ==> s[k] == '#',
    decreases s.len() - j,
{
    if j < s.len() && s[j] == '#' {
        lemma_hash_run_bound(s, j + 1);
    }
}

proof fn lemma_lex_step_advances(s: Seq<char>, i: int, state: LexStateV1)
    requires
        0 <= i < s.len(),
    ensures
        i < lex_step(s, i, state).1 <= s.len(),
{
    lemma_hash_run_bound(s, i + 1);
}

/// The kept text from position `i` in `state` to the end.
pub open spec fn lex_from(s: Seq<char>, i: int, state: LexStateV1) -> Seq<char>
    decreases s.len() - i,
{
    if i < 0 || i >= s.len() {
        Seq::empty()
    } else {
        let step = lex_step(s, i, state);
        if step.1 <= i || step.1 > s.len() {
            step.0
        } else {
            step.0 + lex_from(s, step.1, step.2)
        }
    }
}

/// The source without its comments.
pub open spec fn code_without_comments(s: Seq<char>) -> Seq<char> {
    lex_from(s, 0, LexStateV1::Code)
}

fn ident_char(c: char) -> (ident: bool)
    ensures
        ident == is_ident_char(c),
{
    ('a' <= c && c <= 'z') || ('A' <= c && c <= 'Z') || ('0' <= c && c <= '9') || c == '_'
}

fn count_hashes(source: &str, n: usize, j: usize) -> (count: usize)
    requires
        n == source@.len(),
        j <= n,
    ensures
        count == hash_run(source@, j as int),
        j + count <= n,
{
    let ghost s = source@;
    let mut k: usize = j;
    while k < n && source.get_char(k) == '#'
        invariant
            n == s.len(),
            s == source@,
            j <= k <= n,
            hash_run(s, j as int) == (k - j) + hash_run(s, k as int),
        decreases n - k,
    {
        k += 1;
    }
    k - j
}

fn raw_text_opens(source: &str, n: usize, i: usize) -> (opens: Option<usize>)
    requires
        n == source@.len(),
        i < n,
    ensures
        opens_raw_text(source@, i as int) <==> opens is Some,
        opens matches Some(h) ==> h == hash_run(source@, i + 1),
{
    if source.get_char(i) != 'r' {
        return None;
    }
    let prefix_ok = i == 0 || !ident_char(source.get_char(i - 1)) || (source.get_char(i - 1) == 'b'
        && (i == 1 || !ident_char(source.get_char(i - 2))));
    if !prefix_ok {
        return None;
    }
    let h = count_hashes(source, n, i + 1);
    if i + 1 + h < n && source.get_char(i + 1 + h) == '"' {
        Some(h)
    } else {
        None
    }
}

proof fn lemma_lex_from_unfold(s: Seq<char>, i: int, state: LexStateV1)
    requires
        0 <= i < s.len(),
    ensures
        lex_from(s, i, state) == lex_step(s, i, state).0 + lex_from(
            s,
            lex_step(s, i, state).1,
            lex_step(s, i, state).2,
        ),
{
    lemma_lex_step_advances(s, i, state);
}

/// Number of line breaks in a text.
pub open spec fn line_break_count(t: Seq<char>) -> nat
    decreases t.len(),
{
    if t.len() == 0 {
        0
    } else {
        (if t.last() == '\n' { 1nat } else { 0nat }) + line_break_count(t.drop_last())
    }
}

proof fn lemma_line_break_count_concat(a: Seq<char>, b: Seq<char>)
    ensures
        line_break_count(a + b) == line_break_count(a) + line_break_count(b),
    decreases b.len(),
{
    if b.len() > 0 {
        assert((a + b).drop_last() =~= a + b.drop_last());
        assert((a + b).last() == b.last());
        lemma_line_break_count_concat(a, b.drop_last());
    } else {
        assert(a + b =~= a);
    }
}

proof fn lemma_line_break_count_free(t: Seq<char>)
    requires
        forall|k: int| 0 <= k < t.len() ==> t[k] != '\n',
    ensures
        line_break_count(t) == 0,
    decreases t.len(),
{
    if t.len() > 0 {
        lemma_line_break_count_free(t.drop_last());
    }
}

/// A step keeps exactly as many line breaks as the text it consumes.
proof fn lemma_lex_step_keeps_line_breaks(s: Seq<char>, i: int, state: LexStateV1)
    requires
        0 <= i < s.len(),
    ensures
        line_break_count(lex_step(s, i, state).0) == line_break_count(
            s.subrange(i, lex_step(s, i, state).1),
        ),
{
    lemma_lex_step_advances(s, i, state);
    let step = lex_step(s, i, state);
    let consumed = s.subrange(i, step.1);
    if step.0 =~= consumed {
    } else if step.1 == i + 1 {
        assert(consumed =~= seq![s[i]]);
        assert(seq![s[i]].drop_last() =~= Seq::<char>::empty());
        assert(step.0 =~= Seq::<char>::empty() || step.0 =~= seq![' ']);
        if step.0 =~= seq![' '] {
            assert(seq![' '].drop_last() =~= Seq::<char>::empty());
        }
    } else {
        assert(step.1 == i + 2);
        assert(step.0 =~= Seq::<char>::empty() || step.0 =~= seq![' ']);
        assert(s[i] != '\n' && s[i + 1] != '\n');
        lemma_line_break_count_free(consumed);
        lemma_line_break_count_free(step.0);
    }
}

/// Removing comments keeps every line break, so line numbers survive.
pub proof fn lemma_line_breaks_survive(s: Seq<char>, i: int, state: LexStateV1)
    requires
        0 <= i <= s.len(),
    ensures
        line_break_count(lex_from(s, i, state)) == line_break_count(s.subrange(i, s.len() as int)),
    decreases s.len() - i,
{
    if i == s.len() {
        assert(s.subrange(i, s.len() as int) =~= Seq::<char>::empty());
    } else {
        lemma_lex_from_unfold(s, i, state);
        lemma_lex_step_advances(s, i, state);
        let step = lex_step(s, i, state);
        lemma_lex_step_keeps_line_breaks(s, i, state);
        lemma_line_breaks_survive(s, step.1, step.2);
        lemma_line_break_count_concat(step.0, lex_from(s, step.1, step.2));
        assert(s.subrange(i, s.len() as int) =~= s.subrange(i, step.1) + s.subrange(
            step.1,
            s.len() as int,
        ));
        lemma_line_break_count_concat(s.subrange(i, step.1), s.subrange(step.1, s.len() as int));
    }
}

/// Outside comments, the scanner keeps text verbatim.
pub open spec fn keeps_text(state: LexStateV1) -> bool {
    !(state is LineComment) && !(state is BlockComment)
}

/// Text without any `/` holds no comment and comes back unchanged.
pub proof fn lemma_slash_free_text_is_unchanged(s: Seq<char>, i: int, state: LexStateV1)
    requires
        0 <= i <= s.len(),
        keeps_text(state),
        forall|k: int| 0 <= k < s.len() ==> s[k] != '/',
    ensures
        lex_from(s, i, state) == s.subrange(i, s.len() as int),
    decreases s.len() - i,
{
    if i == s.len() {
        assert(s.subrange(i, s.len() as int) =~= Seq::<char>::empty());
    } else {
        lemma_lex_from_unfold(s, i, state);
        lemma_lex_step_advances(s, i, state);
        let step = lex_step(s, i, state);
        assert(step.0 =~= s.subrange(i, step.1));
        lemma_slash_free_text_is_unchanged(s, step.1, step.2);
        assert(s.subrange(i, s.len() as int) =~= s.subrange(i, step.1) + s.subrange(
            step.1,
            s.len() as int,
        ));
    }
}

/// A character that neither opens nor closes a comment nor breaks a line.
pub open spec fn inert_in_comment(c: char) -> bool {
    c != '/' && c != '*' && c != '\n'
}

/// A character that starts no comment, string, raw string or literal.
pub open spec fn inert_in_code(c: char) -> bool {
    c != '/' && c != '"' && c != '\'' && c != 'r'
}

proof fn lemma_comment_run(s: Seq<char>, i: int, j: int, depth: usize)
    requires
        0 <= i <= j <= s.len(),
        depth >= 1,
        forall|k: int| i <= k < j ==> inert_in_comment(#[trigger] s[k]),
    ensures
        lex_from(s, i, LexStateV1::BlockComment { depth }) == lex_from(
            s,
            j,
            LexStateV1::BlockComment { depth },
        ),
    decreases j - i,
{
    if i < j {
        lemma_lex_from_unfold(s, i, LexStateV1::BlockComment { depth });
        assert(inert_in_comment(s[i]));
        lemma_comment_run(s, i + 1, j, depth);
    }
}

proof fn lemma_code_run(s: Seq<char>, i: int, j: int)
    requires
        0 <= i <= j <= s.len(),
        forall|k: int| i <= k < j ==> inert_in_code(#[trigger] s[k]),
    ensures
        lex_from(s, i, LexStateV1::Code) == s.subrange(i, j) + lex_from(s, j, LexStateV1::Code),
    decreases j - i,
{
    if i < j {
        lemma_lex_from_unfold(s, i, LexStateV1::Code);
        assert(inert_in_code(s[i]));
        lemma_code_run(s, i + 1, j);
        assert(s.subrange(i, j) =~= seq![s[i]] + s.subrange(i + 1, j));
    } else {
        assert(s.subrange(i, j) =~= Seq::<char>::empty());
    }
}

/// Block comments nest: in `/* a /* b */ c */ x` the inner `*/` closes only
/// the inner comment, so the whole outer comment, `c` included, is removed
/// and leaves one space, and the code after it is kept. For any comment
/// texts `a`, `b`, `c` without comment markers or line breaks and any plain
/// code `x`.
pub proof fn lemma_nested_block_comment_is_removed_whole(
    a: Seq<char>,
    b: Seq<char>,
    c: Seq<char>,
    x: Seq<char>,
)
    requires
        forall|k: int| 0 <= k < a.len() ==> inert_in_comment(#[trigger] a[k]),
        forall|k: int| 0 <= k < b.len() ==> inert_in_comment(#[trigger] b[k]),
        forall|k: int| 0 <= k < c.len() ==> inert_in_comment(#[trigger] c[k]),
        forall|k: int| 0 <= k < x.len() ==> inert_in_code(#[trigger] x[k]),
    ensures
        code_without_comments(
            seq!['/', '*'] + a + seq!['/', '*'] + b + seq!['*', '/'] + c + seq!['*', '/'] + x,
        ) == seq![' '] + x,
{
    let s = seq!['/', '*'] + a + seq!['/', '*'] + b + seq!['*', '/'] + c + seq!['*', '/'] + x;
    let p_a = 2int;
    let p_open = p_a + a.len();
    let p_b = p_open + 2;
    let p_close1 = p_b + b.len();
    let p_c = p_close1 + 2;
    let p_close2 = p_c + c.len();
    let p_x = p_close2 + 2;
    assert(s.len() == p_x + x.len());
    assert(s[0] == '/' && s[1] == '*');
    assert forall|k: int| p_a <= k < p_open implies inert_in_comment(#[trigger] s[k]) by {
        assert(s[k] == a[k - p_a]);
    }
    assert(s[p_open] == '/' && s[p_open + 1] == '*');
    assert forall|k: int| p_b <= k < p_close1 implies inert_in_comment(#[trigger] s[k]) by {
        assert(s[k] == b[k - p_b]);
    }
    assert(s[p_close1] == '*' && s[p_close1 + 1] == '/');
    assert forall|k: int| p_c <= k < p_close2 implies inert_in_comment(#[trigger] s[k]) by {
        assert(s[k] == c[k - p_c]);
    }
    assert(s[p_close2] == '*' && s[p_close2 + 1] == '/');
    assert forall|k: int| p_x <= k < s.len() implies inert_in_code(#[trigger] s[k]) by {
        assert(s[k] == x[k - p_x]);
    }
    lemma_lex_from_unfold(s, 0, LexStateV1::Code);
    lemma_comment_run(s, p_a, p_open, 1);
    lemma_lex_from_unfold(s, p_open, LexStateV1::BlockComment { depth: 1 });
    lemma_comment_run(s, p_b, p_close1, 2);
    lemma_lex_from_unfold(s, p_close1, LexStateV1::BlockComment { depth: 2 });
    lemma_comment_run(s, p_c, p_close2, 1);
    lemma_lex_from_unfold(s, p_close2, LexStateV1::BlockComment { depth: 1 });
    lemma_code_run(s, p_x, s.len() as int);
    assert(lex_from(s, s.len() as int, LexStateV1::Code) =~= Seq::<char>::empty());
    assert(s.subrange(p_x, s.len() as int) =~= x);
}

/// The source with every comment removed: line comments up to (not
/// including) their line break, block comments (nested) replaced by one
/// space with their line breaks kept. Strings, raw strings and character
/// literals are kept whole, comment markers inside them included.
pub fn strip_comments(source: &str) -> (code: String)
    ensures
        code@ == code_without_comments(source@),
        line_break_count(code@) == line_break_count(source@),
        (forall|k: int| 0 <= k < source@.len() ==> source@[k] != '/') ==> code@ == source@,
{
    proof {
        lemma_line_breaks_survive(source@, 0, LexStateV1::Code);
        assert(source@.subrange(0, source@.len() as int) =~= source@);
        if forall|k: int| 0 <= k < source@.len() ==> source@[k] != '/' {
            lemma_slash_free_text_is_unchanged(source@, 0, LexStateV1::Code);
        }
    }
    let ghost s = source@;
    let n = source.unicode_len();
    let mut out = String::from_str("");
    proof {
        reveal_strlit("");
        reveal_strlit(" ");
    }
    let mut i: usize = 0;
    let mut state = LexStateV1::Code;
    while i < n
        invariant
            s == source@,
            n == s.len(),
            i <= n,
            out@ + lex_from(s, i as int, state) == code_without_comments(s),
            state matches LexStateV1::BlockComment { depth } ==> depth <= i,
        decreases n - i,
    {
        proof {
            lemma_lex_from_unfold(s, i as int, state);
        }
        let ghost step = lex_step(s, i as int, state);
        let c = source.get_char(i);
        let has_next = i + 1 < n;
        let next_char = if has_next {
            source.get_char(i + 1)
        } else {
            c
        };
        let (start, end, space, next, after): (usize, usize, bool, usize, LexStateV1) =
            match state {
            LexStateV1::Code => {
                if c == '/' && has_next && next_char == '/' {
                    (i, i, false, i + 2, LexStateV1::LineComment)
                } else if c == '/' && has_next && next_char == '*' {
                    (i, i, true, i + 2, LexStateV1::BlockComment { depth: 1 })
                } else if c == '"' {
                    (i, i + 1, false, i + 1, LexStateV1::Text)
                } else {
                    match raw_text_opens(source, n, i) {
                        Some(h) => (i, i + 2 + h, false, i + 2 + h, LexStateV1::RawText { hashes: h }),
                        None => {
                            if c == '\'' && has_next && next_char == '\\' {
                                (i, i + 2, false, i + 2, LexStateV1::CharEscape)
                            } else if c == '\'' && n - i > 2 && source.get_char(i + 2) == '\'' {
                                (i, i + 3, false, i + 3, LexStateV1::Code)
                            } else {
                                (i, i + 1, false, i + 1, LexStateV1::Code)
                            }
                        },
                    }
                }
            },
            LexStateV1::LineComment => {
                if c == '\n' {
                    (i, i + 1, false, i + 1, LexStateV1::Code)
                } else {
                    (i, i, false, i + 1, LexStateV1::LineComment)
                }
            },
            LexStateV1::BlockComment { depth } => {
                if c == '*' && has_next && next_char == '/' {
                    let after = if depth <= 1 {
                        LexStateV1::Code
                    } else {
                        LexStateV1::BlockComment { depth: depth - 1 }
                    };
                    (i, i, false, i + 2, after)
                } else if c == '/' && has_next && next_char == '*' {
                    (i, i, false, i + 2, LexStateV1::BlockComment { depth: depth + 1 })
                } else if c == '\n' {
                    (i, i + 1, false, i + 1, state)
                } else {
                    (i, i, false, i + 1, state)
                }
            },
            LexStateV1::Text => {
                if c == '\\' && has_next {
                    (i, i + 2, false, i + 2, state)
                } else if c == '"' {
                    (i, i + 1, false, i + 1, LexStateV1::Code)
                } else {
                    (i, i + 1, false, i + 1, state)
                }
            },
            LexStateV1::RawText { hashes } => {
                if c == '"' && count_hashes(source, n, i + 1) >= hashes {
                    (i, i + 1 + hashes, false, i + 1 + hashes, LexStateV1::Code)
                } else {
                    (i, i + 1, false, i + 1, state)
                }
            },
            LexStateV1::CharEscape => {
                if c == '\\' && has_next {
                    (i, i + 2, false, i + 2, state)
                } else if c == '\'' {
                    (i, i + 1, false, i + 1, LexStateV1::Code)
                } else {
                    (i, i + 1, false, i + 1, state)
                }
            },
        };
        proof {
            lemma_lex_step_advances(s, i as int, state);
            assert(next == step.1);
            assert(after == step.2);
            if space {
                reveal_strlit(" ");
                assert(step.0 =~= " "@);
            } else {
                assert(step.0 =~= s.subrange(start as int, end as int));
            }
        }
        if space {
            out.append(" ");
        } else if start < end {
            out.append(source.substring_char(start, end));
        }
        proof {
            assert(out@ + lex_from(s, next as int, after) == code_without_comments(s));
        }
        i = next;
        state = after;
    }
    proof {
        assert(lex_from(s, i as int, state) =~= Seq::<char>::empty());
        assert(out@ =~= code_without_comments(s));
    }
    out
}

} // verus!
