//! The outbound content guard: spots text shaped like a session token
//! (three dot-separated runs of URL-safe characters, at least 16, 5 and 16 long).
use vstd::prelude::*;
use vstd::string::StrSliceExecFns;

verus! {

/// Whether `c` may appear in one part of a session token.
pub open spec fn is_token_char(c: char) -> bool {
    ('A' <= c && c <= 'Z') || ('a' <= c && c <= 'z') || ('0' <= c && c <= '9') || c == '_' || c
        == '-'
}

/// Every character of `s` in `[lo, hi)` is a token character.
pub open spec fn all_token(s: Seq<char>, lo: int, hi: int) -> bool {
    forall|i: int| lo <= i < hi ==> #[trigger] is_token_char(s[i])
}

/// The dots at `b` and `c` separate a token's three parts: at least 16 token
/// characters end at `b`, at least 5 lie between the dots, and 16 follow `c`.
pub open spec fn secret_at(s: Seq<char>, b: int, c: int) -> bool {
    &&& 16 <= b
    &&& b + 6 <= c
    &&& c + 17 <= s.len()
    &&& s[b] == '.'
    &&& s[c] == '.'
    &&& all_token(s, b - 16, b)
    &&& all_token(s, b + 1, c)
    &&& all_token(s, c + 1, c + 17)
}

/// Some part of `s` has the shape `T{16,}.T{5,}.T{16,}` over token characters `T`.
pub open spec fn secret_like(s: Seq<char>) -> bool {
    exists|b: int, c: int| secret_at(s, b, c)
}

/// The first two parts of a token end at the dot `c`, the first part at the dot `b`.
pub open spec fn two_parts_at(s: Seq<char>, b: int, c: int) -> bool {
    &&& 16 <= b
    &&& b + 6 <= c
    &&& c < s.len()
    &&& s[b] == '.'
    &&& s[c] == '.'
    &&& all_token(s, b - 16, b)
    &&& all_token(s, b + 1, c)
}

/// The first two parts of some token end at the dot `c`.
pub open spec fn two_parts_end(s: Seq<char>, c: int) -> bool {
    exists|b: int| #[trigger] two_parts_at(s, b, c)
}

pub fn token_char(c: char) -> (r: bool)
    ensures
        r == is_token_char(c),
{
    ('A' <= c && c <= 'Z') || ('a' <= c && c <= 'z') || ('0' <= c && c <= '9') || c == '_' || c
        == '-'
}

/// A run of token characters that ends just before `i` and starts at `i - run`
/// cannot be extended to the left: the start of any token run ending at `i`
/// that is preceded by a non-token character is `i - run`.
proof fn lemma_run_start(s: Seq<char>, i: int, run: int, d: int)
    requires
        0 <= run <= i <= s.len(),
        all_token(s, i - run, i),
        i - run == 0 || !is_token_char(s[i - run - 1]),
        0 <= d < i,
        !is_token_char(s[d]),
        all_token(s, d + 1, i),
    ensures
        d == i - run - 1,
{
    if d > i - run - 1 {
        assert(is_token_char(s[d]));
    } else if d < i - run - 1 {
        assert(is_token_char(s[i - run - 1]));
    }
}

/// Whether `text` holds a part shaped like a session token; a message that does
/// is not to be sent.
pub fn contains_secret_like(text: &str) -> (r: bool)
    ensures
        r == secret_like(text@),
{
    let ghost s = text@;
    // length of the run of token characters that ends just before the current index
    let mut run: usize = 0;
    // the character before that run is a dot that ends a first part
    let mut first_done = false;
    // the character before that run is a dot that ends the first two parts
    let mut second_done = false;
    let mut idx: usize = 0;
    let len: usize = text.unicode_len();
    for ch in it: text.chars()
        invariant
            it.seq() == s,
            s == text@,
            idx == it.index(),
            idx <= s.len(),
            s.len() == len,
            run <= idx,
            all_token(s, idx - run, idx as int),
            idx - run == 0 || !is_token_char(s[idx - run - 1]),
            first_done == (idx - run >= 17 && s[idx - run - 1] == '.' && all_token(
                s,
                idx - run - 17,
                idx - run - 1,
            )),
            second_done == two_parts_end(s, idx - run - 1),
            forall|b: int, c: int| c + 17 <= idx ==> !secret_at(s, b, c),
    {
        let ghost i = idx as int;
        assert(idx < s.len());
        assert(s[i] == ch);
        if token_char(ch) {
            run = run + 1;
            if second_done && run >= 16 {
                let ghost c = i + 1 - run - 1;
                let ghost b = choose|b: int| two_parts_at(s, b, c);
                assert(secret_at(s, b, c));
                assert(secret_like(s));

                return true;
            }
        } else {
            if ch == '.' {
                proof {
                    if two_parts_end(s, i) {
                        let b = choose|b: int| two_parts_at(s, b, i);
                        lemma_run_start(s, i, run as int, b);
                    }
                    if run < 16 && i >= 16 && all_token(s, i - 16, i) {
                        assert(is_token_char(s[i - run - 1]));
                    }
                    if first_done && run >= 5 {
                        assert(two_parts_at(s, i - run - 1, i));
                    }
                }
                second_done = first_done && run >= 5;
                first_done = run >= 16;
            } else {
                proof {
                    assert forall|b: int| !two_parts_at(s, b, i) by {}
                }
                second_done = false;
                first_done = false;
            }
            run = 0;
        }
        idx = idx + 1;
        proof {
            assert forall|b: int, c: int| c + 17 <= idx implies !secret_at(s, b, c) by {
                if c + 17 == idx && secret_at(s, b, c) {
                    assert(is_token_char(s[i]));
                    lemma_run_start(s, i, run as int - 1, c);
                    assert(two_parts_at(s, b, c));
                }
            }
        }
    }
    false
}

/// Every character of `s` is a token character.
pub open spec fn all_token_chars(s: Seq<char>) -> bool {
    all_token(s, 0, s.len() as int)
}

/// `a.b.c`.
pub open spec fn dotted3(a: Seq<char>, b: Seq<char>, c: Seq<char>) -> Seq<char> {
    a + seq!['.'] + b + seq!['.'] + c
}

/// `a.b`.
pub open spec fn dotted2(a: Seq<char>, b: Seq<char>) -> Seq<char> {
    a + seq!['.'] + b
}

/// The only dots of `a.b.c`, for parts of token characters, are the two separators.
proof fn lemma_dots3(a: Seq<char>, b: Seq<char>, c: Seq<char>, i: int)
    requires
        all_token_chars(a),
        all_token_chars(b),
        all_token_chars(c),
        0 <= i < dotted3(a, b, c).len(),
        i != a.len(),
        i != a.len() + 1 + b.len(),
    ensures
        is_token_char(dotted3(a, b, c)[i]),
{
    let s = dotted3(a, b, c);
    if i < a.len() {
        assert(s[i] == a[i]);
    } else if i < a.len() + 1 + b.len() {
        assert(s[i] == b[i - a.len() - 1]);
    } else {
        assert(s[i] == c[i - a.len() - 2 - b.len()]);
    }
}

/// Three dot-separated parts of token characters look like a token exactly
/// when they are at least 16, 5 and 16 characters long: the full shape is
/// caught, and a shorter part lets the text through.
pub proof fn lemma_three_parts(a: Seq<char>, b: Seq<char>, c: Seq<char>)
    requires
        all_token_chars(a),
        all_token_chars(b),
        all_token_chars(c),
    ensures
        secret_like(dotted3(a, b, c)) <==> (a.len() >= 16 && b.len() >= 5 && c.len() >= 16),
{
    let s = dotted3(a, b, c);
    let p1 = a.len() as int;
    let p2 = (a.len() + 1 + b.len()) as int;
    assert(s[p1] == '.');
    assert(s[p2] == '.');
    if a.len() >= 16 && b.len() >= 5 && c.len() >= 16 {
        assert forall|i: int| p1 - 16 <= i < p1 implies #[trigger] is_token_char(s[i]) by {
            lemma_dots3(a, b, c, i);
        }
        assert forall|i: int| p1 + 1 <= i < p2 implies #[trigger] is_token_char(s[i]) by {
            lemma_dots3(a, b, c, i);
        }
        assert forall|i: int| p2 + 1 <= i < p2 + 17 implies #[trigger] is_token_char(s[i]) by {
            lemma_dots3(a, b, c, i);
        }
        assert(secret_at(s, p1, p2));
    }
    if secret_like(s) {
        let (x, y) = choose|x: int, y: int| secret_at(s, x, y);
        if x != p1 && x != p2 {
            lemma_dots3(a, b, c, x);
        }
        if y != p1 && y != p2 {
            lemma_dots3(a, b, c, y);
        }
    }
}

/// Two dot-separated parts of token characters never look like a token.
pub proof fn lemma_two_parts(a: Seq<char>, b: Seq<char>)
    requires
        all_token_chars(a),
        all_token_chars(b),
    ensures
        !secret_like(dotted2(a, b)),
{
    let s = dotted2(a, b);
    if secret_like(s) {
        let (x, y) = choose|x: int, y: int| secret_at(s, x, y);
        assert forall|i: int| 0 <= i < s.len() && i != a.len() implies is_token_char(s[i]) by {
            if i < a.len() {
                assert(s[i] == a[i]);
            } else {
                assert(s[i] == b[i - a.len() - 1]);
            }
        }
        assert(x == a.len() && y == a.len());
    }
}

} // verus!
