//! Verified text utilities: character-sequence matching, case folding,
//! placeholder substitution, and the time-keyword lexicon.

use vstd::prelude::*;

verus! {

/// Relies on `String::push`: appends the given character to the end of the
/// string (std documentation).
pub assume_specification[ String::push ](s: &mut String, ch: char)
    ensures
        final(s)@ == old(s)@.push(ch),
;

/// The pattern `pat` occurs in `t` starting at position `i`.
pub open spec fn matches_at_spec(t: Seq<char>, pat: Seq<char>, i: int) -> bool {
    0 <= i && i + pat.len() <= t.len() && t.subrange(i, i + pat.len()) == pat
}

/// The pattern `pat` occurs somewhere in `t` (substring containment).
pub open spec fn occurs_in(t: Seq<char>, pat: Seq<char>) -> bool {
    exists|i: int| matches_at_spec(t, pat, i)
}

/// Character-for-character string equality, decided without trusting any
/// derived comparison.
pub fn str_eq(a: &str, b: &str) -> (r: bool)
    ensures
        r == (a@ == b@),
{
    let n: usize = a.unicode_len();
    let m: usize = b.unicode_len();
    if n != m {
        return false;
    }
    let mut i: usize = 0;
    while i < n
        invariant
            n == a@.len(),
            n == b@.len(),
            i <= n,
            forall|j: int| 0 <= j < i ==> a@[j] == b@[j],
        decreases n - i,
    {
        if a.get_char(i) != b.get_char(i) {
            return false;
        }
        i += 1;
    }
    proof {
        assert(a@ =~= b@);
    }
    true
}

/// Whether `pat` occurs in `text` at position `i`.
pub fn matches_at(text: &str, pat: &str, i: usize) -> (r: bool)
    requires
        i + pat@.len() <= text@.len(),
    ensures
        r == matches_at_spec(text@, pat@, i as int),
{
    let n: usize = text.unicode_len();
    let p: usize = pat.unicode_len();
    let mut j: usize = 0;
    while j < p
        invariant
            n == text@.len(),
            p == pat@.len(),
            i + p <= n,
            j <= p,
            forall|k: int| 0 <= k < j ==> text@[i + k] == pat@[k],
        decreases p - j,
    {
        if text.get_char(i + j) != pat.get_char(j) {
            proof {
                assert(text@.subrange(i as int, i + pat@.len())[j as int] != pat@[j as int]);
            }
            return false;
        }
        j += 1;
    }
    proof {
        assert(text@.subrange(i as int, i + pat@.len()) =~= pat@);
    }
    true
}

/// Substring search: whether `pat` occurs anywhere in `text`.
pub fn contains_sub(text: &str, pat: &str) -> (r: bool)
    ensures
        r == occurs_in(text@, pat@),
{
    let n: usize = text.unicode_len();
    let p: usize = pat.unicode_len();
    if p == 0 {
        proof {
            assert(text@.subrange(0, 0) =~= pat@);
            assert(matches_at_spec(text@, pat@, 0));
        }
        return true;
    }
    if p > n {
        proof {
            assert(forall|i: int| !matches_at_spec(text@, pat@, i));
        }
        return false;
    }
    let mut i: usize = 0;
    while i <= n - p
        invariant
            n == text@.len(),
            p == pat@.len(),
            0 < p <= n,
            i <= n - p + 1,
            forall|j: int| 0 <= j < i ==> !matches_at_spec(text@, pat@, j),
        decreases n + 1 - p - i,
    {
        if matches_at(text, pat, i) {
            return true;
        }
        i += 1;
    }
    proof {
        assert(forall|j: int| matches_at_spec(text@, pat@, j) ==> 0 <= j <= n - p);
    }
    false
}

/// Left-to-right, non-overlapping replacement of every occurrence of `pat`
/// in `t` by `repl`. An empty pattern leaves the text unchanged.
pub open spec fn replaced(t: Seq<char>, pat: Seq<char>, repl: Seq<char>) -> Seq<char>
    decreases t.len(),
{
    if pat.len() == 0 || t.len() < pat.len() {
        t
    } else if t.subrange(0, pat.len() as int) == pat {
        repl + replaced(t.skip(pat.len() as int), pat, repl)
    } else {
        seq![t[0]] + replaced(t.skip(1), pat, repl)
    }
}

/// A text in which the pattern does not occur is left exactly as it is by
/// replacement; substitution therefore never touches already-substituted
/// text a second time.
pub proof fn lemma_replaced_absent(t: Seq<char>, pat: Seq<char>, repl: Seq<char>)
    requires
        pat.len() > 0,
        !occurs_in(t, pat),
    ensures
        replaced(t, pat, repl) == t,
    decreases t.len(),
{
    if t.len() < pat.len() {
    } else {
        if t.subrange(0, pat.len() as int) == pat {
            assert(matches_at_spec(t, pat, 0));
        }
        assert forall|i: int| !matches_at_spec(t.skip(1), pat, i) by {
            if matches_at_spec(t.skip(1), pat, i) {
                assert(t.subrange(i + 1, i + 1 + pat.len()) =~= t.skip(1).subrange(
                    i,
                    i + pat.len(),
                ));
                assert(matches_at_spec(t, pat, i + 1));
            }
        }
        lemma_replaced_absent(t.skip(1), pat, repl);
        assert(seq![t[0]] + t.skip(1) =~= t);
    }
}

/// Replaces every occurrence of `pat` in `text` by `repl`, scanning left to
/// right without re-scanning replaced output.
pub fn replace_all(text: &str, pat: &str, repl: &str) -> (r: String)
    requires
        pat@.len() > 0,
    ensures
        r@ == replaced(text@, pat@, repl@),
{
    let n: usize = text.unicode_len();
    let p: usize = pat.unicode_len();
    let mut out: String = String::new();
    let mut i: usize = 0;
    proof {
        assert(text@.skip(0) =~= text@);
        assert(Seq::<char>::empty() + replaced(text@, pat@, repl@) =~= replaced(
            text@,
            pat@,
            repl@,
        ));
    }
    while i < n
        invariant
            n == text@.len(),
            p == pat@.len(),
            p > 0,
            i <= n,
            replaced(text@, pat@, repl@) == out@ + replaced(text@.skip(i as int), pat@, repl@),
        decreases n - i,
    {
        let ghost tail = text@.skip(i as int);
        if p <= n - i && matches_at(text, pat, i) {
            proof {
                assert(tail.subrange(0, p as int) =~= text@.subrange(i as int, i + p));
                assert(tail.skip(p as int) =~= text@.skip(i + p));
                assert(replaced(tail, pat@, repl@) == repl@ + replaced(
                    text@.skip(i + p),
                    pat@,
                    repl@,
                ));
                assert((out@ + repl@) + replaced(text@.skip(i + p), pat@, repl@) =~= out@ + (repl@
                    + replaced(text@.skip(i + p), pat@, repl@)));
            }
            out.append(repl);
            i += p;
        } else {
            let c = text.get_char(i);
            proof {
                assert(tail.skip(1) =~= text@.skip(i + 1));
                assert(tail[0] == text@[i as int]);
                if tail.len() >= p {
                    assert(tail.subrange(0, p as int) =~= text@.subrange(i as int, i + p));
                    assert(tail.subrange(0, p as int) != pat@);
                } else {
                    assert(replaced(tail, pat@, repl@) == tail);
                    assert(replaced(tail.skip(1), pat@, repl@) == tail.skip(1));
                    assert(seq![tail[0]] + tail.skip(1) =~= tail);
                }
                assert(replaced(tail, pat@, repl@) == seq![text@[i as int]] + replaced(
                    text@.skip(i + 1),
                    pat@,
                    repl@,
                ));
                assert(out@.push(c) + replaced(text@.skip(i + 1), pat@, repl@) =~= out@ + (seq![
                    text@[i as int],
                ] + replaced(text@.skip(i + 1), pat@, repl@)));
            }
            out.push(c);
            i += 1;
        }
    }
    proof {
        assert(text@.skip(n as int) =~= Seq::<char>::empty());
        assert(out@ + Seq::<char>::empty() =~= out@);
    }
    out
}

/// ASCII lower-casing of one character; other characters are unchanged.
pub open spec fn lower_char(c: char) -> char {
    if 65 <= c as u32 && c as u32 <= 90 {
        ((c as u32 + 32) as u8) as char
    } else {
        c
    }
}

/// ASCII lower-casing of a character sequence.
pub open spec fn lower_seq(s: Seq<char>) -> Seq<char> {
    s.map_values(|c: char| lower_char(c))
}

fn to_lower_char(c: char) -> (r: char)
    ensures
        r == lower_char(c),
{
    let u: u32 = c as u32;
    if 65 <= u && u <= 90 {
        ((u + 32) as u8) as char
    } else {
        c
    }
}

/// ASCII-lower-cases a string, leaving every other character as it is.
pub fn to_lower(text: &str) -> (r: String)
    ensures
        r@ == lower_seq(text@),
{
    let n: usize = text.unicode_len();
    let mut out: String = String::new();
    let mut i: usize = 0;
    while i < n
        invariant
            n == text@.len(),
            i <= n,
            out@ == lower_seq(text@.take(i as int)),
        decreases n - i,
    {
        let c = to_lower_char(text.get_char(i));
        out.push(c);
        proof {
            assert(lower_seq(text@.take(i + 1)) =~= lower_seq(text@.take(i as int)).push(
                lower_char(text@[i as int]),
            ));
        }
        i += 1;
    }
    proof {
        assert(text@.take(n as int) =~= text@);
    }
    out
}

/// Both placeholders substituted: first every `{{char}}` becomes the
/// companion's name, then every `{{user}}` becomes the user's name.
pub open spec fn spec_substituted(t: Seq<char>, char_name: Seq<char>, user_name: Seq<char>) -> Seq<
    char,
> {
    replaced(replaced(t, "{{char}}"@, char_name), "{{user}}"@, user_name)
}

/// Renders placeholder text: `{{char}}` becomes `char_name`, `{{user}}`
/// becomes `user_name`. Applied once, at write time; already-substituted
/// text without remaining placeholders passes through unchanged
/// (`lemma_substituted_stable`).
pub fn substitute(text: &str, char_name: &str, user_name: &str) -> (r: String)
    ensures
        r@ == spec_substituted(text@, char_name@, user_name@),
{
    proof {
        reveal_strlit("{{char}}");
        reveal_strlit("{{user}}");
    }
    let pass = replace_all(text, "{{char}}", char_name);
    replace_all(pass.as_str(), "{{user}}", user_name)
}

/// Substitution changes nothing on a text in which neither placeholder
/// occurs: applying it to already-substituted output is the identity.
pub proof fn lemma_substituted_stable(t: Seq<char>, char_name: Seq<char>, user_name: Seq<char>)
    requires
        !occurs_in(t, "{{char}}"@),
        !occurs_in(t, "{{user}}"@),
    ensures
        spec_substituted(t, char_name, user_name) == t,
{
    reveal_strlit("{{char}}");
    reveal_strlit("{{user}}");
    lemma_replaced_absent(t, "{{char}}"@, char_name);
    lemma_replaced_absent(t, "{{user}}"@, user_name);
}

/// The fixed time lexicon: a text is a time question when its
/// lower-cased form contains one of these keywords as a substring.
pub open spec fn is_time_question(t: Seq<char>) -> bool {
    ||| occurs_in(lower_seq(t), "time"@)
    ||| occurs_in(lower_seq(t), "date"@)
    ||| occurs_in(lower_seq(t), "hour"@)
    ||| occurs_in(lower_seq(t), "day"@)
    ||| occurs_in(lower_seq(t), "month"@)
    ||| occurs_in(lower_seq(t), "year"@)
    ||| occurs_in(lower_seq(t), "minute"@)
    ||| occurs_in(lower_seq(t), "second"@)
    ||| occurs_in(lower_seq(t), "morning"@)
    ||| occurs_in(lower_seq(t), "afternoon"@)
    ||| occurs_in(lower_seq(t), "evening"@)
    ||| occurs_in(lower_seq(t), "night"@)
}

/// Detects a time-related question: a case-insensitive substring match of
/// the text against the fixed time lexicon.
pub fn contains_time_question(text: &str) -> (r: bool)
    ensures
        r == is_time_question(text@),
{
    let folded = to_lower(text);
    let f = folded.as_str();
    contains_sub(f, "time") || contains_sub(f, "date") || contains_sub(f, "hour") || contains_sub(
        f,
        "day",
    ) || contains_sub(f, "month") || contains_sub(f, "year") || contains_sub(f, "minute")
        || contains_sub(f, "second") || contains_sub(f, "morning") || contains_sub(f, "afternoon")
        || contains_sub(f, "evening") || contains_sub(f, "night")
}

} // verus!
