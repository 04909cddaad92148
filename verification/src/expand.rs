//! Variable expansion: the text macro substitution pass used by command
//! input and by control-mode text injection.
//!
//! A pass over the text (1) substitutes the escapes `\n` `\r` `\t`, (2)
//! replaces each variable reference `#name` or `#{name}` — a letter followed
//! by word characters, not preceded by an odd count of backslashes — by the
//! recursively expanded value bound to the name, and (3) collapses doubled
//! backslashes and turns `\#` into a literal `#`.
//!
//! Nested references expand recursively up to `MAX_EXPANSION_DEPTH`, so a
//! self-referential variable is reported as an error instead of recursing
//! without bound.

use vstd::prelude::*;
use crate::errors::RctfError;
use crate::kvmap::KvMap;
use crate::text::chars_string;
use crate::text::str_chars;

verus! {

/// How many levels of nested variable references an expansion may follow.
pub const MAX_EXPANSION_DEPTH: u32 = 64;

/// The process-lifetime variable store consulted during expansion.
pub type VarStore = KvMap<String>;

pub open spec fn is_letter(c: char) -> bool {
    (65 <= c as int && c as int <= 90) || (97 <= c as int && c as int <= 122)
}

/// Word characters: letters, digits and underscore.
pub open spec fn is_word_char(c: char) -> bool {
    is_letter(c) || (48 <= c as int && c as int <= 57) || c == '_'
}

/// One left-to-right pass replacing each `\` followed by `x` with `rep`.
pub open spec fn replace2(s: Seq<char>, x: char, rep: char) -> Seq<char>
    decreases s.len(),
{
    if s.len() >= 2 && s[0] == '\\' && s[1] == x {
        seq![rep] + replace2(s.skip(2), x, rep)
    } else if s.len() >= 1 {
        seq![s[0]] + replace2(s.skip(1), x, rep)
    } else {
        Seq::empty()
    }
}

/// The escape substitution pass: `\n`, then `\r`, then `\t`.
pub open spec fn unescape_specials(s: Seq<char>) -> Seq<char> {
    replace2(replace2(replace2(s, 'n', '\n'), 'r', '\r'), 't', '\t')
}

/// The final pass: `\\` collapses to `\` and `\#` becomes a literal `#`.
pub open spec fn collapse_backslashes(s: Seq<char>) -> Seq<char>
    decreases s.len(),
{
    if s.len() >= 2 && s[0] == '\\' && (s[1] == '\\' || s[1] == '#') {
        seq![s[1]] + collapse_backslashes(s.skip(2))
    } else if s.len() >= 1 {
        seq![s[0]] + collapse_backslashes(s.skip(1))
    } else {
        Seq::empty()
    }
}

/// The number of consecutive backslashes immediately before position `i`.
pub open spec fn bs_run(s: Seq<char>, i: int) -> nat
    decreases i,
{
    if i <= 0 || i > s.len() || s[i - 1] != '\\' {
        0
    } else {
        1 + bs_run(s, i - 1)
    }
}

/// The length of the run of word characters starting at position `i`.
pub open spec fn word_run(s: Seq<char>, i: int) -> nat
    decreases s.len() - i,
{
    if i < 0 || i >= s.len() || !is_word_char(s[i]) {
        0
    } else {
        1 + word_run(s, i + 1)
    }
}

/// A plain reference `#name` starts at `i`: an unescaped `#` followed by a
/// letter.
pub open spec fn plain_ref_at(s: Seq<char>, i: int) -> bool {
    &&& 0 <= i < s.len()
    &&& s[i] == '#'
    &&& bs_run(s, i) % 2 == 0
    &&& i + 1 < s.len()
    &&& is_letter(s[i + 1])
}

/// A braced reference `#{name}` starts at `i`: an unescaped `#`, then `{`, a
/// letter, word characters, and a closing `}` right after them.
pub open spec fn braced_ref_at(s: Seq<char>, i: int) -> bool {
    &&& 0 <= i < s.len()
    &&& s[i] == '#'
    &&& bs_run(s, i) % 2 == 0
    &&& i + 1 < s.len()
    &&& s[i + 1] == '{'
    &&& i + 2 < s.len()
    &&& is_letter(s[i + 2])
    &&& i + 2 + word_run(s, i + 2) < s.len()
    &&& s[i + 2 + word_run(s, i + 2)] == '}'
}

pub open spec fn ref_at(s: Seq<char>, i: int) -> bool {
    plain_ref_at(s, i) || braced_ref_at(s, i)
}

/// The referenced variable name at a reference position.
pub open spec fn ref_name(s: Seq<char>, i: int) -> Seq<char> {
    if plain_ref_at(s, i) {
        s.subrange(i + 1, i + 1 + word_run(s, i + 1))
    } else {
        s.subrange(i + 2, i + 2 + word_run(s, i + 2))
    }
}

/// The position just past the reference at `i`.
pub open spec fn ref_end(s: Seq<char>, i: int) -> int {
    if plain_ref_at(s, i) {
        i + 1 + word_run(s, i + 1)
    } else {
        i + 2 + word_run(s, i + 2) + 1
    }
}

/// What the reference substitution pass yields.
#[verifier::ext_equal]
pub enum ExpandOutcome {
    /// The substituted text.
    Done(Seq<char>),
    /// A reference named a variable with no binding.
    Undefined(Seq<char>),
    /// Nested references passed the depth limit.
    TooDeep,
}

/// Prepends literal text to a successful outcome.
pub open spec fn emit(prefix: Seq<char>, o: ExpandOutcome) -> ExpandOutcome {
    match o {
        ExpandOutcome::Done(v) => ExpandOutcome::Done(prefix + v),
        _ => o,
    }
}

/// The run of word characters starting inside the text ends inside it.
proof fn lemma_word_run_bound(s: Seq<char>, i: int)
    requires
        0 <= i <= s.len(),
    ensures
        i + word_run(s, i) <= s.len(),
    decreases s.len() - i,
{
    if i < s.len() && is_word_char(s[i]) {
        lemma_word_run_bound(s, i + 1);
    }
}

/// The reference substitution pass over `s` from position `i` on: literal
/// characters are kept, and each reference is replaced by the full expansion
/// of its variable's value, which is not rescanned for further references
/// here — the recursion alone expands nested references.
pub open spec fn scan(store: Map<Seq<char>, Seq<char>>, s: Seq<char>, i: int, depth: nat) -> ExpandOutcome
    decreases depth, s.len() - i,
    via scan_decreases
{
    if i < 0 || i >= s.len() {
        ExpandOutcome::Done(Seq::empty())
    } else if ref_at(s, i) {
        let name = ref_name(s, i);
        if !store.contains_key(name) {
            ExpandOutcome::Undefined(name)
        } else if depth == 0 {
            ExpandOutcome::TooDeep
        } else {
            match scan(store, unescape_specials(store[name]), 0, (depth - 1) as nat) {
                ExpandOutcome::Done(value) => emit(
                    collapse_backslashes(value),
                    scan(store, s, ref_end(s, i), depth),
                ),
                o => o,
            }
        }
    } else {
        emit(seq![s[i]], scan(store, s, i + 1, depth))
    }
}

#[via_fn]
proof fn scan_decreases(store: Map<Seq<char>, Seq<char>>, s: Seq<char>, i: int, depth: nat) {
    if 0 <= i < s.len() {
        if i + 1 <= s.len() {
            lemma_word_run_bound(s, i + 1);
        }
        if i + 2 <= s.len() {
            lemma_word_run_bound(s, i + 2);
        }
    }
}

/// The whole expansion of `s` against `store`: escape substitution, then
/// reference substitution, then backslash collapsing. A reference's value
/// goes through the whole expansion again, one depth level down.
pub open spec fn expand_outcome(store: Map<Seq<char>, Seq<char>>, s: Seq<char>, depth: nat) -> ExpandOutcome {
    match scan(store, unescape_specials(s), 0, depth) {
        ExpandOutcome::Done(v) => ExpandOutcome::Done(collapse_backslashes(v)),
        o => o,
    }
}

fn is_letter_exec(c: char) -> (r: bool)
    ensures
        r == is_letter(c),
{
    let u = c as u32;
    (65 <= u && u <= 90) || (97 <= u && u <= 122)
}

fn is_word_char_exec(c: char) -> (r: bool)
    ensures
        r == is_word_char(c),
{
    let u = c as u32;
    is_letter_exec(c) || (48 <= u && u <= 57) || c == '_'
}

/// Every character inside a word run is a word character.
proof fn lemma_word_run_chars(s: Seq<char>, j: int)
    requires
        0 <= j <= s.len(),
    ensures
        forall|k: int| j <= k < j + word_run(s, j) ==> is_word_char(s[k]),
    decreases s.len() - j,
{
    if j < s.len() && is_word_char(s[j]) {
        lemma_word_run_chars(s, j + 1);
    }
}

proof fn lemma_replace2_step(s: Seq<char>, x: char, rep: char, i: int)
    requires
        0 <= i < s.len(),
    ensures
        (s[i] == '\\' && i + 1 < s.len() && s[i + 1] == x) ==> replace2(s.skip(i), x, rep)
            == seq![rep] + replace2(s.skip(i + 2), x, rep),
        !(s[i] == '\\' && i + 1 < s.len() && s[i + 1] == x) ==> replace2(s.skip(i), x, rep)
            == seq![s[i]] + replace2(s.skip(i + 1), x, rep),
{
    let t = s.skip(i);
    assert(t[0] == s[i]);
    if i + 1 < s.len() {
        assert(t[1] == s[i + 1]);
    }
    if s[i] == '\\' && i + 1 < s.len() && s[i + 1] == x {
        assert(t.skip(2) =~= s.skip(i + 2));
    } else {
        assert(t.skip(1) =~= s.skip(i + 1));
    }
}

proof fn lemma_collapse_step(s: Seq<char>, i: int)
    requires
        0 <= i < s.len(),
    ensures
        (s[i] == '\\' && i + 1 < s.len() && (s[i + 1] == '\\' || s[i + 1] == '#'))
            ==> collapse_backslashes(s.skip(i)) == seq![s[i + 1]] + collapse_backslashes(
            s.skip(i + 2),
        ),
        !(s[i] == '\\' && i + 1 < s.len() && (s[i + 1] == '\\' || s[i + 1] == '#'))
            ==> collapse_backslashes(s.skip(i)) == seq![s[i]] + collapse_backslashes(s.skip(i + 1)),
{
    let t = s.skip(i);
    assert(t[0] == s[i]);
    if i + 1 < s.len() {
        assert(t[1] == s[i + 1]);
    }
    if s[i] == '\\' && i + 1 < s.len() && (s[i + 1] == '\\' || s[i + 1] == '#') {
        assert(t.skip(2) =~= s.skip(i + 2));
    } else {
        assert(t.skip(1) =~= s.skip(i + 1));
    }
}

fn replace_escape(v: &Vec<char>, x: char, rep: char) -> (out: Vec<char>)
    ensures
        out@ == replace2(v@, x, rep),
{
    let mut out: Vec<char> = Vec::new();
    let mut i: usize = 0;
    proof {
        assert(v@.skip(0) =~= v@);
    }
    while i < v.len()
        invariant
            i <= v@.len(),
            out@ + replace2(v@.skip(i as int), x, rep) == replace2(v@, x, rep),
        decreases v@.len() - i,
    {
        let ghost out0 = out@;
        let ghost i0 = i as int;
        proof {
            lemma_replace2_step(v@, x, rep, i as int);
        }
        if v[i] == '\\' && i + 1 < v.len() && v[i + 1] == x {
            out.push(rep);
            i = i + 2;
        } else {
            out.push(v[i]);
            i = i + 1;
        }
        proof {
            assert(out@ + replace2(v@.skip(i as int), x, rep) =~= out0 + replace2(
                v@.skip(i0),
                x,
                rep,
            ));
        }
    }
    proof {
        assert(v@.skip(v@.len() as int) =~= Seq::<char>::empty());
        assert(replace2(Seq::<char>::empty(), x, rep) =~= Seq::<char>::empty());
        assert(out@ + Seq::<char>::empty() =~= out@);
    }
    out
}

fn collapse_chars(v: &Vec<char>) -> (out: Vec<char>)
    ensures
        out@ == collapse_backslashes(v@),
{
    let mut out: Vec<char> = Vec::new();
    let mut i: usize = 0;
    proof {
        assert(v@.skip(0) =~= v@);
    }
    while i < v.len()
        invariant
            i <= v@.len(),
            out@ + collapse_backslashes(v@.skip(i as int)) == collapse_backslashes(v@),
        decreases v@.len() - i,
    {
        let ghost out0 = out@;
        let ghost i0 = i as int;
        proof {
            lemma_collapse_step(v@, i as int);
        }
        if v[i] == '\\' && i + 1 < v.len() && (v[i + 1] == '\\' || v[i + 1] == '#') {
            out.push(v[i + 1]);
            i = i + 2;
        } else {
            out.push(v[i]);
            i = i + 1;
        }
        proof {
            assert(out@ + collapse_backslashes(v@.skip(i as int)) =~= out0 + collapse_backslashes(
                v@.skip(i0),
            ));
        }
    }
    proof {
        assert(v@.skip(v@.len() as int) =~= Seq::<char>::empty());
        assert(collapse_backslashes(Seq::<char>::empty()) =~= Seq::<char>::empty());
        assert(out@ + Seq::<char>::empty() =~= out@);
    }
    out
}

fn unescape_chars(v: &Vec<char>) -> (r: Vec<char>)
    ensures
        r@ == unescape_specials(v@),
{
    let a = replace_escape(v, 'n', '\n');
    let b = replace_escape(&a, 'r', '\r');
    replace_escape(&b, 't', '\t')
}

fn word_run_len(p: &Vec<char>, start: usize) -> (r: usize)
    requires
        start <= p@.len(),
    ensures
        r as nat == word_run(p@, start as int),
        start + r <= p@.len(),
{
    let mut j = start;
    while j < p.len() && is_word_char_exec(p[j])
        invariant
            start <= j <= p@.len(),
            word_run(p@, start as int) == j - start + word_run(p@, j as int),
        decreases p@.len() - j,
    {
        j = j + 1;
    }
    j - start
}

fn sub_chars(p: &Vec<char>, from: usize, to: usize) -> (r: Vec<char>)
    requires
        from <= to <= p@.len(),
    ensures
        r@ == p@.subrange(from as int, to as int),
{
    let mut r: Vec<char> = Vec::new();
    let mut j = from;
    while j < to
        invariant
            from <= j <= to <= p@.len(),
            r@ == p@.subrange(from as int, j as int),
        decreases to - j,
    {
        r.push(p[j]);
        proof {
            assert(r@ =~= p@.subrange(from as int, j as int + 1));
        }
        j = j + 1;
    }
    r
}

/// The reference starting at position `i`, if any: its name and the
/// position just past it.
fn find_ref(p: &Vec<char>, i: usize, run: usize) -> (r: Option<(String, usize)>)
    requires
        i < p@.len(),
        run as nat == bs_run(p@, i as int),
    ensures
        match r {
            Some((name, end)) => {
                &&& ref_at(p@, i as int)
                &&& name@ == ref_name(p@, i as int)
                &&& end as int == ref_end(p@, i as int)
                &&& end <= p@.len()
            },
            None => !ref_at(p@, i as int),
        },
{
    let n = p.len();
    if !(p[i] == '#' && run % 2 == 0) {
        return None;
    }
    if i + 1 < n && is_letter_exec(p[i + 1]) {
        let wr = word_run_len(p, i + 1);
        let name = chars_string(&sub_chars(p, i + 1, i + 1 + wr));
        return Some((name, i + 1 + wr));
    }
    if i + 1 < n && p[i + 1] == '{' && i + 2 < n && is_letter_exec(p[i + 2]) {
        let wr = word_run_len(p, i + 2);
        if i + 2 + wr < n && p[i + 2 + wr] == '}' {
            let name = chars_string(&sub_chars(p, i + 2, i + 2 + wr));
            return Some((name, i + 2 + wr + 1));
        }
    }
    None
}

/// Substitutes escapes, variable references and backslash pairs in the
/// characters of `s`, following nested references down `depth` levels.
fn expand_chars(store: &VarStore, s: &Vec<char>, depth: u32) -> (r: Result<Vec<char>, RctfError>)
    ensures
        match r {
            Ok(v) => expand_outcome(store@, s@, depth as nat) == ExpandOutcome::Done(v@),
            Err(e) => match e {
                RctfError::UndefinedVariable(name) => expand_outcome(store@, s@, depth as nat)
                    == ExpandOutcome::Undefined(name@),
                RctfError::ExpansionDepthExceeded => expand_outcome(store@, s@, depth as nat)
                    == ExpandOutcome::TooDeep,
                _ => false,
            },
        },
    decreases depth,
{
    let p = unescape_chars(s);
    let ghost d = depth as nat;
    let mut out: Vec<char> = Vec::new();
    let mut i: usize = 0;
    let mut run: usize = 0;
    while i < p.len()
        invariant
            p@ == unescape_specials(s@),
            d == depth as nat,
            i <= p@.len(),
            run <= i,
            run as nat == bs_run(p@, i as int),
            emit(out@, scan(store@, p@, i as int, d)) == scan(store@, p@, 0, d),
        decreases p@.len() - i,
    {
        let ghost out0 = out@;
        let ghost i0 = i as int;
        match find_ref(&p, i, run) {
            Some((name, end)) => {
                match store.get(&name) {
                    None => {
                        proof {
                            assert(scan(store@, p@, i0, d) == ExpandOutcome::Undefined(name@));
                        }
                        return Err(RctfError::UndefinedVariable(name));
                    },
                    Some(value) => {
                        if depth == 0 {
                            proof {
                                assert(scan(store@, p@, i0, d) == ExpandOutcome::TooDeep);
                            }
                            return Err(RctfError::ExpansionDepthExceeded);
                        }
                        let value_chars = str_chars(value.as_str());
                        match expand_chars(store, &value_chars, depth - 1) {
                            Err(e) => {
                                proof {
                                    assert(scan(store@, p@, i0, d) == match scan(
                                        store@,
                                        unescape_specials(store@[name@]),
                                        0,
                                        (d - 1) as nat,
                                    ) {
                                        ExpandOutcome::Done(value) => emit(
                                            collapse_backslashes(value),
                                            scan(store@, p@, ref_end(p@, i0), d),
                                        ),
                                        o => o,
                                    });
                                }
                                return Err(e);
                            },
                            Ok(mut ev) => {
                                proof {
                                    assert(expand_outcome(store@, value_chars@, (d - 1) as nat)
                                        == ExpandOutcome::Done(ev@));
                                    lemma_word_run_chars(p@, i0 + 1);
                                    lemma_word_run_chars(p@, i0 + 2);
                                    assert(p@[ref_end(p@, i0) - 1] != '\\');
                                    assert(bs_run(p@, ref_end(p@, i0)) == 0);
                                }
                                out.append(&mut ev);
                                i = end;
                                run = 0;
                                proof {
                                    assert(emit(out@, scan(store@, p@, i as int, d)) =~~= emit(
                                        out0,
                                        scan(store@, p@, i0, d),
                                    ));
                                }
                            },
                        }
                    },
                }
            },
            None => {
                let c = p[i];
                out.push(c);
                if c == '\\' {
                    run = run + 1;
                } else {
                    run = 0;
                }
                i = i + 1;
                proof {
                    assert(emit(out@, scan(store@, p@, i as int, d)) =~~= emit(
                        out0,
                        scan(store@, p@, i0, d),
                    ));
                }
            },
        }
    }
    proof {
        assert(scan(store@, p@, p@.len() as int, d) == ExpandOutcome::Done(Seq::<char>::empty()));
        assert(out@ + Seq::<char>::empty() =~= out@);
        assert(scan(store@, p@, 0, d) == ExpandOutcome::Done(out@));
    }
    let collapsed = collapse_chars(&out);
    Ok(collapsed)
}

/// Expands `input` against the store: escape substitution, recursive
/// variable substitution, backslash collapsing. Fails exactly when a
/// reference names an unbound variable or nesting passes the depth limit.
pub fn expand_with(store: &VarStore, input: &str) -> (r: Result<String, RctfError>)
    ensures
        match r {
            Ok(v) => expand_outcome(store@, input@, MAX_EXPANSION_DEPTH as nat)
                == ExpandOutcome::Done(v@),
            Err(e) => match e {
                RctfError::UndefinedVariable(name) => expand_outcome(
                    store@,
                    input@,
                    MAX_EXPANSION_DEPTH as nat,
                ) == ExpandOutcome::Undefined(name@),
                RctfError::ExpansionDepthExceeded => expand_outcome(
                    store@,
                    input@,
                    MAX_EXPANSION_DEPTH as nat,
                ) == ExpandOutcome::TooDeep,
                _ => false,
            },
        },
{
    let chars = str_chars(input);
    match expand_chars(store, &chars, MAX_EXPANSION_DEPTH) {
        Ok(v) => Ok(chars_string(&v)),
        Err(e) => Err(e),
    }
}

} // verus!
