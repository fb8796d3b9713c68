//! The action context: run-scoped variable bindings used to interpolate
//! oracle outputs into subsequent action parameters.
//!
//! `expand` substitutes every `$name` token whose name is currently bound;
//! unmatched tokens pass through unchanged. A token name is a maximal run of
//! ASCII letters, digits and underscores after the dollar sign.

use vstd::prelude::*;
use crate::textutil::{str_chars, chars_to_string, str_eq};

verus! {

/// The bindings a sequence of `(name, value)` pairs stands for: later pairs
/// shadow earlier ones.
pub open spec fn bindings_of(pairs: Seq<(String, String)>) -> Map<Seq<char>, Seq<char>>
    decreases pairs.len(),
{
    if pairs.len() == 0 {
        Map::empty()
    } else {
        bindings_of(pairs.drop_last()).insert(pairs.last().0@, pairs.last().1@)
    }
}

/// A character that may appear in a `$name` token.
pub open spec fn is_ident_char(c: char) -> bool {
    ||| ('a' <= c && c <= 'z')
    ||| ('A' <= c && c <= 'Z')
    ||| ('0' <= c && c <= '9')
    ||| c == '_'
}

/// The first index at or after `i` holding a non-identifier character, or the
/// length when the identifier run reaches the end.
pub open spec fn ident_end(s: Seq<char>, i: int) -> int
    decreases s.len() - i,
{
    if 0 <= i && i < s.len() && is_ident_char(s[i]) {
        ident_end(s, i + 1)
    } else {
        i
    }
}

proof fn lemma_ident_end_bounds(s: Seq<char>, i: int)
    requires
        0 <= i <= s.len(),
    ensures
        i <= ident_end(s, i) <= s.len(),
    decreases s.len() - i,
{
    if i < s.len() && is_ident_char(s[i]) {
        lemma_ident_end_bounds(s, i + 1);
    }
}

proof fn lemma_ident_end_next(s: Seq<char>, i: int, t: int)
    requires
        0 <= i <= t < s.len(),
        is_ident_char(s[t]),
        ident_end(s, i) >= t,
    ensures
        ident_end(s, i) >= t + 1,
    decreases t - i,
{
    if i < t {
        lemma_ident_end_next(s, i + 1, t);
    } else {
        lemma_ident_end_bounds(s, i + 1);
    }
}

proof fn lemma_ident_end_stop(s: Seq<char>, i: int, t: int)
    requires
        0 <= i <= t < s.len(),
        !is_ident_char(s[t]),
        ident_end(s, i) >= t,
    ensures
        ident_end(s, i) == t,
    decreases t - i,
{
    if i < t {
        lemma_ident_end_stop(s, i + 1, t);
    }
}

proof fn lemma_ident_end_all(s: Seq<char>, i: int)
    requires
        0 <= i <= s.len(),
        forall|k: int| i <= k < s.len() ==> is_ident_char(s[k]),
        ident_end(s, i) >= i,
    ensures
        ident_end(s, i) == s.len(),
    decreases s.len() - i,
{
    if i < s.len() {
        lemma_ident_end_bounds(s, i + 1);
        lemma_ident_end_all(s, i + 1);
    }
}

/// Textual substitution of `$name` tokens by the bound values: bound tokens
/// are replaced by their value, every other character — and every unmatched
/// token — passes through unchanged.
pub open spec fn expand_spec(s: Seq<char>, m: Map<Seq<char>, Seq<char>>) -> Seq<char>
    decreases s.len(),
    via expand_spec_decreases
{
    if s.len() == 0 {
        Seq::empty()
    } else if s[0] != '$' {
        seq![s[0]] + expand_spec(s.skip(1), m)
    } else {
        let e = ident_end(s, 1);
        let name = s.subrange(1, e);
        if e > 1 && m.contains_key(name) {
            m[name] + expand_spec(s.skip(e), m)
        } else {
            seq!['$'] + expand_spec(s.skip(1), m)
        }
    }
}

#[via_fn]
proof fn expand_spec_decreases(s: Seq<char>, m: Map<Seq<char>, Seq<char>>) {
    if s.len() > 0 {
        lemma_ident_end_bounds(s, 1);
    }
}

/// A process-local mapping from variable name to string value, owned by one
/// automation run; decisions bind variables here and later actions read them.
pub struct ActionContext {
    pairs: Vec<(String, String)>,
}

impl View for ActionContext {
    type V = Map<Seq<char>, Seq<char>>;

    closed spec fn view(&self) -> Map<Seq<char>, Seq<char>> {
        bindings_of(self.pairs@)
    }
}

/// Looks a name up in a pair sequence, later pairs first.
spec fn lookup(pairs: Seq<(String, String)>, name: Seq<char>) -> Option<Seq<char>>
    decreases pairs.len(),
{
    if pairs.len() == 0 {
        None
    } else if pairs.last().0@ == name {
        Some(pairs.last().1@)
    } else {
        lookup(pairs.drop_last(), name)
    }
}

proof fn lemma_lookup_is_bindings(pairs: Seq<(String, String)>, name: Seq<char>)
    ensures
        lookup(pairs, name) == (if bindings_of(pairs).contains_key(name) {
            Some(bindings_of(pairs)[name])
        } else {
            None::<Seq<char>>
        }),
    decreases pairs.len(),
{
    if pairs.len() > 0 {
        lemma_lookup_is_bindings(pairs.drop_last(), name);
    }
}

impl ActionContext {
    /// A fresh context with no bindings.
    pub fn new() -> (r: Self)
        ensures
            r@ == Map::<Seq<char>, Seq<char>>::empty(),
    {
        ActionContext { pairs: Vec::new() }
    }

    /// Bind `name` to `value`, shadowing any earlier binding.
    pub fn set(&mut self, name: &str, value: String)
        ensures
            final(self)@ == old(self)@.insert(name@, value@),
    {
        let owned = name.to_owned();
        self.pairs.push((owned, value));
        proof {
            assert(self.pairs@.drop_last() =~= old(self).pairs@);
        }
    }

    /// The value bound to `name`, if any.
    pub fn get(&self, name: &str) -> (r: Option<&String>)
        ensures
            match r {
                Some(v) => self@.contains_key(name@) && v@ == self@[name@],
                None => !self@.contains_key(name@),
            },
    {
        proof {
            assert(self.pairs@.take(self.pairs@.len() as int) =~= self.pairs@);
        }
        let mut j: usize = self.pairs.len();
        while j > 0
            invariant
                j <= self.pairs@.len(),
                lookup(self.pairs@, name@) == lookup(self.pairs@.take(j as int), name@),
            decreases j,
        {
            proof {
                assert(self.pairs@.take(j as int).last() == self.pairs@[j - 1]);
                assert(self.pairs@.take(j as int).drop_last() =~= self.pairs@.take(
                    j - 1,
                ));
            }
            if str_eq(self.pairs[j - 1].0.as_str(), name) {
                proof {
                    assert(lookup(self.pairs@.take(j as int), name@) == Some(
                        self.pairs@[j - 1].1@,
                    ));
                    lemma_lookup_is_bindings(self.pairs@, name@);
                }
                return Some(&self.pairs[j - 1].1);
            }
            j -= 1;
        }
        proof {
            assert(self.pairs@.take(0) =~= Seq::<(String, String)>::empty());
            lemma_lookup_is_bindings(self.pairs@, name@);
        }
        None
    }

    /// Expand every `$name` token of the template whose name is bound,
    /// leaving unmatched tokens and all other text unchanged.
    pub fn expand(&self, template: &str) -> (r: String)
        ensures
            r@ == expand_spec(template@, self@),
    {
        let chars = str_chars(template);
        let n = chars.len();
        let mut out: Vec<char> = Vec::new();
        let mut i: usize = 0;
        proof {
            assert(chars@.skip(0) =~= chars@);
            assert(Seq::<char>::empty() + expand_spec(template@, self@) =~= expand_spec(
                template@,
                self@,
            ));
        }
        while i < n
            invariant
                i <= n,
                n == chars@.len(),
                chars@ == template@,
                expand_spec(template@, self@) == out@ + expand_spec(
                    chars@.skip(i as int),
                    self@,
                ),
            decreases n - i,
        {
            let ghost suffix = chars@.skip(i as int);
            let c = chars[i];
            if c != '$' {
                out.push(c);
                i += 1;
                proof {
                    assert(suffix[0] == c);
                    assert(suffix.skip(1) =~= chars@.skip(i as int));
                    assert(expand_spec(suffix, self@) == seq![c] + expand_spec(
                        chars@.skip(i as int),
                        self@,
                    ));
                }
            } else {
                // Scan the identifier run after the dollar sign.
                proof {
                    lemma_ident_end_bounds(suffix, 1);
                }
                let mut j: usize = i + 1;
                while j < n && is_ident(chars[j])
                    invariant
                        i + 1 <= j <= n,
                        n == chars@.len(),
                        suffix == chars@.skip(i as int),
                        i < n,
                        forall|k: int| i + 1 <= k < j ==> is_ident_char(chars@[k]),
                        ident_end(suffix, 1) >= j - i,
                    decreases n - j,
                {
                    proof {
                        assert(suffix[j - i] == chars@[j as int]);
                        lemma_ident_end_next(suffix, 1, j - i);
                    }
                    j += 1;
                }
                proof {
                    if j < n {
                        assert(suffix[j - i] == chars@[j as int]);
                        lemma_ident_end_stop(suffix, 1, j - i);
                    } else {
                        assert(forall|k: int| 1 <= k < suffix.len() ==> is_ident_char(
                            #[trigger] suffix[k],
                        ));
                        lemma_ident_end_all(suffix, 1);
                    }
                    assert(ident_end(suffix, 1) == j - i);
                }
                let ghost name_spec = suffix.subrange(1, j - i);
                if j > i + 1 {
                    // A non-empty token: look its name up.
                    let mut name_chars: Vec<char> = Vec::new();
                    let mut k: usize = i + 1;
                    while k < j
                        invariant
                            i + 1 <= k <= j <= n,
                            n == chars@.len(),
                            name_chars@ == chars@.subrange(i + 1, k as int),
                        decreases j - k,
                    {
                        name_chars.push(chars[k]);
                        k += 1;
                    }
                    proof {
                        assert(name_chars@ =~= name_spec);
                    }
                    let name = chars_to_string(&name_chars);
                    match self.get(name.as_str()) {
                        Some(value) => {
                            let ghost out_before = out@;
                            let ghost i0 = i as int;
                            let vchars = str_chars(value.as_str());
                            let mut q: usize = 0;
                            while q < vchars.len()
                                invariant
                                    q <= vchars@.len(),
                                    out@ == out_before + vchars@.take(q as int),
                                decreases vchars@.len() - q,
                            {
                                out.push(vchars[q]);
                                q += 1;
                            }
                            proof {
                                assert(vchars@.take(vchars@.len() as int) =~= vchars@);
                            }
                            i = j;
                            proof {
                                assert(suffix.skip(j - i0) =~= chars@.skip(i as int));
                            }
                        },
                        None => {
                            out.push('$');
                            i += 1;
                            proof {
                                assert(suffix.skip(1) =~= chars@.skip(i as int));
                            }
                        },
                    }
                } else {
                    // An empty token: the dollar sign passes through.
                    out.push('$');
                    i += 1;
                    proof {
                        assert(suffix.skip(1) =~= chars@.skip(i as int));
                    }
                }
            }
        }
        proof {
            assert(chars@.skip(n as int) =~= Seq::<char>::empty());
        }
        chars_to_string(&out)
    }
}

/// Whether a character may appear in a `$name` token.
pub fn is_ident(c: char) -> (r: bool)
    ensures
        r == is_ident_char(c),
{
    (c >= 'a' && c <= 'z') || (c >= 'A' && c <= 'Z') || (c >= '0' && c <= '9') || c == '_'
}

} // verus!
