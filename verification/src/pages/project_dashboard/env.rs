//! The environment of a project as text: one `KEY=VALUE` per line.

use crate::models::project::{distinct_keys, EnvVar, UpdateEnvPayload};
use crate::text::{
    chars_of, find_char, lemma_position, line_ranges, lines, position, trim_bounds, trimmed,
};
use vstd::prelude::*;

verus! {

/// A variable as a pair of texts.
pub open spec fn pair_of(var: EnvVar) -> (Seq<char>, Seq<char>) {
    (var.key@, var.value@)
}

/// A list of variables as pairs of texts.
pub open spec fn pairs_of(vars: Seq<EnvVar>) -> Seq<(Seq<char>, Seq<char>)> {
    Seq::new(vars.len(), |i: int| pair_of(vars[i]))
}

/// The line that writes one variable.
pub open spec fn env_line(pair: (Seq<char>, Seq<char>)) -> Seq<char> {
    pair.0 + seq!['='] + pair.1
}

/// The text that writes `pairs`: their lines, with a line feed between two of them.
pub open spec fn env_text(pairs: Seq<(Seq<char>, Seq<char>)>) -> Seq<char>
    decreases pairs.len(),
{
    if pairs.len() == 0 {
        Seq::empty()
    } else if pairs.len() == 1 {
        env_line(pairs[0])
    } else {
        env_text(pairs.drop_last()) + seq!['\n'] + env_line(pairs.last())
    }
}

/// Writes the variables as text for the editor; no variables give an empty text.
pub fn format_env_vars(vars: &Option<Vec<EnvVar>>) -> (text: String)
    ensures
        text@ == match *vars {
            Some(v) => env_text(pairs_of(v@)),
            None => Seq::<char>::empty(),
        },
{
    let mut text = String::new();
    match vars {
        None => {},
        Some(v) => {
            let mut i: usize = 0;
            proof {
                reveal_strlit("=");
                reveal_strlit("\n");
            }
            while i < v.len()
                invariant
                    i <= v.len(),
                    "="@ == seq!['='],
                    "\n"@ == seq!['\n'],
                    text@ == env_text(pairs_of(v@).take(i as int)),
                decreases v.len() - i,
            {
                let ghost done = pairs_of(v@).take(i as int);
                let ghost next = pairs_of(v@).take(i + 1);
                if i > 0 {
                    text.append("\n");
                }
                text.append(v[i].key.as_str());
                text.append("=");
                text.append(v[i].value.as_str());
                proof {
                    assert(next.drop_last() =~= done);
                }
                i += 1;
            }
            proof {
                assert(pairs_of(v@).take(v.len() as int) =~= pairs_of(v@));
            }
        },
    }
    text
}

/// The variable that a line of the editor states: the line is trimmed and cut at its first
/// `=`; key and value are trimmed; a line without `=` or with an empty key states none.
pub open spec fn env_entry(line: Seq<char>) -> Option<(Seq<char>, Seq<char>)> {
    let t = trimmed(line);
    let p = position(t, '=');
    if p < t.len() && trimmed(t.take(p)).len() > 0 {
        Some((trimmed(t.take(p)), trimmed(t.skip(p + 1))))
    } else {
        None
    }
}

/// The index of the first of `pairs` with the key `key`, or their number where none has it.
pub open spec fn key_index(pairs: Seq<(Seq<char>, Seq<char>)>, key: Seq<char>) -> int
    decreases pairs.len(),
{
    if pairs.len() == 0 || pairs[0].0 == key {
        0
    } else {
        1 + key_index(pairs.drop_first(), key)
    }
}

/// `pairs` with `key` set to `value`: in place where the key is there already, at the end
/// where it is new.
pub open spec fn upsert(pairs: Seq<(Seq<char>, Seq<char>)>, key: Seq<char>, value: Seq<char>) -> Seq<
    (Seq<char>, Seq<char>),
> {
    let i = key_index(pairs, key);
    if 0 <= i < pairs.len() {
        pairs.update(i, (key, value))
    } else {
        pairs.push((key, value))
    }
}

/// The variables that `lines` state, each key once: a later line replaces the value of an
/// earlier one with the same key.
pub open spec fn env_vars_of(lines: Seq<Seq<char>>) -> Seq<(Seq<char>, Seq<char>)>
    decreases lines.len(),
{
    if lines.len() == 0 {
        Seq::empty()
    } else {
        let earlier = env_vars_of(lines.drop_last());
        match env_entry(lines.last()) {
            Some((key, value)) => upsert(earlier, key, value),
            None => earlier,
        }
    }
}

/// No key occurs twice in `pairs`.
pub open spec fn distinct_pair_keys(pairs: Seq<(Seq<char>, Seq<char>)>) -> bool {
    forall|i: int, j: int| 0 <= i < j < pairs.len() ==> pairs[i].0 != pairs[j].0
}

/// `key_index` lies within the list, no pair before it has the key, and the pair at it has
/// the key unless none has.
pub proof fn lemma_key_index(pairs: Seq<(Seq<char>, Seq<char>)>, key: Seq<char>)
    ensures
        0 <= key_index(pairs, key) <= pairs.len(),
        forall|i: int| 0 <= i < key_index(pairs, key) ==> pairs[i].0 != key,
        key_index(pairs, key) < pairs.len() ==> pairs[key_index(pairs, key)].0 == key,
    decreases pairs.len(),
{
    if !(pairs.len() == 0 || pairs[0].0 == key) {
        let rest = pairs.drop_first();
        lemma_key_index(rest, key);
        assert forall|i: int| 0 <= i < key_index(pairs, key) implies pairs[i].0 != key by {
            if i > 0 {
                assert(pairs[i] == rest[i - 1]);
            }
        }
    }
}

/// An index with the three properties of `lemma_key_index` is `key_index`.
pub proof fn lemma_key_index_unique(pairs: Seq<(Seq<char>, Seq<char>)>, key: Seq<char>, p: int)
    requires
        0 <= p <= pairs.len(),
        forall|i: int| 0 <= i < p ==> pairs[i].0 != key,
        p < pairs.len() ==> pairs[p].0 == key,
    ensures
        key_index(pairs, key) == p,
{
    lemma_key_index(pairs, key);
}

/// Setting a key keeps the keys distinct.
pub proof fn lemma_upsert_distinct(
    pairs: Seq<(Seq<char>, Seq<char>)>,
    key: Seq<char>,
    value: Seq<char>,
)
    requires
        distinct_pair_keys(pairs),
    ensures
        distinct_pair_keys(upsert(pairs, key, value)),
{
    lemma_key_index(pairs, key);
}

/// The variables that lines state have distinct keys.
pub proof fn lemma_env_vars_distinct(lines: Seq<Seq<char>>)
    ensures
        distinct_pair_keys(env_vars_of(lines)),
    decreases lines.len(),
{
    if lines.len() > 0 {
        lemma_env_vars_distinct(lines.drop_last());
        let earlier = env_vars_of(lines.drop_last());
        match env_entry(lines.last()) {
            Some((key, value)) => {
                lemma_upsert_distinct(earlier, key, value);
            },
            None => {},
        }
    }
}

/// Reads the variable that the line `v[from..to]` states.
fn parse_entry(v: &Vec<char>, line: &str, from: usize, to: usize) -> (r: Option<EnvVar>)
    requires
        from <= to <= v.len(),
        v@ == line@,
    ensures
        match r {
            Some(var) => env_entry(v@.subrange(from as int, to as int)) == Some(pair_of(var)),
            None => env_entry(v@.subrange(from as int, to as int)) is None,
        },
{
    let (a, b) = trim_bounds(v, from, to);
    let p = find_char(v, a, b, '=');
    let ghost t = v@.subrange(a as int, b as int);
    proof {
        lemma_position(t, '=');
        assert(t.take(p - a) =~= v@.subrange(a as int, p as int));
    }
    if p == b {
        return None;
    }
    let (ka, kb) = trim_bounds(v, a, p);
    if ka == kb {
        return None;
    }
    let (va, vb) = trim_bounds(v, p + 1, b);
    proof {
        assert(t.skip(p - a + 1) =~= v@.subrange(p + 1, b as int));
    }
    Some(
        EnvVar {
            key: String::from_str(line.substring_char(ka, kb)),
            value: String::from_str(line.substring_char(va, vb)),
        },
    )
}

/// Finds the first of `vars` with the key `key`.
fn find_key(vars: &Vec<EnvVar>, key: &String) -> (i: usize)
    ensures
        i == key_index(pairs_of(vars@), key@),
        i <= vars.len(),
{
    let mut i: usize = 0;
    while i < vars.len() && !(vars[i].key == *key)
        invariant
            i <= vars.len(),
            forall|j: int| 0 <= j < i ==> pairs_of(vars@)[j].0 != key@,
        decreases vars.len() - i,
    {
        i += 1;
    }
    proof {
        lemma_key_index_unique(pairs_of(vars@), key@, i as int);
    }
    i
}

/// Reads the variables that the editor's text states. No key is kept twice: a later line
/// replaces the value of an earlier line with the same key, in that line's place.
pub fn parse_env_vars(text: &str) -> (vars: Vec<EnvVar>)
    ensures
        pairs_of(vars@) == env_vars_of(lines(text@)),
        distinct_keys(vars@),
{
    let v = chars_of(text);
    let ranges = line_ranges(&v);
    let ghost all = lines(text@);
    let mut vars: Vec<EnvVar> = Vec::new();
    let mut i: usize = 0;
    while i < ranges.len()
        invariant
            i <= ranges.len(),
            v@ == text@,
            all == lines(text@),
            ranges@.len() == all.len(),
            forall|k: int|
                0 <= k < ranges@.len() ==> (#[trigger] ranges@[k]).0 <= ranges@[k].1 <= v.len()
                    && v@.subrange(ranges@[k].0 as int, ranges@[k].1 as int) == all[k],
            pairs_of(vars@) == env_vars_of(all.take(i as int)),
        decreases ranges.len() - i,
    {
        let (a, b) = ranges[i];
        proof {
            let upto = all.take(i + 1);
            assert(upto.drop_last() =~= all.take(i as int));
        }
        match parse_entry(&v, text, a, b) {
            None => {},
            Some(var) => {
                let at = find_key(&vars, &var.key);
                if at < vars.len() {
                    vars.set(at, var);
                } else {
                    vars.push(var);
                }
            },
        }
        i += 1;
    }
    proof {
        assert(all.take(ranges.len() as int) =~= all);
        lemma_env_vars_distinct(all);
        assert forall|a: int, b: int| 0 <= a < b < vars@.len() implies (#[trigger] vars@[a]).key@
            != (#[trigger] vars@[b]).key@ by {
            assert(pairs_of(vars@)[a].0 == vars@[a].key@);
            assert(pairs_of(vars@)[b].0 == vars@[b].key@);
        }
    }
    vars
}

/// The payload that replaces a project's environment by what the editor's text states.
pub fn env_manager(text: &str) -> (payload: UpdateEnvPayload)
    ensures
        pairs_of(payload.env_vars@) == env_vars_of(lines(text@)),
        distinct_keys(payload.env_vars@),
{
    UpdateEnvPayload { env_vars: parse_env_vars(text) }
}

} // verus!
