//! The `KEY=VALUE` text file in which the secrets are kept: its variables as
//! an ordered list, how a text is read into them, and how they are written
//! back over an existing text.

use crate::ipc::spawn::texts_of;
use crate::text::{
    join2, join3, lines, split_at_first, split_once, starts_with_char, text_eq, text_lines, trim,
    trimmed,
};
use vstd::prelude::*;
use vstd::string::StringExecFns;

verus! {

/// Variables as plain values: pairs of a key and a value, in their order.
pub type Pairs = Seq<(Seq<char>, Seq<char>)>;

/// The variables of an environment file, in the order in which they were
/// first set.
#[derive(Debug)]
pub struct EnvVars {
    entries: Vec<(String, String)>,
}

/// The pairs of a list as plain values.
pub open spec fn pairs_view(v: Seq<(String, String)>) -> Pairs {
    v.map_values(|p: (String, String)| (p.0@, p.1@))
}

impl View for EnvVars {
    type V = Pairs;

    closed spec fn view(&self) -> Pairs {
        pairs_view(self.entries@)
    }
}

/// A key stands at a place, and at no place before it.
pub open spec fn first_at(env: Pairs, key: Seq<char>, i: int) -> bool {
    &&& 0 <= i < env.len()
    &&& env[i].0 == key
    &&& forall|j: int| 0 <= j < i ==> env[j].0 != key
}

/// Whether a key is set.
pub open spec fn has_key(env: Pairs, key: Seq<char>) -> bool {
    exists|i: int| 0 <= i < env.len() && (#[trigger] env[i]).0 == key
}

/// The first place at which a key stands, if it is set.
pub open spec fn first_pos(env: Pairs, key: Seq<char>) -> Option<int> {
    if exists|i: int| first_at(env, key, i) {
        Some(choose|i: int| first_at(env, key, i))
    } else {
        None
    }
}

/// The value of a key, if it is set.
pub open spec fn lookup(env: Pairs, key: Seq<char>) -> Option<Seq<char>> {
    match first_pos(env, key) {
        Some(i) => Some(env[i].1),
        None => None,
    }
}

/// The variables after a key is set: its value is replaced where the key was
/// set, and the key comes last where it was not.
pub open spec fn with_entry(env: Pairs, key: Seq<char>, value: Seq<char>) -> Pairs {
    match first_pos(env, key) {
        Some(i) => env.update(i, (key, value)),
        None => env.push((key, value)),
    }
}

/// The variables after a key is removed.
pub open spec fn without(env: Pairs, key: Seq<char>) -> Pairs {
    match first_pos(env, key) {
        Some(i) => env.remove(i),
        None => env,
    }
}

/// No key is set twice.
pub open spec fn distinct_keys(env: Pairs) -> bool {
    forall|i: int, j: int| 0 <= i < j < env.len() ==> (#[trigger] env[i]).0 != (#[trigger] env[j]).0
}

/// The first place of a key is the one place that has the key and nothing
/// like it before.
pub proof fn lemma_first_pos(env: Pairs, key: Seq<char>, i: int)
    requires
        first_at(env, key, i),
    ensures
        first_pos(env, key) == Some(i),
        lookup(env, key) == Some(env[i].1),
        has_key(env, key),
{
    let c = choose|c: int| first_at(env, key, c);
    if c < i {
        assert(env[c].0 != key);
    } else if i < c {
        assert(env[i].0 != key);
    }
}

/// A key that stands nowhere has no first place.
pub proof fn lemma_no_pos(env: Pairs, key: Seq<char>)
    requires
        forall|j: int| 0 <= j < env.len() ==> env[j].0 != key,
    ensures
        first_pos(env, key) is None,
        lookup(env, key) is None,
        !has_key(env, key),
{
}

/// Setting and removing keep the keys distinct, a key that is set is found
/// with its value, and a key that is removed is gone.
pub proof fn lemma_env_laws(env: Pairs, key: Seq<char>, value: Seq<char>, other: Seq<char>)
    requires
        distinct_keys(env),
    ensures
        distinct_keys(with_entry(env, key, value)),
        distinct_keys(without(env, key)),
        lookup(with_entry(env, key, value), key) == Some(value),
        lookup(without(env, key), key) is None,
        other != key ==> lookup(with_entry(env, key, value), other) == lookup(env, other),
        other != key ==> lookup(without(env, key), other) == lookup(env, other),
{
    lemma_set_laws(env, key, value, other);
    lemma_remove_laws(env, key, other);
}

proof fn lemma_pos_cases(env: Pairs, key: Seq<char>)
    ensures
        match first_pos(env, key) {
            Some(i) => first_at(env, key, i),
            None => forall|j: int| 0 <= j < env.len() ==> env[j].0 != key,
        },
{
    if exists|i: int| first_at(env, key, i) {
    } else {
        assert forall|j: int| 0 <= j < env.len() implies env[j].0 != key by {
            if env[j].0 == key {
                lemma_has_first(env, key, j);
            }
        }
    }
}

proof fn lemma_has_first(env: Pairs, key: Seq<char>, j: int)
    requires
        0 <= j < env.len(),
        env[j].0 == key,
    ensures
        exists|i: int| first_at(env, key, i),
    decreases j,
{
    if forall|k: int| 0 <= k < j ==> env[k].0 != key {
        assert(first_at(env, key, j));
    } else {
        let k = choose|k: int| 0 <= k < j && env[k].0 == key;
        lemma_has_first(env, key, k);
    }
}

proof fn lemma_set_laws(env: Pairs, key: Seq<char>, value: Seq<char>, other: Seq<char>)
    requires
        distinct_keys(env),
    ensures
        distinct_keys(with_entry(env, key, value)),
        lookup(with_entry(env, key, value), key) == Some(value),
        other != key ==> lookup(with_entry(env, key, value), other) == lookup(env, other),
{
    let after = with_entry(env, key, value);
    lemma_pos_cases(env, key);
    lemma_pos_cases(env, other);
    match first_pos(env, key) {
        Some(i) => {
            assert(first_at(after, key, i));
            lemma_first_pos(after, key, i);
            if other != key {
                match first_pos(env, other) {
                    Some(k) => {
                        assert(first_at(after, other, k));
                        lemma_first_pos(after, other, k);
                    },
                    None => {
                        lemma_no_pos(after, other);
                    },
                }
            }
        },
        None => {
            assert(first_at(after, key, env.len() as int));
            lemma_first_pos(after, key, env.len() as int);
            if other != key {
                match first_pos(env, other) {
                    Some(k) => {
                        assert(first_at(after, other, k));
                        lemma_first_pos(after, other, k);
                    },
                    None => {
                        lemma_no_pos(after, other);
                    },
                }
            }
        },
    }
}

proof fn lemma_remove_laws(env: Pairs, key: Seq<char>, other: Seq<char>)
    requires
        distinct_keys(env),
    ensures
        distinct_keys(without(env, key)),
        lookup(without(env, key), key) is None,
        other != key ==> lookup(without(env, key), other) == lookup(env, other),
{
    let after = without(env, key);
    lemma_pos_cases(env, key);
    lemma_pos_cases(env, other);
    match first_pos(env, key) {
        Some(i) => {
            assert forall|j: int| 0 <= j < after.len() implies after[j].0 != key by {
                if j < i {
                    assert(after[j] == env[j]);
                } else {
                    assert(after[j] == env[j + 1]);
                }
            }
            assert forall|a: int, b: int| 0 <= a < b < after.len() implies (#[trigger] after[a]).0
                != (#[trigger] after[b]).0 by {
                let a0 = if a < i { a } else { a + 1 };
                let b0 = if b < i { b } else { b + 1 };
                assert(after[a] == env[a0]);
                assert(after[b] == env[b0]);
            }
            lemma_no_pos(after, key);
            if other != key {
                match first_pos(env, other) {
                    Some(k) => {
                        let k1 = if k < i { k } else { k - 1 };
                        assert(after[k1] == env[k]);
                        assert forall|j: int| 0 <= j < k1 implies after[j].0 != other by {
                            if j < i {
                                assert(after[j] == env[j]);
                            } else {
                                assert(after[j] == env[j + 1]);
                            }
                        }
                        assert(first_at(after, other, k1));
                        lemma_first_pos(after, other, k1);
                    },
                    None => {
                        assert forall|j: int| 0 <= j < after.len() implies after[j].0 != other by {
                            if j < i {
                                assert(after[j] == env[j]);
                            } else {
                                assert(after[j] == env[j + 1]);
                            }
                        }
                        lemma_no_pos(after, other);
                    },
                }
            }
        },
        None => {},
    }
}

impl EnvVars {
    /// No variables.
    pub fn new() -> (r: Self)
        ensures
            r@ == Pairs::empty(),
    {
        let r = EnvVars { entries: Vec::new() };
        assert(r@ =~= Pairs::empty());
        r
    }

    /// The number of variables.
    pub fn len(&self) -> (n: usize)
        ensures
            n == self@.len(),
    {
        self.entries.len()
    }

    /// The key and the value at a place.
    pub fn entry(&self, i: usize) -> (r: (&str, &str))
        requires
            i < self@.len(),
        ensures
            r.0@ == self@[i as int].0,
            r.1@ == self@[i as int].1,
    {
        (self.entries[i].0.as_str(), self.entries[i].1.as_str())
    }

    fn find(&self, key: &str) -> (r: Option<usize>)
        ensures
            match r {
                Some(i) => first_at(self@, key@, i as int),
                None => forall|j: int| 0 <= j < self@.len() ==> self@[j].0 != key@,
            },
            match r {
                Some(i) => first_pos(self@, key@) == Some(i as int),
                None => first_pos(self@, key@) is None,
            },
    {
        let n = self.entries.len();
        let mut i: usize = 0;
        while i < n
            invariant
                n == self.entries@.len(),
                0 <= i <= n,
                forall|j: int| 0 <= j < i ==> self@[j].0 != key@,
            decreases n - i,
        {
            if text_eq(self.entries[i].0.as_str(), key) {
                proof {
                    lemma_first_pos(self@, key@, i as int);
                }
                return Some(i);
            }
            i = i + 1;
        }
        proof {
            lemma_no_pos(self@, key@);
        }
        None
    }

    /// The value of a key, if it is set.
    pub fn get(&self, key: &str) -> (r: Option<&str>)
        ensures
            match r {
                Some(v) => lookup(self@, key@) == Some(v@),
                None => lookup(self@, key@) is None,
            },
    {
        match self.find(key) {
            Some(i) => Some(self.entries[i].1.as_str()),
            None => None,
        }
    }

    /// Whether a key is set.
    pub fn contains_key(&self, key: &str) -> (r: bool)
        ensures
            r == has_key(self@, key@),
            r == (lookup(self@, key@) is Some),
    {
        match self.find(key) {
            Some(i) => {
                proof {
                    lemma_first_pos(self@, key@, i as int);
                }
                true
            },
            None => {
                proof {
                    lemma_no_pos(self@, key@);
                }
                false
            },
        }
    }

    /// Sets a key: its value is replaced where the key was set, and the key
    /// comes last where it was not.
    pub fn insert(&mut self, key: &str, value: &str)
        ensures
            final(self)@ == with_entry(old(self)@, key@, value@),
            distinct_keys(old(self)@) ==> distinct_keys(final(self)@),
    {
        proof {
            if distinct_keys(self@) {
                lemma_set_laws(self@, key@, value@, key@);
            }
        }
        let pair = (String::from_str(key), String::from_str(value));
        match self.find(key) {
            Some(i) => {
                self.entries.set(i, pair);
                assert(self@ =~= old(self)@.update(i as int, (key@, value@)));
            },
            None => {
                self.entries.push(pair);
                assert(self@ =~= old(self)@.push((key@, value@)));
            },
        }
    }

    /// Removes a key; says whether it was set.
    pub fn remove(&mut self, key: &str) -> (r: bool)
        ensures
            r == has_key(old(self)@, key@),
            final(self)@ == without(old(self)@, key@),
            distinct_keys(old(self)@) ==> distinct_keys(final(self)@),
    {
        proof {
            if distinct_keys(self@) {
                lemma_remove_laws(self@, key@, key@);
            }
        }
        match self.find(key) {
            Some(i) => {
                proof {
                    lemma_first_pos(self@, key@, i as int);
                }
                let _ = self.entries.remove(i);
                assert(self@ =~= old(self)@.remove(i as int));
                true
            },
            None => {
                proof {
                    lemma_no_pos(self@, key@);
                }
                false
            },
        }
    }
}

/// Whether a line carries no variable: it is blank or a comment.
pub open spec fn is_note(line: Seq<char>) -> bool {
    trimmed(line).len() == 0 || trimmed(line)[0] == '#'
}

/// The key and the value that a line sets: the texts before and after its
/// first `=`, each without the white space at its ends. A blank line, a
/// comment and a line without `=` set nothing.
pub open spec fn assignment(line: Seq<char>) -> Option<(Seq<char>, Seq<char>)> {
    if is_note(line) {
        None
    } else {
        match split_at_first(trimmed(line), '=') {
            Some(parts) => Some((trimmed(parts.0), trimmed(parts.1))),
            None => None,
        }
    }
}

/// The variables after one more line is read.
pub open spec fn after_line(env: Pairs, line: Seq<char>) -> Pairs {
    match assignment(line) {
        Some(kv) => with_entry(env, kv.0, kv.1),
        None => env,
    }
}

/// The variables that a list of lines sets, read in their order: a later
/// line replaces the value of a key that an earlier line set.
pub open spec fn env_of_lines(all: Seq<Seq<char>>) -> Pairs
    decreases all.len(),
{
    if all.len() == 0 {
        Pairs::empty()
    } else {
        after_line(env_of_lines(all.drop_last()), all.last())
    }
}

fn read_assignment(line: &str) -> (r: Option<(String, String)>)
    ensures
        match r {
            Some(kv) => assignment(line@) == Some((kv.0@, kv.1@)),
            None => assignment(line@) is None,
        },
{
    let t = trim(line);
    if t.is_empty() || starts_with_char(t, '#') {
        return None;
    }
    match split_once(t, '=') {
        Some((k, v)) => Some((String::from_str(trim(k)), String::from_str(trim(v)))),
        None => None,
    }
}

/// Reads the variables of an environment file from its text.
pub fn parse_env_content(content: &str) -> (env: EnvVars)
    ensures
        env@ == env_of_lines(text_lines(content@)),
        distinct_keys(env@),
{
    let all = lines(content);
    let ghost texts = text_lines(content@);
    let mut env = EnvVars::new();
    let n = all.len();
    let mut i: usize = 0;
    while i < n
        invariant
            n == all@.len(),
            n == texts.len(),
            forall|j: int| 0 <= j < n ==> (#[trigger] all@[j])@ == texts[j],
            0 <= i <= n,
            env@ == env_of_lines(texts.take(i as int)),
            distinct_keys(env@),
        decreases n - i,
    {
        proof {
            assert(texts.take(i + 1).drop_last() =~= texts.take(i as int));
            assert(texts.take(i + 1).last() == texts[i as int]);
        }
        match read_assignment(all[i].as_str()) {
            Some((k, v)) => {
                env.insert(k.as_str(), v.as_str());
            },
            None => {},
        }
        i = i + 1;
    }
    assert(texts.take(n as int) =~= texts);
    env
}

/// What a line of the existing file becomes when the variables are written
/// back: a blank line and a comment stay as they are; a line that sets a
/// key which is still set becomes `KEY=VALUE` with the value of now; every
/// other line goes.
pub open spec fn kept_line(env: Pairs, line: Seq<char>) -> Option<Seq<char>> {
    if is_note(line) {
        Some(line)
    } else {
        match assignment(line) {
            Some(kv) => match lookup(env, kv.0) {
                Some(value) => Some(kv.0 + "="@ + value),
                None => None,
            },
            None => None,
        }
    }
}

/// The lines that stay of an existing file, in their order.
pub open spec fn kept_lines(env: Pairs, all: Seq<Seq<char>>) -> Seq<Seq<char>>
    decreases all.len(),
{
    if all.len() == 0 {
        Seq::empty()
    } else {
        match kept_line(env, all.last()) {
            Some(line) => kept_lines(env, all.drop_last()).push(line),
            None => kept_lines(env, all.drop_last()),
        }
    }
}

/// The key that a line sets, if it sets one.
pub open spec fn line_key(line: Seq<char>) -> Option<Seq<char>> {
    match assignment(line) {
        Some(kv) => Some(kv.0),
        None => None,
    }
}

/// Whether a line of the existing file sets a key.
pub open spec fn written(all: Seq<Seq<char>>, key: Seq<char>) -> bool {
    exists|i: int| 0 <= i < all.len() && #[trigger] line_key(all[i]) == Some(key)
}

/// An optional text as a plain value.
pub open spec fn text_of(s: Option<String>) -> Option<Seq<char>> {
    match s {
        Some(t) => Some(t@),
        None => None,
    }
}

/// The lines for the variables that no line of the existing file sets, in
/// the order of the variables.
pub open spec fn added_lines(entries: Pairs, all: Seq<Seq<char>>) -> Seq<Seq<char>>
    decreases entries.len(),
{
    if entries.len() == 0 {
        Seq::empty()
    } else if written(all, entries.last().0) {
        added_lines(entries.drop_last(), all)
    } else {
        added_lines(entries.drop_last(), all).push(entries.last().0 + "="@ + entries.last().1)
    }
}

/// Lines joined by line feeds, with one more line feed at the end.
pub open spec fn joined(all: Seq<Seq<char>>) -> Seq<char>
    decreases all.len(),
{
    if all.len() == 0 {
        "\n"@
    } else if all.len() == 1 {
        all[0] + "\n"@
    } else {
        joined(all.drop_last()) + all.last() + "\n"@
    }
}

/// The text of an environment file after the variables are written back
/// over its existing text: comments and blank lines stay, the lines of keys
/// that are still set carry their values of now, the lines of keys that are
/// gone go, and the keys that the file did not have come at the end.
pub open spec fn rendered(existing: Seq<char>, env: Pairs) -> Seq<char> {
    joined(kept_lines(env, text_lines(existing)) + added_lines(env, text_lines(existing)))
}

fn is_written(keys: &Vec<Option<String>>, key: &str, Ghost(all): Ghost<Seq<Seq<char>>>) -> (r: bool)
    requires
        keys@.len() == all.len(),
        forall|i: int| 0 <= i < all.len() ==> text_of(#[trigger] keys@[i]) == line_key(all[i]),
    ensures
        r == written(all, key@),
{
    let n = keys.len();
    let mut i: usize = 0;
    while i < n
        invariant
            n == keys@.len(),
            keys@.len() == all.len(),
            0 <= i <= n,
            forall|j: int| 0 <= j < all.len() ==> text_of(#[trigger] keys@[j]) == line_key(all[j]),
            forall|j: int| 0 <= j < i ==> #[trigger] line_key(all[j]) != Some(key@),
        decreases n - i,
    {
        let hit = match &keys[i] {
            Some(k) => text_eq(k.as_str(), key),
            None => false,
        };
        if hit {
            assert(line_key(all[i as int]) == Some(key@));
            return true;
        }
        i = i + 1;
    }
    false
}

fn join_lines(all: &Vec<String>) -> (r: String)
    ensures
        r@ == joined(texts_of(all@)),
{
    let ghost texts = texts_of(all@);
    let n = all.len();
    if n == 0 {
        return String::from_str("\n");
    }
    let mut r = join2(all[0].as_str(), "\n");
    assert(texts.take(1) =~= seq![texts[0]]);
    let mut i: usize = 1;
    while i < n
        invariant
            n == all@.len(),
            texts == texts_of(all@),
            1 <= i <= n,
            r@ == joined(texts.take(i as int)),
        decreases n - i,
    {
        proof {
            assert(texts.take(i + 1).drop_last() =~= texts.take(i as int));
            assert(texts.take(i + 1).last() == texts[i as int]);
        }
        r.append(all[i].as_str());
        r.append("\n");
        i = i + 1;
    }
    assert(texts.take(n as int) =~= texts);
    r
}

/// Writes the variables back over the existing text of an environment file.
pub fn render_env_content(existing: &str, env: &EnvVars) -> (r: String)
    ensures
        r@ == rendered(existing@, env@),
{
    let all = lines(existing);
    let ghost texts = text_lines(existing@);
    let mut out: Vec<String> = Vec::new();
    let mut keys: Vec<Option<String>> = Vec::new();
    let n = all.len();
    let mut i: usize = 0;
    while i < n
        invariant
            n == all@.len(),
            n == texts.len(),
            forall|j: int| 0 <= j < n ==> (#[trigger] all@[j])@ == texts[j],
            0 <= i <= n,
            keys@.len() == i,
            forall|j: int| 0 <= j < i ==> text_of(#[trigger] keys@[j]) == line_key(texts[j]),
            texts_of(out@) == kept_lines(env@, texts.take(i as int)),
        decreases n - i,
    {
        proof {
            assert(texts.take(i + 1).drop_last() =~= texts.take(i as int));
            assert(texts.take(i + 1).last() == texts[i as int]);
        }
        let ghost before = out@;
        let line = all[i].as_str();
        let t = trim(line);
        let note = t.is_empty() || starts_with_char(t, '#');
        let set = read_assignment(line);
        if note {
            out.push(String::from_str(line));
            assert(texts_of(out@) =~= texts_of(before).push(
                line@,
            ));
            keys.push(None);
        } else {
            match set {
                Some((k, _)) => {
                    match env.get(k.as_str()) {
                        Some(value) => {
                            let text = join3(k.as_str(), "=", value);
                            out.push(text);
                            assert(texts_of(out@)
                                =~= texts_of(before).push(k@ + "="@ + value@));
                        },
                        None => {},
                    }
                    keys.push(Some(k));
                },
                None => {
                    keys.push(None);
                },
            }
        }
        i = i + 1;
    }
    assert(texts.take(n as int) =~= texts);
    let ghost kept = out@;
    let m = env.len();
    let mut j: usize = 0;
    while j < m
        invariant
            m == env@.len(),
            0 <= j <= m,
            keys@.len() == texts.len(),
            forall|k: int|
                0 <= k < texts.len() ==> text_of(#[trigger] keys@[k]) == line_key(texts[k]),
            texts_of(out@) == texts_of(kept) + added_lines(
                env@.take(j as int),
                texts,
            ),
        decreases m - j,
    {
        proof {
            assert(env@.take(j + 1).drop_last() =~= env@.take(j as int));
            assert(env@.take(j + 1).last() == env@[j as int]);
        }
        let ghost before = out@;
        let (key, value) = env.entry(j);
        if !is_written(&keys, key, Ghost(texts)) {
            out.push(join3(key, "=", value));
            assert(texts_of(out@) =~= texts_of(before).push(
                key@ + "="@ + value@,
            ));
        }
        j = j + 1;
    }
    assert(env@.take(m as int) =~= env@);
    join_lines(&out)
}

} // verus!
