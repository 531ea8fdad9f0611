//! Credential store: named secrets in memory, read from and written to a
//! `KEY='value'` file.

use crate::error::Error;
use crate::gitlab::auth::Token;
use crate::text::{
    chars_of, find, is_ws, lemma_find_concat, lemma_find_absent, lemma_trim_fixed, lemma_trim_first, owned,
    push_char, same_text, split, split_all, split_once, trim, trim_str,
};
use vstd::prelude::*;

verus! {

/// The first line of a written credential file.
pub const FILE_TITLE: &'static str = "# Autogit credentials - KEEP SECURE";

/// The start of the second line, which the write time follows.
pub const GENERATED_PREFIX: &'static str = "# Generated: ";

/// Named secrets, with the file they were loaded from, if any.
///
/// Generic formatting (`Debug`) shows keys and the file path; every value
/// renders as a redaction marker.
#[derive(Debug)]
pub struct CredentialStore {
    credentials: Vec<(String, Token)>,
    file_path: Option<String>,
}

/// The mapping that a list of entries denotes; a later entry wins.
pub open spec fn entries_map(es: Seq<(String, Token)>) -> Map<Seq<char>, Seq<char>>
    decreases es.len(),
{
    if es.len() == 0 {
        Map::empty()
    } else {
        entries_map(es.drop_last()).insert(es.last().0@, es.last().1@)
    }
}

/// No key occurs twice.
pub open spec fn unique_keys(es: Seq<(String, Token)>) -> bool {
    forall|i: int, j: int| 0 <= i < j < es.len() ==> es[i].0@ != es[j].0@
}

/// How a single quote is written inside a single-quoted value: `'\''`.
pub open spec fn quote_escape() -> Seq<char> {
    seq!['\'', '\\', '\'', '\'']
}

/// One character as written inside a single-quoted value.
pub open spec fn escape_char(c: char) -> Seq<char> {
    if c == '\'' {
        quote_escape()
    } else {
        seq![c]
    }
}

/// A value with every single quote written as `'\''`.
pub open spec fn escape(v: Seq<char>) -> Seq<char>
    decreases v.len(),
{
    if v.len() == 0 {
        Seq::empty()
    } else {
        escape_char(v[0]) + escape(v.drop_first())
    }
}

/// A single-quoted value read back: every `'\''` becomes one single quote,
/// scanning from the start.
pub open spec fn unescape(v: Seq<char>) -> Seq<char>
    decreases v.len(),
{
    if v.len() == 0 {
        Seq::empty()
    } else if v.len() >= 4 && v.subrange(0, 4) == quote_escape() {
        seq!['\''] + unescape(v.subrange(4, v.len() as int))
    } else {
        seq![v[0]] + unescape(v.drop_first())
    }
}

/// The line that stores one entry: `KEY='value'`.
pub open spec fn entry_line(k: Seq<char>, v: Seq<char>) -> Seq<char> {
    k + seq!['=', '\''] + escape(v) + seq!['\'']
}

/// Lines, each followed by a line feed.
pub open spec fn join_lines(ls: Seq<Seq<char>>) -> Seq<char>
    decreases ls.len(),
{
    if ls.len() == 0 {
        Seq::empty()
    } else {
        ls[0] + seq!['\n'] + join_lines(ls.drop_first())
    }
}

/// The lines of a credential file for the given entries, written at the
/// time `generated`: a comment header, a blank line, one line per entry.
pub open spec fn file_lines(es: Seq<(String, Token)>, generated: Seq<char>) -> Seq<Seq<char>> {
    seq![FILE_TITLE@, GENERATED_PREFIX@ + generated, Seq::empty()] + es.map_values(
        |e: (String, Token)| entry_line(e.0@, e.1@),
    )
}

/// A value with one pair of surrounding single or double quotes removed;
/// inside single quotes, `'\''` stands for a single quote.
pub open spec fn unquote(v: Seq<char>) -> Seq<char> {
    if v.len() >= 2 && v[0] == '\'' && v.last() == '\'' {
        unescape(v.subrange(1, v.len() - 1))
    } else if v.len() >= 2 && v[0] == '"' && v.last() == '"' {
        v.subrange(1, v.len() - 1)
    } else {
        v
    }
}

/// The entry one line of a credential file holds: blank lines, comment
/// lines and lines without `=` hold none.
pub open spec fn parse_line(l: Seq<char>) -> Option<(Seq<char>, Seq<char>)> {
    let t = trim(l);
    if t.len() == 0 || t[0] == '#' {
        None
    } else {
        let i = find(t, '=');
        if i >= t.len() {
            None
        } else {
            Some((trim(t.subrange(0, i as int)), unquote(trim(t.subrange(i as int + 1, t.len() as int)))))
        }
    }
}

/// `m` updated by the entries of `ls`, in order.
pub open spec fn apply_lines(m: Map<Seq<char>, Seq<char>>, ls: Seq<Seq<char>>) -> Map<
    Seq<char>,
    Seq<char>,
>
    decreases ls.len(),
{
    if ls.len() == 0 {
        m
    } else {
        let prev = apply_lines(m, ls.drop_last());
        match parse_line(ls.last()) {
            Some((k, v)) => prev.insert(k, v),
            None => prev,
        }
    }
}

/// The credentials a file with the text `c` holds.
pub open spec fn parse_env(c: Seq<char>) -> Map<Seq<char>, Seq<char>> {
    apply_lines(Map::empty(), split(c, '\n'))
}

/// A key that a written file gives back unchanged: no line feed, no `=`,
/// no white space at either end, and no `#` at the start.
pub open spec fn key_survives(k: Seq<char>) -> bool {
    &&& !k.contains('\n')
    &&& !k.contains('=')
    &&& k.len() > 0 ==> !is_ws(k[0]) && !is_ws(k.last()) && k[0] != '#'
}

/// A value that a written file gives back unchanged: one without a line
/// feed, since each entry is one line.
pub open spec fn value_survives(v: Seq<char>) -> bool {
    !v.contains('\n')
}

impl View for CredentialStore {
    type V = Map<Seq<char>, Seq<char>>;

    open spec fn view(&self) -> Map<Seq<char>, Seq<char>> {
        entries_map(self.entries())
    }
}

/// An entry of a unique list is in its mapping with its value.
proof fn lemma_map_has(es: Seq<(String, Token)>, i: int)
    requires
        unique_keys(es),
        0 <= i < es.len(),
    ensures
        entries_map(es).contains_key(es[i].0@),
        entries_map(es)[es[i].0@] == es[i].1@,
    decreases es.len(),
{
    if i < es.len() - 1 {
        lemma_map_has(es.drop_last(), i);
    }
}

/// A key that no entry has is not in the mapping.
proof fn lemma_map_lacks(es: Seq<(String, Token)>, k: Seq<char>)
    requires
        forall|i: int| 0 <= i < es.len() ==> es[i].0@ != k,
    ensures
        !entries_map(es).contains_key(k),
    decreases es.len(),
{
    if es.len() > 0 {
        lemma_map_lacks(es.drop_last(), k);
    }
}

/// Every key of the mapping belongs to an entry.
proof fn lemma_map_key(es: Seq<(String, Token)>, k: Seq<char>)
    requires
        entries_map(es).contains_key(k),
    ensures
        exists|i: int| 0 <= i < es.len() && es[i].0@ == k,
{
    if !(exists|i: int| 0 <= i < es.len() && es[i].0@ == k) {
        lemma_map_lacks(es, k);
    }
}

proof fn lemma_map_update(es: Seq<(String, Token)>, j: int, e: (String, Token))
    requires
        unique_keys(es),
        0 <= j < es.len(),
        es[j].0@ == e.0@,
    ensures
        unique_keys(es.update(j, e)),
        entries_map(es.update(j, e)) == entries_map(es).insert(e.0@, e.1@),
{
    let es2 = es.update(j, e);
    assert(unique_keys(es2)) by {
        assert forall|a: int, b: int| 0 <= a < b < es2.len() implies es2[a].0@ != es2[b].0@ by {
            assert(es[a].0@ != es[b].0@);
        }
    }
    let m2 = entries_map(es2);
    let m = entries_map(es).insert(e.0@, e.1@);
    assert forall|k: Seq<char>| m2.contains_key(k) <==> m.contains_key(k) by {
        if m2.contains_key(k) {
            lemma_map_key(es2, k);
            let i = choose|i: int| 0 <= i < es2.len() && es2[i].0@ == k;
            if i != j {
                lemma_map_has(es, i);
            }
        }
        if m.contains_key(k) && k != e.0@ {
            lemma_map_key(es, k);
            let i = choose|i: int| 0 <= i < es.len() && es[i].0@ == k;
            lemma_map_has(es2, i);
        }
        if k == e.0@ {
            lemma_map_has(es2, j);
        }
    }
    assert forall|k: Seq<char>| m2.contains_key(k) implies m2[k] == m[k] by {
        lemma_map_key(es2, k);
        let i = choose|i: int| 0 <= i < es2.len() && es2[i].0@ == k;
        lemma_map_has(es2, i);
        if i != j {
            lemma_map_has(es, i);
        }
    }
    assert(m2 =~= m);
}

proof fn lemma_map_remove(es: Seq<(String, Token)>, j: int)
    requires
        unique_keys(es),
        0 <= j < es.len(),
    ensures
        unique_keys(es.remove(j)),
        entries_map(es.remove(j)) == entries_map(es).remove(es[j].0@),
{
    let es2 = es.remove(j);
    let key = es[j].0@;
    assert(unique_keys(es2)) by {
        assert forall|a: int, b: int| 0 <= a < b < es2.len() implies es2[a].0@ != es2[b].0@ by {
            let a0 = if a < j { a } else { a + 1 };
            let b0 = if b < j { b } else { b + 1 };
            assert(es[a0].0@ != es[b0].0@);
        }
    }
    let m2 = entries_map(es2);
    let m = entries_map(es).remove(key);
    assert forall|k: Seq<char>| m2.contains_key(k) <==> m.contains_key(k) by {
        if m2.contains_key(k) {
            lemma_map_key(es2, k);
            let i = choose|i: int| 0 <= i < es2.len() && es2[i].0@ == k;
            let i0 = if i < j { i } else { i + 1 };
            assert(es2[i] == es[i0]);
            lemma_map_has(es, i0);
        }
        if m.contains_key(k) {
            lemma_map_key(es, k);
            let i = choose|i: int| 0 <= i < es.len() && es[i].0@ == k;
            let i2 = if i < j { i } else { i - 1 };
            assert(es2[i2] == es[i]);
            lemma_map_has(es2, i2);
        }
    }
    assert forall|k: Seq<char>| m2.contains_key(k) implies m2[k] == m[k] by {
        lemma_map_key(es2, k);
        let i = choose|i: int| 0 <= i < es2.len() && es2[i].0@ == k;
        let i0 = if i < j { i } else { i + 1 };
        assert(es2[i] == es[i0]);
        lemma_map_has(es2, i);
        lemma_map_has(es, i0);
    }
    assert(m2 =~= m);
}

impl CredentialStore {
    /// Keys are unique.
    pub open spec fn wf(&self) -> bool {
        unique_keys(self.entries())
    }

    /// The entries, in the order they are kept and written.
    pub closed spec fn entries(&self) -> Seq<(String, Token)> {
        self.credentials@
    }

    /// The file the store was loaded from, if any.
    pub closed spec fn source(&self) -> Option<Seq<char>> {
        match self.file_path {
            Some(p) => Some(p@),
            None => None,
        }
    }

    /// The text `render` writes, at the time `generated`.
    pub open spec fn rendered(&self, generated: Seq<char>) -> Seq<char> {
        join_lines(file_lines(self.entries(), generated))
    }

    /// An empty store with no file.
    pub fn new() -> (r: CredentialStore)
        ensures
            r.wf(),
            r@ == Map::<Seq<char>, Seq<char>>::empty(),
            r.source() is None,
    {
        CredentialStore { credentials: Vec::new(), file_path: None }
    }

    fn position(&self, key: &str) -> (r: Option<usize>)
        ensures
            match r {
                Some(i) => i < self.credentials@.len() && self.credentials@[i as int].0@ == key@,
                None => forall|i: int|
                    0 <= i < self.credentials@.len() ==> self.credentials@[i].0@ != key@,
            },
    {
        let mut i: usize = 0;
        while i < self.credentials.len()
            invariant
                i <= self.credentials@.len(),
                forall|j: int| 0 <= j < i ==> self.credentials@[j].0@ != key@,
            decreases self.credentials@.len() - i,
        {
            if same_text(self.credentials[i].0.as_str(), key) {
                return Some(i);
            }
            i = i + 1;
        }
        None
    }

    /// The stored secret, or `None` when the key is not set.
    pub fn get(&self, key: &str) -> (r: Option<&Token>)
        requires
            self.wf(),
        ensures
            r is Some == self@.contains_key(key@),
            r is Some ==> r->0@ == self@[key@],
    {
        match self.position(key) {
            Some(i) => {
                proof {
                    lemma_map_has(self.credentials@, i as int);
                }
                Some(&self.credentials[i].1)
            },
            None => {
                proof {
                    lemma_map_lacks(self.credentials@, key@);
                }
                None
            },
        }
    }

    /// The stored plaintext, or `None` when the key is not set.
    pub fn get_exposed(&self, key: &str) -> (r: Option<String>)
        requires
            self.wf(),
        ensures
            r is Some == self@.contains_key(key@),
            r is Some ==> r->0@ == self@[key@],
    {
        match self.get(key) {
            Some(t) => Some(owned(t.expose())),
            None => None,
        }
    }

    /// Whether the key is set.
    pub fn contains(&self, key: &str) -> (r: bool)
        requires
            self.wf(),
        ensures
            r == self@.contains_key(key@),
    {
        self.get(key).is_some()
    }

    /// Sets a credential, replacing any earlier value of the key.
    pub fn set(&mut self, key: &str, value: &str)
        requires
            old(self).wf(),
        ensures
            final(self).wf(),
            final(self)@ == old(self)@.insert(key@, value@),
            final(self).source() == old(self).source(),
    {
        let entry = (owned(key), Token::new(value));
        match self.position(key) {
            Some(i) => {
                proof {
                    lemma_map_update(self.credentials@, i as int, entry);
                }
                self.credentials.set(i, entry);
            },
            None => {
                let ghost es = self.credentials@;
                self.credentials.push(entry);
                proof {
                    assert(self.credentials@.drop_last() =~= es);
                    assert forall|a: int, b: int|
                        0 <= a < b < self.credentials@.len() implies self.credentials@[a].0@
                        != self.credentials@[b].0@ by {
                        if b < es.len() {
                            assert(es[a].0@ != es[b].0@);
                        }
                    }
                }
            },
        }
    }

    /// Removes a credential; true when the key was set.
    pub fn remove(&mut self, key: &str) -> (r: bool)
        requires
            old(self).wf(),
        ensures
            final(self).wf(),
            r == old(self)@.contains_key(key@),
            final(self)@ == old(self)@.remove(key@),
            final(self).source() == old(self).source(),
    {
        match self.position(key) {
            Some(i) => {
                proof {
                    lemma_map_has(self.credentials@, i as int);
                    lemma_map_remove(self.credentials@, i as int);
                }
                self.credentials.remove(i);
                true
            },
            None => {
                proof {
                    lemma_map_lacks(self.credentials@, key@);
                    assert(self@.remove(key@) =~= self@);
                }
                false
            },
        }
    }

    /// The keys, each once; never the values.
    pub fn keys(&self) -> (r: Vec<String>)
        requires
            self.wf(),
        ensures
            r@.len() == self@.dom().len(),
            forall|i: int| 0 <= i < r@.len() ==> self@.contains_key(#[trigger] r@[i]@),
            forall|k: Seq<char>| #[trigger]
                self@.contains_key(k) ==> exists|i: int| 0 <= i < r@.len() && r@[i]@ == k,
            forall|i: int, j: int| 0 <= i < j < r@.len() ==> r@[i]@ != r@[j]@,
    {
        let mut r: Vec<String> = Vec::new();
        let mut i: usize = 0;
        while i < self.credentials.len()
            invariant
                self.wf(),
                i <= self.credentials@.len(),
                r@.len() == i,
                forall|j: int| 0 <= j < i ==> #[trigger] r@[j]@ == self.credentials@[j].0@,
            decreases self.credentials@.len() - i,
        {
            r.push(owned(self.credentials[i].0.as_str()));
            i = i + 1;
        }
        proof {
            let es = self.credentials@;
            assert forall|j: int| 0 <= j < r@.len() implies self@.contains_key(#[trigger] r@[j]@) by {
                lemma_map_has(es, j);
            }
            assert forall|k: Seq<char>| #[trigger]
                self@.contains_key(k) implies exists|j: int| 0 <= j < r@.len() && r@[j]@ == k by {
                lemma_map_key(es, k);
                let j = choose|j: int| 0 <= j < es.len() && es[j].0@ == k;
                assert(r@[j]@ == k);
            }
            lemma_dom_size(es);
        }
        r
    }

    /// The file the store was loaded from, if any.
    pub fn file_path(&self) -> (r: Option<&str>)
        ensures
            match r {
                Some(p) => self.source() == Some(p@),
                None => self.source() is None,
            },
    {
        match &self.file_path {
            Some(p) => Some(p.as_str()),
            None => None,
        }
    }

    /// The same credentials, recorded as loaded from `path`.
    pub fn with_file_path(self, path: &str) -> (r: CredentialStore)
        requires
            self.wf(),
        ensures
            r.wf(),
            r@ == self@,
            r.source() == Some(path@),
    {
        CredentialStore { credentials: self.credentials, file_path: Some(owned(path)) }
    }

    /// The path `save_to_source` writes to: the file the store was
    /// loaded from, or a credential error when there is none.
    pub fn source_path(&self) -> (r: Result<&str, Error>)
        ensures
            match r {
                Ok(p) => self.source() == Some(p@),
                Err(e) => self.source() is None && e is Credential,
            },
    {
        match &self.file_path {
            Some(p) => Ok(p.as_str()),
            None => Err(Error::Credential(owned("No file path set - use save() with explicit path"))),
        }
    }

    /// Reads the text of a credential file: one `KEY=value` per line, the
    /// value optionally in single or double quotes, which are removed;
    /// inside single quotes `'\''` stands for a single quote. Blank lines and lines starting with `#` are skipped, and so is a
    /// line without `=`; a later line wins over an earlier one.
    pub fn parse(content: &str) -> (r: CredentialStore)
        ensures
            r.wf(),
            r@ == parse_env(content@),
            r.source() is None,
    {
        let lines = split_all(content, '\n');
        let ghost ls = split(content@, '\n');
        let mut store = CredentialStore::new();
        let mut i: usize = 0;
        while i < lines.len()
            invariant
                lines@.len() == ls.len(),
                forall|j: int| 0 <= j < lines@.len() ==> #[trigger] lines@[j]@ == ls[j],
                i <= lines@.len(),
                store.wf(),
                store.source() is None,
                store@ == apply_lines(Map::empty(), ls.subrange(0, i as int)),
            decreases lines@.len() - i,
        {
            proof {
                assert(ls.subrange(0, i + 1).drop_last() =~= ls.subrange(0, i as int));
                assert(ls.subrange(0, i + 1).last() == lines@[i as int]@);
            }
            match parse_line_text(lines[i].as_str()) {
                Some((k, v)) => store.set(k.as_str(), v.as_str()),
                None => {},
            }
            i = i + 1;
        }
        assert(ls.subrange(0, lines@.len() as int) =~= ls);
        store
    }

    /// The text of a credential file for the store, written at the time
    /// `generated`: a comment header, a blank line, then one
    /// `KEY='value'` line per entry, single quotes in values written as
    /// `'\''`.
    pub fn render(&self, generated: &str) -> (r: String)
        ensures
            r@ == join_lines(file_lines(self.entries(), generated@)),
            r@ == self.rendered(generated@),
    {
        let ghost ls = file_lines(self.credentials@, generated@);
        let mut out = String::new();
        push_line(&mut out, FILE_TITLE);
        let mut second = owned(GENERATED_PREFIX);
        second.append(generated);
        push_line(&mut out, second.as_str());
        push_line(&mut out, "");
        proof {
            reveal_strlit("");
            assert(""@ =~= Seq::<char>::empty());
            assert(ls[0] == FILE_TITLE@);
            assert(ls[1] == GENERATED_PREFIX@ + generated@);
            assert(ls[2] == Seq::<char>::empty());
            assert(ls.subrange(0, 3) =~= seq![FILE_TITLE@, GENERATED_PREFIX@ + generated@, ""@]);
            lemma_join_lines_push(Seq::empty(), FILE_TITLE@);
            lemma_join_lines_push(seq![FILE_TITLE@], GENERATED_PREFIX@ + generated@);
            lemma_join_lines_push(seq![FILE_TITLE@, GENERATED_PREFIX@ + generated@], ""@);
            assert(seq![FILE_TITLE@].push(GENERATED_PREFIX@ + generated@) =~= seq![
                FILE_TITLE@,
                GENERATED_PREFIX@ + generated@,
            ]);
            assert(seq![FILE_TITLE@, GENERATED_PREFIX@ + generated@].push(""@) =~= seq![
                FILE_TITLE@,
                GENERATED_PREFIX@ + generated@,
                ""@,
            ]);
            assert(Seq::<Seq<char>>::empty().push(FILE_TITLE@) =~= seq![FILE_TITLE@]);
            assert(join_lines(Seq::empty()) =~= Seq::<char>::empty());
            reveal_strlit("");
        }
        let mut i: usize = 0;
        while i < self.credentials.len()
            invariant
                ls == file_lines(self.credentials@, generated@),
                i <= self.credentials@.len(),
                out@ == join_lines(ls.subrange(0, i + 3)),
            decreases self.credentials@.len() - i,
        {
            let key = self.credentials[i].0.as_str();
            let value = self.credentials[i].1.expose();
            let mut line = owned(key);
            line.append("='");
            push_escaped(&mut line, value);
            push_char(&mut line, '\'');
            proof {
                reveal_strlit("='");
                assert(line@ =~= entry_line(key@, value@));
                assert(ls.subrange(0, i + 4) =~= ls.subrange(0, i + 3).push(line@));
                lemma_join_lines_push(ls.subrange(0, i + 3), line@);
            }
            push_line(&mut out, line.as_str());
            i = i + 1;
        }
        assert(ls.subrange(0, self.credentials@.len() as int + 3) =~= ls);
        out
    }
}

/// The number of distinct keys of a unique list is its length.
proof fn lemma_dom_size(es: Seq<(String, Token)>)
    requires
        unique_keys(es),
    ensures
        entries_map(es).dom().len() == es.len(),
        entries_map(es).dom().finite(),
    decreases es.len(),
{
    if es.len() > 0 {
        let es0 = es.drop_last();
        assert(unique_keys(es0));
        lemma_dom_size(es0);
        assert forall|i: int| 0 <= i < es0.len() implies es0[i].0@ != es.last().0@ by {
            assert(es[i].0@ != es[es.len() - 1].0@);
        }
        lemma_map_lacks(es0, es.last().0@);
    }
}

/// The entry a line holds, as `parse_line` states it.
fn parse_line_text(l: &str) -> (r: Option<(String, String)>)
    ensures
        match r {
            Some((k, v)) => parse_line(l@) == Some((k@, v@)),
            None => parse_line(l@) is None,
        },
{
    let t = trim_str(l);
    if t.unicode_len() == 0 || t.get_char(0) == '#' {
        return None;
    }
    match split_once(t, '=') {
        Some((k, v)) => {
            let k = trim_str(k);
            let v = trim_str(v);
            Some((owned(k), unquote_text(v)))
        },
        None => None,
    }
}

fn unquote_text(v: &str) -> (r: String)
    ensures
        r@ == unquote(v@),
{
    let n = v.unicode_len();
    if n >= 2 {
        let first = v.get_char(0);
        let last = v.get_char(n - 1);
        if first == '\'' && last == '\'' {
            return unescape_text(v.substring_char(1, n - 1));
        }
        if first == '"' && last == '"' {
            return owned(v.substring_char(1, n - 1));
        }
    }
    owned(v)
}

/// Undoes the quote escape, as `unescape` states it.
fn unescape_text(v: &str) -> (r: String)
    ensures
        r@ == unescape(v@),
{
    let cs = chars_of(v);
    let n = cs.len();
    let mut out = String::new();
    let mut i: usize = 0;
    assert(cs@.subrange(0, n as int) =~= v@);
    assert(out@ + unescape(v@) =~= unescape(v@));
    while i < n
        invariant
            cs@ == v@,
            n == cs@.len(),
            i <= n,
            out@ + unescape(cs@.subrange(i as int, n as int)) == unescape(v@),
        decreases n - i,
    {
        let ghost t = cs@.subrange(i as int, n as int);
        if n - i >= 4 && cs[i] == '\'' && cs[i + 1] == '\\' && cs[i + 2] == '\'' && cs[i + 3] == '\'' {
            proof {
                assert(t.subrange(0, 4) =~= quote_escape());
                assert(t.subrange(4, t.len() as int) =~= cs@.subrange(i + 4, n as int));
                assert(out@ + unescape(t) =~= out@.push('\'') + unescape(cs@.subrange(i + 4, n as int)));
            }
            push_char(&mut out, '\'');
            i = i + 4;
        } else {
            proof {
                if t.len() >= 4 && t.subrange(0, 4) == quote_escape() {
                    assert(t.subrange(0, 4)[0] == cs@[i as int]);
                    assert(t.subrange(0, 4)[1] == cs@[i + 1]);
                    assert(t.subrange(0, 4)[2] == cs@[i + 2]);
                    assert(t.subrange(0, 4)[3] == cs@[i + 3]);
                }
                assert(t.drop_first() =~= cs@.subrange(i + 1, n as int));
                assert(out@ + unescape(t) =~= out@.push(cs@[i as int]) + unescape(cs@.subrange(i + 1, n as int)));
            }
            push_char(&mut out, cs[i]);
            i = i + 1;
        }
    }
    proof {
        assert(cs@.subrange(n as int, n as int) =~= Seq::<char>::empty());
        assert(out@ + Seq::<char>::empty() =~= out@);
    }
    out
}

fn push_line(out: &mut String, line: &str)
    ensures
        final(out)@ == old(out)@ + line@ + seq!['\n'],
{
    out.append(line);
    push_char(out, '\n');
}

fn push_escaped(out: &mut String, v: &str)
    ensures
        final(out)@ == old(out)@ + escape(v@),
{
    let n = v.unicode_len();
    let ghost start = out@;
    let mut i: usize = 0;
    while i < n
        invariant
            n == v@.len(),
            i <= n,
            out@ == start + escape(v@.subrange(0, i as int)),
        decreases n - i,
    {
        let c = v.get_char(i);
        if c == '\'' {
            push_char(out, '\'');
            push_char(out, '\\');
            push_char(out, '\'');
            push_char(out, '\'');
        } else {
            push_char(out, c);
        }
        proof {
            assert(v@.subrange(0, i + 1) =~= v@.subrange(0, i as int).push(c));
            lemma_escape_push(v@.subrange(0, i as int), c);
            assert(out@ =~= start + escape(v@.subrange(0, i + 1)));
        }
        i = i + 1;
    }
    assert(v@.subrange(0, n as int) =~= v@);
}

proof fn lemma_join_lines_push(ls: Seq<Seq<char>>, l: Seq<char>)
    ensures
        join_lines(ls.push(l)) == join_lines(ls) + l + seq!['\n'],
    decreases ls.len(),
{
    if ls.len() == 0 {
        assert(ls.push(l).drop_first() =~= Seq::<Seq<char>>::empty());
        assert(ls.push(l)[0] == l);
        assert(join_lines(Seq::<Seq<char>>::empty()) == Seq::<char>::empty());
        assert(join_lines(ls) == Seq::<char>::empty());
        assert(join_lines(ls.push(l)) =~= join_lines(ls) + l + seq!['\n']);
    } else {
        assert(ls.push(l).drop_first() =~= ls.drop_first().push(l));
        assert(ls.push(l)[0] == ls[0]);
        lemma_join_lines_push(ls.drop_first(), l);
        assert(join_lines(ls.push(l)) =~= join_lines(ls) + l + seq!['\n']);
    }
}

/// Splitting lines that hold no line feed, each followed by one, at line
/// feeds gives the lines back, then the pieces of what follows.
proof fn lemma_split_join(ls: Seq<Seq<char>>, tail: Seq<char>)
    requires
        forall|i: int| 0 <= i < ls.len() ==> !(#[trigger] ls[i]).contains('\n'),
    ensures
        split(join_lines(ls) + tail, '\n') == ls + split(tail, '\n'),
    decreases ls.len(),
{
    if ls.len() > 0 {
        let l = ls[0];
        let rest = join_lines(ls.drop_first()) + tail;
        let s = join_lines(ls) + tail;
        assert(s =~= l + (seq!['\n'] + rest));
        lemma_find_concat(l, seq!['\n'] + rest, '\n');
        assert(find(s, '\n') == l.len());
        assert(s.subrange(0, l.len() as int) =~= l);
        assert(s.subrange(l.len() as int + 1, s.len() as int) =~= rest);
        assert forall|i: int| 0 <= i < ls.drop_first().len() implies !(
        #[trigger] ls.drop_first()[i]).contains('\n') by {
            assert(ls.drop_first()[i] == ls[i + 1]);
        }
        lemma_split_join(ls.drop_first(), tail);
        assert(ls =~= seq![l] + ls.drop_first());
        assert(split(s, '\n') =~= ls + split(tail, '\n'));
    }
}

proof fn lemma_apply_lines_concat(
    m: Map<Seq<char>, Seq<char>>,
    a: Seq<Seq<char>>,
    b: Seq<Seq<char>>,
)
    ensures
        apply_lines(m, a + b) == apply_lines(apply_lines(m, a), b),
    decreases b.len(),
{
    if b.len() == 0 {
        assert(a + b =~= a);
    } else {
        assert((a + b).drop_last() =~= a + b.drop_last());
        lemma_apply_lines_concat(m, a, b.drop_last());
    }
}

proof fn lemma_escape_push(a: Seq<char>, c: char)
    ensures
        escape(a.push(c)) == escape(a) + escape_char(c),
    decreases a.len(),
{
    if a.len() == 0 {
        assert(a.push(c).drop_first() =~= Seq::<char>::empty());
        assert(a.push(c)[0] == c);
        assert(escape(Seq::<char>::empty()) == Seq::<char>::empty());
        assert(escape(a) == Seq::<char>::empty());
        assert(escape(a.push(c)) =~= escape(a) + escape_char(c));
    } else {
        assert(a.push(c).drop_first() =~= a.drop_first().push(c));
        assert(a.push(c)[0] == a[0]);
        lemma_escape_push(a.drop_first(), c);
        assert(escape(a.push(c)) =~= escape(a) + escape_char(c));
    }
}

/// Reading a written value back gives the value.
proof fn lemma_unescape_escape(v: Seq<char>)
    ensures
        unescape(escape(v)) == v,
    decreases v.len(),
{
    if v.len() > 0 {
        let c = v[0];
        let r = v.drop_first();
        let e = escape(v);
        lemma_unescape_escape(r);
        if c == '\'' {
            assert(e.subrange(0, 4) =~= quote_escape());
            assert(e.subrange(4, e.len() as int) =~= escape(r));
        } else {
            assert(e[0] == c);
            if e.len() >= 4 && e.subrange(0, 4) == quote_escape() {
                assert(e.subrange(0, 4)[0] == e[0]);
            }
            assert(e.drop_first() =~= escape(r));
        }
        assert(unescape(e) =~= v);
    }
}

/// A value without line feeds is written without line feeds.
proof fn lemma_escape_no_newline(v: Seq<char>)
    requires
        !v.contains('\n'),
    ensures
        !escape(v).contains('\n'),
    decreases v.len(),
{
    if v.len() > 0 {
        assert(!v.drop_first().contains('\n')) by {
            if v.drop_first().contains('\n') {
                let i = choose|i: int| 0 <= i < v.drop_first().len() && v.drop_first()[i] == '\n';
                assert(v[i + 1] == '\n');
            }
        }
        lemma_escape_no_newline(v.drop_first());
        let h = escape_char(v[0]);
        assert(!h.contains('\n')) by {
            if h.contains('\n') {
                let i = choose|i: int| 0 <= i < h.len() && h[i] == '\n';
                assert(v.contains(v[0]));
            }
        }
        let e = escape(v);
        if e.contains('\n') {
            let i = choose|i: int| 0 <= i < e.len() && e[i] == '\n';
            if i < h.len() {
                assert(h[i] == '\n');
            } else {
                assert(escape(v.drop_first())[i - h.len()] == '\n');
            }
        }
    }
}

proof fn lemma_parse_entry_line(k: Seq<char>, v: Seq<char>)
    requires
        key_survives(k),
        value_survives(v),
    ensures
        parse_line(entry_line(k, v)) == Some((k, v)),
        !entry_line(k, v).contains('\n'),
{
    lemma_unescape_escape(v);
    lemma_escape_no_newline(v);
    let ev = escape(v);
    let q = seq!['\''] + ev + seq!['\''];
    let l = entry_line(k, v);
    assert(l =~= k + (seq!['='] + q));
    assert(l.len() > 0);
    assert(l.last() == '\'');
    if k.len() > 0 {
        assert(l[0] == k[0]);
    } else {
        assert(l[0] == '=');
    }
    lemma_trim_fixed(l);
    assert(trim(l) == l);
    lemma_find_concat(k, seq!['='] + q, '=');
    assert(find(l, '=') == k.len());
    assert(l.subrange(0, k.len() as int) =~= k);
    assert(l.subrange(k.len() as int + 1, l.len() as int) =~= q);
    if k.len() > 0 {
        lemma_trim_fixed(k);
    }
    assert(q[0] == '\'');
    assert(q.last() == '\'');
    lemma_trim_fixed(q);
    assert(q.subrange(1, q.len() - 1) =~= ev);
    assert(!l.contains('\n')) by {
        if l.contains('\n') {
            let i = choose|i: int| 0 <= i < l.len() && l[i] == '\n';
            if i < k.len() {
                assert(k[i] == '\n');
            } else if i > k.len() + 1 && i < l.len() - 1 {
                assert(ev[i - k.len() - 2] == '\n');
            }
        }
    }
}

proof fn lemma_parse_entries(es: Seq<(String, Token)>)
    requires
        forall|i: int|
            0 <= i < es.len() ==> key_survives((#[trigger] es[i]).0@) && value_survives(es[i].1@),
    ensures
        apply_lines(
            Map::empty(),
            es.map_values(|e: (String, Token)| entry_line(e.0@, e.1@)),
        ) == entries_map(es),
    decreases es.len(),
{
    if es.len() > 0 {
        let f = |e: (String, Token)| entry_line(e.0@, e.1@);
        let es0 = es.drop_last();
        assert(es.map_values(f).drop_last() =~= es0.map_values(f));
        assert forall|i: int| 0 <= i < es0.len() implies key_survives((#[trigger] es0[i]).0@)
            && value_survives(es0[i].1@) by {
            assert(es0[i] == es[i]);
        }
        lemma_parse_entries(es0);
        let e = es[es.len() - 1];
        lemma_parse_entry_line(e.0@, e.1@);
    }
}

/// Writing a store and reading the written text back gives the same
/// credentials: every value without a line feed, single quotes included,
/// and every key that a line can carry (no line feed, no `=`, no white
/// space at either end, no leading `#`), for a write time without a line
/// feed.
pub proof fn lemma_save_load_round_trip(store: CredentialStore, generated: Seq<char>)
    requires
        store.wf(),
        forall|k: Seq<char>| #[trigger]
            store@.contains_key(k) ==> key_survives(k) && value_survives(store@[k]),
        !generated.contains('\n'),
    ensures
        parse_env(store.rendered(generated)) == store@,
{
    let es = store.credentials@;
    let f = |e: (String, Token)| entry_line(e.0@, e.1@);
    assert(store@ == entries_map(es));
    assert forall|i: int| 0 <= i < es.len() implies key_survives((#[trigger] es[i]).0@)
        && value_survives(es[i].1@) by {
        lemma_map_has(es, i);
        assert(store@.contains_key(es[i].0@));
    }
    let head = seq![FILE_TITLE@, GENERATED_PREFIX@ + generated, Seq::<char>::empty()];
    let body = es.map_values(f);
    let ls = file_lines(es, generated);
    assert(ls == head + body);
    reveal_strlit("# Autogit credentials - KEEP SECURE");
    reveal_strlit("# Generated: ");
    assert(!FILE_TITLE@.contains('\n')) by {
        lemma_find_absent_lit();
    }
    assert(!(GENERATED_PREFIX@ + generated).contains('\n')) by {
        if (GENERATED_PREFIX@ + generated).contains('\n') {
            let i = choose|i: int|
                0 <= i < (GENERATED_PREFIX@ + generated).len() && (GENERATED_PREFIX@
                    + generated)[i] == '\n';
            if i >= GENERATED_PREFIX@.len() {
                assert(generated[i - GENERATED_PREFIX@.len()] == '\n');
            }
        }
    }
    assert forall|i: int| 0 <= i < ls.len() implies !(#[trigger] ls[i]).contains('\n') by {
        if i >= 3 {
            let e = es[i - 3];
            lemma_parse_entry_line(e.0@, e.1@);
        }
    }
    lemma_split_join(ls, Seq::empty());
    assert(join_lines(ls) + Seq::<char>::empty() =~= join_lines(ls));
    let pieces = split(Seq::<char>::empty(), '\n');
    lemma_find_absent(Seq::<char>::empty(), '\n');
    assert(pieces =~= seq![Seq::<char>::empty()]);
    lemma_apply_lines_concat(Map::empty(), ls, pieces);
    lemma_apply_lines_concat(Map::empty(), head, body);
    // The header lines hold no entry.
    lemma_trim_first(FILE_TITLE@);
    lemma_trim_first(GENERATED_PREFIX@ + generated);
    assert(parse_line(Seq::<char>::empty()) is None);
    assert(FILE_TITLE@[0] == '#');
    assert((GENERATED_PREFIX@ + generated)[0] == '#');
    assert(parse_line(FILE_TITLE@) is None);
    assert(parse_line(GENERATED_PREFIX@ + generated) is None);
    let h1 = seq![FILE_TITLE@];
    let h2 = seq![FILE_TITLE@, GENERATED_PREFIX@ + generated];
    assert(head.drop_last() =~= h2);
    assert(h2.drop_last() =~= h1);
    assert(h1.drop_last() =~= Seq::<Seq<char>>::empty());
    let e = Map::<Seq<char>, Seq<char>>::empty();
    assert(apply_lines(e, Seq::<Seq<char>>::empty()) == e);
    assert(h1.last() == FILE_TITLE@);
    assert(apply_lines(e, h1) == e);
    assert(h2.last() == GENERATED_PREFIX@ + generated);
    assert(apply_lines(e, h2) == e);
    assert(head.last() == Seq::<char>::empty());
    assert(apply_lines(e, head) == e);
    assert(apply_lines(Map::empty(), head) =~= Map::<Seq<char>, Seq<char>>::empty());
    lemma_parse_entries(es);
    assert(apply_lines(e, body) == store@);
    assert(apply_lines(e, ls) == store@);
    assert(pieces.drop_last() =~= Seq::<Seq<char>>::empty());
    assert(pieces.last() == Seq::<char>::empty());
    assert(apply_lines(store@, Seq::<Seq<char>>::empty()) == store@);
    assert(apply_lines(store@, pieces) == store@);
    assert(split(join_lines(ls), '\n') == ls + pieces);
}

proof fn lemma_find_absent_lit()
    ensures
        !FILE_TITLE@.contains('\n'),
{
    reveal_strlit("# Autogit credentials - KEEP SECURE");
    assert forall|i: int| 0 <= i < FILE_TITLE@.len() implies FILE_TITLE@[i] != '\n' by {}
}

} // verus!
