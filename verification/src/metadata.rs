//! Flat key/value documents whose text does not depend on the order in
//! which their members were inserted.

use vstd::prelude::*;
use vstd::utf8::{encode_utf8, encode_utf8_decode_utf8};
use crate::json::{json_members, json_object, write_json_string, write_json_value};
use crate::text::{opt_view, owned, owned_opt, push_char};

verus! {

/// A member of a document as mathematics: the key and the value, which is
/// absent for `null`.
pub type EntryView = (Seq<char>, Option<Seq<char>>);

/// Lexicographic order on byte strings; a proper prefix comes first.
pub open spec fn bytes_before(a: Seq<u8>, b: Seq<u8>) -> bool
    decreases a.len(),
{
    if b.len() == 0 {
        false
    } else if a.len() == 0 {
        true
    } else if a[0] != b[0] {
        a[0] < b[0]
    } else {
        bytes_before(a.drop_first(), b.drop_first())
    }
}

/// The order of keys: by the bytes of their UTF-8 encoding.
pub open spec fn key_before(a: Seq<char>, b: Seq<char>) -> bool {
    bytes_before(encode_utf8(a), encode_utf8(b))
}

/// Whether the keys of `e` strictly increase, so that no key occurs twice.
pub open spec fn sorted_keys(e: Seq<EntryView>) -> bool {
    forall|i: int, j: int|
        0 <= i < j < e.len() ==> key_before((#[trigger] e[i]).0, (#[trigger] e[j]).0)
}

/// Whether `k` is the key of a member of `e`.
pub open spec fn has_key(e: Seq<EntryView>, k: Seq<char>) -> bool {
    exists|i: int| 0 <= i < e.len() && (#[trigger] e[i]).0 == k
}

/// The position of a member of `e` with key `k`.
pub open spec fn index_of(e: Seq<EntryView>, k: Seq<char>) -> int {
    choose|i: int| 0 <= i < e.len() && (#[trigger] e[i]).0 == k
}

/// The mapping from keys to values that the members `e` describe.
pub open spec fn entries_map(e: Seq<EntryView>) -> Map<Seq<char>, Option<Seq<char>>> {
    Map::new(|k: Seq<char>| has_key(e, k), |k: Seq<char>| e[index_of(e, k)].1)
}

/// No byte string comes before itself.
pub proof fn lemma_bytes_before_irreflexive(a: Seq<u8>)
    ensures
        !bytes_before(a, a),
    decreases a.len(),
{
    if a.len() > 0 {
        lemma_bytes_before_irreflexive(a.drop_first());
    }
}

/// The order on byte strings is transitive.
pub proof fn lemma_bytes_before_transitive(a: Seq<u8>, b: Seq<u8>, c: Seq<u8>)
    requires
        bytes_before(a, b),
        bytes_before(b, c),
    ensures
        bytes_before(a, c),
    decreases a.len(),
{
    if a.len() > 0 && a[0] == b[0] && b[0] == c[0] {
        lemma_bytes_before_transitive(a.drop_first(), b.drop_first(), c.drop_first());
    }
}

/// Of two different byte strings one comes before the other.
pub proof fn lemma_bytes_before_total(a: Seq<u8>, b: Seq<u8>)
    ensures
        a == b || bytes_before(a, b) || bytes_before(b, a),
    decreases a.len(),
{
    if a.len() > 0 && b.len() > 0 && a[0] == b[0] {
        lemma_bytes_before_total(a.drop_first(), b.drop_first());
        if a.drop_first() == b.drop_first() {
            assert(a =~= seq![a[0]] + a.drop_first());
            assert(b =~= seq![b[0]] + b.drop_first());
        }
    } else if a.len() == 0 && b.len() == 0 {
        assert(a =~= b);
    }
}

/// The order of keys is strict and total: no key comes before itself, the
/// order is transitive, and of two different keys one comes first.
pub proof fn lemma_key_order(a: Seq<char>, b: Seq<char>, c: Seq<char>)
    ensures
        !key_before(a, a),
        key_before(a, b) && key_before(b, c) ==> key_before(a, c),
        a == b || key_before(a, b) || key_before(b, a),
        !(key_before(a, b) && key_before(b, a)),
{
    lemma_bytes_before_irreflexive(encode_utf8(a));
    if key_before(a, b) && key_before(b, c) {
        lemma_bytes_before_transitive(encode_utf8(a), encode_utf8(b), encode_utf8(c));
    }
    if key_before(a, b) && key_before(b, a) {
        lemma_bytes_before_transitive(encode_utf8(a), encode_utf8(b), encode_utf8(a));
    }
    lemma_bytes_before_total(encode_utf8(a), encode_utf8(b));
    if encode_utf8(a) == encode_utf8(b) {
        encode_utf8_decode_utf8(a);
        encode_utf8_decode_utf8(b);
    }
}

/// In members with strictly increasing keys, each key leads back to its own
/// member.
pub proof fn lemma_lookup(e: Seq<EntryView>, i: int)
    requires
        sorted_keys(e),
        0 <= i < e.len(),
    ensures
        has_key(e, e[i].0),
        index_of(e, e[i].0) == i,
        entries_map(e).dom().contains(e[i].0),
        entries_map(e)[e[i].0] == e[i].1,
{
    let k = e[i].0;
    assert(0 <= i < e.len() && e[i].0 == k);
    let c = index_of(e, k);
    assert(0 <= c < e.len() && e[c].0 == k);
    lemma_key_order(k, k, k);
    if c < i {
        assert(key_before(e[c].0, e[i].0));
    } else if i < c {
        assert(key_before(e[i].0, e[c].0));
    }
}

/// Placing a new key at its sorted position keeps the keys increasing and
/// adds exactly that member to the mapping.
pub proof fn lemma_insert_entry(e: Seq<EntryView>, i: int, key: Seq<char>, value: Option<Seq<char>>)
    requires
        sorted_keys(e),
        0 <= i <= e.len(),
        forall|j: int| 0 <= j < i ==> key_before((#[trigger] e[j]).0, key),
        i < e.len() ==> key_before(key, e[i].0),
    ensures
        sorted_keys(e.insert(i, (key, value))),
        entries_map(e.insert(i, (key, value))) == entries_map(e).insert(key, value),
{
    let n = e.insert(i, (key, value));
    assert forall|a: int, b: int| 0 <= a < b < n.len() implies key_before(
        (#[trigger] n[a]).0,
        (#[trigger] n[b]).0,
    ) by {
        if b < i {
            assert(n[a] == e[a] && n[b] == e[b]);
        } else if b == i {
            assert(n[a] == e[a]);
        } else if a == i {
            assert(n[b] == e[b - 1]);
            if b - 1 > i {
                assert(key_before(e[i].0, e[b - 1].0));
                lemma_key_order(key, e[i].0, e[b - 1].0);
            }
        } else if a < i {
            assert(n[a] == e[a] && n[b] == e[b - 1]);
            if b - 1 > a {
                assert(key_before(e[a].0, e[b - 1].0));
            }
        } else {
            assert(n[a] == e[a - 1] && n[b] == e[b - 1]);
            assert(key_before(e[a - 1].0, e[b - 1].0));
        }
    }
    let m1 = entries_map(n);
    let m2 = entries_map(e).insert(key, value);
    assert forall|k: Seq<char>| m1.dom().contains(k) <==> m2.dom().contains(k) by {
        if has_key(n, k) {
            let c = index_of(n, k);
            if c < i {
                assert(e[c].0 == k);
            } else if c > i {
                assert(e[c - 1].0 == k);
            }
        }
        if has_key(e, k) {
            let c = index_of(e, k);
            if c < i {
                assert(n[c].0 == k);
            } else {
                assert(n[c + 1].0 == k);
            }
        }
        if k == key {
            assert(n[i].0 == k);
        }
    }
    assert forall|k: Seq<char>| m1.dom().contains(k) implies m1[k] == m2[k] by {
        let c = index_of(n, k);
        lemma_lookup(n, c);
        if c < i {
            assert(n[c] == e[c]);
            lemma_lookup(e, c);
            lemma_key_order(e[c].0, key, key);
        } else if c > i {
            assert(n[c] == e[c - 1]);
            lemma_lookup(e, c - 1);
            if c - 1 > i {
                assert(key_before(e[i].0, e[c - 1].0));
                lemma_key_order(key, e[i].0, e[c - 1].0);
            }
            lemma_key_order(key, e[c - 1].0, key);
        }
    }
    assert(m1 =~= m2);
}

/// Replacing the value of a member keeps the keys increasing and changes
/// exactly that member of the mapping.
pub proof fn lemma_update_entry(e: Seq<EntryView>, i: int, value: Option<Seq<char>>)
    requires
        sorted_keys(e),
        0 <= i < e.len(),
    ensures
        sorted_keys(e.update(i, (e[i].0, value))),
        entries_map(e.update(i, (e[i].0, value))) == entries_map(e).insert(e[i].0, value),
{
    let key = e[i].0;
    let n = e.update(i, (key, value));
    assert forall|a: int, b: int| 0 <= a < b < n.len() implies key_before(
        (#[trigger] n[a]).0,
        (#[trigger] n[b]).0,
    ) by {
        assert(n[a].0 == e[a].0 && n[b].0 == e[b].0);
    }
    let m1 = entries_map(n);
    let m2 = entries_map(e).insert(key, value);
    assert forall|k: Seq<char>| m1.dom().contains(k) <==> m2.dom().contains(k) by {
        if has_key(n, k) {
            let c = index_of(n, k);
            assert(e[c].0 == k);
        }
        if has_key(e, k) {
            let c = index_of(e, k);
            assert(n[c].0 == k);
        }
        if k == key {
            assert(n[i].0 == k);
        }
    }
    assert forall|k: Seq<char>| m1.dom().contains(k) implies m1[k] == m2[k] by {
        let c = index_of(n, k);
        lemma_lookup(n, c);
        if c != i {
            assert(n[c] == e[c]);
            lemma_lookup(e, c);
            lemma_lookup(e, i);
        }
    }
    assert(m1 =~= m2);
}

/// Members with strictly increasing keys are determined by the mapping they
/// describe.
pub proof fn lemma_sorted_entries_unique(a: Seq<EntryView>, b: Seq<EntryView>)
    requires
        sorted_keys(a),
        sorted_keys(b),
        entries_map(a) == entries_map(b),
    ensures
        a == b,
    decreases a.len(),
{
    if a.len() == 0 {
        if b.len() > 0 {
            lemma_lookup(b, 0);
            assert(entries_map(a).dom().contains(b[0].0));
            assert(has_key(a, b[0].0));
        }
        assert(a =~= b);
    } else {
        let la = a.len() - 1;
        lemma_lookup(a, la);
        assert(has_key(b, a[la].0));
        let lb = b.len() - 1;
        lemma_lookup(b, lb);
        assert(has_key(a, b[lb].0));
        let j = index_of(b, a[la].0);
        let i = index_of(a, b[lb].0);
        lemma_key_order(a[la].0, b[lb].0, a[la].0);
        if j < lb {
            assert(key_before(b[j].0, b[lb].0));
        }
        if i < la {
            assert(key_before(a[i].0, a[la].0));
        }
        assert(a[la].0 == b[lb].0);
        assert(a[la].1 == b[lb].1);
        let a2 = a.drop_last();
        let b2 = b.drop_last();
        assert(sorted_keys(a2)) by {
            assert forall|x: int, y: int| 0 <= x < y < a2.len() implies key_before(
                (#[trigger] a2[x]).0,
                (#[trigger] a2[y]).0,
            ) by {
                assert(a2[x] == a[x] && a2[y] == a[y]);
            }
        }
        assert(sorted_keys(b2)) by {
            assert forall|x: int, y: int| 0 <= x < y < b2.len() implies key_before(
                (#[trigger] b2[x]).0,
                (#[trigger] b2[y]).0,
            ) by {
                assert(b2[x] == b[x] && b2[y] == b[y]);
            }
        }
        lemma_drop_last_map(a);
        lemma_drop_last_map(b);
        lemma_sorted_entries_unique(a2, b2);
        assert(a =~= a2.push(a[la]));
        assert(b =~= b2.push(b[lb]));
    }
}

/// Dropping the member with the greatest key removes that key from the
/// mapping and changes nothing else.
pub proof fn lemma_drop_last_map(e: Seq<EntryView>)
    requires
        sorted_keys(e),
        e.len() > 0,
    ensures
        entries_map(e.drop_last()) == entries_map(e).remove(e.last().0),
{
    let d = e.drop_last();
    let last = e.len() - 1;
    assert forall|x: int, y: int| 0 <= x < y < d.len() implies key_before(
        (#[trigger] d[x]).0,
        (#[trigger] d[y]).0,
    ) by {
        assert(d[x] == e[x] && d[y] == e[y]);
    }
    let m1 = entries_map(d);
    let m2 = entries_map(e).remove(e.last().0);
    assert forall|k: Seq<char>| m1.dom().contains(k) <==> m2.dom().contains(k) by {
        if has_key(d, k) {
            let c = index_of(d, k);
            assert(e[c].0 == k);
            assert(key_before(e[c].0, e[last].0));
            lemma_key_order(k, k, k);
        }
        if has_key(e, k) && k != e.last().0 {
            let c = index_of(e, k);
            assert(d[c].0 == k);
        }
    }
    assert forall|k: Seq<char>| m1.dom().contains(k) implies m1[k] == m2[k] by {
        let c = index_of(d, k);
        lemma_lookup(d, c);
        assert(d[c] == e[c]);
        lemma_lookup(e, c);
    }
    assert(m1 =~= m2);
}


/// How one key stands to another in the order of keys.
#[derive(Clone, Copy, Debug, PartialEq, Eq, Structural)]
pub enum KeyOrder {
    Before,
    Same,
    After,
}

/// Compares two keys by the bytes of their UTF-8 encoding.
pub fn key_order(a: &str, b: &str) -> (r: KeyOrder)
    ensures
        r == KeyOrder::Before <==> key_before(a@, b@),
        r == KeyOrder::Same <==> a@ == b@,
        r == KeyOrder::After <==> key_before(b@, a@),
{
    let x = a.as_bytes();
    let y = b.as_bytes();
    proof {
        lemma_key_order(a@, b@, a@);
        assert(x@.skip(0) == x@);
        assert(y@.skip(0) == y@);
    }
    let mut i: usize = 0;
    while i < x.len() && i < y.len()
        invariant
            i <= x.len(),
            i <= y.len(),
            x@ == encode_utf8(a@),
            y@ == encode_utf8(b@),
            x@.take(i as int) == y@.take(i as int),
            bytes_before(x@, y@) == bytes_before(x@.skip(i as int), y@.skip(i as int)),
            bytes_before(y@, x@) == bytes_before(y@.skip(i as int), x@.skip(i as int)),
        decreases x.len() - i,
    {
        proof {
            assert(x@.skip(i as int).drop_first() == x@.skip(i as int + 1));
            assert(y@.skip(i as int).drop_first() == y@.skip(i as int + 1));
            assert(x@.skip(i as int)[0] == x@[i as int]);
            assert(y@.skip(i as int)[0] == y@[i as int]);
        }
        if x[i] < y[i] {
            return KeyOrder::Before;
        }
        if x[i] > y[i] {
            return KeyOrder::After;
        }
        proof {
            assert(x@.take(i as int + 1) =~= x@.take(i as int).push(x@[i as int]));
            assert(y@.take(i as int + 1) =~= y@.take(i as int).push(y@[i as int]));
        }
        i += 1;
    }
    if x.len() == y.len() {
        proof {
            assert(x@.take(i as int) == x@);
            assert(y@.take(i as int) == y@);
            encode_utf8_decode_utf8(a@);
            encode_utf8_decode_utf8(b@);
        }
        KeyOrder::Same
    } else if i == x.len() {
        KeyOrder::Before
    } else {
        KeyOrder::After
    }
}

/// One member of a document.
#[derive(Debug, PartialEq, Eq)]
struct Entry {
    key: String,
    value: Option<String>,
}

/// The members of `v` as mathematics.
spec fn entry_views(v: Seq<Entry>) -> Seq<EntryView> {
    Seq::new(v.len(), |i: int| (v[i].key@, opt_view(v[i].value)))
}

/// A flat document of string keys with values that are strings or `null`.
/// Its members are kept in the order of their keys, so two documents with
/// the same members have the same text however they were built.
#[derive(Debug, PartialEq, Eq)]
pub struct Metadata {
    entries: Vec<Entry>,
}

impl View for Metadata {
    type V = Map<Seq<char>, Option<Seq<char>>>;

    open spec fn view(&self) -> Map<Seq<char>, Option<Seq<char>>> {
        entries_map(self.entries())
    }
}

impl Clone for Metadata {
    fn clone(&self) -> (r: Metadata)
        ensures
            r.entries() == self.entries(),
            r.wf(),
    {
        proof {
            use_type_invariant(self);
        }
        let mut copy: Vec<Entry> = Vec::new();
        let mut i: usize = 0;
        while i < self.entries.len()
            invariant
                i <= self.entries.len(),
                copy.len() == i,
                forall|j: int|
                    0 <= j < i ==> (#[trigger] copy@[j]).key@ == self.entries@[j].key@ && opt_view(
                        copy@[j].value,
                    ) == opt_view(self.entries@[j].value),
            decreases self.entries.len() - i,
        {
            let e = &self.entries[i];
            copy.push(Entry { key: owned(e.key.as_str()), value: owned_opt(&e.value) });
            i += 1;
        }
        assert(entry_views(copy@) =~= entry_views(self.entries@));
        Metadata { entries: copy }
    }
}

impl Metadata {
    /// The members of the document, in the order of their keys.
    pub closed spec fn entries(&self) -> Seq<EntryView> {
        entry_views(self.entries@)
    }

    /// Whether the keys of the members strictly increase. This holds of
    /// every document.
    #[verifier::type_invariant]
    pub open spec fn wf(&self) -> bool {
        sorted_keys(self.entries())
    }

    /// The text of the document: a compact JSON object whose members stand
    /// in the order of their keys.
    pub open spec fn json(&self) -> Seq<char> {
        json_object(self.entries())
    }

    /// The empty document.
    pub fn new() -> (r: Metadata)
        ensures
            r.wf(),
            r.entries() == Seq::<EntryView>::empty(),
            r@ == Map::<Seq<char>, Option<Seq<char>>>::empty(),
    {
        let r = Metadata { entries: Vec::new() };
        assert(r.entries() =~= Seq::<EntryView>::empty());
        assert(r@ =~= Map::<Seq<char>, Option<Seq<char>>>::empty());
        r
    }

    /// The number of members.
    pub fn len(&self) -> (r: usize)
        ensures
            r == self.entries().len(),
    {
        self.entries.len()
    }

    /// Sets the member `key` to `value`, where `None` stands for `null`. A
    /// member with the same key is replaced.
    pub fn insert(&mut self, key: &str, value: Option<&str>)
        ensures
            final(self).wf(),
            final(self)@ == old(self)@.insert(
                key@,
                match value {
                    Some(v) => Some(v@),
                    None => None,
                },
            ),
    {
        proof {
            use_type_invariant(&*self);
        }
        let ghost value_view: Option<Seq<char>> = match value {
            Some(v) => Some(v@),
            None => None,
        };
        let owned_value: Option<String> = match value {
            Some(v) => Some(owned(v)),
            None => None,
        };
        let mut entries: Vec<Entry> = Vec::new();
        core::mem::swap(&mut self.entries, &mut entries);
        let ghost before = entry_views(entries@);
        let n = entries.len();
        let mut i: usize = 0;
        let mut order = KeyOrder::Before;
        while i < n && order == KeyOrder::Before
            invariant
                i <= n,
                n == entries.len(),
                entry_views(entries@) == before,
                forall|j: int| 0 <= j < i ==> key_before((#[trigger] before[j]).0, key@),
                order == KeyOrder::Before || i < n,
                order == KeyOrder::Same ==> before[i as int].0 == key@,
                order == KeyOrder::After ==> key_before(key@, before[i as int].0),
            decreases n - i, (if order == KeyOrder::Before { 1int } else { 0int }),
        {
            order = key_order(entries[i].key.as_str(), key);
            if order == KeyOrder::Before {
                assert(before[i as int].0 == entries@[i as int].key@);
                i += 1;
            } else {
                assert(before[i as int].0 == entries@[i as int].key@);
            }
        }
        if i < n && order == KeyOrder::Same {
            proof {
                lemma_update_entry(before, i as int, value_view);
            }
            entries.set(i, Entry { key: owned(key), value: owned_value });
            assert(entry_views(entries@) =~= before.update(i as int, (key@, value_view)));
        } else {
            proof {
                lemma_insert_entry(before, i as int, key@, value_view);
            }
            entries.insert(i, Entry { key: owned(key), value: owned_value });
            assert(entry_views(entries@) =~= before.insert(i as int, (key@, value_view)));
        }
        self.entries = entries;
    }

    /// Appends the text of the document to `out`.
    pub fn write_json(&self, out: &mut String)
        ensures
            final(out)@ == old(out)@ + self.json(),
    {
        push_char(out, '{');
        let n = self.entries.len();
        let mut i: usize = 0;
        while i < n
            invariant
                i <= n,
                n == self.entries.len(),
                out@ == old(out)@ + seq!['{'] + json_members(self.entries().take(i as int)),
            decreases n - i,
        {
            let e = &self.entries[i];
            proof {
                let t = self.entries().take(i as int + 1);
                assert(t.drop_last() == self.entries().take(i as int));
                assert(t.last() == (e.key@, opt_view(e.value)));
                assert(t[0] == self.entries()[0]);
            }
            if i > 0 {
                push_char(out, ',');
            }
            write_json_string(out, e.key.as_str());
            push_char(out, ':');
            write_json_value(out, &e.value);
            i += 1;
            assert(out@ =~= old(out)@ + seq!['{'] + json_members(self.entries().take(i as int)));
        }
        proof {
            assert(self.entries().take(n as int) == self.entries());
        }
        push_char(out, '}');
        assert(out@ =~= old(out)@ + self.json());
    }

    /// The text of the document.
    pub fn to_json(&self) -> (r: String)
        ensures
            r@ == self.json(),
    {
        let mut out = String::new();
        self.write_json(&mut out);
        assert(out@ =~= self.json());
        out
    }

    /// Two documents that describe the same mapping have the same members
    /// in the same order, and so the same text.
    pub proof fn lemma_text_depends_on_mapping(a: Metadata, b: Metadata)
        requires
            a.wf(),
            b.wf(),
            a@ == b@,
        ensures
            a.entries() == b.entries(),
            a.json() == b.json(),
    {
        lemma_sorted_entries_unique(a.entries(), b.entries());
    }
}

} // verus!
