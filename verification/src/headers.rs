//! Header map with multi-valued, uniquely named entries, plus the
//! borrowed and copy-on-write wrappers used on the hot path and the
//! laws of the three header operations.

use vstd::prelude::*;
use crate::strutil::str_eq;
use crate::protocol::HeaderOp;

verus! {

/// Index of the first entry named `name`, or `-1` when absent.
pub open spec fn spec_key_idx(s: Seq<(Seq<char>, Seq<String>)>, name: Seq<char>) -> int
    decreases s.len(),
{
    if s.len() == 0 {
        -1
    } else if s[0].0 == name {
        0
    } else {
        let r = spec_key_idx(s.subrange(1, s.len() as int), name);
        if r < 0 {
            -1
        } else {
            r + 1
        }
    }
}

/// What `spec_key_idx` finds is the first entry with that name.
pub proof fn lemma_key_idx(s: Seq<(Seq<char>, Seq<String>)>, name: Seq<char>)
    ensures
        spec_key_idx(s, name) >= 0 ==> 0 <= spec_key_idx(s, name) < s.len()
            && s[spec_key_idx(s, name)].0 == name
            && (forall|k: int| 0 <= k < spec_key_idx(s, name) ==> s[k].0 != name),
        spec_key_idx(s, name) < 0 ==> (forall|k: int| 0 <= k < s.len() ==> s[k].0 != name),
    decreases s.len(),
{
    if s.len() > 0 && s[0].0 != name {
        let t = s.subrange(1, s.len() as int);
        lemma_key_idx(t, name);
        assert(forall|k: int| 0 <= k < t.len() ==> t[k] == s[k + 1]);
        let r = spec_key_idx(t, name);
        if r >= 0 {
            assert(spec_key_idx(s, name) == r + 1);
            assert(s[r + 1] == t[r]);
            assert forall|k: int| 0 <= k < r + 1 implies s[k].0 != name by {
                if k > 0 {
                    assert(s[k] == t[k - 1]);
                }
            }
        } else {
            assert forall|k: int| 0 <= k < s.len() implies s[k].0 != name by {
                if k > 0 {
                    assert(s[k] == t[k - 1]);
                }
            }
        }
    }
}

/// A first match at `i` pins the index the search returns.
pub proof fn lemma_key_idx_unique(s: Seq<(Seq<char>, Seq<String>)>, name: Seq<char>, i: int)
    requires
        0 <= i < s.len(),
        s[i].0 == name,
        forall|k: int| 0 <= k < i ==> s[k].0 != name,
    ensures
        spec_key_idx(s, name) == i,
{
    lemma_key_idx(s, name);
    let r = spec_key_idx(s, name);
    if r < 0 {
        assert(s[i].0 != name);
    } else if r < i {
        assert(s[r].0 != name);
    } else if r > i {
        assert(s[i].0 != name);
    }
}

/// When no entry matches, the search reports absence.
pub proof fn lemma_key_idx_absent(s: Seq<(Seq<char>, Seq<String>)>, name: Seq<char>)
    requires
        forall|k: int| 0 <= k < s.len() ==> s[k].0 != name,
    ensures
        spec_key_idx(s, name) < 0,
{
    lemma_key_idx(s, name);
    let r = spec_key_idx(s, name);
    if r >= 0 {
        assert(s[r].0 != name);
    }
}

/// True when an entry named `name` is present.
pub open spec fn spec_contains(s: Seq<(Seq<char>, Seq<String>)>, name: Seq<char>) -> bool {
    spec_key_idx(s, name) >= 0
}

/// The values of the entry named `name`, when present.
pub open spec fn spec_get(s: Seq<(Seq<char>, Seq<String>)>, name: Seq<char>) -> Option<Seq<String>> {
    if spec_contains(s, name) {
        Some(s[spec_key_idx(s, name)].1)
    } else {
        None
    }
}

/// Replace all values of `name` by the single value `values`, or append
/// a new entry when the name is absent.
pub open spec fn spec_set(
    s: Seq<(Seq<char>, Seq<String>)>,
    name: Seq<char>,
    values: Seq<String>,
) -> Seq<(Seq<char>, Seq<String>)> {
    let i = spec_key_idx(s, name);
    if i >= 0 {
        s.update(i, (name, values))
    } else {
        s.push((name, values))
    }
}

/// Append `value` to the entry named `name`, or create it.
pub open spec fn spec_add(
    s: Seq<(Seq<char>, Seq<String>)>,
    name: Seq<char>,
    value: String,
) -> Seq<(Seq<char>, Seq<String>)> {
    let i = spec_key_idx(s, name);
    if i >= 0 {
        s.update(i, (s[i].0, s[i].1.push(value)))
    } else {
        s.push((name, seq![value]))
    }
}

/// Remove the entry named `name`, when present.
pub open spec fn spec_remove(
    s: Seq<(Seq<char>, Seq<String>)>,
    name: Seq<char>,
) -> Seq<(Seq<char>, Seq<String>)> {
    let i = spec_key_idx(s, name);
    if i >= 0 {
        s.remove(i)
    } else {
        s
    }
}

/// Entry names are pairwise distinct.
pub open spec fn wf_entries(s: Seq<(Seq<char>, Seq<String>)>) -> bool {
    forall|i: int, j: int| 0 <= i < j < s.len() ==> s[i].0 != s[j].0
}

/// Header map: ordered entries of one name and its ordered values,
/// with pairwise distinct names.
#[derive(Debug, Clone)]
pub struct HeaderMap {
    entries: Vec<(String, Vec<String>)>,
}

impl View for HeaderMap {
    type V = Seq<(Seq<char>, Seq<String>)>;

    closed spec fn view(&self) -> Seq<(Seq<char>, Seq<String>)> {
        self.entries@.map_values(|e: (String, Vec<String>)| (e.0@, e.1@))
    }
}

impl HeaderMap {
    /// Well-formed: entry names are pairwise distinct.
    pub open spec fn wf(&self) -> bool {
        wf_entries(self@)
    }

    /// Empty header map.
    pub fn new() -> (m: HeaderMap)
        ensures
            m@ =~= Seq::<(Seq<char>, Seq<String>)>::empty(),
            m.wf(),
    {
        HeaderMap { entries: Vec::new() }
    }

    /// Number of distinct header names.
    pub fn len(&self) -> (n: usize)
        ensures
            n == self@.len(),
    {
        self.entries.len()
    }

    /// True when no header is present.
    pub fn is_empty(&self) -> (r: bool)
        ensures
            r == (self@.len() == 0),
    {
        self.entries.len() == 0
    }

    /// Index of the entry named `name`, when present.
    fn find(&self, name: &str) -> (r: Option<usize>)
        ensures
            match r {
                Some(i) => spec_key_idx(self@, name@) == i && i < self@.len(),
                None => spec_key_idx(self@, name@) < 0,
            },
    {
        let n = self.entries.len();
        let mut i: usize = 0;
        while i < n
            invariant
                i <= n,
                n == self.entries@.len(),
                forall|k: int| 0 <= k < i ==> self@[k].0 != name@,
            decreases n - i,
        {
            if str_eq(self.entries[i].0.as_str(), name) {
                proof {
                    assert(self@[i as int].0 == self.entries@[i as int].0@);
                    lemma_key_idx_unique(self@, name@, i as int);
                }
                return Some(i);
            }
            proof {
                assert(self@[i as int].0 == self.entries@[i as int].0@);
            }
            i = i + 1;
        }
        proof {
            lemma_key_idx_absent(self@, name@);
        }
        None
    }

    /// The values of a header, when present.
    pub fn get<'a>(&'a self, name: &str) -> (r: Option<&'a Vec<String>>)
        ensures
            match r {
                Some(v) => spec_get(self@, name@) == Some(v@),
                None => spec_get(self@, name@) is None,
            },
    {
        match self.find(name) {
            Some(i) => Some(&self.entries[i].1),
            None => None,
        }
    }

    /// The first value of a header, when present and non-empty.
    pub fn get_first<'a>(&'a self, name: &str) -> (r: Option<&'a String>)
        ensures
            match r {
                Some(v) => spec_get(self@, name@) matches Some(vs) && vs.len() > 0 && *v == vs[0],
                None => spec_get(self@, name@) is None
                    || (spec_get(self@, name@) matches Some(vs) && vs.len() == 0),
            },
    {
        match self.find(name) {
            Some(i) => {
                let vs = &self.entries[i].1;
                if vs.len() > 0 {
                    Some(&vs[0])
                } else {
                    None
                }
            },
            None => None,
        }
    }

    /// True when a header of this name exists.
    pub fn contains(&self, name: &str) -> (r: bool)
        ensures
            r == spec_contains(self@, name@),
    {
        self.find(name).is_some()
    }

    /// Replace all values of `name` by `values`.
    pub fn set_values(&mut self, name: String, values: Vec<String>)
        ensures
            final(self)@ == spec_set(old(self)@, name@, values@),
            old(self).wf() ==> final(self).wf(),
    {
        proof {
            lemma_key_idx(self@, name@);
        }
        match self.find(name.as_str()) {
            Some(i) => {
                self.entries.remove(i);
                self.entries.insert(i, (name, values));
                assert(final(self)@ =~= spec_set(old(self)@, name@, values@));
            },
            None => {
                self.entries.push((name, values));
                assert(final(self)@ =~= spec_set(old(self)@, name@, values@));
            },
        }
    }

    /// Set a header to a single value, replacing any existing values.
    pub fn set(&mut self, name: String, value: String)
        ensures
            final(self)@ == spec_set(old(self)@, name@, seq![value]),
            old(self).wf() ==> final(self).wf(),
    {
        let mut values: Vec<String> = Vec::new();
        values.push(value);
        self.set_values(name, values);
    }

    /// Append a value to a header, creating it when absent.
    pub fn add(&mut self, name: String, value: String)
        ensures
            final(self)@ == spec_add(old(self)@, name@, value),
            old(self).wf() ==> final(self).wf(),
    {
        proof {
            lemma_key_idx(self@, name@);
        }
        match self.find(name.as_str()) {
            Some(i) => {
                let (k, mut vs) = self.entries.remove(i);
                vs.push(value);
                self.entries.insert(i, (k, vs));
                assert(final(self)@ =~= spec_add(old(self)@, name@, value));
            },
            None => {
                let mut vs: Vec<String> = Vec::new();
                vs.push(value);
                self.entries.push((name, vs));
                assert(final(self)@ =~= spec_add(old(self)@, name@, value));
            },
        }
    }

    /// Remove a header, returning its values when it was present.
    pub fn remove(&mut self, name: &str) -> (r: Option<Vec<String>>)
        ensures
            final(self)@ == spec_remove(old(self)@, name@),
            match r {
                Some(v) => spec_get(old(self)@, name@) == Some(v@),
                None => spec_get(old(self)@, name@) is None,
            },
            old(self).wf() ==> final(self).wf(),
    {
        proof {
            lemma_key_idx(self@, name@);
        }
        match self.find(name) {
            Some(i) => {
                let (_k, vs) = self.entries.remove(i);
                assert(final(self)@ =~= spec_remove(old(self)@, name@));
                Some(vs)
            },
            None => None,
        }
    }

    /// All entries, in order.
    pub fn pairs<'a>(&'a self) -> (r: &'a Vec<(String, Vec<String>)>)
        ensures
            r@.map_values(|e: (String, Vec<String>)| (e.0@, e.1@)) == self@,
    {
        &self.entries
    }

    /// Deep copy.
    pub fn duplicate(&self) -> (m: HeaderMap)
        ensures
            m@ == self@,
            m.wf() == self.wf(),
    {
        let n = self.entries.len();
        let mut entries: Vec<(String, Vec<String>)> = Vec::new();
        let mut i: usize = 0;
        while i < n
            invariant
                i <= n,
                n == self.entries@.len(),
                entries@.len() == i,
                forall|k: int| 0 <= k < i ==> #[trigger] entries@[k].0@ == self.entries@[k].0@
                    && entries@[k].1@ == self.entries@[k].1@,
            decreases n - i,
        {
            let name = self.entries[i].0.clone();
            let values = clone_string_vec(&self.entries[i].1);
            entries.push((name, values));
            i = i + 1;
        }
        let m = HeaderMap { entries };
        proof {
            assert(m@ =~= self@);
        }
        m
    }

    /// Flattened (name, value) pairs, in entry order then value order.
    pub fn flat_pairs(&self) -> (r: Vec<(String, String)>)
        ensures
            r@.map_values(|p: (String, String)| (p.0@, p.1)) =~= spec_flat(self@),
    {
        let n = self.entries.len();
        let mut out: Vec<(String, String)> = Vec::new();
        let mut i: usize = 0;
        while i < n
            invariant
                i <= n,
                n == self.entries@.len(),
                self@ == self.entries@.map_values(|e: (String, Vec<String>)| (e.0@, e.1@)),
                out@.map_values(|p: (String, String)| (p.0@, p.1))
                    =~= spec_flat(self@.subrange(0, i as int)),
            decreases n - i,
        {
            let name = &self.entries[i].0;
            let values = &self.entries[i].1;
            let vn = values.len();
            let mut j: usize = 0;
            while j < vn
                invariant
                    j <= vn,
                    i < n,
                    n == self.entries@.len(),
                    vn == values@.len(),
                    values@ == self.entries@[i as int].1@,
                    name@ == self.entries@[i as int].0@,
                    self@ == self.entries@.map_values(|e: (String, Vec<String>)| (e.0@, e.1@)),
                    out@.map_values(|p: (String, String)| (p.0@, p.1))
                        =~= spec_flat(self@.subrange(0, i as int))
                        + spec_pairs_of(self@[i as int].0, self@[i as int].1.subrange(0, j as int)),
                decreases vn - j,
            {
                let ghost prev = out@;
                out.push((name.clone(), values[j].clone()));
                proof {
                    assert(self@[i as int].1.subrange(0, (j + 1) as int)
                        =~= self@[i as int].1.subrange(0, j as int).push(self@[i as int].1[j as int]));
                    lemma_pairs_of_push(self@[i as int].0,
                        self@[i as int].1.subrange(0, j as int), self@[i as int].1[j as int]);
                    assert(out@.map_values(|p: (String, String)| (p.0@, p.1))
                        =~= prev.map_values(|p: (String, String)| (p.0@, p.1))
                            .push((name@, self@[i as int].1[j as int])));
                }
                j = j + 1;
            }
            proof {
                assert(self@[i as int].1.subrange(0, vn as int) =~= self@[i as int].1);
                assert(spec_flat(self@.subrange(0, (i + 1) as int))
                    =~= spec_flat(self@.subrange(0, i as int))
                        + spec_pairs_of(self@[i as int].0, self@[i as int].1)) by {
                    assert(self@.subrange(0, (i + 1) as int).drop_last()
                        =~= self@.subrange(0, i as int));
                }
            }
            i = i + 1;
        }
        proof {
            assert(self@.subrange(0, n as int) =~= self@);
        }
        out
    }
}

/// Borrowed view of a header map: lookups without taking ownership.
#[derive(Debug)]
pub struct HeadersRef<'a> {
    inner: &'a HeaderMap,
}

impl<'a> HeadersRef<'a> {
    /// The entries seen through this reference.
    pub closed spec fn view(&self) -> Seq<(Seq<char>, Seq<String>)> {
        self.inner@
    }

    /// Borrow a header map.
    pub fn new(headers: &'a HeaderMap) -> (r: HeadersRef<'a>)
        ensures
            r.view() == headers@,
    {
        HeadersRef { inner: headers }
    }

    /// The values of a header, when present.
    pub fn get(&self, name: &str) -> (r: Option<&'a Vec<String>>)
        ensures
            match r {
                Some(v) => spec_get(self.view(), name@) == Some(v@),
                None => spec_get(self.view(), name@) is None,
            },
    {
        self.inner.get(name)
    }

    /// The first value of a header, when present and non-empty.
    pub fn get_first(&self, name: &str) -> (r: Option<&'a String>)
        ensures
            match r {
                Some(v) => spec_get(self.view(), name@) matches Some(vs)
                    && vs.len() > 0 && *v == vs[0],
                None => spec_get(self.view(), name@) is None
                    || (spec_get(self.view(), name@) matches Some(vs) && vs.len() == 0),
            },
    {
        self.inner.get_first(name)
    }

    /// True when a header of this name exists.
    pub fn contains(&self, name: &str) -> (r: bool)
        ensures
            r == spec_contains(self.view(), name@),
    {
        self.inner.contains(name)
    }

    /// Number of distinct header names.
    pub fn len(&self) -> (n: usize)
        ensures
            n == self.view().len(),
    {
        self.inner.len()
    }

    /// True when no header is present.
    pub fn is_empty(&self) -> (r: bool)
        ensures
            r == (self.view().len() == 0),
    {
        self.inner.is_empty()
    }

    /// Flattened (name, value) pairs, in entry order.
    pub fn iter_flat(&self) -> (r: Vec<(String, String)>)
        ensures
            r@.map_values(|p: (String, String)| (p.0@, p.1)) =~= spec_flat(self.view()),
    {
        self.inner.flat_pairs()
    }

    /// Copy into an owned map.
    pub fn to_owned(&self) -> (m: HeaderMap)
        ensures
            m@ == self.view(),
    {
        self.inner.duplicate()
    }

    /// The underlying map.
    pub fn as_inner(&self) -> (r: &'a HeaderMap)
        ensures
            r@ == self.view(),
    {
        self.inner
    }
}

/// Copy-on-write headers: reads borrow, the first write copies.
#[derive(Debug)]
pub enum HeadersCow<'a> {
    /// Still borrowing the source map
    Borrowed(&'a HeaderMap),
    /// Owning a copy
    Owned(HeaderMap),
}

impl<'a> HeadersCow<'a> {
    /// The entries seen through this value.
    pub open spec fn view(&self) -> Seq<(Seq<char>, Seq<String>)> {
        match self {
            HeadersCow::Borrowed(m) => m@,
            HeadersCow::Owned(m) => m@,
        }
    }

    /// Well-formed: the entries have distinct names.
    pub open spec fn wf(&self) -> bool {
        wf_entries(self.view())
    }

    /// Borrow a source map.
    pub fn borrowed(headers: &'a HeaderMap) -> (r: HeadersCow<'a>)
        ensures
            r.view() == headers@,
            !(r is Owned),
    {
        HeadersCow::Borrowed(headers)
    }

    /// Own a map outright.
    pub fn owned(headers: HeaderMap) -> (r: HeadersCow<'a>)
        ensures
            r.view() == headers@,
            r is Owned,
    {
        HeadersCow::Owned(headers)
    }

    /// The values of a header, when present.
    pub fn get<'b>(&'b self, name: &str) -> (r: Option<&'b Vec<String>>)
        ensures
            match r {
                Some(v) => spec_get(self.view(), name@) == Some(v@),
                None => spec_get(self.view(), name@) is None,
            },
    {
        match self {
            HeadersCow::Borrowed(m) => m.get(name),
            HeadersCow::Owned(m) => m.get(name),
        }
    }

    /// The first value of a header, when present and non-empty.
    pub fn get_first<'b>(&'b self, name: &str) -> (r: Option<&'b String>)
        ensures
            match r {
                Some(v) => spec_get(self.view(), name@) matches Some(vs)
                    && vs.len() > 0 && *v == vs[0],
                None => spec_get(self.view(), name@) is None
                    || (spec_get(self.view(), name@) matches Some(vs) && vs.len() == 0),
            },
    {
        match self {
            HeadersCow::Borrowed(m) => m.get_first(name),
            HeadersCow::Owned(m) => m.get_first(name),
        }
    }

    /// True when a header of this name exists.
    pub fn contains(&self, name: &str) -> (r: bool)
        ensures
            r == spec_contains(self.view(), name@),
    {
        match self {
            HeadersCow::Borrowed(m) => m.contains(name),
            HeadersCow::Owned(m) => m.contains(name),
        }
    }

    /// Make this value owned, copying the source on the first write.
    fn make_owned(&mut self)
        ensures
            (*final(self)) is Owned,
            final(self).view() == old(self).view(),
    {
        match self {
            HeadersCow::Borrowed(m) => {
                *self = HeadersCow::Owned(m.duplicate());
            },
            HeadersCow::Owned(..) => {},
        }
    }

    /// Set a header to a single value, copying first when borrowed.
    pub fn set(&mut self, name: String, value: String)
        ensures
            final(self).view() == spec_set(old(self).view(), name@, seq![value]),
            (*final(self)) is Owned,
            old(self).wf() ==> final(self).wf(),
    {
        self.make_owned();
        match self {
            HeadersCow::Owned(m) => {
                m.set(name, value);
            },
            HeadersCow::Borrowed(..) => {
                proof {
                    assert(false);
                }
            },
        }
    }

    /// Append a header value, copying first when borrowed.
    pub fn add(&mut self, name: String, value: String)
        ensures
            final(self).view() == spec_add(old(self).view(), name@, value),
            (*final(self)) is Owned,
            old(self).wf() ==> final(self).wf(),
    {
        self.make_owned();
        match self {
            HeadersCow::Owned(m) => {
                m.add(name, value);
            },
            HeadersCow::Borrowed(..) => {
                proof {
                    assert(false);
                }
            },
        }
    }

    /// Remove a header, copying first when borrowed.
    pub fn remove(&mut self, name: &str) -> (r: Option<Vec<String>>)
        ensures
            final(self).view() == spec_remove(old(self).view(), name@),
            (*final(self)) is Owned,
            match r {
                Some(v) => spec_get(old(self).view(), name@) == Some(v@),
                None => spec_get(old(self).view(), name@) is None,
            },
            old(self).wf() ==> final(self).wf(),
    {
        self.make_owned();
        match self {
            HeadersCow::Owned(m) => m.remove(name),
            HeadersCow::Borrowed(..) => {
                proof {
                    assert(false);
                }
                None
            },
        }
    }

    /// True once a write has copied the map.
    pub fn is_owned(&self) -> (r: bool)
        ensures
            r == (*self is Owned),
    {
        matches!(self, HeadersCow::Owned(..))
    }

    /// Take the map out, copying when still borrowed.
    pub fn into_owned(self) -> (m: HeaderMap)
        ensures
            m@ == self.view(),
    {
        match self {
            HeadersCow::Borrowed(m) => m.duplicate(),
            HeadersCow::Owned(m) => m,
        }
    }

    /// Number of distinct header names.
    pub fn len(&self) -> (n: usize)
        ensures
            n == self.view().len(),
    {
        match self {
            HeadersCow::Borrowed(m) => m.len(),
            HeadersCow::Owned(m) => m.len(),
        }
    }

    /// True when no header is present.
    pub fn is_empty(&self) -> (r: bool)
        ensures
            r == (self.view().len() == 0),
    {
        self.len() == 0
    }
}

/// Iterator over flattened (name, value) pairs of a header map.
#[derive(Debug)]
pub struct HeaderIterator {
    pairs: Vec<(String, String)>,
    pos: usize,
}

impl HeaderIterator {
    /// The pairs this iterator walks.
    pub closed spec fn spec_pairs(&self) -> Seq<(String, String)> {
        self.pairs@
    }

    /// How many pairs were already handed out.
    pub closed spec fn spec_pos(&self) -> int {
        self.pos as int
    }

    /// Iterator over a map's flattened pairs, in entry order.
    pub fn new(headers: &HeaderMap) -> (r: HeaderIterator)
        ensures
            r.spec_pairs().map_values(|p: (String, String)| (p.0@, p.1))
                =~= spec_flat(headers@),
            r.spec_pos() == 0,
    {
        HeaderIterator { pairs: headers.flat_pairs(), pos: 0 }
    }

    /// The next pair, until all were handed out.
    pub fn next(&mut self) -> (r: Option<(String, String)>)
        ensures
            final(self).spec_pairs() == old(self).spec_pairs(),
            match r {
                Some(p) => old(self).spec_pos() < old(self).spec_pairs().len()
                    && p == old(self).spec_pairs()[old(self).spec_pos()]
                    && final(self).spec_pos() == old(self).spec_pos() + 1,
                None => old(self).spec_pos() >= old(self).spec_pairs().len()
                    && final(self).spec_pos() == old(self).spec_pos(),
            },
    {
        if self.pos < self.pairs.len() {
            let p = &self.pairs[self.pos];
            self.pos = self.pos + 1;
            Some((p.0.clone(), p.1.clone()))
        } else {
            None
        }
    }
}

/// Flattened (name, value) pairs of a header map, in entry order.
pub fn iter_flat(headers: &HeaderMap) -> (r: Vec<(String, String)>)
    ensures
        r@.map_values(|p: (String, String)| (p.0@, p.1)) =~= spec_flat(headers@),
{
    headers.flat_pairs()
}

/// The (name, value) pairs of one entry.
pub open spec fn spec_pairs_of(name: Seq<char>, values: Seq<String>) -> Seq<(Seq<char>, String)> {
    values.map_values(|v: String| (name, v))
}

proof fn lemma_pairs_of_push(name: Seq<char>, values: Seq<String>, v: String)
    ensures
        spec_pairs_of(name, values.push(v)) =~= spec_pairs_of(name, values).push((name, v)),
{
}

/// Flattened pairs of a whole entry sequence.
pub open spec fn spec_flat(s: Seq<(Seq<char>, Seq<String>)>) -> Seq<(Seq<char>, String)>
    decreases s.len(),
{
    if s.len() == 0 {
        Seq::empty()
    } else {
        spec_flat(s.drop_last()) + spec_pairs_of(s.last().0, s.last().1)
    }
}

/// Clone a vector of strings, value for value.
pub fn clone_string_vec(v: &Vec<String>) -> (r: Vec<String>)
    ensures
        r@ == v@,
{
    let n = v.len();
    let mut out: Vec<String> = Vec::new();
    let mut i: usize = 0;
    while i < n
        invariant
            i <= n,
            n == v@.len(),
            out@ =~= v@.subrange(0, i as int),
        decreases n - i,
    {
        out.push(v[i].clone());
        proof {
            assert(out@ =~= v@.subrange(0, (i + 1) as int));
        }
        i = i + 1;
    }
    proof {
        assert(out@ =~= v@);
    }
    out
}

/// Apply one header operation to a map.
pub fn apply_header_op(m: &mut HeaderMap, op: &HeaderOp)
    ensures
        final(m)@ == spec_apply_op(old(m)@, *op),
        old(m).wf() ==> final(m).wf(),
{
    match op {
        HeaderOp::SetHeader { name, value } => {
            m.set(name.clone(), value.clone());
        },
        HeaderOp::AddHeader { name, value } => {
            m.add(name.clone(), value.clone());
        },
        HeaderOp::RemoveHeader { name } => {
            let _ = m.remove(name.as_str());
        },
    }
}

/// What one header operation does to the entries.
pub open spec fn spec_apply_op(s: Seq<(Seq<char>, Seq<String>)>, op: HeaderOp)
    -> Seq<(Seq<char>, Seq<String>)> {
    match op {
        HeaderOp::SetHeader { name, value } => spec_set(s, name@, seq![value]),
        HeaderOp::AddHeader { name, value } => spec_add(s, name@, value),
        HeaderOp::RemoveHeader { name } => spec_remove(s, name@),
    }
}

/// Apply a sequence of header operations in order.
pub fn apply_header_ops(m: &mut HeaderMap, ops: &Vec<HeaderOp>)
    ensures
        final(m)@ == spec_apply_ops(old(m)@, ops@),
        old(m).wf() ==> final(m).wf(),
{
    let n = ops.len();
    let mut i: usize = 0;
    while i < n
        invariant
            i <= n,
            n == ops@.len(),
            m@ == spec_apply_ops(old(m)@, ops@.subrange(0, i as int)),
            old(m).wf() ==> m.wf(),
        decreases n - i,
    {
        apply_header_op(m, &ops[i]);
        proof {
            assert(ops@.subrange(0, (i + 1) as int).drop_last() =~= ops@.subrange(0, i as int));
        }
        i = i + 1;
    }
    proof {
        assert(ops@.subrange(0, n as int) =~= ops@);
    }
}

/// The entries after a sequence of operations.
pub open spec fn spec_apply_ops(s: Seq<(Seq<char>, Seq<String>)>, ops: Seq<HeaderOp>)
    -> Seq<(Seq<char>, Seq<String>)>
    decreases ops.len(),
{
    if ops.len() == 0 {
        s
    } else {
        spec_apply_op(spec_apply_ops(s, ops.drop_last()), ops.last())
    }
}

/// `Set` is idempotent: setting the same name and value twice leaves
/// exactly what one `Set` leaves.
pub proof fn lemma_set_idempotent(
    s: Seq<(Seq<char>, Seq<String>)>,
    name: Seq<char>,
    values: Seq<String>,
)
    ensures
        spec_set(spec_set(s, name, values), name, values) == spec_set(s, name, values),
{
    lemma_key_idx(s, name);
    let s1 = spec_set(s, name, values);
    lemma_key_idx(s1, name);
    let i = spec_key_idx(s, name);
    let i1 = spec_key_idx(s1, name);
    if i >= 0 {
        assert(s1[i].0 == name);
        assert(forall|k: int| 0 <= k < i ==> s1[k].0 != name);
        assert(i1 == i);
        assert(spec_set(s1, name, values) =~= s1);
    } else {
        assert(s1[s.len() as int].0 == name);
        assert(forall|k: int| 0 <= k < s.len() ==> s1[k].0 != name);
        assert(i1 == s.len());
        assert(spec_set(s1, name, values) =~= s1);
    }
}

/// `Add` is additive and order-preserving: the named entry gains the
/// value at the end, and every other entry is unchanged.
pub proof fn lemma_add_appends(
    s: Seq<(Seq<char>, Seq<String>)>,
    name: Seq<char>,
    value: String,
)
    ensures
        spec_get(spec_add(s, name, value), name) == Some(match spec_get(s, name) {
            Some(vs) => vs.push(value),
            None => seq![value],
        }),
        forall|other: Seq<char>| other != name
            ==> spec_get(spec_add(s, name, value), other) == spec_get(s, other),
{
    lemma_key_idx(s, name);
    let s1 = spec_add(s, name, value);
    let i = spec_key_idx(s, name);
    if i >= 0 {
        lemma_key_idx_unique(s1, name, i);
    } else {
        lemma_key_idx_unique(s1, name, s.len() as int);
    }
    assert forall|other: Seq<char>| other != name implies
        spec_get(s1, other) == spec_get(s, other) by {
        lemma_key_idx(s, other);
        let j = spec_key_idx(s, other);
        if j >= 0 {
            assert(s1[j].0 == other && s1[j].1 == s[j].1);
            assert(forall|k: int| 0 <= k < j ==> s1[k].0 != other);
            lemma_key_idx_unique(s1, other, j);
        } else {
            assert(forall|k: int| 0 <= k < s1.len() ==> s1[k].0 != other);
            lemma_key_idx_absent(s1, other);
        }
    }
}

/// Removing one name leaves every other name's values unchanged.
pub proof fn lemma_remove_preserves_other(
    s: Seq<(Seq<char>, Seq<String>)>,
    name: Seq<char>,
    other: Seq<char>,
)
    requires
        other != name,
    ensures
        spec_get(spec_remove(s, name), other) == spec_get(s, other),
{
    lemma_key_idx(s, name);
    let i = spec_key_idx(s, name);
    if i >= 0 {
        let s1 = s.remove(i);
        lemma_key_idx(s, other);
        let j = spec_key_idx(s, other);
        if j >= 0 {
            if j < i {
                assert(s1[j] == s[j]);
                assert forall|k: int| 0 <= k < j implies s1[k].0 != other by {
                    assert(s1[k] == s[k]);
                }
                lemma_key_idx_unique(s1, other, j);
            } else {
                assert(s[j].0 == other && s[i].0 == name);
                assert(j != i);
                assert(s1[j - 1] == s[j]);
                assert forall|k: int| 0 <= k < j - 1 implies s1[k].0 != other by {
                    if k < i {
                        assert(s1[k] == s[k]);
                    } else {
                        assert(s1[k] == s[k + 1]);
                    }
                }
                lemma_key_idx_unique(s1, other, j - 1);
            }
        } else {
            assert forall|k: int| 0 <= k < s1.len() implies s1[k].0 != other by {
                if k < i {
                    assert(s1[k] == s[k]);
                } else {
                    assert(s1[k] == s[k + 1]);
                }
            }
            lemma_key_idx_absent(s1, other);
        }
    }
}

/// `Remove` after `Remove` is a no-op on a well-formed map.
pub proof fn lemma_remove_remove(s: Seq<(Seq<char>, Seq<String>)>, name: Seq<char>)
    requires
        wf_entries(s),
    ensures
        spec_remove(spec_remove(s, name), name) == spec_remove(s, name),
{
    lemma_key_idx(s, name);
    let i = spec_key_idx(s, name);
    if i >= 0 {
        let s1 = spec_remove(s, name);
        lemma_key_idx(s1, name);
        let i1 = spec_key_idx(s1, name);
        if i1 >= 0 {
            if i1 < i {
                assert(s1[i1] == s[i1]);
                assert(s[i1].0 != name);
                assert(false);
            } else {
                assert(s1[i1] == s[i1 + 1]);
                assert(s[i1 + 1].0 == name && s[i].0 == name && i < i1 + 1);
                assert(false);
            }
        }
    }
}

} // verus!
