//! The partial-source map: reusable template fragments keyed by their
//! path relative to the includes root, with `/` as separator
//! irrespective of host path conventions.  The map is built once,
//! before any template referencing includes is parsed, and key
//! collisions resolve last-write-wins, silently.

use vstd::prelude::*;

verus! {

/// The recorded (key, text) pairs, in insertion order.
pub open spec fn entries_of(items: Seq<(String, String)>) -> Seq<(Seq<char>, Seq<char>)> {
    items.map_values(|p: (String, String)| (p.0@, p.1@))
}

/// The text recorded for `name`: the value of the latest insertion
/// under that key, absent if the key was never inserted.
pub open spec fn lookup(es: Seq<(Seq<char>, Seq<char>)>, name: Seq<char>) -> Option<Seq<char>>
    decreases es.len(),
{
    if es.len() == 0 {
        None
    } else if es.last().0 == name {
        Some(es.last().1)
    } else {
        lookup(es.drop_last(), name)
    }
}

/// `path` with every backslash turned into a forward slash.
pub open spec fn normalized(path: Seq<char>) -> Seq<char> {
    path.map_values(|c: char| if c == '\\' { '/' } else { c })
}

/// Turn a host-convention relative path into a partial key.
pub fn normalize_key(path: &str) -> (r: String)
    ensures
        r@ == normalized(path@),
{
    let n = path.unicode_len();
    let mut s = String::new();
    let mut i: usize = 0;
    while i < n
        invariant
            i <= n,
            n == path@.len(),
            s@ == normalized(path@).take(i as int),
        decreases n - i,
    {
        let c = path.get_char(i);
        let d: char = if c == '\\' {
            '/'
        } else {
            c
        };
        crate::slug::push_char(&mut s, d);
        proof {
            assert(normalized(path@).take(i + 1 as int) =~= normalized(path@).take(i as int).push(
                normalized(path@)[i as int],
            ));
        }
        i += 1;
    }
    proof {
        assert(normalized(path@).take(n as int) =~= normalized(path@));
    }
    s
}

/// The in-memory source of template partials.
pub struct PartialSource {
    items: Vec<(String, String)>,
}

impl PartialSource {
    /// The recorded pairs, in insertion order.
    pub closed spec fn entries(&self) -> Seq<(Seq<char>, Seq<char>)> {
        entries_of(self.items@)
    }

    pub fn new() -> (r: Self)
        ensures
            r.entries() == Seq::<(Seq<char>, Seq<char>)>::empty(),
    {
        let r = PartialSource { items: Vec::new() };
        proof {
            assert(r.entries() =~= Seq::<(Seq<char>, Seq<char>)>::empty());
        }
        r
    }

    /// Record a partial under its key.  An existing text under the
    /// same key is silently superseded.
    pub fn add(&mut self, name: String, content: String)
        ensures
            final(self).entries() == old(self).entries().push((name@, content@)),
    {
        let ghost before = self.entries();
        let ghost nv = name@;
        let ghost cv = content@;
        self.items.push((name, content));
        proof {
            assert(self.entries() =~= before.push((nv, cv)));
        }
    }

    /// The text recorded for `name`, after all overwrites.
    pub fn get(&self, name: &String) -> (r: Option<&String>)
        ensures
            lookup(self.entries(), name@) is None ==> r is None,
            lookup(self.entries(), name@) matches Some(t) ==> (r matches Some(s) && s@ == t),
    {
        let n = self.items.len();
        let mut i: usize = n;
        proof {
            assert(self.items@.take(n as int) =~= self.items@);
        }
        while i > 0
            invariant
                i <= n,
                n == self.items.len(),
                lookup(self.entries(), name@) == lookup(
                    entries_of(self.items@.take(i as int)),
                    name@,
                ),
            decreases i,
        {
            i = i - 1;
            proof {
                let pre = entries_of(self.items@.take(i + 1 as int));
                assert(pre.drop_last() =~= entries_of(self.items@.take(i as int)));
                assert(pre.last() == (self.items@[i as int].0@, self.items@[i as int].1@));
            }
            if self.items[i].0 == *name {
                return Some(&self.items[i].1);
            }
        }
        proof {
            assert(entries_of(self.items@.take(0)) =~= Seq::<(Seq<char>, Seq<char>)>::empty());
        }
        None
    }

    /// How many insertions were recorded.
    pub fn count(&self) -> (r: usize)
        ensures
            r == self.entries().len(),
    {
        self.items.len()
    }

    /// The key and text of one recorded insertion.
    pub fn item(&self, i: usize) -> (r: &(String, String))
        requires
            i < self.entries().len(),
        ensures
            r.0@ == self.entries()[i as int].0,
            r.1@ == self.entries()[i as int].1,
    {
        &self.items[i]
    }
}

/// Last write wins: a later insertion under a key supersedes the
/// earlier text, and leaves every other key's text alone.
pub proof fn lemma_last_write_wins(
    es: Seq<(Seq<char>, Seq<char>)>,
    name: Seq<char>,
    content: Seq<char>,
    other: Seq<char>,
)
    ensures
        lookup(es.push((name, content)), name) == Some(content),
        other != name ==> lookup(es.push((name, content)), other) == lookup(es, other),
{
    let p = es.push((name, content));
    assert(p.drop_last() =~= es);
    assert(p.last() == (name, content));
}

} // verus!
