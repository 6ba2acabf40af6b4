use vstd::prelude::*;

verus! {

/// The mapping that a sequence of (prompt, command) pairs denotes;
/// a later pair with the same prompt overwrites an earlier one.
pub open spec fn map_of(s: Seq<(String, String)>) -> Map<Seq<char>, Seq<char>>
    decreases s.len(),
{
    if s.len() == 0 {
        Map::empty()
    } else {
        map_of(s.drop_last()).insert(s.last().0@, s.last().1@)
    }
}

/// No two pairs share a prompt.
pub open spec fn distinct_keys(s: Seq<(String, String)>) -> bool {
    forall|i: int, j: int| 0 <= i < j < s.len() ==> s[i].0@ != s[j].0@
}

pub proof fn lemma_map_of_contains(s: Seq<(String, String)>, k: Seq<char>)
    ensures
        map_of(s).contains_key(k) <==> (exists|i: int| 0 <= i < s.len() && s[i].0@ == k),
    decreases s.len(),
{
    if s.len() > 0 {
        let dl = s.drop_last();
        lemma_map_of_contains(dl, k);
        if s.last().0@ == k {
            assert(s[s.len() - 1].0@ == k);
        } else {
            if map_of(s).contains_key(k) {
                let i = choose|i: int| 0 <= i < dl.len() && dl[i].0@ == k;
                assert(s[i].0@ == k);
            }
            if exists|i: int| 0 <= i < s.len() && s[i].0@ == k {
                let i = choose|i: int| 0 <= i < s.len() && s[i].0@ == k;
                assert(dl[i].0@ == k);
            }
        }
    }
}

pub proof fn lemma_map_of_index(s: Seq<(String, String)>, i: int)
    requires
        distinct_keys(s),
        0 <= i < s.len(),
    ensures
        map_of(s).contains_key(s[i].0@),
        map_of(s)[s[i].0@] == s[i].1@,
    decreases s.len(),
{
    let dl = s.drop_last();
    if i < s.len() - 1 {
        assert forall|a: int, b: int| 0 <= a < b < dl.len() implies dl[a].0@ != dl[b].0@ by {
            assert(dl[a] == s[a]);
            assert(dl[b] == s[b]);
        }
        lemma_map_of_index(dl, i);
        assert(s[i].0@ != s.last().0@);
    }
}

proof fn lemma_distinct_drop_last(s: Seq<(String, String)>)
    requires
        distinct_keys(s),
        s.len() > 0,
    ensures
        distinct_keys(s.drop_last()),
{
    let dl = s.drop_last();
    assert forall|a: int, b: int| 0 <= a < b < dl.len() implies dl[a].0@ != dl[b].0@ by {
        assert(dl[a] == s[a]);
        assert(dl[b] == s[b]);
    }
}

pub proof fn lemma_map_of_remove(s: Seq<(String, String)>, i: int)
    requires
        distinct_keys(s),
        0 <= i < s.len(),
    ensures
        map_of(s.remove(i)) == map_of(s).remove(s[i].0@),
        distinct_keys(s.remove(i)),
    decreases s.len(),
{
    let k = s[i].0@;
    let r = s.remove(i);
    assert forall|a: int, b: int| 0 <= a < b < r.len() implies r[a].0@ != r[b].0@ by {
        assert(r[a] == if a < i { s[a] } else { s[a + 1] });
        assert(r[b] == if b < i { s[b] } else { s[b + 1] });
    }
    let dl = s.drop_last();
    lemma_distinct_drop_last(s);
    if i == s.len() - 1 {
        assert(r =~= dl);
        lemma_map_of_contains(dl, k);
        assert(!map_of(dl).contains_key(k));
        assert(map_of(dl).insert(k, s.last().1@).remove(k) =~= map_of(dl));
    } else {
        assert(r.last() == s.last());
        assert(r.drop_last() =~= dl.remove(i));
        lemma_map_of_remove(dl, i);
        assert(dl[i] == s[i]);
        // the removed key differs from the last pair's key, so remove and
        // insert commute
        assert(s[i].0@ != s.last().0@);
        assert(map_of(dl).remove(k).insert(s.last().0@, s.last().1@) =~= map_of(dl).insert(
            s.last().0@,
            s.last().1@,
        ).remove(k));
    }
}

proof fn lemma_map_of_same_views(a: Seq<(String, String)>, b: Seq<(String, String)>)
    requires
        a.len() == b.len(),
        forall|i: int| 0 <= i < a.len() ==> a[i].0@ == b[i].0@ && a[i].1@ == b[i].1@,
    ensures
        map_of(a) == map_of(b),
        distinct_keys(b) ==> distinct_keys(a),
    decreases a.len(),
{
    if a.len() > 0 {
        lemma_map_of_same_views(a.drop_last(), b.drop_last());
        assert(a.last().0@ == b.last().0@ && a.last().1@ == b.last().1@);
    }
}

proof fn lemma_map_of_dom_len(s: Seq<(String, String)>)
    requires
        distinct_keys(s),
    ensures
        map_of(s).dom().finite(),
        map_of(s).dom().len() == s.len(),
    decreases s.len(),
{
    if s.len() > 0 {
        let dl = s.drop_last();
        lemma_distinct_drop_last(s);
        lemma_map_of_dom_len(dl);
        lemma_map_of_contains(dl, s.last().0@);
        assert(!map_of(dl).contains_key(s.last().0@));
        vstd::set::axiom_set_insert_len(map_of(dl).dom(), s.last().0@);
        assert(map_of(s).dom() =~= map_of(dl).dom().insert(s.last().0@));
    }
}

/// An in-memory mapping from prompt text to previously generated command
/// text. It is the image of the durable cache document: `from_pairs` builds
/// it from the pairs read at startup, `to_pairs` yields the pairs written
/// back after every mutation.
pub struct Cache {
    entries: Vec<(String, String)>,
}

impl View for Cache {
    type V = Map<Seq<char>, Seq<char>>;

    closed spec fn view(&self) -> Map<Seq<char>, Seq<char>> {
        map_of(self.entries@)
    }
}

impl Cache {
    /// Internal well-formedness: one entry per prompt.
    pub closed spec fn wf(&self) -> bool {
        distinct_keys(self.entries@)
    }

    /// The empty cache, used when no durable copy exists yet.
    pub fn new() -> (r: Cache)
        ensures
            r.wf(),
            r@ == Map::<Seq<char>, Seq<char>>::empty(),
    {
        Cache { entries: Vec::new() }
    }

    /// Exact-match lookup by prompt.
    pub fn get<'a>(&'a self, prompt: &String) -> (r: Option<&'a String>)
        requires
            self.wf(),
        ensures
            match r {
                Some(c) => self@.contains_key(prompt@) && c@ == self@[prompt@],
                None => !self@.contains_key(prompt@),
            },
    {
        let n = self.entries.len();
        for i in 0..n
            invariant
                n == self.entries.len(),
                self.wf(),
                forall|j: int| 0 <= j < i ==> self.entries@[j].0@ != prompt@,
        {
            if self.entries[i].0 == *prompt {
                proof {
                    lemma_map_of_index(self.entries@, i as int);
                }
                return Some(&self.entries[i].1);
            }
        }
        proof {
            lemma_map_of_contains(self.entries@, prompt@);
        }
        None
    }

    /// Deletes the entry for the prompt; a miss changes nothing.
    pub fn remove(&mut self, prompt: &String)
        requires
            old(self).wf(),
        ensures
            final(self).wf(),
            final(self)@ == old(self)@.remove(prompt@),
    {
        let n = self.entries.len();
        for i in 0..n
            invariant
                n == self.entries.len(),
                self.wf(),
                self.entries@ == old(self).entries@,
                forall|j: int| 0 <= j < i ==> self.entries@[j].0@ != prompt@,
        {
            if self.entries[i].0 == *prompt {
                proof {
                    lemma_map_of_remove(self.entries@, i as int);
                }
                self.entries.remove(i);
                return;
            }
        }
        proof {
            lemma_map_of_contains(self.entries@, prompt@);
            assert(old(self)@.remove(prompt@) =~= self@);
        }
    }

    /// Inserts or overwrites: afterwards the prompt maps to exactly this
    /// command and every other entry is untouched.
    pub fn insert(&mut self, prompt: String, command: String)
        requires
            old(self).wf(),
        ensures
            final(self).wf(),
            final(self)@ == old(self)@.insert(prompt@, command@),
    {
        self.remove(&prompt);
        proof {
            lemma_map_of_contains(self.entries@, prompt@);
        }
        let ghost pre = self.entries@;
        self.entries.push((prompt, command));
        proof {
            assert(self.entries@.drop_last() =~= pre);
            assert(old(self)@.remove(self.entries@.last().0@).insert(
                self.entries@.last().0@,
                self.entries@.last().1@,
            ) =~= old(self)@.insert(self.entries@.last().0@, self.entries@.last().1@));
        }
    }

    /// How many prompts the cache holds.
    pub fn entry_count(&self) -> (r: usize)
        requires
            self.wf(),
        ensures
            r == self@.dom().len(),
    {
        proof {
            lemma_map_of_dom_len(self.entries@);
        }
        self.entries.len()
    }

    /// The pairs to serialize into the durable document.
    pub fn to_pairs(&self) -> (r: Vec<(String, String)>)
        requires
            self.wf(),
        ensures
            map_of(r@) == self@,
            distinct_keys(r@),
    {
        let mut out: Vec<(String, String)> = Vec::new();
        let n = self.entries.len();
        for i in 0..n
            invariant
                n == self.entries.len(),
                out@.len() == i,
                forall|j: int| 0 <= j < i ==> out@[j].0@ == self.entries@[j].0@ && out@[j].1@
                    == self.entries@[j].1@,
        {
            let p = self.entries[i].0.clone();
            let c = self.entries[i].1.clone();
            out.push((p, c));
        }
        proof {
            lemma_map_of_same_views(out@, self.entries@);
        }
        out
    }

    /// Rebuilds the cache from the pairs read out of the durable document;
    /// if the document held a prompt twice, the later pair wins.
    pub fn from_pairs(pairs: &Vec<(String, String)>) -> (r: Cache)
        ensures
            r.wf(),
            r@ == map_of(pairs@),
    {
        let mut c = Cache::new();
        let n = pairs.len();
        for i in 0..n
            invariant
                n == pairs.len(),
                c.wf(),
                c@ == map_of(pairs@.take(i as int)),
        {
            let p = pairs[i].0.clone();
            let cmd = pairs[i].1.clone();
            c.insert(p, cmd);
            proof {
                assert(pairs@.take(i + 1).drop_last() =~= pairs@.take(i as int));
                assert(pairs@.take(i + 1).last() == pairs@[i as int]);
            }
        }
        proof {
            assert(pairs@.take(n as int) =~= pairs@);
        }
        c
    }
}

/// Persisting then reloading loses nothing: any pairs document whose
/// denotation is a cache into which (prompt, command) was just inserted
/// maps that prompt back to exactly that command when reloaded.
pub proof fn lemma_cache_round_trip(
    m: Map<Seq<char>, Seq<char>>,
    pairs: Seq<(String, String)>,
    p: Seq<char>,
    c: Seq<char>,
)
    requires
        map_of(pairs) == m.insert(p, c),
    ensures
        map_of(pairs).contains_key(p),
        map_of(pairs)[p] == c,
{
}

/// Writing a prompt twice leaves exactly the state of writing it once:
/// the second command wins and no duplicate entry can be observed.
pub proof fn lemma_insert_overwrite(
    m: Map<Seq<char>, Seq<char>>,
    p: Seq<char>,
    c1: Seq<char>,
    c2: Seq<char>,
)
    ensures
        m.insert(p, c1).insert(p, c2) == m.insert(p, c2),
{
    assert(m.insert(p, c1).insert(p, c2) =~= m.insert(p, c2));
}

} // verus!
