//! The program cache: at most one built program per element type, built on
//! the first request for that type and handed out on every later one.
use vstd::prelude::*;

verus! {

/// The entries `s` as a map from type tag to program.
pub open spec fn entries_map<H>(s: Seq<(u8, H)>) -> Map<u8, H>
    decreases s.len(),
{
    if s.len() == 0 {
        Map::empty()
    } else {
        entries_map(s.drop_last()).insert(s.last().0, s.last().1)
    }
}

/// No two entries of `s` share a tag.
pub open spec fn tags_unique<H>(s: Seq<(u8, H)>) -> bool {
    forall|i: int, j: int| 0 <= i < j < s.len() ==> s[i].0 != s[j].0
}

proof fn lemma_entries_map<H>(s: Seq<(u8, H)>, tag: u8)
    requires
        tags_unique(s),
    ensures
        entries_map(s).contains_key(tag) <==> exists|i: int| 0 <= i < s.len() && s[i].0 == tag,
        forall|i: int| 0 <= i < s.len() && s[i].0 == tag ==> entries_map(s)[tag] == s[i].1,
    decreases s.len(),
{
    if s.len() > 0 {
        let p = s.drop_last();
        lemma_entries_map(p, tag);
        if entries_map(s).contains_key(tag) && s.last().0 != tag {
            let i = choose|i: int| 0 <= i < p.len() && p[i].0 == tag;
            assert(s[i].0 == tag);
        }
        if exists|i: int| 0 <= i < s.len() && s[i].0 == tag {
            let i = choose|i: int| 0 <= i < s.len() && s[i].0 == tag;
            if i < p.len() {
                assert(p[i].0 == tag);
            }
        }
    }
}

/// Built programs of type `H`, one for each type tag that was requested.
pub struct ProgramCache<H> {
    entries: Vec<(u8, H)>,
}

impl<H> View for ProgramCache<H> {
    type V = Map<u8, H>;

    closed spec fn view(&self) -> Map<u8, H> {
        entries_map(self.entries@)
    }
}

impl<H> ProgramCache<H> {
    /// The tags of the entries are distinct.
    pub closed spec fn wf(&self) -> bool {
        tags_unique(self.entries@)
    }

    /// A cache with no program.
    pub fn new() -> (r: ProgramCache<H>)
        ensures
            r.wf(),
            r@ == Map::<u8, H>::empty(),
    {
        ProgramCache { entries: Vec::new() }
    }

    /// The program built for `tag`, if there is one.
    pub fn lookup(&self, tag: u8) -> (r: Option<&H>)
        requires
            self.wf(),
        ensures
            r is Some <==> self@.contains_key(tag),
            r matches Some(h) ==> *h == self@[tag],
    {
        let mut i: usize = 0;
        while i < self.entries.len()
            invariant
                tags_unique(self.entries@),
                i <= self.entries.len(),
                forall|j: int| 0 <= j < i ==> self.entries[j].0 != tag,
            decreases self.entries.len() - i,
        {
            if self.entries[i].0 == tag {
                proof {
                    lemma_entries_map(self.entries@, tag);
                }
                return Some(&self.entries[i].1);
            }
            i = i + 1;
        }
        proof {
            lemma_entries_map(self.entries@, tag);
        }
        None
    }

    /// Records `program` as the one built for `tag`, which has none yet:
    /// a program is built once per tag.
    pub fn insert(&mut self, tag: u8, program: H)
        requires
            old(self).wf(),
            !old(self)@.contains_key(tag),
        ensures
            final(self).wf(),
            final(self)@ == old(self)@.insert(tag, program),
    {
        proof {
            lemma_entries_map(self.entries@, tag);
        }
        let ghost before = self.entries@;
        self.entries.push((tag, program));
        proof {
            assert(self.entries@.drop_last() =~= before);
        }
    }
}

} // verus!
