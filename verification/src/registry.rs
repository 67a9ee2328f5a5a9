use vstd::prelude::*;

verus! {

/// The mapping a sequence of `(name, selector)` bindings denotes: a later
/// binding for the same name overrides an earlier one.
pub open spec fn map_of(entries: Seq<(String, String)>) -> Map<Seq<char>, Seq<char>>
    decreases entries.len(),
{
    if entries.len() == 0 {
        Map::empty()
    } else {
        map_of(entries.drop_last()).insert(entries.last().0@, entries.last().1@)
    }
}

/// An immutable mapping from symbolic element names to selector strings,
/// fixed at construction; no entry can be added afterwards.
pub struct ElementRegistry {
    entries: Vec<(String, String)>,
}

impl View for ElementRegistry {
    type V = Map<Seq<char>, Seq<char>>;

    closed spec fn view(&self) -> Map<Seq<char>, Seq<char>> {
        map_of(self.entries@)
    }
}

impl ElementRegistry {
    /// Build the registry from its bindings; for a name bound more than
    /// once, the last binding wins.
    pub fn new(entries: Vec<(String, String)>) -> (r: ElementRegistry)
        ensures
            r@ == map_of(entries@),
    {
        ElementRegistry { entries }
    }

    /// An empty registry.
    pub fn empty() -> (r: ElementRegistry)
        ensures
            r@ == Map::<Seq<char>, Seq<char>>::empty(),
    {
        ElementRegistry { entries: Vec::new() }
    }

    /// Look a name up: the bound selector, or `None` for an unregistered
    /// name. A pure local access, never retried.
    pub fn lookup(&self, name: &str) -> (r: Option<String>)
        ensures
            match r {
                Some(s) => self@.contains_key(name@) && s@ == self@[name@],
                None => !self@.contains_key(name@),
            },
    {
        let needle: String = name.to_owned();
        let mut i: usize = self.entries.len();
        assert(self.entries@.take(i as int) =~= self.entries@);
        while i > 0
            invariant
                i <= self.entries@.len(),
                needle@ == name@,
                self@.contains_key(name@) == map_of(self.entries@.take(i as int)).contains_key(
                    name@,
                ),
                self@.contains_key(name@) ==> self@[name@] == map_of(
                    self.entries@.take(i as int),
                )[name@],
            decreases i,
        {
            i = i - 1;
            let entry = &self.entries[i];
            proof {
                assert(self.entries@.take(i as int + 1).last() == self.entries@[i as int]);
                assert(self.entries@.take(i as int + 1).drop_last() =~= self.entries@.take(
                    i as int,
                ));
            }
            if entry.0 == needle {
                return Some(entry.1.clone());
            }
        }
        assert(self.entries@.take(0) =~= Seq::<(String, String)>::empty());
        None
    }

    /// Whether a name is registered.
    pub fn contains(&self, name: &str) -> (r: bool)
        ensures
            r == self@.contains_key(name@),
    {
        match self.lookup(name) {
            Some(_) => true,
            None => false,
        }
    }
}

} // verus!
