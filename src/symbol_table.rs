//! Label names and the addresses that they stand for.
use vstd::prelude::*;

verus! {

/// A map from label name to address; adding a name that is present replaces
/// its address.
pub struct SymbolTable {
    names: Vec<String>,
    addresses: Vec<u32>,
    contents: Ghost<Map<Seq<char>, u32>>,
}

impl View for SymbolTable {
    type V = Map<Seq<char>, u32>;

    closed spec fn view(&self) -> Map<Seq<char>, u32> {
        self.contents@
    }
}

impl SymbolTable {
    /// The two vectors hold each name once, its address beside it, and
    /// exactly the entries of the view.
    pub closed spec fn wf(&self) -> bool {
        &&& self.names@.len() == self.addresses@.len()
        &&& forall|i: int, j: int|
            0 <= i < j < self.names@.len() ==> #[trigger] self.names@[i]@ != #[trigger] self.names@[j]@
        &&& forall|i: int|
            0 <= i < self.names@.len() ==> self.contents@.contains_key(#[trigger] self.names@[i]@)
                && self.contents@[self.names@[i]@] == self.addresses@[i]
        &&& forall|k: Seq<char>|
            #[trigger] self.contents@.contains_key(k) ==> exists|i: int|
                0 <= i < self.names@.len() && #[trigger] self.names@[i]@ == k
    }

    pub fn new() -> (r: Self)
        ensures
            r.wf(),
            r@ == Map::<Seq<char>, u32>::empty(),
    {
        SymbolTable { names: Vec::new(), addresses: Vec::new(), contents: Ghost(Map::empty()) }
    }

    /// Where `label_name` stands in `names`, if it does.
    fn find(&self, label_name: &str) -> (r: Option<usize>)
        requires
            self.wf(),
        ensures
            match r {
                Some(i) => i < self.names@.len() && self.names@[i as int]@ == label_name@,
                None => !self@.contains_key(label_name@),
            },
    {
        let key = label_name.to_owned();
        let mut i: usize = 0;
        while i < self.names.len()
            invariant
                self.wf(),
                key@ == label_name@,
                i <= self.names@.len(),
                forall|j: int| 0 <= j < i ==> self.names@[j]@ != key@,
            decreases self.names@.len() - i,
        {
            if self.names[i] == key {
                return Some(i);
            }
            i = i + 1;
        }
        None
    }

    pub fn add_or_update_label(&mut self, label_name: &str, address: u32)
        requires
            old(self).wf(),
        ensures
            final(self).wf(),
            final(self)@ == old(self)@.insert(label_name@, address),
    {
        let ghost old_names = self.names@;
        let found = self.find(label_name);
        match found {
            Some(i) => {
                self.addresses.set(i, address);
            },
            None => {
                self.names.push(label_name.to_owned());
                self.addresses.push(address);
            },
        }
        self.contents = Ghost(self.contents@.insert(label_name@, address));
        proof {
            let pos: int = match found {
                Some(i) => i as int,
                None => old_names.len() as int,
            };
            assert(self.names@[pos]@ == label_name@);
            assert forall|k: Seq<char>| #[trigger] self.contents@.contains_key(k) implies exists|i: int|
                0 <= i < self.names@.len() && #[trigger] self.names@[i]@ == k by {
                if k != label_name@ {
                    let i = choose|i: int| 0 <= i < old_names.len() && #[trigger] old_names[i]@ == k;
                    assert(self.names@[i]@ == k);
                } else {
                    assert(self.names@[pos]@ == k);
                }
            }
        }
    }

    pub fn address_for(&self, label_name: &str) -> (r: u32)
        requires
            self.wf(),
        ensures
            r == (if self@.contains_key(label_name@) { self@[label_name@] } else { 0 }),
    {
        match self.find(label_name) {
            Some(i) => self.addresses[i],
            None => 0,
        }
    }

    pub fn has_label(&self, label_name: &str) -> (r: bool)
        requires
            self.wf(),
        ensures
            r == self@.contains_key(label_name@),
    {
        self.find(label_name).is_some()
    }
}

} // verus!
