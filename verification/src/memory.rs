//! Locating values in the game client's memory: finding the game module and
//! following a chain of pointers.
use vstd::prelude::*;

verus! {

/// Index of the first zero byte of `raw` from `from` on, or its length.
pub open spec fn first_nul(raw: Seq<u8>, from: int) -> int
    decreases raw.len() - from,
{
    if from >= raw.len() || raw[from] == 0 {
        from
    } else {
        first_nul(raw, from + 1)
    }
}

/// The name stored in a module entry: the bytes before the first NUL, each
/// read as the character of the same number.
pub open spec fn module_name_spec(raw: Seq<u8>) -> Seq<char> {
    raw.take(first_nul(raw, 0)).map_values(|b: u8| b as char)
}

proof fn lemma_first_nul(raw: Seq<u8>, from: int)
    requires
        0 <= from <= raw.len(),
    ensures
        from <= first_nul(raw, from) <= raw.len(),
        forall|j: int| from <= j < first_nul(raw, from) ==> raw[j] != 0,
        first_nul(raw, from) < raw.len() ==> raw[first_nul(raw, from)] == 0,
    decreases raw.len() - from,
{
    if from < raw.len() && raw[from] != 0 {
        lemma_first_nul(raw, from + 1);
    }
}

/// Whether the module entry's name field holds `name`: the module that the
/// bots look for among the modules of the game process.
pub fn module_name_matches(raw: &[u8], name: &str) -> (matches: bool)
    ensures
        matches == (module_name_spec(raw@) == name@),
{
    let n = name.unicode_len();
    let mut i: usize = 0;
    proof {
        lemma_first_nul(raw@, 0);
    }
    let ghost stop = first_nul(raw@, 0);
    while i < raw.len() && raw[i] != 0
        invariant
            i <= raw@.len(),
            n == name@.len(),
            stop == first_nul(raw@, 0),
            stop <= raw@.len(),
            forall|j: int| 0 <= j < i ==> raw@[j] != 0,
            forall|j: int| 0 <= j < stop ==> raw@[j] != 0,
            stop < raw@.len() ==> raw@[stop] == 0,
            i <= stop,
            i <= n,
            forall|j: int| 0 <= j < i ==> (raw@[j] as char) == name@[j],
        decreases raw@.len() - i,
    {
        assert(i < stop);
        if i >= n || (raw[i] as char) != name.get_char(i) {
            proof {
                let m = module_name_spec(raw@);
                assert(m.len() == stop);
                if i < n {
                    assert(raw@.take(stop)[i as int] == raw@[i as int]);
                    assert(m[i as int] == raw@[i as int] as char);
                } else {
                    assert(m.len() > n);
                }
            }
            return false;
        }
        i = i + 1;
    }
    assert(i == stop);
    if i == n {
        assert(module_name_spec(raw@) =~= name@);
        true
    } else {
        assert(module_name_spec(raw@).len() != name@.len());
        false
    }
}

/// What the next memory access of a pointer chain is.
#[derive(PartialEq, Eq, Structural, Clone, Copy, Debug)]
pub enum ChainAccess {
    /// Read the pointer stored at this address and hand it to `step`.
    ReadPointer(u64),
    /// The chain ends: the value itself lives at this address.
    Value(u64),
}

/// Walks a pointer chain: from the address of the first pointer, each pointer
/// read plus the next offset gives the address of the next pointer; the last
/// offset added to the last pointer gives the address of the value.
pub struct PointerChain {
    offsets: Vec<u64>,
    next: usize,
}

impl PointerChain {
    /// The offsets of the chain.
    pub closed spec fn offsets_spec(&self) -> Seq<u64> {
        self.offsets@
    }

    /// How many pointers have been read after the first one.
    pub closed spec fn next_spec(&self) -> int {
        self.next as int
    }

    /// The chain is in progress: there is an offset still to be added.
    pub open spec fn well_formed(&self) -> bool {
        0 <= self.next_spec() < self.offsets_spec().len()
    }

    /// Starts a chain at `base`, the address of the first pointer. A chain
    /// needs at least one offset.
    pub fn start(base: u64, offsets: Vec<u64>) -> (result: (PointerChain, ChainAccess))
        requires
            offsets@.len() >= 1,
        ensures
            result.0.offsets_spec() == offsets@,
            result.0.next_spec() == 0,
            result.0.well_formed(),
            result.1 == ChainAccess::ReadPointer(base),
    {
        (PointerChain { offsets, next: 0 }, ChainAccess::ReadPointer(base))
    }

    /// Takes the pointer just read and says where the chain goes next.
    pub fn step(&mut self, pointer: u64) -> (access: ChainAccess)
        requires
            old(self).well_formed(),
            pointer + old(self).offsets_spec()[old(self).next_spec()] <= u64::MAX,
        ensures
            final(self).offsets_spec() == old(self).offsets_spec(),
            old(self).next_spec() + 1 < old(self).offsets_spec().len() ==> {
                &&& access == ChainAccess::ReadPointer((pointer + old(self).offsets_spec()[old(self).next_spec()]) as u64)
                &&& final(self).next_spec() == old(self).next_spec() + 1
                &&& final(self).well_formed()
            },
            old(self).next_spec() + 1 == old(self).offsets_spec().len() ==> {
                &&& access == ChainAccess::Value((pointer + old(self).offsets_spec()[old(self).next_spec()]) as u64)
                &&& final(self).next_spec() == old(self).next_spec()
            },
    {
        let address = pointer + self.offsets[self.next];
        if self.next < self.offsets.len() - 1 {
            self.next = self.next + 1;
            ChainAccess::ReadPointer(address)
        } else {
            ChainAccess::Value(address)
        }
    }

    /// The offset that the next `step` adds.
    pub fn pending_offset(&self) -> (offset: u64)
        requires
            self.well_formed(),
        ensures
            offset == self.offsets_spec()[self.next_spec()],
    {
        self.offsets[self.next]
    }
}

} // verus!
