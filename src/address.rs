use vstd::prelude::*;

verus! {

/// An account address, held as the bytes of its textual form.
pub struct Address {
    pub bytes: Vec<u8>,
}

impl View for Address {
    type V = Seq<u8>;

    open spec fn view(&self) -> Seq<u8> {
        self.bytes@
    }
}

impl Address {
    pub fn new(bytes: Vec<u8>) -> (r: Address)
        ensures
            r@ == bytes@,
    {
        Address { bytes }
    }

    /// A second address with the same bytes.
    pub fn duplicate(&self) -> (r: Address)
        ensures
            r@ == self@,
    {
        let bytes = self.bytes.clone();
        assert(bytes@ =~= self.bytes@);
        Address { bytes }
    }

    /// Whether the two addresses are the same.
    pub fn same_as(&self, other: &Address) -> (r: bool)
        ensures
            r == (self@ == other@),
    {
        let n = self.bytes.len();
        if n != other.bytes.len() {
            return false;
        }
        let mut i: usize = 0;
        while i < n
            invariant
                n == self@.len(),
                n == other@.len(),
                i <= n,
                forall|j: int| 0 <= j < i ==> self@[j] == other@[j],
            decreases n - i,
        {
            if self.bytes[i] != other.bytes[i] {
                return false;
            }
            i = i + 1;
        }
        assert(self@ =~= other@);
        true
    }
}

/// Whether `i` is the first position in `pool` that holds `a`.
pub open spec fn is_first_index(pool: Seq<Seq<u8>>, a: Seq<u8>, i: int) -> bool {
    &&& 0 <= i < pool.len()
    &&& pool[i] == a
    &&& forall|j: int| 0 <= j < i ==> pool[j] != a
}

/// The first position in `pool` that holds `a`, if any.
pub open spec fn index_of(pool: Seq<Seq<u8>>, a: Seq<u8>) -> Option<int> {
    if exists|i: int| is_first_index(pool, a, i) {
        Some(choose|i: int| is_first_index(pool, a, i))
    } else {
        None
    }
}

/// At most one position is the first to hold an address.
pub proof fn lemma_first_index_unique(pool: Seq<Seq<u8>>, a: Seq<u8>, i: int, k: int)
    requires
        is_first_index(pool, a, i),
        is_first_index(pool, a, k),
    ensures
        i == k,
{
    if i < k {
        assert(pool[i] != a);
    } else if k < i {
        assert(pool[k] != a);
    }
}

/// The fixed set of funded accounts, in provisioning order.
pub struct AccountPool {
    pub addresses: Vec<Address>,
}

impl View for AccountPool {
    type V = Seq<Seq<u8>>;

    open spec fn view(&self) -> Seq<Seq<u8>> {
        self.addresses@.map_values(|a: Address| a@)
    }
}

impl AccountPool {
    pub fn new(addresses: Vec<Address>) -> (r: AccountPool)
        ensures
            r@ == addresses@.map_values(|a: Address| a@),
    {
        AccountPool { addresses }
    }

    pub fn len(&self) -> (r: usize)
        ensures
            r == self@.len(),
    {
        self.addresses.len()
    }

    /// Position of the first account whose address is `a`.
    pub fn position(&self, a: &Address) -> (r: Option<usize>)
        ensures
            r matches Some(i) ==> index_of(self@, a@) == Some(i as int),
            r is None ==> index_of(self@, a@) is None,
    {
        let n = self.addresses.len();
        let mut i: usize = 0;
        while i < n
            invariant
                n == self@.len(),
                i <= n,
                forall|j: int| 0 <= j < i ==> self@[j] != a@,
            decreases n - i,
        {
            if self.addresses[i].same_as(a) {
                assert(is_first_index(self@, a@, i as int));
                proof {
                    let k = choose|k: int| is_first_index(self@, a@, k);
                    lemma_first_index_unique(self@, a@, i as int, k);
                }
                return Some(i);
            }
            i = i + 1;
        }
        assert(!exists|k: int| is_first_index(self@, a@, k));
        None
    }
}

} // verus!
