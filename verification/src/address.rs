use vstd::prelude::*;

verus! {

/// The identity of an account, an asset or an owner: 32 bytes.
///
/// The ledger only ever asks two things of an identity: whether it is the
/// same as another, and whether it comes before another in byte order.
#[derive(Clone, Copy, Debug, PartialEq, Eq, PartialOrd, Ord, Hash)]
pub struct Address {
    pub bytes: [u8; 32],
}

impl View for Address {
    type V = Seq<u8>;

    open spec fn view(&self) -> Seq<u8> {
        self.bytes@
    }
}

/// `a` comes strictly before `b` when, at the first place where they differ,
/// the byte of `a` is the smaller one.
pub open spec fn byte_order_less(a: Seq<u8>, b: Seq<u8>) -> bool {
    exists|k: int|
        0 <= k < a.len() && k < b.len() && a[k] < b[k] && (forall|j: int|
            0 <= j < k ==> a[j] == b[j])
}

impl Address {
    /// The identity made of the given bytes.
    pub fn new(bytes: [u8; 32]) -> (a: Address)
        ensures
            a@ == bytes@,
            a.bytes == bytes,
    {
        Address { bytes }
    }

    /// The identity whose bytes are all zero; it stands for "none".
    pub fn zero() -> (a: Address)
        ensures
            a@ == Seq::new(32, |i: int| 0u8),
    {
        let a = Address { bytes: [0u8; 32] };
        assert(a@ =~= Seq::new(32, |i: int| 0u8));
        a
    }

    /// The bytes of the identity.
    pub fn to_bytes(&self) -> (b: [u8; 32])
        ensures
            b@ == self@,
    {
        self.bytes
    }

    /// Whether two identities are the same, byte for byte.
    pub fn same(&self, other: &Address) -> (r: bool)
        ensures
            r == (self@ == other@),
            r == (*self == *other),
    {
        let mut i: usize = 0;
        while i < 32
            invariant
                i <= 32,
                forall|j: int| 0 <= j < i ==> self.bytes[j] == other.bytes[j],
            decreases 32 - i,
        {
            if self.bytes[i] != other.bytes[i] {
                return false;
            }
            i += 1;
        }
        assert(self.bytes@ =~= other.bytes@);
        assert(self.bytes == other.bytes);
        true
    }

    /// Whether this identity comes strictly before the other in byte order.
    pub fn precedes(&self, other: &Address) -> (r: bool)
        ensures
            r == byte_order_less(self@, other@),
    {
        let mut i: usize = 0;
        while i < 32
            invariant
                i <= 32,
                forall|j: int| 0 <= j < i ==> self.bytes[j] == other.bytes[j],
            decreases 32 - i,
        {
            if self.bytes[i] < other.bytes[i] {
                assert(byte_order_less(self@, other@)) by {
                    let k = i as int;
                    assert(0 <= k < self@.len() && k < other@.len() && self@[k] < other@[k]);
                }
                return true;
            }
            if self.bytes[i] > other.bytes[i] {
                assert(!byte_order_less(self@, other@)) by {
                    if byte_order_less(self@, other@) {
                        let k = choose|k: int|
                            0 <= k < self@.len() && k < other@.len() && self@[k] < other@[k] && (
                            forall|j: int| 0 <= j < k ==> self@[j] == other@[j]);
                        if k < i {
                            assert(self.bytes[k] == other.bytes[k]);
                        } else if k > i {
                            assert(self@[i as int] == other@[i as int]);
                        }
                    }
                }
                return false;
            }
            i += 1;
        }
        assert(!byte_order_less(self@, other@)) by {
            if byte_order_less(self@, other@) {
                let k = choose|k: int|
                    0 <= k < self@.len() && k < other@.len() && self@[k] < other@[k] && (forall|
                        j: int,
                    | 0 <= j < k ==> self@[j] == other@[j]);
                assert(self.bytes[k] == other.bytes[k]);
            }
        }
        false
    }
}

/// Byte order never puts an identity before itself, and never puts two
/// identities each before the other.
pub proof fn lemma_byte_order_strict(a: Address, b: Address)
    ensures
        !byte_order_less(a@, a@),
        !(byte_order_less(a@, b@) && byte_order_less(b@, a@)),
        a@ != b@ ==> (byte_order_less(a@, b@) || byte_order_less(b@, a@)),
{
    if byte_order_less(a@, b@) && byte_order_less(b@, a@) {
        let k = choose|k: int|
            0 <= k < a@.len() && k < b@.len() && a@[k] < b@[k] && (forall|j: int|
                0 <= j < k ==> a@[j] == b@[j]);
        let m = choose|m: int|
            0 <= m < b@.len() && m < a@.len() && b@[m] < a@[m] && (forall|j: int|
                0 <= j < m ==> b@[j] == a@[j]);
        if k < m {
            assert(b@[k] == a@[k]);
        } else if m < k {
            assert(a@[m] == b@[m]);
        }
    }
    if a@ != b@ {
        lemma_first_difference(a@, b@, 0);
    }
}

/// Two sequences of one length that agree before `from` and are not equal
/// differ somewhere at or after it, and the first such place orders them.
proof fn lemma_first_difference(a: Seq<u8>, b: Seq<u8>, from: int)
    requires
        a.len() == b.len(),
        0 <= from <= a.len(),
        forall|j: int| 0 <= j < from ==> a[j] == b[j],
        a != b,
    ensures
        byte_order_less(a, b) || byte_order_less(b, a),
    decreases a.len() - from,
{
    if from == a.len() {
        assert(a =~= b);
    } else if a[from] < b[from] {
        assert(0 <= from < a.len() && from < b.len() && a[from] < b[from]);
    } else if b[from] < a[from] {
        assert(0 <= from < b.len() && from < a.len() && b[from] < a[from]);
    } else {
        lemma_first_difference(a, b, from + 1);
    }
}

} // verus!
