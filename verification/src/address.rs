use vstd::prelude::*;
use vstd::std_specs::cmp::PartialEqSpecImpl;
use crate::error::ErrorCode;

verus! {

/// The identity of a caller, an admin or a member: 32 bytes.
#[derive(Clone, Copy, Debug)]
pub struct Address {
    pub bytes: [u8; 32],
}

impl View for Address {
    type V = Seq<u8>;

    open spec fn view(&self) -> Seq<u8> {
        self.bytes@
    }
}

impl Address {
    /// Whether every byte of the address is zero.
    pub open spec fn all_zero(self) -> bool {
        forall|i: int| 0 <= i < 32 ==> self.bytes[i] == 0
    }

    /// Two addresses with the same bytes are the same address.
    pub proof fn lemma_same_bytes(self, other: Address)
        requires
            self@ == other@,
        ensures
            self == other,
    {
        assert forall|i: int| 0 <= i < 32 implies self.bytes[i] == other.bytes[i] by {
            assert(self@[i] == other@[i]);
        }
        assert(self.bytes =~= other.bytes);
    }

    /// The address made of the given bytes.
    pub fn new(bytes: [u8; 32]) -> (r: Address)
        ensures
            r.bytes == bytes,
    {
        Address { bytes }
    }

    /// The all-zero address, which names nobody.
    pub fn zero() -> (r: Address)
        ensures
            r.all_zero(),
    {
        Address { bytes: [0u8; 32] }
    }

    /// Tells whether this is the all-zero address.
    pub fn is_zero(&self) -> (r: bool)
        ensures
            r == self.all_zero(),
    {
        let mut i: usize = 0;
        while i < 32
            invariant
                0 <= i <= 32,
                forall|k: int| 0 <= k < i ==> self.bytes[k] == 0,
            decreases 32 - i,
        {
            if self.bytes[i] != 0 {
                return false;
            }
            i += 1;
        }
        true
    }
}

impl PartialEq for Address {
    fn eq(&self, other: &Address) -> (r: bool) {
        let mut i: usize = 0;
        while i < 32
            invariant
                0 <= i <= 32,
                forall|k: int| 0 <= k < i ==> self.bytes[k] == other.bytes[k],
            decreases 32 - i,
        {
            if self.bytes[i] != other.bytes[i] {
                return false;
            }
            i += 1;
        }
        proof {
            assert(self.bytes =~= other.bytes);
        }
        true
    }
}

impl Eq for Address {}

impl PartialEqSpecImpl for Address {
    open spec fn obeys_eq_spec() -> bool {
        true
    }

    open spec fn eq_spec(&self, other: &Address) -> bool {
        *self == *other
    }
}

/// Whether the address at `i` stands again further on in the list.
pub open spec fn repeats_later(list: Seq<Address>, i: int) -> bool {
    exists|j: int| i < j < list.len() && list[j] == list[i]
}

/// Whether the entry at `i` is acceptable: not the zero address, and not
/// repeated further on.
pub open spec fn sound_at(list: Seq<Address>, i: int) -> bool {
    !list[i].all_zero() && !repeats_later(list, i)
}

/// Whether each of the first `n` entries is acceptable.
pub open spec fn sound_before(list: Seq<Address>, n: int) -> bool {
    forall|k: int| 0 <= k < n ==> sound_at(list, k)
}

/// What the validation of a list of addresses answers. The entries are taken in
/// order, and the first one that is not acceptable decides: `ZeroAddress`
/// where it is the zero address, `DuplicateAddress` where it is repeated
/// further on.
pub open spec fn addresses_verdict(list: Seq<Address>) -> Result<(), ErrorCode> {
    if sound_before(list, list.len() as int) {
        Ok(())
    } else if exists|i: int| 0 <= i < list.len() && sound_before(list, i) && list[i].all_zero() {
        Err(ErrorCode::ZeroAddress)
    } else {
        Err(ErrorCode::DuplicateAddress)
    }
}

/// Whether a list holds neither the zero address nor any address twice.
pub open spec fn distinct_nonzero(list: Seq<Address>) -> bool {
    &&& forall|i: int| 0 <= i < list.len() ==> !(#[trigger] list[i]).all_zero()
    &&& list.no_duplicates()
}

/// A list is accepted exactly if it holds no zero address and no
/// address twice.
pub proof fn lemma_verdict_ok(list: Seq<Address>)
    ensures
        addresses_verdict(list) is Ok <==> distinct_nonzero(list),
{
    if sound_before(list, list.len() as int) {
        assert forall|i: int| 0 <= i < list.len() implies !(#[trigger] list[i]).all_zero() by {
            assert(sound_at(list, i));
        }
        assert forall|i: int, j: int|
            0 <= i < list.len() && 0 <= j < list.len() && i != j implies list[i] != list[j] by {
            if i < j {
                assert(sound_at(list, i));
            } else {
                assert(sound_at(list, j));
            }
        }
    }
    if distinct_nonzero(list) {
        assert forall|k: int| 0 <= k < list.len() implies sound_at(list, k) by {
            if repeats_later(list, k) {
                let j = choose|j: int| k < j < list.len() && list[j] == list[k];
                assert(list[j] != list[k]);
            }
        }
    }
}

/// Checks a list of addresses: none may be the zero address, none may stand
/// twice.
pub fn validate_addresses(addrs: &[Address]) -> (r: Result<(), ErrorCode>)
    ensures
        r == addresses_verdict(addrs@),
{
    let n = addrs.len();
    let mut i: usize = 0;
    while i < n
        invariant
            n == addrs@.len(),
            0 <= i <= n,
            sound_before(addrs@, i as int),
        decreases n - i,
    {
        if addrs[i].is_zero() {
            proof {
                assert(!sound_at(addrs@, i as int));
            }
            return Err(ErrorCode::ZeroAddress);
        }
        let mut j: usize = i + 1;
        while j < n
            invariant
                n == addrs@.len(),
                i < j <= n,
                sound_before(addrs@, i as int),
                !addrs@[i as int].all_zero(),
                forall|k: int| i < k < j ==> addrs@[k] != addrs@[i as int],
            decreases n - j,
        {
            if addrs[j] == addrs[i] {
                proof {
                    lemma_first_fault_repeats(addrs@, i as int, j as int);
                }
                return Err(ErrorCode::DuplicateAddress);
            }
            j += 1;
        }
        assert(sound_at(addrs@, i as int));
        i += 1;
    }
    Ok(())
}

/// Where the first entry that is not acceptable is not the zero address but
/// repeated, the verdict is `DuplicateAddress`.
proof fn lemma_first_fault_repeats(list: Seq<Address>, i: int, j: int)
    requires
        0 <= i < j < list.len(),
        sound_before(list, i),
        !list[i].all_zero(),
        list[j] == list[i],
    ensures
        addresses_verdict(list) == Err::<(), ErrorCode>(ErrorCode::DuplicateAddress),
{
    assert(repeats_later(list, i));
    assert(!sound_at(list, i));
    assert forall|k: int| 0 <= k < list.len() && sound_before(list, k) implies !list[k].all_zero() by {
        if k < i {
            assert(sound_at(list, k));
        } else if k > i {
            assert(sound_at(list, i));
        }
    }
}

/// Tells whether `who` stands in the list.
pub fn contains_address(list: &[Address], who: &Address) -> (r: bool)
    ensures
        r == list@.contains(*who),
{
    let n = list.len();
    let mut i: usize = 0;
    while i < n
        invariant
            n == list@.len(),
            0 <= i <= n,
            forall|k: int| 0 <= k < i ==> list@[k] != *who,
        decreases n - i,
    {
        if list[i] == *who {
            return true;
        }
        i += 1;
    }
    false
}

} // verus!
