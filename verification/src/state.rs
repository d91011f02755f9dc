use vstd::prelude::*;

verus! {

/// The 32-byte sequence that is all zero: the sentinel for unused admin
/// slots, and the one value a form hash may not take.
pub open spec fn zero_bytes() -> Seq<u8> {
    Seq::new(32, |i: int| 0u8)
}

/// Compares two 32-byte values for equality.
pub fn bytes32_eq(a: &[u8; 32], b: &[u8; 32]) -> (r: bool)
    ensures
        r == (a@ == b@),
{
    let mut i: usize = 0;
    while i < 32
        invariant
            i <= 32,
            forall|j: int| 0 <= j < i ==> a@[j] == b@[j],
        decreases 32 - i,
    {
        if a[i] != b[i] {
            return false;
        }
        i = i + 1;
    }
    proof {
        assert(a@ =~= b@);
    }
    true
}

/// Compares two byte strings for equality.
pub fn bytes_eq(a: &Vec<u8>, b: &Vec<u8>) -> (r: bool)
    ensures
        r == (a@ == b@),
{
    if a.len() != b.len() {
        return false;
    }
    let n = a.len();
    let mut i: usize = 0;
    while i < n
        invariant
            i <= n,
            n == a@.len(),
            n == b@.len(),
            forall|j: int| 0 <= j < i ==> a@[j] == b@[j],
        decreases n - i,
    {
        if a[i] != b[i] {
            return false;
        }
        i = i + 1;
    }
    proof {
        assert(a@ =~= b@);
    }
    true
}

/// Copies a byte string.
pub fn copy_bytes(src: &Vec<u8>) -> (r: Vec<u8>)
    ensures
        r@ == src@,
{
    let mut r: Vec<u8> = Vec::new();
    let mut i: usize = 0;
    while i < src.len()
        invariant
            i <= src@.len(),
            r@ == src@.take(i as int),
        decreases src@.len() - i,
    {
        r.push(src[i]);
        proof {
            assert(r@ =~= src@.take(i + 1 as int));
        }
        i = i + 1;
    }
    proof {
        assert(src@.take(src@.len() as int) =~= src@);
    }
    r
}

/// A principal identifier: a 32-byte public key.
#[derive(Clone, Copy, Debug)]
pub struct Pubkey {
    pub bytes: [u8; 32],
}

impl Pubkey {
    /// Whether this key is the all-zero sentinel.
    pub open spec fn is_zeroed(self) -> bool {
        self.bytes@ == zero_bytes()
    }

    /// Builds a key from its raw bytes.
    pub fn new(bytes: [u8; 32]) -> (r: Pubkey)
        ensures
            r.bytes == bytes,
    {
        Pubkey { bytes }
    }
}

impl PartialEq for Pubkey {
    fn eq(&self, other: &Pubkey) -> (r: bool) {
        bytes32_eq(&self.bytes, &other.bytes)
    }
}

impl vstd::std_specs::cmp::PartialEqSpecImpl for Pubkey {
    open spec fn obeys_eq_spec() -> bool {
        true
    }

    open spec fn eq_spec(&self, other: &Pubkey) -> bool {
        self.bytes@ == other.bytes@
    }
}

impl Default for Pubkey {
    /// The all-zero key, used as the sentinel for unused admin slots.
    fn default() -> (r: Pubkey)
        ensures
            r.is_zeroed(),
    {
        let r = Pubkey { bytes: [0u8; 32] };
        proof {
            assert(r.bytes@ =~= zero_bytes());
        }
        r
    }
}

/// Two keys are equal exactly when their byte views are.
pub proof fn lemma_pubkey_eq(a: Pubkey, b: Pubkey)
    ensures
        (a == b) <==> (a.bytes@ == b.bytes@),
{
    if a.bytes@ == b.bytes@ {
        assert(a.bytes =~= b.bytes);
    }
}

/// An immutable-core attestation record: "the document identified by
/// `form_hash` was approved by `signer` at `approved_at`". Only `metadata`
/// may change after creation, and only at the hand of `signer`.
#[derive(Debug)]
pub struct FormApproval {
    /// Unique identifier for the form, 0 to 64 bytes, immutable.
    pub form_id: Vec<u8>,
    /// SHA-256 hash of the form submission data, non-zero, immutable.
    pub form_hash: [u8; 32],
    /// The admin who approved the form, immutable.
    pub signer: Pubkey,
    /// Timestamp at which the form was approved, immutable.
    pub approved_at: i64,
    /// Optional annotation, 0 to 256 bytes, mutable by `signer` alone.
    pub metadata: Vec<u8>,
    /// Bump seed for the record's derived storage address.
    pub bump: u8,
}

impl FormApproval {
    /// Validity of a stored record: bounded lengths and a non-zero hash.
    pub open spec fn wf(self) -> bool {
        &&& self.form_id@.len() <= 64
        &&& self.metadata@.len() <= 256
        &&& self.form_hash@ != zero_bytes()
    }

    /// Storage space in bytes for a record with the given field lengths:
    /// an 8-byte discriminator, two length-prefixed byte strings, the
    /// hash, the signer, the timestamp and the bump seed.
    pub fn space(form_id_len: usize, metadata_len: usize) -> (r: usize)
        requires
            form_id_len + metadata_len + 89 <= usize::MAX,
        ensures
            r == 89 + form_id_len + metadata_len,
    {
        8 + 4 + form_id_len + 32 + 32 + 8 + 4 + metadata_len + 1
    }
}

/// The bounded allowlist of principals permitted to create and annotate
/// approval records, together with the one principal allowed to mutate
/// the list itself.
#[derive(Debug)]
pub struct AdminConfig {
    /// Admin slots; only the first `admin_count` are meaningful, the rest
    /// hold the all-zero sentinel.
    pub admins: [Pubkey; 10],
    /// Number of live admin slots.
    pub admin_count: u8,
    /// The sole principal allowed to add or remove admins.
    pub authority: Pubkey,
    /// Bump seed for the registry's derived storage address.
    pub bump: u8,
}

impl AdminConfig {
    /// The live admins, in slot order.
    pub open spec fn live(self) -> Seq<Pubkey> {
        self.admins@.take(self.admin_count as int)
    }

    /// Registry invariant: at least one admin, at most ten, no duplicates
    /// among the live slots.
    pub open spec fn wf(self) -> bool {
        &&& 1 <= self.admin_count <= 10
        &&& forall|i: int, j: int|
            0 <= i < j < self.admin_count ==> self.admins@[i] != self.admins@[j]
    }

    /// Membership among the live admins.
    pub open spec fn spec_is_admin(self, pubkey: Pubkey) -> bool {
        self.live().contains(pubkey)
    }

    /// The slot a live admin occupies.
    pub open spec fn admin_slot(self, pubkey: Pubkey) -> int {
        choose|i: int| 0 <= i < self.admin_count && self.admins@[i] == pubkey
    }

    /// Storage space in bytes for the registry: an 8-byte discriminator,
    /// ten key slots, the count, the authority and the bump seed.
    pub fn space() -> (r: usize)
        ensures
            r == 362,
    {
        8 + (32 * 10) + 1 + 32 + 1
    }

    /// Linear scan for `pubkey` among the live admin slots.
    pub fn is_admin(&self, pubkey: &Pubkey) -> (r: bool)
        requires
            self.admin_count <= 10,
        ensures
            r == self.spec_is_admin(*pubkey),
    {
        let count = self.admin_count as usize;
        let mut i: usize = 0;
        while i < count
            invariant
                i <= count,
                count == self.admin_count as int,
                count <= 10,
                forall|j: int| 0 <= j < i ==> self.admins@[j] != *pubkey,
            decreases count - i,
        {
            if self.admins[i] == *pubkey {
                proof {
                    lemma_pubkey_eq(self.admins@[i as int], *pubkey);
                    assert(self.live()[i as int] == *pubkey);
                }
                return true;
            }
            i = i + 1;
        }
        proof {
            assert forall|j: int| 0 <= j < self.live().len() implies self.live()[j] != *pubkey by {
                assert(self.live()[j] == self.admins@[j]);
            }
        }
        false
    }

    /// Linear scan for the slot a live admin occupies.
    fn find_admin_slot(&self, pubkey: &Pubkey) -> (r: Option<usize>)
        requires
            self.admin_count <= 10,
        ensures
            match r {
                Some(i) => i < self.admin_count && self.admins@[i as int] == *pubkey,
                None => !self.spec_is_admin(*pubkey),
            },
    {
        let count = self.admin_count as usize;
        let mut i: usize = 0;
        while i < count
            invariant
                i <= count,
                count == self.admin_count as int,
                count <= 10,
                forall|j: int| 0 <= j < i ==> self.admins@[j] != *pubkey,
            decreases count - i,
        {
            if self.admins[i] == *pubkey {
                proof {
                    lemma_pubkey_eq(self.admins@[i as int], *pubkey);
                }
                return Some(i);
            }
            i = i + 1;
        }
        proof {
            assert forall|j: int| 0 <= j < self.live().len() implies self.live()[j] != *pubkey by {
                assert(self.live()[j] == self.admins@[j]);
            }
        }
        None
    }

    /// Appends `admin` to the live slots, unless it is already present or
    /// the list is full. On failure the registry is unchanged.
    pub fn add_admin(&mut self, admin: Pubkey) -> (r: Result<(), crate::config::FormApprovalError>)
        requires
            old(self).wf(),
        ensures
            final(self).wf(),
            final(self).authority == old(self).authority,
            final(self).bump == old(self).bump,
            old(self).spec_is_admin(admin) ==> r == Err::<(), crate::config::FormApprovalError>(
                crate::config::FormApprovalError::AdminAlreadyExists,
            ) && *final(self) == *old(self),
            !old(self).spec_is_admin(admin) && old(self).admin_count == 10 ==> r == Err::<
                (),
                crate::config::FormApprovalError,
            >(crate::config::FormApprovalError::MaxAdminsReached) && *final(self) == *old(self),
            !old(self).spec_is_admin(admin) && old(self).admin_count < 10 ==> r == Ok::<
                (),
                crate::config::FormApprovalError,
            >(()) && final(self).admin_count == old(self).admin_count + 1 && final(self).live()
                == old(self).live().push(admin),
    {
        if self.is_admin(&admin) {
            return Err(crate::config::FormApprovalError::AdminAlreadyExists);
        }

        if self.admin_count >= crate::config::Config::MAX_ADMINS as u8 {
            return Err(crate::config::FormApprovalError::MaxAdminsReached);
        }

        let count = self.admin_count as usize;
        self.admins[count] = admin;
        self.admin_count = self.admin_count + 1;

        proof {
            let pre = *old(self);
            assert forall|i: int| 0 <= i < pre.admin_count implies pre.admins@[i] != admin by {
                if pre.admins@[i] == admin {
                    assert(pre.live()[i] == admin);
                    assert(pre.live().contains(admin));
                }
            }
            assert(self.live() =~= pre.live().push(admin));
        }
        Ok(())
    }

    /// Swap-removes `admin` from the live slots: the former last live
    /// entry moves into the vacated slot, the freed slot is cleared to the
    /// sentinel, and the count shrinks by one. The sole remaining admin
    /// may not be removed. On failure the registry is unchanged.
    pub fn remove_admin(&mut self, admin: &Pubkey) -> (r: Result<
        (),
        crate::config::FormApprovalError,
    >)
        requires
            old(self).wf(),
        ensures
            final(self).wf(),
            final(self).authority == old(self).authority,
            final(self).bump == old(self).bump,
            old(self).admin_count == 1 ==> r == Err::<(), crate::config::FormApprovalError>(
                crate::config::FormApprovalError::CannotRemoveLastAdmin,
            ) && *final(self) == *old(self),
            old(self).admin_count > 1 && !old(self).spec_is_admin(*admin) ==> r == Err::<
                (),
                crate::config::FormApprovalError,
            >(crate::config::FormApprovalError::AdminNotFound) && *final(self) == *old(self),
            old(self).admin_count > 1 && old(self).spec_is_admin(*admin) ==> {
                &&& r == Ok::<(), crate::config::FormApprovalError>(())
                &&& final(self).admin_count == old(self).admin_count - 1
                &&& final(self).live() == old(self).live().update(
                    old(self).admin_slot(*admin),
                    old(self).live().last(),
                ).drop_last()
                &&& final(self).admins@[old(self).admin_count - 1].is_zeroed()
                &&& !final(self).spec_is_admin(*admin)
            },
    {
        if self.admin_count <= 1 {
            return Err(crate::config::FormApprovalError::CannotRemoveLastAdmin);
        }

        let count = self.admin_count as usize;
        let found_index = self.find_admin_slot(admin);

        let index = match found_index {
            Some(index) => index,
            None => {
                return Err(crate::config::FormApprovalError::AdminNotFound);
            },
        };

        proof {
            assert(self.live()[index as int] == *admin);
            assert(self.spec_is_admin(*admin));
            assert(self.admin_slot(*admin) == index) by {
                let k = self.admin_slot(*admin);
                assert(0 <= k < self.admin_count && self.admins@[k] == *admin);
            }
        }

        if index < count - 1 {
            self.admins[index] = self.admins[count - 1];
        }

        self.admins[count - 1] = Pubkey::default();
        self.admin_count = self.admin_count - 1;

        proof {
            let pre = *old(self);
            let n = pre.admin_count as int;
            let f = index as int;
            assert(pre.live().last() == pre.admins@[n - 1]);
            assert(self.live() =~= pre.live().update(f, pre.live().last()).drop_last());
            assert forall|i1: int, j1: int|
                0 <= i1 < j1 < self.admin_count implies self.admins@[i1] != self.admins@[j1] by {
                let src_i = if i1 == f { n - 1 } else { i1 };
                let src_j = if j1 == f { n - 1 } else { j1 };
                assert(self.admins@[i1] == pre.admins@[src_i]);
                assert(self.admins@[j1] == pre.admins@[src_j]);
            }
            assert forall|j1: int|
                0 <= j1 < self.live().len() implies self.live()[j1] != *admin by {
                let src = if j1 == f { n - 1 } else { j1 };
                assert(self.live()[j1] == pre.admins@[src]);
            }
        }
        Ok(())
    }
}

} // verus!

