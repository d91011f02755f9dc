use vstd::prelude::*;

verus! {

use crate::config::FormApprovalError;
use crate::state::AdminConfig;
use crate::state::FormApproval;
use crate::state::Pubkey;
use crate::state::bytes_eq;
use crate::state::copy_bytes;
use crate::state::lemma_pubkey_eq;
use crate::AdminAdded;
use crate::AdminRemoved;
use crate::FormApproved;
use crate::sign_accepted;
use crate::spec_metadata_or_empty;

/// The whole system as the surrounding runtime serializes it: the
/// singleton admin registry and one approval record per form identifier.
/// The runtime's create-if-absent allocation is what keeps the records
/// unique per identifier; here that guarantee is the `inv` invariant.
pub struct Ledger {
    pub admin_config: AdminConfig,
    pub records: Vec<FormApproval>,
}

/// When a signing request against a whole ledger is accepted: the request
/// itself passes every check and no record exists yet for the identifier.
pub open spec fn ledger_sign_accepted(
    s: Ledger,
    caller: Pubkey,
    form_id: Seq<u8>,
    form_hash: Seq<u8>,
    metadata: Option<Vec<u8>>,
) -> bool {
    &&& sign_accepted(s.admin_config, caller, form_id, form_hash, metadata)
    &&& !s.has_record(form_id)
}

impl Ledger {
    /// Whether a record exists for the identifier.
    pub open spec fn has_record(self, form_id: Seq<u8>) -> bool {
        exists|i: int| 0 <= i < self.records@.len() && self.records@[i].form_id@ == form_id
    }

    /// The position of the identifier's record.
    pub open spec fn record_index(self, form_id: Seq<u8>) -> int {
        choose|i: int| 0 <= i < self.records@.len() && self.records@[i].form_id@ == form_id
    }

    /// The identifier's record.
    pub open spec fn record_of(self, form_id: Seq<u8>) -> FormApproval {
        self.records@[self.record_index(form_id)]
    }

    /// The total projection of the identifier's record, as views: the
    /// identifier, the hash, the signer, the timestamp, the metadata.
    pub open spec fn spec_details(self, form_id: Seq<u8>) -> (Seq<u8>, Seq<u8>, Pubkey, int, Seq<
        u8,
    >) {
        let rec = self.record_of(form_id);
        (rec.form_id@, rec.form_hash@, rec.signer, rec.approved_at as int, rec.metadata@)
    }

    /// System invariant: a well-formed registry, at most one record per
    /// form identifier, and every record well-formed.
    pub open spec fn inv(self) -> bool {
        &&& self.admin_config.wf()
        &&& forall|i: int, j: int|
            0 <= i < j < self.records@.len() ==> self.records@[i].form_id@
                != self.records@[j].form_id@
        &&& forall|i: int| 0 <= i < self.records@.len() ==> self.records@[i].wf()
    }

    /// Creates the system: a registry whose sole admin is the
    /// bootstrapping authority, and no records.
    pub fn bootstrap(authority: Pubkey) -> (r: Ledger)
        ensures
            r.inv(),
            r.admin_config.authority == authority,
            r.admin_config.live() == seq![authority],
            r.records@ == Seq::<FormApproval>::empty(),
    {
        Ledger { admin_config: crate::initialize_admin_config(authority, 0), records: Vec::new() }
    }

    /// Linear scan for the identifier's record.
    fn find_record(&self, form_id: &Vec<u8>) -> (r: Option<usize>)
        requires
            self.inv(),
        ensures
            match r {
                Some(i) => {
                    &&& i < self.records@.len()
                    &&& self.records@[i as int].form_id@ == form_id@
                    &&& self.has_record(form_id@)
                    &&& self.record_index(form_id@) == i
                },
                None => !self.has_record(form_id@),
            },
    {
        let n = self.records.len();
        let mut i: usize = 0;
        while i < n
            invariant
                self.inv(),
                i <= n,
                n == self.records@.len(),
                forall|j: int| 0 <= j < i ==> self.records@[j].form_id@ != form_id@,
            decreases n - i,
        {
            if bytes_eq(&self.records[i].form_id, form_id) {
                proof {
                    assert(self.records@[i as int].form_id@ == form_id@);
                    assert(self.has_record(form_id@));
                    let k = self.record_index(form_id@);
                    assert(0 <= k < self.records@.len() && self.records@[k].form_id@ == form_id@);
                    if k < i as int {
                        assert(self.records@[k].form_id@ != self.records@[i as int].form_id@);
                    } else if k > i as int {
                        assert(self.records@[i as int].form_id@ != self.records@[k].form_id@);
                    }
                }
                return Some(i);
            }
            i = i + 1;
        }
        None
    }

    /// Adds an admin on behalf of `caller`, who must be the registry's
    /// authority. Emits the `AdminAdded` event on success; on failure the
    /// system is unchanged.
    pub fn add_admin(&mut self, caller: Pubkey, new_admin: Pubkey) -> (r: Result<
        AdminAdded,
        FormApprovalError,
    >)
        requires
            old(self).inv(),
        ensures
            final(self).inv(),
            final(self).records == old(self).records,
            final(self).admin_config.authority == old(self).admin_config.authority,
            r is Ok <==> caller == old(self).admin_config.authority && !old(
                self,
            ).admin_config.spec_is_admin(new_admin) && old(self).admin_config.admin_count < 10,
            caller != old(self).admin_config.authority ==> r == Err::<
                AdminAdded,
                FormApprovalError,
            >(FormApprovalError::UnauthorizedAdmin) && *final(self) == *old(self),
            caller == old(self).admin_config.authority && old(self).admin_config.spec_is_admin(
                new_admin,
            ) ==> r == Err::<AdminAdded, FormApprovalError>(FormApprovalError::AdminAlreadyExists)
                && *final(self) == *old(self),
            caller == old(self).admin_config.authority && !old(self).admin_config.spec_is_admin(
                new_admin,
            ) && old(self).admin_config.admin_count == 10 ==> r == Err::<
                AdminAdded,
                FormApprovalError,
            >(FormApprovalError::MaxAdminsReached) && *final(self) == *old(self),
            caller == old(self).admin_config.authority && !old(self).admin_config.spec_is_admin(
                new_admin,
            ) && old(self).admin_config.admin_count < 10 ==> {
                &&& (r matches Ok(ev) && ev.admin == new_admin && ev.authority == old(
                    self,
                ).admin_config.authority)
                &&& final(self).admin_config.admin_count == old(self).admin_config.admin_count + 1
                &&& final(self).admin_config.live() == old(self).admin_config.live().push(new_admin)
            },
    {
        let r = crate::add_admin(&mut self.admin_config, caller, new_admin);
        match r {
            Ok(()) => Ok(AdminAdded { admin: new_admin, authority: self.admin_config.authority }),
            Err(e) => Err(e),
        }
    }

    /// Removes an admin on behalf of `caller`, who must be the registry's
    /// authority. Emits the `AdminRemoved` event on success; on failure
    /// the system is unchanged.
    pub fn remove_admin(&mut self, caller: Pubkey, admin_to_remove: Pubkey) -> (r: Result<
        AdminRemoved,
        FormApprovalError,
    >)
        requires
            old(self).inv(),
        ensures
            final(self).inv(),
            final(self).records == old(self).records,
            final(self).admin_config.authority == old(self).admin_config.authority,
            r is Ok <==> caller == old(self).admin_config.authority && old(
                self,
            ).admin_config.admin_count > 1 && old(self).admin_config.spec_is_admin(admin_to_remove),
            caller != old(self).admin_config.authority ==> r == Err::<
                AdminRemoved,
                FormApprovalError,
            >(FormApprovalError::UnauthorizedAdmin) && *final(self) == *old(self),
            caller == old(self).admin_config.authority && old(self).admin_config.admin_count == 1
                ==> r == Err::<AdminRemoved, FormApprovalError>(
                FormApprovalError::CannotRemoveLastAdmin,
            ) && *final(self) == *old(self),
            caller == old(self).admin_config.authority && old(self).admin_config.admin_count > 1
                && !old(self).admin_config.spec_is_admin(admin_to_remove) ==> r == Err::<
                AdminRemoved,
                FormApprovalError,
            >(FormApprovalError::AdminNotFound) && *final(self) == *old(self),
            caller == old(self).admin_config.authority && old(self).admin_config.admin_count > 1
                && old(self).admin_config.spec_is_admin(admin_to_remove) ==> {
                &&& (r matches Ok(ev) && ev.admin == admin_to_remove && ev.authority == old(
                    self,
                ).admin_config.authority)
                &&& final(self).admin_config.admin_count == old(self).admin_config.admin_count - 1
                &&& final(self).admin_config.live() == old(self).admin_config.live().update(
                    old(self).admin_config.admin_slot(admin_to_remove),
                    old(self).admin_config.live().last(),
                ).drop_last()
                &&& !final(self).admin_config.spec_is_admin(admin_to_remove)
            },
    {
        let r = crate::remove_admin(&mut self.admin_config, caller, admin_to_remove);
        match r {
            Ok(()) => Ok(
                AdminRemoved { admin: admin_to_remove, authority: self.admin_config.authority },
            ),
            Err(e) => Err(e),
        }
    }

    /// Signs a form submission on behalf of `caller`: validates the
    /// request, then creates the record, unless one already exists for
    /// the identifier. Emits the `FormApproved` event on success; on
    /// failure the system is unchanged.
    pub fn sign_form_submission(
        &mut self,
        caller: Pubkey,
        form_id: Vec<u8>,
        form_hash: [u8; 32],
        metadata: Option<Vec<u8>>,
        now: i64,
    ) -> (r: Result<FormApproved, FormApprovalError>)
        requires
            old(self).inv(),
        ensures
            final(self).inv(),
            final(self).admin_config == old(self).admin_config,
            r is Ok <==> ledger_sign_accepted(*old(self), caller, form_id@, form_hash@, metadata),
            !old(self).admin_config.spec_is_admin(caller) ==> r == Err::<
                FormApproved,
                FormApprovalError,
            >(FormApprovalError::UnauthorizedAdmin) && *final(self) == *old(self),
            old(self).admin_config.spec_is_admin(caller) && form_id@.len() > 64 ==> r == Err::<
                FormApproved,
                FormApprovalError,
            >(FormApprovalError::FormIdTooLong) && *final(self) == *old(self),
            old(self).admin_config.spec_is_admin(caller) && form_id@.len() <= 64 && (metadata
                matches Some(m) && m@.len() > 256) ==> r == Err::<FormApproved, FormApprovalError>(
                FormApprovalError::MetadataTooLong,
            ) && *final(self) == *old(self),
            old(self).admin_config.spec_is_admin(caller) && form_id@.len() <= 64 && (metadata
                matches Some(m) ==> m@.len() <= 256) && form_hash@ == crate::state::zero_bytes()
                ==> r == Err::<FormApproved, FormApprovalError>(FormApprovalError::InvalidFormHash)
                && *final(self) == *old(self),
            sign_accepted(old(self).admin_config, caller, form_id@, form_hash@, metadata) && old(
                self,
            ).has_record(form_id@) ==> r == Err::<FormApproved, FormApprovalError>(
                FormApprovalError::FormAlreadyApproved,
            ) && *final(self) == *old(self),
            ledger_sign_accepted(*old(self), caller, form_id@, form_hash@, metadata) ==> {
                &&& (r matches Ok(ev) && ev.form_id@ == form_id@ && ev.form_hash == form_hash
                    && ev.signer == caller && ev.approved_at == now)
                &&& final(self).records@.len() == old(self).records@.len() + 1
                &&& final(self).records@.take(old(self).records@.len() as int) == old(
                    self,
                ).records@
                &&& final(self).has_record(form_id@)
                &&& final(self).record_of(form_id@) == final(self).records@.last()
                &&& final(self).record_of(form_id@).form_id@ == form_id@
                &&& final(self).record_of(form_id@).form_hash == form_hash
                &&& final(self).record_of(form_id@).signer == caller
                &&& final(self).record_of(form_id@).approved_at == now
                &&& final(self).record_of(form_id@).metadata@ == spec_metadata_or_empty(metadata)
            },
    {
        let checked = crate::sign_form_submission(
            &self.admin_config,
            caller,
            form_id,
            form_hash,
            metadata,
            now,
            0,
        );
        match checked {
            Err(e) => Err(e),
            Ok(rec) => {
                if self.find_record(&rec.form_id).is_some() {
                    return Err(FormApprovalError::FormAlreadyApproved);
                }
                let ev = FormApproved {
                    form_id: copy_bytes(&rec.form_id),
                    form_hash: rec.form_hash,
                    signer: rec.signer,
                    approved_at: rec.approved_at,
                };
                let ghost pre = *self;
                self.records.push(rec);
                proof {
                    lemma_fresh_record(pre, *self, rec);
                    assert(self.records@.take(pre.records@.len() as int) =~= pre.records@);
                }
                Ok(ev)
            },
        }
    }

    /// Overwrites a record's metadata on behalf of `caller`, who must be
    /// the record's original signer. On failure the system is unchanged.
    pub fn update_form_approval(&mut self, caller: Pubkey, form_id: &Vec<u8>, metadata: Vec<u8>) -> (
        r: Result<(), FormApprovalError>)
        requires
            old(self).inv(),
        ensures
            final(self).inv(),
            final(self).admin_config == old(self).admin_config,
            final(self).records@.len() == old(self).records@.len(),
            r is Ok <==> old(self).has_record(form_id@) && caller == old(self).record_of(
                form_id@,
            ).signer && metadata@.len() <= 256,
            !old(self).has_record(form_id@) ==> r == Err::<(), FormApprovalError>(
                FormApprovalError::RecordNotFound,
            ) && *final(self) == *old(self),
            old(self).has_record(form_id@) && caller != old(self).record_of(form_id@).signer ==> {
                &&& r == Err::<(), FormApprovalError>(FormApprovalError::UnauthorizedAdmin)
                &&& *final(self) == *old(self)
            },
            old(self).has_record(form_id@) && caller == old(self).record_of(form_id@).signer
                && metadata@.len() > 256 ==> r == Err::<(), FormApprovalError>(
                FormApprovalError::MetadataTooLong,
            ) && *final(self) == *old(self),
            old(self).has_record(form_id@) && caller == old(self).record_of(form_id@).signer
                && metadata@.len() <= 256 ==> {
                &&& r == Ok::<(), FormApprovalError>(())
                &&& final(self).record_index(form_id@) == old(self).record_index(form_id@)
                &&& forall|j: int|
                    0 <= j < old(self).records@.len() && j != old(self).record_index(form_id@)
                        ==> final(self).records@[j] == old(self).records@[j]
                &&& final(self).record_of(form_id@).metadata@ == metadata@
                &&& final(self).record_of(form_id@).form_id == old(self).record_of(
                    form_id@,
                ).form_id
                &&& final(self).record_of(form_id@).form_hash == old(self).record_of(
                    form_id@,
                ).form_hash
                &&& final(self).record_of(form_id@).signer == old(self).record_of(form_id@).signer
                &&& final(self).record_of(form_id@).approved_at == old(self).record_of(
                    form_id@,
                ).approved_at
            },
    {
        let idx = match self.find_record(form_id) {
            None => {
                return Err(FormApprovalError::RecordNotFound);
            },
            Some(i) => i,
        };

        let signer = self.records[idx].signer;
        proof {
            lemma_pubkey_eq(caller, signer);
        }
        if caller != signer {
            return Err(FormApprovalError::UnauthorizedAdmin);
        }

        if metadata.len() > crate::config::Config::MAX_METADATA_LENGTH {
            return Err(FormApprovalError::MetadataTooLong);
        }

        let ghost pre = *self;
        let r = crate::update_form_approval(&mut self.records[idx], caller, metadata);
        proof {
            assert forall|i: int, j: int|
                0 <= i < j < self.records@.len() implies self.records@[i].form_id@
                != self.records@[j].form_id@ by {
                assert(self.records@[i].form_id == pre.records@[i].form_id);
                assert(self.records@[j].form_id == pre.records@[j].form_id);
            }
            let k = self.record_index(form_id@);
            assert(self.records@[idx as int].form_id@ == form_id@);
            assert(self.has_record(form_id@));
            if k < idx as int {
                assert(self.records@[k].form_id@ == form_id@);
                assert(pre.records@[k].form_id@ != pre.records@[idx as int].form_id@);
            } else if k > idx as int {
                assert(self.records@[k].form_id@ == form_id@);
                assert(pre.records@[idx as int].form_id@ != pre.records@[k].form_id@);
            }
        }
        r
    }

    /// Whether the identifier's record attests the expected hash: a pure
    /// read.
    pub fn verify_form_approval(&self, form_id: &Vec<u8>, expected_hash: [u8; 32]) -> (r: Result<
        bool,
        FormApprovalError,
    >)
        requires
            self.inv(),
        ensures
            !self.has_record(form_id@) ==> r == Err::<bool, FormApprovalError>(
                FormApprovalError::RecordNotFound,
            ),
            self.has_record(form_id@) ==> r == Ok::<bool, FormApprovalError>(
                (self.record_of(form_id@).form_hash@ == expected_hash@),
            ),
    {
        let idx = match self.find_record(form_id) {
            None => {
                return Err(FormApprovalError::RecordNotFound);
            },
            Some(i) => i,
        };
        Ok(crate::verify_form_approval(&self.records[idx], expected_hash))
    }

    /// The total projection of the identifier's record: a pure read.
    pub fn get_form_approval_details(&self, form_id: &Vec<u8>) -> (r: Result<
        (Vec<u8>, [u8; 32], Pubkey, i64, Vec<u8>),
        FormApprovalError,
    >)
        requires
            self.inv(),
        ensures
            !self.has_record(form_id@) ==> r == Err::<
                (Vec<u8>, [u8; 32], Pubkey, i64, Vec<u8>),
                FormApprovalError,
            >(FormApprovalError::RecordNotFound),
            self.has_record(form_id@) ==> (r matches Ok(t) && t.0@ == form_id@ && t.1 == self
                .record_of(form_id@).form_hash && t.2 == self.record_of(form_id@).signer && t.3
                == self.record_of(form_id@).approved_at && t.4@ == self.record_of(
                form_id@,
            ).metadata@ && (t.0@, t.1@, t.2, t.3 as int, t.4@) == self.spec_details(form_id@)),
    {
        let idx = match self.find_record(form_id) {
            None => {
                return Err(FormApprovalError::RecordNotFound);
            },
            Some(i) => i,
        };
        Ok(crate::get_form_approval_details(&self.records[idx]))
    }
}

/// A record pushed onto a ledger that had none for its identifier is
/// exactly the record the identifier then resolves to. This is the heart
/// of the create-if-absent round trip: what a successful signing stores
/// is what every later read returns.
pub proof fn lemma_fresh_record(pre: Ledger, post: Ledger, rec: FormApproval)
    requires
        pre.inv(),
        rec.wf(),
        !pre.has_record(rec.form_id@),
        post.admin_config.wf(),
        post.records@ == pre.records@.push(rec),
    ensures
        post.inv(),
        post.has_record(rec.form_id@),
        post.record_of(rec.form_id@) == rec,
        post.records@.last() == rec,
{
    let n = pre.records@.len() as int;
    assert forall|i: int, j: int|
        0 <= i < j < post.records@.len() implies post.records@[i].form_id@
        != post.records@[j].form_id@ by {
        if j == n {
            assert(post.records@[i] == pre.records@[i]);
            if pre.records@[i].form_id@ == rec.form_id@ {
                assert(pre.has_record(rec.form_id@));
            }
        } else {
            assert(post.records@[i] == pre.records@[i]);
            assert(post.records@[j] == pre.records@[j]);
        }
    }
    assert(post.records@[n].form_id@ == rec.form_id@);
    assert(post.has_record(rec.form_id@));
    let k = post.record_index(rec.form_id@);
    assert(0 <= k < post.records@.len() && post.records@[k].form_id@ == rec.form_id@);
    if k != n {
        assert(post.records@[k] == pre.records@[k]);
        assert(pre.has_record(rec.form_id@));
    }
}

/// Round trip: after a successful signing, the details read back for the
/// identifier are exactly what the signing stored — the identifier, the
/// hash, the signer, the timestamp, and the given (or empty) metadata.
/// The premises are precisely what a successful signing establishes.
pub proof fn lemma_sign_get_round_trip(
    post: Ledger,
    caller: Pubkey,
    form_id: Seq<u8>,
    form_hash: Seq<u8>,
    metadata: Option<Vec<u8>>,
    now: int,
)
    requires
        post.has_record(form_id),
        post.record_of(form_id).form_id@ == form_id,
        post.record_of(form_id).form_hash@ == form_hash,
        post.record_of(form_id).signer == caller,
        post.record_of(form_id).approved_at == now,
        post.record_of(form_id).metadata@ == spec_metadata_or_empty(metadata),
    ensures
        post.spec_details(form_id) == (
            form_id,
            form_hash,
            caller,
            now,
            spec_metadata_or_empty(metadata),
        ),
{
}

/// At most one signing per form identifier ever succeeds: once a record
/// exists for an identifier, no further signing request for it is
/// accepted, whoever makes it and whatever it carries.
pub proof fn lemma_sign_at_most_once(
    s: Ledger,
    caller: Pubkey,
    form_id: Seq<u8>,
    form_hash: Seq<u8>,
    metadata: Option<Vec<u8>>,
)
    requires
        s.has_record(form_id),
    ensures
        !ledger_sign_accepted(s, caller, form_id, form_hash, metadata),
{
}

/// Swap-removal of a non-last element relocates the former last element
/// into the vacated slot and shrinks the sequence by exactly one.
pub proof fn lemma_swap_remove_relocates(s: Seq<Pubkey>, i: int)
    requires
        0 <= i < s.len() - 1,
    ensures
        s.update(i, s.last()).drop_last().len() == s.len() - 1,
        s.update(i, s.last()).drop_last()[i] == s.last(),
        forall|j: int| 0 <= j < s.len() - 1 && j != i ==> s.update(i, s.last()).drop_last()[j]
            == s[j],
{
}

/// Every well-formed registry holds between one and ten admins, and no
/// principal twice. Together with the operations' contracts — bootstrap
/// establishes `wf`, and every mutation preserves it — this bounds every
/// reachable registry state.
pub proof fn lemma_registry_bounds(c: AdminConfig)
    requires
        c.wf(),
    ensures
        1 <= c.admin_count <= 10,
        c.live().len() == c.admin_count,
        forall|i: int, j: int| 0 <= i < j < c.live().len() ==> c.live()[i] != c.live()[j],
{
    assert forall|i: int, j: int| 0 <= i < j < c.live().len() implies c.live()[i] != c.live()[j] by {
        assert(c.live()[i] == c.admins@[i]);
        assert(c.live()[j] == c.admins@[j]);
    }
}

} // verus!
