use vstd::prelude::*;

pub mod config;
pub mod state;
pub mod ledger;

verus! {

use crate::config::Config;
use crate::config::FormApprovalError;
use crate::state::AdminConfig;
use crate::state::FormApproval;
use crate::state::Pubkey;
use crate::state::bytes32_eq;
use crate::state::copy_bytes;
use crate::state::lemma_pubkey_eq;
use crate::state::zero_bytes;

/// Event recording that a form was approved.
#[derive(Debug)]
pub struct FormApproved {
    pub form_id: Vec<u8>,
    pub form_hash: [u8; 32],
    pub signer: Pubkey,
    pub approved_at: i64,
}

/// Event recording that an admin joined the registry.
#[derive(Clone, Copy, Debug)]
pub struct AdminAdded {
    pub admin: Pubkey,
    pub authority: Pubkey,
}

/// Event recording that an admin left the registry.
#[derive(Clone, Copy, Debug)]
pub struct AdminRemoved {
    pub admin: Pubkey,
    pub authority: Pubkey,
}

/// The metadata a fresh record stores for a given request: the given
/// bytes, or empty when none were given.
pub open spec fn spec_metadata_or_empty(metadata: Option<Vec<u8>>) -> Seq<u8> {
    match metadata {
        Some(m) => m@,
        None => Seq::<u8>::empty(),
    }
}

/// When a signing request passes every check: the caller is an admin, the
/// identifier and metadata are within bounds, and the hash is non-zero.
pub open spec fn sign_accepted(
    admin_config: AdminConfig,
    admin: Pubkey,
    form_id: Seq<u8>,
    form_hash: Seq<u8>,
    metadata: Option<Vec<u8>>,
) -> bool {
    &&& admin_config.spec_is_admin(admin)
    &&& form_id.len() <= 64
    &&& (metadata matches Some(m) ==> m@.len() <= 256)
    &&& form_hash != zero_bytes()
}

/// Creates the singleton admin registry, seeded with the bootstrapping
/// authority as its sole admin. The surrounding allocator guarantees this
/// runs at most once; re-creation is not re-checked here.
pub fn initialize_admin_config(authority: Pubkey, bump: u8) -> (r: AdminConfig)
    ensures
        r.wf(),
        r.authority == authority,
        r.admin_count == 1,
        r.live() == seq![authority],
        r.bump == bump,
        forall|i: int| 1 <= i < 10 ==> r.admins@[i].is_zeroed(),
{
    let mut admins: [Pubkey; 10] = [Pubkey::default(); 10];
    admins[0] = authority;
    let r = AdminConfig { admins, admin_count: 1, authority, bump };
    proof {
        assert(r.live() =~= seq![authority]);
    }
    r
}

/// Builds the approval record for a form submission, after checking that
/// the caller is an admin, the identifier and metadata are within bounds,
/// and the hash is non-zero. Creation of at most one record per form
/// identifier is the surrounding allocator's guarantee, enforced at the
/// ledger level, not here.
pub fn sign_form_submission(
    admin_config: &AdminConfig,
    admin: Pubkey,
    form_id: Vec<u8>,
    form_hash: [u8; 32],
    metadata: Option<Vec<u8>>,
    now: i64,
    bump: u8,
) -> (r: Result<FormApproval, FormApprovalError>)
    requires
        admin_config.wf(),
    ensures
        !admin_config.spec_is_admin(admin) ==> r == Err::<FormApproval, FormApprovalError>(
            FormApprovalError::UnauthorizedAdmin,
        ),
        admin_config.spec_is_admin(admin) && form_id@.len() > 64 ==> r == Err::<
            FormApproval,
            FormApprovalError,
        >(FormApprovalError::FormIdTooLong),
        admin_config.spec_is_admin(admin) && form_id@.len() <= 64 && (metadata matches Some(m)
            && m@.len() > 256) ==> r == Err::<FormApproval, FormApprovalError>(
            FormApprovalError::MetadataTooLong,
        ),
        admin_config.spec_is_admin(admin) && form_id@.len() <= 64 && (metadata matches Some(m)
            ==> m@.len() <= 256) && form_hash@ == zero_bytes() ==> r == Err::<
            FormApproval,
            FormApprovalError,
        >(FormApprovalError::InvalidFormHash),
        sign_accepted(*admin_config, admin, form_id@, form_hash@, metadata) ==> (r matches Ok(rec)
            && rec.form_id@ == form_id@ && rec.form_hash == form_hash && rec.signer == admin
            && rec.approved_at == now && rec.metadata@ == spec_metadata_or_empty(metadata)
            && rec.bump == bump && rec.wf()),
{
    if !admin_config.is_admin(&admin) {
        return Err(FormApprovalError::UnauthorizedAdmin);
    }

    if form_id.len() > Config::MAX_FORM_ID_LENGTH {
        return Err(FormApprovalError::FormIdTooLong);
    }

    if let Some(meta) = &metadata {
        if meta.len() > Config::MAX_METADATA_LENGTH {
            return Err(FormApprovalError::MetadataTooLong);
        }
    }

    let zero: [u8; 32] = [0u8; 32];
    proof {
        assert(zero@ =~= zero_bytes());
    }
    if bytes32_eq(&form_hash, &zero) {
        return Err(FormApprovalError::InvalidFormHash);
    }

    let metadata_bytes: Vec<u8> = match metadata {
        Some(m) => m,
        None => Vec::new(),
    };

    Ok(
        FormApproval {
            form_id,
            form_hash,
            signer: admin,
            approved_at: now,
            metadata: metadata_bytes,
            bump,
        },
    )
}

/// Overwrites a record's metadata. Only the original signer may do so —
/// membership in the current admin registry is not required — and the new
/// metadata must be within bounds. On failure the record is unchanged.
pub fn update_form_approval(
    form_approval: &mut FormApproval,
    admin: Pubkey,
    metadata: Vec<u8>,
) -> (r: Result<(), FormApprovalError>)
    requires
        old(form_approval).wf(),
    ensures
        final(form_approval).wf(),
        admin != old(form_approval).signer ==> r == Err::<(), FormApprovalError>(
            FormApprovalError::UnauthorizedAdmin,
        ) && *final(form_approval) == *old(form_approval),
        admin == old(form_approval).signer && metadata@.len() > 256 ==> r == Err::<
            (),
            FormApprovalError,
        >(FormApprovalError::MetadataTooLong) && *final(form_approval) == *old(form_approval),
        admin == old(form_approval).signer && metadata@.len() <= 256 ==> {
            &&& r == Ok::<(), FormApprovalError>(())
            &&& final(form_approval).metadata@ == metadata@
            &&& final(form_approval).form_id == old(form_approval).form_id
            &&& final(form_approval).form_hash == old(form_approval).form_hash
            &&& final(form_approval).signer == old(form_approval).signer
            &&& final(form_approval).approved_at == old(form_approval).approved_at
            &&& final(form_approval).bump == old(form_approval).bump
        },
{
    proof {
        lemma_pubkey_eq(admin, form_approval.signer);
    }
    if admin != form_approval.signer {
        return Err(FormApprovalError::UnauthorizedAdmin);
    }

    if metadata.len() > Config::MAX_METADATA_LENGTH {
        return Err(FormApprovalError::MetadataTooLong);
    }

    form_approval.metadata = metadata;
    Ok(())
}

/// Adds `new_admin` to the registry. Only the registry's authority may
/// mutate the admin list; any other caller is rejected and the registry
/// is unchanged.
pub fn add_admin(admin_config: &mut AdminConfig, authority: Pubkey, new_admin: Pubkey) -> (r:
    Result<(), FormApprovalError>)
    requires
        old(admin_config).wf(),
    ensures
        final(admin_config).wf(),
        final(admin_config).authority == old(admin_config).authority,
        authority != old(admin_config).authority ==> r == Err::<(), FormApprovalError>(
            FormApprovalError::UnauthorizedAdmin,
        ) && *final(admin_config) == *old(admin_config),
        authority == old(admin_config).authority && old(admin_config).spec_is_admin(new_admin) ==> {
            &&& r == Err::<(), FormApprovalError>(FormApprovalError::AdminAlreadyExists)
            &&& *final(admin_config) == *old(admin_config)
        },
        authority == old(admin_config).authority && !old(admin_config).spec_is_admin(new_admin)
            && old(admin_config).admin_count == 10 ==> {
            &&& r == Err::<(), FormApprovalError>(FormApprovalError::MaxAdminsReached)
            &&& *final(admin_config) == *old(admin_config)
        },
        authority == old(admin_config).authority && !old(admin_config).spec_is_admin(new_admin)
            && old(admin_config).admin_count < 10 ==> {
            &&& r == Ok::<(), FormApprovalError>(())
            &&& final(admin_config).admin_count == old(admin_config).admin_count + 1
            &&& final(admin_config).live() == old(admin_config).live().push(new_admin)
        },
{
    proof {
        lemma_pubkey_eq(authority, admin_config.authority);
    }
    if authority != admin_config.authority {
        return Err(FormApprovalError::UnauthorizedAdmin);
    }
    admin_config.add_admin(new_admin)
}

/// Removes `admin_to_remove` from the registry by swap-remove. Only the
/// registry's authority may mutate the admin list; any other caller is
/// rejected and the registry is unchanged.
pub fn remove_admin(admin_config: &mut AdminConfig, authority: Pubkey, admin_to_remove: Pubkey) -> (
    r: Result<(), FormApprovalError>)
    requires
        old(admin_config).wf(),
    ensures
        final(admin_config).wf(),
        final(admin_config).authority == old(admin_config).authority,
        authority != old(admin_config).authority ==> r == Err::<(), FormApprovalError>(
            FormApprovalError::UnauthorizedAdmin,
        ) && *final(admin_config) == *old(admin_config),
        authority == old(admin_config).authority && old(admin_config).admin_count == 1 ==> {
            &&& r == Err::<(), FormApprovalError>(FormApprovalError::CannotRemoveLastAdmin)
            &&& *final(admin_config) == *old(admin_config)
        },
        authority == old(admin_config).authority && old(admin_config).admin_count > 1
            && !old(admin_config).spec_is_admin(admin_to_remove) ==> {
            &&& r == Err::<(), FormApprovalError>(FormApprovalError::AdminNotFound)
            &&& *final(admin_config) == *old(admin_config)
        },
        authority == old(admin_config).authority && old(admin_config).admin_count > 1
            && old(admin_config).spec_is_admin(admin_to_remove) ==> {
            &&& r == Ok::<(), FormApprovalError>(())
            &&& final(admin_config).admin_count == old(admin_config).admin_count - 1
            &&& final(admin_config).live() == old(admin_config).live().update(
                old(admin_config).admin_slot(admin_to_remove),
                old(admin_config).live().last(),
            ).drop_last()
            &&& !final(admin_config).spec_is_admin(admin_to_remove)
        },
{
    proof {
        lemma_pubkey_eq(authority, admin_config.authority);
    }
    if authority != admin_config.authority {
        return Err(FormApprovalError::UnauthorizedAdmin);
    }
    admin_config.remove_admin(&admin_to_remove)
}

/// Whether a record attests the expected hash: a pure read.
pub fn verify_form_approval(form_approval: &FormApproval, expected_hash: [u8; 32]) -> (r: bool)
    ensures
        r == (form_approval.form_hash@ == expected_hash@),
{
    bytes32_eq(&form_approval.form_hash, &expected_hash)
}

/// The total projection of a record: a pure read.
pub fn get_form_approval_details(form_approval: &FormApproval) -> (r: (
    Vec<u8>,
    [u8; 32],
    Pubkey,
    i64,
    Vec<u8>,
))
    ensures
        r.0@ == form_approval.form_id@,
        r.1 == form_approval.form_hash,
        r.2 == form_approval.signer,
        r.3 == form_approval.approved_at,
        r.4@ == form_approval.metadata@,
{
    (
        copy_bytes(&form_approval.form_id),
        form_approval.form_hash,
        form_approval.signer,
        form_approval.approved_at,
        copy_bytes(&form_approval.metadata),
    )
}

} // verus!
