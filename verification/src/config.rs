use vstd::prelude::*;

verus! {

/// Configuration constants for the form approval system.
pub struct Config;

impl Config {
    /// Maximum length in bytes for a form identifier.
    pub const MAX_FORM_ID_LENGTH: usize = 64;

    /// Maximum length in bytes for the optional metadata of a record.
    pub const MAX_METADATA_LENGTH: usize = 256;

    /// Maximum number of admins the registry can hold.
    pub const MAX_ADMINS: usize = 10;
}

/// Caller-facing rejections. Every operation either succeeds or returns one
/// of these and leaves all state unchanged.
#[derive(Clone, Copy, Debug, PartialEq, Eq, Structural)]
pub enum FormApprovalError {
    /// The form identifier exceeds `Config::MAX_FORM_ID_LENGTH` bytes.
    FormIdTooLong,
    /// The metadata exceeds `Config::MAX_METADATA_LENGTH` bytes.
    MetadataTooLong,
    /// A record for this form identifier already exists.
    FormAlreadyApproved,
    /// The caller lacks the capability the operation demands.
    UnauthorizedAdmin,
    /// The principal is already present in the admin list.
    AdminAlreadyExists,
    /// The principal is not present in the admin list.
    AdminNotFound,
    /// The admin list already holds `Config::MAX_ADMINS` entries.
    MaxAdminsReached,
    /// The form hash is the all-zero value.
    InvalidFormHash,
    /// The admin list holds a single entry, which may not be removed.
    CannotRemoveLastAdmin,
    /// No record exists for this form identifier.
    RecordNotFound,
}

} // verus!
