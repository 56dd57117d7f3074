//! Records of the identity-mapping store: the persisted chat-identity
//! to wallet-identity mapping and the row to insert on first use. The
//! store itself (a database) is driven by the application shell.

use vstd::prelude::*;

verus! {

/// A persisted mapping: chat identity (unique key), external wallet
/// identity, external admin credential, creation timestamp. Created
/// exactly once per chat identity and never mutated.
#[derive(Debug)]
pub struct MatrixId2LNBitsId {
    pub matrix_id: String,
    pub lnbits_id: String,
    pub lnbits_admin: String,
    pub date_created: String,
}

impl MatrixId2LNBitsId {
    /// The wallet identifier this mapping points at.
    pub fn get_lnbits_id(&self) -> (r: LNBitsId)
        ensures
            r.lnbits_id@ == self.lnbits_id@,
    {
        LNBitsId::new(self.lnbits_id.as_str())
    }
}

/// A mapping row to insert.
#[derive(Debug)]
pub struct NewMatrixId2LNBitsId {
    pub matrix_id: String,
    pub lnbits_id: String,
    pub lnbits_admin: String,
    pub date_created: String,
}

impl NewMatrixId2LNBitsId {
    pub fn new(matrix_id: &str, lnbits_id: &str, lnbits_admin: &str, date_created: &str) -> (r:
        NewMatrixId2LNBitsId)
        ensures
            r.matrix_id@ == matrix_id@,
            r.lnbits_id@ == lnbits_id@,
            r.lnbits_admin@ == lnbits_admin@,
            r.date_created@ == date_created@,
    {
        NewMatrixId2LNBitsId {
            matrix_id: String::from_str(matrix_id),
            lnbits_id: String::from_str(lnbits_id),
            lnbits_admin: String::from_str(lnbits_admin),
            date_created: String::from_str(date_created),
        }
    }
}

/// An external wallet-user identifier loaded from the store.
#[derive(Debug)]
pub struct LNBitsId {
    pub lnbits_id: String,
}

impl LNBitsId {
    pub fn new(lnbits_id: &str) -> (r: LNBitsId)
        ensures
            r.lnbits_id@ == lnbits_id@,
    {
        LNBitsId { lnbits_id: String::from_str(lnbits_id) }
    }
}

} // verus!
