use vstd::prelude::*;

use crate::model::Timestamp;

verus! {

/// The id of a key that encrypts paging cursors.
#[derive(Debug, Default, Clone, Copy, PartialEq, Eq, Structural, Hash)]
pub struct CursorKeyId(pub i32);

/// A key that encrypts paging cursors.
#[derive(Debug)]
pub struct CursorKey {
    pub id: CursorKeyId,
    pub created_at: Timestamp,
    pub updated_at: Timestamp,
    pub expires_at: Option<Timestamp>,
    pub key_data: Vec<u8>,
}

/// What is needed to create a cursor key.
pub struct CursorKeyCreate {
    pub expires_at: Option<Timestamp>,
}

/// A filter on cursor keys.
pub struct CursorKeyFilter {
    pub expires_at: Option<Timestamp>,
}

} // verus!
