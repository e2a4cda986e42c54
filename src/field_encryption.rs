//! Encryptable property values: handles on native encryptable values.

use vstd::prelude::*;
use crate::handle::{NativeRef, RefLedger};

verus! {

/// A property value that the replicator encrypts when it pushes the document.
#[derive(Debug)]
pub struct Encryptable {
    pub cbl_ref: NativeRef,
}

impl Encryptable {
    /// Wraps a native encryptable value with a reference of its own.
    pub fn new(ledger: &mut RefLedger, id: usize) -> (r: Encryptable)
        requires
            old(ledger).is_live(id),
            old(ledger)@[id as int] < u64::MAX,
        ensures
            r.cbl_ref == (NativeRef { id, owned: true }),
            final(ledger)@ == old(ledger)@.update(id as int, (old(ledger)@[id as int] + 1) as u64),
    {
        Encryptable { cbl_ref: ledger.retain(id) }
    }

    /// Wraps the value a native factory call made, taking over its reference.
    pub fn adopt(id: usize) -> (r: Encryptable)
        ensures
            r.cbl_ref == (NativeRef { id, owned: true }),
    {
        Encryptable { cbl_ref: NativeRef { id, owned: true } }
    }

    /// A second wrapper on the same value, with its own reference.
    pub fn clone_with(&self, ledger: &mut RefLedger) -> (r: Encryptable)
        requires
            old(ledger).is_live(self.cbl_ref.id),
            old(ledger)@[self.cbl_ref.id as int] < u64::MAX,
        ensures
            r.cbl_ref == (NativeRef { id: self.cbl_ref.id, owned: true }),
            final(ledger)@ == old(ledger)@.update(
                self.cbl_ref.id as int,
                (old(ledger)@[self.cbl_ref.id as int] + 1) as u64,
            ),
    {
        Encryptable::new(ledger, self.cbl_ref.id)
    }

    /// Drops the wrapper, giving back the reference it owns.
    pub fn release(self, ledger: &mut RefLedger)
        requires
            self.cbl_ref.owned ==> old(ledger).is_live(self.cbl_ref.id),
        ensures
            self.cbl_ref.owned ==> final(ledger)@ == old(ledger)@.update(
                self.cbl_ref.id as int,
                (old(ledger)@[self.cbl_ref.id as int] - 1) as u64,
            ),
            !self.cbl_ref.owned ==> final(ledger)@ == old(ledger)@,
    {
        ledger.release(self.cbl_ref)
    }

    /// The id of the native value.
    pub fn get_ref(&self) -> (r: usize)
        ensures
            r == self.cbl_ref.id,
    {
        self.cbl_ref.id
    }
}

} // verus!
