//! Collections and scopes: handles, and the translation of the native calls
//! that look them up or list their names.

use vstd::prelude::*;
use crate::c_api::CBLError;
use crate::error::{check_error, error_of, CblResult, Error};
use crate::handle::{NativeRef, RefLedger};

verus! {

/// The name of the default scope and of the default collection.
pub const DEFAULT_NAME: &'static str = "_default";

/// A collection of documents in a database.
#[derive(Debug)]
pub struct Collection {
    pub cbl_ref: NativeRef,
}

/// A scope: a namespace of collections.
#[derive(Debug)]
pub struct Scope {
    pub cbl_ref: NativeRef,
}

/// What a native lookup that may find nothing reports: its error, else the
/// object found (with a reference of its own), else nothing.
pub open spec fn optional_outcome(found: Option<usize>, err: CBLError) -> CblResult<Option<NativeRef>> {
    if err.code != 0 {
        Err(error_of(err))
    } else {
        match found {
            Some(id) => Ok(Some(NativeRef { id, owned: true })),
            None => Ok(None),
        }
    }
}

/// The ledger after a lookup: a found object gained one reference when the
/// call reported no error.
pub open spec fn ledger_after_lookup(before: Seq<u64>, found: Option<usize>, err: CBLError) -> Seq<u64> {
    match found {
        Some(id) => if err.code == 0 {
            before.update(id as int, (before[id as int] + 1) as u64)
        } else {
            before
        },
        None => before,
    }
}

/// Translates a native lookup, retaining the object found.
fn retained_lookup(found: Option<usize>, err: &CBLError, ledger: &mut RefLedger) -> (r: CblResult<Option<NativeRef>>)
    requires
        found matches Some(id) ==> old(ledger).is_live(id) && old(ledger)@[id as int] < u64::MAX,
    ensures
        r == optional_outcome(found, *err),
        final(ledger)@ == ledger_after_lookup(old(ledger)@, found, *err),
{
    match check_error(err) {
        Err(e) => Err(e),
        Ok(()) => match found {
            Some(id) => Ok(Some(ledger.retain(id))),
            None => Ok(None),
        },
    }
}

impl Collection {
    /// Wraps a native collection with a reference of its own.
    pub fn retain(ledger: &mut RefLedger, id: usize) -> (r: Collection)
        requires
            old(ledger).is_live(id),
            old(ledger)@[id as int] < u64::MAX,
        ensures
            r.cbl_ref == (NativeRef { id, owned: true }),
            final(ledger)@ == old(ledger)@.update(id as int, (old(ledger)@[id as int] + 1) as u64),
    {
        Collection { cbl_ref: ledger.retain(id) }
    }

    /// The id of the native collection.
    pub fn get_ref(&self) -> (r: usize)
        ensures
            r == self.cbl_ref.id,
    {
        self.cbl_ref.id
    }

    /// The result of looking up a collection that may not exist.
    pub fn lookup_result(found: Option<usize>, err: &CBLError, ledger: &mut RefLedger) -> (r:
        CblResult<Option<Collection>>)
        requires
            found matches Some(id) ==> old(ledger).is_live(id) && old(ledger)@[id as int]
                < u64::MAX,
        ensures
            r matches Ok(Some(c)) ==> optional_outcome(found, *err) == Ok::<Option<NativeRef>, Error>(Some(c.cbl_ref)),
            r matches Ok(None) ==> optional_outcome(found, *err) == Ok::<Option<NativeRef>, Error>(None),
            r matches Err(e) ==> optional_outcome(found, *err) == Err::<Option<NativeRef>, Error>(e),
            final(ledger)@ == ledger_after_lookup(old(ledger)@, found, *err),
    {
        match retained_lookup(found, err, ledger) {
            Err(e) => Err(e),
            Ok(None) => Ok(None),
            Ok(Some(cbl_ref)) => Ok(Some(Collection { cbl_ref })),
        }
    }

    /// The result of a call that returns a collection unless it reports an
    /// error: creating one (or getting the one that exists), or getting the
    /// default collection.
    pub fn required_result(created: usize, err: &CBLError, ledger: &mut RefLedger) -> (r: CblResult<Collection>)
        requires
            err.code == 0 ==> old(ledger).is_live(created) && old(ledger)@[created as int] < u64::MAX,
        ensures
            err.code != 0 ==> (r matches Err(e) && e == error_of(*err)),
            err.code == 0 ==> (r matches Ok(c) && c.cbl_ref == (NativeRef { id: created, owned: true })),
            final(ledger)@ == ledger_after_lookup(old(ledger)@, Some(created), *err),
    {
        match check_error(err) {
            Err(e) => Err(e),
            Ok(()) => Ok(Collection::retain(ledger, created)),
        }
    }
}

impl Scope {
    /// Wraps a native scope with a reference of its own.
    pub fn retain(ledger: &mut RefLedger, id: usize) -> (r: Scope)
        requires
            old(ledger).is_live(id),
            old(ledger)@[id as int] < u64::MAX,
        ensures
            r.cbl_ref == (NativeRef { id, owned: true }),
            final(ledger)@ == old(ledger)@.update(id as int, (old(ledger)@[id as int] + 1) as u64),
    {
        Scope { cbl_ref: ledger.retain(id) }
    }

    /// The id of the native scope.
    pub fn get_ref(&self) -> (r: usize)
        ensures
            r == self.cbl_ref.id,
    {
        self.cbl_ref.id
    }

    /// The result of looking up a scope that may not exist.
    pub fn lookup_result(found: Option<usize>, err: &CBLError, ledger: &mut RefLedger) -> (r:
        CblResult<Option<Scope>>)
        requires
            found matches Some(id) ==> old(ledger).is_live(id) && old(ledger)@[id as int]
                < u64::MAX,
        ensures
            r matches Ok(Some(s)) ==> optional_outcome(found, *err) == Ok::<Option<NativeRef>, Error>(Some(s.cbl_ref)),
            r matches Ok(None) ==> optional_outcome(found, *err) == Ok::<Option<NativeRef>, Error>(None),
            r matches Err(e) ==> optional_outcome(found, *err) == Err::<Option<NativeRef>, Error>(e),
            final(ledger)@ == ledger_after_lookup(old(ledger)@, found, *err),
    {
        match retained_lookup(found, err, ledger) {
            Err(e) => Err(e),
            Ok(None) => Ok(None),
            Ok(Some(cbl_ref)) => Ok(Some(Scope { cbl_ref })),
        }
    }

    /// The result of a call that returns a scope unless it reports an error,
    /// such as getting the default scope.
    pub fn required_result(found: usize, err: &CBLError, ledger: &mut RefLedger) -> (r: CblResult<Scope>)
        requires
            err.code == 0 ==> old(ledger).is_live(found) && old(ledger)@[found as int] < u64::MAX,
        ensures
            err.code != 0 ==> (r matches Err(e) && e == error_of(*err)),
            err.code == 0 ==> (r matches Ok(s) && s.cbl_ref == (NativeRef { id: found, owned: true })),
            final(ledger)@ == ledger_after_lookup(old(ledger)@, Some(found), *err),
    {
        match check_error(err) {
            Err(e) => Err(e),
            Ok(()) => Ok(Scope::retain(ledger, found)),
        }
    }
}

/// A name as listed: the name, or the empty string for an entry that is not
/// a string.
pub open spec fn listed_name(v: Option<String>) -> Seq<char> {
    match v {
        Some(s) => s@,
        None => Seq::empty(),
    }
}

/// The names of a native array of names, in order, with an empty string for
/// each entry that is not a string.
pub fn names_from_values(values: &Vec<Option<String>>) -> (r: Vec<String>)
    ensures
        r@.len() == values@.len(),
        forall|i: int| 0 <= i < r@.len() ==> #[trigger] r@[i]@ == listed_name(values@[i]),
{
    let mut names: Vec<String> = Vec::new();
    let mut i: usize = 0;
    while i < values.len()
        invariant
            i <= values@.len(),
            names@.len() == i,
            forall|j: int| 0 <= j < i ==> #[trigger] names@[j]@ == listed_name(values@[j]),
        decreases values@.len() - i,
    {
        let name = match &values[i] {
            Some(s) => s.clone(),
            None => String::new(),
        };
        names.push(name);
        i = i + 1;
    }
    names
}

/// The names listed by a native call that reports its error separately.
pub fn names_result(values: &Vec<Option<String>>, err: &CBLError) -> (r: CblResult<Vec<String>>)
    ensures
        err.code != 0 ==> (r matches Err(e) && e == error_of(*err)),
        err.code == 0 ==> (r matches Ok(names) && names@.len() == values@.len() && forall|i: int|
            0 <= i < names@.len() ==> #[trigger] names@[i]@ == listed_name(values@[i])),
{
    match check_error(err) {
        Err(e) => Err(e),
        Ok(()) => Ok(names_from_values(values)),
    }
}

/// The entries that are present, in order.
pub open spec fn present(values: Seq<Option<String>>) -> Seq<Seq<char>>
    decreases values.len(),
{
    if values.len() == 0 {
        Seq::empty()
    } else {
        let rest = present(values.drop_last());
        match values.last() {
            Some(s) => rest.push(s@),
            None => rest,
        }
    }
}

/// The ids of the documents a change notification names: each id that reads
/// as a string, in order; the others are left out.
pub fn changed_document_ids(values: &Vec<Option<String>>) -> (r: Vec<String>)
    ensures
        r@.len() == present(values@).len(),
        forall|i: int| 0 <= i < r@.len() ==> #[trigger] r@[i]@ == present(values@)[i],
{
    let mut ids: Vec<String> = Vec::new();
    let mut i: usize = 0;
    while i < values.len()
        invariant
            i <= values@.len(),
            ids@.len() == present(values@.subrange(0, i as int)).len(),
            forall|j: int|
                0 <= j < ids@.len() ==> #[trigger] ids@[j]@ == present(values@.subrange(0, i as int))[j],
        decreases values@.len() - i,
    {
        let ghost prefix = values@.subrange(0, i as int);
        let ghost next = values@.subrange(0, i as int + 1);
        assert(next.drop_last() =~= prefix);
        assert(next.last() == values@[i as int]);
        match &values[i] {
            Some(s) => ids.push(s.clone()),
            None => {},
        }
        i = i + 1;
    }
    assert(values@.subrange(0, values@.len() as int) =~= values@);
    ids
}

} // verus!
