//! What a generated request handler does with each request envelope: which
//! manager call it makes, or why it rejects the request before any call.
use vstd::prelude::*;
use crate::schema::ObjectKind;

verus! {

/// A request envelope, reduced to what the handler checks: which optional
/// fields are present and the non-recursive flag.
#[derive(Clone, Copy, PartialEq, Eq, Structural, Debug)]
pub enum Envelope {
    List { parent_id: bool },
    Create { parent_id: bool, after: bool },
    CreateBatch { parent_id: bool, after: bool },
    Read,
    ReadBatch,
    Update,
    Delete { non_recursive: bool },
    DeleteBatch { non_recursive: bool },
    DeleteAll { parent_id: bool, non_recursive: bool },
    ReplaceAll { parent_id: bool },
}

/// The manager call a request is forwarded to. `under_parent` marks calls
/// made against a placeholder parent built from the request's parent
/// identifier.
#[derive(Clone, Copy, PartialEq, Eq, Structural, Debug)]
pub enum Call {
    List { under_parent: bool },
    Add { under_parent: bool, after: bool },
    BatchAdd { under_parent: bool, after: bool },
    Get,
    /// One `get` per identifier, all awaited together.
    GetEach,
    Update,
    Delete,
    DeleteRecursive,
    DeleteNonRecursive,
    BatchDelete,
    BatchDeleteNonRecursive,
    DeleteAll { under_parent: bool },
    DeleteAllNonRecursive,
    ReplaceAll,
}

/// Why a request is rejected as invalid before any manager call.
#[derive(Clone, Copy, PartialEq, Eq, Structural, Debug)]
pub enum Rejection {
    /// A parent identifier was given to an operation on a root object.
    ParentIdForbidden,
    /// No parent identifier was given to an operation on an owned object.
    ParentIdRequired,
    /// An ordering cursor was given where the collection is unordered.
    AfterForbidden,
    /// A bulk delete on an object with children lacks `non_recursive`.
    NonRecursiveRequired,
    /// The operation does not exist for this object.
    NotSupported,
    /// An item-level operation on a batch collection.
    NotSupportedForBatch,
}

/// The kinds that get a request handler: the collections.
pub open spec fn has_handler(kind: ObjectKind) -> bool {
    match kind {
        ObjectKind::Root | ObjectKind::OrderedChild | ObjectKind::UnorderedChild | ObjectKind::Batch => true,
        _ => false,
    }
}

/// Read, update and single/batch delete, which every non-batch collection
/// handles alike.
pub open spec fn item_plan(has_children: bool, req: Envelope) -> Result<Call, Rejection> {
    match req {
        Envelope::Read => Ok(Call::Get),
        Envelope::ReadBatch => Ok(Call::GetEach),
        Envelope::Update => Ok(Call::Update),
        Envelope::Delete { non_recursive } => if !has_children {
            Ok(Call::Delete)
        } else if non_recursive {
            Ok(Call::DeleteNonRecursive)
        } else {
            Ok(Call::DeleteRecursive)
        },
        Envelope::DeleteBatch { non_recursive } => if !has_children {
            Ok(Call::BatchDelete)
        } else if non_recursive {
            Ok(Call::BatchDeleteNonRecursive)
        } else {
            Err(Rejection::NonRecursiveRequired)
        },
        _ => Err(Rejection::NotSupported),
    }
}

pub open spec fn root_plan(has_children: bool, req: Envelope) -> Result<Call, Rejection> {
    match req {
        Envelope::List { parent_id } => if parent_id {
            Err(Rejection::ParentIdForbidden)
        } else {
            Ok(Call::List { under_parent: false })
        },
        Envelope::Create { parent_id, after } => if parent_id {
            Err(Rejection::ParentIdForbidden)
        } else if after {
            Err(Rejection::AfterForbidden)
        } else {
            Ok(Call::Add { under_parent: false, after: false })
        },
        Envelope::CreateBatch { parent_id, after } => if parent_id {
            Err(Rejection::ParentIdForbidden)
        } else if after {
            Err(Rejection::AfterForbidden)
        } else {
            Ok(Call::BatchAdd { under_parent: false, after: false })
        },
        Envelope::DeleteAll { parent_id, non_recursive } => if parent_id {
            Err(Rejection::ParentIdForbidden)
        } else if !has_children {
            Ok(Call::DeleteAll { under_parent: false })
        } else if non_recursive {
            Ok(Call::DeleteAllNonRecursive)
        } else {
            Err(Rejection::NonRecursiveRequired)
        },
        Envelope::ReplaceAll { parent_id } => if parent_id {
            Err(Rejection::ParentIdForbidden)
        } else {
            Err(Rejection::NotSupported)
        },
        _ => item_plan(has_children, req),
    }
}

pub open spec fn child_plan(ordered: bool, has_children: bool, req: Envelope) -> Result<Call, Rejection> {
    match req {
        Envelope::List { parent_id } => if !parent_id {
            Err(Rejection::ParentIdRequired)
        } else {
            Ok(Call::List { under_parent: true })
        },
        Envelope::Create { parent_id, after } => if !parent_id {
            Err(Rejection::ParentIdRequired)
        } else if after && !ordered {
            Err(Rejection::AfterForbidden)
        } else {
            Ok(Call::Add { under_parent: true, after })
        },
        Envelope::CreateBatch { parent_id, after } => if !parent_id {
            Err(Rejection::ParentIdRequired)
        } else if after && !ordered {
            Err(Rejection::AfterForbidden)
        } else {
            Ok(Call::BatchAdd { under_parent: true, after })
        },
        Envelope::DeleteAll { parent_id, non_recursive: _ } => if !parent_id {
            Err(Rejection::ParentIdRequired)
        } else {
            Err(Rejection::NotSupported)
        },
        Envelope::ReplaceAll { parent_id } => if !parent_id {
            Err(Rejection::ParentIdRequired)
        } else {
            Err(Rejection::NotSupported)
        },
        _ => item_plan(has_children, req),
    }
}

pub open spec fn batch_plan(req: Envelope) -> Result<Call, Rejection> {
    match req {
        Envelope::List { parent_id } => if !parent_id {
            Err(Rejection::ParentIdRequired)
        } else {
            Ok(Call::List { under_parent: true })
        },
        Envelope::DeleteAll { parent_id, non_recursive: _ } => if !parent_id {
            Err(Rejection::ParentIdRequired)
        } else {
            Ok(Call::DeleteAll { under_parent: true })
        },
        Envelope::ReplaceAll { parent_id } => if !parent_id {
            Err(Rejection::ParentIdRequired)
        } else {
            Ok(Call::ReplaceAll)
        },
        _ => Err(Rejection::NotSupportedForBatch),
    }
}

/// What the handler of an object of kind `kind` does with `req`.
pub open spec fn plan(kind: ObjectKind, has_children: bool, req: Envelope) -> Result<Call, Rejection> {
    match kind {
        ObjectKind::Root => root_plan(has_children, req),
        ObjectKind::OrderedChild => child_plan(true, has_children, req),
        ObjectKind::UnorderedChild => child_plan(false, has_children, req),
        _ => batch_plan(req),
    }
}

fn item_plan_of(has_children: bool, req: Envelope) -> (r: Result<Call, Rejection>)
    ensures
        r == item_plan(has_children, req),
{
    match req {
        Envelope::Read => Ok(Call::Get),
        Envelope::ReadBatch => Ok(Call::GetEach),
        Envelope::Update => Ok(Call::Update),
        Envelope::Delete { non_recursive } => if !has_children {
            Ok(Call::Delete)
        } else if non_recursive {
            Ok(Call::DeleteNonRecursive)
        } else {
            Ok(Call::DeleteRecursive)
        },
        Envelope::DeleteBatch { non_recursive } => if !has_children {
            Ok(Call::BatchDelete)
        } else if non_recursive {
            Ok(Call::BatchDeleteNonRecursive)
        } else {
            Err(Rejection::NonRecursiveRequired)
        },
        _ => Err(Rejection::NotSupported),
    }
}

/// Decides what the handler of an object of kind `kind` does with a request:
/// the checks on parent identifier, cursor and non-recursive flag come
/// before any call, and a rejected request makes none.
pub fn plan_request(kind: ObjectKind, has_children: bool, req: Envelope) -> (r: Result<Call, Rejection>)
    requires
        has_handler(kind),
    ensures
        r == plan(kind, has_children, req),
{
    match kind {
        ObjectKind::Root => match req {
            Envelope::List { parent_id } => if parent_id {
                Err(Rejection::ParentIdForbidden)
            } else {
                Ok(Call::List { under_parent: false })
            },
            Envelope::Create { parent_id, after } => if parent_id {
                Err(Rejection::ParentIdForbidden)
            } else if after {
                Err(Rejection::AfterForbidden)
            } else {
                Ok(Call::Add { under_parent: false, after: false })
            },
            Envelope::CreateBatch { parent_id, after } => if parent_id {
                Err(Rejection::ParentIdForbidden)
            } else if after {
                Err(Rejection::AfterForbidden)
            } else {
                Ok(Call::BatchAdd { under_parent: false, after: false })
            },
            Envelope::DeleteAll { parent_id, non_recursive } => if parent_id {
                Err(Rejection::ParentIdForbidden)
            } else if !has_children {
                Ok(Call::DeleteAll { under_parent: false })
            } else if non_recursive {
                Ok(Call::DeleteAllNonRecursive)
            } else {
                Err(Rejection::NonRecursiveRequired)
            },
            Envelope::ReplaceAll { parent_id } => if parent_id {
                Err(Rejection::ParentIdForbidden)
            } else {
                Err(Rejection::NotSupported)
            },
            _ => item_plan_of(has_children, req),
        },
        ObjectKind::OrderedChild | ObjectKind::UnorderedChild => {
            let ordered = match kind {
                ObjectKind::OrderedChild => true,
                _ => false,
            };
            match req {
                Envelope::List { parent_id } => if !parent_id {
                    Err(Rejection::ParentIdRequired)
                } else {
                    Ok(Call::List { under_parent: true })
                },
                Envelope::Create { parent_id, after } => if !parent_id {
                    Err(Rejection::ParentIdRequired)
                } else if after && !ordered {
                    Err(Rejection::AfterForbidden)
                } else {
                    Ok(Call::Add { under_parent: true, after })
                },
                Envelope::CreateBatch { parent_id, after } => if !parent_id {
                    Err(Rejection::ParentIdRequired)
                } else if after && !ordered {
                    Err(Rejection::AfterForbidden)
                } else {
                    Ok(Call::BatchAdd { under_parent: true, after })
                },
                Envelope::DeleteAll { parent_id, non_recursive: _ } => if !parent_id {
                    Err(Rejection::ParentIdRequired)
                } else {
                    Err(Rejection::NotSupported)
                },
                Envelope::ReplaceAll { parent_id } => if !parent_id {
                    Err(Rejection::ParentIdRequired)
                } else {
                    Err(Rejection::NotSupported)
                },
                _ => item_plan_of(has_children, req),
            }
        },
        _ => match req {
            Envelope::List { parent_id } => if !parent_id {
                Err(Rejection::ParentIdRequired)
            } else {
                Ok(Call::List { under_parent: true })
            },
            Envelope::DeleteAll { parent_id, non_recursive: _ } => if !parent_id {
                Err(Rejection::ParentIdRequired)
            } else {
                Ok(Call::DeleteAll { under_parent: true })
            },
            Envelope::ReplaceAll { parent_id } => if !parent_id {
                Err(Rejection::ParentIdRequired)
            } else {
                Ok(Call::ReplaceAll)
            },
            _ => Err(Rejection::NotSupportedForBatch),
        },
    }
}

/// The envelopes that name a collection as a whole and so say whether they
/// carry a parent identifier.
pub open spec fn collection_level(req: Envelope) -> bool {
    match req {
        Envelope::List { .. } | Envelope::Create { .. } | Envelope::CreateBatch { .. }
        | Envelope::DeleteAll { .. } | Envelope::ReplaceAll { .. } => true,
        _ => false,
    }
}

pub open spec fn carries_parent_id(req: Envelope) -> bool {
    match req {
        Envelope::List { parent_id } => parent_id,
        Envelope::Create { parent_id, .. } => parent_id,
        Envelope::CreateBatch { parent_id, .. } => parent_id,
        Envelope::DeleteAll { parent_id, .. } => parent_id,
        Envelope::ReplaceAll { parent_id } => parent_id,
        _ => false,
    }
}

/// A root object's handler rejects every collection-level request that
/// carries a parent identifier as invalid, before any manager call.
pub proof fn lemma_root_forbids_parent_id(has_children: bool, req: Envelope)
    requires
        collection_level(req),
        carries_parent_id(req),
    ensures
        plan(ObjectKind::Root, has_children, req) == Err::<Call, Rejection>(Rejection::ParentIdForbidden),
{
}

/// The handler of a child or batch object rejects every collection-level
/// request that lacks a parent identifier, before any manager call (a
/// batch object's create requests are not supported at all).
pub proof fn lemma_owned_requires_parent_id(kind: ObjectKind, has_children: bool, req: Envelope)
    requires
        kind == ObjectKind::OrderedChild || kind == ObjectKind::UnorderedChild || (kind
            == ObjectKind::Batch && !item_level(req)),
        collection_level(req),
        !carries_parent_id(req),
    ensures
        plan(kind, has_children, req) == Err::<Call, Rejection>(Rejection::ParentIdRequired),
{
}

/// The item-level envelopes: one record or a list of records by identifier.
pub open spec fn item_level(req: Envelope) -> bool {
    match req {
        Envelope::Create { .. } | Envelope::CreateBatch { .. } | Envelope::Read | Envelope::ReadBatch
        | Envelope::Update | Envelope::Delete { .. } | Envelope::DeleteBatch { .. } => true,
        _ => false,
    }
}

/// A batch object's handler rejects every item-level request as not
/// supported for a batch collection, whatever else the request holds.
pub proof fn lemma_batch_rejects_item_operations(has_children: bool, req: Envelope)
    requires
        item_level(req),
    ensures
        plan(ObjectKind::Batch, has_children, req) == Err::<Call, Rejection>(Rejection::NotSupportedForBatch),
{
}

/// On a collection with children, a bulk delete (batch or all) without the
/// non-recursive flag never cascades: it is rejected or unsupported.
pub proof fn lemma_bulk_delete_needs_flag(kind: ObjectKind, req: Envelope)
    requires
        kind == ObjectKind::Root || kind == ObjectKind::OrderedChild || kind == ObjectKind::UnorderedChild,
        req == (Envelope::DeleteBatch { non_recursive: false }) || req == (Envelope::DeleteAll {
            parent_id: kind != ObjectKind::Root,
            non_recursive: false,
        }),
    ensures
        plan(kind, true, req) is Err,
{
}

} // verus!
