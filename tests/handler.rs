use crud_schema::handler::{plan_request, Call, Envelope, Rejection};
use crud_schema::schema::ObjectKind;

#[test]
fn root_list_with_parent_id_is_invalid() {
    for has_children in [false, true] {
        assert_eq!(
            plan_request(ObjectKind::Root, has_children, Envelope::List { parent_id: true }),
            Err(Rejection::ParentIdForbidden)
        );
    }
    assert_eq!(
        plan_request(ObjectKind::Root, false, Envelope::List { parent_id: false }),
        Ok(Call::List { under_parent: false })
    );
}

#[test]
fn batch_create_is_not_supported() {
    for parent_id in [false, true] {
        for after in [false, true] {
            assert_eq!(
                plan_request(ObjectKind::Batch, false, Envelope::Create { parent_id, after }),
                Err(Rejection::NotSupportedForBatch)
            );
        }
    }
    for req in [
        Envelope::Read,
        Envelope::ReadBatch,
        Envelope::Update,
        Envelope::Delete { non_recursive: true },
        Envelope::DeleteBatch { non_recursive: true },
        Envelope::CreateBatch { parent_id: true, after: false },
    ] {
        assert_eq!(plan_request(ObjectKind::Batch, false, req), Err(Rejection::NotSupportedForBatch));
    }
}

#[test]
fn batch_collection_operations() {
    let k = ObjectKind::Batch;
    assert_eq!(plan_request(k, false, Envelope::List { parent_id: true }), Ok(Call::List { under_parent: true }));
    assert_eq!(plan_request(k, false, Envelope::List { parent_id: false }), Err(Rejection::ParentIdRequired));
    assert_eq!(
        plan_request(k, false, Envelope::DeleteAll { parent_id: true, non_recursive: false }),
        Ok(Call::DeleteAll { under_parent: true })
    );
    assert_eq!(plan_request(k, false, Envelope::ReplaceAll { parent_id: true }), Ok(Call::ReplaceAll));
    assert_eq!(plan_request(k, false, Envelope::ReplaceAll { parent_id: false }), Err(Rejection::ParentIdRequired));
}

#[test]
fn children_require_parent_id() {
    for k in [ObjectKind::OrderedChild, ObjectKind::UnorderedChild] {
        assert_eq!(plan_request(k, false, Envelope::List { parent_id: false }), Err(Rejection::ParentIdRequired));
        assert_eq!(
            plan_request(k, false, Envelope::Create { parent_id: false, after: false }),
            Err(Rejection::ParentIdRequired)
        );
        assert_eq!(
            plan_request(k, false, Envelope::CreateBatch { parent_id: false, after: false }),
            Err(Rejection::ParentIdRequired)
        );
        assert_eq!(
            plan_request(k, true, Envelope::DeleteAll { parent_id: false, non_recursive: true }),
            Err(Rejection::ParentIdRequired)
        );
        assert_eq!(
            plan_request(k, true, Envelope::DeleteAll { parent_id: true, non_recursive: true }),
            Err(Rejection::NotSupported)
        );
        assert_eq!(plan_request(k, false, Envelope::ReplaceAll { parent_id: true }), Err(Rejection::NotSupported));
    }
}

#[test]
fn ordering_cursor() {
    assert_eq!(
        plan_request(ObjectKind::OrderedChild, false, Envelope::Create { parent_id: true, after: true }),
        Ok(Call::Add { under_parent: true, after: true })
    );
    assert_eq!(
        plan_request(ObjectKind::UnorderedChild, false, Envelope::Create { parent_id: true, after: true }),
        Err(Rejection::AfterForbidden)
    );
    assert_eq!(
        plan_request(ObjectKind::UnorderedChild, false, Envelope::CreateBatch { parent_id: true, after: false }),
        Ok(Call::BatchAdd { under_parent: true, after: false })
    );
    assert_eq!(
        plan_request(ObjectKind::Root, false, Envelope::Create { parent_id: false, after: true }),
        Err(Rejection::AfterForbidden)
    );
}

#[test]
fn deletes_on_objects_with_children() {
    let k = ObjectKind::Root;
    assert_eq!(plan_request(k, true, Envelope::Delete { non_recursive: false }), Ok(Call::DeleteRecursive));
    assert_eq!(plan_request(k, true, Envelope::Delete { non_recursive: true }), Ok(Call::DeleteNonRecursive));
    assert_eq!(
        plan_request(k, true, Envelope::DeleteBatch { non_recursive: false }),
        Err(Rejection::NonRecursiveRequired)
    );
    assert_eq!(
        plan_request(k, true, Envelope::DeleteBatch { non_recursive: true }),
        Ok(Call::BatchDeleteNonRecursive)
    );
    assert_eq!(
        plan_request(k, true, Envelope::DeleteAll { parent_id: false, non_recursive: false }),
        Err(Rejection::NonRecursiveRequired)
    );
    assert_eq!(
        plan_request(k, true, Envelope::DeleteAll { parent_id: false, non_recursive: true }),
        Ok(Call::DeleteAllNonRecursive)
    );
    assert_eq!(
        plan_request(k, true, Envelope::DeleteAll { parent_id: true, non_recursive: true }),
        Err(Rejection::ParentIdForbidden)
    );
}

#[test]
fn deletes_on_leaves_and_reads() {
    let k = ObjectKind::OrderedChild;
    assert_eq!(plan_request(k, false, Envelope::Delete { non_recursive: true }), Ok(Call::Delete));
    assert_eq!(plan_request(k, false, Envelope::DeleteBatch { non_recursive: false }), Ok(Call::BatchDelete));
    assert_eq!(plan_request(k, false, Envelope::Read), Ok(Call::Get));
    assert_eq!(plan_request(k, false, Envelope::ReadBatch), Ok(Call::GetEach));
    assert_eq!(plan_request(k, false, Envelope::Update), Ok(Call::Update));
    assert_eq!(
        plan_request(ObjectKind::Root, false, Envelope::DeleteAll { parent_id: false, non_recursive: false }),
        Ok(Call::DeleteAll { under_parent: false })
    );
}

#[test]
fn root_replace_all_checks_parent_first() {
    assert_eq!(
        plan_request(ObjectKind::Root, false, Envelope::ReplaceAll { parent_id: true }),
        Err(Rejection::ParentIdForbidden)
    );
    assert_eq!(
        plan_request(ObjectKind::Root, false, Envelope::ReplaceAll { parent_id: false }),
        Err(Rejection::NotSupported)
    );
}
