use slang::create_global_session;
use slang::uuid::blob_iid;
use slang::uuid::global_session_iid;
use slang::uuid::unknown_iid;
use slang::uuid::writer_iid;
use slang::GlobalSessionDesc;
use slang::Host;

#[test]
fn create_object_starts_with_one_reference() {
    let mut host = Host::new();
    let h = host.create_object(vec![unknown_iid()], Vec::new());
    assert_eq!(host.reference_count(&h), 1);
}

#[test]
fn clone_then_release_both_returns_to_one_below_pre_clone_count() {
    let mut host = Host::new();
    let original = host.create_object(vec![unknown_iid()], Vec::new());
    let before_clone = host.reference_count(&original);
    assert_eq!(before_clone, 1);

    let clone = host.clone_handle(&original);
    assert_eq!(host.reference_count(&original), 2);

    let probe = slang::Handle { obj: original.obj };
    host.release(clone);
    assert_eq!(host.reference_count(&probe), before_clone);

    host.release(original);
    assert_eq!(host.reference_count(&probe), before_clone - 1);
    assert_eq!(host.reference_count(&probe), 0);
}

#[test]
fn add_ref_returns_new_count() {
    let mut host = Host::new();
    let h = host.create_object(vec![unknown_iid()], Vec::new());
    assert_eq!(host.add_ref(&h), 2);
    assert_eq!(host.add_ref(&h), 3);
    assert_eq!(host.reference_count(&h), 3);
}

#[test]
fn query_interface_supported_returns_owned_handle() {
    let mut host = Host::new();
    let h = host.create_object(vec![unknown_iid(), blob_iid()], Vec::new());
    let q = host.query_interface(&h, &blob_iid());
    let q = q.expect("supported identifier must be found");
    assert_eq!(q.obj, h.obj);
    assert_eq!(host.reference_count(&h), 2);
}

#[test]
fn query_interface_unsupported_reports_negative_code() {
    let mut host = Host::new();
    let h = host.create_object(vec![unknown_iid()], Vec::new());
    match host.query_interface(&h, &writer_iid()) {
        Ok(_) => panic!("an unsupported identifier must not be found"),
        Err(code) => assert!(code < 0),
    }
    assert_eq!(host.reference_count(&h), 1);
}

#[test]
fn clone_cast_unsupported_is_absent_not_a_failure() {
    let mut host = Host::new();
    let h = host.create_object(vec![unknown_iid()], Vec::new());
    assert!(host.clone_cast(&h, &writer_iid()).is_none());
    assert_eq!(host.reference_count(&h), 1);
}

#[test]
fn clone_cast_supported_is_present_and_counted() {
    let mut host = Host::new();
    let h = host.create_object(vec![unknown_iid(), blob_iid()], Vec::new());
    let c = host.clone_cast(&h, &blob_iid()).expect("supported identifier must cast");
    assert_eq!(c.obj, h.obj);
    assert_eq!(host.reference_count(&h), 2);
}

#[test]
fn cast_as_borrows_without_counting() {
    let mut host = Host::new();
    let h = host.create_object(vec![unknown_iid(), blob_iid()], Vec::new());
    assert_eq!(host.cast_as(&h, &blob_iid()), Some(h.obj));
    assert_eq!(host.cast_as(&h, &writer_iid()), None);
    assert_eq!(host.reference_count(&h), 1);
}

#[test]
fn blob_accessors_read_the_owned_bytes() {
    let mut host = Host::new();
    let bytes = vec![3u8, 1, 4, 1, 5];
    let h = host.create_object(vec![unknown_iid(), blob_iid()], bytes.clone());
    assert_eq!(host.blob_size(&h), 5);
    assert_eq!(host.blob_bytes(&h), &bytes);
}

#[test]
fn global_session_bootstrap_succeeds_on_agreed_description() {
    let mut host = Host::new();
    let desc = GlobalSessionDesc::default();
    let h = create_global_session(&mut host, &desc).expect("agreed description must be accepted");
    assert_eq!(host.reference_count(&h), 1);
    assert_eq!(host.cast_as(&h, &global_session_iid()), Some(h.obj));
    assert_eq!(host.cast_as(&h, &unknown_iid()), Some(h.obj));
    assert_eq!(host.cast_as(&h, &blob_iid()), None);
}

#[test]
fn global_session_bootstrap_rejects_version_skew() {
    let mut host = Host::new();
    let mut desc = GlobalSessionDesc::default();
    desc.structure_size = 12;
    match create_global_session(&mut host, &desc) {
        Ok(_) => panic!("a skewed description must be rejected"),
        Err(code) => assert!(code < 0),
    }
    assert_eq!(host.objects.len(), 0);
}

#[test]
fn global_session_bootstrap_rejects_foreign_api_version() {
    let mut host = Host::new();
    let mut desc = GlobalSessionDesc::default();
    desc.api_version = 7;
    match create_global_session(&mut host, &desc) {
        Ok(_) => panic!("a foreign ABI version must be rejected"),
        Err(code) => assert!(code < 0),
    }
    assert_eq!(host.objects.len(), 0);
}

#[test]
fn uuid_equality_is_by_all_four_components() {
    let a = unknown_iid();
    let b = unknown_iid();
    assert_eq!(a, b);
    assert_ne!(unknown_iid(), blob_iid());
    let mut c = blob_iid();
    c.data4[7] = 0xff;
    assert_ne!(c, blob_iid());
}
