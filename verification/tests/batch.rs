use rocksdb3::error::{ErrorKind, Operation};
use rocksdb3::write_batch::{BatchOp, WriteBatch};

const BATCH_INVALID_MSG: &str = "batch writer is invalid. you need to create new one.";

#[test]
fn new_batch_is_open_and_empty() {
    let mut b = WriteBatch::new();
    let ops = b.consume().unwrap();
    assert!(ops.is_empty());
}

#[test]
fn batch_records_operations_in_order_last_wins_shape() {
    // put(A, "1"), delete(B), put(A, "2"): the pending sequence keeps all
    // three in order; on commit the engine applies them in order, so the
    // later put of A supersedes the earlier one and B ends up absent.
    let mut b = WriteBatch::new();
    b.put(&b"A".to_vec(), &b"1".to_vec()).unwrap();
    b.delete(&b"B".to_vec()).unwrap();
    b.put(&b"A".to_vec(), &b"2".to_vec()).unwrap();
    let ops = b.consume().unwrap();
    assert_eq!(ops.len(), 3);
    match &ops[0] {
        BatchOp::Put { key, value } => {
            assert_eq!(key, &b"A".to_vec());
            assert_eq!(value, &b"1".to_vec());
        }
        other => panic!("first operation has the wrong shape: {:?}", other),
    }
    match &ops[1] {
        BatchOp::Delete { key } => assert_eq!(key, &b"B".to_vec()),
        other => panic!("second operation has the wrong shape: {:?}", other),
    }
    match &ops[2] {
        BatchOp::Put { key, value } => {
            assert_eq!(key, &b"A".to_vec());
            assert_eq!(value, &b"2".to_vec());
        }
        other => panic!("third operation has the wrong shape: {:?}", other),
    }
}

#[test]
fn clear_empties_but_keeps_batch_open() {
    let mut b = WriteBatch::new();
    b.put(&b"k".to_vec(), &b"v".to_vec()).unwrap();
    b.clear().unwrap();
    b.put(&b"k2".to_vec(), &b"v2".to_vec()).unwrap();
    let ops = b.consume().unwrap();
    assert_eq!(ops.len(), 1);
    match &ops[0] {
        BatchOp::Put { key, value } => {
            assert_eq!(key, &b"k2".to_vec());
            assert_eq!(value, &b"v2".to_vec());
        }
        other => panic!("operation has the wrong shape: {:?}", other),
    }
}

#[test]
fn consumed_batch_refuses_put() {
    let mut b = WriteBatch::new();
    b.consume().unwrap();
    let e = b.put(&b"k".to_vec(), &b"v".to_vec()).unwrap_err();
    assert_eq!(e.kind, ErrorKind::BatchInvalid);
    assert_eq!(e.op, Operation::Put);
    assert_eq!(e.message, BATCH_INVALID_MSG);
    assert!(e.subject.is_none());
    assert!(e.attempted.is_none());
}

#[test]
fn consumed_batch_refuses_delete() {
    let mut b = WriteBatch::new();
    b.put(&b"k".to_vec(), &b"v".to_vec()).unwrap();
    b.consume().unwrap();
    let e = b.delete(&b"k".to_vec()).unwrap_err();
    assert_eq!(e.kind, ErrorKind::BatchInvalid);
    assert_eq!(e.op, Operation::Delete);
}

#[test]
fn consumed_batch_refuses_clear() {
    let mut b = WriteBatch::new();
    b.consume().unwrap();
    let e = b.clear().unwrap_err();
    assert_eq!(e.kind, ErrorKind::BatchInvalid);
}

#[test]
fn consumed_batch_refuses_second_consume() {
    let mut b = WriteBatch::new();
    b.put(&b"k".to_vec(), &b"v".to_vec()).unwrap();
    b.consume().unwrap();
    let e = b.consume().unwrap_err();
    assert_eq!(e.kind, ErrorKind::BatchInvalid);
    assert_eq!(e.op, Operation::Write);
    assert_eq!(e.message, BATCH_INVALID_MSG);
}

#[test]
fn batch_stays_consumed_after_failed_commit() {
    // the engine refusing the commit does not revive the batch: the handle
    // reports the failure with the attempted count, and the batch keeps
    // refusing every further use
    let mut b = WriteBatch::new();
    b.put(&b"k".to_vec(), &b"v".to_vec()).unwrap();
    b.delete(&b"g".to_vec()).unwrap();
    let ops = b.consume().unwrap();
    let h = rocksdb3::open_default("store", Ok(())).unwrap();
    let e = h
        .complete_write(ops.len(), Err("disk full".to_string()))
        .unwrap_err();
    assert_eq!(e.kind, ErrorKind::WriteError);
    assert_eq!(e.op, Operation::Write);
    assert_eq!(e.attempted, Some(2));
    assert_eq!(e.message, "disk full");
    let e2 = b.put(&b"k".to_vec(), &b"v".to_vec()).unwrap_err();
    assert_eq!(e2.kind, ErrorKind::BatchInvalid);
}
