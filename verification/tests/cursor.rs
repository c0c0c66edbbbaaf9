use rocksdb3::error::ErrorKind;
use rocksdb3::iterator::{RocksDBIterator, SeekReply};
use rocksdb3::order::lex_less;

fn found(key: &[u8], value: &[u8]) -> SeekReply {
    SeekReply::Found {
        key: key.to_vec(),
        value: value.to_vec(),
    }
}

#[test]
fn fresh_cursor_seeks_from_the_empty_key() {
    let c = RocksDBIterator::new();
    assert_eq!(c.seek_bound(), Some(Vec::new()));
}

#[test]
fn cursor_yields_ascending_entries_then_nothing_forever() {
    // two entries in ascending key order, then the end of the keyspace:
    // the cursor yields both pairs, then nothing, permanently
    let mut c = RocksDBIterator::new();
    let p1 = c.advance(found(b"a", b"1")).unwrap().unwrap();
    assert_eq!(p1.0, b"a".to_vec());
    assert_eq!(p1.1, b"1".to_vec());
    assert_eq!(c.seek_bound(), Some(b"a\0".to_vec()));
    let p2 = c.advance(found(b"b", b"2")).unwrap().unwrap();
    assert_eq!(p2.0, b"b".to_vec());
    assert_eq!(p2.1, b"2".to_vec());
    assert_eq!(c.seek_bound(), Some(b"b\0".to_vec()));
    assert!(c.advance(SeekReply::End).unwrap().is_none());
    assert_eq!(c.seek_bound(), None);
    // exhaustion is permanent and not an error, whatever comes later
    assert!(c.advance(SeekReply::End).unwrap().is_none());
    assert!(c.advance(found(b"z", b"9")).unwrap().is_none());
    assert!(c
        .advance(SeekReply::Failed {
            message: "ignored".to_string()
        })
        .unwrap()
        .is_none());
}

#[test]
fn cursor_yields_n_distinct_keys_in_order() {
    // five distinct keys handed over in the engine's ascending order come
    // out as exactly five pairs, in that order, then nothing
    let keys: [&[u8]; 5] = [b"a", b"b", b"c", b"d", b"e"];
    let mut c = RocksDBIterator::new();
    let mut seen: Vec<Vec<u8>> = Vec::new();
    for k in keys.iter() {
        let p = c.advance(found(k, b"v")).unwrap().unwrap();
        seen.push(p.0);
    }
    assert!(c.advance(SeekReply::End).unwrap().is_none());
    assert_eq!(seen.len(), 5);
    for (i, k) in keys.iter().enumerate() {
        assert_eq!(seen[i], k.to_vec());
    }
    assert!(c.advance(SeekReply::End).unwrap().is_none());
}

#[test]
fn cursor_refuses_keys_out_of_ascending_order() {
    let mut c = RocksDBIterator::new();
    c.advance(found(b"m", b"1")).unwrap();
    // an equal key would mean the engine went backwards
    let e = c.advance(found(b"m", b"2")).unwrap_err();
    assert_eq!(e.kind, ErrorKind::InternalError);
    // a smaller key likewise
    let e2 = c.advance(found(b"a", b"3")).unwrap_err();
    assert_eq!(e2.kind, ErrorKind::InternalError);
    // the cursor did not move: a properly later key is still accepted
    let p = c.advance(found(b"n", b"4")).unwrap().unwrap();
    assert_eq!(p.0, b"n".to_vec());
}

#[test]
fn cursor_reports_engine_failure_without_moving() {
    let mut c = RocksDBIterator::new();
    c.advance(found(b"k", b"v")).unwrap();
    let e = c
        .advance(SeekReply::Failed {
            message: "io error".to_string(),
        })
        .unwrap_err();
    assert_eq!(e.kind, ErrorKind::InternalError);
    assert_eq!(e.message, "io error");
    // still positioned on "k": the next seek bound is its successor
    assert_eq!(c.seek_bound(), Some(b"k\0".to_vec()));
}

#[test]
fn seek_bound_is_successor_of_last_key() {
    let mut c = RocksDBIterator::new();
    c.advance(found(b"ab", b"v")).unwrap();
    assert_eq!(c.seek_bound(), Some(b"ab\0".to_vec()));
    // a key that extends the previous one by a zero byte is the immediate
    // successor and must be accepted
    let p = c.advance(found(b"ab\0", b"w")).unwrap().unwrap();
    assert_eq!(p.0, b"ab\0".to_vec());
}

#[test]
fn lex_less_orders_bytewise() {
    assert!(lex_less(&b"a".to_vec(), &b"b".to_vec()));
    assert!(lex_less(&b"a".to_vec(), &b"ab".to_vec()));
    assert!(lex_less(&Vec::new(), &b"a".to_vec()));
    assert!(!lex_less(&b"b".to_vec(), &b"a".to_vec()));
    assert!(!lex_less(&b"ab".to_vec(), &b"a".to_vec()));
    assert!(!lex_less(&b"a".to_vec(), &b"a".to_vec()));
    assert!(!lex_less(&Vec::new(), &Vec::new()));
    assert!(lex_less(&b"a\x01".to_vec(), &b"a\x02".to_vec()));
}
