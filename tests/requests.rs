use std::time::Duration;

use couchbase::{
    contains_nul, encode_key, key_has_nul, native_timeout, Command, Completion, EncodeError,
    GetOptions, GetRequest, GetResult, InsertOptions, InsertRequest, InstanceRequest,
    MutationResult, RemoveOptions, RemoveRequest, ReplaceRequest, StoreOperation, UpsertOptions,
    UpsertRequest,
};
use futures::sync::oneshot::channel;
use futures::Future;

#[test]
fn get_encodes_key_without_timeout() {
    let (tx, _rx) = channel::<Option<GetResult>>();
    let request = GetRequest::new(tx, "doc-1".to_string(), None);
    assert_eq!(request.check(), None);
    let (command, completion) = request.encode();
    match command {
        Command::Get { key, timeout } => {
            assert_eq!(key, b"doc-1".to_vec());
            assert_eq!(timeout, None);
        }
        other => panic!("unexpected command {:?}", other),
    }
    assert!(matches!(completion, Completion::Get(_)));
}

#[test]
fn get_carries_timeout_in_milliseconds() {
    let (tx, _rx) = channel::<Option<GetResult>>();
    let options = GetOptions::new().timeout(Duration::from_millis(2500));
    assert_eq!(options.timeout_ms(), Some(2500));
    let request = GetRequest::new(tx, "k".to_string(), Some(options));
    match request.encode().0 {
        Command::Get { key, timeout } => {
            assert_eq!(key, vec![b'k']);
            assert_eq!(timeout, Some(2500));
        }
        other => panic!("unexpected command {:?}", other),
    }
}

#[test]
fn options_without_timeout_give_none() {
    let (tx, _rx) = channel::<Option<GetResult>>();
    let request = GetRequest::new(tx, "k".to_string(), Some(GetOptions::new()));
    match request.encode().0 {
        Command::Get { timeout, .. } => assert_eq!(timeout, None),
        other => panic!("unexpected command {:?}", other),
    }
}

#[test]
fn timeout_keeps_low_32_bits() {
    assert_eq!(native_timeout(Some((1u128 << 32) + 7)), Some(7));
    assert_eq!(native_timeout(Some(u32::MAX as u128)), Some(u32::MAX));
    assert_eq!(native_timeout(None), None);
    let options = GetOptions::new().timeout(Duration::from_secs(5_000_000));
    assert_eq!(options.timeout_ms(), Some(5_000_000_000));
    assert_eq!(
        native_timeout(options.timeout_ms()),
        Some((5_000_000_000u128 % (1u128 << 32)) as u32)
    );
}

#[test]
fn upsert_encodes_store_command() {
    let (tx, _rx) = channel::<MutationResult>();
    let options = UpsertOptions::new().timeout_millis(40);
    let request = UpsertRequest::new(tx, "user".to_string(), b"{}".to_vec(), 0x0200_0000, Some(options));
    assert_eq!(request.check(), None);
    let (command, completion) = request.encode();
    match command {
        Command::Store { operation, key, flags, value, timeout } => {
            assert_eq!(operation, StoreOperation::Upsert);
            assert_eq!(key, b"user".to_vec());
            assert_eq!(flags, 0x0200_0000);
            assert_eq!(value, b"{}".to_vec());
            assert_eq!(timeout, Some(40));
        }
        other => panic!("unexpected command {:?}", other),
    }
    assert!(matches!(completion, Completion::Mutation(_)));
}

#[test]
fn insert_encodes_insert_operation() {
    let (tx, _rx) = channel::<MutationResult>();
    let request = InsertRequest::new(tx, "a".to_string(), vec![1, 2, 3], 7, Some(InsertOptions::new()));
    match request.encode().0 {
        Command::Store { operation, key, flags, value, timeout } => {
            assert_eq!(operation, StoreOperation::Insert);
            assert_eq!(key, vec![b'a']);
            assert_eq!(flags, 7);
            assert_eq!(value, vec![1, 2, 3]);
            assert_eq!(timeout, None);
        }
        other => panic!("unexpected command {:?}", other),
    }
}

#[test]
fn replace_encodes_replace_operation() {
    let (tx, _rx) = channel::<MutationResult>();
    let request = ReplaceRequest::new(tx, "b".to_string(), Vec::new(), 0, None);
    assert_eq!(request.check(), None);
    match request.encode().0 {
        Command::Store { operation, key, flags, value, timeout } => {
            assert_eq!(operation, StoreOperation::Replace);
            assert_eq!(key, vec![b'b']);
            assert_eq!(flags, 0);
            assert!(value.is_empty());
            assert_eq!(timeout, None);
        }
        other => panic!("unexpected command {:?}", other),
    }
}

#[test]
fn remove_encodes_key_and_timeout() {
    let (tx, _rx) = channel::<MutationResult>();
    let options = RemoveOptions::new().timeout(Duration::from_secs(2));
    let request = RemoveRequest::new(tx, "gone".to_string(), Some(options));
    assert_eq!(request.check(), None);
    match request.encode().0 {
        Command::Remove { key, timeout } => {
            assert_eq!(key, b"gone".to_vec());
            assert_eq!(timeout, Some(2000));
        }
        other => panic!("unexpected command {:?}", other),
    }
}

#[test]
fn key_is_utf8_encoded() {
    assert_eq!(encode_key(&"é€".to_string()), vec![0xC3, 0xA9, 0xE2, 0x82, 0xAC]);
    assert!(encode_key(&String::new()).is_empty());
    let (tx, _rx) = channel::<Option<GetResult>>();
    let request = GetRequest::new(tx, "é".to_string(), None);
    match request.encode().0 {
        Command::Get { key, .. } => assert_eq!(key, vec![0xC3, 0xA9]),
        other => panic!("unexpected command {:?}", other),
    }
}

#[test]
fn nul_bytes_are_found() {
    assert!(!contains_nul(&[]));
    assert!(!contains_nul(&[1, 2, 3]));
    assert!(contains_nul(&[0]));
    assert!(contains_nul(&[5, 6, 0]));
    assert!(key_has_nul(&"a\0b".to_string()));
    assert!(!key_has_nul(&"ab".to_string()));
}

#[test]
fn key_with_nul_cannot_be_encoded() {
    let (tx, _rx) = channel::<Option<GetResult>>();
    let get = GetRequest::new(tx, "a\0".to_string(), None);
    assert_eq!(get.check(), Some(EncodeError::KeyContainsNul));
    let (tx, _rx) = channel::<MutationResult>();
    let remove = RemoveRequest::new(tx, "\0".to_string(), None);
    assert_eq!(remove.check(), Some(EncodeError::KeyContainsNul));
}

#[test]
fn value_with_nul_cannot_be_encoded() {
    let (tx, _rx) = channel::<MutationResult>();
    let upsert = UpsertRequest::new(tx, "k".to_string(), vec![1, 0, 2], 0, None);
    assert_eq!(upsert.check(), Some(EncodeError::ValueContainsNul));
}

#[test]
fn key_is_checked_before_value() {
    let (tx, _rx) = channel::<MutationResult>();
    let insert = InsertRequest::new(tx, "k\0".to_string(), vec![0], 0, None);
    assert_eq!(insert.check(), Some(EncodeError::KeyContainsNul));
}

#[test]
fn completion_delivers_to_receiver() {
    let (tx, rx) = channel::<MutationResult>();
    let request = RemoveRequest::new(tx, "k".to_string(), None);
    match request.encode().1 {
        Completion::Mutation(sender) => {
            assert!(sender.send(MutationResult::new(42)).is_ok());
        }
        Completion::Get(_) => panic!("a remove completes with a mutation result"),
    }
    assert_eq!(rx.wait().unwrap().cas(), 42);

    let (tx, rx) = channel::<Option<GetResult>>();
    let request = GetRequest::new(tx, "k".to_string(), None);
    match request.encode().1 {
        Completion::Get(sender) => {
            assert!(sender.send(Some(GetResult::new(9, vec![1, 2], 3))).is_ok());
        }
        Completion::Mutation(_) => panic!("a get completes with an optional document"),
    }
    let got = rx.wait().unwrap().unwrap();
    assert_eq!(got.cas(), 9);
    assert_eq!(got.content(), &vec![1, 2]);
    assert_eq!(got.flags(), 3);
}
