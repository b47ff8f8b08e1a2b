use vhook::{RpcBundleExecutionError, SerializedSignature, VHookBundleStatus};

fn sample_signature() -> SerializedSignature {
    let mut bytes = [0u8; 64];
    for (i, byte) in bytes.iter_mut().enumerate() {
        *byte = (i as u8).wrapping_mul(3).wrapping_add(1);
    }
    SerializedSignature::new(bytes)
}

fn all_kinds() -> Vec<RpcBundleExecutionError> {
    vec![
        RpcBundleExecutionError::BankProcessingTimeLimitReached,
        RpcBundleExecutionError::BundleLockError,
        RpcBundleExecutionError::BundleExecutionTimeout,
        RpcBundleExecutionError::ExceedsCostModel,
        RpcBundleExecutionError::InvalidPreOrPostAccounts,
        RpcBundleExecutionError::PohRecordError("max height reached".to_string()),
        RpcBundleExecutionError::TipError("account not found: é".to_string()),
        RpcBundleExecutionError::TransactionFailure(sample_signature(), "boom".to_string()),
    ]
}

fn status_with(bytes: Option<Vec<u8>>) -> VHookBundleStatus {
    VHookBundleStatus {
        bundle_id: "bundle-1".to_string(),
        executed_at: 1_700_000_000_000,
        serialized_error: bytes,
    }
}

#[test]
fn messages_of_the_kinds_without_payload() {
    assert_eq!(
        RpcBundleExecutionError::BankProcessingTimeLimitReached.message(),
        "The bank has hit the max allotted time for processing transactions"
    );
    assert_eq!(
        RpcBundleExecutionError::BundleLockError.message(),
        "Error locking bundle because a transaction is malformed"
    );
    assert_eq!(
        RpcBundleExecutionError::BundleExecutionTimeout.message(),
        "Bundle execution timed out"
    );
    assert_eq!(
        RpcBundleExecutionError::ExceedsCostModel.message(),
        "The bundle exceeds the cost model"
    );
    assert_eq!(
        RpcBundleExecutionError::InvalidPreOrPostAccounts.message(),
        "Invalid pre or post accounts"
    );
}

#[test]
fn messages_of_the_kinds_with_a_message() {
    assert_eq!(
        RpcBundleExecutionError::PohRecordError("slot full".to_string()).message(),
        "PoH record error: slot full"
    );
    assert_eq!(
        RpcBundleExecutionError::TipError("no tip account".to_string()).message(),
        "Tip payment error: no tip account"
    );
    assert_eq!(
        RpcBundleExecutionError::PohRecordError(String::new()).message(),
        "PoH record error: "
    );
}

#[test]
fn transaction_failure_shows_the_signature_in_base58() {
    let sig = sample_signature();
    let base58 = bs58::encode(sig.to_bytes()).into_string();
    let error = RpcBundleExecutionError::TransactionFailure(sig, "boom".to_string());
    assert_eq!(
        error.message(),
        format!(
            "A transaction in the bundle failed to execute: [signature={}, error=boom]",
            base58
        )
    );
    let zero = RpcBundleExecutionError::TransactionFailure(
        SerializedSignature::new([0u8; 64]),
        "boom".to_string(),
    );
    assert_eq!(
        zero.message(),
        "A transaction in the bundle failed to execute: \
         [signature=1111111111111111111111111111111111111111111111111111111111111111, error=boom]"
    );
}

#[test]
fn binary_form_of_each_kind() {
    assert_eq!(
        RpcBundleExecutionError::BankProcessingTimeLimitReached.serialize(),
        vec![0, 0, 0, 0]
    );
    assert_eq!(RpcBundleExecutionError::BundleLockError.serialize(), vec![1, 0, 0, 0]);
    assert_eq!(RpcBundleExecutionError::BundleExecutionTimeout.serialize(), vec![2, 0, 0, 0]);
    assert_eq!(RpcBundleExecutionError::ExceedsCostModel.serialize(), vec![3, 0, 0, 0]);
    assert_eq!(RpcBundleExecutionError::InvalidPreOrPostAccounts.serialize(), vec![4, 0, 0, 0]);
    assert_eq!(
        RpcBundleExecutionError::PohRecordError("ab".to_string()).serialize(),
        vec![5, 0, 0, 0, 2, 0, 0, 0, 0, 0, 0, 0, b'a', b'b']
    );
    assert_eq!(
        RpcBundleExecutionError::TipError("abc".to_string()).serialize(),
        vec![6, 0, 0, 0, 3, 0, 0, 0, 0, 0, 0, 0, b'a', b'b', b'c']
    );
    let mut expected = vec![7, 0, 0, 0, 64, 0, 0, 0, 0, 0, 0, 0];
    expected.extend_from_slice(&[b'1'; 64]);
    expected.extend_from_slice(&[1, 0, 0, 0, 0, 0, 0, 0, b'x']);
    assert_eq!(
        RpcBundleExecutionError::TransactionFailure(
            SerializedSignature::new([0u8; 64]),
            "x".to_string()
        )
        .serialize(),
        expected
    );
}

#[test]
fn binary_form_agrees_with_bincode() {
    for tag in 0u32..5 {
        assert_eq!(all_kinds()[tag as usize].serialize(), bincode::serialize(&tag).unwrap());
    }
    assert_eq!(
        RpcBundleExecutionError::PohRecordError("max height reached".to_string()).serialize(),
        bincode::serialize(&(5u32, "max height reached")).unwrap()
    );
    assert_eq!(
        RpcBundleExecutionError::TipError("account not found: é".to_string()).serialize(),
        bincode::serialize(&(6u32, "account not found: é")).unwrap()
    );
    let sig = sample_signature();
    let text = sig.encode();
    assert_eq!(
        RpcBundleExecutionError::TransactionFailure(sig, "boom".to_string()).serialize(),
        bincode::serialize(&(7u32, text, "boom")).unwrap()
    );
}

#[test]
fn every_kind_round_trips() {
    for error in all_kinds() {
        let bytes = error.serialize();
        let decoded = RpcBundleExecutionError::deserialize(&bytes);
        assert!(decoded == Some(error.clone()));
        assert_eq!(decoded.unwrap().message(), error.message());
    }
}

#[test]
fn status_reports_the_error_it_carries() {
    for error in all_kinds() {
        let status = status_with(Some(error.serialize()));
        assert!(status.try_get_error() == Some(error));
    }
}

#[test]
fn status_without_bytes_has_no_error() {
    assert!(status_with(None).try_get_error().is_none());
}

#[test]
fn status_with_undecodable_bytes_has_no_error() {
    assert!(status_with(Some(vec![])).try_get_error().is_none());
    assert!(status_with(Some(vec![1, 0, 0])).try_get_error().is_none());
    assert!(status_with(Some(vec![8, 0, 0, 0])).try_get_error().is_none());
    assert!(status_with(Some(vec![0, 1, 0, 0])).try_get_error().is_none());
    assert!(status_with(Some(vec![255, 255, 255, 255])).try_get_error().is_none());
    assert!(status_with(Some(vec![5, 0, 0, 0, 1, 0, 0, 0, 0, 0, 0, 0, 0xff])).try_get_error().is_none());
}

#[test]
fn status_is_decoded_afresh_on_each_call() {
    let error = RpcBundleExecutionError::TipError("late".to_string());
    let mut status = status_with(Some(error.serialize()));
    assert!(status.try_get_error() == Some(error.clone()));
    assert!(status.try_get_error() == Some(error));
    status.serialized_error = Some(RpcBundleExecutionError::BundleLockError.serialize());
    assert!(status.try_get_error() == Some(RpcBundleExecutionError::BundleLockError));
    status.serialized_error = None;
    assert!(status.try_get_error().is_none());
    assert_eq!(status.executed_at, 1_700_000_000_000);
    assert_eq!(status.bundle_id, "bundle-1");
}

#[test]
fn every_truncation_is_rejected() {
    for error in all_kinds() {
        let bytes = error.serialize();
        for len in 0..bytes.len() {
            assert!(RpcBundleExecutionError::deserialize(&bytes[..len]).is_none(), "{len}");
        }
    }
}

#[test]
fn bytes_after_the_error_are_ignored() {
    for error in all_kinds() {
        let mut bytes = error.serialize();
        bytes.extend_from_slice(&[0xde, 0xad, 0xbe, 0xef]);
        assert!(RpcBundleExecutionError::deserialize(&bytes) == Some(error));
    }
}

#[test]
fn unknown_tags_are_rejected() {
    for tag in [8u32, 9, 255, 256, 0x0100_0000, u32::MAX] {
        let mut bytes = tag.to_le_bytes().to_vec();
        bytes.extend_from_slice(&[0u8; 32]);
        assert!(RpcBundleExecutionError::deserialize(&bytes).is_none(), "{tag}");
    }
}

#[test]
fn decodes_what_bincode_writes() {
    let decoded =
        RpcBundleExecutionError::deserialize(&bincode::serialize(&(6u32, "tip")).unwrap());
    assert!(decoded == Some(RpcBundleExecutionError::TipError("tip".to_string())));
    let sig = sample_signature();
    let bytes = bincode::serialize(&(7u32, sig.encode(), "é")).unwrap();
    let decoded = RpcBundleExecutionError::deserialize(&bytes);
    assert!(decoded == Some(RpcBundleExecutionError::TransactionFailure(sig, "é".to_string())));
    let decoded = RpcBundleExecutionError::deserialize(&bincode::serialize(&2u32).unwrap());
    assert!(decoded == Some(RpcBundleExecutionError::BundleExecutionTimeout));
}

#[test]
fn message_that_is_not_utf8_is_rejected() {
    let bytes = vec![6, 0, 0, 0, 2, 0, 0, 0, 0, 0, 0, 0, 0xc3, 0x28];
    assert!(RpcBundleExecutionError::deserialize(&bytes).is_none());
    let good = vec![6, 0, 0, 0, 2, 0, 0, 0, 0, 0, 0, 0, 0xc3, 0xa9];
    assert!(
        RpcBundleExecutionError::deserialize(&good)
            == Some(RpcBundleExecutionError::TipError("é".to_string()))
    );
}

#[test]
fn length_beyond_the_bytes_is_rejected() {
    let bytes = vec![5, 0, 0, 0, 3, 0, 0, 0, 0, 0, 0, 0, b'a', b'b'];
    assert!(RpcBundleExecutionError::deserialize(&bytes).is_none());
    let mut huge = vec![5, 0, 0, 0];
    huge.extend_from_slice(&[255u8; 8]);
    huge.extend_from_slice(b"abc");
    assert!(RpcBundleExecutionError::deserialize(&huge).is_none());
}

#[test]
fn signature_text_must_be_sixty_four_bytes_of_base58() {
    let short = bs58::encode([0u8; 63]).into_string();
    let bytes = bincode::serialize(&(7u32, short, "boom")).unwrap();
    assert!(RpcBundleExecutionError::deserialize(&bytes).is_none());
    let long = bs58::encode([1u8; 65]).into_string();
    let bytes = bincode::serialize(&(7u32, long, "boom")).unwrap();
    assert!(RpcBundleExecutionError::deserialize(&bytes).is_none());
    let mut bad = sample_signature().encode();
    bad.push('0');
    let bytes = bincode::serialize(&(7u32, bad, "boom")).unwrap();
    assert!(RpcBundleExecutionError::deserialize(&bytes).is_none());
    let bytes = bincode::serialize(&(7u32, sample_signature().encode())).unwrap();
    assert!(RpcBundleExecutionError::deserialize(&bytes).is_none());
}

#[test]
fn equality_is_structural() {
    let kinds = all_kinds();
    for (i, a) in kinds.iter().enumerate() {
        for (j, b) in kinds.iter().enumerate() {
            assert_eq!(a == b, i == j);
        }
    }
    assert!(
        RpcBundleExecutionError::TipError("a".to_string())
            == RpcBundleExecutionError::TipError("a".to_string())
    );
    assert!(
        RpcBundleExecutionError::TipError("a".to_string())
            != RpcBundleExecutionError::TipError("b".to_string())
    );
    assert!(
        RpcBundleExecutionError::TipError("a".to_string())
            != RpcBundleExecutionError::PohRecordError("a".to_string())
    );
    let sig = sample_signature();
    assert!(
        RpcBundleExecutionError::TransactionFailure(sig.clone(), "m".to_string())
            == RpcBundleExecutionError::TransactionFailure(sig.clone(), "m".to_string())
    );
    assert!(
        RpcBundleExecutionError::TransactionFailure(sig.clone(), "m".to_string())
            != RpcBundleExecutionError::TransactionFailure(
                SerializedSignature::new([0u8; 64]),
                "m".to_string()
            )
    );
    assert!(
        RpcBundleExecutionError::TransactionFailure(sig.clone(), "m".to_string())
            != RpcBundleExecutionError::TransactionFailure(sig, "n".to_string())
    );
}

#[test]
fn equal_errors_have_equal_messages_and_bytes() {
    for error in all_kinds() {
        let copy = error.clone();
        assert!(copy == error);
        assert_eq!(copy.message(), error.message());
        assert_eq!(copy.serialize(), error.serialize());
    }
}
