//! The closed set of reasons a bundle did not land, the message of each, and
//! the binary form in which one travels inside a status record.
//!
//! The binary form is a 32-bit tag (the position of the kind in the list
//! below) followed by the payload fields in order, each a string. The
//! signature of a failed transaction travels as its base58 text.

use crate::base58::{base58_round_trips, base58_text};
use crate::signature::{DecodeError, SerializedSignature};
use crate::wire::{
    lemma_cut_string_is_unreadable, lemma_string_round_trip, lemma_u32_round_trip, read_string,
    read_u32, spec_read_string, spec_string_to_bytes, spec_u32_from_le, spec_u32_to_le,
    write_string, write_u32,
};
use vstd::prelude::*;
use vstd::std_specs::cmp::PartialEqSpecImpl;
use vstd::string::StringExecFns;
use vstd::utf8::encode_utf8;

verus! {

/// Why a bundle failed to execute.
pub enum RpcBundleExecutionError {
    BankProcessingTimeLimitReached,
    BundleLockError,
    BundleExecutionTimeout,
    ExceedsCostModel,
    InvalidPreOrPostAccounts,
    PohRecordError(String),
    TipError(String),
    TransactionFailure(SerializedSignature, String),
}

/// An execution error as a mathematical value: messages are character
/// sequences and a signature is its 64 bytes.
pub enum ExecutionErrorView {
    BankProcessingTimeLimitReached,
    BundleLockError,
    BundleExecutionTimeout,
    ExceedsCostModel,
    InvalidPreOrPostAccounts,
    PohRecordError(Seq<char>),
    TipError(Seq<char>),
    TransactionFailure(Seq<u8>, Seq<char>),
}

impl View for RpcBundleExecutionError {
    type V = ExecutionErrorView;

    open spec fn view(&self) -> ExecutionErrorView {
        match *self {
            RpcBundleExecutionError::BankProcessingTimeLimitReached =>
                ExecutionErrorView::BankProcessingTimeLimitReached,
            RpcBundleExecutionError::BundleLockError => ExecutionErrorView::BundleLockError,
            RpcBundleExecutionError::BundleExecutionTimeout =>
                ExecutionErrorView::BundleExecutionTimeout,
            RpcBundleExecutionError::ExceedsCostModel => ExecutionErrorView::ExceedsCostModel,
            RpcBundleExecutionError::InvalidPreOrPostAccounts =>
                ExecutionErrorView::InvalidPreOrPostAccounts,
            RpcBundleExecutionError::PohRecordError(message) => ExecutionErrorView::PohRecordError(
                message@,
            ),
            RpcBundleExecutionError::TipError(message) => ExecutionErrorView::TipError(message@),
            RpcBundleExecutionError::TransactionFailure(signature, message) =>
                ExecutionErrorView::TransactionFailure(signature@, message@),
        }
    }
}

impl ExecutionErrorView {
    /// The tag of the kind on the wire: its position in the list of kinds.
    pub open spec fn tag(self) -> u32 {
        match self {
            ExecutionErrorView::BankProcessingTimeLimitReached => 0,
            ExecutionErrorView::BundleLockError => 1,
            ExecutionErrorView::BundleExecutionTimeout => 2,
            ExecutionErrorView::ExceedsCostModel => 3,
            ExecutionErrorView::InvalidPreOrPostAccounts => 4,
            ExecutionErrorView::PohRecordError(_) => 5,
            ExecutionErrorView::TipError(_) => 6,
            ExecutionErrorView::TransactionFailure(_, _) => 7,
        }
    }

    /// The canonical message. A signature appears in its base58 text form.
    pub open spec fn message(self) -> Seq<char> {
        match self {
            ExecutionErrorView::BankProcessingTimeLimitReached =>
                "The bank has hit the max allotted time for processing transactions"@,
            ExecutionErrorView::BundleLockError =>
                "Error locking bundle because a transaction is malformed"@,
            ExecutionErrorView::BundleExecutionTimeout => "Bundle execution timed out"@,
            ExecutionErrorView::ExceedsCostModel => "The bundle exceeds the cost model"@,
            ExecutionErrorView::InvalidPreOrPostAccounts => "Invalid pre or post accounts"@,
            ExecutionErrorView::PohRecordError(message) => "PoH record error: "@ + message,
            ExecutionErrorView::TipError(message) => "Tip payment error: "@ + message,
            ExecutionErrorView::TransactionFailure(signature, message) =>
                "A transaction in the bundle failed to execute: [signature="@ + base58_text(
                    signature,
                ) + ", error="@ + message + "]"@,
        }
    }

    /// The payload on the wire: the fields in order, each as a string.
    pub open spec fn payload(self) -> Seq<u8> {
        match self {
            ExecutionErrorView::PohRecordError(message) => spec_string_to_bytes(message),
            ExecutionErrorView::TipError(message) => spec_string_to_bytes(message),
            ExecutionErrorView::TransactionFailure(signature, message) => spec_string_to_bytes(
                base58_text(signature),
            ) + spec_string_to_bytes(message),
            _ => Seq::empty(),
        }
    }

    /// The binary form: the tag, then the payload.
    pub open spec fn serialize(self) -> Seq<u8> {
        spec_u32_to_le(self.tag()) + self.payload()
    }

    /// True when each field can be written: every string's length fits the
    /// 64-bit length field, a signature has 64 bytes, and its base58 text
    /// reads back as those bytes.
    pub open spec fn is_encodable(self) -> bool {
        match self {
            ExecutionErrorView::PohRecordError(message) => encode_utf8(message).len() <= u64::MAX,
            ExecutionErrorView::TipError(message) => encode_utf8(message).len() <= u64::MAX,
            ExecutionErrorView::TransactionFailure(signature, message) => {
                &&& signature.len() == 64
                &&& base58_round_trips(signature)
                &&& encode_utf8(base58_text(signature)).len() <= u64::MAX
                &&& encode_utf8(message).len() <= u64::MAX
            },
            _ => true,
        }
    }

    /// Reads the payload of a failed transaction: the signature text, which
    /// must decode to 64 bytes, then the message.
    pub open spec fn read_transaction_failure(payload: Seq<u8>) -> Option<ExecutionErrorView> {
        match spec_read_string(payload) {
            Some((text, rest)) => match (
                SerializedSignature::spec_decode(text),
                spec_read_string(rest),
            ) {
                (Ok(signature), Some((message, _))) => Some(
                    ExecutionErrorView::TransactionFailure(signature, message),
                ),
                _ => None,
            },
            None => None,
        }
    }

    /// Reads a single message, the whole payload of the kinds that carry one.
    pub open spec fn read_message(payload: Seq<u8>) -> Option<Seq<char>> {
        match spec_read_string(payload) {
            Some((message, _)) => Some(message),
            None => None,
        }
    }

    /// The error with the given tag whose fields `payload` starts with, or
    /// `None` where the tag is unknown or the fields do not read.
    pub open spec fn read_payload(tag: int, payload: Seq<u8>) -> Option<ExecutionErrorView> {
        if tag == 0 {
            Some(ExecutionErrorView::BankProcessingTimeLimitReached)
        } else if tag == 1 {
            Some(ExecutionErrorView::BundleLockError)
        } else if tag == 2 {
            Some(ExecutionErrorView::BundleExecutionTimeout)
        } else if tag == 3 {
            Some(ExecutionErrorView::ExceedsCostModel)
        } else if tag == 4 {
            Some(ExecutionErrorView::InvalidPreOrPostAccounts)
        } else if tag == 5 {
            match Self::read_message(payload) {
                Some(message) => Some(ExecutionErrorView::PohRecordError(message)),
                None => None,
            }
        } else if tag == 6 {
            match Self::read_message(payload) {
                Some(message) => Some(ExecutionErrorView::TipError(message)),
                None => None,
            }
        } else if tag == 7 {
            Self::read_transaction_failure(payload)
        } else {
            None
        }
    }

    /// The error that `bytes` stand for, or `None` where they are cut short,
    /// carry an unknown tag, hold a string that is not UTF-8, or a signature
    /// text that is not 64 bytes of base58. Bytes after the error are ignored.
    pub open spec fn deserialize(bytes: Seq<u8>) -> Option<ExecutionErrorView> {
        if bytes.len() < 4 {
            None
        } else {
            Self::read_payload(spec_u32_from_le(bytes), bytes.skip(4))
        }
    }

    /// Bytes that start with a tag decode to what the bytes after the tag
    /// read as under that tag.
    pub proof fn lemma_tag_is_read_first(tag: u32, payload: Seq<u8>)
        ensures
            Self::deserialize(spec_u32_to_le(tag) + payload) == Self::read_payload(
                tag as int,
                payload,
            ),
    {
        lemma_u32_round_trip(tag, payload);
    }

    /// Reading back a written message gives the message, whatever follows.
    pub proof fn lemma_message_round_trip(message: Seq<char>, rest: Seq<u8>)
        requires
            encode_utf8(message).len() <= u64::MAX,
        ensures
            Self::read_message(spec_string_to_bytes(message) + rest) == Some(message),
    {
        lemma_string_round_trip(message, rest);
    }

    /// Reading back the payload of a failed transaction gives its fields,
    /// whatever follows.
    pub proof fn lemma_transaction_failure_round_trip(
        signature: Seq<u8>,
        message: Seq<char>,
        rest: Seq<u8>,
    )
        requires
            ExecutionErrorView::TransactionFailure(signature, message).is_encodable(),
        ensures
            Self::read_transaction_failure(
                spec_string_to_bytes(base58_text(signature)) + spec_string_to_bytes(message)
                    + rest,
            ) == Some(ExecutionErrorView::TransactionFailure(signature, message)),
    {
        let text = base58_text(signature);
        let first = spec_string_to_bytes(text);
        let tail = spec_string_to_bytes(message) + rest;
        assert(first + spec_string_to_bytes(message) + rest =~= first + tail);
        assert(spec_read_string(first + tail) == Some((text, tail))) by {
            lemma_string_round_trip(text, tail);
        }
        assert(spec_read_string(tail) == Some((message, rest))) by {
            lemma_string_round_trip(message, rest);
        }
        assert(SerializedSignature::spec_decode(text) == Ok::<Seq<u8>, DecodeError>(signature));
    }

    /// Reading back the payload of an error under its own tag gives the
    /// error, whatever follows.
    pub proof fn lemma_payload_round_trip(self, rest: Seq<u8>)
        requires
            self.is_encodable(),
        ensures
            Self::read_payload(self.tag() as int, self.payload() + rest) == Some(self),
    {
        match self {
            ExecutionErrorView::PohRecordError(message) => {
                Self::lemma_message_round_trip(message, rest);
            },
            ExecutionErrorView::TipError(message) => {
                Self::lemma_message_round_trip(message, rest);
            },
            ExecutionErrorView::TransactionFailure(signature, message) => {
                Self::lemma_transaction_failure_round_trip(signature, message, rest);
            },
            _ => {},
        }
    }

    /// Decoding the binary form of an error gives the error back, whatever
    /// bytes follow it.
    pub proof fn lemma_round_trip(self, rest: Seq<u8>)
        requires
            self.is_encodable(),
        ensures
            Self::deserialize(self.serialize() + rest) == Some(self),
    {
        let payload = self.payload() + rest;
        assert(self.serialize() + rest =~= spec_u32_to_le(self.tag()) + payload);
        Self::lemma_tag_is_read_first(self.tag(), payload);
        self.lemma_payload_round_trip(rest);
    }

    /// A written message that is cut short does not read.
    pub proof fn lemma_cut_message_is_unreadable(message: Seq<char>, len: int)
        requires
            encode_utf8(message).len() <= u64::MAX,
            0 <= len < spec_string_to_bytes(message).len(),
        ensures
            Self::read_message(spec_string_to_bytes(message).take(len)) is None,
    {
        lemma_cut_string_is_unreadable(message, len);
    }

    /// The payload of a failed transaction, cut short anywhere, does not read.
    pub proof fn lemma_cut_transaction_failure_is_unreadable(
        signature: Seq<u8>,
        message: Seq<char>,
        len: int,
    )
        requires
            ExecutionErrorView::TransactionFailure(signature, message).is_encodable(),
            0 <= len < ExecutionErrorView::TransactionFailure(signature, message).payload().len(),
        ensures
            Self::read_transaction_failure(
                ExecutionErrorView::TransactionFailure(signature, message).payload().take(len),
            ) is None,
    {
        let text = base58_text(signature);
        let first = spec_string_to_bytes(text);
        let second = spec_string_to_bytes(message);
        let kept = (first + second).take(len);
        if len < first.len() {
            assert(kept =~= first.take(len));
            lemma_cut_string_is_unreadable(text, len);
        } else {
            let tail = second.take(len - first.len());
            assert(kept =~= first + tail);
            assert(spec_read_string(first + tail) == Some((text, tail))) by {
                lemma_string_round_trip(text, tail);
            }
            assert(spec_read_string(tail) is None) by {
                lemma_cut_string_is_unreadable(message, len - first.len());
            }
        }
    }

    /// The payload of an error, cut short anywhere, does not read under the
    /// error's tag.
    pub proof fn lemma_cut_payload_is_unreadable(self, len: int)
        requires
            self.is_encodable(),
            0 <= len < self.payload().len(),
        ensures
            Self::read_payload(self.tag() as int, self.payload().take(len)) is None,
    {
        match self {
            ExecutionErrorView::PohRecordError(message) => {
                Self::lemma_cut_message_is_unreadable(message, len);
            },
            ExecutionErrorView::TipError(message) => {
                Self::lemma_cut_message_is_unreadable(message, len);
            },
            ExecutionErrorView::TransactionFailure(signature, message) => {
                Self::lemma_cut_transaction_failure_is_unreadable(signature, message, len);
            },
            _ => {},
        }
    }

    /// The binary form of an error, cut short anywhere, does not decode.
    pub proof fn lemma_truncated_is_rejected(self, len: int)
        requires
            self.is_encodable(),
            0 <= len < self.serialize().len(),
        ensures
            Self::deserialize(self.serialize().take(len)) is None,
    {
        if len >= 4 {
            let kept = self.payload().take(len - 4);
            assert(self.serialize().take(len) =~= spec_u32_to_le(self.tag()) + kept);
            Self::lemma_tag_is_read_first(self.tag(), kept);
            self.lemma_cut_payload_is_unreadable(len - 4);
        }
    }
}

impl Clone for RpcBundleExecutionError {
    fn clone(&self) -> (copy: Self)
        ensures
            copy@ == self@,
    {
        match self {
            RpcBundleExecutionError::BankProcessingTimeLimitReached =>
                RpcBundleExecutionError::BankProcessingTimeLimitReached,
            RpcBundleExecutionError::BundleLockError => RpcBundleExecutionError::BundleLockError,
            RpcBundleExecutionError::BundleExecutionTimeout =>
                RpcBundleExecutionError::BundleExecutionTimeout,
            RpcBundleExecutionError::ExceedsCostModel => RpcBundleExecutionError::ExceedsCostModel,
            RpcBundleExecutionError::InvalidPreOrPostAccounts =>
                RpcBundleExecutionError::InvalidPreOrPostAccounts,
            RpcBundleExecutionError::PohRecordError(message) =>
                RpcBundleExecutionError::PohRecordError(message.clone()),
            RpcBundleExecutionError::TipError(message) => RpcBundleExecutionError::TipError(
                message.clone(),
            ),
            RpcBundleExecutionError::TransactionFailure(signature, message) =>
                RpcBundleExecutionError::TransactionFailure(signature.clone(), message.clone()),
        }
    }
}

impl PartialEq for RpcBundleExecutionError {
    /// Structural equality: the same kind with the same payload.
    fn eq(&self, other: &Self) -> (equal: bool) {
        match self {
            RpcBundleExecutionError::BankProcessingTimeLimitReached => matches!(
                other,
                RpcBundleExecutionError::BankProcessingTimeLimitReached
            ),
            RpcBundleExecutionError::BundleLockError => matches!(
                other,
                RpcBundleExecutionError::BundleLockError
            ),
            RpcBundleExecutionError::BundleExecutionTimeout => matches!(
                other,
                RpcBundleExecutionError::BundleExecutionTimeout
            ),
            RpcBundleExecutionError::ExceedsCostModel => matches!(
                other,
                RpcBundleExecutionError::ExceedsCostModel
            ),
            RpcBundleExecutionError::InvalidPreOrPostAccounts => matches!(
                other,
                RpcBundleExecutionError::InvalidPreOrPostAccounts
            ),
            RpcBundleExecutionError::PohRecordError(message) => match other {
                RpcBundleExecutionError::PohRecordError(other_message) => *message
                    == *other_message,
                _ => false,
            },
            RpcBundleExecutionError::TipError(message) => match other {
                RpcBundleExecutionError::TipError(other_message) => *message == *other_message,
                _ => false,
            },
            RpcBundleExecutionError::TransactionFailure(signature, message) => match other {
                RpcBundleExecutionError::TransactionFailure(other_signature, other_message) =>
                    *signature == *other_signature && *message == *other_message,
                _ => false,
            },
        }
    }
}

impl Eq for RpcBundleExecutionError {

}

impl PartialEqSpecImpl for RpcBundleExecutionError {
    open spec fn obeys_eq_spec() -> bool {
        true
    }

    open spec fn eq_spec(&self, other: &Self) -> bool {
        self@ == other@
    }
}

impl RpcBundleExecutionError {
    /// The canonical message of the error.
    pub fn message(&self) -> (text: String)
        ensures
            text@ == self@.message(),
    {
        match self {
            RpcBundleExecutionError::BankProcessingTimeLimitReached => String::from_str(
                "The bank has hit the max allotted time for processing transactions",
            ),
            RpcBundleExecutionError::BundleLockError => String::from_str(
                "Error locking bundle because a transaction is malformed",
            ),
            RpcBundleExecutionError::BundleExecutionTimeout => String::from_str(
                "Bundle execution timed out",
            ),
            RpcBundleExecutionError::ExceedsCostModel => String::from_str(
                "The bundle exceeds the cost model",
            ),
            RpcBundleExecutionError::InvalidPreOrPostAccounts => String::from_str(
                "Invalid pre or post accounts",
            ),
            RpcBundleExecutionError::PohRecordError(message) => {
                let mut text = String::from_str("PoH record error: ");
                text.append(message.as_str());
                text
            },
            RpcBundleExecutionError::TipError(message) => {
                let mut text = String::from_str("Tip payment error: ");
                text.append(message.as_str());
                text
            },
            RpcBundleExecutionError::TransactionFailure(signature, message) => {
                let mut text = String::from_str(
                    "A transaction in the bundle failed to execute: [signature=",
                );
                text.append(signature.encode().as_str());
                text.append(", error=");
                text.append(message.as_str());
                text.append("]");
                text
            },
        }
    }

    /// The binary form of the error. Decoding it gives the error back.
    pub fn serialize(&self) -> (bytes: Vec<u8>)
        ensures
            bytes@ == self@.serialize(),
            ExecutionErrorView::deserialize(bytes@) == Some(self@),
    {
        let mut bytes: Vec<u8> = Vec::new();
        match self {
            RpcBundleExecutionError::BankProcessingTimeLimitReached => {
                write_u32(&mut bytes, 0);
            },
            RpcBundleExecutionError::BundleLockError => {
                write_u32(&mut bytes, 1);
            },
            RpcBundleExecutionError::BundleExecutionTimeout => {
                write_u32(&mut bytes, 2);
            },
            RpcBundleExecutionError::ExceedsCostModel => {
                write_u32(&mut bytes, 3);
            },
            RpcBundleExecutionError::InvalidPreOrPostAccounts => {
                write_u32(&mut bytes, 4);
            },
            RpcBundleExecutionError::PohRecordError(message) => {
                write_u32(&mut bytes, 5);
                write_string(&mut bytes, message.as_str());
            },
            RpcBundleExecutionError::TipError(message) => {
                write_u32(&mut bytes, 6);
                write_string(&mut bytes, message.as_str());
            },
            RpcBundleExecutionError::TransactionFailure(signature, message) => {
                let text = signature.encode();
                write_u32(&mut bytes, 7);
                write_string(&mut bytes, text.as_str());
                write_string(&mut bytes, message.as_str());
                proof {
                    signature.lemma_len();
                }
            },
        }
        proof {
            assert(bytes@ =~= self@.serialize());
            self@.lemma_round_trip(Seq::empty());
            assert(self@.serialize() + Seq::<u8>::empty() =~= self@.serialize());
        }
        bytes
    }

    /// Reads an error from its binary form. Bytes after the error are
    /// ignored.
    pub fn deserialize(bytes: &[u8]) -> (decoded: Option<RpcBundleExecutionError>)
        ensures
            match decoded {
                Some(error) => ExecutionErrorView::deserialize(bytes@) == Some(error@),
                None => ExecutionErrorView::deserialize(bytes@) is None,
            },
    {
        assert(bytes@.skip(0) =~= bytes@);
        let (tag, at) = match read_u32(bytes, 0) {
            Some(read) => read,
            None => return None,
        };
        if tag == 0 {
            Some(RpcBundleExecutionError::BankProcessingTimeLimitReached)
        } else if tag == 1 {
            Some(RpcBundleExecutionError::BundleLockError)
        } else if tag == 2 {
            Some(RpcBundleExecutionError::BundleExecutionTimeout)
        } else if tag == 3 {
            Some(RpcBundleExecutionError::ExceedsCostModel)
        } else if tag == 4 {
            Some(RpcBundleExecutionError::InvalidPreOrPostAccounts)
        } else if tag == 5 {
            match read_string(bytes, at) {
                Some((message, _)) => Some(RpcBundleExecutionError::PohRecordError(message)),
                None => None,
            }
        } else if tag == 6 {
            match read_string(bytes, at) {
                Some((message, _)) => Some(RpcBundleExecutionError::TipError(message)),
                None => None,
            }
        } else if tag == 7 {
            let (text, next) = match read_string(bytes, at) {
                Some(read) => read,
                None => return None,
            };
            let signature = match SerializedSignature::decode(text.as_str()) {
                Ok(signature) => signature,
                Err(_) => return None,
            };
            match read_string(bytes, next) {
                Some((message, _)) => Some(
                    RpcBundleExecutionError::TransactionFailure(signature, message),
                ),
                None => None,
            }
        } else {
            None
        }
    }
}

} // verus!
