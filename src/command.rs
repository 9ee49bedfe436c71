use vstd::prelude::*;
use vstd::utf8::encode_utf8;

verus! {

/// The kind of a store command: what the native library does when the key
/// already exists, or does not.
#[derive(Clone, Copy, Debug, PartialEq, Eq, Structural)]
pub enum StoreOperation {
    /// Writes the value whether or not the key exists.
    Upsert,
    /// Writes the value only where the key does not exist yet.
    Insert,
    /// Writes the value only where the key exists already.
    Replace,
}

/// Why a request cannot be handed to the native library, which takes keys
/// and values as NUL-terminated C strings.
#[derive(Clone, Copy, Debug, PartialEq, Eq, Structural)]
pub enum EncodeError {
    /// The UTF-8 bytes of the document id hold a NUL byte.
    KeyContainsNul,
    /// The content of the document holds a NUL byte.
    ValueContainsNul,
}

/// A native command with all of its fields, as it is to be issued.
#[derive(Debug)]
pub enum Command {
    Get { key: Vec<u8>, timeout: Option<u32> },
    Store {
        operation: StoreOperation,
        key: Vec<u8>,
        flags: u32,
        value: Vec<u8>,
        timeout: Option<u32>,
    },
    Remove { key: Vec<u8>, timeout: Option<u32> },
}

/// The mathematical value of a `Command`.
pub enum CommandView {
    Get { key: Seq<u8>, timeout: Option<u32> },
    Store {
        operation: StoreOperation,
        key: Seq<u8>,
        flags: u32,
        value: Seq<u8>,
        timeout: Option<u32>,
    },
    Remove { key: Seq<u8>, timeout: Option<u32> },
}

impl View for Command {
    type V = CommandView;

    open spec fn view(&self) -> CommandView {
        match self {
            Command::Get { key, timeout } => CommandView::Get { key: key@, timeout: *timeout },
            Command::Store { operation, key, flags, value, timeout } => CommandView::Store {
                operation: *operation,
                key: key@,
                flags: *flags,
                value: value@,
                timeout: *timeout,
            },
            Command::Remove { key, timeout } => CommandView::Remove {
                key: key@,
                timeout: *timeout,
            },
        }
    }
}

/// Whether some byte of `b` is NUL, which a C string cannot hold.
pub open spec fn has_nul(b: Seq<u8>) -> bool {
    exists|i: int| 0 <= i < b.len() && b[i] == 0
}

/// The key bytes of a document id: its UTF-8 encoding.
pub open spec fn key_of(id: Seq<char>) -> Seq<u8> {
    encode_utf8(id)
}

/// The timeout field of a native command: the milliseconds cut to their low
/// 32 bits, as the native field is 32 bits wide.
pub open spec fn timeout_field(ms: Option<u128>) -> Option<u32> {
    match ms {
        Some(m) => Some(m as u32),
        None => None,
    }
}

/// Whether `b` holds a NUL byte.
pub fn contains_nul(b: &[u8]) -> (r: bool)
    ensures
        r == has_nul(b@),
{
    let mut i: usize = 0;
    while i < b.len()
        invariant
            0 <= i <= b@.len(),
            forall|j: int| 0 <= j < i ==> b@[j] != 0,
        decreases b@.len() - i,
    {
        if b[i] == 0 {
            return true;
        }
        i = i + 1;
    }
    false
}

/// The timeout field of a native command for a timeout of `ms` milliseconds.
pub fn native_timeout(ms: Option<u128>) -> (r: Option<u32>)
    ensures
        r == timeout_field(ms),
{
    match ms {
        Some(m) => Some(#[verifier::truncate] (m as u32)),
        None => None,
    }
}

/// The key bytes of the document id `id`.
pub fn encode_key(id: &String) -> (r: Vec<u8>)
    ensures
        r@ == key_of(id@),
{
    id.as_str().as_bytes_vec()
}

/// Whether the document id `id` cannot be made a key.
pub fn key_has_nul(id: &String) -> (r: bool)
    ensures
        r == has_nul(key_of(id@)),
{
    contains_nul(id.as_str().as_bytes())
}

} // verus!
