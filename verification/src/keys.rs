//! The application key: a random 256-bit key, kept in the system's key store
//! as text, created the first time it is asked for.
//!
//! The key store itself is the caller's business. This module makes the key
//! and decides what each answer of the key store leads to.

use vstd::prelude::*;
use vstd::string::*;

verus! {

/// Number of bytes in a key.
pub const KEY_BYTES: usize = 32;

/// The service under which the key store files the key.
pub open spec fn spec_service() -> Seq<char> {
    "torqle"@
}

/// The account under which the key is filed when the user has no name.
pub open spec fn spec_default_account() -> Seq<char> {
    "torqle-default"@
}

/// The sixteen digits of lower-case hexadecimal.
pub open spec fn spec_hex_digits() -> Seq<char> {
    seq!['0', '1', '2', '3', '4', '5', '6', '7', '8', '9', 'a', 'b', 'c', 'd', 'e', 'f']
}

/// Lower-case hexadecimal of `bytes`: two digits for each byte, the high
/// half first.
pub open spec fn spec_hex(bytes: Seq<u8>) -> Seq<char> {
    Seq::new(
        2 * bytes.len(),
        |i: int|
            if i % 2 == 0 {
                spec_hex_digits()[bytes[i / 2] as int / 16]
            } else {
                spec_hex_digits()[bytes[i / 2] as int % 16]
            },
    )
}

/// Whether `text` is a key as this module writes it: two lower-case
/// hexadecimal digits for each of its bytes.
pub open spec fn is_key_text(text: Seq<char>) -> bool {
    exists|bytes: Seq<u8>| bytes.len() == KEY_BYTES && text == #[trigger] spec_hex(bytes)
}

/// Calls `hex::encode`, which writes each byte as two characters taken from
/// `0123456789abcdef`, the one for the high four bits first.
#[verifier::external_body]
fn hex_encode(data: &[u8]) -> (text: String)
    ensures
        text@ == spec_hex(data@),
{
    hex::encode(data)
}

/// Calls `rand::thread_rng` and `rand::Rng::fill` on a buffer of `count`
/// bytes. The bytes are random: nothing is claimed of them but their number.
#[verifier::external_body]
fn random_bytes(count: usize) -> (bytes: Vec<u8>)
    ensures
        bytes@.len() == count,
{
    let mut bytes = vec![0u8; count];
    rand::Rng::fill(&mut rand::thread_rng(), bytes.as_mut_slice());
    bytes
}

/// Writes key material as text.
pub fn encode_key(bytes: &[u8]) -> (text: String)
    ensures
        text@ == spec_hex(bytes@),
        text@.len() == 2 * bytes@.len(),
{
    hex_encode(bytes)
}

/// Makes a new key: 32 random bytes, written as 64 hexadecimal digits.
pub fn generate_aes_256_key() -> (key: String)
    ensures
        is_key_text(key@),
        key@.len() == 2 * KEY_BYTES,
{
    let bytes = random_bytes(KEY_BYTES);
    encode_key(bytes.as_slice())
}

/// The account under which the key of the user called `username` is filed:
/// the name, or a fixed account for a user without one.
pub fn account_name(username: Option<String>) -> (account: String)
    ensures
        account@ == (match username {
            Some(name) => name@,
            None => spec_default_account(),
        }),
{
    match username {
        Some(name) => name,
        None => "torqle-default".to_string(),
    }
}

/// The service under which the key is filed.
pub fn service_name() -> (service: String)
    ensures
        service@ == spec_service(),
{
    "torqle".to_string()
}

/// What the key store answered to a lookup.
#[derive(Debug, PartialEq, Eq)]
pub enum Lookup {
    /// The key store holds this password for the account.
    Found { password: String },
    /// The key store holds nothing for the account.
    Missing,
    /// The key store could not be asked.
    Failed { why: String },
}

/// What to do after a lookup.
#[derive(Debug, PartialEq, Eq)]
pub enum KeyStep {
    /// The key is known.
    Done { key: String },
    /// Store `key` for the account and report how that went.
    Store { key: String },
    /// Give up with this message.
    Fail { why: String },
}

/// The mathematical value of a [`KeyStep`].
pub enum KeyStepView {
    Done { key: Seq<char> },
    Store { key: Seq<char> },
    Fail { why: Seq<char> },
}

impl View for KeyStep {
    type V = KeyStepView;

    open spec fn view(&self) -> KeyStepView {
        match self {
            KeyStep::Done { key } => KeyStepView::Done { key: key@ },
            KeyStep::Store { key } => KeyStepView::Store { key: key@ },
            KeyStep::Fail { why } => KeyStepView::Fail { why: why@ },
        }
    }
}

/// Decides what a lookup of the application key leads to: a key that was
/// found is the key; where none is stored, `fresh` is to be stored; where
/// the key store failed, so does the fetch, with the key store's words.
pub fn key_after_lookup(found: Lookup, fresh: String) -> (step: KeyStep)
    ensures
        step@ == (match found {
            Lookup::Found { password } => KeyStepView::Done { key: password@ },
            Lookup::Missing => KeyStepView::Store { key: fresh@ },
            Lookup::Failed { why } => KeyStepView::Fail { why: why@ },
        }),
{
    match found {
        Lookup::Found { password } => KeyStep::Done { key: password },
        Lookup::Missing => KeyStep::Store { key: fresh },
        Lookup::Failed { why } => KeyStep::Fail { why },
    }
}

/// Fetches the application key from what the key store answered: the key
/// that was found, or the order to store a newly made one.
pub fn fetch_key(found: Lookup) -> (step: KeyStep)
    ensures
        match found {
            Lookup::Found { password } => step@ == (KeyStepView::Done { key: password@ }),
            Lookup::Missing => step@ is Store && is_key_text(step@->Store_key),
            Lookup::Failed { why } => step@ == (KeyStepView::Fail { why: why@ }),
        },
{
    match found {
        Lookup::Missing => key_after_lookup(Lookup::Missing, generate_aes_256_key()),
        found => key_after_lookup(found, String::new()),
    }
}

/// Settles the creation of a key from what the key store answered to
/// storing it: the new key where it was stored, else the key store's words.
pub fn create_new_app_key(new_key: String, stored: Result<(), String>) -> (outcome: Result<
    String,
    String,
>)
    ensures
        match stored {
            Ok(_) => outcome == Ok::<String, String>(new_key),
            Err(why) => outcome == Err::<String, String>(why),
        },
{
    match stored {
        Ok(_) => Ok(new_key),
        Err(why) => Err(why),
    }
}

/// A key's text has two characters for each byte, all of them lower-case
/// hexadecimal digits.
pub proof fn key_text_is_hex(bytes: Seq<u8>)
    ensures
        spec_hex(bytes).len() == 2 * bytes.len(),
        forall|i: int|
            0 <= i < spec_hex(bytes).len() ==> spec_hex_digits().contains(#[trigger] spec_hex(bytes)[i]),
{
    assert forall|i: int| 0 <= i < spec_hex(bytes).len() implies spec_hex_digits().contains(
        #[trigger] spec_hex(bytes)[i],
    ) by {
        let byte = bytes[i / 2] as int;
        let digit = if i % 2 == 0 {
            byte / 16
        } else {
            byte % 16
        };
        assert(0 <= digit < 16);
        assert(spec_hex(bytes)[i] == spec_hex_digits()[digit]);
    }
}

/// Different keys have different texts: the bytes can be read back from the
/// text.
pub proof fn key_text_tells_bytes(left: Seq<u8>, right: Seq<u8>)
    requires
        spec_hex(left) == spec_hex(right),
    ensures
        left == right,
{
    assert(left.len() == right.len()) by {
        assert(spec_hex(left).len() == 2 * left.len());
        assert(spec_hex(right).len() == 2 * right.len());
    }
    assert forall|k: int| 0 <= k < left.len() implies left[k] == right[k] by {
        let digits = spec_hex_digits();
        let (a, b) = (left[k] as int, right[k] as int);
        assert(spec_hex(left)[2 * k] == digits[a / 16]);
        assert(spec_hex(right)[2 * k] == digits[b / 16]);
        assert(spec_hex(left)[2 * k + 1] == digits[a % 16]);
        assert(spec_hex(right)[2 * k + 1] == digits[b % 16]);
        assert(forall|x: int, y: int| 0 <= x < 16 && 0 <= y < 16 && digits[x] == digits[y] ==> x == y);
        assert(a / 16 == b / 16 && a % 16 == b % 16);
    }
    assert(left =~= right);
}

} // verus!
