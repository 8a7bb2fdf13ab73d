use vstd::prelude::*;

use sha1::{Digest, Sha1};
use vstd::utf8::encode_utf8;

use crate::error::Error;

verus! {

/// Kind of every reply this service sends.
pub const TEXT_KIND: &'static str = "text";

/// A text reply to the messaging platform.
pub struct TextMessage {
    pub to_user_name: String,
    pub from_user_name: String,
    pub create_time: i64,
    pub msg_type: String,
    pub content: String,
}

impl TextMessage {
    /// A text reply from `from_user_name` to `to_user_name`, stamped with
    /// `create_time` (seconds since the epoch).
    pub fn new(to_user_name: String, from_user_name: String, content: String, create_time: i64) -> (r:
        Self)
        ensures
            r.to_user_name == to_user_name,
            r.from_user_name == from_user_name,
            r.content == content,
            r.create_time == create_time,
            r.msg_type@ == TEXT_KIND@,
    {
        let msg_type = TEXT_KIND.to_string();
        proof {
            broadcast use vstd::string::to_string_from_display_ensures_for_str;
        }
        TextMessage { to_user_name, from_user_name, create_time, msg_type, content }
    }
}

/// The query of a verification or message request from the platform.
pub struct WeChatRequest {
    pub signature: String,
    pub timestamp: String,
    pub nonce: String,
    pub echostr: Option<String>,
    pub message: Option<Message>,
}

/// A message envelope as the platform sends it.
pub struct Message {
    pub to_user_name: String,
    pub from_user_name: String,
    pub create_time: i64,
    pub msg_type: String,
    pub content: Option<String>,
    pub msg_id: Option<i64>,
}

/// Byte-wise lexicographic order, the order of `str`.
pub open spec fn lex_le(a: Seq<u8>, b: Seq<u8>) -> bool {
    (a.len() <= b.len() && a == b.take(a.len() as int)) || exists|i: int|
        0 <= i < a.len() && i < b.len() && a.take(i) == b.take(i) && #[trigger] a[i] < b[i]
}

/// The three parts in ascending order, joined.
pub open spec fn join_sorted(a: Seq<u8>, b: Seq<u8>, c: Seq<u8>) -> Seq<u8> {
    if lex_le(a, b) {
        if lex_le(b, c) {
            a + b + c
        } else if lex_le(a, c) {
            a + c + b
        } else {
            c + a + b
        }
    } else {
        if lex_le(a, c) {
            b + a + c
        } else if lex_le(b, c) {
            b + c + a
        } else {
            c + b + a
        }
    }
}

/// What the platform signs: token, timestamp and nonce, sorted and joined.
pub open spec fn spec_signing_input(token: Seq<char>, timestamp: Seq<char>, nonce: Seq<char>) -> Seq<
    u8,
> {
    join_sorted(encode_utf8(token), encode_utf8(timestamp), encode_utf8(nonce))
}

/// The digit for a value below sixteen, in lower case.
pub open spec fn hex_digit(n: u8) -> char {
    seq!['0', '1', '2', '3', '4', '5', '6', '7', '8', '9', 'a', 'b', 'c', 'd', 'e', 'f'][n as int]
}

/// Two lower-case hex digits for each byte, high half first.
pub open spec fn hex_of(b: Seq<u8>) -> Seq<char>
    decreases b.len(),
{
    if b.len() == 0 {
        Seq::empty()
    } else {
        hex_of(b.drop_last()) + seq![hex_digit(b.last() / 16), hex_digit(b.last() % 16)]
    }
}

/// The SHA-1 digest of a byte string.
pub uninterp spec fn sha1_of(data: Seq<u8>) -> Seq<u8>;

/// Relies on sha1's `Digest::digest` for `Sha1`: the SHA-1 digest of the data,
/// whose output size is twenty bytes.
#[verifier::external_body]
fn sha1_digest(data: &[u8]) -> (r: Vec<u8>)
    ensures
        r@ == sha1_of(data@),
        r@.len() == 20,
{
    Sha1::digest(data).to_vec()
}

/// Relies on `hex::encode`: two lower-case digits per byte, high half first.
#[verifier::external_body]
fn hex_encode(data: &[u8]) -> (r: String)
    ensures
        r@ == hex_of(data@),
{
    hex::encode(data)
}

/// Whether `a` comes before `b` or equals it, byte by byte.
pub fn bytes_le(a: &[u8], b: &[u8]) -> (r: bool)
    ensures
        r == lex_le(a@, b@),
{
    let mut i: usize = 0;
    while i < a.len() && i < b.len()
        invariant
            i <= a@.len(),
            i <= b@.len(),
            a@.take(i as int) == b@.take(i as int),
        decreases a@.len() - i,
    {
        if a[i] < b[i] {
            assert(0 <= i < a@.len() && i < b@.len() && a@.take(i as int) == b@.take(i as int)
                && a@[i as int] < b@[i as int]);
            return true;
        }
        if a[i] > b[i] {
            proof {
                assert(a@.len() > b@.take(a@.len() as int).len() || a@ != b@.take(a@.len() as int)
                    || a@.len() > b@.len()) by {
                    if a@.len() <= b@.len() && a@ == b@.take(a@.len() as int) {
                        assert(a@[i as int] == b@.take(a@.len() as int)[i as int]);
                    }
                }
                assert forall|k: int|
                    0 <= k < a@.len() && k < b@.len() && a@.take(k) == b@.take(k) implies !(#[trigger] a@[k]
                    < b@[k]) by {
                    if k < i {
                        assert(a@[k] == a@.take(i as int)[k]);
                        assert(b@[k] == b@.take(i as int)[k]);
                    } else if k > i {
                        assert(a@[i as int] == a@.take(k)[i as int]);
                        assert(b@[i as int] == b@.take(k)[i as int]);
                    }
                }
            }
            return false;
        }
        assert(a@.take(i + 1) =~= a@.take(i as int).push(a@[i as int]));
        assert(b@.take(i + 1) =~= b@.take(i as int).push(b@[i as int]));
        i = i + 1;
    }
    proof {
        assert forall|k: int|
            0 <= k < a@.len() && k < b@.len() && a@.take(k) == b@.take(k) implies !(#[trigger] a@[k]
            < b@[k]) by {
            assert(a@[k] == a@.take(i as int)[k]);
            assert(b@[k] == b@.take(i as int)[k]);
        }
        if i == a@.len() {
            assert(a@ =~= a@.take(i as int));
        } else {
            assert(b@ =~= b@.take(i as int));
            if a@.len() <= b@.len() {
            }
        }
    }
    a.len() <= b.len()
}

fn join3(x: &[u8], y: &[u8], z: &[u8]) -> (r: Vec<u8>)
    ensures
        r@ == x@ + y@ + z@,
{
    let mut r: Vec<u8> = Vec::new();
    r.extend_from_slice(x);
    r.extend_from_slice(y);
    r.extend_from_slice(z);
    assert(r@ =~= x@ + y@ + z@);
    r
}

/// The bytes that the platform signs for this token, timestamp and nonce.
pub fn signing_input(token: &str, timestamp: &str, nonce: &str) -> (r: Vec<u8>)
    ensures
        r@ == spec_signing_input(token@, timestamp@, nonce@),
{
    let a = token.as_bytes();
    let b = timestamp.as_bytes();
    let c = nonce.as_bytes();
    if bytes_le(a, b) {
        if bytes_le(b, c) {
            join3(a, b, c)
        } else if bytes_le(a, c) {
            join3(a, c, b)
        } else {
            join3(c, a, b)
        }
    } else {
        if bytes_le(a, c) {
            join3(b, a, c)
        } else if bytes_le(b, c) {
            join3(b, c, a)
        } else {
            join3(c, b, a)
        }
    }
}

/// Whether `signature` is the hex form of `digest`.
pub fn signature_matches(digest: &[u8], signature: &String) -> (r: bool)
    ensures
        r == (signature@ == hex_of(digest@)),
{
    let expected = hex_encode(digest);
    expected == *signature
}

/// Accepts the request when its signature is the hex SHA-1 digest of the
/// sorted, joined token, timestamp and nonce.
pub fn verify_signature(info: &WeChatRequest, token: &str) -> (r: Result<(), Error>)
    ensures
        r is Ok <==> info.signature@ == hex_of(
            sha1_of(spec_signing_input(token@, info.timestamp@, info.nonce@)),
        ),
        r is Err ==> r == Err::<(), Error>(Error::InvalidSignature),
{
    let input = signing_input(token, info.timestamp.as_str(), info.nonce.as_str());
    let digest = sha1_digest(input.as_slice());
    if signature_matches(digest.as_slice(), &info.signature) {
        Ok(())
    } else {
        Err(Error::InvalidSignature)
    }
}

} // verus!
