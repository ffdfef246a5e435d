use vstd::prelude::*;
use aes_gcm::aead::rand_core::RngCore;
use aes_gcm::aead::{Aead, KeyInit};
use rand::Rng;
use sha2::Digest;
use vstd::string::StringSliceAdditionalSpecFns;

verus! {

/// Length of an AES-256 key, in bytes.
pub const KEY_LEN: usize = 32;

/// Length of an AES-GCM nonce, in bytes.
pub const NONCE_LEN: usize = 12;

/// Length of the authentication tag that AES-GCM appends, in bytes.
pub const TAG_LEN: usize = 16;

/// The longest plaintext AES-GCM accepts, in bytes.
pub const MAX_PLAINTEXT: u64 = 68719476736;

/// Length of a secure code, in characters.
pub const SECURE_CODE_LEN: usize = 6;

/// The SHA-256 digest of a byte string.
pub uninterp spec fn sha256_of(data: Seq<u8>) -> Seq<u8>;

/// The AES-256-GCM ciphertext (tag appended) of a message under a key and nonce.
pub uninterp spec fn aes_gcm_sealed(key: Seq<u8>, nonce: Seq<u8>, msg: Seq<u8>) -> Seq<u8>;

/// What AES-256-GCM decryption gives for a ciphertext: the message, or `None`
/// where it refuses the input.
pub uninterp spec fn aes_gcm_opened(key: Seq<u8>, nonce: Seq<u8>, ct: Seq<u8>) -> Option<Seq<u8>>;

pub open spec fn is_ascii_alnum(c: u8) -> bool {
    (48 <= c <= 57) || (65 <= c <= 90) || (97 <= c <= 122)
}

pub open spec fn is_code_char(c: char) -> bool {
    ('0' <= c <= '9') || ('A' <= c <= 'Z')
}

/// Six characters, each an upper-case letter or a digit.
pub open spec fn is_secure_code(s: Seq<char>) -> bool {
    s.len() == SECURE_CODE_LEN && forall|i: int| 0 <= i < s.len() ==> is_code_char(#[trigger] s[i])
}

/// The upper-case character of an ASCII letter or digit.
pub open spec fn upper_of(c: u8) -> char {
    if 97 <= c <= 122 {
        ((c - 32) as u8) as char
    } else {
        c as char
    }
}

/// The error type of aes-gcm's AEAD operations; it carries nothing.
#[verifier::external_type_specification]
#[verifier::external_body]
pub struct ExAeadError(aes_gcm::Error);

/// The eight bytes of `x`, most significant first.
pub open spec fn be_bytes(x: u64) -> Seq<u8> {
    seq![
        ((x >> 56u64) & 0xffu64) as u8,
        ((x >> 48u64) & 0xffu64) as u8,
        ((x >> 40u64) & 0xffu64) as u8,
        ((x >> 32u64) & 0xffu64) as u8,
        ((x >> 24u64) & 0xffu64) as u8,
        ((x >> 16u64) & 0xffu64) as u8,
        ((x >> 8u64) & 0xffu64) as u8,
        (x & 0xffu64) as u8,
    ]
}

/// The nonce of chunk `index` of a stream: the first four bytes of the
/// stream's nonce, then the index in eight bytes.
pub open spec fn chunk_nonce_spec(base: Seq<u8>, index: u64) -> Seq<u8> {
    base.subrange(0, 4) + be_bytes(index)
}

/// Relies on sha2's `Sha256::digest`: the digest of the bytes, 32 bytes long.
#[verifier::external_body]
fn sha256_digest(data: &[u8]) -> (r: Vec<u8>)
    ensures
        r@ == sha256_of(data@),
        r@.len() == KEY_LEN,
{
    sha2::Sha256::digest(data).to_vec()
}

/// Relies on aes-gcm's `Aes256Gcm::encrypt`: it appends a 16-byte tag, fails
/// only on a plaintext longer than 2^36 bytes, and what it seals decrypts back
/// under the same key and nonce.
#[verifier::external_body]
fn aes_gcm_encrypt(key: &[u8], nonce: &[u8], msg: &[u8]) -> (r: Result<Vec<u8>, aes_gcm::Error>)
    requires
        key@.len() == KEY_LEN,
        nonce@.len() == NONCE_LEN,
    ensures
        r is Ok <==> msg@.len() <= MAX_PLAINTEXT,
        r is Ok ==> r->Ok_0@ == aes_gcm_sealed(key@, nonce@, msg@),
        r is Ok ==> aes_gcm_opened(key@, nonce@, r->Ok_0@) == Some(msg@),
        r is Ok ==> r->Ok_0@.len() == msg@.len() + TAG_LEN,
{
    let cipher = aes_gcm::Aes256Gcm::new(aes_gcm::Key::<aes_gcm::Aes256Gcm>::from_slice(key));
    cipher.encrypt(aes_gcm::Nonce::from_slice(nonce), msg)
}

/// Relies on aes-gcm's `Aes256Gcm::decrypt`: the message when the tag
/// authenticates, an error otherwise, always an error when the input is shorter
/// than the tag; the outcome depends on key, nonce and input alone.
#[verifier::external_body]
fn aes_gcm_decrypt(key: &[u8], nonce: &[u8], ct: &[u8]) -> (r: Result<Vec<u8>, aes_gcm::Error>)
    requires
        key@.len() == KEY_LEN,
        nonce@.len() == NONCE_LEN,
    ensures
        r is Ok <==> aes_gcm_opened(key@, nonce@, ct@) is Some,
        r is Ok ==> aes_gcm_opened(key@, nonce@, ct@) == Some(r->Ok_0@),
        r is Ok ==> r->Ok_0@.len() + TAG_LEN == ct@.len(),
        ct@.len() < TAG_LEN ==> r is Err,
{
    let cipher = aes_gcm::Aes256Gcm::new(aes_gcm::Key::<aes_gcm::Aes256Gcm>::from_slice(key));
    cipher.decrypt(aes_gcm::Nonce::from_slice(nonce), ct)
}

/// Relies on rand_core's `OsRng::fill_bytes`: random bytes from the operating
/// system, as many as asked for.
#[verifier::external_body]
fn random_bytes(n: usize) -> (r: Vec<u8>)
    ensures
        r@.len() == n,
{
    let mut v = vec![0u8; n];
    aes_gcm::aead::OsRng.fill_bytes(&mut v);
    v
}

/// Relies on rand's `Alphanumeric` distribution: `n` random ASCII letters and
/// digits.
#[verifier::external_body]
fn random_alphanumeric(n: usize) -> (r: Vec<u8>)
    ensures
        r@.len() == n,
        forall|i: int| 0 <= i < n ==> is_ascii_alnum(#[trigger] r@[i]),
{
    rand::thread_rng().sample_iter(&rand::distributions::Alphanumeric).take(n).collect()
}

/// Relies on `String::push`: the character goes to the end.
#[verifier::external_body]
pub(crate) fn push_char(s: &mut String, c: char)
    ensures
        final(s)@ == old(s)@.push(c),
{
    s.push(c)
}

/// Authenticated encryption of file chunks under a key derived from a password.
pub struct FileEncryption {
    key: Vec<u8>,
    nonce: Vec<u8>,
    next_chunk: u64,
}

impl FileEncryption {
    pub closed spec fn key(&self) -> Seq<u8> {
        self.key@
    }

    pub closed spec fn nonce(&self) -> Seq<u8> {
        self.nonce@
    }

    /// The index of the chunk that `encrypt_chunk` or `decrypt_chunk` takes next.
    pub closed spec fn chunk_index(&self) -> u64 {
        self.next_chunk
    }

    pub fn next_chunk_index(&self) -> (r: u64)
        ensures
            r == self.chunk_index(),
    {
        self.next_chunk
    }

    /// The key is the SHA-256 digest of the password's UTF-8 bytes; the nonce
    /// is fresh from the operating system.
    pub fn new(password: &str) -> (r: FileEncryption)
        ensures
            r.key() == sha256_of(password.spec_bytes()),
            r.key().len() == KEY_LEN,
            r.nonce().len() == NONCE_LEN,
            r.chunk_index() == 0,
    {
        let key = sha256_digest(password.as_bytes());
        FileEncryption { key, nonce: random_bytes(NONCE_LEN), next_chunk: 0 }
    }

    /// The context of the same password with a nonce that was given, as a
    /// receiver builds it from a stream's header.
    pub fn from_key_and_nonce(password: &str, nonce: Vec<u8>) -> (r: FileEncryption)
        ensures
            r.key() == sha256_of(password.spec_bytes()),
            r.key().len() == KEY_LEN,
            r.nonce() == nonce@,
            r.chunk_index() == 0,
    {
        let key = sha256_digest(password.as_bytes());
        FileEncryption { key, nonce, next_chunk: 0 }
    }

    /// Encrypts and authenticates the next chunk of the stream, under that
    /// chunk's own nonce, and moves on to the chunk after it. Fails, and stays
    /// on the same chunk, on a nonce that is not 12 bytes long, on a chunk longer
    /// than AES-GCM accepts and once the chunk index is exhausted.
    pub fn encrypt_chunk(&mut self, plaintext: &[u8]) -> (r: Result<Vec<u8>, String>)
        requires
            old(self).key().len() == KEY_LEN,
        ensures
            final(self).key() == old(self).key(),
            final(self).nonce() == old(self).nonce(),
            r is Ok <==> old(self).nonce().len() == NONCE_LEN && plaintext@.len() <= MAX_PLAINTEXT
                && old(self).chunk_index() < u64::MAX,
            r is Ok ==> r->Ok_0@ == aes_gcm_sealed(
                old(self).key(),
                chunk_nonce_spec(old(self).nonce(), old(self).chunk_index()),
                plaintext@,
            ) && r->Ok_0@.len() == plaintext@.len() + TAG_LEN && final(self).chunk_index()
                == old(self).chunk_index() + 1,
            r is Err ==> final(self).chunk_index() == old(self).chunk_index(),
    {
        if self.next_chunk == u64::MAX {
            return Err(String::from_str("Encryption failed: the stream has too many chunks"));
        }
        let r = self.encrypt_chunk_at(self.next_chunk, plaintext);
        if r.is_ok() {
            self.next_chunk = self.next_chunk + 1;
        }
        r
    }

    /// Checks and decrypts the next chunk of a stream sealed by
    /// `encrypt_chunk`, and moves on to the chunk after it. Fails, and stays on
    /// the same chunk, where the chunk does not authenticate.
    pub fn decrypt_chunk(&mut self, ciphertext: &[u8]) -> (r: Result<Vec<u8>, String>)
        requires
            old(self).key().len() == KEY_LEN,
        ensures
            final(self).key() == old(self).key(),
            final(self).nonce() == old(self).nonce(),
            r is Ok <==> old(self).nonce().len() == NONCE_LEN && old(self).chunk_index() < u64::MAX
                && aes_gcm_opened(
                old(self).key(),
                chunk_nonce_spec(old(self).nonce(), old(self).chunk_index()),
                ciphertext@,
            ) is Some,
            r is Ok ==> aes_gcm_opened(
                old(self).key(),
                chunk_nonce_spec(old(self).nonce(), old(self).chunk_index()),
                ciphertext@,
            ) == Some(r->Ok_0@) && r->Ok_0@.len() + TAG_LEN == ciphertext@.len()
                && final(self).chunk_index() == old(self).chunk_index() + 1,
            r is Err ==> final(self).chunk_index() == old(self).chunk_index(),
    {
        if self.next_chunk == u64::MAX {
            return Err(String::from_str("Decryption failed: the stream has too many chunks"));
        }
        let r = self.decrypt_chunk_at(self.next_chunk, ciphertext);
        if r.is_ok() {
            self.next_chunk = self.next_chunk + 1;
        }
        r
    }

    /// Encrypts chunk `index` of a stream under its own nonce, so that no two
    /// chunks of one stream share a nonce.
    pub fn encrypt_chunk_at(&self, index: u64, plaintext: &[u8]) -> (r: Result<Vec<u8>, String>)
        requires
            self.key().len() == KEY_LEN,
        ensures
            r is Ok <==> self.nonce().len() == NONCE_LEN && plaintext@.len() <= MAX_PLAINTEXT,
            r is Ok ==> r->Ok_0@ == aes_gcm_sealed(
                self.key(),
                chunk_nonce_spec(self.nonce(), index),
                plaintext@,
            ) && r->Ok_0@.len() == plaintext@.len() + TAG_LEN,
    {
        if self.nonce.len() != NONCE_LEN {
            return Err(String::from_str("Encryption failed: the nonce is not 12 bytes long"));
        }
        let nonce = chunk_nonce(self.nonce.as_slice(), index);
        match aes_gcm_encrypt(self.key.as_slice(), nonce.as_slice(), plaintext) {
            Ok(c) => Ok(c),
            Err(_) => Err(String::from_str("Encryption failed: aead::Error")),
        }
    }

    /// Checks and decrypts chunk `index` of a stream sealed by `encrypt_chunk_at`.
    pub fn decrypt_chunk_at(&self, index: u64, ciphertext: &[u8]) -> (r: Result<Vec<u8>, String>)
        requires
            self.key().len() == KEY_LEN,
        ensures
            r is Ok <==> self.nonce().len() == NONCE_LEN && aes_gcm_opened(
                self.key(),
                chunk_nonce_spec(self.nonce(), index),
                ciphertext@,
            ) is Some,
            r is Ok ==> aes_gcm_opened(
                self.key(),
                chunk_nonce_spec(self.nonce(), index),
                ciphertext@,
            ) == Some(r->Ok_0@) && r->Ok_0@.len() + TAG_LEN == ciphertext@.len(),
    {
        if self.nonce.len() != NONCE_LEN {
            return Err(String::from_str("Decryption failed: the nonce is not 12 bytes long"));
        }
        let nonce = chunk_nonce(self.nonce.as_slice(), index);
        match aes_gcm_decrypt(self.key.as_slice(), nonce.as_slice(), ciphertext) {
            Ok(m) => Ok(m),
            Err(_) => Err(String::from_str("Decryption failed: aead::Error")),
        }
    }

    pub fn get_nonce(&self) -> (r: &[u8])
        ensures
            r@ == self.nonce(),
    {
        self.nonce.as_slice()
    }
}

/// What is written ahead of an encrypted stream so that a receiver can decrypt it.
#[derive(Debug, Clone)]
pub struct EncryptedFileHeader {
    pub original_size: u64,
    pub nonce: Vec<u8>,
    pub chunk_size: usize,
}

impl EncryptedFileHeader {
    /// The header of a stream of `original_size` bytes sealed under this
    /// context, in chunks of `chunk_size` bytes.
    pub fn for_stream(enc: &FileEncryption, original_size: u64, chunk_size: usize) -> (r:
        EncryptedFileHeader)
        ensures
            r.original_size == original_size,
            r.nonce@ == enc.nonce(),
            r.chunk_size == chunk_size,
    {
        let mut nonce: Vec<u8> = Vec::new();
        let n = enc.get_nonce();
        let mut i: usize = 0;
        while i < n.len()
            invariant
                i <= n@.len(),
                nonce@ == n@.subrange(0, i as int),
            decreases n@.len() - i,
        {
            nonce.push(n[i]);
            i = i + 1;
            assert(nonce@ =~= n@.subrange(0, i as int));
        }
        assert(n@.subrange(0, i as int) =~= n@);
        EncryptedFileHeader { original_size, nonce, chunk_size }
    }
}

/// The nonce of chunk `index` for a stream nonce of twelve bytes.
fn chunk_nonce(base: &[u8], index: u64) -> (r: Vec<u8>)
    requires
        base@.len() == NONCE_LEN,
    ensures
        r@ == chunk_nonce_spec(base@, index),
        r@.len() == NONCE_LEN,
{
    let mut v: Vec<u8> = Vec::new();
    v.push(base[0]);
    v.push(base[1]);
    v.push(base[2]);
    v.push(base[3]);
    v.push(((index >> 56u64) & 0xffu64) as u8);
    v.push(((index >> 48u64) & 0xffu64) as u8);
    v.push(((index >> 40u64) & 0xffu64) as u8);
    v.push(((index >> 32u64) & 0xffu64) as u8);
    v.push(((index >> 24u64) & 0xffu64) as u8);
    v.push(((index >> 16u64) & 0xffu64) as u8);
    v.push(((index >> 8u64) & 0xffu64) as u8);
    v.push((index & 0xffu64) as u8);
    assert(v@ =~= chunk_nonce_spec(base@, index));
    v
}

/// Two different chunks of one stream never share a nonce.
pub proof fn lemma_chunk_nonces_distinct(base: Seq<u8>, i: u64, j: u64)
    requires
        base.len() == NONCE_LEN,
        i != j,
    ensures
        chunk_nonce_spec(base, i) != chunk_nonce_spec(base, j),
{
    if chunk_nonce_spec(base, i) == chunk_nonce_spec(base, j) {
        let a = chunk_nonce_spec(base, i);
        let b = chunk_nonce_spec(base, j);
        assert forall|k: int| 0 <= k < 8 implies be_bytes(i)[k] == be_bytes(j)[k] by {
            assert(a[k + 4] == b[k + 4]);
        }
        assert(i == j) by (bit_vector)
            requires
                ((i >> 56u64) & 0xffu64) as u8 == ((j >> 56u64) & 0xffu64) as u8,
                ((i >> 48u64) & 0xffu64) as u8 == ((j >> 48u64) & 0xffu64) as u8,
                ((i >> 40u64) & 0xffu64) as u8 == ((j >> 40u64) & 0xffu64) as u8,
                ((i >> 32u64) & 0xffu64) as u8 == ((j >> 32u64) & 0xffu64) as u8,
                ((i >> 24u64) & 0xffu64) as u8 == ((j >> 24u64) & 0xffu64) as u8,
                ((i >> 16u64) & 0xffu64) as u8 == ((j >> 16u64) & 0xffu64) as u8,
                ((i >> 8u64) & 0xffu64) as u8 == ((j >> 8u64) & 0xffu64) as u8,
                (i & 0xffu64) as u8 == (j & 0xffu64) as u8,
        ;
    }
}

/// The secure code made of the given letters and digits, upper-cased.
pub fn secure_code_from(raw: &Vec<u8>) -> (r: String)
    requires
        forall|i: int| 0 <= i < raw@.len() ==> is_ascii_alnum(#[trigger] raw@[i]),
    ensures
        r@ == raw@.map_values(|c: u8| upper_of(c)),
        forall|i: int| 0 <= i < r@.len() ==> is_code_char(#[trigger] r@[i]),
{
    let mut s = String::new();
    let mut i: usize = 0;
    while i < raw.len()
        invariant
            i <= raw@.len(),
            forall|k: int| 0 <= k < raw@.len() ==> is_ascii_alnum(#[trigger] raw@[k]),
            s@ == raw@.subrange(0, i as int).map_values(|c: u8| upper_of(c)),
        decreases raw@.len() - i,
    {
        let c = raw[i];
        let u: char = if c >= 97 && c <= 122 {
            (c - 32) as char
        } else {
            c as char
        };
        push_char(&mut s, u);
        i = i + 1;
        assert(s@ =~= raw@.subrange(0, i as int).map_values(|c: u8| upper_of(c)));
    }
    assert(raw@.subrange(0, i as int) =~= raw@);
    proof {
        assert forall|k: int| 0 <= k < s@.len() implies is_code_char(#[trigger] s@[k]) by {
            let c = raw@[k];
            assert(is_ascii_alnum(c));
            if 97 <= c <= 122 {
                assert(((c - 32) as u8) as char == upper_of(c));
            }
        }
    }
    s
}

/// A random code of six upper-case letters and digits, to be compared out of band.
pub fn generate_secure_code() -> (r: String)
    ensures
        is_secure_code(r@),
{
    let raw = random_alphanumeric(SECURE_CODE_LEN);
    secure_code_from(&raw)
}

} // verus!
