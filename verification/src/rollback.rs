//! Rollback snapshots: the encrypted vault's framing, snapshot records, and the
//! choice of strategy.
use crate::text::{digit_char, push_char, seq_starts_with, str_starts_with};
use aes_gcm::aead::{Aead, AeadCore, KeyInit, OsRng};
use aes_gcm::{Aes256Gcm, Key, Nonce};
use sha2::Digest;
use vstd::prelude::*;

verus! {

/// The length of an AES-GCM nonce, stored at the head of every vault file.
pub const NONCE_LEN: usize = 12;

/// The largest plaintext AES-256-GCM encrypts (2^36 bytes).
pub const MAX_PLAINTEXT_LEN: u64 = 0x10_0000_0000;

/// What `Aes256Gcm::encrypt` gives for a key, a nonce and a plaintext.
pub uninterp spec fn spec_aes_encrypt(key: Seq<u8>, nonce: Seq<u8>, plaintext: Seq<u8>) -> Seq<u8>;

/// What `Aes256Gcm::decrypt` gives for a key, a nonce and a ciphertext: the plaintext,
/// or None when authentication fails.
pub uninterp spec fn spec_aes_decrypt(key: Seq<u8>, nonce: Seq<u8>, ciphertext: Seq<u8>) -> Option<Seq<u8>>;

/// What `Sha256::digest` gives for some bytes.
pub uninterp spec fn spec_sha256(data: Seq<u8>) -> Seq<u8>;

/// Calls `Aes256Gcm::encrypt` under a 32-byte key and a 12-byte nonce. The aes-gcm
/// source refuses only plaintexts over 2^36 bytes; the ciphertext is the encrypted
/// text followed by a 16-byte tag; and, as the aead documentation states, the same
/// key and nonce decrypt it back to the plaintext. The error's `Display` is "aead::Error".
#[verifier::external_body]
fn aes_encrypt(key: &[u8], nonce: &[u8], plaintext: &[u8]) -> (r: Result<Vec<u8>, String>)
    requires
        key@.len() == 32,
        nonce@.len() == 12,
    ensures
        plaintext@.len() <= MAX_PLAINTEXT_LEN ==> r is Ok,
        r matches Ok(c) ==> c@ == spec_aes_encrypt(key@, nonce@, plaintext@) && c@.len() == plaintext@.len() + 16
            && spec_aes_decrypt(key@, nonce@, c@) == Some(plaintext@),
        r matches Err(m) ==> m@ == "aead::Error"@,
{
    let cipher = Aes256Gcm::new(Key::<Aes256Gcm>::from_slice(key));
    match cipher.encrypt(Nonce::from_slice(nonce), plaintext) {
        Ok(c) => Ok(c),
        Err(e) => Err(e.to_string()),
    }
}

/// Calls `Aes256Gcm::decrypt` under a 32-byte key and a 12-byte nonce; its result is
/// named by `spec_aes_decrypt`. The error's `Display` is "aead::Error".
#[verifier::external_body]
fn aes_decrypt(key: &[u8], nonce: &[u8], ciphertext: &[u8]) -> (r: Result<Vec<u8>, String>)
    requires
        key@.len() == 32,
        nonce@.len() == 12,
    ensures
        match r {
            Ok(p) => spec_aes_decrypt(key@, nonce@, ciphertext@) == Some(p@),
            Err(m) => spec_aes_decrypt(key@, nonce@, ciphertext@) is None && m@ == "aead::Error"@,
        },
{
    let cipher = Aes256Gcm::new(Key::<Aes256Gcm>::from_slice(key));
    match cipher.decrypt(Nonce::from_slice(nonce), ciphertext) {
        Ok(p) => Ok(p),
        Err(e) => Err(e.to_string()),
    }
}

/// Calls `Aes256Gcm::generate_nonce` with the operating system's random source:
/// 12 random bytes. Nothing else is stated of them.
#[verifier::external_body]
fn random_nonce() -> (r: Vec<u8>)
    ensures
        r@.len() == 12,
{
    Aes256Gcm::generate_nonce(&mut OsRng).to_vec()
}

/// Calls `Sha256::digest`: 32 bytes, named by `spec_sha256`.
#[verifier::external_body]
fn sha256_digest(data: &[u8]) -> (r: Vec<u8>)
    ensures
        r@ == spec_sha256(data@),
        r@.len() == 32,
{
    sha2::Sha256::digest(data).to_vec()
}

/// Two lower-case hexadecimal digits per byte.
pub open spec fn hex_bytes(s: Seq<u8>) -> Seq<char>
    decreases s.len(),
{
    if s.len() == 0 {
        Seq::empty()
    } else {
        hex_bytes(s.drop_last()) + seq![digit_char((s.last() / 16) as nat), digit_char((s.last() % 16) as nat)]
    }
}

fn hex_digit(d: u8) -> (c: char)
    requires
        d < 16,
    ensures
        c == digit_char(d as nat),
{
    if d < 10 {
        (48 + d) as char
    } else {
        (87 + d) as char
    }
}

/// The SHA-256 digest of some bytes in lower-case hexadecimal (`{:x}`).
pub fn sha256_hex(data: &[u8]) -> (r: String)
    ensures
        r@ == hex_bytes(spec_sha256(data@)),
        r@.len() == 64,
{
    let digest = sha256_digest(data);
    let mut r = String::new();
    let mut i: usize = 0;
    while i < digest.len()
        invariant
            i <= digest@.len(),
            r@ == hex_bytes(digest@.subrange(0, i as int)),
            r@.len() == 2 * i,
        decreases digest.len() - i,
    {
        let b = digest[i];
        push_char(&mut r, hex_digit(b / 16));
        push_char(&mut r, hex_digit(b % 16));
        i = i + 1;
        assert(digest@.subrange(0, i as int).drop_last() =~= digest@.subrange(0, i - 1));
    }
    assert(digest@.subrange(0, digest.len() as int) =~= digest@);
    r
}

/// `bytes` is a vault file sealing `plaintext` under `key`: a 12-byte nonce, then the
/// ciphertext of the plaintext under that nonce, which the same key and nonce open.
pub open spec fn sealed(key: Seq<u8>, plaintext: Seq<u8>, bytes: Seq<u8>) -> bool {
    &&& bytes.len() >= 12
    &&& bytes.skip(12) == spec_aes_encrypt(key, bytes.take(12), plaintext)
    &&& spec_aes_decrypt(key, bytes.take(12), bytes.skip(12)) == Some(plaintext)
}

/// What opening a vault file gives: None for a file shorter than a nonce or one that
/// fails authentication, else the plaintext.
pub open spec fn opened(key: Seq<u8>, bytes: Seq<u8>) -> Option<Seq<u8>> {
    if bytes.len() < 12 {
        None
    } else {
        spec_aes_decrypt(key, bytes.take(12), bytes.skip(12))
    }
}

/// The vault's cipher state: the AES-256 key (32 bytes) and the directory of its files.
pub struct VaultManager {
    pub vault_dir: String,
    key: Vec<u8>,
}

impl VaultManager {
    #[verifier::type_invariant]
    spec fn key_is_256_bits(self) -> bool {
        self.key@.len() == 32
    }

    /// The directory holding the vault's files.
    pub closed spec fn spec_vault_dir(&self) -> String {
        self.vault_dir
    }

    /// The vault's key.
    pub closed spec fn spec_key(&self) -> Seq<u8> {
        self.key@
    }

    /// A vault over a directory with a 32-byte key.
    pub fn with_key(vault_dir: String, key: Vec<u8>) -> (r: Self)
        requires
            key@.len() == 32,
        ensures
            r.spec_vault_dir() == vault_dir,
            r.spec_key() == key@,
            r.spec_key().len() == 32,
    {
        VaultManager { vault_dir, key }
    }

    /// Encrypts a plaintext under a fresh random nonce: the vault file is the nonce
    /// followed by the ciphertext.
    pub fn seal(&self, plaintext: &[u8]) -> (r: Result<Vec<u8>, String>)
        ensures
            plaintext@.len() <= MAX_PLAINTEXT_LEN ==> r is Ok,
            r matches Ok(b) ==> sealed(self.spec_key(), plaintext@, b@) && b@.len() == plaintext@.len() + 28,
            r matches Err(m) ==> m@ == "Encryption failed: aead::Error"@,
    {
        proof {
            use_type_invariant(self);
        }
        let nonce = random_nonce();
        match aes_encrypt(self.key.as_slice(), nonce.as_slice(), plaintext) {
            Ok(ciphertext) => {
                let mut bytes = nonce;
                let ghost n = bytes@;
                let mut i: usize = 0;
                while i < ciphertext.len()
                    invariant
                        i <= ciphertext@.len(),
                        bytes@ == n + ciphertext@.subrange(0, i as int),
                    decreases ciphertext.len() - i,
                {
                    bytes.push(ciphertext[i]);
                    i = i + 1;
                    assert(ciphertext@.subrange(0, i as int) =~= ciphertext@.subrange(0, i - 1).push(ciphertext@[i - 1]));
                }
                assert(ciphertext@.subrange(0, ciphertext.len() as int) =~= ciphertext@);
                assert(bytes@.take(12) =~= n);
                assert(bytes@.skip(12) =~= ciphertext@);
                Ok(bytes)
            },
            Err(e) => {
                let mut m = String::from_str("Encryption failed: ");
                m.append(e.as_str());
                proof {
                    reveal_strlit("Encryption failed: ");
                    reveal_strlit("aead::Error");
                    reveal_strlit("Encryption failed: aead::Error");
                    assert(m@ =~= "Encryption failed: aead::Error"@);
                }
                Err(m)
            },
        }
    }

    /// Decrypts a vault file: the first 12 bytes are the nonce, the rest the ciphertext.
    pub fn open(&self, bytes: &[u8]) -> (r: Result<Vec<u8>, String>)
        ensures
            match r {
                Ok(p) => opened(self.spec_key(), bytes@) == Some(p@),
                Err(m) => opened(self.spec_key(), bytes@) is None && (if bytes@.len() < 12 {
                    m@ == "Vault file too short — corrupt?"@
                } else {
                    m@ == "Decryption failed: aead::Error"@
                }),
            },
    {
        proof {
            use_type_invariant(self);
        }
        if bytes.len() < NONCE_LEN {
            return Err(String::from_str("Vault file too short — corrupt?"));
        }
        let nonce = slice_range(bytes, 0, NONCE_LEN);
        let ciphertext = slice_range(bytes, NONCE_LEN, bytes.len());
        assert(nonce@ =~= bytes@.take(12));
        assert(ciphertext@ =~= bytes@.skip(12));
        let k = self.key.as_slice();
        let ns = nonce.as_slice();
        let cs = ciphertext.as_slice();
        assert(k@ == self.key@ && ns@ == nonce@ && cs@ == ciphertext@);
        match aes_decrypt(k, ns, cs) {
            Ok(p) => Ok(p),
            Err(e) => {
                let mut m = String::from_str("Decryption failed: ");
                m.append(e.as_str());
                proof {
                    reveal_strlit("Decryption failed: ");
                    reveal_strlit("aead::Error");
                    reveal_strlit("Decryption failed: aead::Error");
                    assert(m@ =~= "Decryption failed: aead::Error"@);
                }
                Err(m)
            },
        }
    }
}

/// A copy of `bytes[from..to]`.
fn slice_range(bytes: &[u8], from: usize, to: usize) -> (r: Vec<u8>)
    requires
        from <= to <= bytes@.len(),
    ensures
        r@ == bytes@.subrange(from as int, to as int),
{
    let mut r: Vec<u8> = Vec::new();
    let mut i = from;
    while i < to
        invariant
            from <= i <= to,
            to <= bytes@.len(),
            r@ == bytes@.subrange(from as int, i as int),
        decreases to - i,
    {
        r.push(bytes[i]);
        i = i + 1;
        assert(bytes@.subrange(from as int, i as int) =~= bytes@.subrange(from as int, i - 1).push(bytes@[i - 1]));
    }
    r
}

/// A file the vault sealed opens to the plaintext it was given.
pub proof fn sealed_file_opens_to_plaintext(key: Seq<u8>, plaintext: Seq<u8>, bytes: Seq<u8>)
    requires
        sealed(key, plaintext, bytes),
    ensures
        opened(key, bytes) == Some(plaintext),
{
}

/// A vault file sealed by one vault opens to its plaintext in any vault holding the
/// same key (such as the same vault reopened on its directory, whose key file keeps it).
pub proof fn vault_round_trip(v: VaultManager, w: VaultManager, plaintext: Seq<u8>, bytes: Seq<u8>)
    requires
        sealed(v.spec_key(), plaintext, bytes),
        w.spec_key() == v.spec_key(),
    ensures
        opened(w.spec_key(), bytes) == Some(plaintext),
{
}

/// The prefix of file URIs.
pub open spec fn file_scheme() -> Seq<char> {
    "file://"@
}

/// The path a URI names: the URI without "file://", or the URI itself.
pub open spec fn path_of_uri(uri: Seq<char>) -> Seq<char> {
    if seq_starts_with(uri, file_scheme()) {
        uri.skip(7)
    } else {
        uri
    }
}

/// The path a URI names (`strip_prefix("file://")`, falling back to the URI).
pub fn snapshot_path(uri: &str) -> (r: String)
    ensures
        r@ == path_of_uri(uri@),
{
    if str_starts_with(uri, "file://") {
        proof {
            reveal_strlit("file://");
        }
        let n = uri.unicode_len();
        String::from_str(uri.substring_char(7, n))
    } else {
        String::from_str(uri)
    }
}

/// The file to snapshot before an action: only "file://" targets have one.
pub fn snapshot_target(uri: &str) -> (r: Option<String>)
    ensures
        r is Some <==> seq_starts_with(uri@, file_scheme()),
        r matches Some(p) ==> p@ == path_of_uri(uri@),
{
    if str_starts_with(uri, "file://") {
        Some(snapshot_path(uri))
    } else {
        None
    }
}

/// How a resource is snapshotted.
#[derive(Debug, Clone, Copy, PartialEq, Eq, Structural)]
pub enum StrategyKind {
    /// Copy the whole file, encrypted, into the vault.
    FileCopy,
    /// Record only the hash, size and modification time.
    MetadataOnly,
}

/// The size in bytes of a file (0 when its size is unknown).
pub open spec fn size_bytes(len: Option<u64>) -> nat {
    match len {
        Some(n) => n as nat,
        None => 0,
    }
}

/// Files larger than the configured MiB are recorded by metadata; the others are copied.
pub fn strategy_for(file_len: Option<u64>, max_file_size_mb: u64) -> (k: StrategyKind)
    ensures
        k == (if size_bytes(file_len) > max_file_size_mb * 1048576 {
            StrategyKind::MetadataOnly
        } else {
            StrategyKind::FileCopy
        }),
{
    let size: u128 = match file_len {
        Some(n) => n as u128,
        None => 0,
    };
    let limit: u128 = max_file_size_mb as u128 * 1048576;
    if size > limit {
        StrategyKind::MetadataOnly
    } else {
        StrategyKind::FileCopy
    }
}

/// A row of the `rollback_snapshots` table.
#[derive(Debug, Clone)]
pub struct SnapshotRecord {
    pub snapshot_id: String,
    pub agent_id: String,
    pub permission_token: String,
    pub resource_uri: String,
    pub strategy_used: &'static str,
    pub vault_path: Option<String>,
    pub metadata_json: Option<String>,
    pub created_at: i64,
    pub expires_at: i64,
}

/// A snapshot taken at `now` expires `retention_hours` hours later.
pub open spec fn expiry(now: i64, retention_hours: u64) -> int {
    now + retention_hours * 3600
}

/// The pluggable rollback-strategy interface (the part that does no I/O).
pub trait RollbackStrategy {
    spec fn spec_name(&self) -> Seq<char>;

    /// The strategy's name, as stored with its snapshots.
    fn name(&self) -> (r: &'static str)
        ensures
            r@ == self.spec_name(),
    ;

    /// Restores a resource from a snapshot.
    fn restore(&self, snapshot_id: &String) -> (r: Result<(), String>);
}

/// Copies small files, encrypted, into the vault.
pub struct FileCopyStrategy {
    pub retention_hours: u64,
}

/// Records the hash, size and modification time of files too large to copy; it
/// detects tampering but cannot restore content.
pub struct MetadataOnlyStrategy {
    pub retention_hours: u64,
}

fn snapshot_record(
    snapshot_id: String,
    agent_id: &str,
    permission_token: &str,
    uri: &str,
    strategy_used: &'static str,
    vault_path: Option<String>,
    metadata_json: Option<String>,
    now: i64,
    retention_hours: u64,
) -> (r: SnapshotRecord)
    requires
        retention_hours * 3600 <= i64::MAX,
        expiry(now, retention_hours) <= i64::MAX,
    ensures
        r.snapshot_id == snapshot_id,
        r.agent_id@ == agent_id@,
        r.permission_token@ == permission_token@,
        r.resource_uri@ == uri@,
        r.strategy_used == strategy_used,
        r.vault_path == vault_path,
        r.metadata_json == metadata_json,
        r.created_at == now,
        r.expires_at == expiry(now, retention_hours),
{
    let lifetime: i64 = (retention_hours * 3600) as i64;
    SnapshotRecord {
        snapshot_id,
        agent_id: String::from_str(agent_id),
        permission_token: String::from_str(permission_token),
        resource_uri: String::from_str(uri),
        strategy_used,
        vault_path,
        metadata_json,
        created_at: now,
        expires_at: now + lifetime,
    }
}

impl RollbackStrategy for FileCopyStrategy {
    open spec fn spec_name(&self) -> Seq<char> {
        "FileCopyStrategy"@
    }

    fn name(&self) -> (r: &'static str) {
        "FileCopyStrategy"
    }

    /// Always succeeds: the vault copy stays available.
    fn restore(&self, snapshot_id: &String) -> (r: Result<(), String>)
        ensures
            r is Ok,
    {
        Ok(())
    }
}

impl RollbackStrategy for MetadataOnlyStrategy {
    open spec fn spec_name(&self) -> Seq<char> {
        "MetadataOnlyStrategy"@
    }

    fn name(&self) -> (r: &'static str) {
        "MetadataOnlyStrategy"
    }

    /// Always fails: only metadata was kept.
    fn restore(&self, snapshot_id: &String) -> (r: Result<(), String>)
        ensures
            r matches Err(m) && m@ == "MetadataOnlyStrategy cannot restore file content."@,
    {
        Err(String::from_str("MetadataOnlyStrategy cannot restore file content."))
    }
}

impl FileCopyStrategy {
    /// The record of a file copied into the vault at `vault_path`, taken at `now`.
    pub fn record(&self, agent_id: &str, permission_token: &str, uri: &str, vault_path: String, snapshot_id: String, now: i64) -> (r: SnapshotRecord)
        requires
            self.retention_hours * 3600 <= i64::MAX,
            expiry(now, self.retention_hours) <= i64::MAX,
        ensures
            r.snapshot_id == snapshot_id,
            r.agent_id@ == agent_id@,
            r.permission_token@ == permission_token@,
            r.resource_uri@ == uri@,
            r.strategy_used@ == "FileCopyStrategy"@,
            r.vault_path == Some(vault_path),
            r.metadata_json is None,
            r.created_at == now,
            r.expires_at == expiry(now, self.retention_hours),
    {
        snapshot_record(snapshot_id, agent_id, permission_token, uri, self.name(), Some(vault_path), None, now, self.retention_hours)
    }
}

impl MetadataOnlyStrategy {
    /// The record of a file's metadata, taken at `now`.
    pub fn record(&self, agent_id: &str, permission_token: &str, uri: &str, metadata_json: String, snapshot_id: String, now: i64) -> (r: SnapshotRecord)
        requires
            self.retention_hours * 3600 <= i64::MAX,
            expiry(now, self.retention_hours) <= i64::MAX,
        ensures
            r.snapshot_id == snapshot_id,
            r.agent_id@ == agent_id@,
            r.permission_token@ == permission_token@,
            r.resource_uri@ == uri@,
            r.strategy_used@ == "MetadataOnlyStrategy"@,
            r.vault_path is None,
            r.metadata_json == Some(metadata_json),
            r.created_at == now,
            r.expires_at == expiry(now, self.retention_hours),
    {
        snapshot_record(snapshot_id, agent_id, permission_token, uri, self.name(), None, Some(metadata_json), now, self.retention_hours)
    }
}

} // verus!
