use vstd::prelude::*;

verus! {

/// Number of words in the phrase offered to an operator on first run.
pub const FRESH_WORD_COUNT: usize = 12;

/// Whether BIP-39 accepts `phrase` as a mnemonic (word list and checksum).
pub uninterp spec fn bip39_accepts(phrase: Seq<char>) -> bool;

/// The 64-byte BIP-39 seed of `phrase` under the empty passphrase.
pub uninterp spec fn bip39_seed(phrase: Seq<char>) -> Seq<u8>;

/// Word counts that BIP-39 supports.
pub open spec fn supported_word_count(n: int) -> bool {
    12 <= n <= 24 && n % 3 == 0
}

/// Number of space characters in `s`.
pub open spec fn space_count(s: Seq<char>) -> nat
    decreases s.len(),
{
    if s.len() == 0 {
        0
    } else {
        space_count(s.drop_last()) + if s.last() == ' ' { 1nat } else { 0nat }
    }
}

/// Why a phrase could not become a node identity.
#[derive(Debug, Clone, Copy, PartialEq, Eq)]
pub enum IdentityError {
    /// The phrase is not a BIP-39 mnemonic.
    InvalidMnemonic,
}

#[verifier::external_type_specification]
#[verifier::external_body]
pub struct ExBip39Error(bip39::Error);

/// Relies on `bip39::Mnemonic::parse` to accept or refuse the phrase, and on
/// `Mnemonic::to_seed("")` for the seed of an accepted one. Both depend on the
/// phrase alone.
#[verifier::external_body]
fn phrase_seed(phrase: &str) -> (r: Result<Vec<u8>, bip39::Error>)
    ensures
        r is Ok <==> bip39_accepts(phrase@),
        r matches Ok(seed) ==> seed@ == bip39_seed(phrase@) && seed@.len() == 64,
{
    match bip39::Mnemonic::parse(phrase) {
        Ok(m) => Ok(m.to_seed("").to_vec()),
        Err(e) => Err(e),
    }
}

/// Relies on `bip39::Mnemonic::generate_in` with English words, and on the
/// mnemonic's `Display`, which joins the words with single spaces. It fails
/// only on an unsupported word count; what it writes parses back.
#[verifier::external_body]
fn generate_phrase(word_count: usize) -> (r: Result<String, bip39::Error>)
    ensures
        r is Ok <==> supported_word_count(word_count as int),
        r matches Ok(p) ==> bip39_accepts(p@) && space_count(p@) + 1 == word_count,
{
    match bip39::Mnemonic::generate_in(bip39::Language::English, word_count) {
        Ok(m) => Ok(m.to_string()),
        Err(e) => Err(e),
    }
}

/// The outcome of resolving `phrase`: its seed, or `InvalidMnemonic`.
pub open spec fn identity_of(phrase: Seq<char>) -> Result<Seq<u8>, IdentityError> {
    if bip39_accepts(phrase) {
        Ok(bip39_seed(phrase))
    } else {
        Err(IdentityError::InvalidMnemonic)
    }
}

/// Turns a mnemonic phrase into its 64-byte seed (empty passphrase).
pub fn resolve_identity(phrase: &str) -> (r: Result<Vec<u8>, IdentityError>)
    ensures
        r is Ok <==> bip39_accepts(phrase@),
        r matches Ok(seed) ==> identity_of(phrase@) == Ok::<Seq<u8>, IdentityError>(seed@)
            && seed@.len() == 64,
        r is Err ==> r == Err::<Vec<u8>, IdentityError>(IdentityError::InvalidMnemonic),
{
    match phrase_seed(phrase) {
        Ok(seed) => Ok(seed),
        Err(_) => Err(IdentityError::InvalidMnemonic),
    }
}

/// A freshly generated twelve-word English mnemonic, which resolves to a seed.
pub fn fresh_mnemonic() -> (r: String)
    ensures
        bip39_accepts(r@),
        space_count(r@) + 1 == FRESH_WORD_COUNT,
{
    match generate_phrase(FRESH_WORD_COUNT) {
        Ok(p) => p,
        Err(_) => {
            assert(false);
            String::new()
        },
    }
}

/// Resolving is deterministic: one phrase gives one outcome, and an accepted
/// phrase always gives the same 64-byte seed.
pub proof fn lemma_identity_deterministic(p: Seq<char>, q: Seq<char>)
    requires
        p == q,
    ensures
        identity_of(p) == identity_of(q),
        bip39_accepts(p) ==> identity_of(p) == Ok::<Seq<u8>, IdentityError>(bip39_seed(q)),
{
}

/// A phrase that BIP-39 refuses always resolves to `InvalidMnemonic`.
pub proof fn lemma_malformed_phrase_refused(p: Seq<char>)
    requires
        !bip39_accepts(p),
    ensures
        identity_of(p) == Err::<Seq<u8>, IdentityError>(IdentityError::InvalidMnemonic),
{
}

} // verus!
