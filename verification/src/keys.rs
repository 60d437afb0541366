//! Key pairs: who a host is, and with what it signs.

use vstd::prelude::*;
use vstd::string::*;

use crate::table::Datum;
use crate::text::copy_text_opt;

verus! {

use crate::text::text_opt;

/// What a key pair stands for.
#[derive(Clone, Copy, Debug, PartialEq, Eq, Structural)]
pub enum KeyKind {
    Server,
    Cluster,
    Operator,
    Account,
    User,
    Module,
    Service,
}

impl KeyKind {
    /// The name of the kind.
    pub open spec fn text(self) -> Seq<char> {
        match self {
            KeyKind::Server => "Server"@,
            KeyKind::Cluster => "Cluster"@,
            KeyKind::Operator => "Operator"@,
            KeyKind::Account => "Account"@,
            KeyKind::User => "User"@,
            KeyKind::Module => "Module"@,
            KeyKind::Service => "Service"@,
        }
    }

    /// The name of the kind.
    pub fn name(&self) -> (r: String)
        ensures
            r@ == self.text(),
    {
        let text: &str = match self {
            KeyKind::Server => "Server",
            KeyKind::Cluster => "Cluster",
            KeyKind::Operator => "Operator",
            KeyKind::Account => "Account",
            KeyKind::User => "User",
            KeyKind::Module => "Module",
            KeyKind::Service => "Service",
        };
        text.to_owned()
    }
}

/// `nkeys::KeyPair`, carried along to sign with.
#[verifier::external_type_specification]
#[verifier::external_body]
pub struct ExNkeysKeyPair(nkeys::KeyPair);

/// A key pair, with what it is known by in text form. One without a seed can
/// check signatures but not make any. The texts are those of the pair that
/// stands beside them.
pub struct Identity {
    kind: KeyKind,
    public_key: String,
    seed: Option<String>,
    pub(crate) pair: std::sync::Arc<nkeys::KeyPair>,
}

#[verifier::ext_equal]
pub ghost struct IdentityView {
    pub kind: KeyKind,
    pub public_key: Seq<char>,
    pub seed: Option<Seq<char>>,
}

impl View for Identity {
    type V = IdentityView;

    closed spec fn view(&self) -> IdentityView {
        IdentityView {
            kind: self.kind,
            public_key: self.public_key@,
            seed: text_opt(self.seed),
        }
    }
}

impl Identity {
    /// The two sign with the same key pair.
    pub closed spec fn same_pair(self, other: Identity) -> bool {
        self.pair == other.pair
    }
}

impl Datum for Identity {
    fn duplicate(&self) -> (r: Self)
        ensures
            r.same_pair(*self),
    {
        Identity {
            kind: self.kind,
            public_key: self.public_key.clone(),
            seed: copy_text_opt(&self.seed),
            pair: self.pair.clone(),
        }
    }
}

/// The key pair that a seed stands for, if it is one, as
/// `nkeys::KeyPair::from_seed` reads it: its kind, its public key and its seed
/// written out.
pub uninterp spec fn key_of_seed(seed: Seq<char>) -> Option<(KeyKind, Seq<char>, Seq<char>)>;

/// The key pair of a seed as a view.
pub open spec fn seeded(seed: Seq<char>) -> Option<IdentityView> {
    match key_of_seed(seed) {
        Some((kind, public_key, text)) => Some(IdentityView { kind, public_key, seed: Some(text) }),
        None => None,
    }
}

/// The key pair that a public key stands for, if it is one, as
/// `nkeys::KeyPair::from_public_key` reads it: its kind and its public key
/// written out.
pub uninterp spec fn key_of_public(public_key: Seq<char>) -> Option<(KeyKind, Seq<char>)>;

/// `nkeys::KeyPair::from_seed`, with `key_pair_type`, `public_key` and `seed`
/// of its result: they depend on the seed alone, and a public key is 56
/// characters long.
#[verifier::external_body]
fn read_seed(seed: &str) -> (r: Option<Identity>)
    ensures
        match r {
            Some(key) => key@.seed is Some && key_of_seed(seed@) == Some(
                (key@.kind, key@.public_key, key@.seed->0),
            ) && key@.public_key.len() == 56,
            None => key_of_seed(seed@) is None,
        },
{
    let pair = std::sync::Arc::new(nkeys::KeyPair::from_seed(seed).ok()?);
    let kind = match pair.key_pair_type() {
        nkeys::KeyPairType::Server => KeyKind::Server,
        nkeys::KeyPairType::Cluster => KeyKind::Cluster,
        nkeys::KeyPairType::Operator => KeyKind::Operator,
        nkeys::KeyPairType::Account => KeyKind::Account,
        nkeys::KeyPairType::User => KeyKind::User,
        nkeys::KeyPairType::Module => KeyKind::Module,
        nkeys::KeyPairType::Service => KeyKind::Service,
    };
    Some(Identity { kind, public_key: pair.public_key(), seed: pair.seed().ok(), pair })
}

/// `nkeys::KeyPair::from_public_key`, with `key_pair_type` and `public_key` of
/// its result: they depend on the text alone, and a public key is 56
/// characters long. There is no seed. It panics on texts that are decoded to
/// fewer than four bytes, which have fewer than seven characters; `requires`
/// leaves those out.
#[verifier::external_body]
fn read_public_key(text: &str) -> (r: Option<Identity>)
    requires
        text@.len() >= 7,
    ensures
        match r {
            Some(key) => key_of_public(text@) == Some((key@.kind, key@.public_key)) && key@.seed
                is None && key@.public_key.len() == 56,
            None => key_of_public(text@) is None,
        },
{
    let pair = std::sync::Arc::new(nkeys::KeyPair::from_public_key(text).ok()?);
    let kind = match pair.key_pair_type() {
        nkeys::KeyPairType::Server => KeyKind::Server,
        nkeys::KeyPairType::Cluster => KeyKind::Cluster,
        nkeys::KeyPairType::Operator => KeyKind::Operator,
        nkeys::KeyPairType::Account => KeyKind::Account,
        nkeys::KeyPairType::User => KeyKind::User,
        nkeys::KeyPairType::Module => KeyKind::Module,
        nkeys::KeyPairType::Service => KeyKind::Service,
    };
    Some(Identity { kind, public_key: pair.public_key(), seed: pair.seed().ok(), pair })
}

/// `nkeys::KeyPair::new`, with `public_key` and `seed` of its result: a key
/// pair of the kind that was asked for, made by chance. Where its seed can be
/// read back at all, it stands for the same pair; a few cannot.
#[verifier::external_body]
fn new_pair(kind: KeyKind) -> (r: Identity)
    ensures
        r@.kind == kind,
        r@.seed matches Some(seed) && (seeded(seed) is Some ==> seeded(seed) == Some(r@)),
        r@.public_key.len() == 56,
{
    let pair = std::sync::Arc::new(nkeys::KeyPair::new(match kind {
        KeyKind::Server => nkeys::KeyPairType::Server,
        KeyKind::Cluster => nkeys::KeyPairType::Cluster,
        KeyKind::Operator => nkeys::KeyPairType::Operator,
        KeyKind::Account => nkeys::KeyPairType::Account,
        KeyKind::User => nkeys::KeyPairType::User,
        KeyKind::Module => nkeys::KeyPairType::Module,
        KeyKind::Service => nkeys::KeyPairType::Service,
    }));
    Identity { kind, public_key: pair.public_key(), seed: pair.seed().ok(), pair }
}

/// The signature of bytes under a seed, as `nkeys::KeyPair::sign` makes it.
pub uninterp spec fn signature_of(seed: Seq<char>, bytes: Seq<u8>) -> Seq<u8>;

/// `nkeys::KeyPair::sign`: it fails where the pair has no seed, and only there.
/// A signature is 64 bytes long and depends on the seed and the bytes alone.
#[verifier::external_body]
fn sign_bytes(key: &Identity, bytes: &[u8]) -> (r: Option<Vec<u8>>)
    ensures
        r is Some == key@.seed is Some,
        r matches Some(signature) ==> signature@ == signature_of(key@.seed->0, bytes@)
            && signature@.len() == 64,
{
    key.pair.sign(bytes).ok()
}

impl Identity {
    /// The key pair that a seed stands for.
    pub fn from_seed(seed: &String) -> (r: Option<Identity>)
        ensures
            match r {
                Some(key) => seeded(seed@) == Some(key@) && key@.public_key.len() == 56,
                None => seeded(seed@) is None,
            },
    {
        read_seed(seed.as_str())
    }

    /// The key pair of a public key, without its seed. Texts that are too short
    /// to be one stand for none.
    pub fn from_public_key(text: &String) -> (r: Option<Identity>)
        ensures
            match r {
                Some(key) => text@.len() >= 7 && key_of_public(text@) == Some(
                    (key@.kind, key@.public_key),
                ) && key@.seed is None && key@.public_key.len() == 56,
                None => text@.len() < 7 || key_of_public(text@) is None,
            },
    {
        if text.as_str().unicode_len() < 7 {
            return None;
        }
        read_public_key(text.as_str())
    }

    /// A new key pair of a kind. Its seed, kept somewhere, stands for it where
    /// it can be read back.
    pub fn generate(kind: KeyKind) -> (r: Identity)
        ensures
            r@.kind == kind,
            r@.seed matches Some(seed) && (seeded(seed) is Some ==> seeded(seed) == Some(r@)),
            r@.public_key.len() == 56,
    {
        new_pair(kind)
    }

    /// Signs bytes, if the pair can.
    pub fn sign(&self, bytes: &Vec<u8>) -> (r: Option<Vec<u8>>)
        ensures
            match (self@.seed, r) {
                (Some(seed), Some(signature)) => signature@ == signature_of(seed, bytes@)
                    && signature@.len() == 64,
                (None, None) => true,
                _ => false,
            },
    {
        sign_bytes(self, bytes.as_slice())
    }

    pub fn kind(&self) -> (r: KeyKind)
        ensures
            r == self@.kind,
    {
        self.kind
    }

    pub fn public_key(&self) -> (r: String)
        ensures
            r@ == self@.public_key,
    {
        self.public_key.clone()
    }

    /// The seed, if the pair has one.
    pub fn seed(&self) -> (r: Option<String>)
        ensures
            text_opt(r) == self@.seed,
    {
        copy_text_opt(&self.seed)
    }
}

/// The name of each kind of key pair.
pub proof fn kinds_are_named()
    ensures
        KeyKind::Server.text() == "Server"@,
        KeyKind::Cluster.text() == "Cluster"@,
        KeyKind::Operator.text() == "Operator"@,
        KeyKind::Account.text() == "Account"@,
        KeyKind::User.text() == "User"@,
        KeyKind::Module.text() == "Module"@,
        KeyKind::Service.text() == "Service"@,
{
}

/// A seed stands for a key pair of its kind and public key, which can sign with
/// it.
pub proof fn seeds_stand_for_their_pair(seed: Seq<char>)
    ensures
        seeded(seed) is Some <==> key_of_seed(seed) is Some,
        key_of_seed(seed) matches Some(key) ==> {
            &&& seeded(seed)->0.kind == key.0
            &&& seeded(seed)->0.public_key == key.1
            &&& seeded(seed)->0.seed == Some(key.2)
        },
{
}

/// To sign with the same pair is to be one in it: each does so with itself, and
/// two that do so with a third do so with each other.
pub proof fn pairs_are_shared(a: Identity, b: Identity, c: Identity)
    ensures
        a.same_pair(a),
        a.same_pair(b) ==> b.same_pair(a),
        a.same_pair(b) && b.same_pair(c) ==> a.same_pair(c),
{
}

} // verus!
