//! Keys inside a PKCS#11 token.
//!
//! Each service has one key pair on the token, labelled `hkdfguard:<service>`, whose private half
//! the token never gives out. The token computes the agreement into a temporary object, which is
//! read and destroyed. The conversation with the token is the caller's part: a [`Pkcs11Step`]
//! says what to do next, and takes the answer.
use crate::bytes::array_from;
use crate::error::{outcome, Error, ErrorView};
use crate::keys::{PublicKey, SharedSecret};
use crate::primitives::digest::{sha256, sha256_digest};
use crate::primitives::memory::scrub;
use crate::provider::ProviderType;
use crate::text::{concat2, parse_number, parsed_number, texts, utf8_is_injective};
use vstd::prelude::*;
use vstd::slice::slice_to_vec;
use vstd::utf8::encode_utf8;

verus! {

/// The classes of objects that are used.
#[derive(Debug, Clone, Copy, PartialEq, Eq, Structural)]
pub enum ObjectClass {
    PublicKey,
    PrivateKey,
    SecretKey,
}

/// The types of keys that are used.
#[derive(Debug, Clone, Copy, PartialEq, Eq, Structural)]
pub enum KeyType {
    Ec,
    GenericSecret,
}

/// An attribute of an object on the token.
#[derive(Debug)]
pub enum Attribute {
    Class(ObjectClass),
    KeyType(KeyType),
    Token(bool),
    Private(bool),
    Sensitive(bool),
    Extractable(bool),
    Derive(bool),
    Sign(bool),
    Verify(bool),
    EcParams(Vec<u8>),
    Label(Vec<u8>),
    Id(Vec<u8>),
    ValueLen(u64),
    Value(Vec<u8>),
    /// Any attribute that is not used here.
    Other,
}

/// An [`Attribute`] with its contents as a sequence.
pub enum AttributeView {
    Class(ObjectClass),
    KeyType(KeyType),
    Token(bool),
    Private(bool),
    Sensitive(bool),
    Extractable(bool),
    Derive(bool),
    Sign(bool),
    Verify(bool),
    EcParams(Seq<u8>),
    Label(Seq<u8>),
    Id(Seq<u8>),
    ValueLen(u64),
    Value(Seq<u8>),
    Other,
}

impl View for Attribute {
    type V = AttributeView;

    open spec fn view(&self) -> AttributeView {
        match self {
            Attribute::Class(class) => AttributeView::Class(*class),
            Attribute::KeyType(t) => AttributeView::KeyType(*t),
            Attribute::Token(b) => AttributeView::Token(*b),
            Attribute::Private(b) => AttributeView::Private(*b),
            Attribute::Sensitive(b) => AttributeView::Sensitive(*b),
            Attribute::Extractable(b) => AttributeView::Extractable(*b),
            Attribute::Derive(b) => AttributeView::Derive(*b),
            Attribute::Sign(b) => AttributeView::Sign(*b),
            Attribute::Verify(b) => AttributeView::Verify(*b),
            Attribute::EcParams(bytes) => AttributeView::EcParams(bytes@),
            Attribute::Label(bytes) => AttributeView::Label(bytes@),
            Attribute::Id(bytes) => AttributeView::Id(bytes@),
            Attribute::ValueLen(n) => AttributeView::ValueLen(*n),
            Attribute::Value(bytes) => AttributeView::Value(bytes@),
            Attribute::Other => AttributeView::Other,
        }
    }
}

/// The attributes in a list.
pub open spec fn attributes(list: Seq<Attribute>) -> Seq<AttributeView> {
    list.map_values(|a: Attribute| a@)
}

/// The DER encoding of the object identifier of P-256.
pub open spec fn p256_ec_params() -> Seq<u8> {
    seq![0x06u8, 0x08, 0x2a, 0x86, 0x48, 0xce, 0x3d, 0x03, 0x01, 0x07]
}

/// The label of a service's key pair.
pub open spec fn label(service: Seq<char>) -> Seq<u8> {
    encode_utf8("hkdfguard:"@ + service)
}

/// The template that finds a service's private key.
pub open spec fn find_attributes(service: Seq<char>) -> Seq<AttributeView> {
    seq![
        AttributeView::Class(ObjectClass::PrivateKey),
        AttributeView::KeyType(KeyType::Ec),
        AttributeView::Label(label(service)),
    ]
}

/// The template of a new public key.
pub open spec fn public_attributes(service: Seq<char>) -> Seq<AttributeView> {
    seq![
        AttributeView::Class(ObjectClass::PublicKey),
        AttributeView::KeyType(KeyType::Ec),
        AttributeView::Token(true),
        AttributeView::Private(false),
        AttributeView::Verify(false),
        AttributeView::EcParams(p256_ec_params()),
        AttributeView::Label(label(service)),
        AttributeView::Id(sha256(encode_utf8(service))),
    ]
}

/// The template of a new private key: it stays on the token, for agreement only.
pub open spec fn private_attributes(service: Seq<char>) -> Seq<AttributeView> {
    seq![
        AttributeView::Class(ObjectClass::PrivateKey),
        AttributeView::KeyType(KeyType::Ec),
        AttributeView::Token(true),
        AttributeView::Private(true),
        AttributeView::Sensitive(true),
        AttributeView::Extractable(false),
        AttributeView::Derive(true),
        AttributeView::Sign(false),
        AttributeView::Label(label(service)),
        AttributeView::Id(sha256(encode_utf8(service))),
    ]
}

/// The template of the temporary object that holds a shared secret.
pub open spec fn derived_attributes() -> Seq<AttributeView> {
    seq![
        AttributeView::Class(ObjectClass::SecretKey),
        AttributeView::KeyType(KeyType::GenericSecret),
        AttributeView::Token(false),
        AttributeView::Sensitive(false),
        AttributeView::Extractable(true),
        AttributeView::ValueLen(32),
    ]
}

/// The modules that are tried without an explicit setting, in order.
pub open spec fn default_modules() -> Seq<Seq<char>> {
    seq![
        "/usr/lib/softhsm/libsofthsm2.so"@,
        "/usr/lib/x86_64-linux-gnu/softhsm/libsofthsm2.so"@,
        "/usr/lib64/softhsm/libsofthsm2.so"@,
        "/usr/local/lib/softhsm/libsofthsm2.so"@,
    ]
}

/// The modules to try, in order: the explicit setting alone where there is one.
pub fn candidate_module_paths(setting: Option<String>) -> (paths: Vec<String>)
    ensures
        texts(paths@) == match setting {
            Some(path) => seq![path@],
            None => default_modules(),
        },
{
    let mut paths: Vec<String> = Vec::new();
    if let Some(path) = setting {
        paths.push(path);
        assert(texts(paths@) =~= seq![path@]);
        return paths;
    }
    paths.push(String::from_str("/usr/lib/softhsm/libsofthsm2.so"));
    paths.push(String::from_str("/usr/lib/x86_64-linux-gnu/softhsm/libsofthsm2.so"));
    paths.push(String::from_str("/usr/lib64/softhsm/libsofthsm2.so"));
    paths.push(String::from_str("/usr/local/lib/softhsm/libsofthsm2.so"));
    assert(texts(paths@) =~= default_modules());
    paths
}

/// The slot to use among those with a token: the one that the setting numbers, counted from zero,
/// or the first without a setting.
pub open spec fn slot_choice(setting: Option<Seq<char>>, slots: nat) -> Option<nat> {
    let index = match setting {
        Some(text) => parsed_number(text, usize::MAX as nat),
        None => Some(0nat),
    };
    match index {
        Some(i) => if i < slots {
            Some(i)
        } else {
            None
        },
        None => None,
    }
}

/// Chooses the slot to use among those with a token.
pub fn choose_slot(setting: Option<&str>, slots: usize) -> (r: Option<usize>)
    ensures
        match r {
            Some(i) => slot_choice(setting_view(setting), slots as nat) == Some(i as nat),
            None => slot_choice(setting_view(setting), slots as nat) is None,
        },
{
    let index: usize = match setting {
        Some(text) => match parse_number(text, usize::MAX as u64) {
            Some(i) => i as usize,
            None => return None,
        },
        None => 0,
    };
    if index < slots {
        Some(index)
    } else {
        None
    }
}

/// The text of an optional setting.
pub open spec fn setting_view(setting: Option<&str>) -> Option<Seq<char>> {
    match setting {
        Some(text) => Some(text@),
        None => None,
    }
}

/// The label of a service's key pair.
pub fn key_label(service: &str) -> (text: String)
    ensures
        text@ == "hkdfguard:"@ + service@,
        encode_utf8(text@) == label(service@),
{
    concat2("hkdfguard:", service)
}

/// The bytes of a service's label.
fn label_bytes(service: &str) -> (bytes: Vec<u8>)
    ensures
        bytes@ == label(service@),
{
    slice_to_vec(key_label(service).as_str().as_bytes())
}

/// The identifier of a service's key pair.
fn id_bytes(service: &str) -> (bytes: Vec<u8>)
    ensures
        bytes@ == sha256(encode_utf8(service@)),
{
    let digest = sha256_digest(service.as_bytes());
    slice_to_vec(&digest)
}

/// The template that finds a service's private key.
pub fn find_template(service: &str) -> (list: Vec<Attribute>)
    ensures
        attributes(list@) == find_attributes(service@),
{
    let list = vec![
        Attribute::Class(ObjectClass::PrivateKey),
        Attribute::KeyType(KeyType::Ec),
        Attribute::Label(label_bytes(service)),
    ];
    assert(attributes(list@) =~= find_attributes(service@));
    list
}

/// The template of a new public key.
pub fn public_template(service: &str) -> (list: Vec<Attribute>)
    ensures
        attributes(list@) == public_attributes(service@),
        attributes(list@)[5] == AttributeView::EcParams(
            seq![0x06u8, 0x08, 0x2a, 0x86, 0x48, 0xce, 0x3d, 0x03, 0x01, 0x07],
        ),
{
    let params: Vec<u8> = vec![0x06, 0x08, 0x2a, 0x86, 0x48, 0xce, 0x3d, 0x03, 0x01, 0x07];
    assert(params@ =~= p256_ec_params());
    let list = vec![
        Attribute::Class(ObjectClass::PublicKey),
        Attribute::KeyType(KeyType::Ec),
        Attribute::Token(true),
        Attribute::Private(false),
        Attribute::Verify(false),
        Attribute::EcParams(params),
        Attribute::Label(label_bytes(service)),
        Attribute::Id(id_bytes(service)),
    ];
    assert(attributes(list@) =~= public_attributes(service@));
    list
}

/// The template of a new private key.
pub fn private_template(service: &str) -> (list: Vec<Attribute>)
    ensures
        attributes(list@) == private_attributes(service@),
{
    let list = vec![
        Attribute::Class(ObjectClass::PrivateKey),
        Attribute::KeyType(KeyType::Ec),
        Attribute::Token(true),
        Attribute::Private(true),
        Attribute::Sensitive(true),
        Attribute::Extractable(false),
        Attribute::Derive(true),
        Attribute::Sign(false),
        Attribute::Label(label_bytes(service)),
        Attribute::Id(id_bytes(service)),
    ];
    assert(attributes(list@) =~= private_attributes(service@));
    list
}

/// The template of the temporary object that holds a shared secret.
pub fn derive_template() -> (list: Vec<Attribute>)
    ensures
        attributes(list@) == derived_attributes(),
{
    let list = vec![
        Attribute::Class(ObjectClass::SecretKey),
        Attribute::KeyType(KeyType::GenericSecret),
        Attribute::Token(false),
        Attribute::Sensitive(false),
        Attribute::Extractable(true),
        Attribute::ValueLen(32),
    ];
    assert(attributes(list@) =~= derived_attributes());
    list
}

/// The first value of the expected length among attributes at or after `i`.
pub open spec fn first_value(list: Seq<AttributeView>, expected_len: nat, i: int) -> Option<
    Seq<u8>,
>
    decreases list.len() - i,
{
    if i >= list.len() {
        None
    } else {
        match list[i] {
            AttributeView::Value(bytes) => if bytes.len() == expected_len {
                Some(bytes)
            } else {
                first_value(list, expected_len, i + 1)
            },
            _ => first_value(list, expected_len, i + 1),
        }
    }
}

/// Picks the first value of the expected length out of the attributes that the token gave.
pub fn read_value(list: Vec<Attribute>, expected_len: usize) -> (r: Result<Vec<u8>, Error>)
    ensures
        match r {
            Ok(value) => first_value(attributes(list@), expected_len as nat, 0) == Some(value@),
            Err(error) => {
                &&& first_value(attributes(list@), expected_len as nat, 0) is None
                &&& error@ == ErrorView::Provider(
                    "PKCS#11 token did not return a CKA_VALUE for derived secret"@,
                )
            },
        },
{
    let ghost all = attributes(list@);
    let mut rest = list;
    let mut i: usize = 0;
    while i < rest.len()
        invariant
            i <= rest@.len(),
            all == attributes(list@),
            all == attributes(rest@),
            first_value(all, expected_len as nat, 0) == first_value(
                all,
                expected_len as nat,
                i as int,
            ),
        decreases rest@.len() - i,
    {
        assert(all[i as int] == rest@[i as int]@);
        let wanted = match &rest[i] {
            Attribute::Value(bytes) => bytes.len() == expected_len,
            _ => false,
        };
        if wanted {
            let attribute = rest.swap_remove(i);
            assert(attribute@ == all[i as int]);
            if let Attribute::Value(bytes) = attribute {
                return Ok(bytes);
            }
        }
        i += 1;
    }
    Err(
        Error::Provider(
            String::from_str("PKCS#11 token did not return a CKA_VALUE for derived secret"),
        ),
    )
}

/// The key pair of one service on the token.
#[derive(Debug)]
pub struct Pkcs11Handle {
    key_id: Vec<u8>,
    service: String,
}

/// The provider that has its keys on a PKCS#11 token.
#[derive(Debug)]
pub struct Pkcs11Provider {
    connected: bool,
}

impl Pkcs11Provider {
    /// Whether the token can be reached.
    pub closed spec fn connected(&self) -> bool {
        self.connected
    }

    /// A provider over a token that could or could not be reached.
    pub fn new(connected: bool) -> (provider: Self)
        ensures
            provider.connected() == connected,
    {
        Pkcs11Provider { connected }
    }

    /// The type of this provider.
    pub fn provider_type(&self) -> (t: ProviderType)
        ensures
            t == ProviderType::Pkcs11,
    {
        ProviderType::Pkcs11
    }

    /// This provider is reachable where the token is.
    pub fn probe(&self) -> (reachable: bool)
        ensures
            reachable == self.connected(),
    {
        self.connected
    }

    /// The key pair of a service. Nothing is asked of the token yet.
    pub fn get_or_create_kek(&self, service: &str) -> (r: Result<Pkcs11Handle, Error>)
        ensures
            match r {
                Ok(handle) => {
                    &&& self.connected()
                    &&& handle.id() == label(service@)
                    &&& handle.service() == service@
                },
                Err(error) => !self.connected() && error@ == ErrorView::Provider(
                    "PKCS#11 session not available"@,
                ),
            },
    {
        if !self.probe() {
            return Err(Error::Provider(String::from_str("PKCS#11 session not available")));
        }
        Ok(Pkcs11Handle { key_id: label_bytes(service), service: String::from_str(service) })
    }
}

impl Pkcs11Handle {
    /// The name of the key pair.
    pub closed spec fn id(&self) -> Seq<u8> {
        self.key_id@
    }

    /// The service.
    pub closed spec fn service(&self) -> Seq<char> {
        self.service@
    }

    /// The name of the key pair.
    pub fn key_id(&self) -> (id: &[u8])
        ensures
            id@ == self.id(),
    {
        self.key_id.as_slice()
    }

    /// Starts to agree on a secret with the holder of the private half of `peer`. `connected`
    /// says whether the token can be reached. `O` names an object on the token.
    pub fn ecdh<O>(&self, connected: bool, peer: &PublicKey) -> (step: Pkcs11Step<O>)
        ensures
            step@ == first_exchange::<O>(connected, self.service(), peer@),
    {
        if !connected {
            return Pkcs11Step::Done(
                Err(Error::Provider(String::from_str("PKCS#11 session not available"))),
            );
        }
        Pkcs11Step::Find(FindQuery { service: self.service.clone(), peer: peer.to_bytes() })
    }
}

/// What to do next for an agreement.
pub enum Pkcs11Step<O> {
    /// Find the service's private key.
    Find(FindQuery),
    /// Make a key pair for the service.
    Generate(GenerateQuery),
    /// Agree on a secret, into a temporary object.
    Derive(DeriveQuery<O>),
    /// Read the value of the temporary object.
    Read(ValueQuery<O>),
    /// Destroy the temporary object; whether that succeeds is not asked.
    Destroy(DestroyQuery<O>),
    /// The agreement is over.
    Done(Result<SharedSecret, Error>),
}

/// The service's private key is to be found.
pub struct FindQuery {
    service: String,
    peer: [u8; 65],
}

/// A key pair is to be made for the service.
pub struct GenerateQuery {
    service: String,
    peer: [u8; 65],
}

/// A secret is to be agreed on.
pub struct DeriveQuery<O> {
    key: O,
    peer: [u8; 65],
}

/// The value of the temporary object is to be read.
pub struct ValueQuery<O> {
    derived: O,
}

/// The temporary object is to be destroyed.
pub struct DestroyQuery<O> {
    derived: O,
    shared: SharedSecret,
}

/// A [`Pkcs11Step`] by its contents: the service, the other side's public key, the objects on the
/// token and the secret.
pub enum TokenView<O> {
    Find(Seq<char>, Seq<u8>),
    Generate(Seq<char>, Seq<u8>),
    Derive(O, Seq<u8>),
    Read(O),
    Destroy(O, Seq<u8>),
    Done(Result<Seq<u8>, ErrorView>),
}

impl<O> View for Pkcs11Step<O> {
    type V = TokenView<O>;

    open spec fn view(&self) -> TokenView<O> {
        match self {
            Pkcs11Step::Find(query) => TokenView::Find(query.service(), query.peer()),
            Pkcs11Step::Generate(query) => TokenView::Generate(query.service(), query.peer()),
            Pkcs11Step::Derive(query) => TokenView::Derive(query.key(), query.peer()),
            Pkcs11Step::Read(query) => TokenView::Read(query.derived()),
            Pkcs11Step::Destroy(query) => TokenView::Destroy(query.derived(), query.shared()),
            Pkcs11Step::Done(r) => TokenView::Done(outcome(*r)),
        }
    }
}

/// The end of an agreement with a provider error.
pub open spec fn token_failure<O>(text: Seq<char>) -> TokenView<O> {
    TokenView::Done(Err(ErrorView::Provider(text)))
}

/// The first step of an agreement.
pub open spec fn first_exchange<O>(connected: bool, service: Seq<char>, peer: Seq<u8>) -> TokenView<
    O,
> {
    if !connected {
        token_failure("PKCS#11 session not available"@)
    } else {
        TokenView::Find(service, peer)
    }
}

/// The step after the search for the service's private key: the first one found is used, and
/// where there is none a key pair is made.
pub open spec fn after_find<O>(
    service: Seq<char>,
    peer: Seq<u8>,
    found: Result<Seq<O>, Seq<char>>,
) -> TokenView<O> {
    match found {
        Err(reason) => token_failure("PKCS#11 find_objects failed: "@ + reason),
        Ok(objects) => if objects.len() > 0 {
            TokenView::Derive(objects[0], peer)
        } else {
            TokenView::Generate(service, peer)
        },
    }
}

/// The step after a key pair was made, or was not.
pub open spec fn after_generate<O>(peer: Seq<u8>, made: Result<O, Seq<char>>) -> TokenView<O> {
    match made {
        Err(reason) => token_failure("PKCS#11 EC key pair generation failed: "@ + reason),
        Ok(key) => TokenView::Derive(key, peer),
    }
}

/// The step after the agreement, or its failure.
pub open spec fn after_derive<O>(derived: Result<O, Seq<char>>) -> TokenView<O> {
    match derived {
        Err(reason) => token_failure("CKM_ECDH1_DERIVE failed: "@ + reason),
        Ok(object) => TokenView::Read(object),
    }
}

/// The step after the temporary object was read, or was not.
pub open spec fn after_read<O>(
    derived: O,
    read: Result<Seq<AttributeView>, Seq<char>>,
) -> TokenView<O> {
    match read {
        Err(reason) => token_failure("PKCS#11 get_attributes failed: "@ + reason),
        Ok(list) => match first_value(list, 32, 0) {
            Some(value) => TokenView::Destroy(derived, value),
            None => token_failure("PKCS#11 token did not return a CKA_VALUE for derived secret"@),
        },
    }
}

/// An answer of the token about one object.
pub open spec fn object_view<O>(answer: Result<O, String>) -> Result<O, Seq<char>> {
    match answer {
        Ok(object) => Ok(object),
        Err(reason) => Err(reason@),
    }
}

/// An answer of the token about several objects.
pub open spec fn objects_view<O>(answer: Result<Vec<O>, String>) -> Result<Seq<O>, Seq<char>> {
    match answer {
        Ok(objects) => Ok(objects@),
        Err(reason) => Err(reason@),
    }
}

/// An answer of the token about attributes.
pub open spec fn read_view(answer: Result<Vec<Attribute>, String>) -> Result<
    Seq<AttributeView>,
    Seq<char>,
> {
    match answer {
        Ok(list) => Ok(attributes(list@)),
        Err(reason) => Err(reason@),
    }
}

/// Ends an agreement with a provider error.
fn fail<O>(what: &str, reason: &str) -> (step: Pkcs11Step<O>)
    ensures
        step@ == token_failure::<O>(what@ + reason@),
{
    Pkcs11Step::Done(Err(Error::Provider(concat2(what, reason))))
}

impl FindQuery {
    /// The service.
    pub closed spec fn service(&self) -> Seq<char> {
        self.service@
    }

    /// The other side's public key.
    pub closed spec fn peer(&self) -> Seq<u8> {
        self.peer@
    }

    /// The template to search with.
    pub fn template(&self) -> (list: Vec<Attribute>)
        ensures
            attributes(list@) == find_attributes(self.service()),
    {
        find_template(self.service.as_str())
    }

    /// Goes on with the objects found, or with the reason that the search failed.
    pub fn answered<O>(self, found: Result<Vec<O>, String>) -> (step: Pkcs11Step<O>)
        ensures
            step@ == after_find(self.service(), self.peer(), objects_view(found)),
    {
        let mut objects = match found {
            Ok(objects) => objects,
            Err(reason) => return fail("PKCS#11 find_objects failed: ", reason.as_str()),
        };
        if objects.len() > 0 {
            let key = objects.swap_remove(0);
            Pkcs11Step::Derive(DeriveQuery { key, peer: self.peer })
        } else {
            Pkcs11Step::Generate(GenerateQuery { service: self.service, peer: self.peer })
        }
    }
}

impl GenerateQuery {
    /// The service.
    pub closed spec fn service(&self) -> Seq<char> {
        self.service@
    }

    /// The other side's public key.
    pub closed spec fn peer(&self) -> Seq<u8> {
        self.peer@
    }

    /// The templates of the public and of the private key.
    pub fn templates(&self) -> (lists: (Vec<Attribute>, Vec<Attribute>))
        ensures
            attributes(lists.0@) == public_attributes(self.service()),
            attributes(lists.1@) == private_attributes(self.service()),
    {
        (public_template(self.service.as_str()), private_template(self.service.as_str()))
    }

    /// Goes on with the private key, or with the reason that none was made.
    pub fn answered<O>(self, made: Result<O, String>) -> (step: Pkcs11Step<O>)
        ensures
            step@ == after_generate(self.peer(), object_view(made)),
    {
        match made {
            Ok(key) => Pkcs11Step::Derive(DeriveQuery { key, peer: self.peer }),
            Err(reason) => fail("PKCS#11 EC key pair generation failed: ", reason.as_str()),
        }
    }
}

impl<O> DeriveQuery<O> {
    /// The private key.
    pub closed spec fn key(&self) -> O {
        self.key
    }

    /// The other side's public key.
    pub closed spec fn peer(&self) -> Seq<u8> {
        self.peer@
    }

    /// The private key to agree with, the other side's public key, and the template of the
    /// temporary object.
    pub fn parameters(&self) -> (r: (&O, &[u8; 65], Vec<Attribute>))
        ensures
            *r.0 == self.key(),
            r.1@ == self.peer(),
            attributes(r.2@) == derived_attributes(),
    {
        (&self.key, &self.peer, derive_template())
    }

    /// Goes on with the temporary object, or with the reason that there is none.
    pub fn answered(self, derived: Result<O, String>) -> (step: Pkcs11Step<O>)
        ensures
            step@ == after_derive(object_view(derived)),
    {
        match derived {
            Ok(derived) => Pkcs11Step::Read(ValueQuery { derived }),
            Err(reason) => fail("CKM_ECDH1_DERIVE failed: ", reason.as_str()),
        }
    }
}

impl<O> ValueQuery<O> {
    /// The temporary object.
    pub closed spec fn derived(&self) -> O {
        self.derived
    }

    /// The object to read.
    pub fn object(&self) -> (object: &O)
        ensures
            *object == self.derived(),
    {
        &self.derived
    }

    /// Goes on with the object's attributes, or with the reason that they could not be read.
    pub fn answered(self, read: Result<Vec<Attribute>, String>) -> (step: Pkcs11Step<O>)
        ensures
            step@ == after_read(self.derived(), read_view(read)),
    {
        let list = match read {
            Ok(list) => list,
            Err(reason) => return fail("PKCS#11 get_attributes failed: ", reason.as_str()),
        };
        match read_value(list, 32) {
            Ok(value) => {
                let mut value = value;
                proof {
                    value_has_length(attributes(list@), 32, 0);
                }
                let shared: SharedSecret = array_from(value.as_slice());
                scrub(value.as_mut_slice());
                Pkcs11Step::Destroy(DestroyQuery { derived: self.derived, shared })
            },
            Err(error) => Pkcs11Step::Done(Err(error)),
        }
    }
}

/// The value that is picked has the expected length.
proof fn value_has_length(list: Seq<AttributeView>, expected_len: nat, i: int)
    ensures
        first_value(list, expected_len, i) matches Some(value) ==> value.len() == expected_len,
    decreases list.len() - i,
{
    if i < list.len() {
        value_has_length(list, expected_len, i + 1);
    }
}

impl<O> DestroyQuery<O> {
    /// The temporary object.
    pub closed spec fn derived(&self) -> O {
        self.derived
    }

    /// The secret.
    pub closed spec fn shared(&self) -> Seq<u8> {
        self.shared@
    }

    /// The object to destroy.
    pub fn object(&self) -> (object: &O)
        ensures
            *object == self.derived(),
    {
        &self.derived
    }

    /// Ends the agreement after the temporary object was destroyed.
    pub fn destroyed(self) -> (step: Pkcs11Step<O>)
        ensures
            step@ == TokenView::<O>::Done(Ok(self.shared())),
    {
        Pkcs11Step::Done(Ok(self.shared))
    }
}

/// The private key that is made for a service can neither be read nor exported, requires a
/// login, agrees on secrets and does not sign; the temporary object is no token object.
pub proof fn private_keys_stay_on_the_token(service: Seq<char>)
    ensures
        private_attributes(service).contains(AttributeView::Sensitive(true)),
        private_attributes(service).contains(AttributeView::Extractable(false)),
        private_attributes(service).contains(AttributeView::Private(true)),
        private_attributes(service).contains(AttributeView::Token(true)),
        private_attributes(service).contains(AttributeView::Derive(true)),
        private_attributes(service).contains(AttributeView::Sign(false)),
        forall|i: int|
            0 <= i < private_attributes(service).len() ==> {
                let a = #[trigger] private_attributes(service)[i];
                a != AttributeView::Sensitive(false) && a != AttributeView::Extractable(true)
            },
        derived_attributes().contains(AttributeView::Token(false)),
{
    let list = private_attributes(service);
    assert(list[2] == AttributeView::Token(true));
    assert(list[3] == AttributeView::Private(true));
    assert(list[4] == AttributeView::Sensitive(true));
    assert(list[5] == AttributeView::Extractable(false));
    assert(list[6] == AttributeView::Derive(true));
    assert(list[7] == AttributeView::Sign(false));
    assert(derived_attributes()[2] == AttributeView::Token(false));
}

/// The key pair that is made for a service is the one that a later search for that service
/// matches: it has each attribute that the search asks for.
pub proof fn made_keys_are_found_again(service: Seq<char>)
    ensures
        forall|i: int|
            0 <= i < find_attributes(service).len() ==> private_attributes(service).contains(
                #[trigger] find_attributes(service)[i],
            ),
{
    let list = private_attributes(service);
    assert(list[0] == find_attributes(service)[0]);
    assert(list[1] == find_attributes(service)[1]);
    assert(list[8] == find_attributes(service)[2]);
}

/// No secret is handed out while the temporary object that held it is still to be destroyed: no
/// step but the destruction ends an agreement with a secret.
pub proof fn secrets_follow_destruction<O>(
    connected: bool,
    service: Seq<char>,
    peer: Seq<u8>,
    found: Result<Seq<O>, Seq<char>>,
    object: Result<O, Seq<char>>,
    derived: O,
    read: Result<Seq<AttributeView>, Seq<char>>,
    shared: Seq<u8>,
)
    ensures
        ({
            let done = TokenView::<O>::Done(Ok(shared));
            &&& first_exchange::<O>(connected, service, peer) != done
            &&& after_find(service, peer, found) != done
            &&& after_generate(peer, object) != done
            &&& after_derive(object) != done
            &&& after_read(derived, read) != done
        }),
{
}

/// Different services have different labels.
pub proof fn services_have_distinct_labels(a: Seq<char>, b: Seq<char>)
    requires
        label(a) == label(b),
    ensures
        a == b,
{
    let prefix = "hkdfguard:"@;
    utf8_is_injective(prefix + a, prefix + b);
    assert((prefix + a).skip(prefix.len() as int) =~= a);
    assert((prefix + b).skip(prefix.len() as int) =~= b);
}

} // verus!
