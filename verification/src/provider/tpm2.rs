//! Keys inside a TPM.
//!
//! A key is not kept: the TPM derives it anew, from its own seed and a public template that holds
//! a label of the service, for each agreement, and forgets it again. The conversation with the
//! TPM is the caller's part: a [`Tpm2Step`] says what to do next, and takes the answer.
use crate::bytes::{array_from, bytes_or_reason, part};
use crate::error::{outcome, Error, ErrorView};
use crate::files::change_view;
use crate::keys::{PublicKey, SharedSecret};
use crate::primitives::digest::{sha256, sha256_digest};
use crate::primitives::memory::scrub;
use crate::provider::ProviderType;
use crate::text::{concat2, utf8_is_injective};
use vstd::prelude::*;
use vstd::slice::slice_to_vec;
use vstd::utf8::encode_utf8;

verus! {

/// A curve of a TPM key.
#[derive(Debug, Clone, Copy, PartialEq, Eq, Structural)]
pub enum EccCurve {
    NistP256,
}

/// The hash that names a TPM object.
#[derive(Debug, Clone, Copy, PartialEq, Eq, Structural)]
pub enum NameHash {
    Sha256,
}

/// The scheme that a TPM key is bound to.
#[derive(Debug, Clone, Copy, PartialEq, Eq, Structural)]
pub enum EccScheme {
    Null,
}

/// The key derivation that a TPM key is bound to.
#[derive(Debug, Clone, Copy, PartialEq, Eq, Structural)]
pub enum KeyDerivation {
    Null,
}

/// What may be done with a TPM key.
#[derive(Debug, Clone, Copy, PartialEq, Eq, Structural)]
pub struct ObjectAttributes {
    /// The key cannot move to another TPM.
    pub fixed_tpm: bool,
    /// The key cannot move to another parent.
    pub fixed_parent: bool,
    /// The TPM made the private half.
    pub sensitive_data_origin: bool,
    /// User authorization suffices to use the key.
    pub user_with_auth: bool,
    /// The key agrees on secrets.
    pub decrypt: bool,
    /// The key signs.
    pub sign_encrypt: bool,
    /// The key is for TPM-made structures only.
    pub restricted: bool,
}

/// A point by its two coordinates.
#[derive(Debug, Clone, Copy)]
pub struct Point {
    pub x: [u8; 32],
    pub y: [u8; 32],
}

/// The public template that a service's key is derived from.
#[derive(Debug, Clone, Copy)]
pub struct PublicTemplate {
    pub attributes: ObjectAttributes,
    pub curve: EccCurve,
    pub name_hash: NameHash,
    pub scheme: EccScheme,
    pub derivation: KeyDerivation,
    /// The label of the service.
    pub unique: Point,
}

/// The attributes of every service's key: bound to this TPM and made by it, for agreement only.
pub open spec fn service_attributes() -> ObjectAttributes {
    ObjectAttributes {
        fixed_tpm: true,
        fixed_parent: true,
        sensitive_data_origin: true,
        user_with_auth: true,
        decrypt: true,
        sign_encrypt: false,
        restricted: false,
    }
}

/// The label of a service: the digest of its name. It fills the x-coordinate of the template's
/// `unique` field and the y-coordinate alike, since the field is a point and the label is one
/// digest.
pub open spec fn service_label(service: Seq<char>) -> Seq<u8> {
    sha256(encode_utf8(service))
}

/// Whether a template is that of a service.
pub open spec fn is_service_template(template: PublicTemplate, service: Seq<char>) -> bool {
    &&& template.attributes == service_attributes()
    &&& template.curve == EccCurve::NistP256
    &&& template.name_hash == NameHash::Sha256
    &&& template.scheme == EccScheme::Null
    &&& template.derivation == KeyDerivation::Null
    &&& template.unique.x@ == service_label(service)
    &&& template.unique.y@ == service_label(service)
}

/// The name of a service's key: the digest of the service's name.
pub fn service_fingerprint(service: &str) -> (id: Vec<u8>)
    ensures
        id@ == sha256(encode_utf8(service@)),
        id@.len() == 32,
{
    let digest = sha256_digest(service.as_bytes());
    slice_to_vec(&digest)
}

/// The label of a service, in both coordinates.
pub fn service_unique_point(service: &str) -> (point: Point)
    ensures
        point.x@ == service_label(service@),
        point.y@ == service_label(service@),
{
    let label = sha256_digest(service.as_bytes());
    Point { x: label, y: label }
}

/// The public template that a service's key is derived from.
pub fn service_public_template(service: &str) -> (template: PublicTemplate)
    ensures
        is_service_template(template, service@),
{
    PublicTemplate {
        attributes: ObjectAttributes {
            fixed_tpm: true,
            fixed_parent: true,
            sensitive_data_origin: true,
            user_with_auth: true,
            decrypt: true,
            sign_encrypt: false,
            restricted: false,
        },
        curve: EccCurve::NistP256,
        name_hash: NameHash::Sha256,
        scheme: EccScheme::Null,
        derivation: KeyDerivation::Null,
        unique: service_unique_point(service),
    }
}

/// The coordinates of a public key.
pub fn encode_peer_point(peer: &PublicKey) -> (point: Point)
    ensures
        point.x@ == peer@.subrange(1, 33),
        point.y@ == peer@.subrange(33, 65),
{
    let bytes = peer.to_bytes();
    let x = part(&bytes, 1, 33);
    let y = part(&bytes, 33, 65);
    Point { x: array_from(x.as_slice()), y: array_from(y.as_slice()) }
}

/// The key of one service inside the TPM.
#[derive(Debug)]
pub struct Tpm2Handle {
    key_id: Vec<u8>,
    service: String,
}

/// The provider that has its keys derived by a TPM.
#[derive(Debug)]
pub struct Tpm2Provider {
    connected: bool,
}

impl Tpm2Provider {
    /// Whether the TPM can be reached.
    pub closed spec fn connected(&self) -> bool {
        self.connected
    }

    /// A provider over a TPM that could or could not be reached.
    pub fn new(connected: bool) -> (provider: Self)
        ensures
            provider.connected() == connected,
    {
        Tpm2Provider { connected }
    }

    /// The type of this provider.
    pub fn provider_type(&self) -> (t: ProviderType)
        ensures
            t == ProviderType::Tpm2,
    {
        ProviderType::Tpm2
    }

    /// This provider is reachable where the TPM is.
    pub fn probe(&self) -> (reachable: bool)
        ensures
            reachable == self.connected(),
    {
        self.connected
    }

    /// The key of a service. Nothing is asked of the TPM yet.
    pub fn get_or_create_kek(&self, service: &str) -> (r: Result<Tpm2Handle, Error>)
        ensures
            match r {
                Ok(handle) => {
                    &&& self.connected()
                    &&& handle.id() == sha256(encode_utf8(service@))
                    &&& handle.id().len() == 32
                    &&& handle.service() == service@
                },
                Err(error) => !self.connected() && error@ == ErrorView::Provider(
                    "TPM context not available"@,
                ),
            },
    {
        if !self.probe() {
            return Err(Error::Provider(String::from_str("TPM context not available")));
        }
        Ok(Tpm2Handle { key_id: service_fingerprint(service), service: String::from_str(service) })
    }
}

impl Tpm2Handle {
    /// The name of the key.
    pub closed spec fn id(&self) -> Seq<u8> {
        self.key_id@
    }

    /// The service.
    pub closed spec fn service(&self) -> Seq<char> {
        self.service@
    }

    /// The name of the key.
    pub fn key_id(&self) -> (id: &[u8])
        ensures
            id@ == self.id(),
    {
        self.key_id.as_slice()
    }

    /// Starts to agree on a secret with the holder of the private half of `peer`. `connected`
    /// says whether the TPM can be reached.
    pub fn ecdh(&self, connected: bool, peer: &PublicKey) -> (step: Tpm2Step)
        ensures
            step@ == first_exchange(connected, self.service(), peer@),
    {
        if !connected {
            return Tpm2Step::Done(
                Err(Error::Provider(String::from_str("TPM context not available"))),
            );
        }
        Tpm2Step::CreatePrimary(
            CreateQuery { service: self.service.clone(), peer: encode_peer_point(peer) },
        )
    }
}

/// What to do next for an agreement.
pub enum Tpm2Step {
    /// Derive the service's key in the TPM.
    CreatePrimary(CreateQuery),
    /// Agree on a secret with the derived key.
    Agree(AgreeQuery),
    /// Make the TPM forget the derived key; whether it did is not asked.
    Flush(FlushQuery),
    /// The agreement is over.
    Done(Result<SharedSecret, Error>),
}

/// The service's key is to be derived.
pub struct CreateQuery {
    service: String,
    peer: Point,
}

/// A secret is to be agreed on.
pub struct AgreeQuery {
    peer: Point,
}

/// The derived key is to be forgotten.
pub struct FlushQuery {
    shared: Result<Vec<u8>, String>,
}

/// A [`Tpm2Step`] by its contents: the service, the coordinates of the other side's public key,
/// and what the TPM answered.
pub enum ExchangeView {
    CreatePrimary(Seq<char>, Seq<u8>, Seq<u8>),
    Agree(Seq<u8>, Seq<u8>),
    Flush(Result<Seq<u8>, Seq<char>>),
    Done(Result<Seq<u8>, ErrorView>),
}

impl View for Tpm2Step {
    type V = ExchangeView;

    open spec fn view(&self) -> ExchangeView {
        match self {
            Tpm2Step::CreatePrimary(query) => ExchangeView::CreatePrimary(
                query.service(),
                query.peer_x(),
                query.peer_y(),
            ),
            Tpm2Step::Agree(query) => ExchangeView::Agree(query.peer_x(), query.peer_y()),
            Tpm2Step::Flush(query) => ExchangeView::Flush(query.shared()),
            Tpm2Step::Done(r) => ExchangeView::Done(outcome(*r)),
        }
    }
}

/// The first step of an agreement.
pub open spec fn first_exchange(
    connected: bool,
    service: Seq<char>,
    peer: Seq<u8>,
) -> ExchangeView {
    if !connected {
        ExchangeView::Done(Err(ErrorView::Provider("TPM context not available"@)))
    } else {
        ExchangeView::CreatePrimary(service, peer.subrange(1, 33), peer.subrange(33, 65))
    }
}

/// The step after the service's key was derived, or was not.
pub open spec fn after_create(
    peer_x: Seq<u8>,
    peer_y: Seq<u8>,
    answer: Result<(), Seq<char>>,
) -> ExchangeView {
    match answer {
        Ok(_) => ExchangeView::Agree(peer_x, peer_y),
        Err(reason) => ExchangeView::Done(
            Err(ErrorView::Provider("TPM2_CreatePrimary failed: "@ + reason)),
        ),
    }
}

/// The secret that the TPM's answer gives, or why there is none.
pub open spec fn exchange_result(shared: Result<Seq<u8>, Seq<char>>) -> Result<
    Seq<u8>,
    ErrorView,
> {
    match shared {
        Err(reason) => Err(ErrorView::Provider("TPM2_ECDH_ZGen failed: "@ + reason)),
        Ok(x) => if x.len() != 32 {
            Err(ErrorView::Provider("TPM returned unexpected ECDH shared point size"@))
        } else {
            Ok(x)
        },
    }
}

impl CreateQuery {
    /// The service.
    pub closed spec fn service(&self) -> Seq<char> {
        self.service@
    }

    /// The x-coordinate of the other side's public key.
    pub closed spec fn peer_x(&self) -> Seq<u8> {
        self.peer.x@
    }

    /// The y-coordinate of the other side's public key.
    pub closed spec fn peer_y(&self) -> Seq<u8> {
        self.peer.y@
    }

    /// The template to derive the key from.
    pub fn template(&self) -> (template: PublicTemplate)
        ensures
            is_service_template(template, self.service()),
    {
        service_public_template(self.service.as_str())
    }

    /// Goes on after the key was derived, or after that failed with a reason.
    pub fn answered(self, answer: Result<(), String>) -> (step: Tpm2Step)
        ensures
            step@ == after_create(
                self.peer_x(),
                self.peer_y(),
                change_view(answer),
            ),
    {
        match answer {
            Ok(_) => Tpm2Step::Agree(AgreeQuery { peer: self.peer }),
            Err(reason) => Tpm2Step::Done(
                Err(Error::Provider(concat2("TPM2_CreatePrimary failed: ", reason.as_str()))),
            ),
        }
    }
}

impl AgreeQuery {
    /// The x-coordinate of the other side's public key.
    pub closed spec fn peer_x(&self) -> Seq<u8> {
        self.peer.x@
    }

    /// The y-coordinate of the other side's public key.
    pub closed spec fn peer_y(&self) -> Seq<u8> {
        self.peer.y@
    }

    /// The other side's public key.
    pub fn peer(&self) -> (peer: Point)
        ensures
            peer.x@ == self.peer_x(),
            peer.y@ == self.peer_y(),
    {
        self.peer
    }

    /// Goes on with the x-coordinate of the shared point, or with the reason that there is none.
    /// Either way the derived key is to be forgotten next.
    pub fn answered(self, answer: Result<Vec<u8>, String>) -> (step: Tpm2Step)
        ensures
            step@ == ExchangeView::Flush(bytes_or_reason(answer)),
    {
        Tpm2Step::Flush(FlushQuery { shared: answer })
    }
}

impl FlushQuery {
    /// What the TPM answered.
    pub closed spec fn shared(&self) -> Result<Seq<u8>, Seq<char>> {
        bytes_or_reason(self.shared)
    }

    /// Ends the agreement after the derived key was forgotten.
    pub fn flushed(self) -> (step: Tpm2Step)
        ensures
            step@ == ExchangeView::Done(exchange_result(self.shared())),
    {
        let mut x = match self.shared {
            Ok(x) => x,
            Err(reason) => return Tpm2Step::Done(
                Err(Error::Provider(concat2("TPM2_ECDH_ZGen failed: ", reason.as_str()))),
            ),
        };
        if x.len() != 32 {
            scrub(x.as_mut_slice());
            return Tpm2Step::Done(
                Err(
                    Error::Provider(
                        String::from_str("TPM returned unexpected ECDH shared point size"),
                    ),
                ),
            );
        }
        let shared: SharedSecret = array_from(x.as_slice());
        scrub(x.as_mut_slice());
        Tpm2Step::Done(Ok(shared))
    }
}

/// How often an agreement asks for a key to be derived and for one to be forgotten, given the
/// TPM's answers.
pub open spec fn slots_taken_and_freed(
    step: ExchangeView,
    created: Result<(), Seq<char>>,
    shared: Result<Seq<u8>, Seq<char>>,
) -> (nat, nat)
    decreases
            match step {
                ExchangeView::CreatePrimary(_, _, _) => 3nat,
                ExchangeView::Agree(_, _) => 2nat,
                ExchangeView::Flush(_) => 1nat,
                ExchangeView::Done(_) => 0nat,
            },
{
    match step {
        ExchangeView::CreatePrimary(_, x, y) => {
            let rest = slots_taken_and_freed(after_create(x, y, created), created, shared);
            (rest.0 + if created is Ok {
                1nat
            } else {
                0nat
            }, rest.1)
        },
        ExchangeView::Agree(_, _) => slots_taken_and_freed(
            ExchangeView::Flush(shared),
            created,
            shared,
        ),
        ExchangeView::Flush(answer) => {
            let rest = slots_taken_and_freed(
                ExchangeView::Done(exchange_result(answer)),
                created,
                shared,
            );
            (rest.0, rest.1 + 1)
        },
        ExchangeView::Done(_) => (0, 0),
    }
}

/// An agreement leaves no key behind in the TPM: whatever the TPM answers, every key that was
/// derived is forgotten, once.
pub proof fn derived_keys_are_flushed(
    connected: bool,
    service: Seq<char>,
    peer: Seq<u8>,
    created: Result<(), Seq<char>>,
    shared: Result<Seq<u8>, Seq<char>>,
)
    ensures
        ({
            let slots = slots_taken_and_freed(
                first_exchange(connected, service, peer),
                created,
                shared,
            );
            slots.0 == slots.1 && slots.0 <= 1
        }),
{
    reveal_with_fuel(slots_taken_and_freed, 4);
}

/// The template is a function of the service: two templates of one service are alike in all fields,
/// so the TPM derives the same key from both.
pub proof fn templates_are_reproducible(service: Seq<char>, a: PublicTemplate, b: PublicTemplate)
    requires
        is_service_template(a, service),
        is_service_template(b, service),
    ensures
        a.attributes == b.attributes,
        a.curve == b.curve,
        a.name_hash == b.name_hash,
        a.scheme == b.scheme,
        a.derivation == b.derivation,
        a.unique.x@ == b.unique.x@,
        a.unique.y@ == b.unique.y@,
{
}

/// Different services have different preimages of their labels.
pub proof fn services_have_distinct_preimages(a: Seq<char>, b: Seq<char>)
    requires
        encode_utf8(a) == encode_utf8(b),
    ensures
        a == b,
{
    utf8_is_injective(a, b);
}

} // verus!
