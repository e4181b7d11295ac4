//! The two operations of the library from beginning to end: wrapping a key, and unwrapping it.
//!
//! Choosing a provider, asking it for a key and agreeing with it on a secret is the caller's part:
//! a [`WrapStep`] or an [`UnwrapStep`] says what to do next, and takes the answer.
use crate::abi::{results_are_delivered_whole, unwrap_reply, with_front, wrap_reply, Reply};
use crate::crypto::{
    ephemeral_key, is_wrapping, opened_payload, read_wrapped, unwrap_with, unwrapped,
    wrapped_parts, WrapSession, DEK_LEN,
};
use crate::error::{outcome, Error, ErrorView};
use crate::keys::{PublicKey, SharedSecret};
use crate::payload::{Payload, PayloadView};
use crate::primitives::curve::is_point;
use crate::primitives::memory::scrub;
use crate::provider::external_secret::{refuse_unwrap, refused_unwrap};
use crate::provider::ProviderType;
use crate::status;
use vstd::prelude::*;

verus! {

/// What to do next for a wrapping.
pub enum WrapStep {
    /// Select a provider that has a key for the service.
    Select(SelectQuery),
    /// Agree on a secret with the provider's key.
    Agree(WrapAgreement),
    /// The wrapping is over.
    Done(Result<Vec<u8>, Error>),
}

/// A provider is to be selected.
pub struct SelectQuery {
    service: String,
}

/// A secret is to be agreed on.
pub struct WrapAgreement {
    service: String,
    provider_type: ProviderType,
    key_id: Vec<u8>,
    session: WrapSession,
}

/// A wrapping whose secret is to be agreed on: the service, the provider and its name for the key,
/// the public key to agree with and the nonce.
pub struct Agreement {
    pub service: Seq<char>,
    pub provider_type: ProviderType,
    pub key_id: Seq<u8>,
    pub point: Seq<u8>,
    pub nonce: Seq<u8>,
}

/// A [`WrapStep`] by its contents.
pub enum WrapView {
    Select(Seq<char>),
    Agree(Agreement),
    Done(Result<Seq<u8>, ErrorView>),
}

impl View for WrapStep {
    type V = WrapView;

    open spec fn view(&self) -> WrapView {
        match self {
            WrapStep::Select(query) => WrapView::Select(query.service()),
            WrapStep::Agree(query) => WrapView::Agree(query.agreement()),
            WrapStep::Done(r) => WrapView::Done(outcome(*r)),
        }
    }
}

/// The provider that was selected and its name for the key, or the reason that there is none.
pub open spec fn selected_view(answer: Result<(ProviderType, Vec<u8>), Error>) -> Result<
    (ProviderType, Seq<u8>),
    ErrorView,
> {
    match answer {
        Ok(pair) => Ok((pair.0, pair.1@)),
        Err(error) => Err(error@),
    }
}

/// The step after the selection, with the public key and the nonce made for the wrapping.
pub open spec fn after_select(
    service: Seq<char>,
    answer: Result<(ProviderType, Seq<u8>), ErrorView>,
    point: Seq<u8>,
    nonce: Seq<u8>,
) -> WrapView {
    match answer {
        Ok(pair) => WrapView::Agree(
            Agreement { service, provider_type: pair.0, key_id: pair.1, point, nonce },
        ),
        Err(error) => WrapView::Done(Err(error)),
    }
}

impl Agreement {
    /// Whether `wrapped` is `dek`, wrapped under the secret that was agreed on.
    pub open spec fn wraps(self, shared: Seq<u8>, dek: Seq<u8>, wrapped: Seq<u8>) -> bool {
        is_wrapping(
            wrapped,
            self.service,
            self.provider_type,
            self.key_id,
            self.point,
            shared,
            self.nonce,
            dek,
        )
    }
}

/// Starts to wrap a key for a service.
pub fn start_wrap(service: &str) -> (step: WrapStep)
    ensures
        step@ == WrapView::Select(service@),
{
    WrapStep::Select(SelectQuery { service: String::from_str(service) })
}

impl SelectQuery {
    /// The service.
    pub closed spec fn service(&self) -> Seq<char> {
        self.service@
    }

    /// Goes on with the provider that was selected and its name for the key, or with the error of
    /// the selection. A key pair and a nonce are made for this one wrapping.
    pub fn answered(self, answer: Result<(ProviderType, Vec<u8>), Error>) -> (step: WrapStep)
        ensures
            exists|point: Seq<u8>, nonce: Seq<u8>|
                is_point(point) && step@ == #[trigger] after_select(
                    self.service(),
                    selected_view(answer),
                    point,
                    nonce,
                ),
    {
        self.answered_with(answer, WrapSession::new())
    }

    /// Goes on with the answer and with the key pair and the nonce of this wrapping.
    pub fn answered_with(
        self,
        answer: Result<(ProviderType, Vec<u8>), Error>,
        session: WrapSession,
    ) -> (step: WrapStep)
        ensures
            step@ == after_select(
                self.service(),
                selected_view(answer),
                session.point(),
                session.nonce(),
            ),
    {
        match answer {
            Ok(pair) => WrapStep::Agree(
                WrapAgreement {
                    service: self.service,
                    provider_type: pair.0,
                    key_id: pair.1,
                    session,
                },
            ),
            Err(error) => WrapStep::Done(Err(error)),
        }
    }
}

impl WrapAgreement {
    /// What is agreed on, with whom and for what.
    pub closed spec fn agreement(&self) -> Agreement {
        Agreement {
            service: self.service@,
            provider_type: self.provider_type,
            key_id: self.key_id@,
            point: self.session.point(),
            nonce: self.session.nonce(),
        }
    }

    /// The public key to agree on a secret with.
    pub fn peer(&self) -> (key: &PublicKey)
        ensures
            key@ == self.agreement().point,
    {
        self.session.peer()
    }

    /// Ends the wrapping with the secret that was agreed on, or with the error of the agreement.
    /// The secret is scrubbed.
    pub fn answered(self, answer: Result<SharedSecret, Error>, dek: &[u8; DEK_LEN]) -> (step:
        WrapStep)
        ensures
            match answer {
                Ok(shared) => step@ matches WrapView::Done(Ok(wrapped)) && self.agreement().wraps(
                    shared@,
                    dek@,
                    wrapped,
                ),
                Err(error) => step@ == WrapView::Done(Err(error@)),
            },
    {
        let WrapAgreement { service, provider_type, key_id, session } = self;
        match answer {
            Ok(shared) => WrapStep::Done(
                session.finish(service.as_str(), provider_type, key_id.as_slice(), shared, dek),
            ),
            Err(error) => WrapStep::Done(Err(error)),
        }
    }
}

/// What to do next for an unwrapping.
pub enum UnwrapStep {
    /// Ask the provider that the payload names for the service's key.
    Ask(ProviderQuery),
    /// Agree on a secret with that key.
    Agree(UnwrapAgreement),
    /// The unwrapping is over.
    Done(Result<[u8; DEK_LEN], Error>),
}

/// A provider is to be asked for the service's key.
pub struct ProviderQuery {
    service: String,
    payload: Payload,
}

/// A secret is to be agreed on.
pub struct UnwrapAgreement {
    service: String,
    payload: Payload,
    peer: PublicKey,
}

/// An [`UnwrapStep`] by its contents: the service and the payload, or the end.
pub enum UnwrapView {
    Ask(Seq<char>, PayloadView),
    Agree(Seq<char>, PayloadView),
    Done(Result<Seq<u8>, ErrorView>),
}

impl View for UnwrapStep {
    type V = UnwrapView;

    open spec fn view(&self) -> UnwrapView {
        match self {
            UnwrapStep::Ask(query) => UnwrapView::Ask(query.service(), query.payload()),
            UnwrapStep::Agree(query) => UnwrapView::Agree(query.service(), query.payload()),
            UnwrapStep::Done(r) => UnwrapView::Done(outcome(*r)),
        }
    }
}

/// The first step of an unwrapping: without a payload that can hold a key it is over.
pub open spec fn first_unwrap(service: Seq<char>, wrapped: Seq<u8>) -> UnwrapView {
    match wrapped_parts(wrapped) {
        Ok(payload) => UnwrapView::Ask(service, payload),
        Err(error) => UnwrapView::Done(Err(error)),
    }
}

/// The step after the provider was asked.
pub open spec fn after_provider(
    service: Seq<char>,
    payload: PayloadView,
    answer: Result<(), ErrorView>,
) -> UnwrapView {
    match answer {
        Err(error) => UnwrapView::Done(Err(refused_unwrap(service, payload.key_id, error))),
        Ok(_) => if !is_point(payload.ephemeral_public_key) {
            UnwrapView::Done(
                Err(ErrorView::Crypto("malformed ephemeral public key in wrapped payload"@)),
            )
        } else {
            UnwrapView::Agree(service, payload)
        },
    }
}

/// The step after the agreement.
pub open spec fn after_agreement(
    service: Seq<char>,
    payload: PayloadView,
    answer: Result<Seq<u8>, ErrorView>,
) -> UnwrapView {
    match answer {
        Err(error) => UnwrapView::Done(Err(error)),
        Ok(shared) => UnwrapView::Done(opened_payload(service, payload, shared)),
    }
}

/// Whether a provider gave a key, or its error.
pub open spec fn given_view(answer: Result<(), Error>) -> Result<(), ErrorView> {
    match answer {
        Ok(_) => Ok(()),
        Err(error) => Err(error@),
    }
}

/// Starts to unwrap a key of a service.
pub fn start_unwrap(service: &str, wrapped: &[u8]) -> (step: UnwrapStep)
    ensures
        step@ == first_unwrap(service@, wrapped@),
{
    match read_wrapped(wrapped) {
        Ok(payload) => UnwrapStep::Ask(
            ProviderQuery { service: String::from_str(service), payload },
        ),
        Err(error) => UnwrapStep::Done(Err(error)),
    }
}

impl ProviderQuery {
    /// The service.
    pub closed spec fn service(&self) -> Seq<char> {
        self.service@
    }

    /// The payload.
    pub closed spec fn payload(&self) -> PayloadView {
        self.payload@
    }

    /// The provider to ask: the one that wrapped the payload.
    pub fn provider_type(&self) -> (t: ProviderType)
        ensures
            t == self.payload().provider_type,
    {
        self.payload.provider_type
    }

    /// Goes on after the provider gave a key, or with the error that it gave instead.
    pub fn answered(self, answer: Result<(), Error>) -> (step: UnwrapStep)
        ensures
            step@ == after_provider(self.service(), self.payload(), given_view(answer)),
    {
        let ProviderQuery { service, payload } = self;
        if let Err(error) = answer {
            return UnwrapStep::Done(
                Err(refuse_unwrap(service.as_str(), payload.key_id.as_slice(), error)),
            );
        }
        match ephemeral_key(&payload) {
            Ok(peer) => UnwrapStep::Agree(UnwrapAgreement { service, payload, peer }),
            Err(error) => UnwrapStep::Done(Err(error)),
        }
    }
}

impl UnwrapAgreement {
    #[verifier::type_invariant]
    closed spec fn valid(self) -> bool {
        self.peer@ == self.payload@.ephemeral_public_key
    }

    /// The service.
    pub closed spec fn service(&self) -> Seq<char> {
        self.service@
    }

    /// The payload.
    pub closed spec fn payload(&self) -> PayloadView {
        self.payload@
    }

    /// The public key to agree on a secret with: the one in the payload.
    pub fn peer(&self) -> (key: &PublicKey)
        ensures
            key@ == self.payload().ephemeral_public_key,
    {
        proof {
            use_type_invariant(self);
        }
        &self.peer
    }

    /// Ends the unwrapping with the secret that was agreed on, or with the error of the agreement.
    /// The secret is scrubbed.
    pub fn answered(self, answer: Result<SharedSecret, Error>) -> (step: UnwrapStep)
        ensures
            step@ == after_agreement(self.service(), self.payload(), outcome(answer)),
    {
        let mut shared = match answer {
            Ok(shared) => shared,
            Err(error) => return UnwrapStep::Done(Err(error)),
        };
        let r = unwrap_with(self.service.as_str(), &self.payload, &shared);
        scrub(&mut shared);
        UnwrapStep::Done(r)
    }
}

/// What the providers answer to an unwrapping.
pub struct Providers {
    /// Whether each provider gives a key for the service.
    pub given: spec_fn(ProviderType) -> Result<(), ErrorView>,
    /// What the key agrees on with the holder of the private half of a public key.
    pub agreed: spec_fn(Seq<u8>) -> Result<Seq<u8>, ErrorView>,
}

/// The end of an unwrapping, given what the providers answer.
pub open spec fn unwrap_run(step: UnwrapView, providers: Providers) -> Result<Seq<u8>, ErrorView>
    decreases
            match step {
                UnwrapView::Ask(_, _) => 2nat,
                UnwrapView::Agree(_, _) => 1nat,
                UnwrapView::Done(_) => 0nat,
            },
{
    match step {
        UnwrapView::Ask(service, payload) => unwrap_run(
            after_provider(service, payload, (providers.given)(payload.provider_type)),
            providers,
        ),
        UnwrapView::Agree(service, payload) => unwrap_run(
            after_agreement(
                service,
                payload,
                (providers.agreed)(payload.ephemeral_public_key),
            ),
            providers,
        ),
        UnwrapView::Done(r) => r,
    }
}

/// Nobody is asked for a malformed payload: the unwrapping is over at once, with the error of the
/// payload.
pub proof fn malformed_payloads_ask_nobody(service: Seq<char>, wrapped: Seq<u8>)
    requires
        wrapped_parts(wrapped) is Err,
    ensures
        first_unwrap(service, wrapped) == UnwrapView::Done(Err(wrapped_parts(wrapped)->Err_0)),
{
}

/// Only the provider that the payload names decides an unwrapping: what all others would answer
/// changes nothing.
pub proof fn only_the_named_provider_is_asked(
    service: Seq<char>,
    wrapped: Seq<u8>,
    providers: Providers,
    others: Providers,
)
    requires
        wrapped_parts(wrapped) matches Ok(payload) ==> (providers.given)(payload.provider_type) == (
        others.given)(payload.provider_type),
        providers.agreed == others.agreed,
    ensures
        unwrap_run(first_unwrap(service, wrapped), providers) == unwrap_run(
            first_unwrap(service, wrapped),
            others,
        ),
{
    reveal_with_fuel(unwrap_run, 3);
}

/// Where the named provider has a key and every agreement succeeds, an unwrapping ends as the
/// protocol says.
pub proof fn unwrapping_follows_the_protocol(
    service: Seq<char>,
    wrapped: Seq<u8>,
    providers: Providers,
    agreed: spec_fn(Seq<u8>) -> Seq<u8>,
)
    requires
        wrapped_parts(wrapped) matches Ok(payload) ==> (providers.given)(payload.provider_type)
            is Ok,
        forall|point: Seq<u8>| #[trigger]
            (providers.agreed)(point) == Ok::<Seq<u8>, ErrorView>(agreed(point)),
    ensures
        unwrap_run(first_unwrap(service, wrapped), providers) == unwrapped(
            service,
            wrapped,
            agreed,
        ),
{
    reveal_with_fuel(unwrap_run, 3);
}

/// The result of an unwrapping as the C interface delivers it: the key, or a status code.
pub open spec fn delivered(r: Result<Seq<u8>, ErrorView>) -> Result<Seq<u8>, i32> {
    match r {
        Ok(dek) => Ok(dek),
        Err(error) => Err(error.code()),
    }
}

/// What goes in through the C interface comes out again: the bytes that a successful request to
/// wrap left in its buffer, handed to a request to unwrap for the same service while the provider
/// still has the key, give the status of success, the same key at the front of the buffer, and its
/// length; the rest of the buffer is as it was. The name of the key encryption key must fit the
/// payload's field for it.
pub proof fn the_interface_gives_back_what_it_took(
    agreement: Agreement,
    agreed: spec_fn(Seq<u8>) -> Seq<u8>,
    dek: Seq<u8>,
    wrapped: Seq<u8>,
    out: Seq<u8>,
    providers: Providers,
    back: Seq<u8>,
)
    requires
        agreement.wraps(agreed(agreement.point), dek, wrapped),
        agreement.key_id.len() < 0x1_0000,
        dek.len() == DEK_LEN,
        out.len() <= i32::MAX,
        wrap_reply(Ok(wrapped), out, true, out.len() as i32).code == status::OK,
        (providers.given)(agreement.provider_type) is Ok,
        forall|point: Seq<u8>| #[trigger]
            (providers.agreed)(point) == Ok::<Seq<u8>, ErrorView>(agreed(point)),
        DEK_LEN <= back.len() <= i32::MAX,
    ensures
        ({
            let reply = wrap_reply(Ok(wrapped), out, true, out.len() as i32);
            let handed = reply.out.take(reply.out_len as int);
            let r = unwrap_run(first_unwrap(agreement.service, handed), providers);
            unwrap_reply(delivered(r), back, true, back.len() as i32) == (Reply {
                code: status::OK,
                out: with_front(back, dek),
                out_len: DEK_LEN as i32,
            })
        }),
{
    results_are_delivered_whole(wrapped, dek, out, out.len() as i32);
    unwrapping_follows_the_protocol(agreement.service, wrapped, providers, agreed);
}

/// A request to wrap that failed for want of space leaves the buffer alone and reports a greater
/// length. Repeated with that much space it succeeds, and reports the same length, though the
/// payload is another one: all payloads under one key encryption key are equally long.
pub proof fn a_retry_with_the_reported_length_succeeds(
    first: Agreement,
    first_shared: Seq<u8>,
    first_wrapped: Seq<u8>,
    second: Agreement,
    second_shared: Seq<u8>,
    second_wrapped: Seq<u8>,
    dek: Seq<u8>,
    out: Seq<u8>,
    present: bool,
    capacity: i32,
    retry: Seq<u8>,
)
    requires
        first.wraps(first_shared, dek, first_wrapped),
        second.wraps(second_shared, dek, second_wrapped),
        first.key_id == second.key_id,
        first_wrapped.len() <= i32::MAX,
        wrap_reply(Ok(first_wrapped), out, present, capacity).code == status::BUFFER_TOO_SMALL,
        retry.len() == wrap_reply(Ok(first_wrapped), out, present, capacity).out_len,
    ensures
        ({
            let refused = wrap_reply(Ok(first_wrapped), out, present, capacity);
            let reply = wrap_reply(Ok(second_wrapped), retry, true, refused.out_len);
            &&& refused.out == out
            &&& refused.out_len > capacity
            &&& reply.code == status::OK
            &&& reply.out == second_wrapped
            &&& reply.out_len == refused.out_len
        }),
{
    assert(with_front(retry, second_wrapped) =~= second_wrapped);
}

} // verus!
