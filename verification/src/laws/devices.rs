//! The conversations with TPM and token, said of what goes out and what comes back.
use crate::error::ErrorView;
use crate::primitives::digest::sha256;
use crate::provider::pkcs11::{
    after_derive, after_find, after_generate, after_read, attributes, default_modules,
    derived_attributes, find_attributes, first_value, label, object_view, objects_view,
    private_attributes, public_attributes, read_view, setting_view, slot_choice, Attribute,
    AttributeView, KeyType, ObjectClass, TokenView,
};
use crate::provider::tpm2::{
    after_create, exchange_result, is_service_template, service_label, EccCurve, EccScheme,
    ExchangeView, KeyDerivation, NameHash, PublicTemplate,
};
use crate::provider::{pkcs11, tpm2};
use crate::text::{parsed_number, utf8_is_injective};
use vstd::prelude::*;
use vstd::utf8::encode_utf8;

verus! {

/// The template of every new public key names the P-256 curve by its DER object identifier, byte by
/// byte, and names no other curve.
pub proof fn public_keys_are_on_p256(service: Seq<char>)
    ensures
        public_attributes(service).contains(
            AttributeView::EcParams(
                seq![0x06u8, 0x08, 0x2a, 0x86, 0x48, 0xce, 0x3d, 0x03, 0x01, 0x07],
            ),
        ),
        forall|i: int|
            0 <= i < public_attributes(service).len() ==> ((
            #[trigger] public_attributes(service)[i]) matches AttributeView::EcParams(bytes) ==> {
                &&& bytes.len() == 10
                &&& bytes[0] == 6
                &&& bytes[1] == 8
                &&& bytes[2] == 0x2a
                &&& bytes[3] == 0x86
                &&& bytes[4] == 0x48
                &&& bytes[5] == 0xce
                &&& bytes[6] == 0x3d
                &&& bytes[7] == 3
                &&& bytes[8] == 1
                &&& bytes[9] == 7
            }),
{
    let list = public_attributes(service);
    let params = seq![0x06u8, 0x08, 0x2a, 0x86, 0x48, 0xce, 0x3d, 0x03, 0x01, 0x07];
    assert(list[5] == AttributeView::EcParams(params));
}

/// The template of a new public key: a token object that is open and not for verifying, under the
/// whole name of the service and its digest.
pub proof fn new_public_keys_have_these_attributes(service: Seq<char>)
    ensures
        ({
            let list = public_attributes(service);
            &&& list.len() == 8
            &&& list[0] == AttributeView::Class(ObjectClass::PublicKey)
            &&& list[1] == AttributeView::KeyType(KeyType::Ec)
            &&& list[2] == AttributeView::Token(true)
            &&& list[3] == AttributeView::Private(false)
            &&& list[4] == AttributeView::Verify(false)
            &&& list[5] is EcParams
            &&& list[6] == AttributeView::Label(encode_utf8("hkdfguard:"@ + service))
            &&& list[7] == AttributeView::Id(sha256(encode_utf8(service)))
        }),
{
}

/// The template of a new private key: it stays on the token, needs a login, agrees on secrets and
/// nothing else, under the whole name of the service and its digest.
pub proof fn new_private_keys_have_these_attributes(service: Seq<char>)
    ensures
        ({
            let list = private_attributes(service);
            &&& list.len() == 10
            &&& list[0] == AttributeView::Class(ObjectClass::PrivateKey)
            &&& list[1] == AttributeView::KeyType(KeyType::Ec)
            &&& list[2] == AttributeView::Token(true)
            &&& list[3] == AttributeView::Private(true)
            &&& list[4] == AttributeView::Sensitive(true)
            &&& list[5] == AttributeView::Extractable(false)
            &&& list[6] == AttributeView::Derive(true)
            &&& list[7] == AttributeView::Sign(false)
            &&& list[8] == AttributeView::Label(encode_utf8("hkdfguard:"@ + service))
            &&& list[9] == AttributeView::Id(sha256(encode_utf8(service)))
        }),
{
}

/// A search asks for private elliptic-curve keys under the whole name of the service.
pub proof fn searches_ask_for_the_whole_service(service: Seq<char>)
    ensures
        ({
            let list = find_attributes(service);
            &&& list.len() == 3
            &&& list[0] == AttributeView::Class(ObjectClass::PrivateKey)
            &&& list[1] == AttributeView::KeyType(KeyType::Ec)
            &&& list[2] == AttributeView::Label(encode_utf8("hkdfguard:"@ + service))
        }),
{
}

/// The temporary object is a readable generic secret of 32 bytes, of the session only.
pub proof fn temporary_objects_have_these_attributes()
    ensures
        ({
            let list = derived_attributes();
            &&& list.len() == 6
            &&& list[0] == AttributeView::Class(ObjectClass::SecretKey)
            &&& list[1] == AttributeView::KeyType(KeyType::GenericSecret)
            &&& list[2] == AttributeView::Token(false)
            &&& list[3] == AttributeView::Sensitive(false)
            &&& list[4] == AttributeView::Extractable(true)
            &&& list[5] == AttributeView::ValueLen(32)
        }),
{
}

/// The label of a key pair holds the whole name of the service, so different services have
/// different ones.
pub proof fn labels_hold_the_whole_service(a: Seq<char>, b: Seq<char>)
    ensures
        label(a) == encode_utf8("hkdfguard:"@ + a),
        a != b ==> label(a) != label(b),
{
    let prefix = "hkdfguard:"@;
    assert((prefix + a).skip(prefix.len() as int) =~= a);
    assert((prefix + b).skip(prefix.len() as int) =~= b);
    if label(a) == label(b) {
        utf8_is_injective(prefix + a, prefix + b);
    }
}

/// Attributes are seen one by one, and each whole.
pub proof fn attributes_are_seen_whole(list: Seq<Attribute>, attribute: Attribute)
    ensures
        attributes(list).len() == list.len(),
        forall|i: int| 0 <= i < list.len() ==> #[trigger] attributes(list)[i] == list[i]@,
        match attribute {
            Attribute::Class(class) => attribute@ == AttributeView::Class(class),
            Attribute::KeyType(t) => attribute@ == AttributeView::KeyType(t),
            Attribute::Token(b) => attribute@ == AttributeView::Token(b),
            Attribute::Private(b) => attribute@ == AttributeView::Private(b),
            Attribute::Sensitive(b) => attribute@ == AttributeView::Sensitive(b),
            Attribute::Extractable(b) => attribute@ == AttributeView::Extractable(b),
            Attribute::Derive(b) => attribute@ == AttributeView::Derive(b),
            Attribute::Sign(b) => attribute@ == AttributeView::Sign(b),
            Attribute::Verify(b) => attribute@ == AttributeView::Verify(b),
            Attribute::EcParams(bytes) => attribute@ == AttributeView::EcParams(bytes@),
            Attribute::Label(bytes) => attribute@ == AttributeView::Label(bytes@),
            Attribute::Id(bytes) => attribute@ == AttributeView::Id(bytes@),
            Attribute::ValueLen(n) => attribute@ == AttributeView::ValueLen(n),
            Attribute::Value(bytes) => attribute@ == AttributeView::Value(bytes@),
            Attribute::Other => attribute@ == AttributeView::Other,
        },
{
}

/// Modules are tried at four places, in this order.
pub proof fn modules_have_four_places()
    ensures
        default_modules().len() == 4,
        default_modules()[0] == "/usr/lib/softhsm/libsofthsm2.so"@,
        default_modules()[1] == "/usr/lib/x86_64-linux-gnu/softhsm/libsofthsm2.so"@,
        default_modules()[2] == "/usr/lib64/softhsm/libsofthsm2.so"@,
        default_modules()[3] == "/usr/local/lib/softhsm/libsofthsm2.so"@,
{
}

/// The slot is the one that the setting numbers, counted from zero, or the first without a setting,
/// and there is none where that many are not there.
pub proof fn slots_are_counted_from_zero(text: Seq<char>, slots: nat, setting: &str)
    ensures
        slot_choice(None, slots) == (if slots > 0 {
            Some(0nat)
        } else {
            None
        }),
        match parsed_number(text, usize::MAX as nat) {
            Some(i) => slot_choice(Some(text), slots) == (if i < slots {
                Some(i)
            } else {
                None
            }),
            None => slot_choice(Some(text), slots) is None,
        },
        setting_view(Some(setting)) == Some(setting@),
        setting_view(None) is None,
{
}

/// The value that is picked is the first of the right length, and there is none where none has it.
pub proof fn the_first_value_of_the_right_length_is_picked(
    list: Seq<AttributeView>,
    len: nat,
    k: int,
)
    ensures
        (forall|j: int|
            0 <= j < list.len() ==> !((#[trigger] list[j]) matches AttributeView::Value(v)
                && v.len() == len)) ==> first_value(list, len, 0) is None,
        0 <= k < list.len() && (list[k] matches AttributeView::Value(v) && v.len() == len) && (
        forall|j: int|
            0 <= j < k ==> !((#[trigger] list[j]) matches AttributeView::Value(v) && v.len()
                == len)) ==> first_value(list, len, 0) == Some(list[k]->Value_0),
{
    other_attributes_are_passed_over(list, len, 0, k);
    other_attributes_are_passed_over(list, len, 0, list.len() as int);
}

/// Attributes that are no values of the right length are passed over.
proof fn other_attributes_are_passed_over(list: Seq<AttributeView>, len: nat, i: int, k: int)
    requires
        0 <= i,
    ensures
        i <= k <= list.len() && (forall|j: int|
            i <= j < k ==> !((#[trigger] list[j]) matches AttributeView::Value(v) && v.len()
                == len)) ==> first_value(list, len, i) == first_value(list, len, k),
    decreases k - i,
{
    if i < k <= list.len() {
        other_attributes_are_passed_over(list, len, i + 1, k);
        let first = list[i];
        assert(first is Value || first !is Value);
    }
}

/// An agreement on a token uses the first private key found, makes a pair only where none is
/// found, reads the temporary object, destroys it and hands out its value; each failure ends it
/// with its own message.
pub proof fn token_agreements_go_step_by_step<O>(
    service: Seq<char>,
    peer: Seq<u8>,
    objects: Seq<O>,
    object: O,
    list: Seq<AttributeView>,
    reason: Seq<char>,
)
    ensures
        pkcs11::first_exchange::<O>(true, service, peer) == TokenView::<O>::Find(service, peer),
        pkcs11::first_exchange::<O>(false, service, peer) == TokenView::<O>::Done(
            Err(ErrorView::Provider("PKCS#11 session not available"@)),
        ),
        objects.len() > 0 ==> after_find(service, peer, Ok(objects)) == TokenView::Derive(
            objects[0],
            peer,
        ),
        objects.len() == 0 ==> after_find(service, peer, Ok(objects)) == TokenView::<O>::Generate(
            service,
            peer,
        ),
        after_find::<O>(service, peer, Err(reason)) == TokenView::<O>::Done(
            Err(ErrorView::Provider("PKCS#11 find_objects failed: "@ + reason)),
        ),
        after_generate(peer, Ok(object)) == TokenView::Derive(object, peer),
        after_generate::<O>(peer, Err(reason)) == TokenView::<O>::Done(
            Err(ErrorView::Provider("PKCS#11 EC key pair generation failed: "@ + reason)),
        ),
        after_derive(Ok(object)) == TokenView::Read(object),
        after_derive::<O>(Err(reason)) == TokenView::<O>::Done(
            Err(ErrorView::Provider("CKM_ECDH1_DERIVE failed: "@ + reason)),
        ),
        match first_value(list, 32, 0) {
            Some(value) => after_read(object, Ok(list)) == TokenView::Destroy(object, value),
            None => after_read(object, Ok(list)) == TokenView::<O>::Done(
                Err(
                    ErrorView::Provider(
                        "PKCS#11 token did not return a CKA_VALUE for derived secret"@,
                    ),
                ),
            ),
        },
        after_read(object, Err(reason)) == TokenView::<O>::Done(
            Err(ErrorView::Provider("PKCS#11 get_attributes failed: "@ + reason)),
        ),
{
}

/// What the token answers is seen whole.
pub proof fn token_answers_are_seen_whole<O>(
    object: O,
    objects: Vec<O>,
    list: Vec<Attribute>,
    reason: String,
)
    ensures
        object_view(Ok(object)) == Ok::<O, Seq<char>>(object),
        object_view(Err::<O, String>(reason)) == Err::<O, Seq<char>>(reason@),
        objects_view(Ok(objects)) == Ok::<Seq<O>, Seq<char>>(objects@),
        objects_view(Err::<Vec<O>, String>(reason)) == Err::<Seq<O>, Seq<char>>(reason@),
        read_view(Ok(list)) == Ok::<Seq<AttributeView>, Seq<char>>(attributes(list@)),
        read_view(Err(reason)) == Err::<Seq<AttributeView>, Seq<char>>(reason@),
{
}

/// The template that a service's key is derived from: bound to this TPM and made by it, for
/// agreement and not for signing, on P-256, without schemes of its own, and labelled with the
/// digest of all bytes of the service's name in both coordinates.
pub proof fn tpm_templates_have_these_fields(template: PublicTemplate, service: Seq<char>)
    requires
        is_service_template(template, service),
    ensures
        template.attributes.fixed_tpm,
        template.attributes.fixed_parent,
        template.attributes.sensitive_data_origin,
        template.attributes.user_with_auth,
        template.attributes.decrypt,
        !template.attributes.sign_encrypt,
        !template.attributes.restricted,
        template.curve == EccCurve::NistP256,
        template.name_hash == NameHash::Sha256,
        template.scheme == EccScheme::Null,
        template.derivation == KeyDerivation::Null,
        template.unique.x@ == sha256(encode_utf8(service)),
        template.unique.y@ == sha256(encode_utf8(service)),
{
}

/// Different services have their labels digested of different bytes.
pub proof fn tpm_labels_are_digests_of_the_whole_service(a: Seq<char>, b: Seq<char>)
    ensures
        service_label(a) == sha256(encode_utf8(a)),
        a != b ==> encode_utf8(a) != encode_utf8(b),
{
    if encode_utf8(a) == encode_utf8(b) {
        utf8_is_injective(a, b);
    }
}

/// An agreement in a TPM derives the service's key, agrees with the coordinates of the other side's
/// public key, and ends with a secret of 32 bytes; each failure ends it with its own message.
pub proof fn tpm_agreements_go_step_by_step(
    service: Seq<char>,
    peer: Seq<u8>,
    x: Seq<u8>,
    y: Seq<u8>,
    reason: Seq<char>,
)
    ensures
        tpm2::first_exchange(true, service, peer) == ExchangeView::CreatePrimary(
            service,
            peer.subrange(1, 33),
            peer.subrange(33, 65),
        ),
        tpm2::first_exchange(false, service, peer) == ExchangeView::Done(
            Err(ErrorView::Provider("TPM context not available"@)),
        ),
        after_create(x, y, Ok(())) == ExchangeView::Agree(x, y),
        after_create(x, y, Err(reason)) == ExchangeView::Done(
            Err(ErrorView::Provider("TPM2_CreatePrimary failed: "@ + reason)),
        ),
        exchange_result(Err(reason)) == Err::<Seq<u8>, ErrorView>(
            ErrorView::Provider("TPM2_ECDH_ZGen failed: "@ + reason),
        ),
        x.len() == 32 ==> exchange_result(Ok(x)) == Ok::<Seq<u8>, ErrorView>(x),
        x.len() != 32 ==> exchange_result(Ok(x)) == Err::<Seq<u8>, ErrorView>(
            ErrorView::Provider("TPM returned unexpected ECDH shared point size"@),
        ),
{
}

} // verus!
