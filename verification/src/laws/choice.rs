//! The choice of a provider, answer by answer.
use crate::error::{Error, ErrorView};
use crate::provider::selection::{
    after_ask, after_cached, after_probe, answer_view, asked, at_place, first_step, last_failure,
    next_step, place_of, preference, run, Choice, Features, Preference, StepView, World,
};
use crate::provider::ProviderType;
use vstd::prelude::*;

verus! {

/// The chain is the offered ones of TPM2, PKCS#11, external secret, software and ephemeral, in this
/// order.
pub proof fn the_chain_has_a_fixed_order(features: Features)
    ensures
        features == (Features {
            tpm2: true,
            pkcs11: true,
            external_secret: true,
            software: true,
            ephemeral: true,
        }) ==> features.chain() == seq![
            ProviderType::Tpm2,
            ProviderType::Pkcs11,
            ProviderType::ExternalSecret,
            ProviderType::Software,
            ProviderType::Ephemeral,
        ],
        features.offers(ProviderType::Tpm2) == features.tpm2,
        features.offers(ProviderType::Pkcs11) == features.pkcs11,
        features.offers(ProviderType::ExternalSecret) == features.external_secret,
        features.offers(ProviderType::Software) == features.software,
        features.offers(ProviderType::Ephemeral) == features.ephemeral,
        features.chain().contains(ProviderType::Tpm2) == features.tpm2,
        features.chain().contains(ProviderType::Pkcs11) == features.pkcs11,
        features.chain().contains(ProviderType::ExternalSecret) == features.external_secret,
        features.chain().contains(ProviderType::Software) == features.software,
        features.chain().contains(ProviderType::Ephemeral) == features.ephemeral,
{
    crate::provider::selection::chain_is_in_priority_order(features);
    assert(features.tpm2 && features.pkcs11 && features.external_secret && features.software
        && features.ephemeral ==> features.chain() =~= seq![
        ProviderType::Tpm2,
        ProviderType::Pkcs11,
        ProviderType::ExternalSecret,
        ProviderType::Software,
        ProviderType::Ephemeral,
    ]);
}

/// One step of a selection: the settled provider first; then each place of the chain in turn,
/// probed before it is asked; a key ends the selection, a refusal moves it on and is remembered,
/// and the end of the chain reports what was remembered last.
pub proof fn selections_go_step_by_step<H>(
    chain: Seq<ProviderType>,
    i: int,
    handle: H,
    error: ErrorView,
    refusal: ErrorView,
)
    requires
        0 <= i < chain.len() <= usize::MAX,
    ensures
        first_step::<H>(chain, true) == StepView::<H>::AskCached(chain),
        first_step::<H>(chain, false) == StepView::<H>::Probe(
            chain,
            0,
            ErrorView::NoProviderAvailable,
        ),
        first_step::<H>(Seq::empty(), false) == StepView::<H>::Exhausted(
            ErrorView::NoProviderAvailable,
        ),
        after_cached(chain, Ok(handle)) == StepView::Chosen(Choice::Cached, handle),
        after_cached::<H>(chain, Err(refusal)) == StepView::<H>::Probe(
            chain,
            0,
            ErrorView::NoProviderAvailable,
        ),
        after_probe::<H>(chain, i, error, true) == StepView::<H>::Ask(chain, i, error),
        after_probe::<H>(chain, i, error, false) == (if i + 1 < chain.len() {
            StepView::<H>::Probe(chain, i + 1, error)
        } else {
            StepView::<H>::Exhausted(error)
        }),
        after_ask(chain, i, Ok(handle)) == StepView::Chosen(Choice::Listed(i as usize), handle),
        after_ask::<H>(chain, i, Err(refusal)) == (if i + 1 < chain.len() {
            StepView::<H>::Probe(chain, i + 1, refusal)
        } else {
            StepView::<H>::Exhausted(refusal)
        }),
{
}

/// Answers are seen whole.
pub proof fn answers_are_seen_whole<H>(handle: H, error: Error)
    ensures
        answer_view(Ok::<H, Error>(handle)) == Ok::<H, ErrorView>(handle),
        answer_view(Err::<H, Error>(error)) == Err::<H, ErrorView>(error@),
{
}

/// A whole selection, said of the answers alone: the first reachable provider that gives a key is
/// chosen, or, without one, the refusal of the last reachable provider is reported, or that there
/// is none where none is reachable.
pub proof fn the_first_reachable_key_wins<H>(chain: Seq<ProviderType>, world: World<H>, k: int)
    requires
        chain.len() <= usize::MAX,
    ensures
        ({
            let end = run(first_step::<H>(chain, false), world);
            &&& 0 <= k < chain.len() && (world.reachable)(k) && (world.answers)(k) is Ok && (
            forall|j: int|
                0 <= j < k ==> !((#[trigger] (world.reachable)(j)) && (world.answers)(j) is Ok))
                ==> end == StepView::Chosen(
                Choice::Listed(k as usize),
                (world.answers)(k)->Ok_0,
            )
            &&& 0 <= k < chain.len() && (world.reachable)(k) && (forall|j: int|
                0 <= j < chain.len() ==> !((#[trigger] (world.reachable)(j)) && (world.answers)(j)
                    is Ok)) && (forall|j: int|
                k < j < chain.len() ==> !#[trigger] (world.reachable)(j)) ==> end == StepView::<
                H,
            >::Exhausted((world.answers)(k)->Err_0)
            &&& (forall|j: int| 0 <= j < chain.len() ==> !#[trigger] (world.reachable)(j)) ==> end
                == StepView::<H>::Exhausted(ErrorView::NoProviderAvailable)
        }),
{
    crate::provider::selection::discovery_takes_first_usable(chain, false, world);
    let n = chain.len() as int;
    if 0 <= k < n && world.usable(k) && (forall|j: int|
        0 <= j < k ==> !((#[trigger] (world.reachable)(j)) && (world.answers)(j) is Ok)) {
        assert(world.none_usable_before(k));
    }
    if forall|j: int|
        0 <= j < n ==> !((#[trigger] (world.reachable)(j)) && (world.answers)(j) is Ok) {
        assert(world.none_usable_before(n));
        if 0 <= k < n && (world.reachable)(k) && (forall|j: int|
            k < j < n ==> !#[trigger] (world.reachable)(j)) {
            unreachable_providers_leave_the_error(world, k + 1, n);
        }
    }
    if forall|j: int| 0 <= j < n ==> !#[trigger] (world.reachable)(j) {
        assert(world.none_usable_before(n));
        unreachable_providers_leave_the_error(world, 0, n);
    }
}

/// Providers that are not reachable leave the remembered error as it is.
proof fn unreachable_providers_leave_the_error<H>(world: World<H>, from: int, end: int)
    requires
        0 <= from <= end,
        forall|j: int| from <= j < end ==> !#[trigger] (world.reachable)(j),
    ensures
        last_failure(world, end) == last_failure(world, from),
    decreases end - from,
{
    if from < end {
        assert(!(world.reachable)(end - 1));
        unreachable_providers_leave_the_error(world, from, end - 1);
    }
}

/// The place of a provider is the first at which it stands, and there is none where it stands
/// nowhere.
pub proof fn providers_are_found_at_their_first_place(
    chain: Seq<ProviderType>,
    wanted: ProviderType,
    k: int,
)
    ensures
        (forall|j: int| 0 <= j < chain.len() ==> #[trigger] chain[j] != wanted) ==> place_of(
            chain,
            wanted,
            0,
        ) is None,
        0 <= k < chain.len() && chain[k] == wanted && (forall|j: int|
            0 <= j < k ==> #[trigger] chain[j] != wanted) ==> place_of(chain, wanted, 0) == Some(k),
{
    other_providers_are_passed_over(chain, wanted, 0, k);
    other_providers_are_passed_over(chain, wanted, 0, chain.len() as int);
}

/// Places of other providers are passed over.
proof fn other_providers_are_passed_over(
    chain: Seq<ProviderType>,
    wanted: ProviderType,
    i: int,
    k: int,
)
    requires
        0 <= i,
    ensures
        i <= k <= chain.len() && (forall|j: int| i <= j < k ==> #[trigger] chain[j] != wanted)
            ==> place_of(chain, wanted, i) == place_of(chain, wanted, k),
    decreases k - i,
{
    if i < k <= chain.len() {
        other_providers_are_passed_over(chain, wanted, i + 1, k);
        assert(chain[i] == wanted || chain[i] != wanted);
    }
}

/// The preferred provider is the settled one; without one it is the first of the chain whose
/// probe answered yes after all before it answered no, and as long as all answers are no the next
/// probe is asked for, until the chain is at its end.
pub proof fn the_first_probe_that_succeeds_decides(
    settled: ProviderType,
    chain: Seq<ProviderType>,
    probed: Seq<bool>,
    k: int,
)
    requires
        chain.len() <= usize::MAX,
    ensures
        preference(Some(settled), chain, probed, 0) == Preference::Known(Some(settled)),
        0 <= k < chain.len() && k < probed.len() && probed[k] && (forall|j: int|
            0 <= j < k ==> !#[trigger] probed[j]) ==> preference(None, chain, probed, 0)
            == Preference::Known(Some(chain[k])),
        probed.len() < chain.len() && (forall|j: int|
            0 <= j < probed.len() ==> !#[trigger] probed[j]) ==> preference(None, chain, probed, 0)
            == Preference::Probe(probed.len() as usize),
        chain.len() <= probed.len() && (forall|j: int|
            0 <= j < chain.len() ==> !#[trigger] probed[j]) ==> preference(None, chain, probed, 0)
            == Preference::Known(None),
{
    failed_probes_are_passed_over(chain, probed, 0, k);
    failed_probes_are_passed_over(chain, probed, 0, probed.len() as int);
    failed_probes_are_passed_over(chain, probed, 0, chain.len() as int);
}

/// Probes that answered no are passed over.
proof fn failed_probes_are_passed_over(
    chain: Seq<ProviderType>,
    probed: Seq<bool>,
    i: int,
    k: int,
)
    requires
        0 <= i,
    ensures
        i <= k <= chain.len() && k <= probed.len() && (forall|j: int|
            i <= j < k ==> !#[trigger] probed[j]) ==> preference(None, chain, probed, i)
            == preference(None, chain, probed, k),
    decreases k - i,
{
    if i < k <= chain.len() && k <= probed.len() {
        failed_probes_are_passed_over(chain, probed, i + 1, k);
        assert(probed[i] || !probed[i]);
    }
}

/// One answer out of a world moves a selection as that answer does, and only asking for a key
/// counts as asking.
pub proof fn worlds_answer_one_question_at_a_time<H>(
    chain: Seq<ProviderType>,
    i: int,
    error: ErrorView,
    world: World<H>,
)
    ensures
        next_step(StepView::<H>::AskCached(chain), world) == after_cached(
            chain,
            world.cached_answer,
        ),
        next_step(StepView::<H>::Probe(chain, i, error), world) == after_probe::<H>(
            chain,
            i,
            error,
            (world.reachable)(i),
        ),
        next_step(StepView::<H>::Ask(chain, i, error), world) == after_ask(
            chain,
            i,
            (world.answers)(i),
        ),
        at_place::<H>(chain, i, error) == (if i < chain.len() {
            StepView::<H>::Probe(chain, i, error)
        } else {
            StepView::<H>::Exhausted(error)
        }),
        asked(StepView::<H>::Ask(chain, i, error), world) == seq![i] + asked(
            next_step(StepView::<H>::Ask(chain, i, error), world),
            world,
        ),
        asked(StepView::<H>::Probe(chain, i, error), world) == asked(
            next_step(StepView::<H>::Probe(chain, i, error), world),
            world,
        ),
{
}

} // verus!
