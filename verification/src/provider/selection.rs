//! The choice of a provider.
//!
//! Wrapping takes the first provider, strongest first, that is reachable and gives a key for the
//! service; the provider that was settled on earlier is asked before all others. Unwrapping takes
//! the provider that the payload names. Reaching a provider and asking it for a key is the
//! caller's part: a [`Step`] says what to do next, and takes the answer.
use crate::error::{Error, ErrorView};
use crate::provider::ProviderType;
use crate::text::concat5;
use vstd::prelude::*;

verus! {

/// The providers that a build offers.
#[derive(Debug, Clone, Copy)]
pub struct Features {
    pub tpm2: bool,
    pub pkcs11: bool,
    pub external_secret: bool,
    pub software: bool,
    pub ephemeral: bool,
}

impl Default for Features {
    /// The three providers that need no device.
    fn default() -> (features: Features)
        ensures
            features == (Features {
                tpm2: false,
                pkcs11: false,
                external_secret: true,
                software: true,
                ephemeral: true,
            }),
    {
        Features {
            tpm2: false,
            pkcs11: false,
            external_secret: true,
            software: true,
            ephemeral: true,
        }
    }
}

impl Features {
    /// Whether a provider is among those offered.
    pub open spec fn offers(self, t: ProviderType) -> bool {
        match t {
            ProviderType::Tpm2 => self.tpm2,
            ProviderType::Pkcs11 => self.pkcs11,
            ProviderType::ExternalSecret => self.external_secret,
            ProviderType::Software => self.software,
            ProviderType::Ephemeral => self.ephemeral,
        }
    }

    /// The provider alone, where it is offered.
    pub open spec fn only(self, t: ProviderType) -> Seq<ProviderType> {
        if self.offers(t) {
            seq![t]
        } else {
            seq![]
        }
    }

    /// The providers that are offered, strongest first.
    pub open spec fn chain(self) -> Seq<ProviderType> {
        self.only(ProviderType::Tpm2) + self.only(ProviderType::Pkcs11) + self.only(
            ProviderType::ExternalSecret,
        ) + self.only(ProviderType::Software) + self.only(ProviderType::Ephemeral)
    }
}

/// The providers that a build offers, strongest first.
pub fn all_providers(features: &Features) -> (chain: Vec<ProviderType>)
    ensures
        chain@ == features.chain(),
{
    let mut chain: Vec<ProviderType> = Vec::new();
    if features.tpm2 {
        chain.push(ProviderType::Tpm2);
    }
    if features.pkcs11 {
        chain.push(ProviderType::Pkcs11);
    }
    if features.external_secret {
        chain.push(ProviderType::ExternalSecret);
    }
    if features.software {
        chain.push(ProviderType::Software);
    }
    if features.ephemeral {
        chain.push(ProviderType::Ephemeral);
    }
    assert(chain@ =~= features.chain());
    chain
}

/// The chain holds what is offered and nothing else, each provider once and every provider
/// before the weaker ones.
pub proof fn chain_is_in_priority_order(features: Features)
    ensures
        forall|t: ProviderType| features.chain().contains(t) <==> features.offers(t),
        forall|i: int, j: int|
            0 <= i < j < features.chain().len() ==> features.chain()[i].tag()
                < features.chain()[j].tag(),
{
    let chain = features.chain();
    assert forall|t: ProviderType| features.offers(t) implies chain.contains(t) by {
        let a = features.only(ProviderType::Tpm2);
        let b = a + features.only(ProviderType::Pkcs11);
        let c = b + features.only(ProviderType::ExternalSecret);
        let d = c + features.only(ProviderType::Software);
        match t {
            ProviderType::Tpm2 => assert(chain[0] == t),
            ProviderType::Pkcs11 => assert(chain[a.len() as int] == t),
            ProviderType::ExternalSecret => assert(chain[b.len() as int] == t),
            ProviderType::Software => assert(chain[c.len() as int] == t),
            ProviderType::Ephemeral => assert(chain[d.len() as int] == t),
        }
    }
}

/// The provider that was chosen: the one settled on earlier, or the one at a place of the chain.
#[derive(Debug, Clone, Copy, PartialEq, Eq, Structural)]
pub enum Choice {
    Cached,
    Listed(usize),
}

/// What to do next for a selection.
pub enum Step<H> {
    /// Ask the provider settled on earlier for a key.
    AskCached(CachedQuery),
    /// Find out whether a provider of the chain is reachable.
    Probe(ProbeQuery),
    /// Ask a provider of the chain for a key.
    Ask(KeyQuery),
    /// Use this provider and this key.
    Chosen(Choice, H),
    /// No provider gave a key.
    Exhausted(Error),
}

/// The provider settled on earlier is to be asked for a key.
pub struct CachedQuery {
    chain: Vec<ProviderType>,
}

/// A provider of the chain is to be probed.
pub struct ProbeQuery {
    chain: Vec<ProviderType>,
    index: usize,
    last_error: Error,
}

/// A provider of the chain is to be asked for a key.
pub struct KeyQuery {
    chain: Vec<ProviderType>,
    index: usize,
    last_error: Error,
}

/// A [`Step`] by its contents: the chain, the place in it and the error of the last provider
/// that was asked in vain.
pub enum StepView<H> {
    AskCached(Seq<ProviderType>),
    Probe(Seq<ProviderType>, int, ErrorView),
    Ask(Seq<ProviderType>, int, ErrorView),
    Chosen(Choice, H),
    Exhausted(ErrorView),
}

impl<H> View for Step<H> {
    type V = StepView<H>;

    open spec fn view(&self) -> StepView<H> {
        match self {
            Step::AskCached(query) => StepView::AskCached(query.chain()),
            Step::Probe(query) => StepView::Probe(query.chain(), query.place(), query.error()),
            Step::Ask(query) => StepView::Ask(query.chain(), query.place(), query.error()),
            Step::Chosen(choice, handle) => StepView::Chosen(*choice, *handle),
            Step::Exhausted(error) => StepView::Exhausted(error@),
        }
    }
}

/// The provider at a place of the chain comes next; past the end the selection has failed.
pub open spec fn at_place<H>(chain: Seq<ProviderType>, i: int, last_error: ErrorView) -> StepView<
    H,
> {
    if i < chain.len() {
        StepView::Probe(chain, i, last_error)
    } else {
        StepView::Exhausted(last_error)
    }
}

/// The first step of a selection.
pub open spec fn first_step<H>(chain: Seq<ProviderType>, cached: bool) -> StepView<H> {
    if cached {
        StepView::AskCached(chain)
    } else {
        at_place(chain, 0, ErrorView::NoProviderAvailable)
    }
}

/// The step after the provider settled on earlier answered.
pub open spec fn after_cached<H>(
    chain: Seq<ProviderType>,
    answer: Result<H, ErrorView>,
) -> StepView<H> {
    match answer {
        Ok(handle) => StepView::Chosen(Choice::Cached, handle),
        Err(_) => at_place(chain, 0, ErrorView::NoProviderAvailable),
    }
}

/// The step after a provider of the chain was probed.
pub open spec fn after_probe<H>(
    chain: Seq<ProviderType>,
    i: int,
    last_error: ErrorView,
    reachable: bool,
) -> StepView<H> {
    if reachable {
        StepView::Ask(chain, i, last_error)
    } else {
        at_place(chain, i + 1, last_error)
    }
}

/// The step after a provider of the chain was asked for a key.
pub open spec fn after_ask<H>(
    chain: Seq<ProviderType>,
    i: int,
    answer: Result<H, ErrorView>,
) -> StepView<H> {
    match answer {
        Ok(handle) => StepView::Chosen(Choice::Listed(i as usize), handle),
        Err(error) => at_place(chain, i + 1, error),
    }
}

/// An answer with its error taken by its view.
pub open spec fn answer_view<H>(answer: Result<H, Error>) -> Result<H, ErrorView> {
    match answer {
        Ok(handle) => Ok(handle),
        Err(error) => Err(error@),
    }
}

/// Goes on with the provider at a place of the chain.
fn step_at<H>(chain: Vec<ProviderType>, index: usize, last_error: Error) -> (step: Step<H>)
    ensures
        step@ == at_place::<H>(chain@, index as int, last_error@),
{
    if index < chain.len() {
        Step::Probe(ProbeQuery { chain, index, last_error })
    } else {
        Step::Exhausted(last_error)
    }
}

/// Starts to select a provider for wrapping. `cached` says whether a provider was settled on
/// earlier.
pub fn select_for_wrap<H>(chain: Vec<ProviderType>, cached: bool) -> (step: Step<H>)
    ensures
        step@ == first_step::<H>(chain@, cached),
{
    if cached {
        Step::AskCached(CachedQuery { chain })
    } else {
        step_at(chain, 0, Error::NoProviderAvailable)
    }
}

impl CachedQuery {
    /// The chain that is walked if the answer is no key.
    pub closed spec fn chain(&self) -> Seq<ProviderType> {
        self.chain@
    }

    /// Goes on with what the provider settled on earlier answered. Without a key from it, the
    /// whole chain is walked for this one selection.
    pub fn answered<H>(self, answer: Result<H, Error>) -> (step: Step<H>)
        ensures
            step@ == after_cached(self.chain(), answer_view(answer)),
    {
        match answer {
            Ok(handle) => Step::Chosen(Choice::Cached, handle),
            Err(_) => step_at(self.chain, 0, Error::NoProviderAvailable),
        }
    }
}

impl ProbeQuery {
    #[verifier::type_invariant]
    closed spec fn valid(self) -> bool {
        self.index < self.chain@.len()
    }

    /// The chain that is walked.
    pub closed spec fn chain(&self) -> Seq<ProviderType> {
        self.chain@
    }

    /// The place in the chain.
    pub closed spec fn place(&self) -> int {
        self.index as int
    }

    /// The error of the last provider that was asked in vain.
    pub closed spec fn error(&self) -> ErrorView {
        self.last_error@
    }

    /// The place in the chain of the provider to probe.
    pub fn index(&self) -> (index: usize)
        ensures
            index as int == self.place(),
            index < self.chain().len(),
    {
        proof {
            use_type_invariant(self);
        }
        self.index
    }

    /// Goes on with whether the provider is reachable.
    pub fn answered<H>(self, reachable: bool) -> (step: Step<H>)
        ensures
            step@ == after_probe::<H>(self.chain(), self.place(), self.error(), reachable),
    {
        proof {
            use_type_invariant(&self);
            assert(self.index < self.chain.len());
        }
        if reachable {
            let ProbeQuery { chain, index, last_error } = self;
            Step::Ask(KeyQuery { chain, index, last_error })
        } else {
            step_at(self.chain, self.index + 1, self.last_error)
        }
    }
}

impl KeyQuery {
    #[verifier::type_invariant]
    closed spec fn valid(self) -> bool {
        self.index < self.chain@.len()
    }

    /// The chain that is walked.
    pub closed spec fn chain(&self) -> Seq<ProviderType> {
        self.chain@
    }

    /// The place in the chain.
    pub closed spec fn place(&self) -> int {
        self.index as int
    }

    /// The error of the last provider that was asked in vain.
    pub closed spec fn error(&self) -> ErrorView {
        self.last_error@
    }

    /// The place in the chain of the provider to ask.
    pub fn index(&self) -> (index: usize)
        ensures
            index as int == self.place(),
            index < self.chain().len(),
    {
        proof {
            use_type_invariant(self);
        }
        self.index
    }

    /// Goes on with the provider's answer.
    pub fn answered<H>(self, answer: Result<H, Error>) -> (step: Step<H>)
        ensures
            step@ == after_ask(self.chain(), self.place(), answer_view(answer)),
    {
        proof {
            use_type_invariant(&self);
            assert(self.index < self.chain.len());
        }
        match answer {
            Ok(handle) => Step::Chosen(Choice::Listed(self.index), handle),
            Err(error) => step_at(self.chain, self.index + 1, error),
        }
    }
}

/// What the providers answer when they are asked.
#[verifier::reject_recursive_types(H)]
pub struct World<H> {
    /// What the provider settled on earlier answers.
    pub cached_answer: Result<H, ErrorView>,
    /// Which providers of the chain are reachable.
    pub reachable: spec_fn(int) -> bool,
    /// What the providers of the chain answer.
    pub answers: spec_fn(int) -> Result<H, ErrorView>,
}

impl<H> World<H> {
    /// Whether the provider at a place of the chain is reachable and gives a key.
    pub open spec fn usable(self, i: int) -> bool {
        (self.reachable)(i) && (self.answers)(i) is Ok
    }

    /// Whether no place before `end` is usable.
    pub open spec fn none_usable_before(self, end: int) -> bool {
        forall|j: int| 0 <= j < end ==> !self.usable(j)
    }

    /// Whether a walk of the chain ends as it should: at the first usable place, or, where there
    /// is none, with the error of the last provider that was asked.
    pub open spec fn ends_well(self, chain: Seq<ProviderType>, end: StepView<H>) -> bool {
        &&& forall|k: int|
            0 <= k < chain.len() && #[trigger] self.usable(k) && self.none_usable_before(k) ==> end
                == StepView::Chosen(Choice::Listed(k as usize), (self.answers)(k)->Ok_0)
        &&& self.none_usable_before(chain.len() as int) ==> end == StepView::<H>::Exhausted(
            last_failure(self, chain.len() as int),
        )
    }

    /// Whether only reachable providers are asked, and none after one that is usable.
    pub open spec fn asks_in_need(self, chain: Seq<ProviderType>, trace: Seq<int>) -> bool {
        forall|n: int|
            0 <= n < trace.len() ==> 0 <= #[trigger] trace[n] < chain.len() && (self.reachable)(
                trace[n],
            ) && self.none_usable_before(trace[n])
    }
}

/// How many more answers a step can take.
pub open spec fn steps_left<H>(step: StepView<H>) -> nat {
    match step {
        StepView::AskCached(chain) => 2 * chain.len() + 2,
        StepView::Probe(chain, i, _) => if i < chain.len() {
            (2 * (chain.len() - i) + 1) as nat
        } else {
            2
        },
        StepView::Ask(chain, i, _) => if i < chain.len() {
            (2 * (chain.len() - i)) as nat
        } else {
            1
        },
        StepView::Chosen(_, _) => 0,
        StepView::Exhausted(_) => 0,
    }
}

/// The step after one answer out of a world.
pub open spec fn next_step<H>(step: StepView<H>, world: World<H>) -> StepView<H> {
    match step {
        StepView::AskCached(chain) => after_cached(chain, world.cached_answer),
        StepView::Probe(chain, i, error) => after_probe(chain, i, error, (world.reachable)(i)),
        StepView::Ask(chain, i, _) => after_ask(chain, i, (world.answers)(i)),
        _ => step,
    }
}

/// The last step of a selection in a world.
pub open spec fn run<H>(step: StepView<H>, world: World<H>) -> StepView<H>
    decreases steps_left(step),
{
    if step is Chosen || step is Exhausted {
        step
    } else {
        run(next_step(step, world), world)
    }
}

/// The places of the chain whose providers are asked for a key, in the order of asking.
pub open spec fn asked<H>(step: StepView<H>, world: World<H>) -> Seq<int>
    decreases steps_left(step),
{
    if step is Chosen || step is Exhausted {
        seq![]
    } else if let StepView::Ask(_, i, _) = step {
        seq![i] + asked(next_step(step, world), world)
    } else {
        asked(next_step(step, world), world)
    }
}

/// The error of the last reachable provider of the chain before place `end`; without one, the
/// error that no provider is available.
pub open spec fn last_failure<H>(world: World<H>, end: int) -> ErrorView
    decreases end,
{
    if end <= 0 {
        ErrorView::NoProviderAvailable
    } else if (world.reachable)(end - 1) && (world.answers)(end - 1) is Err {
        (world.answers)(end - 1)->Err_0
    } else {
        last_failure(world, end - 1)
    }
}

/// Walking the chain from a place before which no provider is usable.
proof fn walk_from<H>(chain: Seq<ProviderType>, world: World<H>, i: int)
    requires
        0 <= i <= chain.len() <= usize::MAX,
        world.none_usable_before(i),
    ensures
        ({
            let step = at_place::<H>(chain, i, last_failure(world, i));
            &&& world.ends_well(chain, run(step, world))
            &&& world.asks_in_need(chain, asked(step, world))
        }),
    decreases chain.len() - i,
{
    let step = at_place::<H>(chain, i, last_failure(world, i));
    if i < chain.len() {
        let probed = next_step(step, world);
        assert(run(step, world) == run(probed, world));
        assert(asked(step, world) == asked(probed, world));
        if (world.reachable)(i) {
            let answered = next_step(probed, world);
            assert(run(probed, world) == run(answered, world));
            assert(asked(probed, world) == seq![i] + asked(answered, world));
            if world.usable(i) {
                assert(run(answered, world) == answered);
                assert(asked(answered, world) =~= seq![]);
            } else {
                walk_from(chain, world, i + 1);
            }
        } else {
            walk_from(chain, world, i + 1);
        }
    }
}

/// A selection that no settled provider answers with a key takes the first provider of the chain
/// that is reachable and gives a key, and it asks none after that one. Where there is none, it
/// reports the error of the last provider that was asked.
pub proof fn discovery_takes_first_usable<H>(
    chain: Seq<ProviderType>,
    cached: bool,
    world: World<H>,
)
    requires
        chain.len() <= usize::MAX,
        cached ==> world.cached_answer is Err,
    ensures
        world.ends_well(chain, run(first_step::<H>(chain, cached), world)),
        world.asks_in_need(chain, asked(first_step::<H>(chain, cached), world)),
{
    walk_from(chain, world, 0);
    let start = first_step::<H>(chain, cached);
    if cached {
        let next = next_step(start, world);
        assert(run(start, world) == run(next, world));
        assert(asked(start, world) == asked(next, world));
    }
}

/// The provider settled on earlier is taken whenever it gives a key, and then no provider of the
/// chain is asked.
pub proof fn settled_provider_comes_first<H>(chain: Seq<ProviderType>, world: World<H>)
    requires
        world.cached_answer is Ok,
    ensures
        run(first_step::<H>(chain, true), world) == StepView::Chosen(
            Choice::Cached,
            world.cached_answer->Ok_0,
        ),
        asked(first_step::<H>(chain, true), world).len() == 0,
{
    let start = first_step::<H>(chain, true);
    let next = next_step(start, world);
    assert(run(start, world) == run(next, world));
    assert(run(next, world) == next);
    assert(asked(start, world) == asked(next, world));
}

/// A chain whose last provider is always reachable and always gives a key never comes up empty.
pub proof fn fallback_ends_every_selection<H>(
    chain: Seq<ProviderType>,
    cached: bool,
    world: World<H>,
)
    requires
        0 < chain.len() <= usize::MAX,
        world.usable(chain.len() - 1),
    ensures
        run(first_step::<H>(chain, cached), world) is Chosen,
{
    if cached && world.cached_answer is Ok {
        settled_provider_comes_first(chain, world);
    } else {
        discovery_takes_first_usable(chain, cached, world);
        let k = first_usable(world, chain.len() - 1);
        assert(world.usable(k));
    }
}

/// There is a first usable place at or before a usable one.
proof fn first_usable<H>(world: World<H>, i: int) -> (k: int)
    requires
        0 <= i,
        world.usable(i),
    ensures
        0 <= k <= i,
        world.usable(k),
        world.none_usable_before(k),
    decreases i,
{
    if exists|j: int| 0 <= j < i && world.usable(j) {
        let j = choose|j: int| 0 <= j < i && world.usable(j);
        first_usable(world, j)
    } else {
        i
    }
}

/// The provider settled on for the life of the process, and whether the warning about the
/// memory-only fallback has been given.
pub struct SelectionCache<P> {
    selected: Option<(ProviderType, P)>,
    warned: bool,
}

impl<P> SelectionCache<P> {
    #[verifier::type_invariant]
    closed spec fn valid(self) -> bool {
        self.selected matches Some(pair) ==> pair.0 != ProviderType::Ephemeral
    }

    /// The provider settled on.
    pub closed spec fn settled(&self) -> Option<(ProviderType, P)> {
        self.selected
    }

    /// Whether the warning has been given.
    pub closed spec fn has_warned(&self) -> bool {
        self.warned
    }

    /// Nothing is settled yet.
    pub fn new() -> (cache: Self)
        ensures
            cache.settled() is None,
            !cache.has_warned(),
    {
        SelectionCache { selected: None, warned: false }
    }

    /// The provider settled on; never the memory-only one.
    pub fn selected(&self) -> (r: Option<&P>)
        ensures
            match self.settled() {
                Some(pair) => r == Some(&pair.1) && pair.0 != ProviderType::Ephemeral,
                None => r is None,
            },
    {
        proof {
            use_type_invariant(self);
        }
        match &self.selected {
            Some(pair) => Some(&pair.1),
            None => None,
        }
    }

    /// The type of the provider settled on.
    pub fn selected_type(&self) -> (r: Option<ProviderType>)
        ensures
            r == match self.settled() {
                Some(pair) => Some(pair.0),
                None => None,
            },
            r != Some(ProviderType::Ephemeral),
    {
        proof {
            use_type_invariant(self);
        }
        match &self.selected {
            Some(pair) => Some(pair.0),
            None => None,
        }
    }

    /// Records that a walk of the chain ended at `provider`, and says whether to warn that only
    /// the memory-only fallback was available.
    ///
    /// The first persistent provider is settled on and never replaced. The fallback is not
    /// settled on, so that a stronger provider that appears later is found; the warning is given
    /// once.
    pub fn record(&mut self, provider_type: ProviderType, provider: P) -> (warn: bool)
        ensures
            final(self).settled() == if old(self).settled() is Some || provider_type
                == ProviderType::Ephemeral {
                old(self).settled()
            } else {
                Some((provider_type, provider))
            },
            final(self).has_warned() == (old(self).has_warned() || provider_type
                == ProviderType::Ephemeral),
            warn == (provider_type == ProviderType::Ephemeral && !old(self).has_warned()),
    {
        proof {
            use_type_invariant(&*self);
        }
        if provider_type == ProviderType::Ephemeral {
            let warn = !self.warned;
            self.warned = true;
            warn
        } else {
            if self.selected.is_none() {
                self.selected = Some((provider_type, provider));
            }
            false
        }
    }
}

/// The place of the first `wanted` in a chain at or after place `i`.
pub open spec fn place_of(chain: Seq<ProviderType>, wanted: ProviderType, i: int) -> Option<int>
    decreases chain.len() - i,
{
    if i >= chain.len() {
        None
    } else if chain[i] == wanted {
        Some(i)
    } else {
        place_of(chain, wanted, i + 1)
    }
}

/// Finds the provider that a payload names: the one settled on where it is of that type, else
/// the one of that type in the chain.
pub fn get_by_type(
    provider_type: ProviderType,
    cached: Option<ProviderType>,
    chain: &Vec<ProviderType>,
) -> (r: Result<Choice, Error>)
    ensures
        match r {
            Ok(Choice::Cached) => cached == Some(provider_type),
            Ok(Choice::Listed(i)) => cached != Some(provider_type) && place_of(
                chain@,
                provider_type,
                0,
            ) == Some(i as int),
            Err(error) => {
                &&& cached != Some(provider_type)
                &&& place_of(chain@, provider_type, 0) is None
                &&& error@ == ErrorView::NoProviderAvailable
            },
        },
{
    if let Some(t) = cached {
        if t == provider_type {
            return Ok(Choice::Cached);
        }
    }
    let mut i: usize = 0;
    while i < chain.len()
        invariant
            i <= chain@.len(),
            cached != Some(provider_type),
            place_of(chain@, provider_type, 0) == place_of(chain@, provider_type, i as int),
        decreases chain@.len() - i,
    {
        if chain[i] == provider_type {
            return Ok(Choice::Listed(i));
        }
        i += 1;
    }
    Err(Error::NoProviderAvailable)
}

/// Every provider that a build offers is found by its type, whatever was settled on, and it is
/// the provider of that type that is found.
pub proof fn offered_providers_are_found(features: Features, t: ProviderType)
    ensures
        features.offers(t) <==> place_of(features.chain(), t, 0) is Some,
        place_of(features.chain(), t, 0) matches Some(i) ==> 0 <= i < features.chain().len()
            && features.chain()[i] == t,
{
    chain_is_in_priority_order(features);
    place_is_found(features.chain(), t, 0);
}

/// A provider is found in the rest of a chain exactly where it occurs there.
proof fn place_is_found(chain: Seq<ProviderType>, t: ProviderType, i: int)
    requires
        0 <= i <= chain.len(),
    ensures
        place_of(chain, t, i) matches Some(k) ==> i <= k < chain.len() && chain[k] == t,
        place_of(chain, t, i) is None ==> forall|k: int| i <= k < chain.len() ==> chain[k] != t,
    decreases chain.len() - i,
{
    if i < chain.len() && chain[i] != t {
        place_is_found(chain, t, i + 1);
    }
}

/// What is known of the provider that a selection would currently prefer.
#[derive(Debug, Clone, Copy, PartialEq, Eq, Structural)]
pub enum Preference {
    /// It is this one, or there is none.
    Known(Option<ProviderType>),
    /// It depends on whether the provider at this place of the chain is reachable.
    Probe(usize),
}

/// The preferred provider, as far as the answers to the first probes tell.
pub open spec fn preference(
    cached: Option<ProviderType>,
    chain: Seq<ProviderType>,
    probed: Seq<bool>,
    i: int,
) -> Preference
    decreases chain.len() - i,
{
    if cached is Some {
        Preference::Known(cached)
    } else if i >= chain.len() {
        Preference::Known(None)
    } else if i >= probed.len() {
        Preference::Probe(i as usize)
    } else if probed[i] {
        Preference::Known(Some(chain[i]))
    } else {
        preference(cached, chain, probed, i + 1)
    }
}

/// Reports the provider that a selection would currently prefer: the one settled on, else the
/// first of the chain that is reachable. `probed` holds the answers to the probes so far, in the
/// order of the chain.
pub fn current_best_provider_type(
    cached: Option<ProviderType>,
    chain: &Vec<ProviderType>,
    probed: &Vec<bool>,
) -> (r: Preference)
    ensures
        r == preference(cached, chain@, probed@, 0),
{
    if cached.is_some() {
        return Preference::Known(cached);
    }
    let mut i: usize = 0;
    while i < chain.len()
        invariant
            i <= chain@.len(),
            cached is None,
            preference(cached, chain@, probed@, 0) == preference(cached, chain@, probed@, i as int),
        decreases chain@.len() - i,
    {
        if i >= probed.len() {
            return Preference::Probe(i);
        }
        if probed[i] {
            return Preference::Known(Some(chain[i]));
        }
        i += 1;
    }
    Preference::Known(None)
}

/// The hint that a key was wrapped by another provider than the one preferred now.
pub fn migration_hint(best: Option<ProviderType>, wrapped_with: ProviderType) -> (hint: Option<
    String,
>)
    ensures
        hint is Some <==> best is Some && best != Some(wrapped_with),
        hint matches Some(text) ==> text@
            == "hkdfguard: migration event - DEK was wrapped with "@ + wrapped_with.name()
            + " but "@ + best->0.name()
            + " is now the preferred provider; consider re-wrapping"@,
{
    match best {
        Some(best) => if best != wrapped_with {
            Some(
                concat5(
                    "hkdfguard: migration event - DEK was wrapped with ",
                    wrapped_with.as_str(),
                    " but ",
                    best.as_str(),
                    " is now the preferred provider; consider re-wrapping",
                ),
            )
        } else {
            None
        },
        None => None,
    }
}

} // verus!
