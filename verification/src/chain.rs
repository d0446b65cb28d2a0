//! The battery source chain: sources are tried in a fixed order of priority,
//! a failure of one source lets the next one try, and a battery that is found
//! charging ends the search at once.

use crate::error::{BatteryError, BatteryErrorView};
use crate::model::{BatteryInfo, BatteryInfoView};
use vstd::prelude::*;

verus! {

/// The systems whose battery can be read.
#[derive(Clone, Copy, Debug, PartialEq, Eq, Structural)]
pub enum Platform {
    FreeBsd,
    Linux,
    /// Any other system: it has no battery source at all.
    Unsupported,
}

/// The places a battery reading can come from.
#[derive(Clone, Copy, Debug, PartialEq, Eq, Structural)]
pub enum BatterySource {
    /// The `acpiconf` tool.
    Acpiconf,
    /// The `hw.acpi.battery` kernel state.
    Sysctl,
    /// The `upower` tool.
    Upower,
    /// The `power_supply` class of the sysfs file system.
    Sysfs,
}

impl BatterySource {
    /// The identifier that a reading from this source carries.
    pub open spec fn tag(self) -> Seq<char> {
        match self {
            BatterySource::Acpiconf => "acpiconf"@,
            BatterySource::Sysctl => "sysctl"@,
            BatterySource::Upower => "upower"@,
            BatterySource::Sysfs => "sysfs"@,
        }
    }

    /// Returns the identifier that a reading from this source carries.
    pub fn name(&self) -> (s: &'static str)
        ensures
            s@ == self.tag(),
    {
        match self {
            BatterySource::Acpiconf => "acpiconf",
            BatterySource::Sysctl => "sysctl",
            BatterySource::Upower => "upower",
            BatterySource::Sysfs => "sysfs",
        }
    }
}

/// The battery sources of a platform, the one to try first in front.
pub open spec fn source_order(platform: Platform) -> Seq<BatterySource> {
    match platform {
        Platform::FreeBsd => seq![BatterySource::Acpiconf, BatterySource::Sysctl],
        Platform::Linux => seq![BatterySource::Upower, BatterySource::Sysfs],
        Platform::Unsupported => seq![],
    }
}

/// Returns the battery sources of a platform in the order they are tried.
pub fn battery_sources(platform: Platform) -> (sources: Vec<BatterySource>)
    ensures
        sources@ == source_order(platform),
{
    let mut sources: Vec<BatterySource> = Vec::new();
    match platform {
        Platform::FreeBsd => {
            sources.push(BatterySource::Acpiconf);
            sources.push(BatterySource::Sysctl);
        },
        Platform::Linux => {
            sources.push(BatterySource::Upower);
            sources.push(BatterySource::Sysfs);
        },
        Platform::Unsupported => {},
    }
    assert(sources@ =~= source_order(platform));
    sources
}

/// What one source reports.
#[derive(Debug)]
pub enum SourceOutcome {
    /// A complete reading.
    Success(BatteryInfo),
    /// No reading, for a reason that leaves the next source free to try.
    SoftFail,
    /// A condition that ends the search with this error.
    HardStop(BatteryError),
}

/// The mathematical content of a `SourceOutcome`.
pub ghost enum SourceOutcomeView {
    Success(BatteryInfoView),
    SoftFail,
    HardStop(BatteryErrorView),
}

impl View for SourceOutcome {
    type V = SourceOutcomeView;

    open spec fn view(&self) -> SourceOutcomeView {
        match *self {
            SourceOutcome::Success(info) => SourceOutcomeView::Success(info@),
            SourceOutcome::SoftFail => SourceOutcomeView::SoftFail,
            SourceOutcome::HardStop(e) => SourceOutcomeView::HardStop(e@),
        }
    }
}

/// The mathematical content of the result of a battery acquisition.
pub open spec fn result_view(r: Result<BatteryInfo, BatteryError>) -> Result<
    BatteryInfoView,
    BatteryErrorView,
> {
    match r {
        Ok(info) => Ok(info@),
        Err(e) => Err(e@),
    }
}

/// The views of a sequence of outcomes.
pub open spec fn outcome_views(outcomes: Seq<SourceOutcome>) -> Seq<SourceOutcomeView> {
    outcomes.map_values(|o: SourceOutcome| o@)
}

/// How the result of one source counts in the chain: a reading is a success,
/// a charging battery stops the search, and every other error is a soft
/// failure whose cause is dropped.
pub open spec fn outcome_of(r: Result<BatteryInfoView, BatteryErrorView>) -> SourceOutcomeView {
    match r {
        Ok(info) => SourceOutcomeView::Success(info),
        Err(BatteryErrorView::Charging) => SourceOutcomeView::HardStop(BatteryErrorView::Charging),
        Err(_) => SourceOutcomeView::SoftFail,
    }
}

/// Says how the result of one source counts in the chain.
pub fn classify(r: Result<BatteryInfo, BatteryError>) -> (outcome: SourceOutcome)
    ensures
        outcome@ == outcome_of(result_view(r)),
{
    match r {
        Ok(info) => SourceOutcome::Success(info),
        Err(BatteryError::Charging) => SourceOutcome::HardStop(BatteryError::Charging),
        Err(_) => SourceOutcome::SoftFail,
    }
}

/// What a chain of outcomes amounts to, where `otherwise` stands for a chain
/// of soft failures only: the first outcome that is no soft failure decides.
pub open spec fn resolve_or(
    outcomes: Seq<SourceOutcomeView>,
    otherwise: Result<BatteryInfoView, BatteryErrorView>,
) -> Result<BatteryInfoView, BatteryErrorView>
    decreases outcomes.len(),
{
    if outcomes.len() == 0 {
        otherwise
    } else {
        match outcomes[0] {
            SourceOutcomeView::Success(info) => Ok(info),
            SourceOutcomeView::HardStop(e) => Err(e),
            SourceOutcomeView::SoftFail => resolve_or(outcomes.drop_first(), otherwise),
        }
    }
}

/// What a chain of outcomes amounts to: the first success or hard stop, and
/// `NotFound` if every source failed softly.
pub open spec fn resolve(outcomes: Seq<SourceOutcomeView>) -> Result<
    BatteryInfoView,
    BatteryErrorView,
> {
    resolve_or(outcomes, Err(BatteryErrorView::NotFound))
}

/// What the last outcome of a chain contributes when all before it failed
/// softly.
pub open spec fn settle(
    last: SourceOutcomeView,
    otherwise: Result<BatteryInfoView, BatteryErrorView>,
) -> Result<BatteryInfoView, BatteryErrorView> {
    match last {
        SourceOutcomeView::Success(info) => Ok(info),
        SourceOutcomeView::HardStop(e) => Err(e),
        SourceOutcomeView::SoftFail => otherwise,
    }
}

/// A chain can be resolved from its end: the last outcome only matters if all
/// before it failed softly.
pub proof fn lemma_resolve_from_end(
    outcomes: Seq<SourceOutcomeView>,
    last: SourceOutcomeView,
    otherwise: Result<BatteryInfoView, BatteryErrorView>,
)
    ensures
        resolve_or(outcomes.push(last), otherwise) == resolve_or(outcomes, settle(last, otherwise)),
    decreases outcomes.len(),
{
    let all = outcomes.push(last);
    if outcomes.len() == 0 {
        assert(all.drop_first() == outcomes);
    } else {
        assert(all[0] == outcomes[0]);
        assert(all.drop_first() == outcomes.drop_first().push(last));
        lemma_resolve_from_end(outcomes.drop_first(), last, otherwise);
    }
}

/// Resolves a chain of which every source has reported.
pub fn resolve_chain(outcomes: Vec<SourceOutcome>) -> (r: Result<BatteryInfo, BatteryError>)
    ensures
        result_view(r) == resolve(outcome_views(outcomes@)),
{
    let mut rest = outcomes;
    let mut settled: Result<BatteryInfo, BatteryError> = Err(BatteryError::NotFound);
    while rest.len() > 0
        invariant
            resolve_or(outcome_views(rest@), result_view(settled)) == resolve(
                outcome_views(outcomes@),
            ),
        decreases rest.len(),
    {
        let ghost before = outcome_views(rest@);
        let ghost otherwise = result_view(settled);
        let last = rest.pop().unwrap();
        proof {
            assert(before == outcome_views(rest@).push(last@));
            lemma_resolve_from_end(outcome_views(rest@), last@, otherwise);
        }
        settled =
        match last {
            SourceOutcome::Success(info) => Ok(info),
            SourceOutcome::HardStop(e) => Err(e),
            SourceOutcome::SoftFail => settled,
        };
    }
    assert(outcome_views(rest@) == Seq::<SourceOutcomeView>::empty());
    settled
}

/// What to do next while a chain is being worked through.
#[derive(Debug)]
pub enum ChainStep {
    /// Ask this source.
    Probe(BatterySource),
    /// The search is over, with this result.
    Done(Result<BatteryInfo, BatteryError>),
}

/// The mathematical content of a `ChainStep`.
pub ghost enum ChainStepView {
    Probe(BatterySource),
    Done(Result<BatteryInfoView, BatteryErrorView>),
}

impl View for ChainStep {
    type V = ChainStepView;

    open spec fn view(&self) -> ChainStepView {
        match *self {
            ChainStep::Probe(source) => ChainStepView::Probe(source),
            ChainStep::Done(r) => ChainStepView::Done(result_view(r)),
        }
    }
}

/// The step that follows once `tried` sources have been asked and the last of
/// them reported `outcome`.
pub open spec fn step_after(platform: Platform, tried: nat, outcome: SourceOutcomeView) -> ChainStepView {
    match outcome {
        SourceOutcomeView::Success(info) => ChainStepView::Done(Ok(info)),
        SourceOutcomeView::HardStop(e) => ChainStepView::Done(Err(e)),
        SourceOutcomeView::SoftFail => if tried < source_order(platform).len() {
            ChainStepView::Probe(source_order(platform)[tried as int])
        } else {
            ChainStepView::Done(Err(BatteryErrorView::NotFound))
        },
    }
}

/// The first step of a chain.
pub open spec fn first_step(platform: Platform) -> ChainStepView {
    step_after(platform, 0, SourceOutcomeView::SoftFail)
}

/// Starts the chain of a platform: names the first source to ask, or ends
/// the search at once where the platform has none.
pub fn begin_chain(platform: Platform) -> (step: ChainStep)
    ensures
        step@ == first_step(platform),
{
    continue_chain(platform, 0, SourceOutcome::SoftFail)
}

/// Continues a chain after the source number `tried`, counted from one, has
/// reported `outcome`.
pub fn continue_chain(platform: Platform, tried: usize, outcome: SourceOutcome) -> (step: ChainStep)
    ensures
        step@ == step_after(platform, tried as nat, outcome@),
{
    match outcome {
        SourceOutcome::Success(info) => ChainStep::Done(Ok(info)),
        SourceOutcome::HardStop(e) => ChainStep::Done(Err(e)),
        SourceOutcome::SoftFail => {
            let sources = battery_sources(platform);
            if tried < sources.len() {
                ChainStep::Probe(sources[tried])
            } else {
                ChainStep::Done(Err(BatteryError::NotFound))
            }
        },
    }
}

/// A chain whose first source fails softly amounts to the chain of the
/// sources after it.
pub proof fn law_soft_failure_falls_through(rest: Seq<SourceOutcomeView>)
    ensures
        resolve(seq![SourceOutcomeView::SoftFail] + rest) == resolve(rest),
{
    let all = seq![SourceOutcomeView::SoftFail] + rest;
    assert(all.drop_first() == rest);
}

/// A chain whose first source succeeds amounts to that source's reading,
/// whatever the sources after it would have reported.
pub proof fn law_first_success_wins(info: BatteryInfoView, rest: Seq<SourceOutcomeView>)
    ensures
        resolve(seq![SourceOutcomeView::Success(info)] + rest) == Ok::<
            BatteryInfoView,
            BatteryErrorView,
        >(info),
{
}

/// A chain whose first source finds the battery charging amounts to
/// `Charging`, whatever the sources after it would have reported.
pub proof fn law_charging_stops_the_chain(
    first: Result<BatteryInfoView, BatteryErrorView>,
    rest: Seq<SourceOutcomeView>,
)
    requires
        first == Err::<BatteryInfoView, BatteryErrorView>(BatteryErrorView::Charging),
    ensures
        resolve(seq![outcome_of(first)] + rest) == Err::<BatteryInfoView, BatteryErrorView>(
            BatteryErrorView::Charging,
        ),
{
}

/// A chain of which the first source fails softly and the second succeeds
/// yields the reading of the second source, under that source's own tag.
pub proof fn law_second_source_reading(
    first: Result<BatteryInfoView, BatteryErrorView>,
    info: BatteryInfoView,
)
    requires
        first is Err,
        first != Err::<BatteryInfoView, BatteryErrorView>(BatteryErrorView::Charging),
    ensures
        resolve(seq![outcome_of(first), SourceOutcomeView::Success(info)]) == Ok::<
            BatteryInfoView,
            BatteryErrorView,
        >(info),
{
    let all = seq![outcome_of(first), SourceOutcomeView::Success(info)];
    let rest = all.drop_first();
    assert(all[0] is SoftFail);
    assert(rest[0] == SourceOutcomeView::Success(info));
    assert(resolve(rest) == Ok::<BatteryInfoView, BatteryErrorView>(info));
}

/// A chain in which every source fails softly amounts to `NotFound`.
pub proof fn law_exhausted_chain_is_not_found(outcomes: Seq<SourceOutcomeView>)
    requires
        forall|i: int| 0 <= i < outcomes.len() ==> #[trigger] outcomes[i] is SoftFail,
    ensures
        resolve(outcomes) == Err::<BatteryInfoView, BatteryErrorView>(BatteryErrorView::NotFound),
    decreases outcomes.len(),
{
    if outcomes.len() > 0 {
        assert(outcomes[0] is SoftFail);
        let rest = outcomes.drop_first();
        assert forall|i: int| 0 <= i < rest.len() implies #[trigger] rest[i] is SoftFail by {
            assert(rest[i] == outcomes[i + 1]);
        }
        law_exhausted_chain_is_not_found(rest);
    }
}

/// Working through a chain step by step ends with what the whole chain
/// amounts to: while sources fail softly the next source is asked, and the
/// step after the first outcome that is no soft failure, or after the last
/// source, is the end with the chain's result.
pub proof fn law_stepwise_chain(platform: Platform, outcomes: Seq<SourceOutcomeView>, k: int)
    requires
        outcomes.len() == source_order(platform).len(),
        0 <= k < outcomes.len(),
        forall|i: int| 0 <= i < k ==> #[trigger] outcomes[i] is SoftFail,
        !(outcomes[k] is SoftFail) || k == outcomes.len() - 1,
    ensures
        forall|i: int|
            0 <= i < k ==> #[trigger] step_after(platform, (i + 1) as nat, outcomes[i])
                == ChainStepView::Probe(source_order(platform)[i + 1]),
        step_after(platform, (k + 1) as nat, outcomes[k]) == ChainStepView::Done(resolve(outcomes)),
{
    lemma_resolve_prefix(outcomes, k);
    let rest = outcomes.skip(k);
    assert(rest[0] == outcomes[k]);
    if outcomes[k] is SoftFail {
        assert(rest.drop_first().len() == 0);
        assert(resolve(rest.drop_first()) == Err::<BatteryInfoView, BatteryErrorView>(
            BatteryErrorView::NotFound,
        ));
    }
}

/// Soft failures in front of a chain do not change what it amounts to.
pub proof fn lemma_resolve_prefix(outcomes: Seq<SourceOutcomeView>, k: int)
    requires
        0 <= k <= outcomes.len(),
        forall|i: int| 0 <= i < k ==> #[trigger] outcomes[i] is SoftFail,
    ensures
        resolve(outcomes) == resolve(outcomes.skip(k)),
    decreases k,
{
    if k == 0 {
        assert(outcomes.skip(0) == outcomes);
    } else {
        assert(outcomes[0] is SoftFail);
        let rest = outcomes.drop_first();
        assert forall|i: int| 0 <= i < k - 1 implies #[trigger] rest[i] is SoftFail by {
            assert(rest[i] == outcomes[i + 1]);
        }
        lemma_resolve_prefix(rest, k - 1);
        assert(rest.skip(k - 1) == outcomes.skip(k));
    }
}

} // verus!
