//! The sources of settings fragments, and the order in which they are
//! consulted.

pub mod aws;

use crate::settings::{Fragment, SettingsJson};
use vstd::prelude::*;

verus! {

/// A source of settings fragments.  The sources are consulted in the order in
/// which they stand here; what a later one delivers is meant to override what
/// an earlier one delivered.
#[derive(Debug, Clone, Copy, PartialEq, Eq, Structural)]
pub enum Source {
    /// A file put on the machine before it started.
    LocalFile,
    /// What the platform knows of the machine: here, its region.
    CloudIdentity,
    /// What the operator handed to the machine at launch.
    CloudUserData,
}

/// How many sources there are.
pub const SOURCES: usize = 3;

impl Source {
    /// The place of this source in the order of precedence, counted from 0.
    pub open spec fn rank(self) -> nat {
        match self {
            Source::LocalFile => 0,
            Source::CloudIdentity => 1,
            Source::CloudUserData => 2,
        }
    }

    /// The source at place `rank`.
    pub open spec fn at(rank: nat) -> Option<Source> {
        if rank == 0 {
            Some(Source::LocalFile)
        } else if rank == 1 {
            Some(Source::CloudIdentity)
        } else if rank == 2 {
            Some(Source::CloudUserData)
        } else {
            None
        }
    }

    /// The source that is consulted first.
    pub fn first() -> (source: Source)
        ensures
            source == Source::LocalFile,
    {
        Source::LocalFile
    }

    /// The place of this source in the order of precedence, counted from 0.
    pub fn order(&self) -> (place: usize)
        ensures
            place == self.rank(),
            place < SOURCES,
    {
        match self {
            Source::LocalFile => 0,
            Source::CloudIdentity => 1,
            Source::CloudUserData => 2,
        }
    }

    /// The source that is consulted after this one, if there is one.
    pub fn next(&self) -> (following: Option<Source>)
        ensures
            following == Source::at(self.rank() + 1),
    {
        match self {
            Source::LocalFile => Some(Source::CloudIdentity),
            Source::CloudIdentity => Some(Source::CloudUserData),
            Source::CloudUserData => None,
        }
    }

    /// A name for this source, for messages.
    pub fn name(&self) -> (name: &'static str)
        ensures
            name@ == match self {
                Source::LocalFile => "local file"@,
                Source::CloudIdentity => "instance identity document"@,
                Source::CloudUserData => "instance user data"@,
            },
    {
        match self {
            Source::LocalFile => "local file",
            Source::CloudIdentity => "instance identity document",
            Source::CloudUserData => "instance user data",
        }
    }
}

/// The models of `fragments`, one for one.
pub open spec fn fragment_models(fragments: Seq<SettingsJson>) -> Seq<Fragment> {
    Seq::new(fragments.len(), |i: int| fragments[i]@)
}

/// The model of what a source delivered: the model of the fragment, if there
/// is one, or the error as it is.
pub open spec fn delivery<E>(outcome: Result<Option<SettingsJson>, E>) -> Result<
    Option<Fragment>,
    E,
> {
    match outcome {
        Ok(Some(fragment)) => Ok(Some(fragment@)),
        Ok(None) => Ok(None),
        Err(e) => Err(e),
    }
}

/// The mathematical model of an [`Aggregation`].
pub struct AggregationModel {
    /// The fragments delivered so far, in the order of their sources.
    pub fragments: Seq<Fragment>,
    /// The source whose outcome is awaited.
    pub awaited: Source,
}

/// The mathematical model of a [`Progress`].
pub enum ProgressModel<E> {
    Continue(AggregationModel),
    Finished(Result<Seq<Fragment>, E>),
}

/// An aggregation as it begins: nothing delivered, the first source awaited.
pub open spec fn beginning() -> AggregationModel {
    AggregationModel { fragments: Seq::empty(), awaited: Source::LocalFile }
}

/// One step of an aggregation: what becomes of `state` when the awaited
/// source delivers `outcome`.  An error ends the aggregation at once.  A
/// source without data adds nothing, a fragment is added behind those that
/// are there, and the next source is awaited, or the list is complete.
pub open spec fn recorded<E>(
    state: AggregationModel,
    outcome: Result<Option<Fragment>, E>,
) -> ProgressModel<E> {
    match outcome {
        Err(e) => ProgressModel::Finished(Err(e)),
        Ok(found) => {
            let fragments = match found {
                Some(fragment) => state.fragments.push(fragment),
                None => state.fragments,
            };
            match Source::at(state.awaited.rank() + 1) {
                Some(awaited) => ProgressModel::Continue(AggregationModel { fragments, awaited }),
                None => ProgressModel::Finished(Ok(fragments)),
            }
        },
    }
}

/// A whole aggregation: the sources that were consulted, in the order in which
/// they were, and what it ended with.
pub struct Run<E> {
    pub consulted: Seq<Source>,
    pub result: Result<Seq<Fragment>, E>,
}

/// The rest of an aggregation from `state` on, where `deliveries` holds for
/// each source, at its rank, what it delivers when it is consulted.
pub open spec fn run_from<E>(
    state: AggregationModel,
    deliveries: Seq<Result<Option<Fragment>, E>>,
) -> Run<E>
    decreases SOURCES - state.awaited.rank(),
{
    match recorded(state, deliveries[state.awaited.rank() as int]) {
        ProgressModel::Finished(result) => Run { consulted: seq![state.awaited], result },
        ProgressModel::Continue(next) => {
            let rest = run_from(next, deliveries);
            Run { consulted: seq![state.awaited] + rest.consulted, result: rest.result }
        },
    }
}

/// The aggregation over `deliveries`, from its beginning.
pub open spec fn run<E>(deliveries: Seq<Result<Option<Fragment>, E>>) -> Run<E> {
    run_from(beginning(), deliveries)
}

/// The fragments among `deliveries`, in their order.
pub open spec fn delivered_fragments<E>(deliveries: Seq<Result<Option<Fragment>, E>>) -> Seq<
    Fragment,
>
    decreases deliveries.len(),
{
    if deliveries.len() == 0 {
        Seq::empty()
    } else {
        let before = delivered_fragments(deliveries.drop_last());
        match deliveries.last() {
            Ok(Some(fragment)) => before.push(fragment),
            _ => before,
        }
    }
}

/// The sources of rank below `count`, in the order of precedence.
pub open spec fn first_sources(count: nat) -> Seq<Source> {
    Seq::new(count, |rank: int| Source::at(rank as nat).unwrap())
}

/// Where no source fails, every source is consulted, once and in the order of
/// precedence, and the aggregation ends with the fragments that were
/// delivered, in the order of their sources.
pub proof fn lemma_order_preserved<E>(deliveries: Seq<Result<Option<Fragment>, E>>)
    requires
        deliveries.len() == SOURCES,
        forall|rank: int| 0 <= rank < SOURCES ==> deliveries[rank] is Ok,
    ensures
        run(deliveries).consulted == first_sources(SOURCES as nat),
        run(deliveries).result == Ok::<Seq<Fragment>, E>(delivered_fragments(deliveries)),
{
    reveal_with_fuel(run_from, 4);
    reveal_with_fuel(delivered_fragments, 4);
}

/// Where every source delivers a fragment, the aggregation ends with exactly
/// these fragments, the local file's first and the user data's last.
pub proof fn lemma_three_fragments<E>(a: Fragment, b: Fragment, c: Fragment)
    ensures
        run(seq![Ok::<Option<Fragment>, E>(Some(a)), Ok(Some(b)), Ok(Some(c))]).result == Ok::<
            Seq<Fragment>,
            E,
        >(seq![a, b, c]),
{
    let deliveries = seq![Ok::<Option<Fragment>, E>(Some(a)), Ok(Some(b)), Ok(Some(c))];
    reveal_with_fuel(run_from, 4);
    assert(run(deliveries).result->Ok_0 =~= seq![a, b, c]);
}

/// The first source that fails ends the aggregation: its error is the result,
/// and no source behind it is consulted.
pub proof fn lemma_first_failure_ends<E>(
    deliveries: Seq<Result<Option<Fragment>, E>>,
    failing: Source,
)
    requires
        deliveries.len() == SOURCES,
        deliveries[failing.rank() as int] is Err,
        forall|rank: int| 0 <= rank < failing.rank() ==> deliveries[rank] is Ok,
    ensures
        run(deliveries).result == Err::<Seq<Fragment>, E>(
            deliveries[failing.rank() as int]->Err_0,
        ),
        run(deliveries).consulted == first_sources(failing.rank() + 1),
        forall|i: int|
            0 <= i < run(deliveries).consulted.len() ==> (#[trigger] run(
                deliveries,
            ).consulted[i]).rank() <= failing.rank(),
{
    reveal_with_fuel(run_from, 4);
}

/// An aggregation between two sources: the fragments delivered so far, and
/// the source that is to be consulted now.
#[derive(Debug, PartialEq, Eq)]
pub struct Aggregation {
    fragments: Vec<SettingsJson>,
    awaited: Source,
}

/// What an aggregation asks for after a source has delivered.
#[derive(Debug, PartialEq, Eq)]
pub enum Progress<E> {
    /// Consult the source that the aggregation awaits now, and record what it
    /// delivers.
    Continue(Aggregation),
    /// The aggregation has ended: with the fragments in the order of their
    /// sources, or with the error that ended it.
    Finished(Result<Vec<SettingsJson>, E>),
}

impl View for Aggregation {
    type V = AggregationModel;

    closed spec fn view(&self) -> AggregationModel {
        AggregationModel { fragments: fragment_models(self.fragments@), awaited: self.awaited }
    }
}

/// The model of a progress.
pub open spec fn progress_model<E>(progress: Progress<E>) -> ProgressModel<E> {
    match progress {
        Progress::Continue(state) => ProgressModel::Continue(state@),
        Progress::Finished(Ok(fragments)) => ProgressModel::Finished(
            Ok(fragment_models(fragments@)),
        ),
        Progress::Finished(Err(e)) => ProgressModel::Finished(Err(e)),
    }
}

impl Aggregation {
    /// Begins an aggregation.
    pub fn start() -> (state: Aggregation)
        ensures
            state@ == beginning(),
    {
        let state = Aggregation { fragments: Vec::new(), awaited: Source::first() };
        assert(state@.fragments =~= Seq::empty());
        state
    }

    /// The source that is to be consulted now.
    pub fn awaited(&self) -> (source: Source)
        ensures
            source == self@.awaited,
    {
        self.awaited
    }

    /// Records what the awaited source delivered.
    pub fn record<E>(self, outcome: Result<Option<SettingsJson>, E>) -> (progress: Progress<E>)
        ensures
            progress_model(progress) == recorded(self@, delivery(outcome)),
    {
        let ghost before = self@;
        let awaited = self.awaited;
        let mut fragments = self.fragments;
        match outcome {
            Err(e) => Progress::Finished(Err(e)),
            Ok(found) => {
                match found {
                    Some(fragment) => {
                        fragments.push(fragment);
                        assert(fragment_models(fragments@) =~= before.fragments.push(fragment@));
                    },
                    None => {},
                }
                match awaited.next() {
                    Some(awaited) => Progress::Continue(Aggregation { fragments, awaited }),
                    None => Progress::Finished(Ok(fragments)),
                }
            },
        }
    }
}

} // verus!
