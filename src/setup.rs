//! Building a brightness controller. Construction lists the active displays,
//! opens the first candidate library that loads (or, when none does, falls
//! back to the libraries already mapped into the process), and resolves the
//! getter and the setter there. Each of these is work for the caller: the
//! machine below names the next piece of work, and the caller performs it and
//! reports what came of it.

use vstd::prelude::*;
use crate::controller::{Address, BrightnessController};
use crate::display::{listing_result, primary_of, DisplayId, EnumerationError, MAX_DISPLAYS};

verus! {

/// Where an entry point is looked up.
#[derive(Debug, Clone, Copy, PartialEq, Eq, Structural)]
pub enum Scope {
    /// The library opened with this handle.
    Library(Address),
    /// The libraries already mapped into the process.
    Process,
}

/// The two entry points of the brightness interface.
#[derive(Debug, Clone, Copy, PartialEq, Eq, Structural)]
pub enum Entry {
    Getter,
    Setter,
}

/// Why construction failed.
#[derive(Debug, Clone, Copy, PartialEq, Eq, Structural)]
pub enum SetupError {
    /// The active displays could not be had.
    Enumeration(EnumerationError),
    /// The getter or the setter was not found in the chosen scope.
    SymbolsUnavailable,
}

/// The next piece of work, or the end of construction.
#[derive(Debug, Clone, Copy, PartialEq, Eq, Structural)]
pub enum Step {
    /// List the active displays, at most this many.
    ListDisplays(usize),
    /// Open the candidate library with this index.
    Load(usize),
    /// Look up an entry point in a scope.
    Lookup(Scope, Entry),
    /// Release this library handle, which is of no further use.
    Release(Address),
    /// Construction succeeded.
    Ready(BrightnessController),
    /// Construction failed; nothing is left to release.
    Failed(SetupError),
}

/// What came of the last piece of work.
#[derive(Debug, Clone, Copy)]
pub enum Event {
    /// The display to bind to, or why there is none.
    Displays(Result<DisplayId, EnumerationError>),
    /// The handle of the opened library, or none if it did not load.
    Opened(Option<Address>),
    /// The address of the entry point, or none if it was not found.
    Found(Option<Address>),
    /// The handle was released.
    Released,
}

/// The private framework that usually holds the brightness entry points.
pub const DISPLAY_SERVICES_PATH: &'static str =
    "/System/Library/PrivateFrameworks/DisplayServices.framework/DisplayServices";

/// The framework tried when the first does not load.
pub const SKYLIGHT_PATH: &'static str = "/System/Library/PrivateFrameworks/SkyLight.framework/SkyLight";

/// How many candidate libraries are tried.
pub const CANDIDATE_COUNT: usize = 2;

/// The candidate library with index `i`, in the order in which they are tried.
pub fn candidate_path(i: usize) -> (r: &'static str)
    requires
        i < CANDIDATE_COUNT,
    ensures
        i == 0 ==> r@ == DISPLAY_SERVICES_PATH@,
        i == 1 ==> r@ == SKYLIGHT_PATH@,
{
    if i == 0 {
        DISPLAY_SERVICES_PATH
    } else {
        SKYLIGHT_PATH
    }
}

/// The symbol name of an entry point.
pub fn entry_name(e: Entry) -> (r: &'static str)
    ensures
        e is Getter ==> r@ == "DisplayServicesGetBrightness"@,
        e is Setter ==> r@ == "DisplayServicesSetBrightness"@,
{
    match e {
        Entry::Getter => "DisplayServicesGetBrightness",
        Entry::Setter => "DisplayServicesSetBrightness",
    }
}

/// The state of construction: how many candidate libraries there are, what
/// has been learned so far, and the pending step.
#[derive(Debug, Clone, Copy, PartialEq, Eq, Structural)]
pub struct Setup {
    pub candidates: usize,
    pub display: DisplayId,
    pub handle: Option<Address>,
    pub getter: Option<Address>,
    pub step: Step,
}

/// The scope in which entry points are looked up, given the handle opened.
pub open spec fn scope_of(handle: Option<Address>) -> Scope {
    match handle {
        Some(h) => Scope::Library(h),
        None => Scope::Process,
    }
}

/// The step after the candidate with index `i` did not load.
pub open spec fn after_failed_load(candidates: usize, i: int) -> Step {
    if i + 1 < candidates {
        Step::Load((i + 1) as usize)
    } else {
        Step::Lookup(Scope::Process, Entry::Getter)
    }
}

/// The step once both lookups are done.
pub open spec fn after_lookups(s: Setup, setter: Option<Address>) -> Step {
    match (s.getter, setter) {
        (Some(g), Some(t)) => Step::Ready(
            BrightnessController { display_id: s.display, handle: s.handle, getter: g, setter: t },
        ),
        _ => match s.handle {
            Some(h) => Step::Release(h),
            None => Step::Failed(SetupError::SymbolsUnavailable),
        },
    }
}

impl Setup {
    /// The state in which construction begins.
    pub open spec fn start(candidates: usize) -> Setup {
        Setup {
            candidates,
            display: 0,
            handle: None,
            getter: None,
            step: Step::ListDisplays(MAX_DISPLAYS),
        }
    }

    /// The state after `e`. An event that does not answer the pending step
    /// changes nothing.
    pub open spec fn after(self, e: Event) -> Setup {
        match (self.step, e) {
            (Step::ListDisplays(_), Event::Displays(Ok(d))) => Setup {
                display: d,
                step: if self.candidates > 0 {
                    Step::Load(0)
                } else {
                    Step::Lookup(Scope::Process, Entry::Getter)
                },
                ..self
            },
            (Step::ListDisplays(_), Event::Displays(Err(x))) => Setup {
                step: Step::Failed(SetupError::Enumeration(x)),
                ..self
            },
            (Step::Load(_), Event::Opened(Some(h))) => Setup {
                handle: Some(h),
                step: Step::Lookup(Scope::Library(h), Entry::Getter),
                ..self
            },
            (Step::Load(i), Event::Opened(None)) => Setup {
                step: after_failed_load(self.candidates, i as int),
                ..self
            },
            (Step::Lookup(sc, Entry::Getter), Event::Found(a)) => Setup {
                getter: a,
                step: Step::Lookup(sc, Entry::Setter),
                ..self
            },
            (Step::Lookup(_, Entry::Setter), Event::Found(a)) => Setup {
                step: after_lookups(self, a),
                ..self
            },
            (Step::Release(_), Event::Released) => Setup {
                handle: None,
                step: Step::Failed(SetupError::SymbolsUnavailable),
                ..self
            },
            _ => self,
        }
    }

    /// The state after the events of `evs`, in order.
    pub open spec fn run(self, evs: Seq<Event>) -> Setup
        decreases evs.len(),
    {
        if evs.len() == 0 {
            self
        } else {
            self.after(evs[0]).run(evs.drop_first())
        }
    }

    /// Begins construction over `candidates` candidate libraries, tried in
    /// order of their index.
    pub fn new(candidates: usize) -> (r: Setup)
        ensures
            r == Setup::start(candidates),
    {
        Setup {
            candidates,
            display: 0,
            handle: None,
            getter: None,
            step: Step::ListDisplays(MAX_DISPLAYS),
        }
    }

    /// The pending step.
    pub fn next_step(&self) -> (r: Step)
        ensures
            r == self.step,
    {
        self.step
    }

    /// Takes in what came of the pending step.
    pub fn advance(&mut self, e: Event)
        ensures
            *final(self) == old(self).after(e),
    {
        match (self.step, e) {
            (Step::ListDisplays(_), Event::Displays(Ok(d))) => {
                self.display = d;
                self.step = if self.candidates > 0 {
                    Step::Load(0)
                } else {
                    Step::Lookup(Scope::Process, Entry::Getter)
                };
            },
            (Step::ListDisplays(_), Event::Displays(Err(x))) => {
                self.step = Step::Failed(SetupError::Enumeration(x));
            },
            (Step::Load(_), Event::Opened(Some(h))) => {
                self.handle = Some(h);
                self.step = Step::Lookup(Scope::Library(h), Entry::Getter);
            },
            (Step::Load(i), Event::Opened(None)) => {
                self.step = if i < self.candidates && i + 1 < self.candidates {
                    Step::Load(i + 1)
                } else {
                    Step::Lookup(Scope::Process, Entry::Getter)
                };
            },
            (Step::Lookup(sc, Entry::Getter), Event::Found(a)) => {
                self.getter = a;
                self.step = Step::Lookup(sc, Entry::Setter);
            },
            (Step::Lookup(_, Entry::Setter), Event::Found(a)) => {
                self.step = match (self.getter, a) {
                    (Some(g), Some(t)) => Step::Ready(
                        BrightnessController::bind(self.display, self.handle, g, t),
                    ),
                    _ => match self.handle {
                        Some(h) => Step::Release(h),
                        None => Step::Failed(SetupError::SymbolsUnavailable),
                    },
                };
            },
            (Step::Release(_), Event::Released) => {
                self.handle = None;
                self.step = Step::Failed(SetupError::SymbolsUnavailable);
            },
            _ => {},
        }
    }
}

/// No candidate library is left to try: construction has moved past loading.
pub open spec fn loading_over(step: Step) -> bool {
    !(step is ListDisplays) && !(step is Load)
}

/// Construction can no longer succeed.
pub open spec fn failing(step: Step) -> bool {
    step is Release || step is Failed
}

/// `k` reports, in a row, that a candidate library did not load.
pub open spec fn failed_loads(k: nat) -> Seq<Event> {
    Seq::new(k, |_i: int| Event::Opened(None))
}

proof fn lemma_run_append(s: Setup, a: Seq<Event>, b: Seq<Event>)
    ensures
        s.run(a + b) == s.run(a).run(b),
    decreases a.len(),
{
    if a.len() > 0 {
        assert((a + b).drop_first() =~= a.drop_first() + b);
        assert((a + b)[0] == a[0]);
        lemma_run_append(s.after(a[0]), a.drop_first(), b);
    } else {
        assert(a + b =~= b);
    }
}

proof fn lemma_loading_stays_over(s: Setup, evs: Seq<Event>)
    requires
        loading_over(s.step),
    ensures
        loading_over(s.run(evs).step),
    decreases evs.len(),
{
    if evs.len() > 0 {
        lemma_loading_stays_over(s.after(evs[0]), evs.drop_first());
    }
}

proof fn lemma_failing_stays(s: Setup, evs: Seq<Event>)
    requires
        failing(s.step),
    ensures
        failing(s.run(evs).step),
    decreases evs.len(),
{
    if evs.len() > 0 {
        lemma_failing_stays(s.after(evs[0]), evs.drop_first());
    }
}

proof fn lemma_failed_is_final(s: Setup, evs: Seq<Event>)
    requires
        s.step is Failed,
    ensures
        s.run(evs) == s,
    decreases evs.len(),
{
    if evs.len() > 0 {
        lemma_failed_is_final(s.after(evs[0]), evs.drop_first());
    }
}

proof fn lemma_failed_loads(s: Setup, i: usize)
    requires
        s.step == Step::Load(i),
        i < s.candidates,
    ensures
        s.run(failed_loads((s.candidates - i) as nat)) == (Setup {
            step: Step::Lookup(Scope::Process, Entry::Getter),
            ..s
        }),
    decreases s.candidates - i,
{
    let k = (s.candidates - i) as nat;
    let evs = failed_loads(k);
    assert(evs[0] == Event::Opened(None));
    assert(evs.drop_first() =~= failed_loads((k - 1) as nat));
    let s1 = s.after(Event::Opened(None));
    if i + 1 < s.candidates {
        lemma_failed_loads(s1, (i + 1) as usize);
    } else {
        assert(evs.drop_first() =~= Seq::<Event>::empty());
    }
}

/// When a candidate library does not load, the next candidate is tried; after
/// the last one, lookups fall back to the libraries already in the process.
pub proof fn failed_load_tries_next(s: Setup, i: usize)
    requires
        s.step == Step::Load(i),
    ensures
        s.after(Event::Opened(None)).step == after_failed_load(s.candidates, i as int),
        s.after(Event::Opened(None)).handle == s.handle,
{
}

/// The first candidate that loads is the one used: both entry points are
/// looked up in it, and no other candidate is ever tried afterwards, whatever
/// happens next.
pub proof fn loaded_candidate_is_last(s: Setup, i: usize, h: Address, rest: Seq<Event>)
    requires
        s.step == Step::Load(i),
    ensures
        s.after(Event::Opened(Some(h))).step == Step::Lookup(Scope::Library(h), Entry::Getter),
        s.after(Event::Opened(Some(h))).handle == Some(h),
        !(s.after(Event::Opened(Some(h))).run(rest).step is Load),
{
    lemma_loading_stays_over(s.after(Event::Opened(Some(h))), rest);
}

/// With two candidates or more, when the first does not load and the second
/// does, the second is used and no third is ever tried.
pub proof fn second_candidate_used(
    candidates: usize,
    d: DisplayId,
    h: Address,
    rest: Seq<Event>,
)
    requires
        candidates >= 2,
    ensures
        Setup::start(candidates).run(seq![Event::Displays(Ok(d)), Event::Opened(None)]).step
            == Step::Load(1),
        Setup::start(candidates).run(
            seq![Event::Displays(Ok(d)), Event::Opened(None), Event::Opened(Some(h))],
        ).step == Step::Lookup(Scope::Library(h), Entry::Getter),
        !(Setup::start(candidates).run(
            seq![Event::Displays(Ok(d)), Event::Opened(None), Event::Opened(Some(h))] + rest,
        ).step is Load),
{
    reveal_with_fuel(Setup::run, 4);
    let evs = seq![Event::Displays(Ok(d)), Event::Opened(None), Event::Opened(Some(h))];
    let s0 = Setup::start(candidates);
    let s1 = s0.after(Event::Displays(Ok(d)));
    let s2 = s1.after(Event::Opened(None));
    assert(seq![Event::Displays(Ok(d)), Event::Opened(None)].drop_first() =~= seq![
        Event::Opened(None),
    ]);
    assert(seq![Event::Opened(None)].drop_first() =~= Seq::<Event>::empty());
    assert(evs.drop_first() =~= seq![Event::Opened(None), Event::Opened(Some(h))]);
    assert(seq![Event::Opened(None), Event::Opened(Some(h))].drop_first() =~= seq![
        Event::Opened(Some(h)),
    ]);
    assert(seq![Event::Opened(Some(h))].drop_first() =~= Seq::<Event>::empty());
    lemma_run_append(s0, evs, rest);
    loaded_candidate_is_last(s2, 1, h, rest);
}

/// When no candidate library loads, construction falls back to the libraries
/// already in the process, and succeeds if both entry points are found there;
/// the controller then owns no handle.
pub proof fn fallback_after_all_loads_fail(
    candidates: usize,
    d: DisplayId,
    g: Address,
    t: Address,
)
    ensures
        Setup::start(candidates).run(
            seq![Event::Displays(Ok(d))] + failed_loads(candidates as nat),
        ).step == Step::Lookup(Scope::Process, Entry::Getter),
        Setup::start(candidates).run(
            seq![Event::Displays(Ok(d))] + failed_loads(candidates as nat) + seq![
                Event::Found(Some(g)),
                Event::Found(Some(t)),
            ],
        ).step == Step::Ready(
            BrightnessController { display_id: d, handle: None, getter: g, setter: t },
        ),
{
    reveal_with_fuel(Setup::run, 3);
    let s0 = Setup::start(candidates);
    let first = seq![Event::Displays(Ok(d))];
    let loads = failed_loads(candidates as nat);
    let finds = seq![Event::Found(Some(g)), Event::Found(Some(t))];
    let s1 = s0.after(Event::Displays(Ok(d)));
    assert(first.drop_first() =~= Seq::<Event>::empty());
    assert(s0.run(first) == s1);
    lemma_run_append(s0, first, loads);
    let s2 = Setup { step: Step::Lookup(Scope::Process, Entry::Getter), ..s1 };
    if candidates > 0 {
        lemma_failed_loads(s1, 0);
    } else {
        assert(loads =~= Seq::<Event>::empty());
    }
    assert(s1.run(loads) == s2);
    lemma_run_append(s0, first + loads, finds);
    assert(finds.drop_first() =~= seq![Event::Found(Some(t))]);
    assert(seq![Event::Found(Some(t))].drop_first() =~= Seq::<Event>::empty());
}

/// If the getter or the setter is not found in the chosen scope, construction
/// fails as a whole, whether or not the other was found: the opened handle,
/// if any, is to be released next, and no controller comes of any later event.
pub proof fn missing_entry_fails(
    s: Setup,
    sc: Scope,
    g: Option<Address>,
    t: Option<Address>,
    rest: Seq<Event>,
)
    requires
        s.step == Step::Lookup(sc, Entry::Getter),
        g is None || t is None,
    ensures
        s.run(seq![Event::Found(g), Event::Found(t)]).step == (match s.handle {
            Some(h) => Step::Release(h),
            None => Step::Failed(SetupError::SymbolsUnavailable),
        }),
        !(s.run(seq![Event::Found(g), Event::Found(t)] + rest).step is Ready),
{
    reveal_with_fuel(Setup::run, 3);
    let finds = seq![Event::Found(g), Event::Found(t)];
    assert(finds.drop_first() =~= seq![Event::Found(t)]);
    assert(seq![Event::Found(t)].drop_first() =~= Seq::<Event>::empty());
    lemma_run_append(s, finds, rest);
    lemma_failing_stays(s.run(finds), rest);
}

/// A handle opened for entry points that were not both found is released
/// before construction reports its failure.
pub proof fn release_precedes_failure(s: Setup, h: Address)
    requires
        s.step == Step::Release(h),
    ensures
        s.after(Event::Released).step == Step::Failed(SetupError::SymbolsUnavailable),
        s.after(Event::Released).handle is None,
{
}

/// When the display listing reports no active display, construction fails
/// with that error at once, and no library is loaded or looked up afterwards.
pub proof fn no_display_stops_construction(
    candidates: usize,
    reported: Seq<DisplayId>,
    rest: Seq<Event>,
)
    requires
        reported.len() == 0,
    ensures
        Setup::start(candidates).after(
            Event::Displays(primary_of(listing_result(MAX_DISPLAYS, 0, reported))),
        ).step == Step::Failed(SetupError::Enumeration(EnumerationError::NoActiveDisplays)),
        Setup::start(candidates).after(
            Event::Displays(primary_of(listing_result(MAX_DISPLAYS, 0, reported))),
        ).run(rest) == Setup::start(candidates).after(
            Event::Displays(primary_of(listing_result(MAX_DISPLAYS, 0, reported))),
        ),
{
    let u = Setup::start(candidates).after(
        Event::Displays(primary_of(listing_result(MAX_DISPLAYS, 0, reported))),
    );
    lemma_failed_is_final(u, rest);
}

} // verus!
