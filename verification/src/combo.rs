//! Combo handling of the remote's inputs and routing of the combo outputs
//! to the output devices.
use vstd::prelude::*;
use std::collections::VecDeque;
use esperto::combo::ComboHandler;
use crate::actions::EspertoConfig;
use crate::config::{key_event_of, slot_index, OutputEvent, WiimoteConfig, WiimoteEvent};
use crate::output::{output_event, translate_output, AxisTable, DeviceEvent};
use crate::routing::Kind;

verus! {

/// esperto's combo handler, over input codes (see [`input_code_of`]) and
/// routed outputs. The library reads of it its output queue, the outputs
/// that it produces for an input, the inputs and outputs that its
/// configuration defines, and its modifier groups with the number of their
/// keys that are down.
#[verifier::external_body]
pub struct ComboEngine {
    handler: esperto::combo::ComboHandlerSimple<u8, OutputEvent, i32, VecDeque<esperto::types::Event<OutputEvent, i32>>>,
}

/// The combo outputs waiting in the engine's queue, oldest first.
pub uninterp spec fn combo_queue(engine: ComboEngine) -> Seq<(OutputEvent, Kind, i32)>;

/// The combo outputs that the engine queues when it handles an input.
pub uninterp spec fn combo_outputs(engine: ComboEngine, input: u8, kind: Kind, value: i32) -> Seq<(OutputEvent, Kind, i32)>;

/// The combo outputs that the engine queues for input `next` after it has
/// handled input `first`.
pub uninterp spec fn combo_outputs_after(engine: ComboEngine, first: u8, first_kind: Kind, first_value: i32,
    next: u8, next_kind: Kind, next_value: i32) -> Seq<(OutputEvent, Kind, i32)>;

/// The outputs that the engine's configuration defines: the actions of its
/// keys and of their combos.
pub uninterp spec fn combo_actions(engine: ComboEngine) -> Set<OutputEvent>;

/// The input codes that the engine knows: its action keys and modifier keys.
pub uninterp spec fn combo_inputs(engine: ComboEngine) -> Set<u8>;

/// The engine's modifier groups, as sets of input codes, by group index.
pub uninterp spec fn combo_groups(engine: ComboEngine) -> Seq<Set<u8>>;

/// For each modifier group, the engine's count of its keys that are down.
pub uninterp spec fn combo_group_counts(engine: ComboEngine) -> Seq<int>;

/// The engine has not been handed any input since it was built: its key,
/// group and mask state is the one that `ComboHandlerSimple::new` sets.
pub uninterp spec fn combo_fresh(engine: ComboEngine) -> bool;

/// The outputs that a list of actions defines.
pub open spec fn configured_outputs(actions: Seq<crate::actions::ActionEntry>) -> Set<OutputEvent> {
    Set::new(|o: OutputEvent| exists|i: int| 0 <= i < actions.len() && #[trigger] actions[i].1 == Some(o))
}

/// The input codes of the inputs that a configuration names: the keys of
/// its actions and of its modifier groups.
pub open spec fn configured_inputs(actions: Seq<crate::actions::ActionEntry>, groups: Seq<Set<WiimoteEvent>>) -> Set<u8> {
    Set::new(|c: u8| exists|e: WiimoteEvent| #[trigger] input_code_of(e) == c
        && ((exists|i: int| 0 <= i < actions.len() && #[trigger] actions[i].0 == e)
            || (exists|g: int| 0 <= g < groups.len() && #[trigger] groups[g].contains(e))))
}

/// Modifier groups of the remote's inputs, relabelled by their input codes.
pub open spec fn input_groups(groups: Seq<Set<WiimoteEvent>>) -> Seq<Set<u8>> {
    groups.map_values(|s: Set<WiimoteEvent>| s.map(|e: WiimoteEvent| input_code_of(e)))
}

/// Whether the engine can take an input without overflowing the count of
/// one of its modifier groups: a release needs every group of the input to
/// have a key down, a press needs room in every group's count.
pub open spec fn routable(groups: Seq<Set<u8>>, counts: Seq<int>, code: u8, kind: Kind) -> bool {
    forall|g: int| 0 <= g < groups.len() && #[trigger] groups[g].contains(code) ==> match kind {
        Kind::Up => counts[g] > 0,
        Kind::Down => counts[g] < usize::MAX,
        _ => true,
    }
}

/// The group counts after an input: a press adds one to each group that
/// holds the input, a release takes one away, other inputs leave them.
pub open spec fn counts_after(groups: Seq<Set<u8>>, counts: Seq<int>, code: u8, kind: Kind) -> Seq<int> {
    Seq::new(counts.len(), |g: int| if groups[g].contains(code) {
        match kind {
            Kind::Down => counts[g] + 1,
            Kind::Up => counts[g] - 1,
            _ => counts[g],
        }
    } else {
        counts[g]
    })
}

/// The code under which the combo engine knows an input of the remote: its
/// position in [`WiimoteEvent`], which keeps the order of the inputs.
pub open spec fn input_code_of(e: WiimoteEvent) -> u8 {
    match e {
        WiimoteEvent::A => 0,
        WiimoteEvent::B => 1,
        WiimoteEvent::Up => 2,
        WiimoteEvent::Down => 3,
        WiimoteEvent::Left => 4,
        WiimoteEvent::Right => 5,
        WiimoteEvent::Plus => 6,
        WiimoteEvent::Minus => 7,
        WiimoteEvent::Home => 8,
        WiimoteEvent::Btn1 => 9,
        WiimoteEvent::Btn2 => 10,
        WiimoteEvent::IRAbsX => 11,
        WiimoteEvent::IRAbsY => 12,
    }
}

impl WiimoteEvent {
    pub fn input_code(self) -> (r: u8)
        ensures
            r == input_code_of(self),
    {
        match self {
            WiimoteEvent::A => 0,
            WiimoteEvent::B => 1,
            WiimoteEvent::Up => 2,
            WiimoteEvent::Down => 3,
            WiimoteEvent::Left => 4,
            WiimoteEvent::Right => 5,
            WiimoteEvent::Plus => 6,
            WiimoteEvent::Minus => 7,
            WiimoteEvent::Home => 8,
            WiimoteEvent::Btn1 => 9,
            WiimoteEvent::Btn2 => 10,
            WiimoteEvent::IRAbsX => 11,
            WiimoteEvent::IRAbsY => 12,
        }
    }
}

/// Calls esperto's `ComboHandlerSimple::new` on the configuration, its
/// inputs relabelled by `Config::map_input` with [`WiimoteEvent::input_code`].
/// `new` indexes its modifier table with each combo's modifier name, so it
/// needs a configuration that esperto's validation accepts. It stores an
/// empty queue, the configuration's actions and combo actions under the
/// relabelled inputs, and one group per modifier declaration, in order, with
/// no key down. Which outputs it then produces for an input is left to the
/// names.
#[verifier::external_body]
fn combo_engine_new(cfg: &EspertoConfig) -> (r: ComboEngine)
    requires
        crate::actions::esperto_validation(*cfg) is Ok,
    ensures
        combo_queue(r) == Seq::<(OutputEvent, Kind, i32)>::empty(),
        combo_fresh(r),
        combo_actions(r) == configured_outputs(crate::actions::esperto_actions(*cfg)),
        combo_inputs(r) == configured_inputs(crate::actions::esperto_actions(*cfg), crate::actions::esperto_modifier_groups(*cfg)),
        combo_groups(r) == input_groups(crate::actions::esperto_modifier_groups(*cfg)),
        combo_group_counts(r) == Seq::new(crate::actions::esperto_modifier_groups(*cfg).len(), |g: int| 0int),
{
    ComboEngine { handler: esperto::combo::ComboHandlerSimple::new(&cfg.clone().map_input(|e: WiimoteEvent| e.input_code())) }
}

/// Calls esperto's `ComboHandler::handle`, which appends the outputs of the
/// input to the queue; these are actions of the configuration. An input that
/// the engine does not know, and an engage or disengage input, produce
/// nothing. A press adds one to the count of each group that holds the
/// input and a release takes one away: that count is a `usize`, which the
/// `requires` keeps from overflowing. After the call the engine produces
/// for any input what the old engine produces after this one.
#[verifier::external_body]
fn combo_engine_handle(engine: &mut ComboEngine, input: u8, kind: Kind, value: i32)
    requires
        routable(combo_groups(*old(engine)), combo_group_counts(*old(engine)), input, kind),
    ensures
        combo_queue(*final(engine)) == combo_queue(*old(engine)) + combo_outputs(*old(engine), input, kind, value),
        combo_actions(*final(engine)) == combo_actions(*old(engine)),
        combo_inputs(*final(engine)) == combo_inputs(*old(engine)),
        combo_groups(*final(engine)) == combo_groups(*old(engine)),
        combo_group_counts(*final(engine))
            == counts_after(combo_groups(*old(engine)), combo_group_counts(*old(engine)), input, kind),
        forall|i: int| 0 <= i < combo_outputs(*old(engine), input, kind, value).len()
            ==> combo_actions(*old(engine)).contains(#[trigger] combo_outputs(*old(engine), input, kind, value)[i].0),
        !combo_inputs(*old(engine)).contains(input) || kind == Kind::AxisEngage || kind == Kind::AxisDisengage
            ==> combo_outputs(*old(engine), input, kind, value).len() == 0,
        forall|n: u8, k: Kind, v: i32| #[trigger] combo_outputs(*final(engine), n, k, v)
            == combo_outputs_after(*old(engine), input, kind, value, n, k, v),
{
    let kind = match kind {
        Kind::Up => esperto::types::Kind::Up,
        Kind::Down => esperto::types::Kind::Down,
        Kind::AxisUpdate => esperto::types::Kind::AxisUpdate,
        Kind::AxisEngage => esperto::types::Kind::AxisEngage,
        Kind::AxisDisengage => esperto::types::Kind::AxisDisengage,
    };
    engine.handler.handle(esperto::types::Event { keycode: input, kind, value });
}

/// Calls `VecDeque::pop_front` on the engine's output queue (esperto's
/// `ComboHandler::events`): the oldest output, which leaves the queue. The
/// queue is all that changes.
#[verifier::external_body]
fn combo_engine_pop(engine: &mut ComboEngine) -> (r: Option<(OutputEvent, Kind, i32)>)
    ensures
        combo_queue(*old(engine)).len() == 0 ==> r is None && combo_queue(*final(engine)) == combo_queue(*old(engine)),
        combo_queue(*old(engine)).len() > 0 ==> r == Some(combo_queue(*old(engine))[0])
            && combo_queue(*final(engine)) == combo_queue(*old(engine)).drop_first(),
        combo_actions(*final(engine)) == combo_actions(*old(engine)),
        combo_inputs(*final(engine)) == combo_inputs(*old(engine)),
        combo_groups(*final(engine)) == combo_groups(*old(engine)),
        combo_group_counts(*final(engine)) == combo_group_counts(*old(engine)),
        combo_fresh(*final(engine)) == combo_fresh(*old(engine)),
        forall|n: u8, k: Kind, v: i32| #[trigger] combo_outputs(*final(engine), n, k, v) == combo_outputs(*old(engine), n, k, v),
        forall|f: u8, fk: Kind, fv: i32, n: u8, k: Kind, v: i32|
            #[trigger] combo_outputs_after(*final(engine), f, fk, fv, n, k, v) == combo_outputs_after(*old(engine), f, fk, fv, n, k, v),
{
    match engine.handler.events().pop_front() {
        None => None,
        Some(e) => Some((e.keycode, match e.kind {
            esperto::types::Kind::Up => Kind::Up,
            esperto::types::Kind::Down => Kind::Down,
            esperto::types::Kind::AxisUpdate => Kind::AxisUpdate,
            esperto::types::Kind::AxisEngage => Kind::AxisEngage,
            esperto::types::Kind::AxisDisengage => Kind::AxisDisengage,
        }, e.value)),
    }
}

/// Whether `group` holds the input code `code`.
fn group_holds(group: &Vec<u8>, code: u8) -> (r: bool)
    ensures
        r == group@.contains(code),
{
    let mut i: usize = 0;
    while i < group.len()
        invariant
            i <= group@.len(),
            forall|j: int| 0 <= j < i ==> group@[j] != code,
        decreases group@.len() - i,
    {
        if group[i] == code {
            assert(group@[i as int] == code);
            return true;
        }
        i += 1;
    }
    false
}

/// An event for the output device of index `slot`.
#[derive(Clone, Copy, Debug, PartialEq, Eq, Structural)]
pub struct SlotEvent {
    pub slot: usize,
    pub event: DeviceEvent,
}

/// The device events of a sequence of combo outputs, each for the device of
/// its slot, in order; outputs without a device event are left out.
pub open spec fn routed_events(outputs: Seq<(OutputEvent, Kind, i32)>, centering: Map<u16, i32>, parking: Map<u16, i32>) -> Seq<SlotEvent>
    decreases outputs.len(),
{
    if outputs.len() == 0 {
        Seq::empty()
    } else {
        let o = outputs.last();
        let before = routed_events(outputs.drop_last(), centering, parking);
        match output_event(o.0.code, o.1, o.2, centering, parking) {
            Some(e) => before.push(SlotEvent { slot: slot_index(o.0.slot) as usize, event: e }),
            None => before,
        }
    }
}

/// Routes the remote's inputs through the combos to the output devices.
pub struct Router {
    engine: ComboEngine,
    groups: Vec<Vec<u8>>,
    counts: Vec<usize>,
    centering: AxisTable,
    parking: AxisTable,
}

impl Router {
    pub closed spec fn engine(&self) -> ComboEngine {
        self.engine
    }

    /// Centering values of the output axes, by raw code.
    pub closed spec fn centering(&self) -> Map<u16, i32> {
        self.centering.contents()
    }

    /// Parking values of the output axes, by raw code.
    pub closed spec fn parking(&self) -> Map<u16, i32> {
        self.parking.contents()
    }

    /// No combo output is left waiting between two inputs, and the router's
    /// copy of the engine's modifier groups and of their counts is exact.
    pub closed spec fn wf(&self) -> bool {
        &&& combo_queue(self.engine).len() == 0
        &&& self.groups@.len() == combo_groups(self.engine).len()
        &&& self.counts@.len() == combo_groups(self.engine).len()
        &&& combo_group_counts(self.engine).len() == combo_groups(self.engine).len()
        &&& forall|g: int, c: u8| 0 <= g < self.groups@.len()
            ==> (#[trigger] self.groups@[g]@.contains(c) <==> combo_groups(self.engine)[g].contains(c))
        &&& forall|g: int| 0 <= g < self.counts@.len() ==> #[trigger] self.counts@[g] == combo_group_counts(self.engine)[g]
    }

    /// A router for a configuration that esperto accepts: a fresh combo
    /// engine that knows the configuration's inputs under their input codes,
    /// with its actions and its modifier groups, no key down, and the
    /// configuration's centering and parking values.
    pub fn new(config: &WiimoteConfig) -> (r: Router)
        requires
            crate::actions::esperto_validation(config.esperto) is Ok,
        ensures
            r.wf(),
            combo_fresh(r.engine()),
            combo_actions(r.engine()) == configured_outputs(crate::actions::esperto_actions(config.esperto)),
            combo_inputs(r.engine()) == configured_inputs(crate::actions::esperto_actions(config.esperto),
                crate::actions::esperto_modifier_groups(config.esperto)),
            combo_groups(r.engine()) == input_groups(crate::actions::esperto_modifier_groups(config.esperto)),
            combo_group_counts(r.engine())
                == Seq::new(crate::actions::esperto_modifier_groups(config.esperto).len(), |g: int| 0int),
            r.centering() == crate::output::last_entry_wins(crate::output::raw_entries(config.centering@)),
            r.parking() == crate::output::last_entry_wins(crate::output::raw_entries(config.parking@)),
    {
        let engine = combo_engine_new(&config.esperto);
        let decl = crate::actions::list_modifier_groups(&config.esperto);
        let ghost named = crate::actions::esperto_modifier_groups(config.esperto);
        let mut groups: Vec<Vec<u8>> = Vec::new();
        let mut counts: Vec<usize> = Vec::new();
        let mut g: usize = 0;
        while g < decl.len()
            invariant
                g <= decl@.len(),
                decl@.len() == named.len(),
                forall|h: int, e: WiimoteEvent| 0 <= h < decl@.len()
                    ==> (#[trigger] decl@[h]@.contains(e) <==> named[h].contains(e)),
                groups@.len() == g,
                counts@.len() == g,
                forall|h: int| 0 <= h < g ==> #[trigger] counts@[h] == 0,
                forall|h: int, c: u8| 0 <= h < g
                    ==> (#[trigger] groups@[h]@.contains(c) <==> input_groups(named)[h].contains(c)),
            decreases decl@.len() - g,
        {
            let keys = &decl[g];
            let mut codes: Vec<u8> = Vec::new();
            let mut i: usize = 0;
            while i < keys.len()
                invariant
                    i <= keys@.len(),
                    codes@.len() == i,
                    forall|j: int| 0 <= j < i ==> #[trigger] codes@[j] == input_code_of(keys@[j]),
                decreases keys@.len() - i,
            {
                codes.push(keys[i].input_code());
                i += 1;
            }
            proof {
                let gi = g as int;
                assert(keys@ == decl@[gi]@);
                assert forall|c: u8| #[trigger] codes@.contains(c) <==> input_groups(named)[gi].contains(c) by {
                    if codes@.contains(c) {
                        let j = choose|j: int| 0 <= j < codes@.len() && codes@[j] == c;
                        let e = keys@[j];
                        assert(decl@[gi]@.contains(e));
                        assert(named[gi].contains(e));
                        assert(input_code_of(e) == c);
                    }
                    if input_groups(named)[gi].contains(c) {
                        let e = choose|e: WiimoteEvent| named[gi].contains(e) && c == input_code_of(e);
                        assert(decl@[gi]@.contains(e));
                        let j = choose|j: int| 0 <= j < keys@.len() && keys@[j] == e;
                        assert(codes@[j] == c);
                    }
                }
            }
            groups.push(codes);
            counts.push(0);
            proof {
                assert forall|h: int, c: u8| 0 <= h < g + 1
                    implies (#[trigger] groups@[h]@.contains(c) <==> input_groups(named)[h].contains(c)) by {
                    if h == g as int {
                        assert(groups@[h] == codes);
                    }
                }
            }
            g += 1;
        }
        Router {
            engine,
            groups,
            counts,
            centering: AxisTable::new(&config.centering),
            parking: AxisTable::new(&config.parking),
        }
    }

    /// A router for the configuration, or `None` when esperto refuses its
    /// combo configuration.
    pub fn from_config(config: &WiimoteConfig) -> (r: Option<Router>)
        ensures
            r is Some <==> crate::actions::esperto_validation(config.esperto) is Ok,
            r matches Some(router) ==> {
                &&& router.wf()
                &&& combo_fresh(router.engine())
                &&& combo_actions(router.engine()) == configured_outputs(crate::actions::esperto_actions(config.esperto))
                &&& combo_inputs(router.engine()) == configured_inputs(crate::actions::esperto_actions(config.esperto),
                        crate::actions::esperto_modifier_groups(config.esperto))
                &&& combo_groups(router.engine()) == input_groups(crate::actions::esperto_modifier_groups(config.esperto))
                &&& combo_group_counts(router.engine())
                        == Seq::new(crate::actions::esperto_modifier_groups(config.esperto).len(), |g: int| 0int)
                &&& router.centering() == crate::output::last_entry_wins(crate::output::raw_entries(config.centering@))
                &&& router.parking() == crate::output::last_entry_wins(crate::output::raw_entries(config.parking@))
            },
    {
        match crate::actions::run_esperto_validation(&config.esperto) {
            Ok(_) => Some(Router::new(config)),
            Err(_) => None,
        }
    }

    /// Whether the engine can take the input: false for the release of a
    /// modifier key of a group with no key down, whose count would drop
    /// below zero, and for a press that would overflow a group's count.
    pub fn can_route(&self, input: WiimoteEvent, kind: Kind) -> (r: bool)
        requires
            self.wf(),
        ensures
            r == routable(combo_groups(self.engine()), combo_group_counts(self.engine()), input_code_of(input), kind),
    {
        let code = input.input_code();
        let mut g: usize = 0;
        while g < self.groups.len()
            invariant
                self.wf(),
                code == input_code_of(input),
                g <= self.groups@.len(),
                forall|h: int| 0 <= h < g && #[trigger] combo_groups(self.engine)[h].contains(code) ==> match kind {
                    Kind::Up => combo_group_counts(self.engine)[h] > 0,
                    Kind::Down => combo_group_counts(self.engine)[h] < usize::MAX,
                    _ => true,
                },
            decreases self.groups@.len() - g,
        {
            if group_holds(&self.groups[g], code) {
                assert(combo_groups(self.engine)[g as int].contains(code));
                match kind {
                    Kind::Up => {
                        if self.counts[g] == 0 {
                            return false;
                        }
                    },
                    Kind::Down => {
                        if self.counts[g] == usize::MAX {
                            return false;
                        }
                    },
                    _ => {},
                }
            } else {
                assert(!combo_groups(self.engine)[g as int].contains(code));
            }
            g += 1;
        }
        true
    }

    /// Hands an input to the combo engine and returns the device events of
    /// the outputs that it produces, in order.
    pub fn route_input(&mut self, input: WiimoteEvent, kind: Kind, value: i32) -> (r: Vec<SlotEvent>)
        requires
            old(self).wf(),
            routable(combo_groups(old(self).engine()), combo_group_counts(old(self).engine()), input_code_of(input), kind),
        ensures
            final(self).wf(),
            final(self).centering() == old(self).centering(),
            final(self).parking() == old(self).parking(),
            combo_actions(final(self).engine()) == combo_actions(old(self).engine()),
            combo_inputs(final(self).engine()) == combo_inputs(old(self).engine()),
            combo_groups(final(self).engine()) == combo_groups(old(self).engine()),
            combo_group_counts(final(self).engine()) == counts_after(combo_groups(old(self).engine()),
                combo_group_counts(old(self).engine()), input_code_of(input), kind),
            r@ == routed_events(combo_outputs(old(self).engine(), input_code_of(input), kind, value),
                old(self).centering(), old(self).parking()),
            forall|n: u8, k: Kind, v: i32| #[trigger] combo_outputs(final(self).engine(), n, k, v)
                == combo_outputs_after(old(self).engine(), input_code_of(input), kind, value, n, k, v),
    {
        let code = input.input_code();
        let ghost e0 = self.engine;
        let ghost next = counts_after(combo_groups(e0), combo_group_counts(e0), code, kind);
        let mut g: usize = 0;
        while g < self.counts.len()
            invariant
                self.engine == e0,
                combo_queue(e0).len() == 0,
                self.groups == old(self).groups,
                self.groups@.len() == combo_groups(e0).len(),
                self.counts@.len() == combo_groups(e0).len(),
                combo_group_counts(e0).len() == combo_groups(e0).len(),
                forall|h: int, c: u8| 0 <= h < self.groups@.len()
                    ==> (#[trigger] self.groups@[h]@.contains(c) <==> combo_groups(e0)[h].contains(c)),
                routable(combo_groups(e0), combo_group_counts(e0), code, kind),
                g <= self.counts@.len(),
                next == counts_after(combo_groups(e0), combo_group_counts(e0), code, kind),
                next.len() == self.counts@.len(),
                forall|h: int| 0 <= h < g ==> #[trigger] self.counts@[h] == next[h],
                forall|h: int| g <= h < self.counts@.len() ==> #[trigger] self.counts@[h] == combo_group_counts(e0)[h],
                self.centering == old(self).centering,
                self.parking == old(self).parking,
            decreases self.counts@.len() - g,
        {
            if group_holds(&self.groups[g], code) {
                assert(combo_groups(e0)[g as int].contains(code));
                match kind {
                    Kind::Down => {
                        let n = self.counts[g] + 1;
                        self.counts.set(g, n);
                    },
                    Kind::Up => {
                        let n = self.counts[g] - 1;
                        self.counts.set(g, n);
                    },
                    _ => {},
                }
            } else {
                assert(!combo_groups(e0)[g as int].contains(code));
            }
            g += 1;
        }
        let ghost outputs = combo_outputs(self.engine, code, kind, value);
        combo_engine_handle(&mut self.engine, code, kind, value);
        proof {
            assert(combo_queue(self.engine) =~= outputs);
        }
        let mut events: Vec<SlotEvent> = Vec::new();
        let ghost mut taken: int = 0;
        loop
            invariant
                0 <= taken <= outputs.len(),
                self.centering == old(self).centering,
                self.parking == old(self).parking,
                self.groups == old(self).groups,
                self.groups@.len() == combo_groups(e0).len(),
                self.counts@.len() == combo_groups(e0).len(),
                next.len() == combo_groups(e0).len(),
                forall|h: int, c: u8| 0 <= h < self.groups@.len()
                    ==> (#[trigger] self.groups@[h]@.contains(c) <==> combo_groups(e0)[h].contains(c)),
                forall|h: int| 0 <= h < self.counts@.len() ==> #[trigger] self.counts@[h] == next[h],
                combo_actions(self.engine) == combo_actions(e0),
                combo_inputs(self.engine) == combo_inputs(e0),
                combo_groups(self.engine) == combo_groups(e0),
                combo_group_counts(self.engine) == next,
                forall|n: u8, k: Kind, v: i32| #[trigger] combo_outputs(self.engine, n, k, v)
                    == combo_outputs_after(e0, code, kind, value, n, k, v),
                combo_queue(self.engine) == outputs.skip(taken),
                events@ == routed_events(outputs.take(taken), self.centering.contents(), self.parking.contents()),
            ensures
                combo_queue(self.engine).len() == 0,
                events@ == routed_events(outputs, self.centering.contents(), self.parking.contents()),
            decreases outputs.len() - taken,
        {
            match combo_engine_pop(&mut self.engine) {
                None => {
                    proof {
                        assert(outputs.take(taken) =~= outputs);
                    }
                    break;
                },
                Some((output, out_kind, out_value)) => {
                    proof {
                        assert(outputs.skip(taken)[0] == outputs[taken]);
                        assert(outputs.take(taken + 1).drop_last() =~= outputs.take(taken));
                        assert(outputs.take(taken + 1).last() == outputs[taken]);
                        assert(outputs.skip(taken).drop_first() =~= outputs.skip(taken + 1));
                    }
                    match translate_output(output.code, out_kind, out_value, &self.centering, &self.parking) {
                        Some(event) => {
                            events.push(SlotEvent { slot: output.slot.to_index(), event });
                        },
                        None => {},
                    }
                    proof {
                        taken = taken + 1;
                    }
                },
            }
        }
        events
    }

    /// Routes the input if the engine can take it (see [`Router::can_route`]);
    /// `None`, with the router unchanged, where it cannot.
    pub fn try_route_input(&mut self, input: WiimoteEvent, kind: Kind, value: i32) -> (r: Option<Vec<SlotEvent>>)
        requires
            old(self).wf(),
        ensures
            final(self).wf(),
            r is Some <==> routable(combo_groups(old(self).engine()), combo_group_counts(old(self).engine()),
                input_code_of(input), kind),
            r is None ==> *final(self) == *old(self),
            r matches Some(events) ==> {
                &&& final(self).centering() == old(self).centering()
                &&& final(self).parking() == old(self).parking()
                &&& combo_actions(final(self).engine()) == combo_actions(old(self).engine())
                &&& combo_inputs(final(self).engine()) == combo_inputs(old(self).engine())
                &&& combo_groups(final(self).engine()) == combo_groups(old(self).engine())
                &&& combo_group_counts(final(self).engine()) == counts_after(combo_groups(old(self).engine()),
                        combo_group_counts(old(self).engine()), input_code_of(input), kind)
                &&& events@ == routed_events(combo_outputs(old(self).engine(), input_code_of(input), kind, value),
                        old(self).centering(), old(self).parking())
                &&& forall|n: u8, k: Kind, v: i32| #[trigger] combo_outputs(final(self).engine(), n, k, v)
                        == combo_outputs_after(old(self).engine(), input_code_of(input), kind, value, n, k, v)
            },
    {
        if self.can_route(input, kind) {
            Some(self.route_input(input, kind, value))
        } else {
            None
        }
    }

    /// Routes a button press or release, given by the button's key code.
    pub fn route_key(&mut self, code: u16, kind: Kind) -> (r: Vec<SlotEvent>)
        requires
            old(self).wf(),
            key_event_of(code) is Some,
            routable(combo_groups(old(self).engine()), combo_group_counts(old(self).engine()),
                input_code_of(key_event_of(code).unwrap()), kind),
        ensures
            final(self).wf(),
            final(self).centering() == old(self).centering(),
            final(self).parking() == old(self).parking(),
            combo_actions(final(self).engine()) == combo_actions(old(self).engine()),
            combo_inputs(final(self).engine()) == combo_inputs(old(self).engine()),
            combo_groups(final(self).engine()) == combo_groups(old(self).engine()),
            ({
                let c = input_code_of(key_event_of(code).unwrap());
                &&& combo_group_counts(final(self).engine())
                        == counts_after(combo_groups(old(self).engine()), combo_group_counts(old(self).engine()), c, kind)
                &&& r@ == routed_events(combo_outputs(old(self).engine(), c, kind, 0),
                        old(self).centering(), old(self).parking())
                &&& forall|n: u8, k: Kind, v: i32| #[trigger] combo_outputs(final(self).engine(), n, k, v)
                        == combo_outputs_after(old(self).engine(), c, kind, 0, n, k, v)
            }),
    {
        let input = WiimoteEvent::from_key_code(code);
        self.route_input(input, kind, 0)
    }

    /// Routes a button press or release if the engine can take it; `None`,
    /// with the router unchanged, where it cannot.
    pub fn try_route_key(&mut self, code: u16, kind: Kind) -> (r: Option<Vec<SlotEvent>>)
        requires
            old(self).wf(),
            key_event_of(code) is Some,
        ensures
            final(self).wf(),
            r is Some <==> routable(combo_groups(old(self).engine()), combo_group_counts(old(self).engine()),
                input_code_of(key_event_of(code).unwrap()), kind),
            r is None ==> *final(self) == *old(self),
            r matches Some(events) ==> {
                let c = input_code_of(key_event_of(code).unwrap());
                &&& final(self).centering() == old(self).centering()
                &&& final(self).parking() == old(self).parking()
                &&& combo_actions(final(self).engine()) == combo_actions(old(self).engine())
                &&& combo_group_counts(final(self).engine())
                        == counts_after(combo_groups(old(self).engine()), combo_group_counts(old(self).engine()), c, kind)
                &&& events@ == routed_events(combo_outputs(old(self).engine(), c, kind, 0),
                        old(self).centering(), old(self).parking())
                &&& forall|n: u8, k: Kind, v: i32| #[trigger] combo_outputs(final(self).engine(), n, k, v)
                        == combo_outputs_after(old(self).engine(), c, kind, 0, n, k, v)
            },
    {
        let input = WiimoteEvent::from_key_code(code);
        self.try_route_input(input, kind, 0)
    }
}

} // verus!
