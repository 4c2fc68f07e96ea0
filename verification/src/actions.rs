//! The action table of an esperto combo configuration: listing, checks and
//! the output capabilities that it asks of each output device.
use vstd::prelude::*;
use std::hash::Hash;
use crate::config::{
    is_axis_event, is_key_code, raw_code, slot_index, OutputEvent, WiimoteEvent,
};

verus! {

#[verifier::external_type_specification]
#[verifier::external_body]
#[verifier::reject_recursive_types(A)]
#[verifier::reject_recursive_types(Z)]
pub struct ExEspertoConfig<A: Eq + Hash, Z: Eq + Hash>(esperto::config::Config<A, Z>);

/// An esperto combo configuration over the remote's inputs and the routed outputs.
pub type EspertoConfig = esperto::config::Config<WiimoteEvent, OutputEvent>;

/// An action of the configuration: an input, and the output that it
/// produces (`None` where the action is disabled).
pub type ActionEntry = (WiimoteEvent, Option<OutputEvent>);

/// The actions and combos of an esperto configuration, in the order in
/// which `Config::iter_actions` yields them, without the modifier names.
pub uninterp spec fn esperto_actions(cfg: esperto::config::Config<WiimoteEvent, OutputEvent>) -> Seq<(WiimoteEvent, Option<OutputEvent>)>;

/// What esperto's `Config::validate` decides of a configuration: the
/// warnings, rendered as text, or the first error, rendered as text.
pub uninterp spec fn esperto_validation(cfg: esperto::config::Config<WiimoteEvent, OutputEvent>) -> Result<Seq<Seq<char>>, Seq<char>>;

/// Calls esperto's `Config::iter_actions` and keeps, of each item, the
/// input and the output. The contract only names the result: which entries
/// esperto yields, and in which order, is left to `esperto_actions`.
#[verifier::external_body]
pub(crate) fn list_actions(cfg: &EspertoConfig) -> (r: Vec<ActionEntry>)
    ensures
        r@ == esperto_actions(*cfg),
{
    cfg.iter_actions().map(|(input, _, output)| (*input, *output)).collect()
}

/// The keys of each modifier group of a configuration, in the order in
/// which the groups are declared.
pub uninterp spec fn esperto_modifier_groups(cfg: esperto::config::Config<WiimoteEvent, OutputEvent>) -> Seq<Set<WiimoteEvent>>;

/// Reads the `keys` of each `ModifierDecl` of the configuration, in order.
/// The keys of a group are a `HashSet`, listed in its iteration order, so
/// the contract states which keys each group holds, not their order.
#[verifier::external_body]
pub(crate) fn list_modifier_groups(cfg: &EspertoConfig) -> (r: Vec<Vec<WiimoteEvent>>)
    ensures
        r@.len() == esperto_modifier_groups(*cfg).len(),
        forall|g: int, e: WiimoteEvent| 0 <= g < r@.len()
            ==> (#[trigger] r@[g]@.contains(e) <==> esperto_modifier_groups(*cfg)[g].contains(e)),
{
    cfg.modifiers.iter().map(|m| m.keys.iter().copied().collect()).collect()
}

/// Calls esperto's `Config::validate` and renders its warnings or its error
/// with their `Display` impls. The contract only names the result: which
/// configurations esperto refuses is left to `esperto_validation`.
#[verifier::external_body]
pub(crate) fn run_esperto_validation(cfg: &EspertoConfig) -> (r: Result<Vec<String>, String>)
    ensures
        match r {
            Ok(w) => esperto_validation(*cfg) == Ok::<Seq<Seq<char>>, Seq<char>>(w@.map_values(|s: String| s@)),
            Err(e) => esperto_validation(*cfg) == Err::<Seq<Seq<char>>, Seq<char>>(e@),
        },
{
    match cfg.validate() {
        Ok(warnings) => Ok(warnings.iter().map(|w| format!("{}", w)).collect()),
        Err(error) => Err(format!("{}", error)),
    }
}

/// Why a configuration is refused.
#[derive(Clone, Debug)]
pub enum ConfigError {
    /// esperto refused the combo configuration, for the reason given.
    Esperto(String),
    /// An absolute axis of the remote is mapped to a key.
    AxisToKey(WiimoteEvent, OutputEvent),
    /// A key of the remote is mapped to an absolute axis.
    KeyToAxis(WiimoteEvent, OutputEvent),
}

/// An action maps an axis to a key, or a key to an axis.
pub open spec fn is_mismatched(a: ActionEntry) -> bool {
    match a.1 {
        Some(o) => is_axis_event(a.0) != !is_key_code(o.code),
        None => false,
    }
}

/// The error that a mismatched action is reported with.
pub open spec fn mismatch_error(a: ActionEntry) -> ConfigError {
    if is_axis_event(a.0) {
        ConfigError::AxisToKey(a.0, a.1.unwrap())
    } else {
        ConfigError::KeyToAxis(a.0, a.1.unwrap())
    }
}

/// Checks that every action maps keys to keys and axes to axes; reports the
/// first that does not.
pub fn check_actions(actions: &Vec<ActionEntry>) -> (r: Result<(), ConfigError>)
    ensures
        action_check_result(actions@, r),
{
    let mut i: usize = 0;
    while i < actions.len()
        invariant
            i <= actions@.len(),
            forall|j: int| 0 <= j < i ==> !#[trigger] is_mismatched(actions@[j]),
        decreases actions@.len() - i,
    {
        let (input, output) = actions[i];
        proof {
            assert(actions@[i as int] == (input, output));
        }
        if let Some(output) = output {
            if input.is_axis() && output.code.is_key() {
                assert(is_mismatched(actions@[i as int]));
                return Err(ConfigError::AxisToKey(input, output));
            }
            if input.is_key() && output.code.is_axis() {
                assert(is_mismatched(actions@[i as int]));
                return Err(ConfigError::KeyToAxis(input, output));
            }
        }
        i += 1;
    }
    Ok(())
}

/// The key and axis codes that one output device must announce.
#[derive(Clone, Debug)]
pub struct Capabilities {
    pub keys: Vec<u16>,
    pub axes: Vec<u16>,
}

/// The raw codes that the actions route to output device `slot`, keys when
/// `keys` holds and axes otherwise.
pub open spec fn routed_codes(actions: Seq<ActionEntry>, slot: nat, keys: bool) -> Set<u16> {
    Set::new(|c: u16| exists|j: int| 0 <= j < actions.len() && #[trigger] routes_to(actions[j], slot, keys, c))
}

/// An action outputs raw code `c`, of the given kind, on device `slot`.
pub open spec fn routes_to(a: ActionEntry, slot: nat, keys: bool, c: u16) -> bool {
    match a.1 {
        Some(o) => slot_index(o.slot) == slot && is_key_code(o.code) == keys && raw_code(o.code) == c,
        None => false,
    }
}

/// The capabilities hold exactly the codes routed to `slot`, each once.
pub open spec fn announces(caps: Capabilities, actions: Seq<ActionEntry>, slot: nat) -> bool {
    &&& caps.keys@.no_duplicates()
    &&& caps.axes@.no_duplicates()
    &&& caps.keys@.to_set() == routed_codes(actions, slot, true)
    &&& caps.axes@.to_set() == routed_codes(actions, slot, false)
}

fn contains_code(v: &Vec<u16>, c: u16) -> (r: bool)
    ensures
        r == v@.contains(c),
{
    let mut i: usize = 0;
    while i < v.len()
        invariant
            i <= v@.len(),
            forall|j: int| 0 <= j < i ==> v@[j] != c,
        decreases v@.len() - i,
    {
        if v[i] == c {
            return true;
        }
        i += 1;
    }
    false
}

fn insert_code(v: &mut Vec<u16>, c: u16)
    requires
        old(v)@.no_duplicates(),
    ensures
        final(v)@.no_duplicates(),
        final(v)@.to_set() == old(v)@.to_set().insert(c),
{
    if !contains_code(v, c) {
        v.push(c);
        proof {
            assert(final(v)@.to_set() =~= old(v)@.to_set().insert(c)) by {
                assert forall|x: u16| #[trigger] final(v)@.contains(x) <==> old(v)@.contains(x) || x == c by {
                    if final(v)@.contains(x) {
                        let k = choose|k: int| 0 <= k < final(v)@.len() && final(v)@[k] == x;
                        if k < old(v)@.len() { assert(old(v)@[k] == x); }
                    }
                    if old(v)@.contains(x) {
                        let k = choose|k: int| 0 <= k < old(v)@.len() && old(v)@[k] == x;
                        assert(final(v)@[k] == x);
                    }
                    if x == c { assert(final(v)@[old(v)@.len() as int] == c); }
                }
            }
        }
    } else {
        assert(old(v)@.to_set() =~= old(v)@.to_set().insert(c));
    }
}

proof fn lemma_routed_step(actions: Seq<ActionEntry>, n: int, slot: nat, keys: bool)
    requires
        0 <= n < actions.len(),
    ensures
        routed_codes(actions.take(n + 1), slot, keys) == (match actions[n].1 {
            Some(o) => if slot_index(o.slot) == slot && is_key_code(o.code) == keys {
                routed_codes(actions.take(n), slot, keys).insert(raw_code(o.code))
            } else {
                routed_codes(actions.take(n), slot, keys)
            },
            None => routed_codes(actions.take(n), slot, keys),
        }),
{
    let prev = actions.take(n);
    let next = actions.take(n + 1);
    assert forall|c: u16| #[trigger] routed_codes(next, slot, keys).contains(c) <==>
        (match actions[n].1 {
            Some(o) => if slot_index(o.slot) == slot && is_key_code(o.code) == keys {
                routed_codes(prev, slot, keys).insert(raw_code(o.code))
            } else {
                routed_codes(prev, slot, keys)
            },
            None => routed_codes(prev, slot, keys),
        }).contains(c) by {
        if routed_codes(next, slot, keys).contains(c) {
            let j = choose|j: int| 0 <= j < next.len() && #[trigger] routes_to(next[j], slot, keys, c);
            if j < n {
                assert(prev[j] == next[j]);
                assert(routes_to(prev[j], slot, keys, c));
            }
        }
        if routed_codes(prev, slot, keys).contains(c) {
            let j = choose|j: int| 0 <= j < prev.len() && #[trigger] routes_to(prev[j], slot, keys, c);
            assert(next[j] == prev[j]);
            assert(routes_to(next[j], slot, keys, c));
        }
        assert(next[n] == actions[n]);
        if routes_to(actions[n], slot, keys, c) {
            assert(routes_to(next[n], slot, keys, c));
        }
    }
    assert(routed_codes(next, slot, keys) =~= (match actions[n].1 {
        Some(o) => if slot_index(o.slot) == slot && is_key_code(o.code) == keys {
            routed_codes(prev, slot, keys).insert(raw_code(o.code))
        } else {
            routed_codes(prev, slot, keys)
        },
        None => routed_codes(prev, slot, keys),
    }));
}

proof fn lemma_routed_empty(actions: Seq<ActionEntry>, slot: nat, keys: bool)
    ensures
        routed_codes(actions.take(0), slot, keys) == Set::<u16>::empty(),
{
    assert(routed_codes(actions.take(0), slot, keys) =~= Set::<u16>::empty());
}

/// For each of the four output devices, the key and axis codes that the
/// actions route to it: the devices that must be created, and what they
/// must announce. Entry `i` belongs to the device of index `i`.
pub fn capabilities_of(actions: &Vec<ActionEntry>) -> (r: Vec<Capabilities>)
    ensures
        r@.len() == 4,
        forall|i: int| 0 <= i < 4 ==> announces(#[trigger] r@[i], actions@, i as nat),
{
    let mut c0 = Capabilities { keys: Vec::new(), axes: Vec::new() };
    let mut c1 = Capabilities { keys: Vec::new(), axes: Vec::new() };
    let mut c2 = Capabilities { keys: Vec::new(), axes: Vec::new() };
    let mut c3 = Capabilities { keys: Vec::new(), axes: Vec::new() };
    proof {
        assert forall|s: nat, k: bool| routed_codes(actions@.take(0), s, k) == Set::<u16>::empty() by {
            lemma_routed_empty(actions@, s, k);
        }
        assert(c0.keys@.to_set() =~= Set::<u16>::empty());
        assert(c0.axes@.to_set() =~= Set::<u16>::empty());
        assert(c1.keys@.to_set() =~= Set::<u16>::empty());
        assert(c1.axes@.to_set() =~= Set::<u16>::empty());
        assert(c2.keys@.to_set() =~= Set::<u16>::empty());
        assert(c2.axes@.to_set() =~= Set::<u16>::empty());
        assert(c3.keys@.to_set() =~= Set::<u16>::empty());
        assert(c3.axes@.to_set() =~= Set::<u16>::empty());
    }
    let mut n: usize = 0;
    while n < actions.len()
        invariant
            n <= actions@.len(),
            announces(c0, actions@.take(n as int), 0),
            announces(c1, actions@.take(n as int), 1),
            announces(c2, actions@.take(n as int), 2),
            announces(c3, actions@.take(n as int), 3),
        decreases actions@.len() - n,
    {
        proof {
            assert forall|s: nat, k: bool| #[trigger] routed_codes(actions@.take(n + 1), s, k) == (match actions@[n as int].1 {
                Some(o) => if slot_index(o.slot) == s && is_key_code(o.code) == k {
                    routed_codes(actions@.take(n as int), s, k).insert(raw_code(o.code))
                } else {
                    routed_codes(actions@.take(n as int), s, k)
                },
                None => routed_codes(actions@.take(n as int), s, k),
            }) by {
                lemma_routed_step(actions@, n as int, s, k);
            }
        }
        let (_, output) = actions[n];
        if let Some(output) = output {
            let code: u16 = output.code.get_raw();
            let is_key = output.code.is_key();
            let target = match output.slot {
                crate::config::Slot::Slot1 => &mut c0,
                crate::config::Slot::Slot2 => &mut c1,
                crate::config::Slot::Slot3 => &mut c2,
                crate::config::Slot::Slot4 => &mut c3,
            };
            if is_key {
                insert_code(&mut target.keys, code);
            } else {
                insert_code(&mut target.axes, code);
            }
        }
        n += 1;
    }
    proof {
        assert(actions@.take(actions@.len() as int) =~= actions@);
    }
    vec![c0, c1, c2, c3]
}

/// Whether the action check reports `r` for `actions`: success when no action
/// is mismatched, else the error of the first mismatched action.
pub open spec fn action_check_result(actions: Seq<ActionEntry>, r: Result<(), ConfigError>) -> bool {
    &&& r is Ok <==> (forall|i: int| 0 <= i < actions.len() ==> !#[trigger] is_mismatched(actions[i]))
    &&& r is Err ==> exists|i: int|
            0 <= i < actions.len() && is_mismatched(#[trigger] actions[i])
            && (forall|j: int| 0 <= j < i ==> !#[trigger] is_mismatched(actions[j]))
            && r == Err::<(), ConfigError>(mismatch_error(actions[i]))
}

/// Validates a combo configuration: first esperto's own checks, then that
/// every action maps keys to keys and axes to axes. On success, returns
/// esperto's warnings.
pub fn validate_actions(cfg: &EspertoConfig) -> (r: Result<Vec<String>, ConfigError>)
    ensures
        match esperto_validation(*cfg) {
            Err(e) => r matches Err(ConfigError::Esperto(m)) && m@ == e,
            Ok(w) => {
                &&& r is Ok ==> r->Ok_0@.map_values(|s: String| s@) == w
                &&& action_check_result(esperto_actions(*cfg), match r {
                        Ok(_) => Ok(()),
                        Err(e) => Err(e),
                    })
            },
        },
{
    match run_esperto_validation(cfg) {
        Err(message) => Err(ConfigError::Esperto(message)),
        Ok(warnings) => {
            let actions = list_actions(cfg);
            match check_actions(&actions) {
                Ok(()) => Ok(warnings),
                Err(e) => Err(e),
            }
        },
    }
}

} // verus!
