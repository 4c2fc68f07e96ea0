//! Translation of combo outputs into events of the output devices, with
//! the centering and parking values of the output axes.
use vstd::prelude::*;
use crate::codes;
use crate::config::{raw_code, OutputCodes};
use crate::routing::Kind;

verus! {

#[verifier::external_type_specification]
#[verifier::external_body]
#[verifier::reject_recursive_types(K)]
#[verifier::reject_recursive_types(V)]
pub struct ExFzScalarMap<K, V>(frozen_collections::FzScalarMap<K, V>);

/// What a frozen map of axis codes to values holds.
pub uninterp spec fn axis_table_contents(table: frozen_collections::FzScalarMap<u16, i32>) -> Map<u16, i32>;

/// The map that a list of entries describes when a later entry for a key
/// replaces an earlier one.
pub open spec fn last_entry_wins(entries: Seq<(u16, i32)>) -> Map<u16, i32>
    decreases entries.len(),
{
    if entries.len() == 0 {
        Map::empty()
    } else {
        last_entry_wins(entries.drop_last()).insert(entries.last().0, entries.last().1)
    }
}

/// Calls `FzScalarMap::new`. Its documentation and source (a stable sort by
/// key, then dropping every entry followed by one with the same key) keep,
/// of duplicate keys, the entry that comes last in the input.
#[verifier::external_body]
fn frozen_axis_table(entries: Vec<(u16, i32)>) -> (r: frozen_collections::FzScalarMap<u16, i32>)
    ensures
        axis_table_contents(r) == last_entry_wins(entries@),
{
    frozen_collections::FzScalarMap::new(entries)
}

/// Calls `FzScalarMap::get`: the value stored under `key`, if any.
#[verifier::external_body]
fn frozen_axis_lookup(table: &frozen_collections::FzScalarMap<u16, i32>, key: u16) -> (r: Option<i32>)
    ensures
        r == (if axis_table_contents(*table).dom().contains(key) {
            Some(axis_table_contents(*table)[key])
        } else {
            None::<i32>
        }),
{
    table.get(&key).copied()
}

/// Values of output axes by their raw code, for centering or parking.
pub struct AxisTable {
    pub table: frozen_collections::FzScalarMap<u16, i32>,
}

/// The raw codes of configured axis values, in order.
pub open spec fn raw_entries(entries: Seq<(OutputCodes, i32)>) -> Seq<(u16, i32)> {
    entries.map_values(|e: (OutputCodes, i32)| (raw_code(e.0), e.1))
}

impl AxisTable {
    pub closed spec fn contents(&self) -> Map<u16, i32> {
        axis_table_contents(self.table)
    }

    /// Builds the table of configured axis values, keyed by raw code; of two
    /// entries for one code, the later one is kept.
    pub fn new(entries: &Vec<(OutputCodes, i32)>) -> (r: AxisTable)
        ensures
            r.contents() == last_entry_wins(raw_entries(entries@)),
    {
        let mut raw: Vec<(u16, i32)> = Vec::new();
        let mut i: usize = 0;
        while i < entries.len()
            invariant
                i <= entries@.len(),
                raw@ == raw_entries(entries@.take(i as int)),
            decreases entries@.len() - i,
        {
            let (code, value) = entries[i];
            raw.push((code.get_raw(), value));
            proof {
                assert(entries@.take(i + 1) =~= entries@.take(i as int).push(entries@[i as int]));
                assert(raw_entries(entries@.take(i + 1)) =~= raw_entries(entries@.take(i as int)).push((raw_code(code), value)));
            }
            i += 1;
        }
        proof {
            assert(entries@.take(entries@.len() as int) =~= entries@);
        }
        AxisTable { table: frozen_axis_table(raw) }
    }

    /// The value configured for axis `code`, if any.
    pub fn get(&self, code: u16) -> (r: Option<i32>)
        ensures
            r == (if self.contents().dom().contains(code) { Some(self.contents()[code]) } else { None::<i32> }),
    {
        frozen_axis_lookup(&self.table, code)
    }
}

/// An event to write to an output device: event type, code and value.
#[derive(Clone, Copy, Debug, PartialEq, Eq, Structural)]
pub struct DeviceEvent {
    pub event_type: u16,
    pub code: u16,
    pub value: i32,
}

/// The axis event that a table gives for `code`, if it holds a value.
pub open spec fn table_event(contents: Map<u16, i32>, code: u16) -> Option<DeviceEvent> {
    if contents.dom().contains(code) {
        Some(DeviceEvent { event_type: codes::EV_ABS, code, value: contents[code] })
    } else {
        None
    }
}

/// The output device event of a combo output: keys are pressed (value 1)
/// on `Down` and released (value 0) otherwise; axes take the new value on
/// `AxisUpdate`, their centering value on `AxisEngage` and their parking
/// value on `AxisDisengage`, where one is configured; other axis events
/// produce nothing.
pub open spec fn output_event(code: OutputCodes, kind: Kind, value: i32,
    centering: Map<u16, i32>, parking: Map<u16, i32>) -> Option<DeviceEvent>
{
    match code {
        OutputCodes::Key(k) | OutputCodes::CustomKey(k) =>
            Some(DeviceEvent { event_type: codes::EV_KEY, code: k, value: if kind == Kind::Down { 1 } else { 0 } }),
        OutputCodes::Axis(a) | OutputCodes::CustomAxis(a) => match kind {
            Kind::AxisUpdate => Some(DeviceEvent { event_type: codes::EV_ABS, code: a, value }),
            Kind::AxisEngage => table_event(centering, a),
            Kind::AxisDisengage => table_event(parking, a),
            _ => None,
        },
    }
}

fn axis_value_event(table: &AxisTable, code: u16) -> (r: Option<DeviceEvent>)
    ensures
        r == table_event(table.contents(), code),
{
    match table.get(code) {
        Some(v) => Some(DeviceEvent { event_type: codes::EV_ABS, code, value: v }),
        None => None,
    }
}

/// Translates a combo output event into the event to write to its output
/// device, if any.
pub fn translate_output(code: OutputCodes, kind: Kind, value: i32, centering: &AxisTable, parking: &AxisTable) -> (r: Option<DeviceEvent>)
    ensures
        r == output_event(code, kind, value, centering.contents(), parking.contents()),
{
    match code {
        OutputCodes::Key(k) | OutputCodes::CustomKey(k) => {
            let pressed: i32 = match kind {
                Kind::Down => 1,
                _ => 0,
            };
            Some(DeviceEvent { event_type: codes::EV_KEY, code: k, value: pressed })
        },
        OutputCodes::Axis(a) | OutputCodes::CustomAxis(a) => match kind {
            Kind::AxisUpdate => Some(DeviceEvent { event_type: codes::EV_ABS, code: a, value }),
            Kind::AxisEngage => axis_value_event(centering, a),
            Kind::AxisDisengage => axis_value_event(parking, a),
            _ => None,
        },
    }
}

} // verus!
