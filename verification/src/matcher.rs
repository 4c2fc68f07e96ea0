//! Matching of the three input devices (buttons, IR camera, accelerometer)
//! that the kernel creates for each remote.
use vstd::prelude::*;

verus! {

/// The part of a remote that an input device reports.
#[derive(Clone, Copy, Debug, PartialEq, Eq, Structural)]
pub enum DeviceRole {
    Keys,
    Ir,
    Accel,
}

pub open spec fn role_of_name(name: Seq<char>) -> Option<DeviceRole> {
    if name == "Nintendo Wii Remote"@ {
        Some(DeviceRole::Keys)
    } else if name == "Nintendo Wii Remote IR"@ {
        Some(DeviceRole::Ir)
    } else if name == "Nintendo Wii Remote Accelerometer"@ {
        Some(DeviceRole::Accel)
    } else {
        None
    }
}

/// The part of the remote that an input device reports, by the device's
/// name; `None` for any other device.
pub fn device_role(name: &String) -> (r: Option<DeviceRole>)
    ensures
        r == role_of_name(name@),
{
    let keys = String::from_str("Nintendo Wii Remote");
    let ir = String::from_str("Nintendo Wii Remote IR");
    let accel = String::from_str("Nintendo Wii Remote Accelerometer");
    if *name == keys {
        Some(DeviceRole::Keys)
    } else if *name == ir {
        Some(DeviceRole::Ir)
    } else if *name == accel {
        Some(DeviceRole::Accel)
    } else {
        None
    }
}

pub open spec fn is_wiimote_id(vendor: Seq<char>, product: Seq<char>) -> bool {
    vendor == "057e"@ && (product == "0306"@ || product == "0330"@)
}

/// Whether a USB/Bluetooth vendor and product id belong to a Wii Remote
/// (vendor 057e, product 0306 or 0330).
pub fn is_wiimote(vendor: &String, product: &String) -> (r: bool)
    ensures
        r == is_wiimote_id(vendor@, product@),
{
    let nintendo = String::from_str("057e");
    let remote = String::from_str("0306");
    let remote_plus = String::from_str("0330");
    *vendor == nintendo && (*product == remote || *product == remote_plus)
}

/// The devices found so far for one remote.
pub struct Pending<D> {
    pub sysname: String,
    pub keys: Option<D>,
    pub ir: Option<D>,
    pub accel: Option<D>,
}

/// The devices found so far for a remote: buttons, IR camera, accelerometer.
pub type Found<D> = (Option<D>, Option<D>, Option<D>);

pub open spec fn found_of<D>(p: Pending<D>) -> Found<D> {
    (p.keys, p.ir, p.accel)
}

pub open spec fn is_complete<D>(f: Found<D>) -> bool {
    f.0 is Some && f.1 is Some && f.2 is Some
}

/// The devices of a remote after one more device was found in `role`.
pub open spec fn with_device<D>(f: Found<D>, role: DeviceRole, dev: D) -> Found<D> {
    match role {
        DeviceRole::Keys => (Some(dev), f.1, f.2),
        DeviceRole::Ir => (f.0, Some(dev), f.2),
        DeviceRole::Accel => (f.0, f.1, Some(dev)),
    }
}

/// The devices found so far, by remote.
pub open spec fn pending_map<D>(s: Seq<Pending<D>>) -> Map<Seq<char>, Found<D>>
    decreases s.len(),
{
    if s.len() == 0 {
        Map::empty()
    } else {
        pending_map(s.drop_last()).insert(s.last().sysname@, found_of(s.last()))
    }
}

pub open spec fn distinct_names<D>(s: Seq<Pending<D>>) -> bool {
    forall|i: int, j: int| 0 <= i < s.len() && 0 <= j < s.len() && i != j ==> s[i].sysname@ != s[j].sysname@
}

proof fn lemma_pending_dom<D>(s: Seq<Pending<D>>, k: Seq<char>)
    ensures
        pending_map(s).dom().contains(k) <==> exists|i: int| 0 <= i < s.len() && #[trigger] s[i].sysname@ == k,
    decreases s.len(),
{
    if s.len() > 0 {
        lemma_pending_dom(s.drop_last(), k);
        if pending_map(s).dom().contains(k) && s.last().sysname@ != k {
            let i = choose|i: int| 0 <= i < s.drop_last().len() && #[trigger] s.drop_last()[i].sysname@ == k;
            assert(s[i].sysname@ == k);
        }
        if exists|i: int| 0 <= i < s.len() && #[trigger] s[i].sysname@ == k {
            let i = choose|i: int| 0 <= i < s.len() && #[trigger] s[i].sysname@ == k;
            if i < s.len() - 1 {
                assert(s.drop_last()[i].sysname@ == k);
            }
        }
    }
}

proof fn lemma_pending_at<D>(s: Seq<Pending<D>>, i: int)
    requires
        distinct_names(s),
        0 <= i < s.len(),
    ensures
        pending_map(s).dom().contains(s[i].sysname@),
        pending_map(s)[s[i].sysname@] == found_of(s[i]),
    decreases s.len(),
{
    lemma_pending_dom(s, s[i].sysname@);
    if i < s.len() - 1 {
        assert(s.drop_last()[i] == s[i]);
        lemma_pending_at(s.drop_last(), i);
    }
}

proof fn lemma_pending_remove<D>(s: Seq<Pending<D>>, i: int)
    requires
        distinct_names(s),
        0 <= i < s.len(),
    ensures
        pending_map(s.remove(i)) == pending_map(s).remove(s[i].sysname@),
        distinct_names(s.remove(i)),
    decreases s.len(),
{
    let k = s[i].sysname@;
    assert(distinct_names(s.remove(i)));
    if i == s.len() - 1 {
        assert(s.remove(i) =~= s.drop_last());
        lemma_pending_dom(s.drop_last(), k);
        assert(!pending_map(s.drop_last()).dom().contains(k));
        assert(pending_map(s.remove(i)) =~= pending_map(s).remove(k));
    } else {
        let d = s.drop_last();
        assert(d[i] == s[i]);
        assert(distinct_names(d));
        lemma_pending_remove(d, i);
        assert(s.remove(i) =~= d.remove(i).push(s.last()));
        assert(s.remove(i).drop_last() =~= d.remove(i));
        assert(s.last().sysname@ != k);
        assert(pending_map(s.remove(i)) =~= pending_map(s).remove(k));
    }
}

/// Gathers the three input devices of each remote until all are found.
pub struct DeviceMatcher<D> {
    matches: Vec<Pending<D>>,
}

impl<D> DeviceMatcher<D> {
    /// The devices found so far for remotes not yet complete, by sysname.
    pub closed spec fn pending(&self) -> Map<Seq<char>, Found<D>> {
        pending_map(self.matches@)
    }

    /// Each remote has one entry, and none has all three devices yet.
    pub closed spec fn wf(&self) -> bool {
        &&& distinct_names(self.matches@)
        &&& forall|i: int| 0 <= i < self.matches@.len() ==> !is_complete(#[trigger] found_of(self.matches@[i]))
    }

    pub fn new() -> (r: DeviceMatcher<D>)
        ensures
            r.wf(),
            r.pending() == Map::<Seq<char>, Found<D>>::empty(),
    {
        DeviceMatcher { matches: Vec::new() }
    }

    /// Records a device found in `role` for the remote `sysname` (a device
    /// found again in a role replaces the earlier one). When the remote has
    /// all three devices, they are handed out and the remote forgotten.
    pub fn update(&mut self, dev: D, role: DeviceRole, sysname: String) -> (r: Option<(String, D, D, D)>)
        requires
            old(self).wf(),
        ensures
            final(self).wf(),
            ({
                let k = sysname@;
                let before = if old(self).pending().dom().contains(k) { old(self).pending()[k] } else { (None, None, None) };
                let after = with_device(before, role, dev);
                if is_complete(after) {
                    &&& r matches Some((name, keys, ir, accel)) && name@ == k
                        && after == (Some(keys), Some(ir), Some(accel))
                    &&& final(self).pending() == old(self).pending().remove(k)
                } else {
                    &&& r is None
                    &&& final(self).pending() == old(self).pending().insert(k, after)
                }
            }),
    {
        let mut i: usize = 0;
        let mut found = false;
        while !found && i < self.matches.len()
            invariant
                i <= self.matches@.len(),
                self.matches@ == old(self).matches@,
                forall|j: int| 0 <= j < i ==> #[trigger] self.matches@[j].sysname@ != sysname@,
                found ==> i < self.matches@.len() && self.matches@[i as int].sysname@ == sysname@,
            decreases self.matches@.len() - i + (if found { 0int } else { 1int }),
        {
            if self.matches[i].sysname == sysname {
                found = true;
            } else {
                i += 1;
            }
        }
        let ghost s = self.matches@;
        if found {
            proof {
                lemma_pending_at(s, i as int);
                lemma_pending_remove(s, i as int);
            }
            let entry = self.matches.remove(i);
            let Pending { sysname: name, keys, ir, accel } = entry;
            let (keys, ir, accel) = match role {
                DeviceRole::Keys => (Some(dev), ir, accel),
                DeviceRole::Ir => (keys, Some(dev), accel),
                DeviceRole::Accel => (keys, ir, Some(dev)),
            };
            if keys.is_some() && ir.is_some() && accel.is_some() {
                Some((name, keys.unwrap(), ir.unwrap(), accel.unwrap()))
            } else {
                let ghost rest = self.matches@;
                self.matches.push(Pending { sysname: name, keys, ir, accel });
                proof {
                    lemma_pending_dom(rest, sysname@);
                    assert(self.matches@.drop_last() =~= rest);
                    assert(pending_map(self.matches@) =~= pending_map(s).remove(sysname@).insert(sysname@, (keys, ir, accel)));
                    assert(pending_map(s).remove(sysname@).insert(sysname@, (keys, ir, accel)) =~= pending_map(s).insert(sysname@, (keys, ir, accel)));
                    assert forall|a: int, b: int| 0 <= a < self.matches@.len() && 0 <= b < self.matches@.len() && a != b
                        implies self.matches@[a].sysname@ != self.matches@[b].sysname@ by {
                        if a == rest.len() {
                            assert(self.matches@[b] == rest[b]);
                        } else if b == rest.len() {
                            assert(self.matches@[a] == rest[a]);
                        }
                    }
                    assert forall|j: int| 0 <= j < self.matches@.len() implies !is_complete(#[trigger] found_of(self.matches@[j])) by {
                        if j < rest.len() {
                            assert(self.matches@[j] == rest[j]);
                            assert(rest[j] == s.remove(i as int)[j]);
                        }
                    }
                }
                None
            }
        } else {
            proof {
                lemma_pending_dom(s, sysname@);
                assert(i as int == s.len());
            }
            let ghost name = sysname@;
            let (keys, ir, accel) = match role {
                DeviceRole::Keys => (Some(dev), None, None),
                DeviceRole::Ir => (None, Some(dev), None),
                DeviceRole::Accel => (None, None, Some(dev)),
            };
            self.matches.push(Pending { sysname, keys, ir, accel });
            proof {
                assert(self.matches@.drop_last() =~= s);
                assert forall|a: int, b: int| 0 <= a < self.matches@.len() && 0 <= b < self.matches@.len() && a != b
                    implies self.matches@[a].sysname@ != self.matches@[b].sysname@ by {
                    if a == s.len() {
                        assert(self.matches@[b] == s[b]);
                        assert(s[b].sysname@ != name);
                    } else if b == s.len() {
                        assert(self.matches@[a] == s[a]);
                        assert(s[a].sysname@ != name);
                    }
                }
                assert forall|j: int| 0 <= j < self.matches@.len() implies !is_complete(#[trigger] found_of(self.matches@[j])) by {
                    if j < s.len() {
                        assert(self.matches@[j] == s[j]);
                    }
                }
            }
            None
        }
    }
}

} // verus!
