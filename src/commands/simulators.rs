//! Simulator devices and the labels of their runtimes.
use crate::json::{as_text, field, get_field, Json};
use crate::parsing::text::{chars_of, literal_at, same_text};
use vstd::prelude::*;

verus! {

#[derive(Debug, Clone)]
pub struct SimulatorDevice {
    pub udid: String,
    pub name: String,
    pub runtime: String,
}

pub open spec fn runtime_prefix() -> Seq<char> {
    "com.apple.CoreSimulator.SimRuntime."@
}

pub open spec fn dots_for_hyphens(s: Seq<char>) -> Seq<char> {
    s.map_values(|c: char| if c == '-' { '.' } else { c })
}

/// A runtime key without the simulator-runtime prefix, with its hyphens
/// written as dots (`...SimRuntime.iOS-17-0` reads `iOS.17.0`); a key
/// without the prefix is kept as it is.
pub open spec fn runtime_label_of(key: Seq<char>) -> Seq<char> {
    if key.len() >= runtime_prefix().len() && key.subrange(0, runtime_prefix().len() as int)
        == runtime_prefix() {
        dots_for_hyphens(key.subrange(runtime_prefix().len() as int, key.len() as int))
    } else {
        key
    }
}

/// The label of a runtime key (see `runtime_label_of`).
pub fn runtime_label(key: &str) -> (r: String)
    ensures
        r@ == runtime_label_of(key@),
{
    let s = chars_of(key);
    if !literal_at(&s, 0, "com.apple.CoreSimulator.SimRuntime.") {
        return String::from_str(key);
    }
    proof {
        reveal_strlit("com.apple.CoreSimulator.SimRuntime.");
    }
    let n = s.len();
    let start: usize = 35;
    let mut out = String::new();
    let mut i: usize = start;
    while i < n
        invariant
            s@ == key@,
            n == s@.len(),
            start == runtime_prefix().len(),
            start <= i <= n,
            out@ == dots_for_hyphens(s@.subrange(start as int, i as int)),
        decreases n - i,
    {
        if s[i] == '-' {
            out.append(".");
        } else {
            out.append(key.substring_char(i, i + 1));
        }
        proof {
            reveal_strlit(".");
        }
        i = i + 1;
        assert(out@ =~= dots_for_hyphens(s@.subrange(start as int, i as int)));
    }
    out
}

pub struct DeviceView {
    pub udid: Seq<char>,
    pub name: Seq<char>,
    pub runtime: Seq<char>,
}

impl View for SimulatorDevice {
    type V = DeviceView;

    open spec fn view(&self) -> DeviceView {
        DeviceView { udid: self.udid@, name: self.name@, runtime: self.runtime@ }
    }
}

pub open spec fn device_views(ds: Seq<SimulatorDevice>) -> Seq<DeviceView> {
    ds.map_values(|d: SimulatorDevice| d@)
}

/// Text order: by code point, a proper prefix first.
pub open spec fn text_lt(a: Seq<char>, b: Seq<char>) -> bool
    decreases a.len(),
{
    if a.len() == 0 {
        b.len() > 0
    } else if b.len() == 0 {
        false
    } else if a[0] != b[0] {
        a[0] < b[0]
    } else {
        text_lt(a.drop_first(), b.drop_first())
    }
}

/// Devices are ordered by runtime label, then by name.
pub open spec fn device_lt(x: DeviceView, y: DeviceView) -> bool {
    text_lt(x.runtime, y.runtime) || (x.runtime == y.runtime && text_lt(x.name, y.name))
}

/// Where `x` goes in `s`: before the first device that it precedes.
pub open spec fn insert_pos(s: Seq<DeviceView>, x: DeviceView, i: int) -> int
    decreases s.len() - i,
{
    if i < 0 || i >= s.len() {
        s.len() as int
    } else if device_lt(x, s[i]) {
        i
    } else {
        insert_pos(s, x, i + 1)
    }
}

/// `s` sorted by `device_lt`, equal devices in the order they came.
pub open spec fn sort_devices(s: Seq<DeviceView>) -> Seq<DeviceView>
    decreases s.len(),
{
    if s.len() == 0 {
        Seq::empty()
    } else {
        let sorted = sort_devices(s.drop_last());
        sorted.insert(insert_pos(sorted, s.last(), 0), s.last())
    }
}

pub open spec fn text_or_empty(o: Option<Json>) -> Seq<char> {
    match as_text(o) {
        Some(t) => t,
        None => Seq::empty(),
    }
}

/// An entry of a runtime's device list: kept when it is an object marked
/// available, with a non-empty `udid` and `name`.
pub open spec fn device_of(item: Json, runtime: Seq<char>) -> Seq<DeviceView> {
    let udid = text_or_empty(field(item, "udid"@));
    let name = text_or_empty(field(item, "name"@));
    if item is Object && field(item, "isAvailable"@) == Some(Json::Bool(true)) && udid.len() > 0
        && name.len() > 0 {
        seq![DeviceView { udid, name, runtime }]
    } else {
        Seq::empty()
    }
}

pub open spec fn list_devices(items: Seq<Json>, runtime: Seq<char>) -> Seq<DeviceView>
    decreases items.len(),
{
    if items.len() == 0 {
        Seq::empty()
    } else {
        list_devices(items.drop_last(), runtime) + device_of(items.last(), runtime)
    }
}

/// The available devices of each runtime, runtime by runtime; a runtime
/// whose value is not a list has none.
pub open spec fn devices_in(entries: Seq<(String, Json)>) -> Seq<DeviceView>
    decreases entries.len(),
{
    if entries.len() == 0 {
        Seq::empty()
    } else {
        devices_in(entries.drop_last()) + match entries.last().1 {
            Json::Array(v) => list_devices(v@, runtime_label_of(entries.last().0@)),
            _ => Seq::empty(),
        }
    }
}

pub open spec fn missing_devices_message() -> Seq<char> {
    "Missing 'devices' in simctl output"@
}

fn text_less(a: &str, b: &str) -> (r: bool)
    ensures
        r == text_lt(a@, b@),
{
    let x = chars_of(a);
    let y = chars_of(b);
    let mut i: usize = 0;
    assert(a@.subrange(0, a@.len() as int) =~= a@);
    assert(b@.subrange(0, b@.len() as int) =~= b@);
    while i < x.len() && i < y.len() && x[i] == y[i]
        invariant
            x@ == a@,
            y@ == b@,
            i <= x@.len(),
            i <= y@.len(),
            text_lt(a@, b@) == text_lt(a@.subrange(i as int, a@.len() as int), b@.subrange(
                i as int,
                b@.len() as int,
            )),
        decreases x@.len() - i,
    {
        assert(a@.subrange(i as int, a@.len() as int).drop_first() =~= a@.subrange(
            i + 1,
            a@.len() as int,
        ));
        assert(b@.subrange(i as int, b@.len() as int).drop_first() =~= b@.subrange(
            i + 1,
            b@.len() as int,
        ));
        i = i + 1;
    }
    if i == x.len() {
        i < y.len()
    } else if i == y.len() {
        false
    } else {
        x[i] < y[i]
    }
}

fn device_less(x: &SimulatorDevice, y: &SimulatorDevice) -> (r: bool)
    ensures
        r == device_lt(x@, y@),
{
    text_less(x.runtime.as_str(), y.runtime.as_str()) || (same_text(
        x.runtime.as_str(),
        y.runtime.as_str(),
    ) && text_less(x.name.as_str(), y.name.as_str()))
}

/// Inserts `d` into `sorted` after every device that it does not precede.
fn insert_sorted(sorted: &mut Vec<SimulatorDevice>, d: SimulatorDevice)
    ensures
        device_views(final(sorted)@) == device_views(old(sorted)@).insert(
            insert_pos(device_views(old(sorted)@), d@, 0),
            d@,
        ),
{
    let ghost s = device_views(sorted@);
    let mut i: usize = 0;
    while i < sorted.len() && !device_less(&d, &sorted[i])
        invariant
            i <= sorted@.len(),
            s == device_views(sorted@),
            insert_pos(s, d@, 0) == insert_pos(s, d@, i as int),
        decreases sorted@.len() - i,
    {
        i = i + 1;
    }
    sorted.insert(i, d);
    assert(device_views(sorted@) =~= s.insert(i as int, d@));
}

fn push_device(out: &mut Vec<SimulatorDevice>, d: SimulatorDevice)
    ensures
        device_views(final(out)@) == device_views(old(out)@).push(d@),
{
    out.push(d);
    assert(device_views(out@) =~= device_views(old(out)@).push(d@));
}

fn text_field(item: &Json, key: &str) -> (r: String)
    ensures
        r@ == text_or_empty(field(*item, key@)),
{
    match get_field(item, key) {
        Some(Json::Str(s)) => s.clone(),
        _ => String::new(),
    }
}

fn available_device(item: &Json, runtime: &String) -> (r: Option<SimulatorDevice>)
    ensures
        match r {
            Some(d) => device_of(*item, runtime@) == seq![d@],
            None => device_of(*item, runtime@) == Seq::<DeviceView>::empty(),
        },
{
    match item {
        Json::Object(_) => {},
        _ => return None,
    }
    let available = match get_field(item, "isAvailable") {
        Some(Json::Bool(b)) => *b,
        _ => false,
    };
    if !available {
        return None;
    }
    let udid = text_field(item, "udid");
    let name = text_field(item, "name");
    if udid.as_str().unicode_len() == 0 || name.as_str().unicode_len() == 0 {
        return None;
    }
    Some(SimulatorDevice { udid, name, runtime: runtime.clone() })
}

/// The available simulator devices of a device listing, sorted by runtime
/// label and then by name (equal ones keep their listing order). A listing
/// without a `devices` object is an error.
pub fn collect_simulators(root: &Json) -> (r: Result<Vec<SimulatorDevice>, String>)
    ensures
        match field(*root, "devices"@) {
            Some(Json::Object(es)) => r matches Ok(ds) && device_views(ds@) == sort_devices(
                devices_in(es@),
            ),
            _ => r matches Err(m) && m@ == missing_devices_message(),
        },
{
    let es = match get_field(root, "devices") {
        Some(Json::Object(es)) => es,
        _ => {
            return Err(String::from_str("Missing 'devices' in simctl output"));
        },
    };
    let mut found: Vec<SimulatorDevice> = Vec::new();
    let mut k: usize = 0;
    while k < es.len()
        invariant
            k <= es@.len(),
            device_views(found@) == devices_in(es@.subrange(0, k as int)),
        decreases es@.len() - k,
    {
        let ghost before = device_views(found@);
        assert(es@.subrange(0, k + 1).drop_last() =~= es@.subrange(0, k as int));
        match &es[k].1 {
            Json::Array(items) => {
                let runtime = runtime_label(es[k].0.as_str());
                let mut n: usize = 0;
                assert(before + Seq::<DeviceView>::empty() =~= before);
                while n < items.len()
                    invariant
                        n <= items@.len(),
                        device_views(found@) == before + list_devices(
                            items@.subrange(0, n as int),
                            runtime@,
                        ),
                    decreases items@.len() - n,
                {
                    assert(items@.subrange(0, n + 1).drop_last() =~= items@.subrange(0, n as int));
                    match available_device(&items[n], &runtime) {
                        Some(d) => {
                            push_device(&mut found, d);
                        },
                        None => {},
                    }
                    n = n + 1;
                    assert(device_views(found@) =~= before + list_devices(
                        items@.subrange(0, n as int),
                        runtime@,
                    ));
                }
                assert(items@.subrange(0, n as int) =~= items@);
            },
            _ => {
                assert(before + Seq::<DeviceView>::empty() =~= before);
            },
        }
        k = k + 1;
    }
    assert(es@.subrange(0, k as int) =~= es@);
    let ghost all = device_views(found@);
    let mut sorted: Vec<SimulatorDevice> = Vec::new();
    let mut rest = found;
    let total = rest.len();
    let mut m: usize = 0;
    assert(all.subrange(0, 0) =~= Seq::<DeviceView>::empty());
    while rest.len() > 0
        invariant
            m + rest@.len() == all.len(),
            all.len() == total,
            device_views(rest@) == all.subrange(m as int, all.len() as int),
            device_views(sorted@) == sort_devices(all.subrange(0, m as int)),
        decreases rest@.len(),
    {
        let ghost before = rest@;
        let d = rest.remove(0);
        proof {
            assert(device_views(rest@) =~= device_views(before).drop_first());
            assert(device_views(before)[0] == d@);
            assert(all.subrange(0, m + 1).drop_last() =~= all.subrange(0, m as int));
            assert(d@ == all[m as int]);
        }
        insert_sorted(&mut sorted, d);
        m = m + 1;
        assert(device_views(rest@) =~= all.subrange(m as int, all.len() as int));
    }
    assert(all.subrange(0, m as int) =~= all);
    Ok(sorted)
}

} // verus!
