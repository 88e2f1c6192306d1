//! The lifecycle manager's decisions, taken on what the hypervisor reported.
use vstd::prelude::*;
use vstd::string::*;
use crate::json::{HyperVisorInfo, KVMInfo, VirtualMachines};

verus! {

/// The text of one decimal digit.
pub open spec fn digit_char(d: nat) -> char {
    if d == 0 { '0' }
    else if d == 1 { '1' }
    else if d == 2 { '2' }
    else if d == 3 { '3' }
    else if d == 4 { '4' }
    else if d == 5 { '5' }
    else if d == 6 { '6' }
    else if d == 7 { '7' }
    else if d == 8 { '8' }
    else { '9' }
}

/// The decimal text of `n`, without leading zeros.
pub open spec fn decimal(n: nat) -> Seq<char>
    decreases n,
{
    if n < 10 {
        seq![digit_char(n)]
    } else {
        decimal(n / 10).push(digit_char(n % 10))
    }
}

/// The hypervisor's version number written as `major.minor.release`.
pub open spec fn version_text(v: nat) -> Seq<char> {
    decimal(v / 1000000) + seq!['.'] + decimal((v % 1000000) / 1000) + seq!['.']
        + decimal((v % 1000000) % 1000)
}

fn digit_str(d: u32) -> (r: &'static str)
    requires
        d < 10,
    ensures
        r@ == seq![digit_char(d as nat)],
{
    if d == 0 {
        proof { reveal_strlit("0"); }
        "0"
    } else if d == 1 {
        proof { reveal_strlit("1"); }
        "1"
    } else if d == 2 {
        proof { reveal_strlit("2"); }
        "2"
    } else if d == 3 {
        proof { reveal_strlit("3"); }
        "3"
    } else if d == 4 {
        proof { reveal_strlit("4"); }
        "4"
    } else if d == 5 {
        proof { reveal_strlit("5"); }
        "5"
    } else if d == 6 {
        proof { reveal_strlit("6"); }
        "6"
    } else if d == 7 {
        proof { reveal_strlit("7"); }
        "7"
    } else if d == 8 {
        proof { reveal_strlit("8"); }
        "8"
    } else {
        proof { reveal_strlit("9"); }
        "9"
    }
}

fn append_decimal(out: &mut String, n: u32)
    ensures
        final(out)@ == old(out)@ + decimal(n as nat),
    decreases n,
{
    if n >= 10 {
        append_decimal(out, n / 10);
    }
    out.append(digit_str(n % 10));
    proof {
        let high = if n >= 10 {
            decimal((n / 10) as nat)
        } else {
            Seq::empty()
        };
        assert(old(out)@ + decimal(n as nat) =~= old(out)@ + high + seq![digit_char((n % 10) as nat)]);
    }
}

/// Renders a raw hypervisor version number as `major.minor.release`.
pub fn format_version(v: u32) -> (r: String)
    ensures
        r@ == version_text(v as nat),
{
    let mut s = String::new();
    append_decimal(&mut s, v / 1000000);
    s.append(".");
    let rest: u32 = v % 1000000;
    append_decimal(&mut s, rest / 1000);
    s.append(".");
    append_decimal(&mut s, rest % 1000);
    proof {
        reveal_strlit(".");
        assert(s@ =~= version_text(v as nat));
    }
    s
}

/// The hypervisor's state code of a domain that is shut off.
pub const VIR_DOMAIN_SHUTOFF: u32 = 5;

/// A domain counts as running when its state code, masked by the shut-off
/// code, leaves exactly the lowest bit.
pub open spec fn running_state(state: Option<(u32, i32)>) -> bool {
    match state {
        Some(s) => s.0 & VIR_DOMAIN_SHUTOFF == 1,
        None => false,
    }
}

/// Decides from a domain's reported state whether it counts as running.
pub fn is_running(state: Option<(u32, i32)>) -> (r: bool)
    ensures
        r == running_state(state),
{
    match state {
        Some(s) => s.0 & VIR_DOMAIN_SHUTOFF == 1,
        None => false,
    }
}

/// What the hypervisor answered to each per-domain query; `None` where a
/// query failed.
pub struct DomainReport {
    pub name: Option<String>,
    pub state: Option<(u32, i32)>,
    pub max_memory: Option<u64>,
    pub max_vcpus: Option<u64>,
    pub autostart: Option<bool>,
    pub os_type: Option<String>,
}

/// The text or, where the query failed, the given default.
pub open spec fn text_or(s: Option<String>, default: Seq<char>) -> Seq<char> {
    match s {
        Some(t) => t@,
        None => default,
    }
}

/// The number or zero where the query failed.
pub open spec fn count_or_zero(n: Option<u64>) -> u64 {
    match n {
        Some(v) => v,
        None => 0,
    }
}

/// `vm` is the snapshot of the domain that `d` reports: each failed query
/// falls back to its default alone, and the vCPU count shows only while the
/// domain counts as running.
pub open spec fn describes(vm: VirtualMachines, d: DomainReport) -> bool {
    &&& vm.name@ == text_or(d.name, "no-name"@)
    &&& vm.state == match d.state {
        Some(s) => s,
        None => (0u32, 0i32),
    }
    &&& vm.memory == count_or_zero(d.max_memory)
    &&& vm.vcpu == if running_state(d.state) {
        count_or_zero(d.max_vcpus)
    } else {
        0
    }
    &&& vm.autostart == match d.autostart {
        Some(b) => b,
        None => false,
    }
    &&& vm.os_type@ == text_or(d.os_type, Seq::empty())
}

fn text_or_default(s: &Option<String>, default: &str) -> (r: String)
    ensures
        r@ == text_or(*s, default@),
{
    match s {
        Some(t) => t.clone(),
        None => String::from_str(default),
    }
}

fn count_or_default(n: Option<u64>) -> (r: u64)
    ensures
        r == count_or_zero(n),
{
    match n {
        Some(v) => v,
        None => 0,
    }
}

/// Builds the snapshot of one domain from the answers to its queries.
pub fn create_vm_info(d: &DomainReport) -> (vm: VirtualMachines)
    ensures
        describes(vm, *d),
{
    let name = text_or_default(&d.name, "no-name");
    proof { reveal_strlit("no-name"); }
    let state = match d.state {
        Some(s) => s,
        None => (0u32, 0i32),
    };
    let vcpu = if is_running(d.state) {
        count_or_default(d.max_vcpus)
    } else {
        0
    };
    let autostart = match d.autostart {
        Some(b) => b,
        None => false,
    };
    let os_type = text_or_default(&d.os_type, "");
    proof {
        reveal_strlit("");
        assert(""@ =~= Seq::<char>::empty());
    }
    VirtualMachines { name, state, memory: count_or_default(d.max_memory), vcpu, autostart, os_type }
}

/// A snapshot reports a nonzero vCPU count only for a domain that counts as
/// running, and zero for any other, whatever its configured count.
pub proof fn lemma_vcpu_only_while_running(vm: VirtualMachines, d: DomainReport)
    requires
        describes(vm, d),
    ensures
        vm.vcpu > 0 ==> running_state(d.state),
        !running_state(d.state) ==> vm.vcpu == 0,
{
}

/// Lists every domain that the enumeration returned, one snapshot each;
/// fails only where the enumeration itself failed.
pub fn get_domains(listing: Result<Vec<DomainReport>, String>) -> (r: Result<
    Vec<VirtualMachines>,
    String,
>)
    ensures
        match (listing, r) {
            (Err(e), Err(f)) => f == e,
            (Ok(doms), Ok(vms)) => vms@.len() == doms@.len() && forall|i: int|
                0 <= i < vms@.len() ==> describes(#[trigger] vms@[i], doms@[i]),
            _ => false,
        },
{
    match listing {
        Err(e) => Err(e),
        Ok(doms) => {
            let mut out: Vec<VirtualMachines> = Vec::new();
            let mut i: usize = 0;
            while i < doms.len()
                invariant
                    i <= doms@.len(),
                    out@.len() == i,
                    forall|k: int| 0 <= k < i ==> describes(#[trigger] out@[k], doms@[k]),
                decreases doms@.len() - i,
            {
                out.push(create_vm_info(&doms[i]));
                i = i + 1;
            }
            Ok(out)
        },
    }
}

/// Builds the hypervisor's identity from its reported type and raw version.
pub fn hypervisor_info(hv_type: String, hv_ver: u32) -> (r: HyperVisorInfo)
    ensures
        r.hypervisor@ == hv_type@,
        r.version@ == version_text(hv_ver as nat),
{
    HyperVisorInfo { hypervisor: hv_type, version: format_version(hv_ver) }
}

/// Why a lifecycle request failed, with the hypervisor's error text.
pub enum OpFailure {
    /// No domain of that name could be looked up.
    NotFound(String),
    /// The domain was found and the hypervisor refused the request.
    Rejected(String),
}

/// The message reported for a failed request on domain `name`: the
/// hypervisor's text, or a description of the failure where that is empty.
pub open spec fn failure_text(name: Seq<char>, f: OpFailure) -> Seq<char> {
    match f {
        OpFailure::NotFound(m) => if m@.len() > 0 {
            m@
        } else {
            "no domain named "@ + name
        },
        OpFailure::Rejected(m) => if m@.len() > 0 {
            m@
        } else {
            "the hypervisor refused the request for "@ + name
        },
    }
}

fn message_or(m: String, prefix: &str, name: &str) -> (r: String)
    requires
        prefix@.len() > 0,
    ensures
        r@ == if m@.len() > 0 { m@ } else { prefix@ + name@ },
        r@.len() > 0,
{
    if m.as_str().unicode_len() > 0 {
        m
    } else {
        String::from_str(prefix).concat(name)
    }
}

/// The outcome of a start, stop, suspend or resume request on domain `name`,
/// given whether the lookup and the request itself went through.
pub fn operation_result(name: &str, outcome: Result<u32, OpFailure>) -> (r: KVMInfo)
    ensures
        r.wf(),
        r.success == outcome.is_ok(),
        match outcome {
            Ok(_) => r.message.is_none(),
            Err(f) => r.message.is_some() && r.message.unwrap()@ == failure_text(name@, f),
        },
        !r.success ==> r.message.unwrap()@.len() > 0,
{
    match outcome {
        Ok(_) => KVMInfo { success: true, message: None },
        Err(OpFailure::NotFound(m)) => {
            proof { reveal_strlit("no domain named "); }
            KVMInfo { success: false, message: Some(message_or(m, "no domain named ", name)) }
        },
        Err(OpFailure::Rejected(m)) => {
            proof { reveal_strlit("the hypervisor refused the request for "); }
            KVMInfo {
                success: false,
                message: Some(message_or(m, "the hypervisor refused the request for ", name)),
            }
        },
    }
}

/// The names of the given items, with an empty name where one was not known.
pub open spec fn names_or_empty(items: Seq<Option<String>>) -> Seq<Seq<char>> {
    items.map_values(|n: Option<String>| text_or(n, Seq::empty()))
}

/// Lists the names of a domain's snapshots; fails only where the lookup or
/// the enumeration failed, with the hypervisor's message.
pub fn list_snapshots(listing: Result<Vec<Option<String>>, String>) -> (r: Result<Vec<String>, String>)
    ensures
        match (listing, r) {
            (Err(e), Err(f)) => f == e,
            (Ok(snaps), Ok(names)) => names@.map_values(|s: String| s@) == names_or_empty(snaps@),
            _ => false,
        },
{
    match listing {
        Err(e) => Err(e),
        Ok(snaps) => {
            let mut out: Vec<String> = Vec::new();
            let mut i: usize = 0;
            proof { reveal_strlit(""); }
            while i < snaps.len()
                invariant
                    i <= snaps@.len(),
                    out@.len() == i,
                    ""@ =~= Seq::<char>::empty(),
                    forall|k: int| 0 <= k < i ==> (#[trigger] out@[k])@ == text_or(snaps@[k], Seq::empty()),
                decreases snaps@.len() - i,
            {
                out.push(text_or_default(&snaps[i], ""));
                i = i + 1;
            }
            assert(out@.map_values(|s: String| s@) =~= names_or_empty(snaps@));
            Ok(out)
        },
    }
}

/// A node device as the hypervisor lists it: its name, if known, and the
/// names of its capability classes.
pub struct DeviceReport {
    pub name: Option<String>,
    pub caps: Vec<String>,
}

/// The capability classes whose devices a domain's device listing shows:
/// storage and virtual ports.
pub open spec fn listed_class(cap: Seq<char>) -> bool {
    cap == "storage"@ || cap == "vports"@
}

/// A device is listed when one of its capability classes is.
pub open spec fn listed_device(d: DeviceReport) -> bool {
    exists|i: int| 0 <= i < d.caps@.len() && listed_class(#[trigger] d.caps@[i]@)
}

/// The names of the listed devices among `devs`, in their order.
pub open spec fn listed_names(devs: Seq<DeviceReport>) -> Seq<Seq<char>>
    decreases devs.len(),
{
    if devs.len() == 0 {
        Seq::empty()
    } else {
        let rest = listed_names(devs.drop_last());
        if listed_device(devs.last()) {
            rest.push(text_or(devs.last().name, Seq::empty()))
        } else {
            rest
        }
    }
}

/// `name` is the name of one of the listed devices among `devs`.
pub open spec fn named_by_listed_device(devs: Seq<DeviceReport>, name: Seq<char>) -> bool {
    exists|i: int|
        0 <= i < devs.len() && listed_device(#[trigger] devs[i]) && name == text_or(
            devs[i].name,
            Seq::empty(),
        )
}

/// Every name in a device listing belongs to a device of a listed capability
/// class: devices of other classes never appear.
pub proof fn lemma_devices_of_listed_classes(devs: Seq<DeviceReport>)
    ensures
        forall|j: int|
            0 <= j < listed_names(devs).len() ==> named_by_listed_device(
                devs,
                #[trigger] listed_names(devs)[j],
            ),
    decreases devs.len(),
{
    if devs.len() > 0 {
        let init = devs.drop_last();
        lemma_devices_of_listed_classes(init);
        let rest = listed_names(init);
        assert forall|j: int| 0 <= j < listed_names(devs).len() implies named_by_listed_device(
            devs,
            #[trigger] listed_names(devs)[j],
        ) by {
            if j < rest.len() {
                assert(named_by_listed_device(init, rest[j]));
                let i = choose|i: int|
                    0 <= i < init.len() && listed_device(#[trigger] init[i]) && rest[j] == text_or(
                        init[i].name,
                        Seq::empty(),
                    );
                assert(devs[i] == init[i]);
            } else {
                let i = devs.len() - 1;
                assert(devs[i] == devs.last());
            }
        }
    }
}

fn is_listed_class(cap: &String) -> (r: bool)
    ensures
        r == listed_class(cap@),
{
    let storage = String::from_str("storage");
    let vports = String::from_str("vports");
    *cap == storage || *cap == vports
}

fn is_listed_device(d: &DeviceReport) -> (r: bool)
    ensures
        r == listed_device(*d),
{
    let mut i: usize = 0;
    while i < d.caps.len()
        invariant
            i <= d.caps@.len(),
            forall|k: int| 0 <= k < i ==> !listed_class(#[trigger] d.caps@[k]@),
        decreases d.caps@.len() - i,
    {
        if is_listed_class(&d.caps[i]) {
            return true;
        }
        i = i + 1;
    }
    false
}

/// Lists the names of the storage and virtual-port devices; fails only where
/// the lookup, the connection retrieval or the enumeration failed.
pub fn get_devices(listing: Result<Vec<DeviceReport>, String>) -> (r: Result<Vec<String>, String>)
    ensures
        match (listing, r) {
            (Err(e), Err(f)) => f == e,
            (Ok(devs), Ok(names)) => names@.map_values(|s: String| s@) == listed_names(devs@),
            _ => false,
        },
{
    match listing {
        Err(e) => Err(e),
        Ok(devs) => {
            let mut out: Vec<String> = Vec::new();
            let mut i: usize = 0;
            proof { reveal_strlit(""); }
            while i < devs.len()
                invariant
                    i <= devs@.len(),
                    ""@ =~= Seq::<char>::empty(),
                    out@.map_values(|s: String| s@) == listed_names(devs@.subrange(0, i as int)),
                decreases devs@.len() - i,
            {
                proof {
                    assert(devs@.subrange(0, i as int + 1).drop_last() =~= devs@.subrange(0, i as int));
                }
                if is_listed_device(&devs[i]) {
                    out.push(text_or_default(&devs[i].name, ""));
                }
                assert(out@.map_values(|s: String| s@) =~= listed_names(devs@.subrange(0, i as int + 1)));
                i = i + 1;
            }
            assert(devs@.subrange(0, devs@.len() as int) =~= devs@);
            Ok(out)
        },
    }
}

/// The outcome of asking for a domain's console output: the stream is
/// attached on the hypervisor's side and never handed back, so the request
/// always reports failure, with the hypervisor's message or, where that is
/// empty, a description.
pub fn get_console_out(name: &str, last_error: String) -> (r: Result<(), String>)
    ensures
        match r {
            Ok(_) => false,
            Err(m) => m@ == if last_error@.len() > 0 {
                last_error@
            } else {
                "console output is not available for "@ + name@
            },
        },
{
    proof { reveal_strlit("console output is not available for "); }
    Err(message_or(last_error, "console output is not available for ", name))
}

/// The answer to a request that this service does not implement.
pub fn not_implemented(name: &str) -> (r: String)
    ensures
        r@ == "Not Implemented, "@ + name@,
{
    String::from_str("Not Implemented, ").concat(name)
}

} // verus!
