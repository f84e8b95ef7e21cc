//! Static catalog of supported devices.

use vstd::prelude::*;
use crate::types::{DeviceId, ProductId, VendorId};

verus! {

/// Which protocol family a device uses.
#[derive(Debug, Clone, Copy, PartialEq, Eq, Structural)]
pub enum ProtocolFamily {
    /// Older headsets: VOID, HS60, HS70, etc.
    Legacy,
    /// Newer headsets: HS80, HS55 Wireless Core, etc.
    Bragi,
}

/// Static device catalog entry.
#[derive(Debug, Clone, Copy)]
pub struct DeviceInfo {
    /// The USB device ID (dongle/receiver PID for wireless devices).
    pub id: DeviceId,
    /// The paired/wireless headset PID (if different from dongle).
    pub paired_pid: Option<ProductId>,
    /// Human-readable device name.
    pub name: &'static str,
    /// Protocol family.
    pub protocol: ProtocolFamily,
}

/// A catalog entry for a Corsair device.
pub open spec fn corsair_device(pid: u16, paired: u16, name: &'static str, protocol: ProtocolFamily) -> DeviceInfo {
    DeviceInfo {
        id: DeviceId { vid: VendorId(0x1B1C), pid: ProductId(pid) },
        paired_pid: Some(ProductId(paired)),
        name,
        protocol,
    }
}

/// All known devices, in catalog order.
pub open spec fn known_devices() -> Seq<DeviceInfo> {
    seq![
        corsair_device(0x0A51, 0x0A50, "VOID RGB Elite Wireless (Carbon)", ProtocolFamily::Legacy),
        corsair_device(0x0A55, 0x0A54, "VOID RGB Elite Wireless (White)", ProtocolFamily::Legacy),
        corsair_device(0x0A75, 0x0A74, "VOID RGB Elite Wireless (Grey)", ProtocolFamily::Legacy),
        corsair_device(0x0A2B, 0x0A2A, "VOID Pro Wireless (Carbon)", ProtocolFamily::Legacy),
        corsair_device(0x0A6B, 0x0A69, "HS80 RGB Wireless", ProtocolFamily::Bragi),
    ]
}

/// The first entry of `s` whose dongle PID is `pid`.
pub open spec fn find_by_pid(s: Seq<DeviceInfo>, pid: ProductId) -> Option<DeviceInfo>
    decreases s.len(),
{
    if s.len() == 0 {
        None
    } else if s[0].id.pid == pid {
        Some(s[0])
    } else {
        find_by_pid(s.drop_first(), pid)
    }
}

fn entry(pid: u16, paired: u16, name: &'static str, protocol: ProtocolFamily) -> (d: DeviceInfo)
    ensures
        d == corsair_device(pid, paired, name, protocol),
{
    DeviceInfo {
        id: DeviceId::corsair(pid),
        paired_pid: Some(ProductId(paired)),
        name,
        protocol,
    }
}

/// VOID RGB Elite Wireless (Carbon).
pub fn void_elite_wireless_carbon() -> (d: DeviceInfo)
    ensures
        d == known_devices()[0],
{
    entry(0x0A51, 0x0A50, "VOID RGB Elite Wireless (Carbon)", ProtocolFamily::Legacy)
}

/// VOID RGB Elite Wireless (White).
pub fn void_elite_wireless_white() -> (d: DeviceInfo)
    ensures
        d == known_devices()[1],
{
    entry(0x0A55, 0x0A54, "VOID RGB Elite Wireless (White)", ProtocolFamily::Legacy)
}

/// VOID RGB Elite Wireless (Grey).
pub fn void_elite_wireless_grey() -> (d: DeviceInfo)
    ensures
        d == known_devices()[2],
{
    entry(0x0A75, 0x0A74, "VOID RGB Elite Wireless (Grey)", ProtocolFamily::Legacy)
}

/// VOID Pro Wireless (Carbon).
pub fn void_pro_wireless_carbon() -> (d: DeviceInfo)
    ensures
        d == known_devices()[3],
{
    entry(0x0A2B, 0x0A2A, "VOID Pro Wireless (Carbon)", ProtocolFamily::Legacy)
}

/// HS80 RGB Wireless (Bragi protocol), found by its dongle PID 0x0A6B; the
/// headset itself is 0x0A69.
pub fn hs80_wireless() -> (d: DeviceInfo)
    ensures
        d == known_devices()[4],
{
    entry(0x0A6B, 0x0A69, "HS80 RGB Wireless", ProtocolFamily::Bragi)
}

/// All known devices.
pub fn catalog() -> (c: Vec<DeviceInfo>)
    ensures
        c@ == known_devices(),
{
    let mut c: Vec<DeviceInfo> = Vec::new();
    c.push(void_elite_wireless_carbon());
    c.push(void_elite_wireless_white());
    c.push(void_elite_wireless_grey());
    c.push(void_pro_wireless_carbon());
    c.push(hs80_wireless());
    assert(c@ =~= known_devices());
    c
}

/// Look up a device by its dongle/receiver PID.
pub fn lookup_by_pid(pid: ProductId) -> (d: Option<DeviceInfo>)
    ensures
        d == find_by_pid(known_devices(), pid),
{
    let c = catalog();
    let mut i: usize = 0;
    assert(c@.skip(0) =~= c@);
    while i < c.len()
        invariant
            c@ == known_devices(),
            i <= c@.len(),
            find_by_pid(known_devices(), pid) == find_by_pid(c@.skip(i as int), pid),
        decreases c@.len() - i,
    {
        assert(c@.skip(i as int).drop_first() =~= c@.skip(i as int + 1));
        if c[i].id.pid == pid {
            return Some(c[i]);
        }
        i = i + 1;
    }
    None
}

/// Every catalog entry is found by its own dongle PID: no two entries share
/// a PID, so a lookup never returns another device.
pub proof fn lemma_catalog_lookup(i: int)
    requires
        0 <= i < known_devices().len(),
    ensures
        find_by_pid(known_devices(), known_devices()[i].id.pid) == Some(known_devices()[i]),
{
    let c = known_devices();
    reveal_with_fuel(find_by_pid, 6);
    assert(c.drop_first() =~= seq![c[1], c[2], c[3], c[4]]);
    assert(c.drop_first().drop_first() =~= seq![c[2], c[3], c[4]]);
    assert(c.drop_first().drop_first().drop_first() =~= seq![c[3], c[4]]);
    assert(c.drop_first().drop_first().drop_first().drop_first() =~= seq![c[4]]);
}

/// The catalog, entry by entry, as the lookup by dongle PID finds it (all
/// under Corsair's vendor ID 0x1B1C):
/// 0x0A51 VOID RGB Elite Wireless (Carbon), paired 0x0A50, Legacy;
/// 0x0A55 VOID RGB Elite Wireless (White), paired 0x0A54, Legacy;
/// 0x0A75 VOID RGB Elite Wireless (Grey), paired 0x0A74, Legacy;
/// 0x0A2B VOID Pro Wireless (Carbon), paired 0x0A2A, Legacy;
/// 0x0A6B HS80 RGB Wireless, paired 0x0A69, Bragi.
/// No other PID is found, and only the HS80 speaks Bragi.
pub proof fn lemma_catalog_entries(pid: u16)
    ensures
        find_by_pid(known_devices(), ProductId(0x0A51)) matches Some(d) && d.id.vid == VendorId(0x1B1C)
            && d.paired_pid == Some(ProductId(0x0A50)) && d.name@ == "VOID RGB Elite Wireless (Carbon)"@
            && d.protocol == ProtocolFamily::Legacy,
        find_by_pid(known_devices(), ProductId(0x0A55)) matches Some(d) && d.id.vid == VendorId(0x1B1C)
            && d.paired_pid == Some(ProductId(0x0A54)) && d.name@ == "VOID RGB Elite Wireless (White)"@
            && d.protocol == ProtocolFamily::Legacy,
        find_by_pid(known_devices(), ProductId(0x0A75)) matches Some(d) && d.id.vid == VendorId(0x1B1C)
            && d.paired_pid == Some(ProductId(0x0A74)) && d.name@ == "VOID RGB Elite Wireless (Grey)"@
            && d.protocol == ProtocolFamily::Legacy,
        find_by_pid(known_devices(), ProductId(0x0A2B)) matches Some(d) && d.id.vid == VendorId(0x1B1C)
            && d.paired_pid == Some(ProductId(0x0A2A)) && d.name@ == "VOID Pro Wireless (Carbon)"@
            && d.protocol == ProtocolFamily::Legacy,
        find_by_pid(known_devices(), ProductId(0x0A6B)) matches Some(d) && d.id.vid == VendorId(0x1B1C)
            && d.paired_pid == Some(ProductId(0x0A69)) && d.name@ == "HS80 RGB Wireless"@
            && d.protocol == ProtocolFamily::Bragi,
        find_by_pid(known_devices(), ProductId(pid)) is Some
            <==> (pid == 0x0A51 || pid == 0x0A55 || pid == 0x0A75 || pid == 0x0A2B || pid == 0x0A6B),
        find_by_pid(known_devices(), ProductId(pid)) matches Some(d)
            ==> (d.protocol == ProtocolFamily::Bragi <==> pid == 0x0A6B),
{
    let c = known_devices();
    reveal_with_fuel(find_by_pid, 6);
    assert(c.drop_first() =~= seq![c[1], c[2], c[3], c[4]]);
    assert(c.drop_first().drop_first() =~= seq![c[2], c[3], c[4]]);
    assert(c.drop_first().drop_first().drop_first() =~= seq![c[3], c[4]]);
    assert(c.drop_first().drop_first().drop_first().drop_first() =~= seq![c[4]]);
    assert(c.drop_first().drop_first().drop_first().drop_first().drop_first() =~= Seq::<DeviceInfo>::empty());
}

} // verus!
