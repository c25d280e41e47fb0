//! Virtual machines: their MAC address, and the records stored for them
//! and their images.

use vstd::prelude::*;
use crate::error::{HttpResponseError, INTERNAL_SERVER_ERROR};
use crate::text::{hex_byte, hex_digit, push_hex_byte, string_from_chars};

verus! {

/// Six bytes written as `XX:XX:XX:XX:XX:XX`, upper-case hexadecimal.
pub open spec fn spec_mac_text(mac: Seq<u8>) -> Seq<char> {
    hex_byte(mac[0]) + seq![':'] + hex_byte(mac[1]) + seq![':'] + hex_byte(mac[2]) + seq![':']
        + hex_byte(mac[3]) + seq![':'] + hex_byte(mac[4]) + seq![':'] + hex_byte(mac[5])
}

/// A MAC address from six bytes, as `XX:XX:XX:XX:XX:XX`.
pub fn format_mac_addr(mac: [u8; 6]) -> (res: String)
    ensures
        res@ == spec_mac_text(mac@),
{
    let mut out: Vec<char> = Vec::new();
    let mut i: usize = 0;
    while i < 6
        invariant
            i <= 6,
            mac@.len() == 6,
            i == 0 ==> out@ == Seq::<char>::empty(),
            i >= 1 ==> out@ == spec_mac_prefix(mac@, i as int),
        decreases 6 - i,
    {
        if i > 0 {
            out.push(':');
        }
        push_hex_byte(&mut out, mac[i]);
        proof {
            if i == 0 {
                assert(out@ =~= spec_mac_prefix(mac@, 1));
            } else {
                assert(out@ =~= spec_mac_prefix(mac@, i + 1));
            }
        }
        i = i + 1;
    }
    assert(spec_mac_prefix(mac@, 6) =~= spec_mac_text(mac@)) by {
        reveal_with_fuel(spec_mac_prefix, 6);
    }
    string_from_chars(&out)
}

/// The first `n` bytes written as hexadecimal pairs joined by `:`.
pub open spec fn spec_mac_prefix(mac: Seq<u8>, n: int) -> Seq<char>
    decreases n,
{
    if n <= 1 {
        hex_byte(mac[0])
    } else {
        spec_mac_prefix(mac, n - 1) + seq![':'] + hex_byte(mac[n - 1])
    }
}

/// A MAC address is seventeen characters long.
pub proof fn law_mac_text_length(mac: Seq<u8>)
    requires
        mac.len() == 6,
    ensures
        spec_mac_text(mac).len() == 17,
{
}

/// State of a virtual machine.
#[derive(Debug, PartialEq, Eq, Structural, Clone, Copy)]
pub enum VirtualMachineState {
    Running,
    Stopped,
}

/// A request to create a virtual machine.
pub struct VmPartial {
    pub name: String,
    pub image: String,
    pub image_size: String,
    pub cpu: i64,
    pub memory: i64,
    pub network: String,
}

/// A stored virtual machine.
pub struct VmItem {
    pub key: String,
    pub name: String,
    pub state: VirtualMachineState,
    pub pid_path: String,
    pub image: String,
    pub memory: i64,
    pub cpu: i64,
    pub network: String,
    pub ip_addr: String,
    pub mac_addr: String,
}

/// The machine stored once started: keyed by its name, running, with the
/// address `0.0.0.0` until it reports one.
pub fn vm_item(item: VmPartial, pid_path: String, mac_addr: String) -> (res: VmItem)
    ensures
        res.key@ == item.name@,
        res.name@ == item.name@,
        res.state == VirtualMachineState::Running,
        res.pid_path@ == pid_path@,
        res.image@ == item.image@,
        res.memory == item.memory,
        res.cpu == item.cpu,
        res.network@ == item.network@,
        res.ip_addr@ == "0.0.0.0"@,
        res.mac_addr@ == mac_addr@,
{
    VmItem {
        key: item.name.clone(),
        name: item.name,
        state: VirtualMachineState::Running,
        pid_path,
        image: item.image,
        memory: item.memory,
        cpu: item.cpu,
        network: item.network,
        ip_addr: String::from_str("0.0.0.0"),
        mac_addr,
    }
}

/// A stored virtual machine image.
pub struct VmImageItem {
    pub key: String,
    pub name: String,
    pub size: i64,
    pub is_base: bool,
    pub parent_key: Option<String>,
}

/// The base image stored for a file of `file_size` bytes: keyed by its
/// name; a size beyond `i64::MAX` is answered with `500`.
pub fn vm_image_item(name: String, file_size: u64) -> (res: Result<VmImageItem, HttpResponseError>)
    ensures
        file_size <= i64::MAX ==> (res matches Ok(img) && img.key@ == name@ && img.name@ == name@
            && img.size == file_size && img.is_base && img.parent_key is None),
        file_size > i64::MAX ==> (res matches Err(e) && e.status == INTERNAL_SERVER_ERROR
            && e.msg@ == "Unable to convert u64 to i64 xdlol TryFromIntError(\n    (),\n)"@),
{
    if file_size > 0x7fff_ffff_ffff_ffffu64 {
        return Err(HttpResponseError {
            status: INTERNAL_SERVER_ERROR,
            msg: String::from_str("Unable to convert u64 to i64 xdlol TryFromIntError(\n    (),\n)"),
        });
    }
    Ok(VmImageItem { key: name.clone(), name, size: file_size as i64, is_base: true, parent_key: None })
}

/// Different hexadecimal values are written with different digits, each
/// one of `0`-`9`, `A`-`F`.
pub proof fn law_hex_digit_injective(x: nat, y: nat)
    requires
        x < 16,
        y < 16,
    ensures
        hex_digit(x) == hex_digit(y) <==> x == y,
        ('0' <= hex_digit(x) && hex_digit(x) <= '9') || ('A' <= hex_digit(x) && hex_digit(x) <= 'F'),
{
}

/// Two MAC addresses are written the same only when their six bytes are
/// the same: the text determines the address.
pub proof fn law_mac_text_injective(a: Seq<u8>, b: Seq<u8>)
    requires
        a.len() == 6,
        b.len() == 6,
        spec_mac_text(a) == spec_mac_text(b),
    ensures
        a == b,
{
    let t = spec_mac_text(a);
    assert forall|k: int| 0 <= k < 6 implies a[k] == b[k] by {
        assert(spec_mac_text(a)[3 * k] == hex_digit((a[k] / 16) as nat));
        assert(spec_mac_text(b)[3 * k] == hex_digit((b[k] / 16) as nat));
        assert(spec_mac_text(a)[3 * k + 1] == hex_digit((a[k] % 16) as nat));
        assert(spec_mac_text(b)[3 * k + 1] == hex_digit((b[k] % 16) as nat));
        law_hex_digit_injective((a[k] / 16) as nat, (b[k] / 16) as nat);
        law_hex_digit_injective((a[k] % 16) as nat, (b[k] % 16) as nat);
    }
    assert(a =~= b);
}

} // verus!
