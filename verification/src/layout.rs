//! Names derived from an instance id: registry keys, host paths and the tap
//! device. Every function here is a pure function of the id's text.

use crate::text::{enclose, prefixed};
use vstd::prelude::*;

verus! {

/// Length of the id prefix that names the tap device.
pub const TAP_PREFIX_LEN: usize = 8;

/// Length of a hyphenated instance id.
pub const ID_LEN: usize = 36;

/// A lower-case hexadecimal digit.
pub open spec fn is_lower_hex(c: char) -> bool {
    ('0' <= c && c <= '9') || ('a' <= c && c <= 'f')
}

/// The positions of an instance id that hold a hyphen.
pub open spec fn is_hyphen_position(i: int) -> bool {
    i == 8 || i == 13 || i == 18 || i == 23
}

/// What position `i` of an instance id may hold.
pub open spec fn fits_id_position(i: int, c: char) -> bool {
    if is_hyphen_position(i) {
        c == '-'
    } else {
        is_lower_hex(c)
    }
}

/// An instance id is 36 characters: lower-case hexadecimal digits in groups
/// of 8, 4, 4, 4 and 12, separated by hyphens.
pub open spec fn is_instance_id(id: Seq<char>) -> bool {
    &&& id.len() == ID_LEN
    &&& forall|i: int| 0 <= i < id.len() ==> fits_id_position(i, #[trigger] id[i])
}

/// Tells whether `id` has the shape of an instance id.
pub fn is_valid_instance_id(id: &str) -> (valid: bool)
    ensures
        valid == is_instance_id(id@),
{
    if id.unicode_len() != ID_LEN {
        return false;
    }
    let mut i: usize = 0;
    while i < ID_LEN
        invariant
            i <= ID_LEN,
            id@.len() == ID_LEN,
            forall|j: int| 0 <= j < i ==> fits_id_position(j, #[trigger] id@[j]),
        decreases ID_LEN - i,
    {
        let c = id.get_char(i);
        let hyphen_here = i == 8 || i == 13 || i == 18 || i == 23;
        let fits = if hyphen_here {
            c == '-'
        } else {
            ('0' <= c && c <= '9') || ('a' <= c && c <= 'f')
        };
        if !fits {
            return false;
        }
        i = i + 1;
    }
    true
}

/// Registry key of the persisted configuration of an instance.
pub open spec fn instance_key_of(id: Seq<char>) -> Seq<char> {
    "instance:"@ + id
}

/// Registry key whose presence marks an instance as already provisioned.
pub open spec fn vm_key_of(id: Seq<char>) -> Seq<char> {
    "vm:"@ + id
}

/// The shared, read-only base disk image.
pub open spec fn base_image_path_of() -> Seq<char> {
    "/mnt/sparklane/base.img"@
}

/// The directory that holds the per-instance disk images.
pub open spec fn images_dir_of() -> Seq<char> {
    "/mnt/vm-images"@
}

/// Disk image of one instance.
pub open spec fn image_path_of(id: Seq<char>) -> Seq<char> {
    "/mnt/vm-images/"@ + id + ".img"@
}

/// Directory on which the image of one instance is mounted.
pub open spec fn mount_dir_of(id: Seq<char>) -> Seq<char> {
    "/mnt/vm-usercode-"@ + id
}

/// Application directory inside the mounted image.
pub open spec fn app_dir_of(id: Seq<char>) -> Seq<char> {
    mount_dir_of(id) + "/app"@
}

/// Where a file of the code bundle is placed.
pub open spec fn app_file_path_of(id: Seq<char>, relative: Seq<char>) -> Seq<char> {
    app_dir_of(id) + "/"@ + relative
}

/// The boot script, one level above the application directory.
pub open spec fn init_script_path_of(id: Seq<char>) -> Seq<char> {
    app_dir_of(id) + "/../init.sh"@
}

/// The link through which the guest finds its first process.
pub open spec fn init_link_path_of(id: Seq<char>) -> Seq<char> {
    mount_dir_of(id) + "/init"@
}

/// What the init link points to, relative to the mounted root.
pub open spec fn init_link_target_of() -> Seq<char> {
    "init.sh"@
}

/// The hypervisor configuration file of one instance.
pub open spec fn boot_config_path_of(id: Seq<char>) -> Seq<char> {
    "/tmp/vm-"@ + id + ".json"@
}

/// The console log of one instance.
pub open spec fn console_log_path_of(id: Seq<char>) -> Seq<char> {
    "/tmp/firecracker-"@ + id + ".log"@
}

/// The hypervisor's control socket of one instance.
pub open spec fn api_socket_path_of(id: Seq<char>) -> Seq<char> {
    "/tmp/firecracker-"@ + id + ".sock"@
}

/// The tap device of one instance: `tap` and the first eight characters of
/// the id.
pub open spec fn tap_name_of(id: Seq<char>) -> Seq<char>
    recommends
        id.len() >= TAP_PREFIX_LEN,
{
    "tap"@ + id.subrange(0, TAP_PREFIX_LEN as int)
}

pub fn instance_key(id: &str) -> (key: String)
    ensures
        key@ == instance_key_of(id@),
{
    prefixed("instance:", id)
}

pub fn vm_key(id: &str) -> (key: String)
    ensures
        key@ == vm_key_of(id@),
{
    prefixed("vm:", id)
}

pub fn base_image_path() -> (path: String)
    ensures
        path@ == base_image_path_of(),
{
    String::from_str("/mnt/sparklane/base.img")
}

pub fn images_dir() -> (path: String)
    ensures
        path@ == images_dir_of(),
{
    String::from_str("/mnt/vm-images")
}

pub fn image_path(id: &str) -> (path: String)
    ensures
        path@ == image_path_of(id@),
{
    enclose("/mnt/vm-images/", id, ".img")
}

pub fn mount_dir(id: &str) -> (path: String)
    ensures
        path@ == mount_dir_of(id@),
{
    prefixed("/mnt/vm-usercode-", id)
}

pub fn app_dir(id: &str) -> (path: String)
    ensures
        path@ == app_dir_of(id@),
{
    enclose("/mnt/vm-usercode-", id, "/app")
}

pub fn app_file_path(id: &str, relative: &str) -> (path: String)
    ensures
        path@ == app_file_path_of(id@, relative@),
{
    let mut path = enclose("/mnt/vm-usercode-", id, "/app");
    path.append("/");
    path.append(relative);
    path
}

pub fn init_script_path(id: &str) -> (path: String)
    ensures
        path@ == init_script_path_of(id@),
{
    let mut path = enclose("/mnt/vm-usercode-", id, "/app");
    path.append("/../init.sh");
    path
}

pub fn init_link_path(id: &str) -> (path: String)
    ensures
        path@ == init_link_path_of(id@),
{
    enclose("/mnt/vm-usercode-", id, "/init")
}

pub fn boot_config_path(id: &str) -> (path: String)
    ensures
        path@ == boot_config_path_of(id@),
{
    enclose("/tmp/vm-", id, ".json")
}

pub fn console_log_path(id: &str) -> (path: String)
    ensures
        path@ == console_log_path_of(id@),
{
    enclose("/tmp/firecracker-", id, ".log")
}

pub fn api_socket_path(id: &str) -> (path: String)
    ensures
        path@ == api_socket_path_of(id@),
{
    enclose("/tmp/firecracker-", id, ".sock")
}

pub fn tap_name(id: &str) -> (name: String)
    requires
        id@.len() >= TAP_PREFIX_LEN,
    ensures
        name@ == tap_name_of(id@),
{
    prefixed("tap", id.substring_char(0, TAP_PREFIX_LEN))
}

/// Two instance ids with the same first eight characters share a tap device,
/// and only those do.
pub proof fn tap_name_follows_prefix(a: Seq<char>, b: Seq<char>)
    requires
        a.len() >= TAP_PREFIX_LEN,
        b.len() >= TAP_PREFIX_LEN,
    ensures
        tap_name_of(a) == tap_name_of(b) <==> a.subrange(0, TAP_PREFIX_LEN as int) == b.subrange(
            0,
            TAP_PREFIX_LEN as int,
        ),
{
    let pa = a.subrange(0, TAP_PREFIX_LEN as int);
    let pb = b.subrange(0, TAP_PREFIX_LEN as int);
    if tap_name_of(a) == tap_name_of(b) {
        let t = "tap"@;
        assert(pa =~= (t + pa).subrange(t.len() as int, (t + pa).len() as int));
        assert(pb =~= (t + pb).subrange(t.len() as int, (t + pb).len() as int));
    }
}

} // verus!
