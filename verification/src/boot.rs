//! What the guest and the hypervisor are started with: the boot script and
//! the hypervisor's configuration text.

use crate::config::Config;
use crate::layout::{
    console_log_path, console_log_path_of, image_path, image_path_of, tap_name, tap_name_of,
    TAP_PREFIX_LEN,
};
use crate::mac::{generate_mac, mac_of};
use crate::text::{append_joined, joined_lines};
use vstd::prelude::*;

verus! {

/// The boot script: enter the application directory, run the build commands
/// in order, run the application, power the guest off.
pub open spec fn init_script_of(build_commands: Seq<Seq<char>>, run_command: Seq<char>) -> Seq<
    char,
> {
    "#!/bin/bash\ncd /app\n"@ + joined_lines(build_commands, build_commands.len()) + "\n"@
        + run_command + "\npoweroff -f"@
}

/// The boot script for `cfg`.
pub fn init_script(cfg: &Config) -> (script: String)
    ensures
        script@ == init_script_of(cfg@.build_commands, cfg@.run_command),
{
    let mut script = String::from_str("#!/bin/bash\ncd /app\n");
    append_joined(&mut script, &cfg.build_commands);
    script.append("\n");
    script.append(cfg.run_command.as_str());
    script.append("\npoweroff -f");
    script
}

/// The hypervisor's configuration for the instance `id`: the shared kernel
/// with its boot arguments, the instance's image as writable root device, one
/// network interface on the instance's tap device with the address derived
/// from the id, and the instance's console log.
pub open spec fn boot_config_of(id: Seq<char>) -> Seq<char>
    recommends
        id.len() >= TAP_PREFIX_LEN,
{
    "{\n  \"boot-source\": {\n    \"kernel_image_path\": \"/mnt/vmlinux\",\n    \"boot_args\": \"console=ttyS0 reboot=k panic=1 pci=off\"\n  },\n  \"drives\": [\n    {\n      \"drive_id\": \"rootfs\",\n      \"path_on_host\": \""@
        + image_path_of(id)
        + "\",\n      \"is_root_device\": true,\n      \"is_read_only\": false\n    }\n  ],\n  \"network-interfaces\": [\n    {\n      \"iface_id\": \"eth0\",\n      \"host_dev_name\": \""@
        + tap_name_of(id) + "\",\n      \"guest_mac\": \""@ + mac_of(id)
        + "\"\n    }\n  ],\n  \"console-cfg\": {\n    \"file\": \""@ + console_log_path_of(id)
        + "\"\n  }\n}\n"@
}

/// The hypervisor's configuration text for `cfg`.
pub fn boot_config(cfg: &Config) -> (text: String)
    requires
        cfg.wf(),
    ensures
        text@ == boot_config_of(cfg@.id),
{
    let id = cfg.id.as_str();
    let mut text = String::from_str(
        "{\n  \"boot-source\": {\n    \"kernel_image_path\": \"/mnt/vmlinux\",\n    \"boot_args\": \"console=ttyS0 reboot=k panic=1 pci=off\"\n  },\n  \"drives\": [\n    {\n      \"drive_id\": \"rootfs\",\n      \"path_on_host\": \"",
    );
    text.append(image_path(id).as_str());
    text.append(
        "\",\n      \"is_root_device\": true,\n      \"is_read_only\": false\n    }\n  ],\n  \"network-interfaces\": [\n    {\n      \"iface_id\": \"eth0\",\n      \"host_dev_name\": \"",
    );
    text.append(tap_name(id).as_str());
    text.append("\",\n      \"guest_mac\": \"");
    text.append(generate_mac(id).as_str());
    text.append("\"\n    }\n  ],\n  \"console-cfg\": {\n    \"file\": \"");
    text.append(console_log_path(id).as_str());
    text.append("\"\n  }\n}\n");
    text
}

} // verus!
