use sparklane::boot::{boot_config, init_script};
use sparklane::config::Config;
use sparklane::mac::generate_mac;

const ID: &str = "123e4567-e89b-12d3-a456-426614174000";

fn config(build: &[&str], run: &str) -> Config {
    Config {
        id: ID.to_string(),
        sub: "quick-fox".to_string(),
        port: 8080,
        build_commands: build.iter().map(|c| c.to_string()).collect(),
        run_command: run.to_string(),
    }
}

#[test]
fn init_script_runs_build_then_run_then_poweroff() {
    let cfg = config(&["npm install", "npm run build"], "node server.js");
    assert_eq!(
        init_script(&cfg),
        "#!/bin/bash\ncd /app\nnpm install\nnpm run build\nnode server.js\npoweroff -f"
    );
}

#[test]
fn init_script_with_one_build_command() {
    let cfg = config(&["echo hi"], "python app.py");
    assert_eq!(
        init_script(&cfg),
        "#!/bin/bash\ncd /app\necho hi\npython app.py\npoweroff -f"
    );
}

#[test]
fn init_script_without_build_commands_keeps_an_empty_line() {
    let cfg = config(&[], "python app.py");
    assert_eq!(
        init_script(&cfg),
        "#!/bin/bash\ncd /app\n\npython app.py\npoweroff -f"
    );
}

#[test]
fn init_script_keeps_the_order_of_the_build_commands() {
    let cfg = config(&["c", "a", "b"], "run");
    let script = init_script(&cfg);
    let lines: Vec<&str> = script.lines().collect();
    assert_eq!(lines, vec!["#!/bin/bash", "cd /app", "c", "a", "b", "run", "poweroff -f"]);
}

#[test]
fn boot_config_is_the_expected_text() {
    let cfg = config(&["echo hi"], "python app.py");
    let expected = format!(
        "{{\n  \"boot-source\": {{\n    \"kernel_image_path\": \"/mnt/vmlinux\",\n    \"boot_args\": \"console=ttyS0 reboot=k panic=1 pci=off\"\n  }},\n  \"drives\": [\n    {{\n      \"drive_id\": \"rootfs\",\n      \"path_on_host\": \"/mnt/vm-images/{id}.img\",\n      \"is_root_device\": true,\n      \"is_read_only\": false\n    }}\n  ],\n  \"network-interfaces\": [\n    {{\n      \"iface_id\": \"eth0\",\n      \"host_dev_name\": \"tap123e4567\",\n      \"guest_mac\": \"AA:FC:50:F5:4E:C0\"\n    }}\n  ],\n  \"console-cfg\": {{\n    \"file\": \"/tmp/firecracker-{id}.log\"\n  }}\n}}\n",
        id = ID
    );
    assert_eq!(boot_config(&cfg), expected);
}

#[test]
fn boot_config_is_json_with_the_fixed_members() {
    let cfg = config(&["echo hi"], "python app.py");
    let text = boot_config(&cfg);
    let doc: serde_json::Value = serde_json::from_str(&text).unwrap();
    assert_eq!(doc["boot-source"]["kernel_image_path"].as_str(), Some("/mnt/vmlinux"));
    assert_eq!(
        doc["boot-source"]["boot_args"].as_str(),
        Some("console=ttyS0 reboot=k panic=1 pci=off")
    );
    let drive = &doc["drives"][0];
    assert_eq!(drive["drive_id"].as_str(), Some("rootfs"));
    assert_eq!(
        drive["path_on_host"].as_str(),
        Some("/mnt/vm-images/123e4567-e89b-12d3-a456-426614174000.img")
    );
    assert_eq!(drive["is_root_device"].as_bool(), Some(true));
    assert_eq!(drive["is_read_only"].as_bool(), Some(false));
    assert_eq!(doc["drives"].as_array().unwrap().len(), 1);
    let nic = &doc["network-interfaces"][0];
    assert_eq!(nic["iface_id"].as_str(), Some("eth0"));
    assert_eq!(nic["host_dev_name"].as_str(), Some("tap123e4567"));
    assert_eq!(nic["guest_mac"].as_str(), Some(generate_mac(ID).as_str()));
    assert_eq!(doc["network-interfaces"].as_array().unwrap().len(), 1);
    assert_eq!(
        doc["console-cfg"]["file"].as_str(),
        Some("/tmp/firecracker-123e4567-e89b-12d3-a456-426614174000.log")
    );
}

#[test]
fn config_with_a_malformed_id_is_not_well_formed() {
    let mut cfg = config(&[], "run");
    assert!(cfg.is_well_formed());
    cfg.id = "short".to_string();
    assert!(!cfg.is_well_formed());
}
