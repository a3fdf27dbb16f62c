use jupyter_kernel::errors::KernelError;
use jupyter_kernel::{Kernel, KernelConfig};

const CONNECTION: &str = r#"{
  "control_port": 50160,
  "shell_port": 57503,
  "transport": "tcp",
  "signature_scheme": "hmac-sha256",
  "stdin_port": 52597,
  "hb_port": 42540,
  "ip": "127.0.0.1",
  "iopub_port": 40885,
  "key": "a0436f6c-1916-498b-8eb9-e81ab9368e84"
}"#;

#[test]
fn reads_connection_file() {
    let c = KernelConfig::from_reader(CONNECTION.as_bytes()).unwrap();
    assert_eq!(c.control_port, 50160);
    assert_eq!(c.shell_port, 57503);
    assert_eq!(c.transport, "tcp");
    assert_eq!(c.signature_scheme, "hmac-sha256");
    assert_eq!(c.stdin_port, 52597);
    assert_eq!(c.hb_port, 42540);
    assert_eq!(c.ip, "127.0.0.1");
    assert_eq!(c.iopub_port, 40885);
    assert_eq!(c.key, "a0436f6c-1916-498b-8eb9-e81ab9368e84");
}

#[test]
fn kernel_from_reader_and_config() {
    let k = Kernel::from_reader(CONNECTION.as_bytes()).unwrap();
    assert_eq!(k.config().hb_port, 42540);
    let c = KernelConfig::from_reader(CONNECTION.as_bytes()).unwrap();
    let k = Kernel::from_config(c);
    assert_eq!(k.config().ip, "127.0.0.1");
}

#[test]
fn missing_field_is_named() {
    let text = CONNECTION.replace("\"key\": \"a0436f6c-1916-498b-8eb9-e81ab9368e84\"", "\"other\": 1");
    assert_eq!(
        KernelConfig::from_reader(text.as_bytes()).unwrap_err(),
        KernelError::ConfigField("key".to_string())
    );
}

#[test]
fn wrong_types_are_named() {
    let text = CONNECTION.replace("\"shell_port\": 57503", "\"shell_port\": \"57503\"");
    assert_eq!(
        KernelConfig::from_reader(text.as_bytes()).unwrap_err(),
        KernelError::ConfigField("shell_port".to_string())
    );
    let text = CONNECTION.replace("\"hb_port\": 42540", "\"hb_port\": 4294967296");
    assert_eq!(
        KernelConfig::from_reader(text.as_bytes()).unwrap_err(),
        KernelError::ConfigField("hb_port".to_string())
    );
    let text = CONNECTION.replace("\"stdin_port\": 52597", "\"stdin_port\": -1");
    assert_eq!(
        KernelConfig::from_reader(text.as_bytes()).unwrap_err(),
        KernelError::ConfigField("stdin_port".to_string())
    );
    let text = CONNECTION.replace("\"ip\": \"127.0.0.1\"", "\"ip\": null");
    assert!(matches!(Kernel::from_reader(text.as_bytes()), Err(KernelError::ConfigField(f)) if f == "ip"));
}

#[test]
fn largest_port_is_accepted() {
    let text = CONNECTION.replace("\"iopub_port\": 40885", "\"iopub_port\": 4294967295");
    assert_eq!(KernelConfig::from_reader(text.as_bytes()).unwrap().iopub_port, u32::MAX);
}

#[test]
fn first_bad_field_is_reported() {
    assert_eq!(
        KernelConfig::from_reader(b"{}").unwrap_err(),
        KernelError::ConfigField("control_port".to_string())
    );
}

#[test]
fn not_json_is_a_syntax_error() {
    assert_eq!(KernelConfig::from_reader(b"{ not json").unwrap_err(), KernelError::ConfigSyntax);
    assert_eq!(KernelConfig::from_reader(b"").unwrap_err(), KernelError::ConfigSyntax);
    assert_eq!(KernelConfig::from_reader(&[0xff, 0x7b, 0x7d]).unwrap_err(), KernelError::ConfigSyntax);
}
