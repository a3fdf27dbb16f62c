//! A kernel backend for the Jupyter notebook system: the wire protocol's
//! message framing, the typed message model, content dispatch by message
//! type, and the per-socket decisions of the kernel's endpoints.

use vstd::prelude::*;

use crate::codec::{frame_text, text_of};
use crate::errors::{viewed, ErrorView, KernelError};
use crate::json::{json_member, json_of, member, member_text, parse_json, parsed_json, str_member, JsonView};

pub mod address;
pub mod codec;
pub mod control;
pub mod errors;
pub mod handler;
pub mod heartbeat;
pub mod iopub;
pub mod json;
pub mod message;
pub mod msg_type;
pub mod reply;
pub mod shell;
pub mod status;
pub mod stdin;

verus! {

/// The connection configuration that the notebook application hands the
/// kernel when it starts it.
#[derive(Debug)]
pub struct KernelConfig {
    pub control_port: u32,
    pub shell_port: u32,
    pub transport: String,
    pub signature_scheme: String,
    pub stdin_port: u32,
    pub hb_port: u32,
    pub ip: String,
    pub iopub_port: u32,
    pub key: String,
}

pub struct KernelConfigView {
    pub control_port: u32,
    pub shell_port: u32,
    pub transport: Seq<char>,
    pub signature_scheme: Seq<char>,
    pub stdin_port: u32,
    pub hb_port: u32,
    pub ip: Seq<char>,
    pub iopub_port: u32,
    pub key: Seq<char>,
}

impl View for KernelConfig {
    type V = KernelConfigView;

    open spec fn view(&self) -> KernelConfigView {
        KernelConfigView {
            control_port: self.control_port,
            shell_port: self.shell_port,
            transport: self.transport@,
            signature_scheme: self.signature_scheme@,
            stdin_port: self.stdin_port,
            hb_port: self.hb_port,
            ip: self.ip@,
            iopub_port: self.iopub_port,
            key: self.key@,
        }
    }
}

/// The port number of an object's member under a key: an integer that fits
/// in a `u32`.
pub open spec fn port_member(j: JsonView, key: Seq<char>) -> Option<u32> {
    match member(j, key) {
        Some(JsonView::Int(i)) => if 0 <= i <= u32::MAX {
            Some(i as u32)
        } else {
            None
        },
        _ => None,
    }
}

/// The configuration that a JSON value holds, or the name of the first
/// field, in the order of the declaration, that is missing or of the wrong
/// type.
pub open spec fn config_of_json(j: JsonView) -> Result<KernelConfigView, Seq<char>> {
    if port_member(j, "control_port"@) is None {
        Err("control_port"@)
    } else if port_member(j, "shell_port"@) is None {
        Err("shell_port"@)
    } else if str_member(j, "transport"@) is None {
        Err("transport"@)
    } else if str_member(j, "signature_scheme"@) is None {
        Err("signature_scheme"@)
    } else if port_member(j, "stdin_port"@) is None {
        Err("stdin_port"@)
    } else if port_member(j, "hb_port"@) is None {
        Err("hb_port"@)
    } else if str_member(j, "ip"@) is None {
        Err("ip"@)
    } else if port_member(j, "iopub_port"@) is None {
        Err("iopub_port"@)
    } else if str_member(j, "key"@) is None {
        Err("key"@)
    } else {
        Ok(
            KernelConfigView {
                control_port: port_member(j, "control_port"@)->Some_0,
                shell_port: port_member(j, "shell_port"@)->Some_0,
                transport: str_member(j, "transport"@)->Some_0,
                signature_scheme: str_member(j, "signature_scheme"@)->Some_0,
                stdin_port: port_member(j, "stdin_port"@)->Some_0,
                hb_port: port_member(j, "hb_port"@)->Some_0,
                ip: str_member(j, "ip"@)->Some_0,
                iopub_port: port_member(j, "iopub_port"@)->Some_0,
                key: str_member(j, "key"@)->Some_0,
            },
        )
    }
}

/// The configuration that the bytes of a connection file hold: they must be
/// a UTF-8 JSON document with every field.
pub open spec fn config_of_bytes(b: Seq<u8>) -> Result<KernelConfigView, ErrorView> {
    match frame_text(b) {
        None => Err(ErrorView::ConfigSyntax),
        Some(text) => match parsed_json(text) {
            None => Err(ErrorView::ConfigSyntax),
            Some(j) => match config_of_json(j) {
                Ok(c) => Ok(c),
                Err(field) => Err(ErrorView::ConfigField(field)),
            },
        },
    }
}

/// The port number under a key, if the member is one.
fn read_port(v: &serde_json::Value, key: &str) -> (r: Option<u32>)
    ensures
        r == port_member(json_of(*v), key@),
{
    match json_member(v, key) {
        Some(x) => match x.as_u64() {
            Some(n) => if n <= u32::MAX as u64 {
                Some(n as u32)
            } else {
                None
            },
            None => None,
        },
        None => None,
    }
}

impl KernelConfig {
    /// Reads the configuration from the bytes of a connection file.
    pub fn from_reader(input: &[u8]) -> (r: Result<KernelConfig, KernelError>)
        ensures
            viewed(r) == config_of_bytes(input@),
    {
        let text = match text_of(input) {
            Some(text) => text,
            None => return Err(KernelError::ConfigSyntax),
        };
        let v = match parse_json(text) {
            Ok(v) => v,
            Err(_) => return Err(KernelError::ConfigSyntax),
        };
        let control_port = match read_port(&v, "control_port") {
            Some(p) => p,
            None => return Err(KernelError::ConfigField("control_port".to_owned())),
        };
        let shell_port = match read_port(&v, "shell_port") {
            Some(p) => p,
            None => return Err(KernelError::ConfigField("shell_port".to_owned())),
        };
        let transport = match member_text(&v, "transport") {
            Some(s) => s,
            None => return Err(KernelError::ConfigField("transport".to_owned())),
        };
        let signature_scheme = match member_text(&v, "signature_scheme") {
            Some(s) => s,
            None => return Err(KernelError::ConfigField("signature_scheme".to_owned())),
        };
        let stdin_port = match read_port(&v, "stdin_port") {
            Some(p) => p,
            None => return Err(KernelError::ConfigField("stdin_port".to_owned())),
        };
        let hb_port = match read_port(&v, "hb_port") {
            Some(p) => p,
            None => return Err(KernelError::ConfigField("hb_port".to_owned())),
        };
        let ip = match member_text(&v, "ip") {
            Some(s) => s,
            None => return Err(KernelError::ConfigField("ip".to_owned())),
        };
        let iopub_port = match read_port(&v, "iopub_port") {
            Some(p) => p,
            None => return Err(KernelError::ConfigField("iopub_port".to_owned())),
        };
        let key = match member_text(&v, "key") {
            Some(s) => s,
            None => return Err(KernelError::ConfigField("key".to_owned())),
        };
        Ok(
            KernelConfig {
                control_port,
                shell_port,
                transport,
                signature_scheme,
                stdin_port,
                hb_port,
                ip,
                iopub_port,
                key,
            },
        )
    }
}

/// The kernel, with the configuration it serves.
pub struct Kernel {
    config: KernelConfig,
}

impl View for Kernel {
    type V = KernelConfigView;

    closed spec fn view(&self) -> KernelConfigView {
        self.config@
    }
}

impl Kernel {
    /// A kernel for the configuration in the bytes of a connection file.
    pub fn from_reader(input: &[u8]) -> (r: Result<Kernel, KernelError>)
        ensures
            viewed(r) == config_of_bytes(input@),
    {
        match KernelConfig::from_reader(input) {
            Ok(config) => Ok(Kernel::from_config(config)),
            Err(e) => Err(e),
        }
    }

    pub fn from_config(config: KernelConfig) -> (r: Kernel)
        ensures
            r@ == config@,
    {
        Kernel { config }
    }

    pub fn config(&self) -> (r: &KernelConfig)
        ensures
            r@ == self@,
    {
        &self.config
    }
}

} // verus!
