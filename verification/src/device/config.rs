//! The configuration of a device.
use vstd::prelude::*;
use vstd::string::StringExecFns;
use crate::cid::ComponentId;
use crate::json::{get_text, get_text_or, json_model, text_member, text_member_or, Json};
use crate::logging::{get_level, level_of_json, LevelFilter};

verus! {

/// What a device is configured with.
#[derive(Debug)]
pub struct Config {
    /// The identifier of this device, which its tokens name as their
    /// audience.
    pub cid: ComponentId,
    pub label: String,
    pub manufacturer: String,
    pub model: String,
    /// The PEM file of the root certificate that peers are validated against.
    pub root_ca_file: String,
    /// The PEM file of the device's certificate chain.
    pub cert_file: String,
    /// The PEM file of the device's private key.
    pub key_file: String,
    /// The PEM file of the arbiter's public key, under which tokens verify.
    pub arbiter_public_key_file: String,
    pub log_level: LevelFilter,
}

/// The mathematical value of a [`Config`].
pub struct ConfigView {
    pub cid: ComponentId,
    pub label: Seq<char>,
    pub manufacturer: Seq<char>,
    pub model: Seq<char>,
    pub root_ca_file: Seq<char>,
    pub cert_file: Seq<char>,
    pub key_file: Seq<char>,
    pub arbiter_public_key_file: Seq<char>,
    pub log_level: LevelFilter,
}

impl View for Config {
    type V = ConfigView;

    open spec fn view(&self) -> ConfigView {
        ConfigView {
            cid: self.cid,
            label: self.label@,
            manufacturer: self.manufacturer@,
            model: self.model@,
            root_ca_file: self.root_ca_file@,
            cert_file: self.cert_file@,
            key_file: self.key_file@,
            arbiter_public_key_file: self.arbiter_public_key_file@,
            log_level: self.log_level,
        }
    }
}

/// Where the root certificate is looked for unless the configuration says.
pub fn default_root_ca() -> (path: String)
    ensures
        path@ == "../certs/root-cert.pem"@,
{
    String::from_str("../certs/root-cert.pem")
}

/// Where the certificate chain is looked for unless the configuration says.
pub fn default_cert_file() -> (path: String)
    ensures
        path@ == "../certs/device-cert.pem"@,
{
    String::from_str("../certs/device-cert.pem")
}

/// Where the private key is looked for unless the configuration says.
pub fn default_key_file() -> (path: String)
    ensures
        path@ == "../certs/device-key.pem"@,
{
    String::from_str("../certs/device-key.pem")
}

/// Where the arbiter's public key is looked for unless the configuration
/// says.
pub fn default_arbiter_public_key_file() -> (path: String)
    ensures
        path@ == "../certs/arbiter-key.pub.pem"@,
{
    String::from_str("../certs/arbiter-key.pub.pem")
}

/// The log level unless the configuration says: nothing is logged.
pub fn default_log_filter() -> (level: LevelFilter)
    ensures
        level == LevelFilter::Off,
{
    LevelFilter::Off
}

/// The files that a document names, each with its default where the
/// document has no such member: `rootCaFile`, `certFile`, `keyFile` and
/// `arbiterPublicKeyFile`, in this order.
pub open spec fn files_of_json(doc: Json) -> Option<(Seq<char>, Seq<char>, Seq<char>, Seq<char>)> {
    match (
        text_member_or(doc, "rootCaFile"@, "../certs/root-cert.pem"@),
        text_member_or(doc, "certFile"@, "../certs/device-cert.pem"@),
        text_member_or(doc, "keyFile"@, "../certs/device-key.pem"@),
        text_member_or(doc, "arbiterPublicKeyFile"@, "../certs/arbiter-key.pub.pem"@),
    ) {
        (Some(root_ca), Some(cert), Some(key), Some(arbiter_key)) => Some(
            (root_ca, cert, key, arbiter_key),
        ),
        _ => None,
    }
}

/// The configuration that a document holds. The member `cid` must be an
/// identifier, and the members `label`, `manufacturer` and `model` strings.
/// The files and `logLevel` may be missing, and then have their defaults;
/// where one is present it must be of its type.
pub open spec fn config_of_json(doc: Json) -> Option<ConfigView> {
    match (
        text_member(doc, "cid"@),
        text_member(doc, "label"@),
        text_member(doc, "manufacturer"@),
        text_member(doc, "model"@),
        files_of_json(doc),
        level_of_json(doc),
    ) {
        (Some(cid), Some(label), Some(manufacturer), Some(model), Some(files), Some(log_level)) => {
            match ComponentId::parsed(cid) {
                Some(cid) => Some(
                    ConfigView {
                        cid,
                        label,
                        manufacturer,
                        model,
                        root_ca_file: files.0,
                        cert_file: files.1,
                        key_file: files.2,
                        arbiter_public_key_file: files.3,
                        log_level,
                    },
                ),
                None => None,
            }
        },
        _ => None,
    }
}

impl Config {
    /// Reads the configuration from a JSON document.
    pub fn from_json(doc: &serde_json::Value) -> (r: Option<Config>)
        ensures
            match r {
                Some(config) => config_of_json(json_model(*doc)) == Some(config@),
                None => config_of_json(json_model(*doc)).is_none(),
            },
    {
        let cid = get_text(doc, "cid");
        let label = get_text(doc, "label");
        let manufacturer = get_text(doc, "manufacturer");
        let model = get_text(doc, "model");
        let root_ca_file = get_text_or(doc, "rootCaFile", default_root_ca());
        let cert_file = get_text_or(doc, "certFile", default_cert_file());
        let key_file = get_text_or(doc, "keyFile", default_key_file());
        let arbiter_public_key_file = get_text_or(
            doc,
            "arbiterPublicKeyFile",
            default_arbiter_public_key_file(),
        );
        let log_level = get_level(doc);
        let files = match (root_ca_file, cert_file, key_file, arbiter_public_key_file) {
            (Some(root_ca), Some(cert), Some(key), Some(arbiter_key)) => Some(
                (root_ca, cert, key, arbiter_key),
            ),
            _ => None,
        };
        match (cid, label, manufacturer, model, files, log_level) {
            (
                Some(cid),
                Some(label),
                Some(manufacturer),
                Some(model),
                Some(files),
                Some(log_level),
            ) => match ComponentId::parse(cid.as_str()) {
                Some(cid) => Some(
                    Config {
                        cid,
                        label,
                        manufacturer,
                        model,
                        root_ca_file: files.0,
                        cert_file: files.1,
                        key_file: files.2,
                        arbiter_public_key_file: files.3,
                        log_level,
                    },
                ),
                None => None,
            },
            _ => None,
        }
    }
}

} // verus!
