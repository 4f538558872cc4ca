//! The configuration of a controller.
use vstd::prelude::*;
use vstd::string::StringExecFns;
use crate::cid::ComponentId;
use crate::json::{get_text, get_text_or, json_model, text_member, text_member_or, Json};
use crate::logging::{get_level, level_of_json, LevelFilter};

verus! {

/// What a controller is configured with.
#[derive(Debug)]
pub struct Config {
    /// The identifier of this controller, which its tokens name as their
    /// subject.
    pub cid: ComponentId,
    /// The PEM file of the root certificate that peers are validated against.
    pub root_ca_file: String,
    /// The PEM file of the controller's certificate chain.
    pub cert_file: String,
    /// The PEM file of the controller's private key.
    pub key_file: String,
    pub log_level: LevelFilter,
}

/// The mathematical value of a [`Config`].
pub struct ConfigView {
    pub cid: ComponentId,
    pub root_ca_file: Seq<char>,
    pub cert_file: Seq<char>,
    pub key_file: Seq<char>,
    pub log_level: LevelFilter,
}

impl View for Config {
    type V = ConfigView;

    open spec fn view(&self) -> ConfigView {
        ConfigView {
            cid: self.cid,
            root_ca_file: self.root_ca_file@,
            cert_file: self.cert_file@,
            key_file: self.key_file@,
            log_level: self.log_level,
        }
    }
}

/// Where the root certificate is looked for unless the configuration says.
pub fn default_root_ca() -> (path: String)
    ensures
        path@ == "../certs/root-cert.pem"@,
{
    String::from_str("../certs/root-cert.pem")
}

/// Where the certificate chain is looked for unless the configuration says.
pub fn default_cert_file() -> (path: String)
    ensures
        path@ == "../certs/controller-cert.pem"@,
{
    String::from_str("../certs/controller-cert.pem")
}

/// Where the private key is looked for unless the configuration says.
pub fn default_key_file() -> (path: String)
    ensures
        path@ == "../certs/controller-key.pem"@,
{
    String::from_str("../certs/controller-key.pem")
}

/// The log level unless the configuration says: nothing is logged.
pub fn default_log_filter() -> (level: LevelFilter)
    ensures
        level == LevelFilter::Off,
{
    LevelFilter::Off
}

/// The configuration that a document holds. The member `cid` must be an
/// identifier. The members `rootCaFile`, `certFile`, `keyFile` and
/// `logLevel` may be missing, and then have their defaults; where one is
/// present it must be of its type.
pub open spec fn config_of_json(doc: Json) -> Option<ConfigView> {
    match (
        text_member(doc, "cid"@),
        text_member_or(doc, "rootCaFile"@, "../certs/root-cert.pem"@),
        text_member_or(doc, "certFile"@, "../certs/controller-cert.pem"@),
        text_member_or(doc, "keyFile"@, "../certs/controller-key.pem"@),
        level_of_json(doc),
    ) {
        (Some(cid), Some(root_ca_file), Some(cert_file), Some(key_file), Some(log_level)) => {
            match ComponentId::parsed(cid) {
                Some(cid) => Some(ConfigView { cid, root_ca_file, cert_file, key_file, log_level }),
                None => None,
            }
        },
        _ => None,
    }
}

impl Config {
    /// Reads the configuration from a JSON document.
    pub fn from_json(doc: &serde_json::Value) -> (r: Option<Config>)
        ensures
            match r {
                Some(config) => config_of_json(json_model(*doc)) == Some(config@),
                None => config_of_json(json_model(*doc)).is_none(),
            },
    {
        let cid = get_text(doc, "cid");
        let root_ca_file = get_text_or(doc, "rootCaFile", default_root_ca());
        let cert_file = get_text_or(doc, "certFile", default_cert_file());
        let key_file = get_text_or(doc, "keyFile", default_key_file());
        let log_level = get_level(doc);
        match (cid, root_ca_file, cert_file, key_file, log_level) {
            (Some(cid), Some(root_ca_file), Some(cert_file), Some(key_file), Some(log_level)) => {
                match ComponentId::parse(cid.as_str()) {
                    Some(cid) => Some(Config { cid, root_ca_file, cert_file, key_file, log_level }),
                    None => None,
                }
            },
            _ => None,
        }
    }
}

} // verus!
