//! The ACME plugin: obtains certificates from Let's Encrypt for containers
//! that ask for it through their labels.

use vstd::prelude::*;
use crate::labels::ContainerLabels;
use super::OwlPlugin;
use crate::text::{str_concat, decimal_u32, join_path, parse_u32, path_join, str_eq, string_views};

verus! {

/// The `ffdhe2048` group of RFC 7919, as OpenSSL writes DH parameters.
pub const FFDHE2048: &'static str = "-----BEGIN DH PARAMETERS-----
MIIBCAKCAQEA//////////+t+FRYortKmq/cViAnPTzx2LnFg84tNpWp4TZBFGQz
+8yTnc4kmz75fS/jY2MMddj2gbICrsRhetPfHtXV/WVhJDP1H18GbtCFY2VVPe0a
87VXE15/V8k1mE8McODmi3fipona8+/och3xWKE2rec1MKzKT0g6eXq8CrGCsyT7
YdEIqUuyyOP7uWrat2DX9GgdT0Kj3jlN9K5W7edjcrsZCwenyO4KbXCeAvzhzffi
7MA0BM0oNC9hkXL+nOmFg/+OTxIy7vKBg8P+OxtMb61zO7X8vC7CIAXFjvGDfRaD
ssbzSibBsu/6iGtCOGEoXJf//////////wIBAg==
-----END DH PARAMETERS-----";

/// The `ffdhe3072` group of RFC 7919, as OpenSSL writes DH parameters.
pub const FFDHE3072: &'static str = "-----BEGIN DH PARAMETERS-----
MIIBiAKCAYEA//////////+t+FRYortKmq/cViAnPTzx2LnFg84tNpWp4TZBFGQz
+8yTnc4kmz75fS/jY2MMddj2gbICrsRhetPfHtXV/WVhJDP1H18GbtCFY2VVPe0a
87VXE15/V8k1mE8McODmi3fipona8+/och3xWKE2rec1MKzKT0g6eXq8CrGCsyT7
YdEIqUuyyOP7uWrat2DX9GgdT0Kj3jlN9K5W7edjcrsZCwenyO4KbXCeAvzhzffi
7MA0BM0oNC9hkXL+nOmFg/+OTxIy7vKBg8P+OxtMb61zO7X8vC7CIAXFjvGDfRaD
ssbzSibBsu/6iGtCOGEfz9zeNVs7ZRkDW7w09N75nAI4YbRvydbmyQd62R0mkff3
7lmMsPrBhtkcrv4TCYUTknC0EwyTvEN5RPT9RFLi103TZPLiHnH1S/9croKrnJ32
nuhtK8UiNjoNq8Uhl5sN6todv5pC1cRITgq80Gv6U93vPBsg7j/VnXwl5B0rZsYu
N///////////AgEC
-----END DH PARAMETERS-----";

/// The `ffdhe4096` group of RFC 7919, as OpenSSL writes DH parameters.
pub const FFDHE4096: &'static str = "-----BEGIN DH PARAMETERS-----
MIICCAKCAgEA//////////+t+FRYortKmq/cViAnPTzx2LnFg84tNpWp4TZBFGQz
+8yTnc4kmz75fS/jY2MMddj2gbICrsRhetPfHtXV/WVhJDP1H18GbtCFY2VVPe0a
87VXE15/V8k1mE8McODmi3fipona8+/och3xWKE2rec1MKzKT0g6eXq8CrGCsyT7
YdEIqUuyyOP7uWrat2DX9GgdT0Kj3jlN9K5W7edjcrsZCwenyO4KbXCeAvzhzffi
7MA0BM0oNC9hkXL+nOmFg/+OTxIy7vKBg8P+OxtMb61zO7X8vC7CIAXFjvGDfRaD
ssbzSibBsu/6iGtCOGEfz9zeNVs7ZRkDW7w09N75nAI4YbRvydbmyQd62R0mkff3
7lmMsPrBhtkcrv4TCYUTknC0EwyTvEN5RPT9RFLi103TZPLiHnH1S/9croKrnJ32
nuhtK8UiNjoNq8Uhl5sN6todv5pC1cRITgq80Gv6U93vPBsg7j/VnXwl5B0rZp4e
8W5vUsMWTfT7eTDp5OWIV7asfV9C1p9tGHdjzx1VA0AEh/VbpX4xzHpxNciG77Qx
iu1qHgEtnmgyqQdgCpGBMMRtx3j5ca0AOAkpmaMzy4t6Gh25PXFAADwqTs6p+Y0K
zAqCkc3OyX3Pjsm1Wn+IpGtNtahR9EGC4caKAH5eZV9q//////////8CAQI=
-----END DH PARAMETERS-----";


/// The staging directory of Let's Encrypt, used in debug mode.
pub const STAGING_DIRECTORY_URL: &'static str = "https://acme-staging.api.letsencrypt.org/directory";

/// The ACME directory that certificates are requested from.
pub enum AcmeDirectory {
    /// The production directory of Let's Encrypt.
    LetsEncrypt,
    /// The staging directory of Let's Encrypt.
    LetsEncryptStaging,
}

/// How the ownership of the domain is proved to the ACME server.
pub enum Challenge {
    /// A TXT record that the user adds to the DNS zone.
    Dns,
    /// A file that the web server serves.
    Http,
    /// No challenge is run.
    Unsupported,
}

/// The pre-defined Diffie-Hellman groups of RFC 7919 that a container can ask for.
pub enum DhGroup {
    Ffdhe2048,
    Ffdhe3072,
    Ffdhe4096,
}

/// The ACME plugin, with the settings used where a container's labels say nothing.
pub struct Acme {
    pub directory: AcmeDirectory,
    pub default_dest: String,
    pub default_webroot: String,
    pub default_challenge: String,
    pub default_hostname: String,
    pub default_mail: Option<String>,
    pub default_keysize: u32,
}

/// `a` is the plugin that `Acme::new(debug)` makes.
pub open spec fn is_default_acme(a: Acme, debug: bool) -> bool {
    &&& a.directory == (if debug {
        AcmeDirectory::LetsEncryptStaging
    } else {
        AcmeDirectory::LetsEncrypt
    })
    &&& a.default_dest@ == "./certs"@
    &&& a.default_webroot@ == "./www"@
    &&& a.default_challenge@ == "dns"@
    &&& a.default_hostname@ == "localhost"@
    &&& a.default_mail is None
    &&& a.default_keysize == 4096
}

/// The value of the label `key`, or `default` when there is none.
pub open spec fn label_or(labels: Map<Seq<char>, Seq<char>>, key: Seq<char>, default: Seq<char>) -> Seq<char> {
    if labels.contains_key(key) {
        labels[key]
    } else {
        default
    }
}

/// The challenge that a `letsencrypt-challenge` value names.
pub open spec fn spec_challenge(name: Seq<char>) -> Challenge {
    if name == "dns"@ {
        Challenge::Dns
    } else if name == "http"@ {
        Challenge::Http
    } else {
        Challenge::Unsupported
    }
}

/// The group that a `letsencrypt-dh-group` value names, if any.
pub open spec fn spec_dh_group(name: Seq<char>) -> Option<DhGroup> {
    if name == "ffdhe2048"@ {
        Some(DhGroup::Ffdhe2048)
    } else if name == "ffdhe3072"@ {
        Some(DhGroup::Ffdhe3072)
    } else if name == "ffdhe4096"@ {
        Some(DhGroup::Ffdhe4096)
    } else {
        None
    }
}

/// The key size: the `letsencrypt-keysize` label read as a decimal `u32`,
/// else `default`.
pub open spec fn spec_keysize(labels: Map<Seq<char>, Seq<char>>, default: u32) -> u32 {
    if labels.contains_key("letsencrypt-keysize"@) {
        match decimal_u32(labels["letsencrypt-keysize"@]) {
            Some(n) => n,
            None => default,
        }
    } else {
        default
    }
}

/// What the ACME plugin does for one container, with strings as character
/// sequences.
pub struct AcmeSettingsView {
    pub dest: Seq<char>,
    pub webroot: Seq<char>,
    pub challenge: Challenge,
    pub hostname: Seq<char>,
    pub mail: Option<Seq<char>>,
    pub keysize: u32,
    pub dh_group: Option<Seq<char>>,
    pub dh_path: Seq<char>,
    pub certificate_path: Seq<char>,
    pub private_key_path: Seq<char>,
}

/// What the ACME plugin `a` does for a container with the given labels.
pub open spec fn spec_acme_settings(a: Acme, labels: Map<Seq<char>, Seq<char>>) -> AcmeSettingsView {
    let dest = label_or(labels, "letsencrypt-dest"@, a.default_dest@);
    let hostname = label_or(labels, "letsencrypt-hostname"@, a.default_hostname@);
    AcmeSettingsView {
        dest,
        webroot: label_or(labels, "letsencrypt-webroot"@, a.default_webroot@),
        challenge: spec_challenge(label_or(labels, "letsencrypt-challenge"@, a.default_challenge@)),
        hostname,
        mail: if labels.contains_key("letsencrypt-mail"@) {
            Some(labels["letsencrypt-mail"@])
        } else {
            match a.default_mail {
                Some(m) => Some(m@),
                None => None,
            }
        },
        keysize: spec_keysize(labels, a.default_keysize),
        dh_group: if labels.contains_key("letsencrypt-dh-group"@) {
            Some(labels["letsencrypt-dh-group"@])
        } else {
            None
        },
        dh_path: dest + "/dhparam.pem"@,
        certificate_path: dest + "/"@ + hostname + ".pem"@,
        private_key_path: dest + "/"@ + hostname + ".key"@,
    }
}

/// What the ACME plugin does for one container.
pub struct AcmeSettings {
    /// The directory that the certificate, its key and the DH parameters go to.
    pub dest: String,
    /// The directory that the HTTP challenge is served from.
    pub webroot: String,
    pub challenge: Challenge,
    /// The domain that the certificate is for.
    pub hostname: String,
    /// The contact address of the ACME account, if any.
    pub mail: Option<String>,
    /// The size in bits of the certificate's RSA key.
    pub keysize: u32,
    /// The DH group asked for, if any.
    pub dh_group: Option<String>,
    pub dh_path: String,
    pub certificate_path: String,
    pub private_key_path: String,
}

impl View for AcmeSettings {
    type V = AcmeSettingsView;

    open spec fn view(&self) -> AcmeSettingsView {
        AcmeSettingsView {
            dest: self.dest@,
            webroot: self.webroot@,
            challenge: self.challenge,
            hostname: self.hostname@,
            mail: match self.mail {
                Some(m) => Some(m@),
                None => None,
            },
            keysize: self.keysize,
            dh_group: match self.dh_group {
                Some(g) => Some(g@),
                None => None,
            },
            dh_path: self.dh_path@,
            certificate_path: self.certificate_path@,
            private_key_path: self.private_key_path@,
        }
    }
}

/// The value of the label `key`, or a copy of `default`.
fn label_or_default(labels: &ContainerLabels, key: &str, default: &String) -> (res: String)
    ensures
        res@ == label_or(labels@, key@, default@),
{
    match labels.get(key) {
        Some(v) => v.clone(),
        None => default.clone(),
    }
}

/// The challenge that `name` names.
pub fn challenge_from_name(name: &str) -> (res: Challenge)
    ensures
        res == spec_challenge(name@),
{
    if str_eq(name, "dns") {
        Challenge::Dns
    } else if str_eq(name, "http") {
        Challenge::Http
    } else {
        Challenge::Unsupported
    }
}

impl DhGroup {
    /// The group that `name` names, if any.
    pub fn from_name(name: &str) -> (res: Option<DhGroup>)
        ensures
            res == spec_dh_group(name@),
    {
        if str_eq(name, "ffdhe2048") {
            Some(DhGroup::Ffdhe2048)
        } else if str_eq(name, "ffdhe3072") {
            Some(DhGroup::Ffdhe3072)
        } else if str_eq(name, "ffdhe4096") {
            Some(DhGroup::Ffdhe4096)
        } else {
            None
        }
    }

    /// The parameters of the group, in the PEM format of OpenSSL.
    pub fn pem(&self) -> (res: &'static str)
        ensures
            res@ == match self {
                DhGroup::Ffdhe2048 => FFDHE2048@,
                DhGroup::Ffdhe3072 => FFDHE3072@,
                DhGroup::Ffdhe4096 => FFDHE4096@,
            },
    {
        match self {
            DhGroup::Ffdhe2048 => FFDHE2048,
            DhGroup::Ffdhe3072 => FFDHE3072,
            DhGroup::Ffdhe4096 => FFDHE4096,
        }
    }
}

impl AcmeSettings {
    /// The DH parameters to write once the certificate is saved: those of the
    /// group asked for, unless none was asked for or the file already exists.
    /// The group asked for must then be a known one.
    pub fn dh_params_to_write(&self, dh_file_exists: bool) -> (res: Option<DhGroup>)
        requires
            self.dh_group is Some && !dh_file_exists ==> spec_dh_group(self.dh_group->0@) is Some,
        ensures
            res == (if self.dh_group is Some && !dh_file_exists {
                spec_dh_group(self.dh_group->0@)
            } else {
                None
            }),
    {
        match &self.dh_group {
            Some(name) => {
                if dh_file_exists {
                    None
                } else {
                    DhGroup::from_name(name.as_str())
                }
            },
            None => None,
        }
    }
}

/// A container's environment asks for a new certificate: it holds
/// `LETSENCRYPT_FORCE=true`.
pub open spec fn spec_force_renewal(container_env: Seq<Seq<char>>) -> bool {
    container_env.contains("LETSENCRYPT_FORCE=true"@)
}

proof fn lemma_take_one_more_contains(s: Seq<Seq<char>>, i: int, x: Seq<char>)
    requires
        0 <= i < s.len(),
    ensures
        s.take(i + 1).contains(x) == (s.take(i).contains(x) || s[i] == x),
{
    if s.take(i + 1).contains(x) {
        let j = choose|j: int| 0 <= j < s.take(i + 1).len() && #[trigger] s.take(i + 1)[j] == x;
        if j < i {
            assert(s.take(i)[j] == s.take(i + 1)[j]);
        }
    }
    if s.take(i).contains(x) {
        let j = choose|j: int| 0 <= j < s.take(i).len() && #[trigger] s.take(i)[j] == x;
        assert(s.take(i + 1)[j] == s.take(i)[j]);
    }
    if s[i] == x {
        assert(s.take(i + 1)[i] == x);
    }
}

/// Whether to request a certificate: when the container's environment
/// (`KEY=VALUE` entries) forces renewal, or when there is no valid
/// certificate for the host yet.
pub fn certificate_needed(container_env: &Vec<String>, has_valid_certificate: bool) -> (res: bool)
    ensures
        res == (spec_force_renewal(string_views(container_env@)) || !has_valid_certificate),
{
    let ghost env = string_views(container_env@);
    let mut force = false;
    for i in 0..container_env.len()
        invariant
            env == string_views(container_env@),
            force == env.take(i as int).contains("LETSENCRYPT_FORCE=true"@),
    {
        let here = str_eq(container_env[i].as_str(), "LETSENCRYPT_FORCE=true");
        proof {
            lemma_take_one_more_contains(env, i as int, "LETSENCRYPT_FORCE=true"@);
        }
        force = force || here;
    }
    assert(env.take(container_env@.len() as int) =~= env);
    force || !has_valid_certificate
}

/// Whether the key read while waiting for the user ends the wait: the
/// newline does. The byte must be ASCII.
pub fn is_continue_key(input: u8) -> (res: bool)
    requires
        input < 128,
    ensures
        res == (input == 10),
{
    input == 10
}

/// Where the private key of the ACME account is kept.
pub fn account_key_path() -> (res: String)
    ensures
        res@ == join_path("./certs"@, "account_pkey"@),
{
    path_join("./certs", "account_pkey")
}

impl Acme {
    /// The ACME plugin; `debug` selects the staging directory.
    pub fn new(debug: bool) -> (res: Box<Acme>)
        ensures
            is_default_acme(*res, debug),
    {
        let directory = if debug {
            AcmeDirectory::LetsEncryptStaging
        } else {
            AcmeDirectory::LetsEncrypt
        };
        Box::new(
            Acme {
                directory,
                default_dest: "./certs".to_owned(),
                default_webroot: "./www".to_owned(),
                default_challenge: "dns".to_owned(),
                default_hostname: "localhost".to_owned(),
                default_mail: None,
                default_keysize: 0x1000,
            },
        )
    }

    /// What the plugin does for a container with the given labels.
    pub fn settings(&self, labels: &ContainerLabels) -> (res: AcmeSettings)
        ensures
            res@ == spec_acme_settings(*self, labels@),
    {
        let dest = label_or_default(labels, "letsencrypt-dest", &self.default_dest);
        let webroot = label_or_default(labels, "letsencrypt-webroot", &self.default_webroot);
        let challenge_name = label_or_default(
            labels,
            "letsencrypt-challenge",
            &self.default_challenge,
        );
        let hostname = label_or_default(labels, "letsencrypt-hostname", &self.default_hostname);
        let mail = match labels.get("letsencrypt-mail") {
            Some(m) => Some(m.clone()),
            None => match &self.default_mail {
                Some(m) => Some(m.clone()),
                None => None,
            },
        };
        let keysize = match labels.get("letsencrypt-keysize") {
            Some(s) => match parse_u32(s.as_str()) {
                Some(n) => n,
                None => self.default_keysize,
            },
            None => self.default_keysize,
        };
        let dh_group = match labels.get("letsencrypt-dh-group") {
            Some(g) => Some(g.clone()),
            None => None,
        };
        let dh_path = str_concat(dest.as_str(), "/dhparam.pem");
        let dest_dir = str_concat(dest.as_str(), "/");
        let base = str_concat(dest_dir.as_str(), hostname.as_str());
        let certificate_path = str_concat(base.as_str(), ".pem");
        let private_key_path = str_concat(base.as_str(), ".key");
        AcmeSettings {
            dest,
            webroot,
            challenge: challenge_from_name(challenge_name.as_str()),
            hostname,
            mail,
            keysize,
            dh_group,
            dh_path,
            certificate_path,
            private_key_path,
        }
    }
}

/// A container that sets none of the `letsencrypt-` settings gets the
/// defaults: certificates kept in `./certs`, challenge files served from
/// `./www`, the DNS challenge, the host `localhost`, no contact address,
/// 4096-bit keys and no DH parameters.
pub proof fn law_acme_defaults(a: Acme, debug: bool, labels: Map<Seq<char>, Seq<char>>)
    requires
        is_default_acme(a, debug),
        !labels.contains_key("letsencrypt-dest"@),
        !labels.contains_key("letsencrypt-webroot"@),
        !labels.contains_key("letsencrypt-challenge"@),
        !labels.contains_key("letsencrypt-hostname"@),
        !labels.contains_key("letsencrypt-mail"@),
        !labels.contains_key("letsencrypt-keysize"@),
        !labels.contains_key("letsencrypt-dh-group"@),
    ensures
        spec_acme_settings(a, labels) == (AcmeSettingsView {
            dest: "./certs"@,
            webroot: "./www"@,
            challenge: Challenge::Dns,
            hostname: "localhost"@,
            mail: None,
            keysize: 4096,
            dh_group: None,
            dh_path: "./certs"@ + "/dhparam.pem"@,
            certificate_path: "./certs"@ + "/"@ + "localhost"@ + ".pem"@,
            private_key_path: "./certs"@ + "/"@ + "localhost"@ + ".key"@,
        }),
{
}

/// The ACME plugin runs on containers that carry the label `letsencrypt-enable`.
pub open spec fn acme_wanted(labels: Map<Seq<char>, Seq<char>>) -> bool {
    labels.contains_key("letsencrypt-enable"@)
}

impl OwlPlugin for Acme {
    fn get_name(&self) -> (res: &'static str)
        ensures
            res@ == "Acme"@,
    {
        "Acme"
    }

    fn should_process(&self, labels: &ContainerLabels) -> (res: bool)
        ensures
            res == acme_wanted(labels@),
    {
        labels.contains_key("letsencrypt-enable")
    }
}

} // verus!

verus! {

/// Whether the ACME plugin runs depends on the label `letsencrypt-enable`
/// alone: a container without labels is skipped, setting that label (to any
/// value) selects the plugin, and setting any other label changes nothing.
pub proof fn law_acme_runs_on_enable_label(
    labels: Map<Seq<char>, Seq<char>>,
    k: Seq<char>,
    v: Seq<char>,
)
    ensures
        !acme_wanted(Map::empty()),
        acme_wanted(labels.insert("letsencrypt-enable"@, v)),
        k != "letsencrypt-enable"@ ==> acme_wanted(labels.insert(k, v)) == acme_wanted(labels),
{
}

/// Setting one of the `letsencrypt-` labels sets that setting, whatever the
/// other labels are: the directory, web root, host, mail and DH group take
/// the value given; `dns` and `http` select their challenge; a key size
/// that reads as a decimal `u32` is used, any other falls back to the default.
pub proof fn law_acme_setting_follows_its_label(
    a: Acme,
    labels: Map<Seq<char>, Seq<char>>,
    v: Seq<char>,
)
    ensures
        spec_acme_settings(a, labels.insert("letsencrypt-dest"@, v)).dest == v,
        spec_acme_settings(a, labels.insert("letsencrypt-webroot"@, v)).webroot == v,
        spec_acme_settings(a, labels.insert("letsencrypt-hostname"@, v)).hostname == v,
        spec_acme_settings(a, labels.insert("letsencrypt-mail"@, v)).mail == Some(v),
        spec_acme_settings(a, labels.insert("letsencrypt-dh-group"@, v)).dh_group == Some(v),
        spec_acme_settings(a, labels.insert("letsencrypt-challenge"@, "dns"@)).challenge
            == Challenge::Dns,
        spec_acme_settings(a, labels.insert("letsencrypt-challenge"@, "http"@)).challenge
            == Challenge::Http,
        decimal_u32(v) matches Some(n) ==> spec_acme_settings(
            a,
            labels.insert("letsencrypt-keysize"@, v),
        ).keysize == n,
        decimal_u32(v) is None ==> spec_acme_settings(
            a,
            labels.insert("letsencrypt-keysize"@, v),
        ).keysize == a.default_keysize,
{
    reveal_strlit("http");
    reveal_strlit("dns");
    assert("http"@.len() != "dns"@.len());
}

/// Each setting depends on its own label only: setting another label leaves
/// it as it was. The output paths depend on the directory and host labels.
pub proof fn law_acme_setting_ignores_other_labels(
    a: Acme,
    labels: Map<Seq<char>, Seq<char>>,
    k: Seq<char>,
    v: Seq<char>,
)
    ensures
        ({
            let before = spec_acme_settings(a, labels);
            let after = spec_acme_settings(a, labels.insert(k, v));
            &&& k != "letsencrypt-dest"@ ==> after.dest == before.dest
            &&& k != "letsencrypt-webroot"@ ==> after.webroot == before.webroot
            &&& k != "letsencrypt-challenge"@ ==> after.challenge == before.challenge
            &&& k != "letsencrypt-hostname"@ ==> after.hostname == before.hostname
            &&& k != "letsencrypt-mail"@ ==> after.mail == before.mail
            &&& k != "letsencrypt-keysize"@ ==> after.keysize == before.keysize
            &&& k != "letsencrypt-dh-group"@ ==> after.dh_group == before.dh_group
            &&& k != "letsencrypt-dest"@ && k != "letsencrypt-hostname"@ ==> {
                &&& after.certificate_path == before.certificate_path
                &&& after.private_key_path == before.private_key_path
            }
            &&& k != "letsencrypt-dest"@ ==> after.dh_path == before.dh_path
        }),
{
}

/// The certificate and its key are named after the host and kept in the
/// directory, beside the DH parameters, for every set of labels.
pub proof fn law_acme_paths(a: Acme, labels: Map<Seq<char>, Seq<char>>)
    ensures
        ({
            let s = spec_acme_settings(a, labels);
            &&& s.certificate_path == s.dest + "/"@ + s.hostname + ".pem"@
            &&& s.private_key_path == s.dest + "/"@ + s.hostname + ".key"@
            &&& s.dh_path == s.dest + "/dhparam.pem"@
        }),
{
}

/// Renewal is forced when any entry of the environment, wherever it stands,
/// is `LETSENCRYPT_FORCE=true`: an empty environment forces nothing, and
/// adding an entry at either end forces renewal exactly when the entry is
/// that one or the environment already did.
pub proof fn law_force_renewal_anywhere(env: Seq<Seq<char>>, x: Seq<char>)
    ensures
        !spec_force_renewal(Seq::empty()),
        spec_force_renewal(env.push(x)) == (spec_force_renewal(env) || x
            == "LETSENCRYPT_FORCE=true"@),
        spec_force_renewal(seq![x] + env) == (x == "LETSENCRYPT_FORCE=true"@
            || spec_force_renewal(env)),
{
    let f = "LETSENCRYPT_FORCE=true"@;
    let p = env.push(x);
    if p.contains(f) {
        let j = choose|j: int| 0 <= j < p.len() && #[trigger] p[j] == f;
        if j < env.len() {
            assert(env[j] == p[j]);
        }
    }
    if env.contains(f) {
        let j = choose|j: int| 0 <= j < env.len() && #[trigger] env[j] == f;
        assert(p[j] == env[j]);
    }
    if x == f {
        assert(p[env.len() as int] == x);
    }
    let q = seq![x] + env;
    if q.contains(f) {
        let j = choose|j: int| 0 <= j < q.len() && #[trigger] q[j] == f;
        if j > 0 {
            assert(env[j - 1] == q[j]);
        }
    }
    if env.contains(f) {
        let j = choose|j: int| 0 <= j < env.len() && #[trigger] env[j] == f;
        assert(q[j + 1] == env[j]);
    }
    if x == f {
        assert(q[0] == x);
    }
}

} // verus!
