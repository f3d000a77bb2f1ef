//! Service configuration: the settings sections with their defaults, and the
//! settings derived from them for the listener, telemetry, storage mirroring
//! and certificate provisioning.
//!
//! Filesystem paths are held as strings.

use vstd::prelude::*;
use crate::text::{
    is_white_space, lemma_split_pieces_free_of_sep, lemma_trim_shape,
    chars_of, split_char, split_chars, string_of, trim, trim_chars, trim_end_char, trim_end_char_chars,
    views,
};

verus! {

/// An owned copy of an optional string.
pub fn clone_opt_string(o: &Option<String>) -> (r: Option<String>)
    ensures
        r == *o,
{
    match o {
        Some(s) => Some(s.clone()),
        None => None,
    }
}

/// The views of a sequence of strings.
pub open spec fn string_views(v: Seq<String>) -> Seq<Seq<char>> {
    v.map_values(|s: String| s@)
}

/// The view of an optional string.
pub open spec fn opt_view(o: Option<String>) -> Option<Seq<char>> {
    match o {
        Some(s) => Some(s@),
        None => None,
    }
}

/// Settings of the WebSocket listener.
pub struct ServerConfig {
    pub name: String,
    pub address: String,
    pub cert: Option<String>,
    pub key: Option<String>,
    pub insecure: bool,
    pub pub_certs: Option<Vec<String>>,
    pub priv_key: Option<String>,
}

impl Default for ServerConfig {
    fn default() -> (r: Self)
        ensures
            r.name@ == "tg_support"@,
            r.address@ == "0.0.0.0:443"@,
            r.cert is None,
            r.key is None,
            !r.insecure,
            r.pub_certs is None,
            r.priv_key is None,
    {
        ServerConfig {
            name: "tg_support".to_owned(),
            address: "0.0.0.0:443".to_owned(),
            cert: None,
            key: None,
            insecure: false,
            pub_certs: None,
            priv_key: None,
        }
    }
}

/// What the WebSocket server is started with: one certificate chain list and
/// one private key, whichever of the two spellings the configuration used.
pub struct WsListenSettings {
    pub name: String,
    pub address: String,
    pub pub_certs: Option<Vec<String>>,
    pub priv_key: Option<String>,
    pub insecure: bool,
}

impl ServerConfig {
    /// The listener settings: `cert` stands for a one-element certificate list
    /// and wins over `pub_certs`; `key` wins over `priv_key`.
    pub fn into_ws_settings(self) -> (r: WsListenSettings)
        ensures
            r.name == self.name,
            r.address == self.address,
            r.insecure == self.insecure,
            self.cert matches Some(c) ==> (r.pub_certs matches Some(v) && v@ == seq![c]),
            self.cert is None ==> r.pub_certs == self.pub_certs,
            self.key is Some ==> r.priv_key == self.key,
            self.key is None ==> r.priv_key == self.priv_key,
    {
        let pub_certs = match self.cert {
            Some(c) => {
                let mut v: Vec<String> = Vec::new();
                v.push(c);
                Some(v)
            },
            None => self.pub_certs,
        };
        let priv_key = match self.key {
            Some(k) => Some(k),
            None => self.priv_key,
        };
        WsListenSettings {
            name: self.name,
            address: self.address,
            pub_certs,
            priv_key,
            insecure: self.insecure,
        }
    }
}

/// OpenTelemetry log exporter settings.
pub struct OtelLogConfig {
    pub enabled: bool,
    pub endpoint: String,
    pub authorization: Option<String>,
    pub organization: Option<String>,
    pub stream_name: String,
    pub service_name: String,
}

impl Default for OtelLogConfig {
    fn default() -> (r: Self)
        ensures
            !r.enabled,
            r.endpoint@ == "https://in-otel.hyperdx.io/v1/logs"@,
            r.authorization is None,
            r.organization is None,
            r.stream_name@ == "support_cafe_backend"@,
            r.service_name@ == "support-cafe-backend"@,
    {
        OtelLogConfig {
            enabled: false,
            endpoint: "https://in-otel.hyperdx.io/v1/logs".to_owned(),
            authorization: None,
            organization: None,
            stream_name: "support_cafe_backend".to_owned(),
            service_name: "support-cafe-backend".to_owned(),
        }
    }
}

/// What the log exporter is configured with.
pub enum OtelSettings {
    /// Exporting is off; the exporter keeps its own defaults.
    Disabled,
    /// Exporting is on, to `endpoint`, with these request headers.
    Enabled { service_name: String, endpoint: String, headers: Vec<(String, String)> },
}

/// The views of a list of header pairs.
pub open spec fn header_views(h: Seq<(String, String)>) -> Seq<(Seq<char>, Seq<char>)> {
    h.map_values(|p: (String, String)| (p.0@, p.1@))
}

/// The exporter headers: `authorization` and `organization` when set, and
/// always `stream-name`.
pub open spec fn otel_headers(
    authorization: Option<Seq<char>>,
    organization: Option<Seq<char>>,
    stream_name: Seq<char>,
) -> Seq<(Seq<char>, Seq<char>)> {
    let a = match authorization {
        Some(v) => seq![("authorization"@, v)],
        None => Seq::empty(),
    };
    let o = match organization {
        Some(v) => seq![("organization"@, v)],
        None => Seq::empty(),
    };
    a + o + seq![("stream-name"@, stream_name)]
}

impl OtelLogConfig {
    /// The exporter settings: nothing when disabled; otherwise the service
    /// name, the endpoint and the headers of `otel_headers`.
    pub fn into_otel_config(self) -> (r: OtelSettings)
        ensures
            !self.enabled ==> r is Disabled,
            self.enabled ==> (r matches OtelSettings::Enabled { service_name, endpoint, headers } && service_name
                == self.service_name && endpoint == self.endpoint && header_views(headers@)
                == otel_headers(opt_view(self.authorization), opt_view(self.organization), self.stream_name@)),
    {
        if !self.enabled {
            return OtelSettings::Disabled;
        }
        let mut headers: Vec<(String, String)> = Vec::new();
        let ghost a = opt_view(self.authorization);
        let ghost o = opt_view(self.organization);
        if let Some(auth) = self.authorization {
            headers.push(("authorization".to_owned(), auth));
        }
        if let Some(org) = self.organization {
            headers.push(("organization".to_owned(), org));
        }
        headers.push(("stream-name".to_owned(), self.stream_name));
        assert(header_views(headers@) =~= otel_headers(a, o, self.stream_name@));
        OtelSettings::Enabled { service_name: self.service_name, endpoint: self.endpoint, headers }
    }
}

/// Where the tables are stored on disk.
pub struct DatabaseConfig {
    pub path: String,
}

impl Default for DatabaseConfig {
    fn default() -> (r: Self)
        ensures
            r.path@ == "/var/lib/tg_support/data"@,
    {
        DatabaseConfig { path: "/var/lib/tg_support/data".to_owned() }
    }
}

/// Settings of the service itself.
pub struct ServiceConfig {
    pub platform_api_key: String,
}

impl Default for ServiceConfig {
    fn default() -> (r: Self)
        ensures
            r.platform_api_key@ == "default-platform-key"@,
    {
        ServiceConfig { platform_api_key: "default-platform-key".to_owned() }
    }
}


/// Mirroring of the tables to S3-compatible storage.
pub struct S3Config {
    pub bucket_name: String,
    pub endpoint: String,
    pub access_key: Option<String>,
    pub secret_key: Option<String>,
    pub prefix: String,
    pub sync_frequency_secs: u64,
}

impl Default for S3Config {
    fn default() -> (r: Self)
        ensures
            r.bucket_name@ == "tg-support-db"@,
            r.endpoint@ == "https://t3.storage.dev"@,
            r.access_key is None,
            r.secret_key is None,
            r.prefix@ == "db"@,
            r.sync_frequency_secs == 300,
    {
        S3Config {
            bucket_name: "tg-support-db".to_owned(),
            endpoint: "https://t3.storage.dev".to_owned(),
            access_key: None,
            secret_key: None,
            prefix: "db".to_owned(),
            sync_frequency_secs: 300,
        }
    }
}

/// The S3 settings a table mirror is opened with.
pub struct StorageS3Settings {
    pub bucket_name: String,
    pub endpoint: String,
    pub access_key: String,
    pub secret_key: String,
    pub region: Option<String>,
    pub prefix: Option<String>,
}

impl S3Config {
    /// Whether both credentials are present.
    pub fn is_configured(&self) -> (r: bool)
        ensures
            r == (self.access_key is Some && self.secret_key is Some),
    {
        self.access_key.is_some() && self.secret_key.is_some()
    }

    /// The mirror settings the tables are opened with: the configured bucket,
    /// endpoint, credentials and prefix when both credentials are present;
    /// otherwise placeholder settings, under which the mirror fails and the
    /// tables work from disk alone.
    pub fn storage_settings(&self) -> (r: StorageS3Settings)
        ensures
            self.access_key is Some && self.secret_key is Some ==> {
                &&& r.bucket_name == self.bucket_name
                &&& r.endpoint == self.endpoint
                &&& r.access_key == self.access_key.unwrap()
                &&& r.secret_key == self.secret_key.unwrap()
                &&& r.region is None
                &&& r.prefix == Some(self.prefix)
            },
            !(self.access_key is Some && self.secret_key is Some) ==> {
                &&& r.bucket_name@ == "placeholder"@
                &&& r.endpoint@ == "https://placeholder.local"@
                &&& r.access_key@ == "placeholder"@
                &&& r.secret_key@ == "placeholder"@
                &&& r.region is None
                &&& r.prefix is None
            },
    {
        match (&self.access_key, &self.secret_key) {
            (Some(a), Some(k)) => StorageS3Settings {
                bucket_name: self.bucket_name.clone(),
                endpoint: self.endpoint.clone(),
                access_key: a.clone(),
                secret_key: k.clone(),
                region: None,
                prefix: Some(self.prefix.clone()),
            },
            _ => StorageS3Settings {
                bucket_name: "placeholder".to_owned(),
                endpoint: "https://placeholder.local".to_owned(),
                access_key: "placeholder".to_owned(),
                secret_key: "placeholder".to_owned(),
                region: None,
                prefix: None,
            },
        }
    }
}

/// S3 mirroring of the provisioned certificates.
pub struct CertS3Config {
    pub bucket_name: String,
    pub endpoint: String,
    pub access_key: Option<String>,
    pub secret_key: Option<String>,
    pub prefix: String,
    pub region: Option<String>,
}

impl Default for CertS3Config {
    fn default() -> (r: Self)
        ensures
            r.bucket_name@ == "tg-support-db"@,
            r.endpoint@ == "https://t3.storage.dev"@,
            r.access_key is None,
            r.secret_key is None,
            r.prefix@ == "certs"@,
            r.region is None,
    {
        CertS3Config {
            bucket_name: "tg-support-db".to_owned(),
            endpoint: "https://t3.storage.dev".to_owned(),
            access_key: None,
            secret_key: None,
            prefix: "certs".to_owned(),
            region: None,
        }
    }
}

impl CertS3Config {
    /// Whether both credentials are present.
    pub fn is_configured(&self) -> (r: bool)
        ensures
            r == (self.access_key is Some && self.secret_key is Some),
    {
        self.access_key.is_some() && self.secret_key.is_some()
    }
}

/// Certificate provisioning through ACME DNS-01 challenges.
pub struct AcmeConfig {
    pub email: String,
    pub domains: String,
    pub production: bool,
    pub bunny_api_key: Option<String>,
    pub cert_s3: CertS3Config,
}

impl Default for AcmeConfig {
    fn default() -> (r: Self)
        ensures
            r.email@ == "certs@pathscale.com"@,
            r.domains@ == "api.support.cafe"@,
            r.production,
            r.bunny_api_key is None,
            r.cert_s3.bucket_name@ == "tg-support-db"@,
            r.cert_s3.endpoint@ == "https://t3.storage.dev"@,
            r.cert_s3.access_key is None,
            r.cert_s3.secret_key is None,
            r.cert_s3.prefix@ == "certs"@,
            r.cert_s3.region is None,
    {
        AcmeConfig {
            email: "certs@pathscale.com".to_owned(),
            domains: "api.support.cafe".to_owned(),
            production: true,
            bunny_api_key: None,
            cert_s3: CertS3Config::default(),
        }
    }
}

/// The trimmed, non-empty pieces among `pieces`, in order.
pub open spec fn trimmed_nonempty(pieces: Seq<Seq<char>>) -> Seq<Seq<char>>
    decreases pieces.len(),
{
    if pieces.len() == 0 {
        Seq::empty()
    } else {
        let r = trimmed_nonempty(pieces.drop_last());
        let t = trim(pieces.last());
        if t.len() > 0 {
            r.push(t)
        } else {
            r
        }
    }
}

proof fn lemma_trimmed_nonempty_clean(ps: Seq<Seq<char>>, c: char)
    requires
        forall|i: int, j: int| 0 <= i < ps.len() && 0 <= j < ps[i].len() ==> ps[i][j] != c,
    ensures
        forall|i: int|
            0 <= i < trimmed_nonempty(ps).len() ==> {
                let d = #[trigger] trimmed_nonempty(ps)[i];
                &&& d.len() > 0
                &&& !is_white_space(d[0])
                &&& !is_white_space(d.last())
                &&& forall|j: int| 0 <= j < d.len() ==> d[j] != c
            },
    decreases ps.len(),
{
    if ps.len() > 0 {
        let init = ps.drop_last();
        assert forall|i: int, j: int| 0 <= i < init.len() && 0 <= j < init[i].len() implies init[i][j]
            != c by {
            assert(init[i] == ps[i]);
        }
        lemma_trimmed_nonempty_clean(init, c);
        let p = ps.last();
        lemma_trim_shape(p);
        let (a, b) = choose|a: int, b: int| 0 <= a <= b <= p.len() && trim(p) == p.subrange(a, b);
        assert forall|j: int| 0 <= j < trim(p).len() implies trim(p)[j] != c by {
            assert(trim(p)[j] == p[a + j]);
            assert(ps[ps.len() - 1] == p);
        }
        let r = trimmed_nonempty(init);
        let t = trim(p);
        assert forall|i: int| 0 <= i < trimmed_nonempty(ps).len() implies {
            let d = #[trigger] trimmed_nonempty(ps)[i];
            &&& d.len() > 0
            &&& !is_white_space(d[0])
            &&& !is_white_space(d.last())
            &&& forall|j: int| 0 <= j < d.len() ==> d[j] != c
        } by {
            if i < r.len() {
                assert(trimmed_nonempty(ps)[i] == r[i]);
            } else {
                assert(trimmed_nonempty(ps)[i] == t);
            }
        }
    }
}

/// Every listed domain is non-empty, has no white space at either end and
/// holds no comma.
pub proof fn lemma_domain_list_clean(s: Seq<char>)
    ensures
        forall|i: int|
            0 <= i < domain_list(s).len() ==> {
                let d = #[trigger] domain_list(s)[i];
                &&& d.len() > 0
                &&& !is_white_space(d[0])
                &&& !is_white_space(d.last())
                &&& forall|j: int| 0 <= j < d.len() ==> d[j] != ','
            },
{
    lemma_split_pieces_free_of_sep(s, ',');
    lemma_trimmed_nonempty_clean(split_char(s, ','), ',');
}

/// The domains of a comma-separated list: each piece trimmed, empty pieces
/// left out, the order kept.
pub open spec fn domain_list(s: Seq<char>) -> Seq<Seq<char>> {
    trimmed_nonempty(split_char(s, ','))
}

/// The domain a certificate mirror is filed under: the first piece of the
/// list, trimmed, or `default` when that piece is empty.
pub open spec fn primary_domain(s: Seq<char>) -> Seq<char> {
    let first = trim(split_char(s, ',')[0]);
    if first.len() > 0 {
        first
    } else {
        "default"@
    }
}

/// The S3 prefix of the certificate mirror: the configured prefix without
/// trailing slashes, a slash, and the primary domain.
pub open spec fn cert_prefix(prefix: Seq<char>, domains: Seq<char>) -> Seq<char> {
    trim_end_char(prefix, '/') + "/"@ + primary_domain(domains)
}

/// The S3 settings the certificate mirror is opened with.
pub struct CertSyncSettings {
    pub bucket_name: String,
    pub endpoint: String,
    pub access_key: String,
    pub secret_key: String,
    pub region: Option<String>,
    pub prefix: String,
}

impl AcmeConfig {
    /// Whether provisioning is configured: a DNS API key is present.
    pub fn is_enabled(&self) -> (r: bool)
        ensures
            r == self.bunny_api_key is Some,
    {
        self.bunny_api_key.is_some()
    }

    /// The configured domains: split on commas, trimmed, empty ones dropped.
    pub fn domains_vec(&self) -> (r: Vec<String>)
        ensures
            string_views(r@) == domain_list(self.domains@),
    {
        let chars = chars_of(self.domains.as_str());
        let pieces = split_chars(chars.as_slice(), ',');
        let mut r: Vec<String> = Vec::new();
        let mut i: usize = 0;
        while i < pieces.len()
            invariant
                i <= pieces@.len(),
                views(pieces@) == split_char(self.domains@, ','),
                string_views(r@) == trimmed_nonempty(views(pieces@).take(i as int)),
            decreases pieces@.len() - i,
        {
            let t = trim_chars(pieces[i].as_slice());
            assert(views(pieces@).take(i + 1).drop_last() =~= views(pieces@).take(i as int));
            assert(views(pieces@).take(i + 1).last() == pieces@[i as int]@);
            if t.len() > 0 {
                let s = string_of(t.as_slice());
                let ghost before = string_views(r@);
                r.push(s);
                assert(string_views(r@) =~= before.push(t@));
            }
            i = i + 1;
        }
        assert(views(pieces@).take(pieces@.len() as int) =~= views(pieces@));
        r
    }

    /// The prefix under which the certificates are mirrored.
    pub fn cert_prefix(&self) -> (r: String)
        ensures
            r@ == cert_prefix(self.cert_s3.prefix@, self.domains@),
    {
        let chars = chars_of(self.domains.as_str());
        let pieces = split_chars(chars.as_slice(), ',');
        proof {
            crate::text::lemma_split_char_nonempty(self.domains@, ',');
        }
        let first = trim_chars(pieces[0].as_slice());
        let prefix_chars = chars_of(self.cert_s3.prefix.as_str());
        let base = trim_end_char_chars(prefix_chars.as_slice(), '/');
        let mut out = string_of(base.as_slice());
        out.append("/");
        if first.len() > 0 {
            let d = string_of(first.as_slice());
            out.append(d.as_str());
        } else {
            out.append("default");
        }
        out
    }

    /// The certificate mirror: absent unless both of its credentials are
    /// present; otherwise its bucket, endpoint, credentials and region, under
    /// the prefix of `cert_prefix`.
    pub fn cert_sync_settings(&self) -> (r: Option<CertSyncSettings>)
        ensures
            !(self.cert_s3.access_key is Some && self.cert_s3.secret_key is Some) ==> r is None,
            self.cert_s3.access_key is Some && self.cert_s3.secret_key is Some ==> (r matches Some(c)
                && {
                &&& c.bucket_name == self.cert_s3.bucket_name
                &&& c.endpoint == self.cert_s3.endpoint
                &&& c.access_key == self.cert_s3.access_key.unwrap()
                &&& c.secret_key == self.cert_s3.secret_key.unwrap()
                &&& c.region == self.cert_s3.region
                &&& c.prefix@ == cert_prefix(self.cert_s3.prefix@, self.domains@)
            }),
    {
        match (&self.cert_s3.access_key, &self.cert_s3.secret_key) {
            (Some(a), Some(k)) => Some(
                CertSyncSettings {
                    bucket_name: self.cert_s3.bucket_name.clone(),
                    endpoint: self.cert_s3.endpoint.clone(),
                    access_key: a.clone(),
                    secret_key: k.clone(),
                    region: clone_opt_string(&self.cert_s3.region),
                    prefix: self.cert_prefix(),
                },
            ),
            _ => None,
        }
    }
}


/// What `Path::parent` gives for a path on the platform the crate is built
/// for, its result as a string.
pub uninterp spec fn path_parent(p: Seq<char>) -> Option<Seq<char>>;

/// What `Path::join` gives for a base path and a relative name, as a string.
pub uninterp spec fn path_join(base: Seq<char>, name: Seq<char>) -> Seq<char>;

/// Calls `Path::parent`. The result is named `path_parent` and depends on the
/// path alone; the component rules are not written out.
#[verifier::external_body]
fn parent_dir(p: &str) -> (r: Option<String>)
    ensures
        opt_view(r) == path_parent(p@),
{
    std::path::Path::new(p).parent().map(|d| d.to_string_lossy().into_owned())
}

/// Calls `Path::join`. The result is named `path_join`. As its
/// documentation shows, an absolute name replaces the base, and a relative
/// name is added to a base that does not end in a separator with one `/`
/// between them; what an empty base or one that ends in `/` gives is left to
/// the name.
#[verifier::external_body]
fn join_path(base: &str, name: &str) -> (r: String)
    ensures
        r@ == path_join(base@, name@),
        name@.len() > 0 && name@[0] == '/' ==> r@ == name@,
        base@.len() > 0 && base@.last() != '/' && name@.len() > 0 && name@[0] != '/' ==> r@ == base@
            + seq!['/'] + name@,
{
    std::path::Path::new(base).join(name).to_string_lossy().into_owned()
}

/// The directory the certificates are written to: the directory of the
/// configured certificate file, or `/certs`.
pub open spec fn cert_dir(server_cert: Option<Seq<char>>) -> Seq<char> {
    match server_cert {
        Some(c) => match path_parent(c) {
            Some(d) => d,
            None => "/certs"@,
        },
        None => "/certs"@,
    }
}

/// A certificate provisioning run, as configured.
pub struct AcmeProvision {
    pub email: String,
    pub api_key: String,
    pub domains: Vec<String>,
    pub cert_dir: String,
    pub production: bool,
    pub propagation_secs: u64,
    pub max_retries: u32,
    pub cert_sync: Option<CertSyncSettings>,
}

/// Whether and how certificates are provisioned at start-up.
pub enum AcmePlan {
    /// No DNS API key: the configured certificate files are used.
    NotConfigured,
    /// A key but no domain: the configured certificate files are used.
    NoDomains,
    /// Certificates are provisioned as described.
    Provision(AcmeProvision),
}

/// Decides whether certificates are provisioned: not without a DNS API key,
/// not without a domain; otherwise for the configured domains, into the
/// directory of the configured certificate file (or `/certs`), waiting 180
/// seconds for DNS propagation and retrying 3 times, against the production
/// directory when configured so, mirrored to S3 when that is configured.
pub fn init_acme(acme: &AcmeConfig, server: &ServerConfig) -> (r: AcmePlan)
    ensures
        acme.bunny_api_key is None ==> r is NotConfigured,
        acme.bunny_api_key is Some && domain_list(acme.domains@).len() == 0 ==> r is NoDomains,
        acme.bunny_api_key is Some && domain_list(acme.domains@).len() > 0 ==> (r matches AcmePlan::Provision(p)
            && {
            &&& p.email == acme.email
            &&& p.api_key == acme.bunny_api_key.unwrap()
            &&& string_views(p.domains@) == domain_list(acme.domains@)
            &&& p.cert_dir@ == cert_dir(opt_view(server.cert))
            &&& p.production == acme.production
            &&& p.propagation_secs == 180
            &&& p.max_retries == 3
            &&& (p.cert_sync is Some <==> (acme.cert_s3.access_key is Some && acme.cert_s3.secret_key is Some))
            &&& (p.cert_sync matches Some(c) ==> {
                &&& c.bucket_name == acme.cert_s3.bucket_name
                &&& c.endpoint == acme.cert_s3.endpoint
                &&& c.access_key == acme.cert_s3.access_key.unwrap()
                &&& c.secret_key == acme.cert_s3.secret_key.unwrap()
                &&& c.region == acme.cert_s3.region
                &&& c.prefix@ == cert_prefix(acme.cert_s3.prefix@, acme.domains@)
            })
        }),
{
    let api_key = match &acme.bunny_api_key {
        Some(k) => k.clone(),
        None => {
            return AcmePlan::NotConfigured;
        },
    };
    let domains = acme.domains_vec();
    if domains.len() == 0 {
        return AcmePlan::NoDomains;
    }
    let dir = match &server.cert {
        Some(c) => match parent_dir(c.as_str()) {
            Some(d) => d,
            None => "/certs".to_owned(),
        },
        None => "/certs".to_owned(),
    };
    AcmePlan::Provision(
        AcmeProvision {
            email: acme.email.clone(),
            api_key,
            domains,
            cert_dir: dir,
            production: acme.production,
            propagation_secs: 180,
            max_retries: 3,
            cert_sync: acme.cert_sync_settings(),
        },
    )
}

impl ServerConfig {
    /// Points the listener at the provisioned certificate chain and key in
    /// `cert_dir`; everything else stays.
    pub fn use_provisioned_certs(&mut self, cert_dir: &str)
        ensures
            opt_view(final(self).cert) == Some(path_join(cert_dir@, "fullchain.pem"@)),
            opt_view(final(self).key) == Some(path_join(cert_dir@, "privkey.pem"@)),
            cert_dir@.len() > 0 && cert_dir@.last() != '/' ==> {
                &&& opt_view(final(self).cert) == Some(cert_dir@ + seq!['/'] + "fullchain.pem"@)
                &&& opt_view(final(self).key) == Some(cert_dir@ + seq!['/'] + "privkey.pem"@)
            },
            final(self).name == old(self).name,
            final(self).address == old(self).address,
            final(self).insecure == old(self).insecure,
            final(self).pub_certs == old(self).pub_certs,
            final(self).priv_key == old(self).priv_key,
    {
        proof {
            reveal_strlit("fullchain.pem");
            reveal_strlit("privkey.pem");
        }
        self.cert = Some(join_path(cert_dir, "fullchain.pem"));
        self.key = Some(join_path(cert_dir, "privkey.pem"));
    }
}

/// Why a table rebuild does not start.
pub enum RebuildRefusal {
    /// The source mirror has no credentials.
    S3NotConfigured,
    /// No target prefix was named.
    MissingTargetPrefix,
    /// The target prefix is the source prefix.
    SamePrefix,
}

/// The two mirrors of a rebuild: the configured one, read, and the same
/// bucket under a new prefix, written.
pub struct RebuildTargets {
    pub source: StorageS3Settings,
    pub target: StorageS3Settings,
}

/// Checks a rebuild request and gives its source and target mirrors. The
/// source needs both credentials, a target prefix must be named, and it must
/// differ from the source prefix, checked in that order.
pub fn prepare_rebuild(s3: &S3Config, target_prefix: Option<String>) -> (r: Result<
    RebuildTargets,
    RebuildRefusal,
>)
    ensures
        !(s3.access_key is Some && s3.secret_key is Some) ==> r == Err::<RebuildTargets, RebuildRefusal>(
            RebuildRefusal::S3NotConfigured,
        ),
        (s3.access_key is Some && s3.secret_key is Some) && target_prefix is None ==> r == Err::<
            RebuildTargets,
            RebuildRefusal,
        >(RebuildRefusal::MissingTargetPrefix),
        (s3.access_key is Some && s3.secret_key is Some) && target_prefix is Some
            && target_prefix.unwrap()@ == s3.prefix@ ==> r == Err::<RebuildTargets, RebuildRefusal>(RebuildRefusal::SamePrefix),
        r is Ok <==> (s3.access_key is Some && s3.secret_key is Some) && target_prefix is Some
            && target_prefix.unwrap()@ != s3.prefix@,
        r matches Ok(t) ==> {
            &&& t.source.bucket_name == s3.bucket_name
            &&& t.source.endpoint == s3.endpoint
            &&& t.source.access_key == s3.access_key.unwrap()
            &&& t.source.secret_key == s3.secret_key.unwrap()
            &&& t.source.region is None
            &&& t.source.prefix == Some(s3.prefix)
            &&& t.target.bucket_name == s3.bucket_name
            &&& t.target.endpoint == s3.endpoint
            &&& t.target.access_key == s3.access_key.unwrap()
            &&& t.target.secret_key == s3.secret_key.unwrap()
            &&& t.target.region is None
            &&& t.target.prefix == target_prefix
        },
{
    if !s3.is_configured() {
        return Err(RebuildRefusal::S3NotConfigured);
    }
    let target = match target_prefix {
        Some(t) => t,
        None => {
            return Err(RebuildRefusal::MissingTargetPrefix);
        },
    };
    if target == s3.prefix {
        return Err(RebuildRefusal::SamePrefix);
    }
    let source = s3.storage_settings();
    let target_settings = StorageS3Settings {
        bucket_name: source.bucket_name.clone(),
        endpoint: source.endpoint.clone(),
        access_key: source.access_key.clone(),
        secret_key: source.secret_key.clone(),
        region: None,
        prefix: Some(target),
    };
    Ok(RebuildTargets { source, target: target_settings })
}

} // verus!
