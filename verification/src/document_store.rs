//! The document store: the per-cluster entry point.
//!
//! The builder validates the whole configuration eagerly — seed URLs
//! parsed, schemes homogeneous and matching the presence of a client
//! certificate, the certificate itself a PEM-encoded identity — and only
//! then hands out an initial configuration; nothing of this is deferred
//! into the running actor.  The store actor's own decisions — caching one
//! request executor per database, picking a server address, starting at
//! most one cluster-topology refresh at a time, installing only newer
//! topology documents — are verified transitions on `DocumentStoreActor`;
//! the message loop around them lives outside the library.

use vstd::prelude::*;

use crate::cluster_topology::ClusterTopologyInfo;
use crate::document_conventions::DocumentConventions;
use crate::raven_command::{dec_rep_int, i64_to_dec_string, spec_full_url, spec_path, spec_query,
    HttpRequest, RavenCommand, RavenCommandVariant};
use crate::request_executor::RequestExecutorActor;
use crate::node_selector::random_index;
use crate::urls::{contains_text, lemma_text_present_push, parse_url, str_eq, text_present,
    url_norm, url_parses, url_scheme, StoreUrl};
use crate::DnsOverrides;

verus! {

/// What can go wrong at the store's level; configuration trouble is
/// detected at build time, routing trouble when an address is asked for.
#[derive(Clone, Debug)]
pub enum DocumentStoreError {
    /// No URL was supplied; a store cannot exist without at least one.
    MissingUrlsError,
    /// A supplied URL string does not parse as a URL.
    InvalidUrl(String),
    /// A URL does not use the scheme the configuration demands.
    UrlSchemeError(String),
    /// The supplied bytes are not a PEM-encoded client identity.
    InvalidCertificateError,
    /// No database name was given and the store has no default.
    NoDatabaseSpecified,
    /// The currently known topology holds no node.
    NoNodeAvailable,
    UnexpectedError(String),
}

impl DocumentStoreError {
    pub open spec fn message_spec(self) -> Seq<char> {
        match self {
            DocumentStoreError::MissingUrlsError =>
                "No URLs were supplied and a document store can't exist without at least one"@,
            DocumentStoreError::InvalidUrl(s) => "Invalid URL: "@ + s@,
            DocumentStoreError::UrlSchemeError(s) => "Url does not have correct scheme: "@ + s@,
            DocumentStoreError::InvalidCertificateError => "Invalid pem file"@,
            DocumentStoreError::NoDatabaseSpecified =>
                "Unable to determine which database to operate on"@,
            DocumentStoreError::NoNodeAvailable => "Urls list is empty"@,
            DocumentStoreError::UnexpectedError(s) => s@,
        }
    }

    /// A human-readable description of the error.
    pub fn message(&self) -> (r: String)
        ensures
            r@ == self.message_spec(),
    {
        match self {
            DocumentStoreError::MissingUrlsError => String::from_str(
                "No URLs were supplied and a document store can't exist without at least one",
            ),
            DocumentStoreError::InvalidUrl(s) => {
                let mut m = String::from_str("Invalid URL: ");
                m.append(s.as_str());
                m
            },
            DocumentStoreError::UrlSchemeError(s) => {
                let mut m = String::from_str("Url does not have correct scheme: ");
                m.append(s.as_str());
                m
            },
            DocumentStoreError::InvalidCertificateError => String::from_str("Invalid pem file"),
            DocumentStoreError::NoDatabaseSpecified => String::from_str(
                "Unable to determine which database to operate on",
            ),
            DocumentStoreError::NoNodeAvailable => String::from_str("Urls list is empty"),
            DocumentStoreError::UnexpectedError(s) => s.clone(),
        }
    }
}

#[verifier::external_type_specification]
#[verifier::external_body]
pub struct ExIdentity(reqwest::Identity);

/// Whether `reqwest::Identity::from_pem` accepts these bytes as a client
/// identity.  The outcome depends on the bytes alone.
pub uninterp spec fn pem_accepted(bytes: Seq<u8>) -> bool;

/// Relies on `reqwest::Identity::from_pem`: the bytes must hold PEM items
/// making up a private key with at least one certificate; acceptance
/// depends on the byte content alone.
#[verifier::external_body]
fn identity_from_pem(pem: &Vec<u8>) -> (r: Option<reqwest::Identity>)
    ensures
        (r is Some) == pem_accepted(pem@),
{
    reqwest::Identity::from_pem(pem.as_slice()).ok()
}

/// The scheme every seed URL must use: `https` exactly when a client
/// certificate is part of the configuration.
pub open spec fn desired_scheme(require_https: bool) -> Seq<char> {
    if require_https {
        "https"@
    } else {
        "http"@
    }
}

/// Every URL string parses and uses the demanded scheme.
pub open spec fn all_urls_valid(urls: Seq<String>, require_https: bool) -> bool {
    forall|i: int|
        0 <= i < urls.len() ==> url_parses((#[trigger] urls[i])@) && url_scheme(urls[i]@)
            == desired_scheme(require_https)
}

/// `u` is the parse of the `k`-th URL string.
pub open spec fn normalization_of(urls: Seq<String>, u: StoreUrl, k: int) -> bool {
    &&& 0 <= k < urls.len()
    &&& u.text@ == url_norm(urls[k]@)
    &&& u.scheme@ == url_scheme(urls[k]@)
}

/// `u` is the parse of one of the URL strings.
pub open spec fn sourced(urls: Seq<String>, u: StoreUrl) -> bool {
    exists|k: int| #[trigger] normalization_of(urls, u, k)
}

/// `v` is exactly the set of the parsed URLs: normalized texts are
/// distinct, every input is represented by its normalization, and nothing
/// else is present.
pub open spec fn parsed_url_set(urls: Seq<String>, require_https: bool, v: Seq<StoreUrl>) -> bool {
    &&& forall|a: int, b: int|
        0 <= a < b < v.len() ==> (#[trigger] v[a]).text@ != (#[trigger] v[b]).text@
    &&& forall|i: int| 0 <= i < urls.len() ==> text_present(v, url_norm((#[trigger] urls[i])@))
    &&& forall|a: int| 0 <= a < v.len() ==> sourced(urls, #[trigger] v[a])
}

/// Law: a seed list that mixes an `http` URL with an `https` URL never
/// validates, whichever scheme the configuration demands — so `build`
/// rejects it with or without a certificate.
pub proof fn lemma_mixed_schemes_never_valid(
    urls: Seq<String>,
    i: int,
    j: int,
    require_https: bool,
)
    requires
        0 <= i < urls.len(),
        0 <= j < urls.len(),
        url_parses(urls[i]@),
        url_parses(urls[j]@),
        url_scheme(urls[i]@) == "http"@,
        url_scheme(urls[j]@) == "https"@,
    ensures
        !all_urls_valid(urls, require_https),
{
    reveal_strlit("http");
    reveal_strlit("https");
    assert("http"@.len() != "https"@.len());
    if require_https {
        assert(url_scheme(urls[i]@) != desired_scheme(require_https));
    } else {
        assert(url_scheme(urls[j]@) != desired_scheme(require_https));
    }
}

/// Turn the configured URL strings into the set of parsed addresses,
/// refusing any string that does not parse and any scheme other than the
/// demanded one.  Duplicates collapse: the result is keyed by the
/// normalized URL text.
pub fn validate_urls(urls: &Vec<String>, require_https: bool) -> (r: Result<
    Vec<StoreUrl>,
    DocumentStoreError,
>)
    ensures
        (r is Ok) == all_urls_valid(urls@, require_https),
        r matches Ok(v) ==> parsed_url_set(urls@, require_https, v@),
        match r {
            Result::Ok(_) => true,
            Result::Err(e) => match e {
                DocumentStoreError::InvalidUrl(s) => exists|i: int|
                    0 <= i < urls@.len() && !url_parses((#[trigger] urls@[i])@) && s@ == urls@[i]@,
                DocumentStoreError::UrlSchemeError(s) => exists|i: int|
                    0 <= i < urls@.len() && url_parses((#[trigger] urls@[i])@) && url_scheme(
                        urls@[i]@,
                    ) != desired_scheme(require_https) && s@ == url_norm(urls@[i]@),
                _ => false,
            },
        },
{
    let desired: &str = if require_https {
        "https"
    } else {
        "http"
    };
    let mut clean: Vec<StoreUrl> = Vec::new();
    let mut i: usize = 0;
    while i < urls.len()
        invariant
            i <= urls@.len(),
            desired@ == desired_scheme(require_https),
            forall|k: int|
                0 <= k < i ==> url_parses((#[trigger] urls@[k])@) && url_scheme(urls@[k]@)
                    == desired_scheme(require_https),
            forall|a: int, b: int|
                0 <= a < b < clean@.len() ==> (#[trigger] clean@[a]).text@ != (
                #[trigger] clean@[b]).text@,
            forall|k: int| 0 <= k < i ==> text_present(clean@, url_norm((#[trigger] urls@[k])@)),
            forall|a: int| 0 <= a < clean@.len() ==> sourced(urls@, #[trigger] clean@[a]),
        decreases urls@.len() - i,
    {
        match parse_url(urls[i].as_str()) {
            Option::None => {
                return Result::Err(DocumentStoreError::InvalidUrl(urls[i].clone()));
            },
            Option::Some(u) => {
                if !str_eq(u.scheme.as_str(), desired) {
                    return Result::Err(DocumentStoreError::UrlSchemeError(u.text));
                }
                let ghost pre = clean@;
                if !contains_text(&clean, &u) {
                    proof {
                        let ghost x = u;
                        assert forall|k: int| 0 <= k < i implies text_present(
                            pre.push(x),
                            url_norm((#[trigger] urls@[k])@),
                        ) by {
                            lemma_text_present_push(pre, x, url_norm(urls@[k]@));
                        }
                    }
                    clean.push(u);
                    proof {
                        assert forall|a: int| 0 <= a < clean@.len() implies sourced(
                            urls@,
                            #[trigger] clean@[a],
                        ) by {
                            if a < pre.len() {
                                assert(clean@[a] == pre[a]);
                                assert(sourced(urls@, pre[a]));
                            } else {
                                assert(normalization_of(urls@, clean@[a], i as int));
                            }
                        }
                        assert(clean@[clean@.len() - 1].text@ == url_norm(urls@[i as int]@));
                        assert(text_present(clean@, url_norm(urls@[i as int]@)));
                    }
                }
            },
        }
        i += 1;
    }
    Result::Ok(clean)
}

/// The configuration a freshly built store starts from: everything the
/// builder validated, consumed exactly once at construction.
#[derive(Debug)]
pub struct DocumentStoreInitialConfiguration {
    pub client_identity: Option<reqwest::Identity>,
    pub initial_urls: Vec<StoreUrl>,
    pub database_name: Option<String>,
    pub dns_overrides: Option<DnsOverrides>,
    pub proxy_address: Option<String>,
}

/// Configures and validates a document store.  The builder is a template:
/// `build` may be called any number of times and each call produces an
/// independent configuration.
#[derive(Debug)]
pub struct DocumentStoreBuilder {
    /// PEM bytes of the client identity, when mTLS is wanted.  The caller
    /// reads the certificate file; the builder only validates the bytes.
    pub client_certificate: Option<Vec<u8>>,
    pub database_name: Option<String>,
    pub dns_overrides: Option<DnsOverrides>,
    pub document_store_urls: Vec<String>,
    pub proxy_address: Option<String>,
}

impl Default for DocumentStoreBuilder {
    fn default() -> (r: Self)
        ensures
            r.client_certificate is None,
            r.database_name is None,
            r.dns_overrides is None,
            r.document_store_urls@.len() == 0,
            r.proxy_address is None,
    {
        DocumentStoreBuilder {
            client_certificate: Option::None,
            database_name: Option::None,
            dns_overrides: Option::None,
            document_store_urls: Vec::new(),
            proxy_address: Option::None,
        }
    }
}

impl DocumentStoreBuilder {
    pub fn new() -> (r: Self)
        ensures
            r.client_certificate is None,
            r.database_name is None,
            r.dns_overrides is None,
            r.document_store_urls@.len() == 0,
            r.proxy_address is None,
    {
        Self::default()
    }

    pub fn set_dns_overrides(self, overrides: DnsOverrides) -> (r: Self)
        ensures
            r.dns_overrides matches Some(d) && d == overrides,
            r.client_certificate == self.client_certificate,
            r.database_name == self.database_name,
            r.document_store_urls == self.document_store_urls,
            r.proxy_address == self.proxy_address,
    {
        DocumentStoreBuilder { dns_overrides: Option::Some(overrides), ..self }
    }

    /// Supply the PEM bytes of the client identity; this also switches the
    /// demanded URL scheme to `https`.
    pub fn set_client_certificate(self, certificate_pem: Vec<u8>) -> (r: Self)
        ensures
            r.client_certificate matches Some(p) && p == certificate_pem,
            r.database_name == self.database_name,
            r.dns_overrides == self.dns_overrides,
            r.document_store_urls == self.document_store_urls,
            r.proxy_address == self.proxy_address,
    {
        DocumentStoreBuilder { client_certificate: Option::Some(certificate_pem), ..self }
    }

    pub fn set_proxy_address(self, proxy_address: &str) -> (r: Self)
        ensures
            r.proxy_address matches Some(p) && p@ == proxy_address@,
            r.client_certificate == self.client_certificate,
            r.database_name == self.database_name,
            r.dns_overrides == self.dns_overrides,
            r.document_store_urls == self.document_store_urls,
    {
        let p = String::from_str(proxy_address);
        DocumentStoreBuilder { proxy_address: Option::Some(p), ..self }
    }

    /// Add the given URL strings to the configured seed list.
    pub fn set_urls(self, urls: &Vec<String>) -> (r: Self)
        ensures
            r.document_store_urls@ == self.document_store_urls@ + urls@,
            r.client_certificate == self.client_certificate,
            r.database_name == self.database_name,
            r.dns_overrides == self.dns_overrides,
            r.proxy_address == self.proxy_address,
    {
        let mut out = self;
        let mut i: usize = 0;
        while i < urls.len()
            invariant
                i <= urls@.len(),
                out.document_store_urls@ == self.document_store_urls@ + urls@.take(i as int),
                out.client_certificate == self.client_certificate,
                out.database_name == self.database_name,
                out.dns_overrides == self.dns_overrides,
                out.proxy_address == self.proxy_address,
            decreases urls@.len() - i,
        {
            out.document_store_urls.push(urls[i].clone());
            proof {
                assert(out.document_store_urls@ =~= self.document_store_urls@ + urls@.take(
                    i + 1,
                ));
            }
            i += 1;
        }
        proof {
            assert(out.document_store_urls@ =~= self.document_store_urls@ + urls@);
        }
        out
    }

    pub fn set_database_name(self, database_name: &str) -> (r: Self)
        ensures
            r.database_name matches Some(d) && d@ == database_name@,
            r.client_certificate == self.client_certificate,
            r.dns_overrides == self.dns_overrides,
            r.document_store_urls == self.document_store_urls,
            r.proxy_address == self.proxy_address,
    {
        let d = String::from_str(database_name);
        DocumentStoreBuilder { database_name: Option::Some(d), ..self }
    }

    /// Validate everything and produce the initial configuration of a
    /// store.  There must be at least one seed URL; every URL must parse;
    /// all must use `https` when a certificate is supplied and `http` when
    /// none is; supplied certificate bytes must be a PEM-encoded identity.
    /// Each failure is its own error and nothing is coerced silently.
    pub fn build(&self) -> (r: Result<DocumentStoreInitialConfiguration, DocumentStoreError>)
        ensures
            (r is Ok) == (self.document_store_urls@.len() > 0 && all_urls_valid(
                self.document_store_urls@,
                self.client_certificate is Some,
            ) && (self.client_certificate matches Some(pem) ==> pem_accepted(pem@))),
            match r {
                Result::Ok(cfg) => {
                    &&& parsed_url_set(
                        self.document_store_urls@,
                        self.client_certificate is Some,
                        cfg.initial_urls@,
                    )
                    &&& (cfg.client_identity is Some) == (self.client_certificate is Some)
                    &&& cfg.database_name == self.database_name
                    &&& (cfg.dns_overrides is Some) == (self.dns_overrides is Some)
                    &&& (cfg.dns_overrides matches Some(d) ==> (self.dns_overrides matches Some(
                        d0,
                    ) && d@ == d0@))
                    &&& cfg.proxy_address == self.proxy_address
                },
                Result::Err(e) => match e {
                    DocumentStoreError::MissingUrlsError => self.document_store_urls@.len() == 0,
                    DocumentStoreError::InvalidUrl(s) => exists|i: int|
                        0 <= i < self.document_store_urls@.len() && !url_parses(
                            (#[trigger] self.document_store_urls@[i])@,
                        ) && s@ == self.document_store_urls@[i]@,
                    DocumentStoreError::UrlSchemeError(s) => exists|i: int|
                        0 <= i < self.document_store_urls@.len() && url_parses(
                            (#[trigger] self.document_store_urls@[i])@,
                        ) && url_scheme(self.document_store_urls@[i]@) != desired_scheme(
                            self.client_certificate is Some,
                        ) && s@ == url_norm(self.document_store_urls@[i]@),
                    DocumentStoreError::InvalidCertificateError => self.client_certificate matches
                        Some(pem) && !pem_accepted(pem@),
                    _ => false,
                },
            },
    {
        if self.document_store_urls.len() == 0 {
            return Result::Err(DocumentStoreError::MissingUrlsError);
        }
        let require_https = match &self.client_certificate {
            Option::Some(_) => true,
            Option::None => false,
        };
        let initial_urls = match validate_urls(&self.document_store_urls, require_https) {
            Result::Ok(v) => v,
            Result::Err(e) => {
                return Result::Err(e);
            },
        };
        let identity = match &self.client_certificate {
            Option::Some(pem) => match identity_from_pem(pem) {
                Option::Some(id) => Option::Some(id),
                Option::None => {
                    return Result::Err(DocumentStoreError::InvalidCertificateError);
                },
            },
            Option::None => Option::None,
        };
        Result::Ok(
            DocumentStoreInitialConfiguration {
                client_identity: identity,
                initial_urls,
                database_name: clone_opt_string(&self.database_name),
                dns_overrides: clone_opt_dns(&self.dns_overrides),
                proxy_address: clone_opt_string(&self.proxy_address),
            },
        )
    }
}

/// Which database name a request for an executor resolves to: the
/// explicit argument, else the store's default, else none.
pub open spec fn effective_database(requested: Option<String>, default: Option<String>) -> Option<
    Seq<char>,
> {
    match requested {
        Option::Some(d) => Option::Some(d@),
        Option::None => match default {
            Option::Some(d) => Option::Some(d@),
            Option::None => Option::None,
        },
    }
}

/// What the executor cache decided: hand back the slot of the executor
/// already serving the database, or a newly created one to be spawned.
pub enum ExecutorCacheOutcome {
    /// The executor at this slot already serves the database.
    Cached(usize),
    /// No executor served the database: this one was created for the slot.
    Created(usize, RequestExecutorActor),
}

/// The state owned by the document store actor: cluster-wide
/// configuration, the cache of one executor per database, and whatever
/// cluster topology is currently known.
pub struct DocumentStoreActor {
    pub client_identity: Option<reqwest::Identity>,
    pub dns_overrides: Option<DnsOverrides>,
    pub conventions: DocumentConventions,
    pub database_name: Option<String>,
    pub proxy_address: Option<String>,
    /// The seed addresses the store was built with; the fallback while no
    /// cluster topology is known.
    pub initial_urls: Vec<StoreUrl>,
    /// The databases an executor exists for, in creation order; names are
    /// distinct, which is what makes the executor per database unique.
    pub request_executors: Vec<String>,
    pub topology_info: ClusterTopologyInfo,
    /// At most one cluster-topology refresh runs; a second trigger while
    /// one is pending is a no-op.
    pub refresh_in_flight: bool,
}

impl DocumentStoreActor {
    /// The cache never holds two executors for the same database.
    pub open spec fn wf(self) -> bool {
        forall|i: int, j: int|
            0 <= i < j < self.request_executors@.len() ==> (#[trigger] self.request_executors@[i])@
                != (#[trigger] self.request_executors@[j])@
    }

    /// Everything that is configuration rather than mutable state.
    pub open spec fn same_config(pre: Self, post: Self) -> bool {
        &&& post.client_identity == pre.client_identity
        &&& post.dns_overrides == pre.dns_overrides
        &&& post.conventions == pre.conventions
        &&& post.database_name == pre.database_name
        &&& post.proxy_address == pre.proxy_address
        &&& post.initial_urls == pre.initial_urls
    }

    /// `u` is an address the store may currently route to: a node of the
    /// known cluster topology, or a seed while none is known.
    pub open spec fn known_address(self, u: StoreUrl) -> bool {
        if self.topology_info.topology.all_nodes@.len() > 0 {
            exists|k: int|
                0 <= k < self.topology_info.topology.all_nodes@.len() && (
                #[trigger] self.topology_info.topology.all_nodes@[k]).1 == u
        } else {
            exists|k: int| 0 <= k < self.initial_urls@.len() && (#[trigger] self.initial_urls@[k]) == u
        }
    }

    pub open spec fn has_known_address(self) -> bool {
        self.topology_info.topology.all_nodes@.len() > 0 || self.initial_urls@.len() > 0
    }

    /// A request stamped with the store's current cluster-topology
    /// version.
    pub open spec fn stamped_request(
        self,
        base: Seq<char>,
        v: RavenCommandVariant,
        req: HttpRequest,
    ) -> bool {
        &&& req.method@ == "GET"@
        &&& req.path@ == spec_path(v)
        &&& match (req.query, spec_query(v)) {
            (Option::None, Option::None) => true,
            (Option::Some(q), Option::Some(sq)) => q@ == sq,
            _ => false,
        }
        &&& req.url@ == spec_full_url(base, v)
        &&& req.headers@.len() == 1
        &&& req.headers@[0].0@ == "Topology-Etag"@
        &&& req.headers@[0].1@ == dec_rep_int(self.topology_info.etag as int)
    }

    /// A new store actor from a validated initial configuration: empty
    /// executor cache, no topology known yet, no refresh in flight,
    /// default conventions.
    pub fn new(initial_config: DocumentStoreInitialConfiguration) -> (r: Self)
        ensures
            r.wf(),
            r.client_identity == initial_config.client_identity,
            r.dns_overrides == initial_config.dns_overrides,
            r.database_name == initial_config.database_name,
            r.proxy_address == initial_config.proxy_address,
            r.initial_urls == initial_config.initial_urls,
            !r.conventions.disable_topology_updates,
            r.request_executors@.len() == 0,
            r.topology_info.topology.all_nodes@.len() == 0,
            r.topology_info.etag == 0,
            !r.refresh_in_flight,
    {
        let DocumentStoreInitialConfiguration {
            client_identity,
            initial_urls,
            database_name,
            dns_overrides,
            proxy_address,
        } = initial_config;
        DocumentStoreActor {
            client_identity,
            dns_overrides,
            conventions: DocumentConventions::default_for_single_server(),
            database_name,
            proxy_address,
            initial_urls,
            request_executors: Vec::new(),
            topology_info: ClusterTopologyInfo::empty(),
            refresh_in_flight: false,
        }
    }

    /// An address to send a non-database-scoped command to, drawn
    /// arbitrarily from the known cluster topology — or from the seeds
    /// while no topology is known, so the store is usable from the start.
    pub fn get_server_address(&self) -> (r: Result<StoreUrl, DocumentStoreError>)
        ensures
            (r is Ok) == self.has_known_address(),
            r matches Ok(u) ==> self.known_address(u),
            r matches Err(e) ==> e is NoNodeAvailable,
    {
        let nodes = &self.topology_info.topology.all_nodes;
        if nodes.len() > 0 {
            let k = random_index(nodes.len());
            Result::Ok(nodes[k].1.duplicate())
        } else if self.initial_urls.len() > 0 {
            let k = random_index(self.initial_urls.len());
            Result::Ok(self.initial_urls[k].duplicate())
        } else {
            Result::Err(DocumentStoreError::NoNodeAvailable)
        }
    }

    /// Render one command against its base server URL, stamped with the
    /// store's current topology version.  The caller performs the
    /// transfer and reports the stale-topology header back.
    pub fn prepare_raven_command_request(&self, raven_command: &RavenCommand) -> (r: HttpRequest)
        ensures
            self.stamped_request(
                raven_command.base_server_url.text@,
                raven_command.command,
                r,
            ),
    {
        let mut req = raven_command.get_http_request();
        req.push_header("Topology-Etag", i64_to_dec_string(self.topology_info.etag));
        req
    }

    /// Decide whether a cluster-topology refresh starts now.  A refresh
    /// already in flight is not duplicated; otherwise the topology query
    /// is rendered against a known address and the refresh is marked in
    /// flight.
    pub fn refresh_topology(&mut self) -> (r: Result<Option<HttpRequest>, DocumentStoreError>)
        requires
            old(self).wf(),
        ensures
            final(self).wf(),
            Self::same_config(*old(self), *final(self)),
            final(self).request_executors == old(self).request_executors,
            final(self).topology_info == old(self).topology_info,
            match r {
                Result::Ok(opt) => match opt {
                    Option::None => old(self).refresh_in_flight && final(self).refresh_in_flight,
                    Option::Some(req) => !old(self).refresh_in_flight
                        && final(self).refresh_in_flight && exists|u: StoreUrl|
                        #[trigger] old(self).known_address(u) && old(self).stamped_request(
                            u.text@,
                            RavenCommandVariant::GetClusterTopology,
                            req,
                        ),
                },
                Result::Err(e) => {
                    &&& e is NoNodeAvailable
                    &&& !old(self).has_known_address()
                    &&& final(self).refresh_in_flight == old(self).refresh_in_flight
                },
            },
    {
        if self.refresh_in_flight {
            return Result::Ok(Option::None);
        }
        match self.get_server_address() {
            Result::Err(e) => Result::Err(e),
            Result::Ok(u) => {
                let ghost uu = u;
                let cmd = RavenCommand {
                    base_server_url: u,
                    command: RavenCommandVariant::GetClusterTopology,
                };
                let mut req = cmd.get_http_request();
                req.push_header("Topology-Etag", i64_to_dec_string(self.topology_info.etag));
                self.refresh_in_flight = true;
                proof {
                    assert(old(self).known_address(uu) && old(self).stamped_request(
                        uu.text@,
                        RavenCommandVariant::GetClusterTopology,
                        req,
                    ));
                }
                Result::Ok(Option::Some(req))
            },
        }
    }

    /// Install the outcome of a cluster-topology refresh.  A strictly
    /// newer document replaces the known topology wholesale; an older or
    /// equal one, and any failure, leaves the working topology in place.
    /// Either way the refresh is no longer in flight and the version
    /// never goes backwards.
    pub fn on_topology_refreshed(&mut self, outcome: Result<ClusterTopologyInfo, DocumentStoreError>)
        requires
            old(self).wf(),
        ensures
            final(self).wf(),
            Self::same_config(*old(self), *final(self)),
            final(self).request_executors == old(self).request_executors,
            !final(self).refresh_in_flight,
            final(self).topology_info.etag >= old(self).topology_info.etag,
            match outcome {
                Result::Ok(info) => if info.etag > old(self).topology_info.etag {
                    final(self).topology_info == info
                } else {
                    final(self).topology_info == old(self).topology_info
                },
                Result::Err(_) => final(self).topology_info == old(self).topology_info,
            },
    {
        self.refresh_in_flight = false;
        match outcome {
            Result::Ok(info) => {
                if info.etag > self.topology_info.etag {
                    self.topology_info = info;
                }
            },
            Result::Err(_) => {},
        }
    }

    /// Resolve the database name and hand back the one executor serving
    /// it: the cached one when it exists, else a newly created one —
    /// built from the store's seeds, overrides, proxy and conventions —
    /// that takes the next slot.
    pub fn get_request_executor(&mut self, database: Option<String>) -> (r: Result<
        ExecutorCacheOutcome,
        DocumentStoreError,
    >)
        requires
            old(self).wf(),
        ensures
            final(self).wf(),
            Self::same_config(*old(self), *final(self)),
            final(self).topology_info == old(self).topology_info,
            final(self).refresh_in_flight == old(self).refresh_in_flight,
            match r {
                Result::Err(e) => {
                    &&& e is NoDatabaseSpecified
                    &&& effective_database(database, old(self).database_name) is None
                    &&& final(self).request_executors == old(self).request_executors
                },
                Result::Ok(out) => {
                    &&& effective_database(database, old(self).database_name) matches Some(dbv)
                        && match out {
                        ExecutorCacheOutcome::Cached(i) => {
                            &&& final(self).request_executors == old(self).request_executors
                            &&& i < old(self).request_executors@.len()
                            &&& (#[trigger] old(self).request_executors@[i as int])@ == dbv
                        },
                        ExecutorCacheOutcome::Created(i, actor) => {
                            &&& i == old(self).request_executors@.len()
                            &&& final(self).request_executors@.len() == old(
                                self,
                            ).request_executors@.len() + 1
                            &&& forall|k: int|
                                0 <= k < old(self).request_executors@.len()
                                    ==> final(self).request_executors@[k] == old(
                                    self,
                                ).request_executors@[k]
                            &&& final(self).request_executors@.last()@ == dbv
                            &&& forall|k: int|
                                0 <= k < old(self).request_executors@.len() ==> (
                                #[trigger] old(self).request_executors@[k])@ != dbv
                            &&& actor.wf()
                            &&& actor.database@ == dbv
                            &&& actor.phase
                                == crate::request_executor::ExecutorPhase::TopologyPending
                            &&& actor.topology is None
                            &&& !actor.refresh_in_flight
                            &&& actor.next_seed == 0
                            &&& actor.seed_errors@.len() == 0
                            &&& actor.last_known_urls@ == old(self).initial_urls@
                            &&& actor.conventions == old(self).conventions
                            &&& actor.proxy_address == old(self).proxy_address
                            &&& actor.dns_overrides@ == (match old(self).dns_overrides {
                                Option::Some(d) => d@,
                                Option::None => Seq::<(String, String)>::empty(),
                            })
                        },
                    }
                },
            },
    {
        let db: String = match database {
            Option::Some(d) => d,
            Option::None => match &self.database_name {
                Option::Some(d) => d.clone(),
                Option::None => {
                    return Result::Err(DocumentStoreError::NoDatabaseSpecified);
                },
            },
        };
        proof {
            assert(effective_database(database, old(self).database_name) == Option::Some(db@));
        }
        if let Option::Some(idx) = find_executor_slot(&self.request_executors, &db) {
            return Result::Ok(ExecutorCacheOutcome::Cached(idx));
        }
        let actor = RequestExecutorActor::new(
            db.clone(),
            clone_store_urls(&self.initial_urls),
            match &self.dns_overrides {
                Option::Some(d) => clone_dns(d),
                Option::None => Vec::new(),
            },
            clone_opt_string(&self.proxy_address),
            self.conventions,
        );
        self.request_executors.push(db);
        Result::Ok(ExecutorCacheOutcome::Created(self.request_executors.len() - 1, actor))
    }
}

/// Law: the executor cache serves each database at most once: two slots
/// whose names agree are the same slot.
pub proof fn lemma_one_executor_per_database(s: DocumentStoreActor, i: int, j: int)
    requires
        s.wf(),
        0 <= i < s.request_executors@.len(),
        0 <= j < s.request_executors@.len(),
        s.request_executors@[i]@ == s.request_executors@[j]@,
    ensures
        i == j,
{
    if i < j {
        assert(s.request_executors@[i]@ != s.request_executors@[j]@);
    }
    if j < i {
        assert(s.request_executors@[j]@ != s.request_executors@[i]@);
    }
}

/// The slot of the executor already serving this database, if any.
fn find_executor_slot(executors: &Vec<String>, db: &String) -> (r: Option<usize>)
    ensures
        r matches Some(i) ==> i < executors@.len() && executors@[i as int]@ == db@,
        r is None ==> forall|k: int|
            0 <= k < executors@.len() ==> (#[trigger] executors@[k])@ != db@,
{
    let mut idx: usize = 0;
    while idx < executors.len()
        invariant
            idx <= executors@.len(),
            forall|k: int| 0 <= k < idx ==> (#[trigger] executors@[k])@ != db@,
        decreases executors@.len() - idx,
    {
        if executors[idx] == *db {
            return Option::Some(idx);
        }
        idx += 1;
    }
    Option::None
}

fn clone_opt_string(o: &Option<String>) -> (r: Option<String>)
    ensures
        r == *o,
{
    match o {
        Option::Some(s) => Option::Some(s.clone()),
        Option::None => Option::None,
    }
}

fn clone_opt_dns(o: &Option<DnsOverrides>) -> (r: Option<DnsOverrides>)
    ensures
        (r is Some) == (o is Some),
        r matches Some(d) ==> (o matches Some(d0) && d@ == d0@),
{
    match o {
        Option::Some(d) => Option::Some(clone_dns(d)),
        Option::None => Option::None,
    }
}

fn clone_dns(d: &DnsOverrides) -> (r: DnsOverrides)
    ensures
        r@ == d@,
{
    let mut out: DnsOverrides = Vec::new();
    let mut i: usize = 0;
    while i < d.len()
        invariant
            i <= d@.len(),
            out@.len() == i,
            forall|k: int| 0 <= k < i ==> out@[k] == d@[k],
        decreases d@.len() - i,
    {
        out.push((d[i].0.clone(), d[i].1.clone()));
        i += 1;
    }
    proof {
        assert(out@ =~= d@);
    }
    out
}

fn clone_store_urls(v: &Vec<StoreUrl>) -> (r: Vec<StoreUrl>)
    ensures
        r@ == v@,
{
    let mut out: Vec<StoreUrl> = Vec::new();
    let mut i: usize = 0;
    while i < v.len()
        invariant
            i <= v@.len(),
            out@.len() == i,
            forall|k: int| 0 <= k < i ==> out@[k] == v@[k],
        decreases v@.len() - i,
    {
        out.push(v[i].duplicate());
        i += 1;
    }
    proof {
        assert(out@ =~= v@);
    }
    out
}

/// Where a store stands in its lifecycle.
#[derive(Clone, Copy, Debug)]
pub enum DocumentStoreState {
    /// The store was initialized but has since been closed.
    Closed,
    /// The store is initialized.
    Initialized,
    /// The store has not yet been initialized.
    Unitilialized,
}

/// Reserved conventions surface.
#[derive(Clone, Copy, Debug)]
pub struct Conventions;

/// Stands in for a trust store until certificate pinning lands.
pub struct CertificatePlaceholder;

/// Reserved change-notification surface.
pub struct DatabaseChanges;

/// Reserved builder for change notifications.
pub struct DatabaseChangesBuilder;

/// Reserved subscription surface.
#[derive(Debug)]
pub struct DocumentSubscription;

} // verus!
