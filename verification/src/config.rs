//! The listener configuration: the identities that the server presents,
//! the policy on client certificates and the application protocols on
//! offer, gathered by a builder and compiled once, whole or not at all.
use vstd::prelude::*;
use vstd::string::StringExecFns;
use tokio_rustls::rustls::RootCertStore;
use crate::keycert::{fault, identity_of, ConfigError, ConfigErrorKind, Identity, Keycert};
use crate::pem::pem_certificates;
use crate::text::{same_text, text_of};
use crate::trust_anchor::{first_rejected, is_store_of, read_trust_anchor, store_anchors};

verus! {

/// Whether a client certificate is asked for.
#[derive(Clone, Copy, Debug, PartialEq, Eq, Structural)]
pub enum ClientAuthMode {
    /// No certificate is asked for.
    Off,
    /// A certificate is asked for; a peer without one is let in.
    Optional,
    /// A certificate is asked for; a peer without one is rejected.
    Required,
}

/// The builder of a listener configuration.
#[derive(Debug)]
pub struct RustlsConfig {
    /// The material of the default identity, if one was named.
    pub fallback: Option<Keycert>,
    /// The material of the identities chosen by host name, in the order in
    /// which they were added.
    pub keycerts: Vec<(String, Keycert)>,
    /// Whether a client certificate is asked for.
    pub client_auth: ClientAuthMode,
    /// The PEM bundle of the trust anchors for client certificates.
    pub trust_anchor: Vec<u8>,
    /// The application protocols on offer, most wanted first; none switches
    /// the negotiation off.
    pub alpn_protocols: Vec<Vec<u8>>,
}

/// A compiled listener configuration, read by every handshake and never
/// changed.
#[derive(Debug)]
pub struct ServerConfig {
    /// The identity presented where no host name chooses another.
    pub default: Identity,
    /// The identities chosen by host name.
    pub named: Vec<(String, Identity)>,
    /// Whether a client certificate is asked for.
    pub client_auth: ClientAuthMode,
    /// The trust anchors for client certificates; present exactly where a
    /// certificate is asked for.
    pub roots: Option<RootCertStore>,
    /// The application protocols on offer, most wanted first.
    pub alpn_protocols: Vec<Vec<u8>>,
}

/// The material of the default identity: the one named as such; without
/// one, the only identity added by host name. Several of those without a
/// named default leave the choice open, which is an error.
pub open spec fn default_material(config: RustlsConfig) -> Result<Keycert, ConfigErrorKind> {
    match config.fallback {
        Some(material) => Ok(material),
        None => if config.keycerts@.len() == 0 {
            Err(ConfigErrorKind::NoIdentity)
        } else if config.keycerts@.len() == 1 {
            Ok(config.keycerts@[0].1)
        } else {
            Err(ConfigErrorKind::AmbiguousDefault)
        },
    }
}

/// Whether each of the first `n` identities added by host name decodes.
pub open spec fn named_decode(config: RustlsConfig, n: int) -> bool {
    forall|j: int| 0 <= j < n ==> identity_of((#[trigger] config.keycerts@[j]).1@) is Ok
}

/// Whether a PEM bundle reads into a store of trust anchors.
pub open spec fn trust_anchor_reads(pem: Seq<u8>) -> bool {
    match pem_certificates(pem) {
        Some(ders) => first_rejected(ders) == ders.len(),
        None => false,
    }
}

/// Whether a configuration compiles.
pub open spec fn compilable(config: RustlsConfig) -> bool {
    &&& default_material(config) is Ok
    &&& identity_of(default_material(config)->Ok_0@) is Ok
    &&& named_decode(config, config.keycerts@.len() as int)
    &&& (config.client_auth == ClientAuthMode::Off || trust_anchor_reads(config.trust_anchor@))
}

/// Whether `compiled` is the configuration that `config` compiles to.
pub open spec fn compiles_to(config: RustlsConfig, compiled: ServerConfig) -> bool {
    &&& default_material(config) is Ok
    &&& identity_of(default_material(config)->Ok_0@) == Ok::<_, ConfigErrorKind>(compiled.default@)
    &&& compiled.named@.len() == config.keycerts@.len()
    &&& forall|i: int|
        0 <= i < config.keycerts@.len() ==> (#[trigger] compiled.named@[i]).0@
            == config.keycerts@[i].0@ && identity_of(config.keycerts@[i].1@) == Ok::<
            _,
            ConfigErrorKind,
        >(compiled.named@[i].1@)
    &&& compiled.client_auth == config.client_auth
    &&& match compiled.roots {
        None => config.client_auth == ClientAuthMode::Off,
        Some(store) => config.client_auth != ClientAuthMode::Off && match pem_certificates(
            config.trust_anchor@,
        ) {
            Some(ders) => is_store_of(Ok(store), ders),
            None => false,
        },
    }
    &&& compiled.alpn_protocols == config.alpn_protocols
}

/// Whether `kind` is the first thing wrong with a configuration. The
/// default identity is judged first, then the identities added by host
/// name in their order, then the trust anchors.
pub open spec fn fails_with(config: RustlsConfig, kind: ConfigErrorKind) -> bool {
    match default_material(config) {
        Err(wrong) => kind == wrong,
        Ok(material) => match identity_of(material@) {
            Err(wrong) => kind == wrong,
            Ok(_) => if named_decode(config, config.keycerts@.len() as int) {
                &&& config.client_auth != ClientAuthMode::Off
                &&& !trust_anchor_reads(config.trust_anchor@)
                &&& kind == ConfigErrorKind::MalformedTrustAnchor
            } else {
                exists|i: int|
                    0 <= i < config.keycerts@.len() && named_decode(config, i) && identity_of(
                        (#[trigger] config.keycerts@[i]).1@,
                    ) == Err::<crate::keycert::IdentityView, _>(kind)
            },
        },
    }
}

impl RustlsConfig {
    /// A configuration with the given default identity, if any, no other
    /// identity, no client authentication and no application protocol.
    pub fn new(fallback: Option<Keycert>) -> (r: Self)
        ensures
            r.fallback == fallback,
            r.keycerts@.len() == 0,
            r.client_auth == ClientAuthMode::Off,
            r.trust_anchor@.len() == 0,
            r.alpn_protocols@.len() == 0,
    {
        RustlsConfig {
            fallback,
            keycerts: Vec::new(),
            client_auth: ClientAuthMode::Off,
            trust_anchor: Vec::new(),
            alpn_protocols: Vec::new(),
        }
    }

    /// Names the default identity.
    pub fn fallback(self, fallback: Keycert) -> (r: Self)
        ensures
            r.fallback == Some(fallback),
            r.keycerts == self.keycerts,
            r.client_auth == self.client_auth,
            r.trust_anchor == self.trust_anchor,
            r.alpn_protocols == self.alpn_protocols,
    {
        let mut config = self;
        config.fallback = Some(fallback);
        config
    }

    /// Adds an identity to be presented to clients that ask for the given
    /// host name.
    pub fn add_identity(self, hostname: String, keycert: Keycert) -> (r: Self)
        ensures
            r.fallback == self.fallback,
            r.keycerts@ == self.keycerts@.push((hostname, keycert)),
            r.client_auth == self.client_auth,
            r.trust_anchor == self.trust_anchor,
            r.alpn_protocols == self.alpn_protocols,
    {
        let mut config = self;
        config.keycerts.push((hostname, keycert));
        config
    }

    /// Sets the policy on client certificates and the PEM bundle of trust
    /// anchors against which they are verified.
    pub fn client_auth(self, trust_anchor: Vec<u8>, mode: ClientAuthMode) -> (r: Self)
        ensures
            r.fallback == self.fallback,
            r.keycerts == self.keycerts,
            r.client_auth == mode,
            r.trust_anchor == trust_anchor,
            r.alpn_protocols == self.alpn_protocols,
    {
        let mut config = self;
        config.client_auth = mode;
        config.trust_anchor = trust_anchor;
        config
    }

    /// Sets the application protocols on offer, most wanted first.
    pub fn alpn_protocols(self, protocols: Vec<Vec<u8>>) -> (r: Self)
        ensures
            r.fallback == self.fallback,
            r.keycerts == self.keycerts,
            r.client_auth == self.client_auth,
            r.trust_anchor == self.trust_anchor,
            r.alpn_protocols == protocols,
    {
        let mut config = self;
        config.alpn_protocols = protocols;
        config
    }

    /// Compiles the configuration.
    ///
    /// Every identity is decoded, and the trust anchors are read where a
    /// client certificate is asked for. Either all of it succeeds and the
    /// compiled configuration is returned, or the first thing wrong is
    /// reported and nothing is returned.
    #[verifier::loop_isolation(false)]
    pub fn compile(self) -> (r: Result<ServerConfig, ConfigError>)
        ensures
            r is Ok <==> compilable(self),
            match r {
                Ok(compiled) => compiles_to(self, compiled),
                Err(error) => fails_with(self, error.kind),
            },
    {
        let ghost config = self;
        let RustlsConfig { fallback, keycerts, client_auth, trust_anchor, alpn_protocols } = self;
        let decoded = match &fallback {
            Some(material) => material.identity(),
            None => {
                if keycerts.len() == 0 {
                    Err(fault(ConfigErrorKind::NoIdentity, "no identity configured"))
                } else if keycerts.len() == 1 {
                    keycerts[0].1.identity()
                } else {
                    Err(fault(ConfigErrorKind::AmbiguousDefault, "no default identity among several"))
                }
            },
        };
        let default = match decoded {
            Ok(identity) => identity,
            Err(error) => {
                return Err(error);
            },
        };
        let mut named: Vec<(String, Identity)> = Vec::new();
        let mut i: usize = 0;
        while i < keycerts.len()
            invariant
                0 <= i <= keycerts.len(),
                keycerts == config.keycerts,
                named_decode(config, i as int),
                named@.len() == i,
                forall|j: int|
                    0 <= j < i ==> (#[trigger] named@[j]).0@ == config.keycerts@[j].0@ && identity_of(
                        config.keycerts@[j].1@,
                    ) == Ok::<_, ConfigErrorKind>(named@[j].1@),
            decreases keycerts.len() - i,
        {
            let entry = &keycerts[i];
            match entry.1.identity() {
                Ok(identity) => {
                    named.push((entry.0.clone(), identity));
                },
                Err(error) => {
                    assert(identity_of(config.keycerts@[i as int].1@) == Err::<
                        crate::keycert::IdentityView,
                        _,
                    >(error.kind));
                    assert(!named_decode(config, config.keycerts@.len() as int));
                    return Err(error);
                },
            }
            i = i + 1;
        }
        let roots = match client_auth {
            ClientAuthMode::Off => None,
            _ => match read_trust_anchor(trust_anchor.as_slice()) {
                Ok(store) => Some(store),
                Err(error) => {
                    return Err(fault(ConfigErrorKind::MalformedTrustAnchor, error.message()));
                },
            },
        };
        Ok(ServerConfig { default, named, client_auth, roots, alpn_protocols })
    }
}

impl ServerConfig {
    /// Whether the identity at position `i` is the first one added for the
    /// host name.
    pub open spec fn first_for(&self, host: Seq<char>, i: int) -> bool {
        &&& 0 <= i < self.named@.len()
        &&& self.named@[i].0@ == host
        &&& forall|j: int| 0 <= j < i ==> (#[trigger] self.named@[j]).0@ != host
    }

    /// Whether any identity was added for the host name.
    pub open spec fn knows(&self, host: Seq<char>) -> bool {
        exists|i: int| 0 <= i < self.named@.len() && (#[trigger] self.named@[i]).0@ == host
    }

    /// Whether `chosen` is the identity presented to a client that asks for
    /// `server_name`: the first identity added for that host name, and the
    /// default where the client names no host or one that no identity was
    /// added for.
    pub open spec fn presents(&self, server_name: Option<Seq<char>>, chosen: Identity) -> bool {
        match server_name {
            Some(host) => if self.knows(host) {
                exists|i: int| self.first_for(host, i) && chosen == (#[trigger] self.named@[i]).1
            } else {
                chosen == self.default
            },
            None => chosen == self.default,
        }
    }

    /// Whether `at` is the position of the identity presented to a client
    /// that asks for `server_name`; no position stands for the default.
    pub open spec fn positions(&self, server_name: Option<Seq<char>>, at: Option<usize>) -> bool {
        match server_name {
            Some(host) => if self.knows(host) {
                at is Some && self.first_for(host, at->0 as int)
            } else {
                at is None
            },
            None => at is None,
        }
    }

    /// Finds the position of the identity to present to a client by the
    /// host name that it asks for; `None` stands for the default identity.
    #[verifier::loop_isolation(false)]
    pub fn position_for(&self, server_name: Option<&str>) -> (r: Option<usize>)
        ensures
            self.positions(text_of(server_name), r),
    {
        match server_name {
            Some(host) => {
                let mut i: usize = 0;
                while i < self.named.len()
                    invariant
                        0 <= i <= self.named.len(),
                        forall|j: int| 0 <= j < i ==> (#[trigger] self.named@[j]).0@ != host@,
                    decreases self.named.len() - i,
                {
                    if same_text(self.named[i].0.as_str(), host) {
                        assert(self.first_for(host@, i as int));
                        assert(self.named@[i as int].0@ == host@);
                        assert(self.knows(host@));
                        return Some(i);
                    }
                    i = i + 1;
                }
                None
            },
            None => None,
        }
    }

    /// Chooses the identity to present to a client by the host name that it
    /// asks for.
    pub fn select_identity(&self, server_name: Option<&str>) -> (r: &Identity)
        ensures
            self.presents(text_of(server_name), *r),
    {
        match self.position_for(server_name) {
            Some(i) => {
                assert(self.first_for(text_of(server_name)->0, i as int));
                &self.named[i].1
            },
            None => &self.default,
        }
    }

    /// Whether a client certificate is asked for.
    pub fn asks_client_certificate(&self) -> (r: bool)
        ensures
            r == (self.client_auth != ClientAuthMode::Off),
    {
        match self.client_auth {
            ClientAuthMode::Off => false,
            _ => true,
        }
    }
}

/// A client that asks for a host name gets an identity added for that
/// name, and any other client gets the default identity.
pub proof fn law_selection(config: ServerConfig, server_name: Option<Seq<char>>, chosen: Identity)
    requires
        config.presents(server_name, chosen),
    ensures
        server_name is Some && config.knows(server_name->0) ==> exists|i: int|
            0 <= i < config.named@.len() && (#[trigger] config.named@[i]).0@ == server_name->0
                && chosen == config.named@[i].1,
        !(server_name is Some && config.knows(server_name->0)) ==> chosen == config.default,
{
    if server_name is Some && config.knows(server_name->0) {
        let i = choose|i: int| config.first_for(server_name->0, i) && chosen == (
        #[trigger] config.named@[i]).1;
        assert(config.named@[i].0@ == server_name->0);
    }
}

/// No configuration both compiles and fails: where something is wrong with
/// it, it does not compile.
pub proof fn law_compiles_or_fails(config: RustlsConfig, kind: ConfigErrorKind)
    requires
        fails_with(config, kind),
    ensures
        !compilable(config),
{
}

/// A configuration of one identity whose key and certificate bytes decode,
/// without client authentication, compiles.
pub proof fn law_valid_pair_compiles(config: RustlsConfig)
    requires
        config.fallback is Some,
        identity_of(config.fallback->0@) is Ok,
        config.keycerts@.len() == 0,
        config.client_auth == ClientAuthMode::Off,
    ensures
        compilable(config),
{
}

/// A configuration whose default identity does not decode fails with what
/// is wrong with that identity, whatever else it holds.
pub proof fn law_malformed_pair_fails(config: RustlsConfig)
    requires
        config.fallback is Some,
        identity_of(config.fallback->0@) is Err,
    ensures
        !compilable(config),
        fails_with(config, identity_of(config.fallback->0@)->Err_0),
        forall|kind: ConfigErrorKind| #[trigger]
            fails_with(config, kind) ==> kind == identity_of(config.fallback->0@)->Err_0,
{
}

/// Compiling is a function of the configuration: two compiled
/// configurations of one configuration hold the same identities, the same
/// policy on client certificates with the same trust anchors, and the same
/// application protocols.
pub proof fn law_compile_deterministic(config: RustlsConfig, a: ServerConfig, b: ServerConfig)
    requires
        compiles_to(config, a),
        compiles_to(config, b),
    ensures
        a.default@ == b.default@,
        a.named@.len() == b.named@.len(),
        forall|i: int|
            0 <= i < a.named@.len() ==> (#[trigger] a.named@[i]).0@ == b.named@[i].0@
                && a.named@[i].1@ == b.named@[i].1@,
        a.client_auth == b.client_auth,
        a.roots is Some <==> b.roots is Some,
        a.roots is Some ==> store_anchors(a.roots->0) == store_anchors(b.roots->0),
        a.alpn_protocols == b.alpn_protocols,
{
    assert forall|i: int| 0 <= i < a.named@.len() implies (#[trigger] a.named@[i]).0@
        == b.named@[i].0@ && a.named@[i].1@ == b.named@[i].1@ by {
        assert(b.named@[i].0@ == config.keycerts@[i].0@);
    }
}

} // verus!
