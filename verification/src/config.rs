//! The configuration that cloudflared runs a tunnel with.
use crate::metadata::{TunnelMeta, TunnelMetaView};
use crate::paths::{
    config_path, config_path_of, credentials_file, credentials_file_of, law_files_spelled_out,
};
use crate::service::{normalize_service, service_url};
use crate::text::{fresh, put};
use vstd::prelude::*;

verus! {

/// Which service requests for a host name go to. An empty host name stands for
/// every host name.
#[derive(Debug)]
pub struct IngressRule {
    pub hostname: String,
    pub service: String,
}

/// The texts of an [`IngressRule`].
pub struct IngressRuleView {
    pub hostname: Seq<char>,
    pub service: Seq<char>,
}

impl View for IngressRule {
    type V = IngressRuleView;

    open spec fn view(&self) -> IngressRuleView {
        IngressRuleView { hostname: self.hostname@, service: self.service@ }
    }
}

impl DeepView for IngressRule {
    type V = IngressRuleView;

    open spec fn deep_view(&self) -> IngressRuleView {
        self@
    }
}

/// The configuration of a tunnel. The first rule that fits a request decides.
#[derive(Debug)]
pub struct TunnelConfig {
    pub tunnel: String,
    pub credentials_file: String,
    pub ingress: Vec<IngressRule>,
}

/// The texts of a [`TunnelConfig`].
pub struct TunnelConfigView {
    pub tunnel: Seq<char>,
    pub credentials_file: Seq<char>,
    pub ingress: Seq<IngressRuleView>,
}

impl View for TunnelConfig {
    type V = TunnelConfigView;

    open spec fn view(&self) -> TunnelConfigView {
        TunnelConfigView {
            tunnel: self.tunnel@,
            credentials_file: self.credentials_file@,
            ingress: self.ingress.deep_view(),
        }
    }
}

/// The configuration that forwards `hostname` to `service`, and answers 404 to
/// every other request.
pub open spec fn config_of(
    home: Seq<char>,
    uuid: Seq<char>,
    hostname: Seq<char>,
    service: Seq<char>,
) -> TunnelConfigView {
    TunnelConfigView {
        tunnel: uuid,
        credentials_file: credentials_file_of(home, uuid),
        ingress: seq![
            IngressRuleView { hostname, service },
            IngressRuleView { hostname: Seq::empty(), service: "http_status:404"@ },
        ],
    }
}

/// The configuration that forwards `hostname` to `service`.
pub fn tunnel_config(home: &str, uuid: &str, hostname: &str, service: &str) -> (r: TunnelConfig)
    ensures
        r@ == config_of(home@, uuid@, hostname@, service@),
{
    let mut ingress = fresh();
    put(
        &mut ingress,
        IngressRule { hostname: hostname.to_string(), service: service.to_string() },
    );
    put(
        &mut ingress,
        IngressRule { hostname: String::new(), service: "http_status:404".to_string() },
    );
    let r = TunnelConfig {
        tunnel: uuid.to_string(),
        credentials_file: credentials_file(home, uuid),
        ingress,
    };
    assert(r@.ingress =~= config_of(home@, uuid@, hostname@, service@).ingress);
    r
}

/// What is noted of the tunnel `name` when cftun takes it on.
pub open spec fn tunnel_of(
    home: Seq<char>,
    name: Seq<char>,
    uuid: Seq<char>,
    hostname: Seq<char>,
    local: Seq<char>,
) -> TunnelMetaView {
    TunnelMetaView {
        uuid,
        hostname,
        service: service_url(local),
        config_path: config_path_of(home, name),
    }
}

/// What is noted of the tunnel `name` when cftun takes it on.
pub fn new_tunnel(home: &str, name: &str, uuid: &str, hostname: &str, local: &str) -> (r:
    TunnelMeta)
    ensures
        r@ == tunnel_of(home@, name@, uuid@, hostname@, local@),
{
    TunnelMeta {
        uuid: uuid.to_string(),
        hostname: hostname.to_string(),
        service: normalize_service(local),
        config_path: config_path(home, name),
    }
}

/// Whether `config` makes cloudflared run the tunnel that `tunnel` describes:
/// its id, and its host name forwarded to its service.
pub open spec fn configures(config: TunnelConfigView, tunnel: TunnelMetaView) -> bool {
    &&& config.tunnel == tunnel.uuid
    &&& config.ingress.len() == 2
    &&& config.ingress[0] == IngressRuleView { hostname: tunnel.hostname, service: tunnel.service }
    &&& config.ingress[1] == IngressRuleView {
        hostname: Seq::empty(),
        service: "http_status:404"@,
    }
}

/// A configuration names the tunnel and its credentials, forwards its host name, and
/// nothing else, to its service, and answers 404 to every other request.
pub proof fn law_config(
    home: Seq<char>,
    uuid: Seq<char>,
    hostname: Seq<char>,
    service: Seq<char>,
)
    ensures
        ({
            let config = config_of(home, uuid, hostname, service);
            &&& config.tunnel == uuid
            &&& config.credentials_file == credentials_file_of(home, uuid)
            &&& home.len() > 0 && home.last() != '/' && (uuid.len() == 0 || uuid[0] != '/')
                ==> config.credentials_file == home + "/.cloudflared/"@ + uuid + ".json"@
            &&& config.ingress.len() == 2
            &&& config.ingress[0].hostname == hostname
            &&& config.ingress[0].service == service
            &&& config.ingress[1].hostname.len() == 0
            &&& config.ingress[1].service == "http_status:404"@
        }),
{
    if home.len() > 0 && home.last() != '/' && (uuid.len() == 0 || uuid[0] != '/') {
        reveal_strlit(".cloudflared/");
        reveal_strlit("/.cloudflared/");
        law_files_spelled_out(home, Seq::empty(), uuid);
        assert(home.push('/') + ".cloudflared/"@ + uuid + ".json"@ =~= home + "/.cloudflared/"@
            + uuid + ".json"@);
    }
}

/// What is noted of a new tunnel is its id, its host name, the service that was
/// meant and the path of its configuration.
pub proof fn law_new_tunnel(
    home: Seq<char>,
    name: Seq<char>,
    uuid: Seq<char>,
    hostname: Seq<char>,
    local: Seq<char>,
)
    ensures
        ({
            let tunnel = tunnel_of(home, name, uuid, hostname, local);
            &&& tunnel.uuid == uuid
            &&& tunnel.hostname == hostname
            &&& tunnel.service == service_url(local)
            &&& tunnel.config_path == config_path_of(home, name)
        }),
{
}

/// What is said of a configuration is said of all that is in it.
pub proof fn law_config_in_view(c: TunnelConfig, r: IngressRule)
    ensures
        c@.tunnel == c.tunnel@,
        c@.credentials_file == c.credentials_file@,
        c@.ingress.len() == c.ingress@.len(),
        forall|i: int|
            0 <= i < c.ingress@.len() ==> #[trigger] c@.ingress[i] == c.ingress@[i]@,
        r@.hostname == r.hostname@,
        r@.service == r.service@,
{
}

} // verus!
