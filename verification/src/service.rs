//! The local service that a tunnel forwards to.
use crate::text::{
    cat2, cat3, decimal, decimal_text, is_digit, law_port, lemma_decimal_digits, lemma_decimal_port,
    parse_port, port_of, starts_with,
};
use vstd::prelude::*;

verus! {

/// Whether `s` names its scheme, `http` or `https`.
pub open spec fn has_scheme(s: Seq<char>) -> bool {
    "http://"@.is_prefix_of(s) || "https://"@.is_prefix_of(s)
}

/// The scheme that a service on `port` of this machine is taken to speak.
pub open spec fn scheme_of(port: u16) -> Seq<char> {
    if port == 443 || port == 8443 {
        "https"@
    } else {
        "http"@
    }
}

/// The service that `local` stands for: a URL stands for itself, a port for
/// that port of this machine, anything else for what follows `localhost:`.
pub open spec fn service_url(local: Seq<char>) -> Seq<char> {
    if has_scheme(local) {
        local
    } else {
        match port_of(local) {
            Some(port) => scheme_of(port) + "://localhost:"@ + decimal(port as nat),
            None => "http://localhost:"@ + local,
        }
    }
}

/// The URL of the local service that `local` stands for.
pub fn normalize_service(local: &str) -> (r: String)
    ensures
        r@ == service_url(local@),
{
    if starts_with(local, "http://") || starts_with(local, "https://") {
        local.to_string()
    } else if let Some(port) = parse_port(local) {
        let scheme = if port == 443 || port == 8443 {
            "https"
        } else {
            "http"
        };
        cat3(scheme, "://localhost:", decimal_text(port as usize).as_str())
    } else {
        cat2("http://localhost:", local)
    }
}

/// Whatever the text, the service it stands for names its scheme.
pub proof fn law_service_has_scheme(local: Seq<char>)
    ensures
        has_scheme(service_url(local)),
{
    reveal_strlit("http");
    reveal_strlit("https");
    reveal_strlit("http://");
    reveal_strlit("https://");
    reveal_strlit("://localhost:");
    reveal_strlit("http://localhost:");
    let url = service_url(local);
    if !has_scheme(local) {
        if port_of(local) is Some && scheme_of(port_of(local)->0)
            == "https"@ {
            assert("https://"@.is_prefix_of(url));
        } else {
            assert("http://"@.is_prefix_of(url));
        }
    }
}

/// A service that was already found stands for itself.
pub proof fn law_service_is_idempotent(local: Seq<char>)
    ensures
        service_url(service_url(local)) == service_url(local),
{
    law_service_has_scheme(local);
}

/// A port stands for that port of this machine, over `https` where the port is
/// 443 or 8443.
pub proof fn law_port_service(port: u16)
    ensures
        service_url(decimal(port as nat)) == scheme_of(port) + "://localhost:"@
            + decimal(port as nat),
{
    reveal_strlit("http://");
    reveal_strlit("https://");
    let d = decimal(port as nat);
    lemma_decimal_digits(port as nat);
    lemma_decimal_port(port);
    assert(is_digit(d[0]));
    assert(!has_scheme(d)) by {
        assert("http://"@[0] == 'h');
        assert("https://"@[0] == 'h');
    }
}

/// A URL over `http` or `https` stands for itself, character by character.
pub proof fn law_url_stands_for_itself(rest: Seq<char>)
    ensures
        service_url("http://"@ + rest) == "http://"@ + rest,
        service_url("https://"@ + rest) == "https://"@ + rest,
{
    reveal_strlit("http://");
    reveal_strlit("https://");
    assert("http://"@.is_prefix_of("http://"@ + rest)) by {
        assert(("http://"@ + rest).subrange(0, 7) =~= "http://"@);
    }
    assert("https://"@.is_prefix_of("https://"@ + rest)) by {
        assert(("https://"@ + rest).subrange(0, 8) =~= "https://"@);
    }
}

/// A port is reached on this machine, over `https` where it is 443 or 8443 and over
/// `http` where it is not, whichever way it was written.
pub proof fn law_port_of_this_machine(local: Seq<char>, port: u16)
    requires
        port_of(local) == Some(port),
    ensures
        port == 443 || port == 8443 ==> service_url(local) == "https://localhost:"@ + decimal(
            port as nat,
        ),
        port != 443 && port != 8443 ==> service_url(local) == "http://localhost:"@ + decimal(
            port as nat,
        ),
{
    reveal_strlit("http");
    reveal_strlit("https");
    reveal_strlit("http://");
    reveal_strlit("https://");
    reveal_strlit("://localhost:");
    reveal_strlit("http://localhost:");
    reveal_strlit("https://localhost:");
    assert(!has_scheme(local)) by {
        if local.len() > 0 && local[0] == 'h' {
            law_port(0, local, 0);
        }
        assert("http://"@[0] == 'h');
        assert("https://"@[0] == 'h');
    }
    assert("https"@ + "://localhost:"@ =~= "https://localhost:"@);
    assert("http"@ + "://localhost:"@ =~= "http://localhost:"@);
}

/// Anything else follows `localhost:`.
pub proof fn law_other_service(local: Seq<char>)
    requires
        !"http://"@.is_prefix_of(local),
        !"https://"@.is_prefix_of(local),
        port_of(local) is None,
    ensures
        service_url(local) == "http://localhost:"@ + local,
{
}

} // verus!
