use vstd::prelude::*;

use crate::config::LogConfig;

verus! {

/// Name and value of one request header.
pub type Header = (String, String);

/// View of a header list as pairs of character sequences.
pub open spec fn headers_view(h: Seq<Header>) -> Seq<(Seq<char>, Seq<char>)> {
    h.map_values(|p: Header| (p.0@, p.1@))
}

/// The header names that the client/build scheme sends.
pub open spec fn client_build_names() -> Set<Seq<char>> {
    set!["POGR_CLIENT"@, "POGR_BUILD"@]
}

/// The header names that the access-key scheme sends.
pub open spec fn access_key_names() -> Set<Seq<char>> {
    set!["POGR_ACCESS"@, "POGR_SECRET"@]
}

/// The headers, in order, that authenticate a request under `c`.
pub open spec fn auth_headers_spec(c: LogConfig) -> Seq<(Seq<char>, Seq<char>)> {
    match c {
        LogConfig::ClientBuild { client_id, build_id, .. } => seq![
            ("POGR_CLIENT"@, client_id@),
            ("POGR_BUILD"@, build_id@),
        ],
        LogConfig::AccessKeys { access_key, secret_key, .. } => seq![
            ("POGR_ACCESS"@, access_key@),
            ("POGR_SECRET"@, secret_key@),
        ],
    }
}

/// Names of the headers in a header view.
pub open spec fn header_names(h: Seq<(Seq<char>, Seq<char>)>) -> Set<Seq<char>> {
    Set::new(|n: Seq<char>| exists|i: int| 0 <= i < h.len() && #[trigger] h[i].0 == n)
}

/// The two authentication headers of the configured scheme.
pub fn auth_headers(config: &LogConfig) -> (r: Vec<Header>)
    ensures
        headers_view(r@) == auth_headers_spec(*config),
{
    let mut r: Vec<Header> = Vec::new();
    match config {
        LogConfig::ClientBuild { client_id, build_id, .. } => {
            r.push((String::from_str("POGR_CLIENT"), client_id.clone()));
            r.push((String::from_str("POGR_BUILD"), build_id.clone()));
        },
        LogConfig::AccessKeys { access_key, secret_key, .. } => {
            r.push((String::from_str("POGR_ACCESS"), access_key.clone()));
            r.push((String::from_str("POGR_SECRET"), secret_key.clone()));
        },
    }
    assert(headers_view(r@) =~= auth_headers_spec(*config));
    r
}

/// The headers of each scheme name exactly that scheme's two headers, and
/// none of the other scheme's.
pub proof fn lemma_auth_headers_exclusive(c: LogConfig)
    ensures
        auth_headers_spec(c).len() == 2,
        match c {
            LogConfig::ClientBuild { .. } => header_names(auth_headers_spec(c))
                == client_build_names(),
            LogConfig::AccessKeys { .. } => header_names(auth_headers_spec(c))
                == access_key_names(),
        },
        client_build_names().disjoint(access_key_names()),
{
    reveal_strlit("POGR_CLIENT");
    reveal_strlit("POGR_BUILD");
    reveal_strlit("POGR_ACCESS");
    reveal_strlit("POGR_SECRET");
    let h = auth_headers_spec(c);
    match c {
        LogConfig::ClientBuild { .. } => {
            assert(h[0].0 == "POGR_CLIENT"@);
            assert(h[1].0 == "POGR_BUILD"@);
            assert(header_names(h) =~= client_build_names());
        },
        LogConfig::AccessKeys { .. } => {
            assert(h[0].0 == "POGR_ACCESS"@);
            assert(h[1].0 == "POGR_SECRET"@);
            assert(header_names(h) =~= access_key_names());
        },
    }
    assert("POGR_CLIENT"@[5] != "POGR_ACCESS"@[5]);
    assert("POGR_CLIENT"@[5] != "POGR_SECRET"@[5]);
    assert("POGR_BUILD"@[5] != "POGR_ACCESS"@[5]);
    assert("POGR_BUILD"@[5] != "POGR_SECRET"@[5]);
    assert(client_build_names().disjoint(access_key_names()));
}

} // verus!
