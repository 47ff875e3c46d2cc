use vstd::prelude::*;

verus! {

/// The protocol version byte that opens the greeting, the request and every reply.
pub const SOCKS_VERSION: u8 = 5;
/// Method identifier of "no authentication".
pub const METHOD_NO_AUTH: u8 = 0;
/// Method identifier of username/password authentication.
pub const METHOD_PASSWORD: u8 = 2;
/// The "no acceptable methods" marker.
pub const NO_ACCEPTABLE_METHOD: u8 = 0xff;
/// Version byte of the username/password sub-negotiation replies.
pub const AUTH_VERSION: u8 = 1;
/// Sub-negotiation status of accepted credentials.
pub const AUTH_SUCCESS: u8 = 0;
/// Sub-negotiation status of rejected credentials.
pub const AUTH_FAILURE: u8 = 0xff;

/// An authentication method the server can run.
#[derive(Clone, Copy, Debug, PartialEq, Eq, Structural)]
pub enum Method {
    NoAuth,
    Password,
}

/// The identifier of a method on the wire.
pub open spec fn method_id(m: Method) -> u8 {
    match m {
        Method::NoAuth => METHOD_NO_AUTH,
        Method::Password => METHOD_PASSWORD,
    }
}

/// The identifier of a method on the wire.
pub fn method_byte(m: Method) -> (r: u8)
    ensures
        r == method_id(m),
{
    match m {
        Method::NoAuth => METHOD_NO_AUTH,
        Method::Password => METHOD_PASSWORD,
    }
}

/// Why a greeting could not be answered with a method.
#[derive(Clone, Copy, Debug, PartialEq, Eq, Structural)]
pub enum HandshakeError {
    /// The greeting ends before its method list does.
    Truncated,
    /// The greeting is not of this protocol version.
    UnsupportedVersion(u8),
    /// None of the offered methods is one the server accepts.
    NoAcceptableMethod,
}

/// The first of the server's methods, in the server's order, that the client offers.
pub open spec fn select_method(server: Seq<Method>, offered: Seq<u8>) -> Option<Method>
    decreases server.len(),
{
    if server.len() == 0 {
        None
    } else if offered.contains(method_id(server[0])) {
        Some(server[0])
    } else {
        select_method(server.drop_first(), offered)
    }
}

/// The outcome of a greeting `[version, n, methods...]` under the server's
/// method list.
pub open spec fn negotiation(greeting: Seq<u8>, server: Seq<Method>) -> Result<
    Method,
    HandshakeError,
> {
    if greeting.len() < 2 {
        Err(HandshakeError::Truncated)
    } else if greeting[0] != SOCKS_VERSION {
        Err(HandshakeError::UnsupportedVersion(greeting[0]))
    } else if greeting.len() < 2 + greeting[1] {
        Err(HandshakeError::Truncated)
    } else {
        match select_method(server, greeting.subrange(2, 2 + greeting[1])) {
            Some(m) => Ok(m),
            None => Err(HandshakeError::NoAcceptableMethod),
        }
    }
}

fn offers(offered: &[u8], from: usize, to: usize, id: u8) -> (r: bool)
    requires
        from <= to <= offered@.len(),
    ensures
        r == offered@.subrange(from as int, to as int).contains(id),
{
    let ghost s = offered@.subrange(from as int, to as int);
    let mut i: usize = from;
    while i < to
        invariant
            from <= i <= to <= offered@.len(),
            s == offered@.subrange(from as int, to as int),
            forall|k: int| from <= k < i ==> offered@[k] != id,
        decreases to - i,
    {
        if offered[i] == id {
            assert(s[i - from] == id);
            return true;
        }
        i = i + 1;
    }
    assert forall|k: int| 0 <= k < s.len() implies s[k] != id by {
        assert(s[k] == offered@[from + k]);
    }
    false
}

/// Picks the authentication method for a greeting `[version, n, methods...]`:
/// the first of `server` (in its order) that the client offers.
pub fn negotiate(greeting: &[u8], server: &[Method]) -> (r: Result<Method, HandshakeError>)
    ensures
        r == negotiation(greeting@, server@),
{
    if greeting.len() < 2 {
        return Err(HandshakeError::Truncated);
    }
    if greeting[0] != SOCKS_VERSION {
        return Err(HandshakeError::UnsupportedVersion(greeting[0]));
    }
    let n = greeting[1] as usize;
    if greeting.len() < 2 + n {
        return Err(HandshakeError::Truncated);
    }
    let ghost offered = greeting@.subrange(2, 2 + n as int);
    let mut i: usize = 0;
    assert(server@.skip(0) =~= server@);
    while i < server.len()
        invariant
            i <= server@.len(),
            n == greeting@[1] as usize,
            greeting@.len() >= 2,
            greeting@[0] == SOCKS_VERSION,
            2 + n <= greeting@.len(),
            offered == greeting@.subrange(2, 2 + n as int),
            select_method(server@, offered) == select_method(server@.skip(i as int), offered),
        decreases server@.len() - i,
    {
        let m = server[i];
        assert(server@.skip(i as int).drop_first() =~= server@.skip(i + 1));
        assert(server@.skip(i as int)[0] == m);
        if offers(greeting, 2, 2 + n, method_byte(m)) {
            return Ok(m);
        }
        i = i + 1;
    }
    assert(server@.skip(i as int).len() == 0);
    Err(HandshakeError::NoAcceptableMethod)
}

/// The method-selection frame answering a greeting: the chosen method, or the
/// "no acceptable methods" marker.
pub open spec fn selection_frame(m: Option<Method>) -> Seq<u8> {
    match m {
        Some(m) => seq![SOCKS_VERSION, method_id(m)],
        None => seq![SOCKS_VERSION, NO_ACCEPTABLE_METHOD],
    }
}

/// Builds the method-selection frame.
pub fn selection_reply(m: Option<Method>) -> (r: Vec<u8>)
    ensures
        r@ == selection_frame(m),
{
    let id = match m {
        Some(m) => method_byte(m),
        None => NO_ACCEPTABLE_METHOD,
    };
    let r = vec![SOCKS_VERSION, id];
    assert(r@ =~= selection_frame(m));
    r
}

/// Why a username/password message was refused before any check.
#[derive(Clone, Copy, Debug, PartialEq, Eq, Structural)]
pub enum CredentialsError {
    Truncated,
    EmptyUsername,
    EmptyPassword,
}

/// The username and password of a sub-negotiation message
/// `[version, ulen, username..., plen, password...]`.
pub open spec fn parse_credentials(s: Seq<u8>) -> Result<(Seq<u8>, Seq<u8>), CredentialsError> {
    if s.len() < 2 {
        Err(CredentialsError::Truncated)
    } else if s[1] == 0 {
        Err(CredentialsError::EmptyUsername)
    } else if s.len() < 3 + s[1] {
        Err(CredentialsError::Truncated)
    } else if s[2 + s[1]] == 0 {
        Err(CredentialsError::EmptyPassword)
    } else if s.len() < 3 + s[1] + s[2 + s[1]] {
        Err(CredentialsError::Truncated)
    } else {
        let u = s[1] as int;
        let p = s[2 + u] as int;
        Ok((s.subrange(2, 2 + u), s.subrange(3 + u, 3 + u + p)))
    }
}

/// Credentials submitted by a client.
pub struct Credentials {
    pub username: Vec<u8>,
    pub password: Vec<u8>,
}

/// Reads the username and password of a sub-negotiation message.
pub fn read_credentials(msg: &[u8]) -> (r: Result<Credentials, CredentialsError>)
    ensures
        match parse_credentials(msg@) {
            Ok((u, p)) => r is Ok && r->Ok_0.username@ == u && r->Ok_0.password@ == p,
            Err(e) => r == Err::<Credentials, CredentialsError>(e),
        },
{
    if msg.len() < 2 {
        return Err(CredentialsError::Truncated);
    }
    let u = msg[1] as usize;
    if u == 0 {
        return Err(CredentialsError::EmptyUsername);
    }
    if msg.len() < 3 + u {
        return Err(CredentialsError::Truncated);
    }
    let p = msg[2 + u] as usize;
    if p == 0 {
        return Err(CredentialsError::EmptyPassword);
    }
    if msg.len() < 3 + u + p {
        return Err(CredentialsError::Truncated);
    }
    let username = crate::codec::copy_range(msg, 2, 2 + u);
    let password = crate::codec::copy_range(msg, 3 + u, 3 + u + p);
    Ok(Credentials { username, password })
}

/// Whether two byte strings are equal.
pub fn bytes_equal(a: &[u8], b: &[u8]) -> (r: bool)
    ensures
        r == (a@ == b@),
{
    if a.len() != b.len() {
        return false;
    }
    let mut i: usize = 0;
    while i < a.len()
        invariant
            i <= a@.len(),
            a@.len() == b@.len(),
            forall|k: int| 0 <= k < i ==> a@[k] == b@[k],
        decreases a@.len() - i,
    {
        if a[i] != b[i] {
            return false;
        }
        i = i + 1;
    }
    assert(a@ =~= b@);
    true
}

/// The credential policy of password mode: the submitted pair must equal the
/// configured pair exactly.
pub fn credentials_match(
    username: &[u8],
    password: &[u8],
    expected_username: &[u8],
    expected_password: &[u8],
) -> (r: bool)
    ensures
        r == (username@ == expected_username@ && password@ == expected_password@),
{
    bytes_equal(username, expected_username) && bytes_equal(password, expected_password)
}

/// The sub-negotiation status frame.
pub open spec fn auth_status_frame(accepted: bool) -> Seq<u8> {
    seq![AUTH_VERSION, if accepted { AUTH_SUCCESS } else { AUTH_FAILURE }]
}

/// Builds the sub-negotiation status frame.
pub fn auth_reply(accepted: bool) -> (r: Vec<u8>)
    ensures
        r@ == auth_status_frame(accepted),
{
    let r = if accepted {
        vec![AUTH_VERSION, AUTH_SUCCESS]
    } else {
        vec![AUTH_VERSION, AUTH_FAILURE]
    };
    assert(r@ =~= auth_status_frame(accepted));
    r
}

/// A username/password message carrying `u` and `p`.
pub open spec fn credentials_message(u: Seq<u8>, p: Seq<u8>) -> Seq<u8> {
    seq![AUTH_VERSION, u.len() as u8] + u + seq![p.len() as u8] + p
}

/// A message carrying a non-empty username and password of at most 255
/// bytes each reads back as exactly that pair.
pub proof fn lemma_credentials_round_trip(u: Seq<u8>, p: Seq<u8>)
    requires
        1 <= u.len() <= 255,
        1 <= p.len() <= 255,
    ensures
        parse_credentials(credentials_message(u, p)) == Ok::<(Seq<u8>, Seq<u8>), CredentialsError>(
            (u, p),
        ),
{
    let m = credentials_message(u, p);
    let n = u.len() as int;
    assert(m[1] == n);
    assert(m[2 + n] == p.len());
    assert(m.subrange(2, 2 + n) =~= u);
    assert(m.subrange(3 + n, 3 + n + p.len()) =~= p);
}

/// A greeting of this version that offers none of the server's methods is
/// answered with the "no acceptable methods" marker.
pub proof fn lemma_no_acceptable_method(server: Seq<Method>, offered: Seq<u8>)
    requires
        offered.len() <= 255,
        forall|i: int| 0 <= i < server.len() ==> !offered.contains(#[trigger] method_id(server[i])),
    ensures
        negotiation(seq![SOCKS_VERSION, offered.len() as u8] + offered, server) == Err::<
            Method,
            HandshakeError,
        >(HandshakeError::NoAcceptableMethod),
        selection_frame(None) == seq![SOCKS_VERSION, NO_ACCEPTABLE_METHOD],
{
    let g = seq![SOCKS_VERSION, offered.len() as u8] + offered;
    assert(g.subrange(2, 2 + g[1]) =~= offered);
    lemma_select_none(server, offered);
}

proof fn lemma_select_none(server: Seq<Method>, offered: Seq<u8>)
    requires
        forall|i: int| 0 <= i < server.len() ==> !offered.contains(#[trigger] method_id(server[i])),
    ensures
        select_method(server, offered) is None,
    decreases server.len(),
{
    if server.len() > 0 {
        assert(!offered.contains(method_id(server[0])));
        let rest = server.drop_first();
        assert forall|i: int| 0 <= i < rest.len() implies !offered.contains(
            #[trigger] method_id(rest[i]),
        ) by {
            assert(rest[i] == server[i + 1]);
        }
        lemma_select_none(rest, offered);
    }
}

} // verus!
