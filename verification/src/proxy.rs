use crate::error::{Error, ErrorView};
use crate::tls::{too_long, Identity, TlsMode, MAX_INPUT_LEN};
use vstd::prelude::*;

verus! {

/// The time that a client has to send the head of a request, in seconds.
pub const HEADER_READ_TIMEOUT_SECS: u64 = 60;

/// The time between two keep-alive pings on an HTTP/2 client connection, in
/// seconds.
pub const HTTP2_KEEP_ALIVE_INTERVAL_SECS: u64 = 120;

/// The time that a client has to answer a keep-alive ping, in seconds.
pub const HTTP2_KEEP_ALIVE_TIMEOUT_SECS: u64 = 20;

/// One address that the proxy listens on.
pub struct PlannedBinding {
    /// The socket address, written as text.
    pub address: String,
    /// Whether connections to it are TLS connections.
    pub tls: bool,
}

impl View for PlannedBinding {
    type V = (Seq<char>, bool);

    open spec fn view(&self) -> (Seq<char>, bool) {
        (self.address@, self.tls)
    }
}

/// The texts of a list of strings.
pub open spec fn texts(list: Seq<String>) -> Seq<Seq<char>> {
    Seq::new(list.len(), |i: int| list[i]@)
}

/// The views of a list of bindings.
pub open spec fn planned(list: Seq<PlannedBinding>) -> Seq<(Seq<char>, bool)> {
    Seq::new(list.len(), |i: int| list[i]@)
}

/// The bindings for a list of addresses.
pub open spec fn bound(addresses: Seq<Seq<char>>, tls: bool) -> Seq<(Seq<char>, bool)> {
    Seq::new(addresses.len(), |i: int| (addresses[i], tls))
}

/// What the proxy is built from.
pub struct ProxyBuilder {
    hostname: String,
    http_bind_addresses: Vec<String>,
    https_bind_addresses: Vec<String>,
    tls_mode: TlsMode,
}

impl ProxyBuilder {
    /// The host name under which the proxy is reached.
    pub closed spec fn host(&self) -> Seq<char> {
        self.hostname@
    }

    /// The addresses that serve HTTP.
    pub closed spec fn http_addresses(&self) -> Seq<Seq<char>> {
        texts(self.http_bind_addresses@)
    }

    /// The addresses that serve HTTPS.
    pub closed spec fn https_addresses(&self) -> Seq<Seq<char>> {
        texts(self.https_bind_addresses@)
    }

    /// How the proxy comes by its TLS identity.
    pub closed spec fn tls(&self) -> TlsMode {
        self.tls_mode
    }

    /// A builder for a proxy on `localhost` without addresses and TLS.
    pub fn new() -> (builder: Self)
        ensures
            builder.host() == "localhost"@,
            builder.http_addresses() == Seq::<Seq<char>>::empty(),
            builder.https_addresses() == Seq::<Seq<char>>::empty(),
            builder.tls() is Disabled,
    {
        let builder = ProxyBuilder {
            hostname: "localhost".to_owned(),
            http_bind_addresses: Vec::new(),
            https_bind_addresses: Vec::new(),
            tls_mode: TlsMode::Disabled,
        };
        assert(builder.http_addresses() =~= Seq::<Seq<char>>::empty());
        assert(builder.https_addresses() =~= Seq::<Seq<char>>::empty());
        builder
    }

    /// Sets the host name under which the proxy is reached.
    pub fn hostname(&mut self, hostname: &str)
        ensures
            final(self).host() == hostname@,
            final(self).http_addresses() == old(self).http_addresses(),
            final(self).https_addresses() == old(self).https_addresses(),
            final(self).tls() == old(self).tls(),
    {
        self.hostname = hostname.to_owned();
    }

    /// Adds an address that serves HTTP.
    pub fn http_bind_address(&mut self, address: &str)
        ensures
            final(self).host() == old(self).host(),
            final(self).http_addresses() == old(self).http_addresses().push(address@),
            final(self).https_addresses() == old(self).https_addresses(),
            final(self).tls() == old(self).tls(),
    {
        self.http_bind_addresses.push(address.to_owned());
        assert(self.http_addresses() =~= old(self).http_addresses().push(address@));
    }

    /// Adds an address that serves HTTPS.
    pub fn https_bind_address(&mut self, address: &str)
        ensures
            final(self).host() == old(self).host(),
            final(self).http_addresses() == old(self).http_addresses(),
            final(self).https_addresses() == old(self).https_addresses().push(address@),
            final(self).tls() == old(self).tls(),
    {
        self.https_bind_addresses.push(address.to_owned());
        assert(self.https_addresses() =~= old(self).https_addresses().push(address@));
    }

    /// Sets the TLS identity from a key and a certificate chain, both in
    /// PEM format. Where they give no identity nothing changes: a key or a
    /// chain that is too long for OpenSSL (only such an input fails in this
    /// way) or that it cannot read, and a chain without a certificate.
    pub fn tls_identity(&mut self, key: &[u8], cert: &[u8]) -> (done: Result<(), Error>)
        ensures
            final(self).host() == old(self).host(),
            final(self).http_addresses() == old(self).http_addresses(),
            final(self).https_addresses() == old(self).https_addresses(),
            done is Ok ==> final(self).tls() is Simple,
            done is Err ==> final(self).tls() == old(self).tls(),
            (done matches Err(e) && e@ == too_long()) <==> (key@.len() > MAX_INPUT_LEN
                || cert@.len() > MAX_INPUT_LEN),
            done matches Err(e) ==> e@ == too_long() || e@.msg == "OpenSSL"@ || e@.msg
                == "empty certificate chain"@,
    {
        match Identity::from_pkcs8(cert, key) {
            Ok(identity) => {
                self.tls_mode = TlsMode::Simple(identity);
                Ok(())
            },
            Err(e) => Err(e),
        }
    }

    /// Has the TLS identity issued by Let's Encrypt.
    pub fn lets_encrypt(&mut self)
        ensures
            final(self).host() == old(self).host(),
            final(self).http_addresses() == old(self).http_addresses(),
            final(self).https_addresses() == old(self).https_addresses(),
            final(self).tls() is LetsEncrypt,
    {
        self.tls_mode = TlsMode::LetsEncrypt;
    }

    /// The host name under which the proxy is reached.
    pub fn host_name(&self) -> (hostname: &str)
        ensures
            hostname@ == self.host(),
    {
        self.hostname.as_str()
    }

    /// How the proxy comes by its TLS identity.
    pub fn tls_mode(&self) -> (mode: &TlsMode)
        ensures
            *mode == self.tls(),
    {
        &self.tls_mode
    }

    /// The addresses that the proxy listens on, in the order in which the
    /// listeners are made: those for HTTP, then, with TLS, those for HTTPS.
    pub fn create_bindings(&self, has_acceptor: bool) -> (bindings: Vec<PlannedBinding>)
        ensures
            planned(bindings@) == bound(self.http_addresses(), false) + (if has_acceptor {
                bound(self.https_addresses(), true)
            } else {
                Seq::empty()
            }),
    {
        let mut bindings: Vec<PlannedBinding> = Vec::new();
        let mut i: usize = 0;
        assert(planned(bindings@) =~= bound(self.http_addresses(), false).subrange(0, 0));
        while i < self.http_bind_addresses.len()
            invariant
                i <= self.http_bind_addresses@.len(),
                bindings@.len() == i,
                planned(bindings@) == bound(self.http_addresses(), false).subrange(0, i as int),
            decreases self.http_bind_addresses@.len() - i,
        {
            let ghost before = planned(bindings@);
            bindings.push(
                PlannedBinding { address: self.http_bind_addresses[i].clone(), tls: false },
            );
            i += 1;
            assert(planned(bindings@) =~= before.push((self.http_addresses()[i - 1], false)));
            assert(planned(bindings@) =~= bound(self.http_addresses(), false).subrange(
                0,
                i as int,
            ));
        }
        let ghost plain = bound(self.http_addresses(), false);
        assert(plain.subrange(0, i as int) =~= plain);
        if has_acceptor {
            let mut j: usize = 0;
            assert(planned(bindings@) =~= plain + bound(self.https_addresses(), true).subrange(
                0,
                0,
            ));
            while j < self.https_bind_addresses.len()
                invariant
                    j <= self.https_bind_addresses@.len(),
                    bindings@.len() == plain.len() + j,
                    plain == bound(self.http_addresses(), false),
                    planned(bindings@) == plain + bound(self.https_addresses(), true).subrange(
                        0,
                        j as int,
                    ),
                decreases self.https_bind_addresses@.len() - j,
            {
                let ghost before = planned(bindings@);
                bindings.push(
                    PlannedBinding { address: self.https_bind_addresses[j].clone(), tls: true },
                );
                j += 1;
                assert(planned(bindings@) =~= before.push((self.https_addresses()[j - 1], true)));
                assert(planned(bindings@) =~= plain + bound(
                    self.https_addresses(),
                    true,
                ).subrange(0, j as int));
            }
            assert(bound(self.https_addresses(), true).subrange(0, j as int) =~= bound(
                self.https_addresses(),
                true,
            ));
        } else {
            assert(planned(bindings@) =~= plain + Seq::<(Seq<char>, bool)>::empty());
        }
        bindings
    }
}

/// What the accept loop of the proxy meets.
pub enum AcceptEvent<C> {
    /// The proxy was asked to stop.
    Shutdown,
    /// A connection has come in.
    Connection(C),
    /// There are no listeners left.
    Closed,
    /// Accepting has failed with this description.
    Failed(std::string::String),
}

/// What the accept loop does next.
pub enum AcceptStep<C> {
    /// It leaves the loop and shuts the connections down gracefully.
    Stop,
    /// It registers the connection for graceful shutdown and serves it.
    Serve(C),
    /// It ends with this error.
    Fail(Error),
}

/// What the accept loop does about an event: it stops when asked to, serves
/// a connection, and ends with an error when accepting fails or no listener
/// is left.
pub fn accept_step<C>(event: AcceptEvent<C>) -> (step: AcceptStep<C>)
    ensures
        match event {
            AcceptEvent::Shutdown => step is Stop,
            AcceptEvent::Connection(c) => step matches AcceptStep::Serve(s) && s == c,
            AcceptEvent::Closed => step matches AcceptStep::Fail(e) && e@ == (ErrorView {
                msg: "server socket(s) closed"@,
                cause: None,
            }),
            AcceptEvent::Failed(cause) => step matches AcceptStep::Fail(e) && e@ == (ErrorView {
                msg: "IO"@,
                cause: Some(cause@),
            }),
        },
{
    match event {
        AcceptEvent::Shutdown => AcceptStep::Stop,
        AcceptEvent::Connection(c) => AcceptStep::Serve(c),
        AcceptEvent::Closed => AcceptStep::Fail(Error::from_static_msg("server socket(s) closed")),
        AcceptEvent::Failed(cause) => AcceptStep::Fail(
            Error::from_static_msg_and_cause("IO", cause.as_str()),
        ),
    }
}

/// How the server task of the proxy ended.
pub enum ServerOutcome {
    /// It ran to its end with this result.
    Finished(Result<(), Error>),
    /// It was aborted by the proxy handle.
    Aborted,
    /// It could not be joined.
    Lost,
}

/// The result of the proxy: that of its server task, and success where the
/// task was aborted or lost.
pub fn join_result(outcome: ServerOutcome) -> (result: Result<(), Error>)
    ensures
        match outcome {
            ServerOutcome::Finished(r) => result == r,
            ServerOutcome::Aborted => result is Ok,
            ServerOutcome::Lost => result is Ok,
        },
{
    match outcome {
        ServerOutcome::Finished(r) => r,
        ServerOutcome::Aborted => Ok(()),
        ServerOutcome::Lost => Ok(()),
    }
}

} // verus!
