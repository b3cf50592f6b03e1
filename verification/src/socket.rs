//! Listening sockets: those that a supervisor hands over, and the one that a
//! stand-alone server binds itself.
//!
//! A supervisor keeps its own descriptors and hands over duplicates; whoever
//! adopts a duplicate owns it and closes it.

use vstd::prelude::*;
use crate::asgi;
use crate::asgi::quote;
use crate::text;
use crate::text::{cat, str_eq, to_decimal};

verus! {

/// One listening socket, as a supervisor hands it over.
#[derive(Debug)]
pub struct InheritedSocket {
    /// `tcp4`, `tcp6`, `tcp` or `unix`.
    pub family: String,
    /// The number of a duplicated descriptor.
    pub fd: i32,
    /// A description for the log.
    pub description: String,
}

impl InheritedSocket {
    pub fn from_raw(family: String, fd: i32, description: String) -> (r: InheritedSocket)
        ensures
            r.family == family,
            r.fd == fd,
            r.description == description,
    {
        InheritedSocket { family, fd, description }
    }
}

/// What kind of listener a socket becomes.
#[derive(Debug, Clone, Copy, PartialEq, Eq, Structural)]
pub enum Family {
    Tcp,
    Unix,
}

/// The family that a name stands for.
pub open spec fn family_of(name: Seq<char>) -> Option<Family> {
    if name == "tcp4"@ || name == "tcp6"@ || name == "tcp"@ {
        Some(Family::Tcp)
    } else if name == "unix"@ {
        Some(Family::Unix)
    } else {
        None
    }
}

/// The family that a name stands for, or the text of the error.
pub fn parse_family(name: &str) -> (r: Result<Family, String>)
    ensures
        match family_of(name@) {
            Some(f) => r == Ok::<Family, String>(f),
            None => r matches Err(e) && e@ == "unsupported socket family "@ + asgi::quoted(name@)
                + " (want tcp4/tcp6/unix)"@,
        },
{
    if str_eq(name, "tcp4") || str_eq(name, "tcp6") || str_eq(name, "tcp") {
        Ok(Family::Tcp)
    } else if str_eq(name, "unix") {
        Ok(Family::Unix)
    } else {
        let head = cat("unsupported socket family ", quote(name).as_str());
        Err(cat(head.as_str(), " (want tcp4/tcp6/unix)"))
    }
}

/// What became of the attempt to adopt a socket.
#[derive(Debug)]
pub enum Adoption {
    /// It could not be set to non-blocking.
    NonblockingFailed(String),
    /// Its address could not be read.
    AddressFailed(String),
    /// No listener could be made of it.
    ListenerFailed(String),
    /// A TCP listener.
    Tcp { host: String, port: u16 },
    /// A Unix listener, with its path where it has one.
    Unix { path: Option<String> },
}

/// A bound listener.
#[derive(Debug)]
pub enum BoundListener {
    Tcp { host: String, port: u16, description: String },
    Unix { path: String, description: String },
}

/// The content of a [`BoundListener`].
pub enum BoundListenerView {
    Tcp { host: Seq<char>, port: u16, description: Seq<char> },
    Unix { path: Seq<char>, description: Seq<char> },
}

impl View for BoundListener {
    type V = BoundListenerView;

    open spec fn view(&self) -> BoundListenerView {
        match self {
            BoundListener::Tcp { host, port, description } => BoundListenerView::Tcp {
                host: host@,
                port: *port,
                description: description@,
            },
            BoundListener::Unix { path, description } => BoundListenerView::Unix {
                path: path@,
                description: description@,
            },
        }
    }
}

impl BoundListenerView {
    /// The description for the log.
    pub open spec fn about(self) -> Seq<char> {
        match self {
            BoundListenerView::Tcp { description, .. } => description,
            BoundListenerView::Unix { description, .. } => description,
        }
    }

    /// The kind of this listener.
    pub open spec fn kind(self) -> Family {
        match self {
            BoundListenerView::Tcp { .. } => Family::Tcp,
            BoundListenerView::Unix { .. } => Family::Unix,
        }
    }

    /// The address that scopes name as the server's.
    pub open spec fn address(self) -> (Seq<char>, u16) {
        match self {
            BoundListenerView::Tcp { host, port, .. } => (host, port),
            BoundListenerView::Unix { path, .. } => (path, 0),
        }
    }
}

impl BoundListener {
    /// The description for the log.
    pub fn description(&self) -> (r: &str)
        ensures
            r@ == self@.about(),
    {
        match self {
            BoundListener::Tcp { description, .. } => description.as_str(),
            BoundListener::Unix { description, .. } => description.as_str(),
        }
    }

    /// The address that scopes name as the server's. A Unix socket has its
    /// path for a host, and port 0.
    pub fn server_address(&self) -> (r: (&str, u16))
        ensures
            (r.0@, r.1) == self@.address(),
    {
        match self {
            BoundListener::Tcp { host, port, .. } => (host.as_str(), *port),
            BoundListener::Unix { path, .. } => (path.as_str(), 0),
        }
    }
}

/// Whether a socket of a family can be adopted so: a listener has the kind of
/// the family, and a Unix socket whose address cannot be read is only unnamed.
pub open spec fn fits(family: Family, outcome: Adoption) -> bool {
    match outcome {
        Adoption::Tcp { .. } | Adoption::AddressFailed(_) => family is Tcp,
        Adoption::Unix { .. } => family is Unix,
        _ => true,
    }
}

/// The listener that an adopted socket becomes, or the text of the error.
pub open spec fn adopted(
    family: Family,
    outcome: Adoption,
    description: Seq<char>,
) -> Result<BoundListenerView, Seq<char>> {
    match outcome {
        Adoption::NonblockingFailed(e) => Err("failed to set nonblocking: "@ + e@),
        Adoption::AddressFailed(e) => Err("getsockname failed: "@ + e@),
        Adoption::ListenerFailed(e) => match family {
            Family::Tcp => Err("tokio TcpListener failed: "@ + e@),
            Family::Unix => Err("tokio UnixListener failed: "@ + e@),
        },
        Adoption::Tcp { host, port } => Ok(
            BoundListenerView::Tcp { host: host@, port, description },
        ),
        Adoption::Unix { path } => Ok(
            BoundListenerView::Unix {
                path: match path {
                    Some(p) => p@,
                    None => "<unnamed unix socket>"@,
                },
                description,
            },
        ),
    }
}

/// The listener that an adopted socket becomes, or the text of the error.
pub fn adopt(family: Family, outcome: Adoption, description: String) -> (r: Result<
    BoundListener,
    String,
>)
    requires
        fits(family, outcome),
    ensures
        r matches Ok(l) ==> l@.kind() == family,
        match r {
            Ok(l) => adopted(family, outcome, description@) == Ok::<_, Seq<char>>(l@),
            Err(e) => adopted(family, outcome, description@) == Err::<BoundListenerView, _>(e@),
        },
{
    match outcome {
        Adoption::NonblockingFailed(e) => Err(cat("failed to set nonblocking: ", e.as_str())),
        Adoption::AddressFailed(e) => Err(cat("getsockname failed: ", e.as_str())),
        Adoption::ListenerFailed(e) => match family {
            Family::Tcp => Err(cat("tokio TcpListener failed: ", e.as_str())),
            Family::Unix => Err(cat("tokio UnixListener failed: ", e.as_str())),
        },
        Adoption::Tcp { host, port } => Ok(BoundListener::Tcp { host, port, description }),
        Adoption::Unix { path } => {
            let name = match path {
                Some(p) => p,
                None => "<unnamed unix socket>".to_string(),
            };
            Ok(BoundListener::Unix { path: name, description })
        },
    }
}

/// The contents of a list of listeners.
pub open spec fn listener_views(v: Seq<BoundListener>) -> Seq<BoundListenerView> {
    v.map_values(|l: BoundListener| l@)
}

/// Whether a listener is one that a socket becomes: it has the kind of the
/// socket's family and carries its description.
pub open spec fn made_of(listener: BoundListenerView, socket: InheritedSocket) -> bool {
    &&& family_of(socket.family@) == Some(listener.kind())
    &&& listener.about() == socket.description@
}

/// The adoption of the sockets that a supervisor handed over, one after the
/// other: the first that fails ends it.
pub struct Binding {
    sockets: Vec<InheritedSocket>,
    bound: Vec<BoundListener>,
}

impl Binding {
    /// The sockets that were handed over.
    pub closed spec fn sockets(self) -> Seq<InheritedSocket> {
        self.sockets@
    }

    /// The listeners so far.
    pub closed spec fn listeners(self) -> Seq<BoundListenerView> {
        listener_views(self.bound@)
    }

    /// The listeners belong to the first sockets, in order: each has the kind
    /// of its socket's family and carries its description.
    pub open spec fn ok(self) -> bool {
        &&& self.listeners().len() <= self.sockets().len()
        &&& forall|i: int|
            0 <= i < self.listeners().len() ==> made_of(
                #[trigger] self.listeners()[i],
                self.sockets()[i],
            )
    }

    /// The socket whose turn it is.
    pub open spec fn current(self) -> InheritedSocket {
        self.sockets()[self.listeners().len() as int]
    }

    /// What is to be done next: the descriptor to adopt and its family. There
    /// is nothing where all are adopted; an unknown family is an error.
    pub fn next(&self) -> (r: Result<Option<(i32, Family)>, String>)
        requires
            self.ok(),
        ensures
            if self.listeners().len() == self.sockets().len() {
                r == Ok::<Option<(i32, Family)>, String>(None)
            } else {
                match family_of(self.current().family@) {
                    Some(f) => r == Ok::<Option<(i32, Family)>, String>(
                        Some((self.current().fd, f)),
                    ),
                    None => r matches Err(e) && e@ == "unsupported socket family "@
                        + asgi::quoted(self.current().family@) + " (want tcp4/tcp6/unix)"@,
                }
            },
    {
        let i: usize = self.bound.len();
        if i == self.sockets.len() {
            return Ok(None);
        }
        match parse_family(self.sockets[i].family.as_str()) {
            Ok(f) => Ok(Some((self.sockets[i].fd, f))),
            Err(e) => Err(e),
        }
    }

    /// Takes what became of the socket whose turn it is.
    pub fn tried(&mut self, family: Family, outcome: Adoption) -> (r: Result<(), String>)
        requires
            old(self).ok(),
            old(self).listeners().len() < old(self).sockets().len(),
            family_of(old(self).current().family@) == Some(family),
            fits(family, outcome),
        ensures
            final(self).ok(),
            final(self).sockets() == old(self).sockets(),
            match adopted(family, outcome, old(self).current().description@) {
                Ok(l) => r is Ok && final(self).listeners() == old(self).listeners().push(l),
                Err(e) => {
                    &&& r matches Err(x) && x@ == e
                    &&& final(self).listeners() == old(self).listeners()
                },
            },
    {
        let i: usize = self.bound.len();
        let description = self.sockets[i].description.clone();
        match adopt(family, outcome, description) {
            Ok(l) => {
                let ghost before = self.bound@;
                self.bound.push(l);
                proof {
                    assert(listener_views(self.bound@) =~= listener_views(before).push(l@));
                }
                Ok(())
            },
            Err(e) => Err(e),
        }
    }

    /// The listeners, in the order of the sockets, once all are adopted.
    pub fn finish(self) -> (r: Result<Vec<BoundListener>, String>)
        requires
            self.ok(),
            self.listeners().len() == self.sockets().len(),
        ensures
            r matches Ok(v) ==> v@.len() == self.sockets().len() && forall|i: int|
                0 <= i < v@.len() ==> made_of((#[trigger] v@[i])@, self.sockets()[i]),
            match r {
                Ok(v) => self.sockets().len() > 0 && listener_views(v@) == self.listeners(),
                Err(e) => self.sockets().len() == 0 && e@ == "no listening sockets provided"@,
            },
    {
        if self.bound.len() == 0 {
            Err("no listening sockets provided".to_string())
        } else {
            proof {
                assert forall|i: int| 0 <= i < self.bound@.len() implies made_of(
                    (#[trigger] self.bound@[i])@,
                    self.sockets()[i],
                ) by {
                    assert(self.listeners()[i] == self.bound@[i]@);
                }
            }
            Ok(self.bound)
        }
    }
}

/// Begins to adopt the sockets that were handed over.
pub fn bind_inherited(sockets: Vec<InheritedSocket>) -> (r: Binding)
    ensures
        r.ok(),
        r.sockets() == sockets@,
        r.listeners().len() == 0,
{
    Binding { sockets, bound: Vec::new() }
}

/// One socket of an unknown family fails the whole: no listeners come of it,
/// whatever the others are.
pub proof fn unknown_family_fails_all(b: Binding, i: int)
    requires
        b.ok(),
        0 <= i < b.sockets().len(),
        family_of(b.sockets()[i].family@) is None,
    ensures
        b.listeners().len() <= i,
{
    if b.listeners().len() > i {
        assert(made_of(b.listeners()[i], b.sockets()[i]));
    }
}

/// The address that a stand-alone server binds.
pub fn bind_address(host: &str, port: u16) -> (r: String)
    ensures
        r@ == host@ + ":"@ + text::decimal(port as nat),
{
    let head = cat(host, ":");
    cat(head.as_str(), to_decimal(port as u64).as_str())
}

/// What became of the attempt to bind an address.
#[derive(Debug)]
pub enum Bind {
    /// The address cannot be read.
    Invalid(String),
    /// The address, in normal form, cannot be bound.
    Refused { address: String, error: String },
    /// The address that was bound cannot be read.
    AddressFailed(String),
    /// The address that was bound.
    Bound { local: String, host: String, port: u16 },
}

/// The listener of a stand-alone server, or the text of the error.
pub open spec fn standalone(
    host: Seq<char>,
    port: u16,
    outcome: Bind,
) -> Result<BoundListenerView, Seq<char>> {
    match outcome {
        Bind::Invalid(e) => Err(
            "invalid bind address "@ + (host + ":"@ + text::decimal(port as nat)) + ": "@ + e@,
        ),
        Bind::Refused { address, error } => Err("failed to bind "@ + address@ + ": "@ + error@),
        Bind::AddressFailed(e) => Err("getsockname failed: "@ + e@),
        Bind::Bound { local, host, port } => Ok(
            BoundListenerView::Tcp { host: host@, port, description: "http://"@ + local@ },
        ),
    }
}

/// The listener of a stand-alone server, or the text of the error.
pub fn bind_standalone(host: &str, port: u16, outcome: Bind) -> (r: Result<BoundListener, String>)
    ensures
        match r {
            Ok(l) => standalone(host@, port, outcome) == Ok::<_, Seq<char>>(l@),
            Err(e) => standalone(host@, port, outcome) == Err::<BoundListenerView, _>(e@),
        },
{
    match outcome {
        Bind::Invalid(e) => {
            let a = cat("invalid bind address ", bind_address(host, port).as_str());
            let b = cat(a.as_str(), ": ");
            Err(cat(b.as_str(), e.as_str()))
        },
        Bind::Refused { address, error } => {
            let a = cat("failed to bind ", address.as_str());
            let b = cat(a.as_str(), ": ");
            Err(cat(b.as_str(), error.as_str()))
        },
        Bind::AddressFailed(e) => Err(cat("getsockname failed: ", e.as_str())),
        Bind::Bound { local, host, port } => Ok(
            BoundListener::Tcp { host, port, description: cat("http://", local.as_str()) },
        ),
    }
}

/// Four names stand for a family: three for TCP, one for Unix sockets.
pub proof fn four_names_are_known(name: Seq<char>)
    ensures
        family_of(name) is Some <==> name == "tcp4"@ || name == "tcp6"@ || name == "tcp"@ || name
            == "unix"@,
        family_of(name) == Some(Family::Unix) <==> name == "unix"@,
{
    reveal_strlit("tcp4");
    reveal_strlit("tcp6");
    reveal_strlit("tcp");
    reveal_strlit("unix");
    assert("tcp4"@[0] == 't' && "tcp6"@[0] == 't' && "tcp"@[0] == 't' && "unix"@[0] == 'u');
}

/// A socket that was adopted is a listener with the socket's description and
/// the address that was read: host and port, or the path of a Unix socket with
/// port 0. Any other outcome is an error.
pub proof fn adoption_keeps_the_address(family: Family, outcome: Adoption, description: Seq<char>)
    requires
        fits(family, outcome),
    ensures
        adopted(family, outcome, description) is Ok <==> outcome is Tcp || outcome is Unix,
        adopted(family, outcome, description) matches Ok(l) ==> l.about() == description
            && l.kind() == family,
        outcome matches Adoption::Tcp { host, port } ==> (adopted(family, outcome, description)
            matches Ok(l) && l.address() == (host@, port)),
        outcome matches Adoption::Unix { path: Some(p) } ==> (adopted(family, outcome, description)
            matches Ok(l) && l.address() == (p@, 0u16)),
{
}

/// A stand-alone server listens where it was bound, under the address that came
/// of it; where binding failed there is no listener.
pub proof fn standalone_listens_where_bound(host: Seq<char>, port: u16, outcome: Bind)
    ensures
        standalone(host, port, outcome) is Ok <==> outcome is Bound,
        outcome matches Bind::Bound { local, host: h, port: p } ==> (standalone(host, port, outcome)
            matches Ok(l) && l.address() == (h@, p) && l.kind() is Tcp && l.about() == "http://"@
            + local@),
{
}

/// A Unix socket without a name is shown as such.
pub proof fn unnamed_sockets_are_shown(description: Seq<char>)
    ensures
        adopted(Family::Unix, Adoption::Unix { path: None }, description) matches Ok(l)
            && l.address() == ("<unnamed unix socket>"@, 0u16),
{
}

/// Every failure is told with what failed and its own reason.
pub proof fn failures_are_told(
    family: Family,
    description: Seq<char>,
    host: Seq<char>,
    port: u16,
    address: String,
    e: String,
)
    ensures
        adopted(family, Adoption::NonblockingFailed(e), description) == Err::<
            BoundListenerView,
            _,
        >("failed to set nonblocking: "@ + e@),
        adopted(family, Adoption::AddressFailed(e), description) == Err::<BoundListenerView, _>(
            "getsockname failed: "@ + e@,
        ),
        adopted(Family::Tcp, Adoption::ListenerFailed(e), description) == Err::<
            BoundListenerView,
            _,
        >("tokio TcpListener failed: "@ + e@),
        adopted(Family::Unix, Adoption::ListenerFailed(e), description) == Err::<
            BoundListenerView,
            _,
        >("tokio UnixListener failed: "@ + e@),
        standalone(host, port, Bind::AddressFailed(e)) == Err::<BoundListenerView, _>(
            "getsockname failed: "@ + e@,
        ),
        standalone(host, port, (Bind::Refused { address, error: e })) == Err::<
            BoundListenerView,
            _,
        >("failed to bind "@ + address@ + ": "@ + e@),
        standalone(host, port, Bind::Invalid(e)) == Err::<BoundListenerView, _>(
            "invalid bind address "@ + (host + seq![':'] + text::decimal(port as nat)) + ": "@ + e@,
        ),
{
    reveal_strlit(":");
    assert(":"@ =~= seq![':']);
}

/// A socket of a known family that is adopted makes a listener of that family
/// with the socket's description, and no other listener is made of it.
pub proof fn listeners_are_made_of_their_sockets(
    socket: InheritedSocket,
    family: Family,
    outcome: Adoption,
    listener: BoundListenerView,
)
    requires
        family_of(socket.family@) == Some(family),
        fits(family, outcome),
    ensures
        adopted(family, outcome, socket.description@) == Ok::<_, Seq<char>>(listener) ==> made_of(
            listener,
            socket,
        ),
        made_of(listener, socket) ==> listener.about() == socket.description@ && listener.kind()
            == family,
{
}

} // verus!
