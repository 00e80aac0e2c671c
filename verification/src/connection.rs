use vstd::prelude::*;
use vstd::string::StrSliceExecFns;

use crate::error::Error;

verus! {

/// The abstract execution-model capability the lifecycle contract is
/// generic over.  A concrete backend picks exactly one model — thread
/// blocking, or cooperatively scheduled — and honours it consistently;
/// the contract itself mandates neither.
pub trait Runtime {}

/// The thread-blocking execution model.
pub struct Blocking;

impl Runtime for Blocking {}

/// Backend-specific, typed connection options, produced by parsing a
/// connection string.
pub trait ConnectOptions<Rt: Runtime>: Sized {
    type Connection;

    /// The connection strings this backend's parser accepts.
    spec fn url_ok(url: Seq<char>) -> bool;

    /// Parses a connection string, deterministically, into an options
    /// value.
    fn from_url(url: &str) -> (r: Result<Self, Error>)
        ensures
            r is Ok <==> Self::url_ok(url@),
            r is Err ==> r->Err_0 is UrlParseError,
    ;

    /// Opens the session these options describe.
    fn connect(self) -> (r: Result<Self::Connection, Error>)
        ensures
            r is Err ==> r->Err_0 is ConnectError,
    ;
}

/// A unique connection (session) with a specific database.
///
/// A session is created by `connect`, stays exclusively owned by one
/// logical caller, and leaves use only through the consuming `close`;
/// `ping` is a pure liveness probe that never changes its state.
pub trait Connection<Rt: Runtime>: 'static + Send + Sized {
    type Options: ConnectOptions<Rt, Connection = Self>;

    /// Whether the session is still usable.
    spec fn live(&self) -> bool;

    /// Establish a new database connection: parse `url` into options,
    /// then open the session they describe.
    fn connect(url: &str) -> (r: Result<Self, Error>)
        ensures
            r is Ok ==> <Self::Options as ConnectOptions<Rt>>::url_ok(url@) && r->Ok_0.live(),
            !<Self::Options as ConnectOptions<Rt>>::url_ok(url@) ==> r is Err
                && r->Err_0 is UrlParseError,
            r is Err && <Self::Options as ConnectOptions<Rt>>::url_ok(url@) ==> r->Err_0
                is ConnectError,
    ;

    /// Explicitly close this database connection, consuming it and
    /// releasing backend resources; the session counts as closed even
    /// when graceful teardown fails.
    fn close(self) -> (r: Result<(), Error>)
        ensures
            r is Err ==> r->Err_0 is CloseError,
    ;

    /// Checks if a connection to the database is still valid.  Reports
    /// liveness and changes nothing.
    fn ping(&mut self) -> (r: Result<(), Error>)
        ensures
            *final(self) == *old(self),
            r is Ok <==> old(self).live(),
            r is Err ==> r->Err_0 is ConnectionLostError,
    ;
}

/// A character a loopback target name may contain: a lower-case
/// letter, a digit, '.', '-' or '_'.
pub open spec fn allowed_target_char(c: char) -> bool {
    let u = c as u32;
    (97 <= u && u <= 122) || (48 <= u && u <= 57) || c == '.' || c == '-' || c == '_'
}

/// The connection strings the loopback backend accepts: the scheme
/// `memory://` followed by a nonempty target name.
pub open spec fn memory_url_ok(url: Seq<char>) -> bool {
    url.len() > 9 && url.subrange(0, 9) == ("memory://")@ && forall|i: int|
        9 <= i < url.len() ==> allowed_target_char(#[trigger] url[i])
}

/// Options for the loopback backend: an in-process session used where
/// a deployment wants the full lifecycle contract with no wire behind
/// it.
pub struct MemoryConnectOptions {
    target: String,
}

impl MemoryConnectOptions {
    /// The target name the connection string named, after the scheme.
    pub closed spec fn target_text(&self) -> Seq<char> {
        self.target@
    }

    /// The target name the connection string named, after the scheme.
    pub fn target(&self) -> (r: &str)
        ensures
            r@ == self.target_text(),
    {
        self.target.as_str()
    }
}

impl ConnectOptions<Blocking> for MemoryConnectOptions {
    type Connection = MemoryConnection;

    open spec fn url_ok(url: Seq<char>) -> bool {
        memory_url_ok(url)
    }

    fn from_url(url: &str) -> (r: Result<Self, Error>)
        ensures
            r is Ok ==> r->Ok_0.target_text() == url@.subrange(9, url@.len() as int),
    {
        let n = url.unicode_len();
        if n <= 9 {
            return Err(Error::UrlParseError);
        }
        let prefix_ok = url.get_char(0) == 'm' && url.get_char(1) == 'e' && url.get_char(2) == 'm'
            && url.get_char(3) == 'o' && url.get_char(4) == 'r' && url.get_char(5) == 'y'
            && url.get_char(6) == ':' && url.get_char(7) == '/' && url.get_char(8) == '/';
        proof {
            reveal_strlit("memory://");
            assert(url@.subrange(0, 9)[0] == url@[0]);
            assert(url@.subrange(0, 9)[1] == url@[1]);
            assert(url@.subrange(0, 9)[2] == url@[2]);
            assert(url@.subrange(0, 9)[3] == url@[3]);
            assert(url@.subrange(0, 9)[4] == url@[4]);
            assert(url@.subrange(0, 9)[5] == url@[5]);
            assert(url@.subrange(0, 9)[6] == url@[6]);
            assert(url@.subrange(0, 9)[7] == url@[7]);
            assert(url@.subrange(0, 9)[8] == url@[8]);
            if prefix_ok {
                assert(url@.subrange(0, 9) =~= ("memory://")@);
            }
        }
        if !prefix_ok {
            return Err(Error::UrlParseError);
        }
        let mut i: usize = 9;
        while i < n
            invariant
                url@.len() == n,
                9 <= i <= n,
                forall|j: int| 9 <= j < i ==> allowed_target_char(#[trigger] url@[j]),
            decreases n - i,
        {
            let c = url.get_char(i);
            let u = c as u32;
            let ok = (97 <= u && u <= 122) || (48 <= u && u <= 57) || c == '.' || c == '-'
                || c == '_';
            if !ok {
                return Err(Error::UrlParseError);
            }
            i = i + 1;
        }
        Ok(MemoryConnectOptions { target: url.substring_char(9, n).to_owned() })
    }

    fn connect(self) -> (r: Result<Self::Connection, Error>)
        ensures
            r is Ok,
            r->Ok_0.is_live(),
    {
        Ok(MemoryConnection { alive: true })
    }
}

/// A loopback session: the minimal concrete instance of the lifecycle
/// contract.  It is live from `connect` until it is severed or closed.
pub struct MemoryConnection {
    alive: bool,
}

impl MemoryConnection {
    /// Whether the session is still usable.
    pub closed spec fn is_live(&self) -> bool {
        self.alive
    }

    /// Marks the session as lost, as it would be after the peer
    /// vanished; later probes report `ConnectionLostError`.
    pub fn sever(&mut self)
        ensures
            !final(self).is_live(),
    {
        self.alive = false;
    }
}

impl Connection<Blocking> for MemoryConnection {
    type Options = MemoryConnectOptions;

    open spec fn live(&self) -> bool {
        self.is_live()
    }

    fn connect(url: &str) -> (r: Result<Self, Error>)
        ensures
            r is Ok <==> memory_url_ok(url@),
    {
        match MemoryConnectOptions::from_url(url) {
            Ok(options) => options.connect(),
            Err(e) => Err(e),
        }
    }

    fn close(self) -> (r: Result<(), Error>)
        ensures
            r is Ok,
    {
        Ok(())
    }

    fn ping(&mut self) -> (r: Result<(), Error>) {
        if self.alive {
            Ok(())
        } else {
            Err(Error::ConnectionLostError)
        }
    }
}

} // verus!
