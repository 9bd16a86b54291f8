//! The classifier: which failures are worth another try.
//!
//! A chain of causes is read from the outermost cause inwards. The first
//! cause that the classifier recognises decides; a chain in which it
//! recognises nothing is not retried.

use crate::error::{CauseModel, Failure, Kind};
use crate::transport::{
    is_couldnt_connect, is_couldnt_resolve_host, is_couldnt_resolve_proxy, is_http2_error,
    is_http2_stream_error, is_operation_timedout, is_partial_file, is_recv_error, is_send_error,
    is_ssl_connect_error, CURLE_COULDNT_CONNECT, CURLE_COULDNT_RESOLVE_HOST,
    CURLE_COULDNT_RESOLVE_PROXY, CURLE_HTTP2, CURLE_HTTP2_STREAM, CURLE_OPERATION_TIMEDOUT,
    CURLE_PARTIAL_FILE, CURLE_RECV_ERROR, CURLE_SEND_ERROR, CURLE_SSL_CONNECT_ERROR,
    GIT_ECERTIFICATE, GIT_ERROR_HTTP, GIT_ERROR_NET, GIT_ERROR_OS, GIT_ERROR_ZLIB,
};
use vstd::prelude::*;

verus! {

/// What one cause says about trying again.
#[derive(Clone, Copy, Debug, PartialEq, Eq, Structural)]
pub enum Signal {
    /// The cause is known and likely to pass: try again.
    Transient,
    /// The cause is known and another try cannot change it.
    Permanent,
    /// The classifier does not know the cause: look further down the chain.
    Unknown,
}

/// Whether libgit2's error class `class` is one of those that a retry may
/// cure: network, operating system, compression, HTTP.
pub open spec fn git_transport_class(class: u32) -> bool {
    class == GIT_ERROR_NET || class == GIT_ERROR_OS || class == GIT_ERROR_ZLIB || class
        == GIT_ERROR_HTTP
}

/// Whether libcurl's error code `code` is one of those that a retry may
/// cure: no connection, a name that does not resolve, a timeout, a failure to
/// send or to receive, an HTTP/2 error, a failed TLS handshake, a transfer
/// cut short.
pub open spec fn curl_transient(code: u32) -> bool {
    code == CURLE_COULDNT_CONNECT || code == CURLE_COULDNT_RESOLVE_PROXY || code
        == CURLE_COULDNT_RESOLVE_HOST || code == CURLE_OPERATION_TIMEDOUT || code
        == CURLE_RECV_ERROR || code == CURLE_SEND_ERROR || code == CURLE_HTTP2 || code
        == CURLE_HTTP2_STREAM || code == CURLE_SSL_CONNECT_ERROR || code == CURLE_PARTIAL_FILE
}

/// Whether an HTTP status is a server error.
pub open spec fn server_error(status: u32) -> bool {
    500 <= status < 600
}

impl Kind {
    /// What a cause of this kind says about trying again.
    ///
    /// An error of the version-control transport in one of the transport
    /// classes decides either way: it is transient unless its code is that
    /// of an untrusted certificate, which no retry will cure. Of the other
    /// kinds the transient ones are recognised, and the rest is left
    /// undecided.
    pub open spec fn signal(self) -> Signal {
        match self {
            Kind::Git { class, code } => if git_transport_class(class) {
                if code == GIT_ECERTIFICATE {
                    Signal::Permanent
                } else {
                    Signal::Transient
                }
            } else {
                Signal::Unknown
            },
            Kind::Curl { code } => if curl_transient(code) {
                Signal::Transient
            } else {
                Signal::Unknown
            },
            Kind::Http { status } => if server_error(status) {
                Signal::Transient
            } else {
                Signal::Unknown
            },
            Kind::Fetch { spurious } => if spurious {
                Signal::Transient
            } else {
                Signal::Unknown
            },
            Kind::Other => Signal::Unknown,
        }
    }

    /// Classifies one cause.
    pub fn classify(&self) -> (signal: Signal)
        ensures
            signal == self.signal(),
    {
        match *self {
            Kind::Git { class, code } => {
                if class == GIT_ERROR_NET || class == GIT_ERROR_OS || class == GIT_ERROR_ZLIB
                    || class == GIT_ERROR_HTTP {
                    if code != GIT_ECERTIFICATE {
                        Signal::Transient
                    } else {
                        Signal::Permanent
                    }
                } else {
                    Signal::Unknown
                }
            },
            Kind::Curl { code } => {
                if is_couldnt_connect(code) || is_couldnt_resolve_proxy(code)
                    || is_couldnt_resolve_host(code) || is_operation_timedout(code)
                    || is_recv_error(code) || is_send_error(code) || is_http2_error(code)
                    || is_http2_stream_error(code) || is_ssl_connect_error(code)
                    || is_partial_file(code) {
                    Signal::Transient
                } else {
                    Signal::Unknown
                }
            },
            Kind::Http { status } => {
                if 500 <= status && status < 600 {
                    Signal::Transient
                } else {
                    Signal::Unknown
                }
            },
            Kind::Fetch { spurious } => {
                if spurious {
                    Signal::Transient
                } else {
                    Signal::Unknown
                }
            },
            Kind::Other => Signal::Unknown,
        }
    }
}

/// None of the first `end` causes of `chain` is recognised.
pub open spec fn unknown_before(chain: Seq<CauseModel>, end: int) -> bool {
    forall|j: int|
        0 <= j < end && j < chain.len() ==> (#[trigger] chain[j]).kind.signal() == Signal::Unknown
}

/// Cause `at` is the first of `chain` that the classifier recognises.
pub open spec fn decides(chain: Seq<CauseModel>, at: int) -> bool {
    &&& 0 <= at < chain.len()
    &&& chain[at].kind.signal() != Signal::Unknown
    &&& unknown_before(chain, at)
}

/// Whether a failure with the causes `chain` is worth another try: the
/// first cause that the classifier recognises is a transient one.
pub open spec fn spurious(chain: Seq<CauseModel>) -> bool {
    exists|at: int| #[trigger] decides(chain, at) && chain[at].kind.signal() == Signal::Transient
}

/// At most one cause decides.
pub proof fn decides_once(chain: Seq<CauseModel>, first: int, second: int)
    requires
        decides(chain, first),
        decides(chain, second),
    ensures
        first == second,
{
}

/// Whether the failure is worth another try. The chain is read from the
/// outermost cause inwards, and the first cause that is recognised decides.
pub fn maybe_spurious(err: &Failure) -> (yes: bool)
    ensures
        yes == spurious(err@),
{
    let depth: usize = err.depth();
    let mut at: usize = 0;
    while at < depth
        invariant
            at <= depth,
            depth == err@.len(),
            unknown_before(err@, at as int),
        decreases depth - at,
    {
        let signal: Signal = match err.cause(at) {
            Some(cause) => cause.kind.classify(),
            None => Signal::Unknown,
        };
        match signal {
            Signal::Transient => {
                assert(decides(err@, at as int));
                return true;
            },
            Signal::Permanent => {
                assert forall|other: int| #[trigger] decides(err@, other) implies err@[other].kind
                    .signal() != Signal::Transient by {
                    decides_once(err@, at as int, other);
                }
                return false;
            },
            Signal::Unknown => {},
        }
        at += 1;
    }
    assert forall|other: int| !#[trigger] decides(err@, other) by {}
    false
}

/// A failure with a single cause is worth another try exactly where that
/// cause is a transient one.
pub proof fn lone_cause_decides(cause: CauseModel)
    ensures
        spurious(seq![cause]) == (cause.kind.signal() == Signal::Transient),
{
    let chain = seq![cause];
    if cause.kind.signal() == Signal::Transient {
        assert(decides(chain, 0));
    }
}

/// A certificate failure of the version-control transport is never worth
/// another try, although its class is one that is otherwise retried: where
/// such a cause is the first that the classifier recognises, the failure is
/// not retried, whatever lies deeper in the chain.
pub proof fn certificate_never_retried(chain: Seq<CauseModel>, at: int)
    requires
        0 <= at < chain.len(),
        chain[at].kind matches Kind::Git { class, code } && git_transport_class(class) && code
            == GIT_ECERTIFICATE,
        unknown_before(chain, at),
    ensures
        !spurious(chain),
{
    assert forall|other: int| #[trigger] decides(chain, other) implies chain[other].kind.signal()
        != Signal::Transient by {
        decides_once(chain, at, other);
    }
}

/// A layer of context changes nothing: the failure wrapped in it is worth
/// another try exactly where the failure itself is. So a transient root
/// cause is found under any number of such layers.
pub proof fn context_keeps_verdict(chain: Seq<CauseModel>, description: Seq<char>)
    ensures
        spurious(seq![CauseModel { kind: Kind::Other, description }] + chain) == spurious(chain),
{
    let wrapped = seq![CauseModel { kind: Kind::Other, description }] + chain;
    assert forall|i: int| 0 <= i < chain.len() implies wrapped[i + 1] == chain[i] by {}
    if spurious(chain) {
        let at = choose|at: int| #[trigger]
            decides(chain, at) && chain[at].kind.signal() == Signal::Transient;
        assert forall|j: int| 0 <= j < at + 1 && j < wrapped.len() implies (#[trigger] wrapped[j])
            .kind.signal() == Signal::Unknown by {}
        assert(decides(wrapped, at + 1));
    }
    if spurious(wrapped) {
        let at = choose|at: int| #[trigger]
            decides(wrapped, at) && wrapped[at].kind.signal() == Signal::Transient;
        assert forall|j: int| 0 <= j < at - 1 && j < chain.len() implies (#[trigger] chain[j])
            .kind.signal() == Signal::Unknown by {}
        assert(decides(chain, at - 1));
    }
}

/// A failure in which the classifier recognises no cause is not retried.
pub proof fn unrecognised_is_final(chain: Seq<CauseModel>)
    requires
        unknown_before(chain, chain.len() as int),
    ensures
        !spurious(chain),
{
    assert forall|at: int| !#[trigger] decides(chain, at) by {}
}

} // verus!
