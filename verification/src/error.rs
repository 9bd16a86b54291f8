//! The failure of a network operation: a chain of causes, outermost
//! first, each with what the classifier needs to know of it.

use crate::text::{decimal, decimal_string};
use vstd::prelude::*;
use vstd::std_specs::convert::FromSpecImpl;

verus! {

/// What one cause in a chain is, as far as retrying is concerned.
#[allow(inconsistent_fields)]
#[derive(Clone, Copy, Debug, PartialEq, Eq, Structural)]
pub enum Kind {
    /// An error of the version-control transport, with the numbers libgit2
    /// gives its class and its code.
    Git { class: u32, code: i32 },
    /// An error of the HTTP/TLS client, with libcurl's number for it.
    Curl { code: u32 },
    /// A response that came back with a status other than success.
    Http { status: u32 },
    /// An error of the fetch subsystem, which says itself whether it is
    /// transient.
    Fetch { spurious: bool },
    /// Any other error, and every layer of added context.
    Other,
}

/// One cause in a chain.
#[derive(Clone, Debug, PartialEq, Eq)]
pub struct Cause {
    pub kind: Kind,
    /// The cause in words, for the reader of a warning.
    pub description: String,
}

/// A cause as contracts see it.
pub struct CauseModel {
    pub kind: Kind,
    pub description: Seq<char>,
}

impl View for Cause {
    type V = CauseModel;

    open spec fn view(&self) -> CauseModel {
        CauseModel { kind: self.kind, description: self.description@ }
    }
}

/// The failure of an operation: its causes from the outermost layer of
/// context to the root cause. There is always at least one.
#[derive(Debug, PartialEq, Eq)]
pub struct Failure {
    chain: Vec<Cause>,
}

impl View for Failure {
    type V = Seq<CauseModel>;

    closed spec fn view(&self) -> Seq<CauseModel> {
        self.chain@.map_values(|cause: Cause| cause@)
    }
}

impl Failure {
    #[verifier::type_invariant]
    spec fn has_root(&self) -> bool {
        self.chain@.len() > 0
    }

    /// A failure with a single cause.
    pub fn new(kind: Kind, description: &str) -> (err: Failure)
        ensures
            err@ == seq![CauseModel { kind, description: description@ }],
    {
        let mut chain: Vec<Cause> = Vec::new();
        chain.push(Cause { kind, description: String::from_str(description) });
        Failure { chain }
    }

    /// A failure that is known by its message only: a single cause of kind
    /// [`Kind::Other`].
    pub fn msg(message: &str) -> (err: Failure)
        ensures
            err@ == seq![CauseModel { kind: Kind::Other, description: message@ }],
    {
        Failure::new(Kind::Other, message)
    }

    /// Puts one more cause around the failure: it becomes the outermost
    /// cause, and the rest of the chain is kept as it is.
    pub fn wrap(self, kind: Kind, description: &str) -> (err: Failure)
        ensures
            err@ == seq![CauseModel { kind, description: description@ }] + self@,
    {
        let ghost inner = self.chain@;
        let layer = Cause { kind, description: String::from_str(description) };
        let mut chain: Vec<Cause> = self.chain;
        chain.insert(0, layer);
        let err = Failure { chain };
        assert(err@ =~= seq![CauseModel { kind, description: description@ }] + inner.map_values(
            |cause: Cause| cause@,
        ));
        err
    }

    /// Wraps the failure in a layer that says in what context it arose. The
    /// layer becomes the outermost cause, of kind [`Kind::Other`]; the rest of
    /// the chain is kept as it is.
    pub fn context(self, message: &str) -> (err: Failure)
        ensures
            err@ == seq![CauseModel { kind: Kind::Other, description: message@ }] + self@,
    {
        self.wrap(Kind::Other, message)
    }

    /// The innermost cause.
    pub fn root_cause(&self) -> (cause: &Cause)
        ensures
            self@.len() > 0,
            cause@ == self@.last(),
    {
        proof {
            use_type_invariant(self);
        }
        &self.chain[self.chain.len() - 1]
    }

    /// The number of causes in the chain, which is never zero.
    pub fn depth(&self) -> (n: usize)
        ensures
            n == self@.len(),
            n > 0,
    {
        proof {
            use_type_invariant(self);
        }
        self.chain.len()
    }

    /// The cause at `index`, counted from the outermost, which is cause 0;
    /// `None` where the chain is not that long.
    pub fn cause(&self, index: usize) -> (cause: Option<&Cause>)
        ensures
            index < self@.len() ==> (cause matches Some(found) && found@ == self@[index as int]),
            index >= self@.len() ==> cause is None,
    {
        if index < self.chain.len() {
            Some(&self.chain[index])
        } else {
            None
        }
    }
}

/// A response that came back with a status other than success.
#[derive(Clone, Debug, PartialEq, Eq)]
pub struct HttpNotSuccessful {
    /// The status of the response.
    pub code: u32,
    /// Where the request went.
    pub url: String,
    /// What the response carried.
    pub body: Vec<u8>,
}

impl HttpNotSuccessful {
    /// The response in words: where the request went and the status that
    /// came back.
    pub open spec fn text(&self) -> Seq<char> {
        "failed to get successful HTTP response from `"@ + self.url@ + "`, got "@ + decimal(
            self.code as nat,
        )
    }

    /// The response as a cause: of kind [`Kind::Http`] with its status, and
    /// described by [`HttpNotSuccessful::text`].
    pub open spec fn cause(&self) -> CauseModel {
        CauseModel { kind: Kind::Http { status: self.code }, description: self.text() }
    }

    /// Says in words where the request went and the status that came back.
    pub fn description(&self) -> (text: String)
        ensures
            text@ == self.text(),
    {
        let mut text: String = String::from_str("failed to get successful HTTP response from `");
        text.append(self.url.as_str());
        text.append("`, got ");
        let status: String = decimal_string(self.code);
        text.append(status.as_str());
        text
    }
}

impl From<HttpNotSuccessful> for Failure {
    /// The failure whose single cause is the response.
    fn from(response: HttpNotSuccessful) -> (err: Failure)
        ensures
            err@ == seq![response.cause()],
    {
        let text: String = response.description();
        Failure::new(Kind::Http { status: response.code }, text.as_str())
    }
}

impl FromSpecImpl<HttpNotSuccessful> for Failure {
    open spec fn obeys_from_spec() -> bool {
        false
    }

    open spec fn from_spec(response: HttpNotSuccessful) -> Failure {
        choose|err: Failure| err@ == seq![response.cause()]
    }
}

} // verus!
