//! The operations a keystore client sends and the answers it gets, over the host-delegation
//! channel and over the broker alike.

use vstd::prelude::*;

use crate::error::{seen, ErrorView, CliError};

verus! {

/// One delegated operation.
#[derive(Debug)]
pub enum Op {
    Keygen { label: String, algorithm: String },
    Sign { label: String, msg: Vec<u8> },
    Ecdh { label: String, peer_pub_x963: Vec<u8> },
    MlKemDecapsulate { label: String, ek: Vec<u8> },
    MlDsaSign { label: String, msg: Vec<u8>, ctx: Vec<u8> },
    Meta { label: String },
    Exists { label: String },
    List,
    Identity,
    Delete { label: String },
}

/// An [`Op`], viewed.
pub enum OpView {
    Keygen { label: Seq<char>, algorithm: Seq<char> },
    Sign { label: Seq<char>, msg: Seq<u8> },
    Ecdh { label: Seq<char>, peer_pub_x963: Seq<u8> },
    MlKemDecapsulate { label: Seq<char>, ek: Seq<u8> },
    MlDsaSign { label: Seq<char>, msg: Seq<u8>, ctx: Seq<u8> },
    Meta { label: Seq<char> },
    Exists { label: Seq<char> },
    List,
    Identity,
    Delete { label: Seq<char> },
}

impl View for Op {
    type V = OpView;

    open spec fn view(&self) -> OpView {
        match self {
            Op::Keygen { label, algorithm } => OpView::Keygen {
                label: label@,
                algorithm: algorithm@,
            },
            Op::Sign { label, msg } => OpView::Sign { label: label@, msg: msg@ },
            Op::Ecdh { label, peer_pub_x963 } => OpView::Ecdh {
                label: label@,
                peer_pub_x963: peer_pub_x963@,
            },
            Op::MlKemDecapsulate { label, ek } => OpView::MlKemDecapsulate {
                label: label@,
                ek: ek@,
            },
            Op::MlDsaSign { label, msg, ctx } => OpView::MlDsaSign {
                label: label@,
                msg: msg@,
                ctx: ctx@,
            },
            Op::Meta { label } => OpView::Meta { label: label@ },
            Op::Exists { label } => OpView::Exists { label: label@ },
            Op::List => OpView::List,
            Op::Identity => OpView::Identity,
            Op::Delete { label } => OpView::Delete { label: label@ },
        }
    }
}

/// One key of a listing.
#[derive(Debug)]
pub struct KeyEntry {
    pub label: String,
    pub purpose: String,
    pub algorithm: String,
    pub fingerprint: String,
    pub public_key: Vec<u8>,
}

/// A [`KeyEntry`], viewed.
pub struct EntryView {
    pub label: Seq<char>,
    pub purpose: Seq<char>,
    pub algorithm: Seq<char>,
    pub fingerprint: Seq<char>,
    pub public_key: Seq<u8>,
}

impl View for KeyEntry {
    type V = EntryView;

    open spec fn view(&self) -> EntryView {
        EntryView {
            label: self.label@,
            purpose: self.purpose@,
            algorithm: self.algorithm@,
            fingerprint: self.fingerprint@,
            public_key: self.public_key@,
        }
    }
}

/// Every entry of a listing, viewed.
pub open spec fn entry_views(keys: Seq<KeyEntry>) -> Seq<EntryView> {
    keys.map_values(|k: KeyEntry| k@)
}

/// The result of an operation that succeeded.
#[derive(Debug)]
pub enum OpOk {
    Keygen { public_key: Vec<u8>, fingerprint: String, algorithm: String },
    Sign { signature: Vec<u8> },
    Ecdh { shared_secret: Vec<u8> },
    MlKemDecapsulate { shared_secret: Vec<u8> },
    MlDsaSign { signature: Vec<u8> },
    Meta { public_key: Vec<u8>, fingerprint: String, algorithm: String, purpose: String },
    Exists { held: bool },
    List { keys: Vec<KeyEntry> },
    Identity { handle: Option<String> },
    Delete,
}

/// An [`OpOk`], viewed.
pub enum OkView {
    Keygen { public_key: Seq<u8>, fingerprint: Seq<char>, algorithm: Seq<char> },
    Sign { signature: Seq<u8> },
    Ecdh { shared_secret: Seq<u8> },
    MlKemDecapsulate { shared_secret: Seq<u8> },
    MlDsaSign { signature: Seq<u8> },
    Meta {
        public_key: Seq<u8>,
        fingerprint: Seq<char>,
        algorithm: Seq<char>,
        purpose: Seq<char>,
    },
    Exists { held: bool },
    List { keys: Seq<EntryView> },
    Identity { handle: Option<Seq<char>> },
    Delete,
}

impl View for OpOk {
    type V = OkView;

    open spec fn view(&self) -> OkView {
        match self {
            OpOk::Keygen { public_key, fingerprint, algorithm } => OkView::Keygen {
                public_key: public_key@,
                fingerprint: fingerprint@,
                algorithm: algorithm@,
            },
            OpOk::Sign { signature } => OkView::Sign { signature: signature@ },
            OpOk::Ecdh { shared_secret } => OkView::Ecdh { shared_secret: shared_secret@ },
            OpOk::MlKemDecapsulate { shared_secret } => OkView::MlKemDecapsulate {
                shared_secret: shared_secret@,
            },
            OpOk::MlDsaSign { signature } => OkView::MlDsaSign { signature: signature@ },
            OpOk::Meta { public_key, fingerprint, algorithm, purpose } => OkView::Meta {
                public_key: public_key@,
                fingerprint: fingerprint@,
                algorithm: algorithm@,
                purpose: purpose@,
            },
            OpOk::Exists { held } => OkView::Exists { held: *held },
            OpOk::List { keys } => OkView::List { keys: entry_views(keys@) },
            OpOk::Identity { handle } => OkView::Identity { handle: seen(*handle) },
            OpOk::Delete => OkView::Delete,
        }
    }
}

/// A failed operation's stable code and message.
#[derive(Debug)]
pub struct OpErr {
    pub code: String,
    pub message: String,
}

/// The answer to one operation.
#[derive(Debug)]
pub enum Response {
    Done(OpOk),
    Failed(OpErr),
}

/// A [`Response`], viewed.
pub enum Reply {
    Done(OkView),
    Failed { code: Seq<char>, message: Seq<char> },
}

impl View for Response {
    type V = Reply;

    open spec fn view(&self) -> Reply {
        match self {
            Response::Done(ok) => Reply::Done(ok@),
            Response::Failed(e) => Reply::Failed { code: e.code@, message: e.message@ },
        }
    }
}

/// The answer that an operation's outcome makes.
pub open spec fn reply_of(r: Result<OkView, ErrorView>) -> Reply {
    match r {
        Ok(ok) => Reply::Done(ok),
        Err(e) => Reply::Failed { code: e.code, message: e.message },
    }
}

/// Turn an operation's outcome into its answer: a failure keeps its code and message.
pub fn to_response(r: Result<OpOk, CliError>) -> (resp: Response)
    ensures
        resp@ == reply_of(crate::error::outcome(r)),
{
    match r {
        Ok(ok) => Response::Done(ok),
        Err(e) => Response::Failed(OpErr { code: e.code.to_owned(), message: e.message }),
    }
}

/// An outcome goes over the wire as it is: a success with its values, a failure with its code
/// and its message.
pub proof fn an_outcome_goes_over_the_wire(r: Result<OpOk, CliError>, resp: Response)
    requires
        call_ensures(to_response, (r,), resp),
    ensures
        match r {
            Ok(ok) => resp@ == Reply::Done(ok@),
            Err(e) => resp@ == (Reply::Failed { code: e@.code, message: e@.message }),
        },
{
}

} // verus!
