//! The host-signer's request dispatch: the execution of one delegated [`Op`] from a
//! containerized PRSN against the host keystore, and the channel's binding to one PRSN.
//!
//! **Scoping.** A request arrives on a channel that is bound to exactly one PRSN handle;
//! [`handle_op`] refuses any label of another. Key purpose is left to the keystore's own
//! guards. **Pinning.** A channel with no handle yet accepts only a keygen, and binds to the
//! handle of the first one that succeeds, for good.

use vstd::prelude::*;

use crate::clock::Span;
use crate::codec::{hex_bytes, hex_decode};
use crate::error::{outcome, seen, CliError, ErrorView};
use crate::keystore::{
    array_of, env_value, handle_checked, label_parsed, labels_read_back, mldsa_ctx_checked,
    non_empty, validate_mldsa_ctx, Behaviour, KeyFacts, KeyLabel, KeyMeta, Keystore, Labelled,
};
use crate::text::{decimal, join4, join5, same, to_decimal, trim, trimmed};
use crate::wire::{
    entry_views, reply_of, to_response, EntryView, KeyEntry, OkView, Op, OpErr, OpOk, OpView,
    Reply, Response,
};

verus! {

/// The ML-KEM-1024 ciphertext length.
pub const MLKEM1024_CT_LEN: usize = 1568;

/// A delegated operation that passed every check: the call to make on the keystore.
pub enum KeystoreCall {
    Generate { label: KeyLabel, algorithm: String },
    Sign { label: KeyLabel, msg: Vec<u8> },
    Ecdh { label: KeyLabel, peer_pub_x963: Vec<u8> },
    MlKemDecapsulate { label: KeyLabel, ek: Vec<u8> },
    MlDsaSign { label: KeyLabel, msg: Vec<u8>, ctx: Vec<u8> },
    Meta { label: KeyLabel },
    Has { label: KeyLabel },
    List,
    /// No keystore involved: the channel's own handle.
    Identity,
    Delete { label: KeyLabel },
}

/// A [`KeystoreCall`], viewed.
pub enum Call {
    Generate { label: Labelled, algorithm: Seq<char> },
    Sign { label: Labelled, msg: Seq<u8> },
    Ecdh { label: Labelled, peer_pub_x963: Seq<u8> },
    MlKemDecapsulate { label: Labelled, ek: Seq<u8> },
    MlDsaSign { label: Labelled, msg: Seq<u8>, ctx: Seq<u8> },
    Meta { label: Labelled },
    Has { label: Labelled },
    List,
    Identity,
    Delete { label: Labelled },
}

impl View for KeystoreCall {
    type V = Call;

    open spec fn view(&self) -> Call {
        match self {
            KeystoreCall::Generate { label, algorithm } => Call::Generate {
                label: label@,
                algorithm: algorithm@,
            },
            KeystoreCall::Sign { label, msg } => Call::Sign { label: label@, msg: msg@ },
            KeystoreCall::Ecdh { label, peer_pub_x963 } => Call::Ecdh {
                label: label@,
                peer_pub_x963: peer_pub_x963@,
            },
            KeystoreCall::MlKemDecapsulate { label, ek } => Call::MlKemDecapsulate {
                label: label@,
                ek: ek@,
            },
            KeystoreCall::MlDsaSign { label, msg, ctx } => Call::MlDsaSign {
                label: label@,
                msg: msg@,
                ctx: ctx@,
            },
            KeystoreCall::Meta { label } => Call::Meta { label: label@ },
            KeystoreCall::Has { label } => Call::Has { label: label@ },
            KeystoreCall::List => Call::List,
            KeystoreCall::Identity => Call::Identity,
            KeystoreCall::Delete { label } => Call::Delete { label: label@ },
        }
    }
}

/// A label as this channel's PRSN may use it: one of its own.
pub open spec fn scoped(label: Seq<char>, prsn_handle: Seq<char>) -> Result<Labelled, ErrorView> {
    match label_parsed(label, None) {
        Err(e) => Err(e),
        Ok(l) => if l.handle != prsn_handle {
            Err(
                ErrorView::authorization_denied(
                    "label '"@ + label + "' does not belong to this channel's PRSN ('"@
                        + prsn_handle + "')"@,
                ),
            )
        } else {
            Ok(l)
        },
    }
}

/// Parse `label` and require its handle to be `prsn_handle`.
pub fn scoped_label(label: &str, prsn_handle: &str) -> (r: Result<KeyLabel, CliError>)
    ensures
        outcome(r) == scoped(label@, prsn_handle@),
{
    match KeyLabel::parse(label, None) {
        Err(e) => Err(e),
        Ok(l) => {
            if !same(l.handle(), prsn_handle) {
                return Err(
                    CliError::authorization_denied(
                        &join5(
                            "label '",
                            label,
                            "' does not belong to this channel's PRSN ('",
                            prsn_handle,
                            "')",
                        ),
                    ),
                );
            }
            Ok(l)
        },
    }
}

/// The call that an operation comes to on a channel of `prsn_handle`, or why it is refused
/// before any keystore sees it.
pub open spec fn planned(prsn_handle: Seq<char>, op: OpView) -> Result<Call, ErrorView> {
    match op {
        OpView::Keygen { label, algorithm } => match scoped(label, prsn_handle) {
            Ok(label) => Ok(Call::Generate { label, algorithm }),
            Err(e) => Err(e),
        },
        OpView::Sign { label, msg } => match scoped(label, prsn_handle) {
            Ok(label) => Ok(Call::Sign { label, msg }),
            Err(e) => Err(e),
        },
        OpView::Ecdh { label, peer_pub_x963 } => match scoped(label, prsn_handle) {
            Ok(label) => Ok(Call::Ecdh { label, peer_pub_x963 }),
            Err(e) => Err(e),
        },
        OpView::MlKemDecapsulate { label, ek } => match scoped(label, prsn_handle) {
            Ok(label) => if ek.len() != MLKEM1024_CT_LEN {
                Err(
                    ErrorView::invalid_args(
                        "ml-kem ciphertext must be "@ + decimal(MLKEM1024_CT_LEN as nat)
                            + " bytes, got "@ + decimal(ek.len()),
                    ),
                )
            } else {
                Ok(Call::MlKemDecapsulate { label, ek })
            },
            Err(e) => Err(e),
        },
        OpView::MlDsaSign { label, msg, ctx } => match scoped(label, prsn_handle) {
            Ok(label) => match mldsa_ctx_checked(ctx.len()) {
                Ok(()) => Ok(Call::MlDsaSign { label, msg, ctx }),
                Err(e) => Err(e),
            },
            Err(e) => Err(e),
        },
        OpView::Meta { label } => match scoped(label, prsn_handle) {
            Ok(label) => Ok(Call::Meta { label }),
            Err(e) => Err(e),
        },
        OpView::Exists { label } => match scoped(label, prsn_handle) {
            Ok(label) => Ok(Call::Has { label }),
            Err(e) => Err(e),
        },
        OpView::List => Ok(Call::List),
        OpView::Identity => Ok(Call::Identity),
        OpView::Delete { label } => match scoped(label, prsn_handle) {
            Ok(label) => Ok(Call::Delete { label }),
            Err(e) => Err(e),
        },
    }
}

/// Check one operation on a channel of `prsn_handle` and name the call it comes to.
pub fn plan_op(prsn_handle: &str, op: Op) -> (r: Result<KeystoreCall, CliError>)
    ensures
        outcome(r) == planned(prsn_handle@, op@),
{
    match op {
        Op::Keygen { label, algorithm } => match scoped_label(&label, prsn_handle) {
            Ok(label) => Ok(KeystoreCall::Generate { label, algorithm }),
            Err(e) => Err(e),
        },
        Op::Sign { label, msg } => match scoped_label(&label, prsn_handle) {
            Ok(label) => Ok(KeystoreCall::Sign { label, msg }),
            Err(e) => Err(e),
        },
        Op::Ecdh { label, peer_pub_x963 } => match scoped_label(&label, prsn_handle) {
            Ok(label) => Ok(KeystoreCall::Ecdh { label, peer_pub_x963 }),
            Err(e) => Err(e),
        },
        Op::MlKemDecapsulate { label, ek } => match scoped_label(&label, prsn_handle) {
            Ok(label) => {
                if ek.len() != MLKEM1024_CT_LEN {
                    return Err(
                        CliError::invalid_args(
                            &join4(
                                "ml-kem ciphertext must be ",
                                &to_decimal(MLKEM1024_CT_LEN as u64),
                                " bytes, got ",
                                &to_decimal(ek.len() as u64),
                            ),
                        ),
                    );
                }
                Ok(KeystoreCall::MlKemDecapsulate { label, ek })
            },
            Err(e) => Err(e),
        },
        Op::MlDsaSign { label, msg, ctx } => match scoped_label(&label, prsn_handle) {
            Ok(label) => match validate_mldsa_ctx(&ctx) {
                Ok(()) => Ok(KeystoreCall::MlDsaSign { label, msg, ctx }),
                Err(e) => Err(e),
            },
            Err(e) => Err(e),
        },
        Op::Meta { label } => match scoped_label(&label, prsn_handle) {
            Ok(label) => Ok(KeystoreCall::Meta { label }),
            Err(e) => Err(e),
        },
        Op::Exists { label } => match scoped_label(&label, prsn_handle) {
            Ok(label) => Ok(KeystoreCall::Has { label }),
            Err(e) => Err(e),
        },
        Op::List => Ok(KeystoreCall::List),
        Op::Identity => Ok(KeystoreCall::Identity),
        Op::Delete { label } => match scoped_label(&label, prsn_handle) {
            Ok(label) => Ok(KeystoreCall::Delete { label }),
            Err(e) => Err(e),
        },
    }
}

/// Whether a stored key belongs to `prsn_handle`: its label parses and names that handle.
pub open spec fn owned(label: Seq<char>, prsn_handle: Seq<char>) -> bool {
    label_parsed(label, None) matches Ok(l) && l.handle == prsn_handle
}

/// A stored key as a listing shows it.
pub open spec fn listed(k: KeyFacts) -> EntryView {
    EntryView {
        label: k.label,
        purpose: k.purpose,
        algorithm: k.algorithm,
        fingerprint: k.fingerprint,
        public_key: k.public_key,
    }
}

/// The first `n` stored keys as `prsn_handle`'s listing shows them: its own, in order.
pub open spec fn own_entries(keys: Seq<KeyMeta>, prsn_handle: Seq<char>, n: int) -> Seq<EntryView>
    decreases n,
{
    if n <= 0 {
        Seq::empty()
    } else {
        let before = own_entries(keys, prsn_handle, n - 1);
        if owned(keys[n - 1].label@, prsn_handle) {
            before.push(listed(keys[n - 1]@))
        } else {
            before
        }
    }
}

/// Keep the keys of `prsn_handle`, in order, as a listing shows them.
pub fn own_keys(keys: Vec<KeyMeta>, prsn_handle: &str) -> (r: Vec<KeyEntry>)
    ensures
        entry_views(r@) == own_entries(keys@, prsn_handle@, keys@.len() as int),
{
    let mut out: Vec<KeyEntry> = Vec::new();
    let mut i: usize = 0;
    assert(entry_views(out@) =~= Seq::<EntryView>::empty());
    while i < keys.len()
        invariant
            i <= keys@.len(),
            entry_views(out@) == own_entries(keys@, prsn_handle@, i as int),
        decreases keys@.len() - i,
    {
        let k = &keys[i];
        let mine = match KeyLabel::parse(&k.label, None) {
            Ok(l) => same(l.handle(), prsn_handle),
            Err(_) => false,
        };
        assert(mine == owned(k.label@, prsn_handle@));
        if mine {
            let ghost before = out@;
            let entry = KeyEntry {
                label: k.label.clone(),
                purpose: k.purpose.clone(),
                algorithm: k.algorithm.clone(),
                fingerprint: k.fingerprint.clone(),
                public_key: crate::text::copy_bytes(&k.public_key),
            };
            out.push(entry);
            assert(entry_views(out@) =~= entry_views(before).push(entry@));
        }
        i = i + 1;
    }
    out
}

/// What a keystore's metadata makes of a keygen.
pub open spec fn keygen_answer(k: KeyFacts) -> OkView {
    OkView::Keygen {
        public_key: k.public_key,
        fingerprint: k.fingerprint,
        algorithm: k.algorithm,
    }
}

/// What a keystore's metadata makes of a metadata query.
pub open spec fn meta_answer(k: KeyFacts) -> OkView {
    OkView::Meta {
        public_key: k.public_key,
        fingerprint: k.fingerprint,
        algorithm: k.algorithm,
        purpose: k.purpose,
    }
}

/// Whether `r` is what making `call` on `ks` can come to: the keystore's own answer to that
/// very call, put into wire form, or its own error.
pub open spec fn performed<K: Keystore + ?Sized>(
    ks: &K,
    prsn_handle: Seq<char>,
    call: Call,
    r: Result<OkView, ErrorView>,
) -> bool {
    match call {
        Call::Generate { label, algorithm } => exists|l: &KeyLabel, a: &str, out: Result<
            KeyMeta,
            CliError,
        >|
            #![trigger call_ensures(K::generate, (ks, l, a), out)]
            l@ == label && a@ == algorithm && call_ensures(K::generate, (ks, l, a), out) && r
                == match outcome(out) {
                Ok(k) => Ok::<OkView, ErrorView>(keygen_answer(k)),
                Err(e) => Err(e),
            },
        Call::Sign { label, msg } => exists|l: &KeyLabel, m: &[u8], out: Result<
            [u8; 64],
            CliError,
        >|
            #![trigger call_ensures(K::sign, (ks, l, m), out)]
            l@ == label && m@ == msg && call_ensures(K::sign, (ks, l, m), out) && r == match out {
                Ok(s) => Ok::<OkView, ErrorView>(OkView::Sign { signature: s@ }),
                Err(e) => Err(e@),
            },
        Call::Ecdh { label, peer_pub_x963 } => exists|l: &KeyLabel, p: &[u8], out: Result<
            [u8; 32],
            CliError,
        >|
            #![trigger call_ensures(K::ecdh, (ks, l, p), out)]
            l@ == label && p@ == peer_pub_x963 && call_ensures(K::ecdh, (ks, l, p), out) && r
                == match out {
                Ok(s) => Ok::<OkView, ErrorView>(OkView::Ecdh { shared_secret: s@ }),
                Err(e) => Err(e@),
            },
        Call::MlKemDecapsulate { label, ek } => exists|l: &KeyLabel, c: &[u8], out: Result<
            [u8; 32],
            CliError,
        >|
            #![trigger call_ensures(K::ml_kem_decapsulate, (ks, l, c), out)]
            l@ == label && c@ == ek && call_ensures(K::ml_kem_decapsulate, (ks, l, c), out) && r
                == match out {
                Ok(s) => Ok::<OkView, ErrorView>(
                    OkView::MlKemDecapsulate { shared_secret: s@ },
                ),
                Err(e) => Err(e@),
            },
        Call::MlDsaSign { label, msg, ctx } => exists|
            l: &KeyLabel,
            m: &[u8],
            c: &[u8],
            out: Result<Vec<u8>, CliError>,
        |
            #![trigger call_ensures(K::ml_dsa_sign, (ks, l, m, c), out)]
            l@ == label && m@ == msg && c@ == ctx && call_ensures(
                K::ml_dsa_sign,
                (ks, l, m, c),
                out,
            ) && r == match out {
                Ok(s) => Ok::<OkView, ErrorView>(OkView::MlDsaSign { signature: s@ }),
                Err(e) => Err(e@),
            },
        Call::Meta { label } => exists|l: &KeyLabel, out: Result<KeyMeta, CliError>|
            #![trigger call_ensures(K::meta, (ks, l), out)]
            l@ == label && call_ensures(K::meta, (ks, l), out) && r == match outcome(out) {
                Ok(k) => Ok::<OkView, ErrorView>(meta_answer(k)),
                Err(e) => Err(e),
            },
        Call::Has { label } => exists|l: &KeyLabel, out: Result<bool, CliError>|
            #![trigger call_ensures(K::has_key, (ks, l), out)]
            l@ == label && call_ensures(K::has_key, (ks, l), out) && r == match out {
                Ok(held) => Ok::<OkView, ErrorView>(OkView::Exists { held }),
                Err(e) => Err(e@),
            },
        Call::List => exists|out: Result<Vec<KeyMeta>, CliError>|
            #![trigger call_ensures(K::list, (ks,), out)]
            call_ensures(K::list, (ks,), out) && r == match out {
                Ok(keys) => Ok::<OkView, ErrorView>(
                    OkView::List {
                        keys: own_entries(keys@, prsn_handle, keys@.len() as int),
                    },
                ),
                Err(e) => Err(e@),
            },
        Call::Identity => r == Ok::<OkView, ErrorView>(
            OkView::Identity { handle: Some(prsn_handle) },
        ),
        Call::Delete { label } => exists|l: &KeyLabel, out: Result<(), CliError>|
            #![trigger call_ensures(K::delete, (ks, l), out)]
            l@ == label && call_ensures(K::delete, (ks, l), out) && r == match out {
                Ok(_) => Ok::<OkView, ErrorView>(OkView::Delete),
                Err(e) => Err(e@),
            },
    }
}

/// Make one call on the keystore and put its answer into wire form.
pub fn perform<K: Keystore + ?Sized>(ks: &K, prsn_handle: &str, call: KeystoreCall) -> (r: Result<
    OpOk,
    CliError,
>)
    ensures
        performed(ks, prsn_handle@, call@, outcome(r)),
{
    match call {
        KeystoreCall::Generate { label, algorithm } => {
            let a = algorithm.as_str();
            let out = ks.generate(&label, a);
            assert(call_ensures(K::generate, (ks, &label, a), out));
            match out {
                Ok(m) => Ok(
                    OpOk::Keygen {
                        public_key: m.public_key,
                        fingerprint: m.fingerprint,
                        algorithm: m.algorithm,
                    },
                ),
                Err(e) => Err(e),
            }
        },
        KeystoreCall::Sign { label, msg } => {
            let m = msg.as_slice();
            let out = ks.sign(&label, m);
            assert(call_ensures(K::sign, (ks, &label, m), out));
            match out {
                Ok(s) => Ok(OpOk::Sign { signature: crate::text::copy_bytes(&s) }),
                Err(e) => Err(e),
            }
        },
        KeystoreCall::Ecdh { label, peer_pub_x963 } => {
            let p = peer_pub_x963.as_slice();
            let out = ks.ecdh(&label, p);
            assert(call_ensures(K::ecdh, (ks, &label, p), out));
            match out {
                Ok(s) => Ok(OpOk::Ecdh { shared_secret: crate::text::copy_bytes(&s) }),
                Err(e) => Err(e),
            }
        },
        KeystoreCall::MlKemDecapsulate { label, ek } => {
            let c = ek.as_slice();
            let out = ks.ml_kem_decapsulate(&label, c);
            assert(call_ensures(K::ml_kem_decapsulate, (ks, &label, c), out));
            match out {
                Ok(s) => Ok(OpOk::MlKemDecapsulate { shared_secret: crate::text::copy_bytes(&s) }),
                Err(e) => Err(e),
            }
        },
        KeystoreCall::MlDsaSign { label, msg, ctx } => {
            let m = msg.as_slice();
            let c = ctx.as_slice();
            let out = ks.ml_dsa_sign(&label, m, c);
            assert(call_ensures(K::ml_dsa_sign, (ks, &label, m, c), out));
            match out {
                Ok(signature) => Ok(OpOk::MlDsaSign { signature }),
                Err(e) => Err(e),
            }
        },
        KeystoreCall::Meta { label } => {
            let out = ks.meta(&label);
            assert(call_ensures(K::meta, (ks, &label), out));
            match out {
                Ok(m) => Ok(
                    OpOk::Meta {
                        public_key: m.public_key,
                        fingerprint: m.fingerprint,
                        algorithm: m.algorithm,
                        purpose: m.purpose,
                    },
                ),
                Err(e) => Err(e),
            }
        },
        KeystoreCall::Has { label } => {
            let out = ks.has_key(&label);
            assert(call_ensures(K::has_key, (ks, &label), out));
            match out {
                Ok(held) => Ok(OpOk::Exists { held }),
                Err(e) => Err(e),
            }
        },
        KeystoreCall::List => {
            let out = ks.list();
            assert(call_ensures(K::list, (ks,), out));
            match out {
                Ok(keys) => Ok(OpOk::List { keys: own_keys(keys, prsn_handle) }),
                Err(e) => Err(e),
            }
        },
        KeystoreCall::Identity => Ok(OpOk::Identity { handle: Some(prsn_handle.to_owned()) }),
        KeystoreCall::Delete { label } => {
            let out = ks.delete(&label);
            assert(call_ensures(K::delete, (ks, &label), out));
            match out {
                Ok(_) => Ok(OpOk::Delete),
                Err(e) => Err(e),
            }
        },
    }
}

/// Whether `reply` is what an operation on a channel of `prsn_handle` can come to: the refusal
/// where the checks refuse it, else what the keystore made of the call.
pub open spec fn answered<K: Keystore + ?Sized>(
    ks: &K,
    prsn_handle: Seq<char>,
    op: OpView,
    reply: Reply,
) -> bool {
    match planned(prsn_handle, op) {
        Err(e) => reply == reply_of(Err::<OkView, ErrorView>(e)),
        Ok(call) => exists|r: Result<OkView, ErrorView>|
            #[trigger] performed(ks, prsn_handle, call, r) && reply == reply_of(r),
    }
}

/// Execute one delegated operation against `keystore`, scoped to `prsn_handle`. Any failure
/// becomes an error answer with its stable code and message.
pub fn handle_op<K: Keystore + ?Sized>(keystore: &K, prsn_handle: &str, op: Op) -> (resp: Response)
    ensures
        answered(keystore, prsn_handle@, op@, resp@),
{
    match plan_op(prsn_handle, op) {
        Err(e) => to_response(Err(e)),
        Ok(call) => {
            let r = perform(keystore, prsn_handle, call);
            assert(performed(keystore, prsn_handle@, call@, outcome(r)));
            to_response(r)
        },
    }
}

/// Per-channel state: the PRSN handle bound to this channel, if any.
pub struct ChannelState {
    pinned_handle: Option<String>,
}

impl View for ChannelState {
    type V = Option<Seq<char>>;

    closed spec fn view(&self) -> Option<Seq<char>> {
        seen(self.pinned_handle)
    }
}

/// What one operation on a channel came to.
pub struct Handled {
    pub response: Response,
    /// Whether this operation bound the channel: the new handle is to be persisted.
    pub newly_pinned: bool,
}

/// The refusal of everything but a keygen on a channel that is not bound yet.
pub open spec fn not_enrolled() -> Reply {
    Reply::Failed {
        code: "authorization_denied"@,
        message: "this channel has no enrolled PRSN yet (run `signet enroll` first)"@,
    }
}

/// Whether `reply` and `after` are what `op` can come to on a channel bound to `before`.
pub open spec fn channel_step<K: Keystore + ?Sized>(
    ks: &K,
    before: Option<Seq<char>>,
    op: OpView,
    reply: Reply,
    after: Option<Seq<char>>,
) -> bool {
    if op is Identity {
        reply == Reply::Done(OkView::Identity { handle: before }) && after == before
    } else {
        match (before, op) {
            (Some(handle), _) => answered(ks, handle, op, reply) && after == before,
            (None, OpView::Keygen { label, .. }) => match label_parsed(label, None) {
                Err(e) => reply == reply_of(Err::<OkView, ErrorView>(e)) && after is None,
                Ok(l) => answered(ks, l.handle, op, reply) && after == if reply is Done {
                    Some(l.handle)
                } else {
                    None
                },
            },
            (None, _) => reply == not_enrolled() && after is None,
        }
    }
}

impl ChannelState {
    /// The state that a persisted pin gives; white space alone is no pin.
    pub fn from_pin(text: Option<&str>) -> (s: ChannelState)
        ensures
            s@ == env_value(crate::json::opt_str(text)),
    {
        ChannelState { pinned_handle: non_empty(text) }
    }

    /// The handle bound to this channel, if any.
    pub fn pinned(&self) -> (r: Option<&str>)
        ensures
            crate::json::opt_str(r) == self@,
    {
        match &self.pinned_handle {
            Some(h) => Some(h.as_str()),
            None => None,
        }
    }

    /// Handle one operation on this channel, enforcing its binding to one PRSN.
    pub fn handle<K: Keystore + ?Sized>(&mut self, keystore: &K, op: Op) -> (h: Handled)
        ensures
            channel_step(keystore, old(self)@, op@, h.response@, final(self)@),
            h.newly_pinned == (final(self)@ != old(self)@),
    {
        if matches!(op, Op::Identity) {
            let handle = match &self.pinned_handle {
                Some(h) => Some(h.clone()),
                None => None,
            };
            return Handled {
                response: Response::Done(OpOk::Identity { handle }),
                newly_pinned: false,
            };
        }
        if let Some(handle) = &self.pinned_handle {
            return Handled { response: handle_op(keystore, handle, op), newly_pinned: false };
        }
        let handle = match &op {
            Op::Keygen { label, .. } => match KeyLabel::parse(label, None) {
                Ok(l) => l.handle().to_owned(),
                Err(e) => return Handled { response: to_response(Err(e)), newly_pinned: false },
            },
            _ => {
                return Handled {
                    response: Response::Failed(
                        OpErr {
                            code: "authorization_denied".to_owned(),
                            message:
                                "this channel has no enrolled PRSN yet (run `signet enroll` first)".to_owned(),
                        },
                    ),
                    newly_pinned: false,
                };
            },
        };
        let response = handle_op(keystore, &handle, op);
        if let Response::Done(_) = response {
            self.pinned_handle = Some(handle);
            return Handled { response, newly_pinned: true };
        }
        Handled { response, newly_pinned: false }
    }
}

/// A channel once bound stays bound to the same handle, whatever is asked of it.
pub proof fn a_pin_is_permanent<K: Keystore + ?Sized>(
    ks: &K,
    before: Option<Seq<char>>,
    op: OpView,
    reply: Reply,
    after: Option<Seq<char>>,
)
    requires
        channel_step(ks, before, op, reply, after),
        before is Some,
    ensures
        after == before,
{
}

/// A channel becomes bound only by a keygen that succeeded, and only to that key's handle.
pub proof fn only_a_successful_keygen_pins<K: Keystore + ?Sized>(
    ks: &K,
    op: OpView,
    reply: Reply,
    after: Option<Seq<char>>,
)
    requires
        channel_step(ks, None, op, reply, after),
        after is Some,
    ensures
        reply is Done,
        op is Keygen,
        label_parsed(op->Keygen_label, None) is Ok,
        after->0 == label_parsed(op->Keygen_label, None)->Ok_0.handle,
{
}

/// No call that reaches a keystore names a key of another PRSN.
pub proof fn calls_are_scoped(prsn_handle: Seq<char>, op: OpView)
    ensures
        planned(prsn_handle, op) matches Ok(call) ==> match call {
            Call::Generate { label, .. } => label.handle == prsn_handle,
            Call::Sign { label, .. } => label.handle == prsn_handle,
            Call::Ecdh { label, .. } => label.handle == prsn_handle,
            Call::MlKemDecapsulate { label, .. } => label.handle == prsn_handle,
            Call::MlDsaSign { label, .. } => label.handle == prsn_handle,
            Call::Meta { label } => label.handle == prsn_handle,
            Call::Has { label } => label.handle == prsn_handle,
            Call::Delete { label } => label.handle == prsn_handle,
            Call::List => true,
            Call::Identity => true,
        },
{
}

/// What a PRSN asks for under its own label reaches the keystore as asked: the same key, the same
/// bytes. Only a ciphertext of the wrong length or a context over the ceiling is held back.
pub proof fn own_requests_reach_the_keystore(
    l: Labelled,
    algorithm: Seq<char>,
    msg: Seq<u8>,
    peer_pub_x963: Seq<u8>,
    ek: Seq<u8>,
    ctx: Seq<u8>,
)
    requires
        handle_checked(l.handle) is Ok,
    ensures
        planned(l.handle, OpView::Keygen { label: l.full(), algorithm }) == Ok::<Call, ErrorView>(
            Call::Generate { label: l, algorithm },
        ),
        planned(l.handle, OpView::Sign { label: l.full(), msg }) == Ok::<Call, ErrorView>(
            Call::Sign { label: l, msg },
        ),
        planned(l.handle, OpView::Ecdh { label: l.full(), peer_pub_x963 }) == Ok::<
            Call,
            ErrorView,
        >(Call::Ecdh { label: l, peer_pub_x963 }),
        planned(l.handle, OpView::MlKemDecapsulate { label: l.full(), ek }) is Ok <==> ek.len()
            == MLKEM1024_CT_LEN,
        ek.len() == MLKEM1024_CT_LEN ==> planned(
            l.handle,
            OpView::MlKemDecapsulate { label: l.full(), ek },
        ) == Ok::<Call, ErrorView>(Call::MlKemDecapsulate { label: l, ek }),
        planned(l.handle, OpView::MlDsaSign { label: l.full(), msg, ctx }) is Ok <==> ctx.len()
            <= 255,
        ctx.len() <= 255 ==> planned(
            l.handle,
            OpView::MlDsaSign { label: l.full(), msg, ctx },
        ) == Ok::<Call, ErrorView>(Call::MlDsaSign { label: l, msg, ctx }),
        planned(l.handle, OpView::Meta { label: l.full() }) == Ok::<Call, ErrorView>(
            Call::Meta { label: l },
        ),
        planned(l.handle, OpView::Exists { label: l.full() }) == Ok::<Call, ErrorView>(
            Call::Has { label: l },
        ),
        planned(l.handle, OpView::Delete { label: l.full() }) == Ok::<Call, ErrorView>(
            Call::Delete { label: l },
        ),
{
    labels_read_back(l, None);
}

/// A call that succeeded is answered in the form that its client reads: of its own kind, and
/// with a signature or a secret of the length that the client expects.
pub proof fn answers_fit_their_requests<K: Keystore + ?Sized>(
    ks: &K,
    prsn_handle: Seq<char>,
    call: Call,
    ok: OkView,
)
    requires
        performed(ks, prsn_handle, call, Ok::<OkView, ErrorView>(ok)),
    ensures
        match call {
            Call::Generate { .. } => ok is Keygen,
            Call::Sign { .. } => ok is Sign && ok->Sign_signature.len() == 64,
            Call::Ecdh { .. } => ok is Ecdh && ok->Ecdh_shared_secret.len() == 32,
            Call::MlKemDecapsulate { .. } => ok is MlKemDecapsulate
                && ok->MlKemDecapsulate_shared_secret.len() == 32,
            Call::MlDsaSign { .. } => ok is MlDsaSign,
            Call::Meta { .. } => ok is Meta,
            Call::Has { .. } => ok is Exists,
            Call::List => ok is List,
            Call::Identity => ok == (OkView::Identity { handle: Some(prsn_handle) }),
            Call::Delete { .. } => ok is Delete,
        },
{
}

/// A listing shows only this PRSN's keys.
pub proof fn listings_are_scoped(keys: Seq<KeyMeta>, prsn_handle: Seq<char>, n: int)
    requires
        0 <= n <= keys.len(),
    ensures
        forall|i: int|
            0 <= i < own_entries(keys, prsn_handle, n).len() ==> owned(
                (#[trigger] own_entries(keys, prsn_handle, n)[i]).label,
                prsn_handle,
            ),
    decreases n,
{
    if n > 0 {
        listings_are_scoped(keys, prsn_handle, n - 1);
        let before = own_entries(keys, prsn_handle, n - 1);
        let now = own_entries(keys, prsn_handle, n);
        assert forall|i: int| 0 <= i < now.len() implies owned(
            (#[trigger] now[i]).label,
            prsn_handle,
        ) by {
            if i < before.len() {
                assert(now[i] == before[i]);
            }
        }
    }
}

/// Whether a reply reports a failure `e`: with its code and its message.
pub open spec fn reports(reply: Reply, e: ErrorView) -> bool {
    reply == (Reply::Failed { code: e.code, message: e.message })
}

/// The label that a request names, where it names one.
pub open spec fn named_label(op: OpView) -> Option<Seq<char>> {
    match op {
        OpView::Keygen { label, .. } => Some(label),
        OpView::Sign { label, .. } => Some(label),
        OpView::Ecdh { label, .. } => Some(label),
        OpView::MlKemDecapsulate { label, .. } => Some(label),
        OpView::MlDsaSign { label, .. } => Some(label),
        OpView::Meta { label } => Some(label),
        OpView::Exists { label } => Some(label),
        OpView::Delete { label } => Some(label),
        OpView::List => None,
        OpView::Identity => None,
    }
}

/// What a PRSN asks of its own key is answered by the keystore, on the request's own arguments:
/// a signature is one of that key over the message of the request, a secret the one of that key
/// with the peer's point or the ciphertext of the request, and so on for every operation. A
/// failure is the keystore's own for that very call. Only a ciphertext or a context of the wrong
/// length is refused without it.
pub proof fn a_request_is_answered_by_its_own_call<K: Keystore + ?Sized>(
    ks: &K,
    b: Behaviour,
    l: Labelled,
    op: OpView,
    reply: Reply,
)
    requires
        b.is_of(ks),
        named_label(op) is Some ==> label_parsed(named_label(op)->0, None) == Ok::<
            Labelled,
            ErrorView,
        >(l),
        answered(ks, l.handle, op, reply),
    ensures
        match op {
            OpView::Keygen { algorithm, .. } => {
                ||| exists|e: ErrorView| #[trigger]
                    (b.generates)(l, algorithm, Err(e)) && reports(reply, e)
                ||| exists|k: KeyFacts| #[trigger]
                    (b.generates)(l, algorithm, Ok(k)) && reply == Reply::Done(
                        OkView::Keygen {
                            public_key: k.public_key,
                            fingerprint: k.fingerprint,
                            algorithm: k.algorithm,
                        },
                    )
            },
            OpView::Sign { msg, .. } => {
                ||| exists|e: ErrorView| #[trigger] (b.signs)(l, msg, Err(e)) && reports(reply, e)
                ||| exists|s: Seq<u8>| #[trigger]
                    (b.signs)(l, msg, Ok(s)) && reply == Reply::Done(
                        OkView::Sign { signature: s },
                    )
            },
            OpView::Ecdh { peer_pub_x963, .. } => {
                ||| exists|e: ErrorView| #[trigger]
                    (b.agrees)(l, peer_pub_x963, Err(e)) && reports(reply, e)
                ||| exists|z: Seq<u8>| #[trigger]
                    (b.agrees)(l, peer_pub_x963, Ok(z)) && reply == Reply::Done(
                        OkView::Ecdh { shared_secret: z },
                    )
            },
            OpView::MlKemDecapsulate { ek, .. } => if ek.len() == 1568 {
                ||| exists|e: ErrorView| #[trigger]
                    (b.decapsulates)(l, ek, Err(e)) && reports(reply, e)
                ||| exists|z: Seq<u8>| #[trigger]
                    (b.decapsulates)(l, ek, Ok(z)) && reply == Reply::Done(
                        OkView::MlKemDecapsulate { shared_secret: z },
                    )
            } else {
                reply matches Reply::Failed { code, .. } && code == "invalid_arguments"@
            },
            OpView::MlDsaSign { msg, ctx, .. } => if ctx.len() <= 255 {
                ||| exists|e: ErrorView| #[trigger]
                    (b.signs_pq)(l, msg, ctx, Err(e)) && reports(reply, e)
                ||| exists|s: Seq<u8>| #[trigger]
                    (b.signs_pq)(l, msg, ctx, Ok(s)) && reply == Reply::Done(
                        OkView::MlDsaSign { signature: s },
                    )
            } else {
                reply matches Reply::Failed { code, .. } && code == "invalid_arguments"@
            },
            OpView::Meta { .. } => {
                ||| exists|e: ErrorView| #[trigger] (b.describes)(l, Err(e)) && reports(reply, e)
                ||| exists|k: KeyFacts| #[trigger]
                    (b.describes)(l, Ok(k)) && reply == Reply::Done(
                        OkView::Meta {
                            public_key: k.public_key,
                            fingerprint: k.fingerprint,
                            algorithm: k.algorithm,
                            purpose: k.purpose,
                        },
                    )
            },
            OpView::Exists { .. } => {
                ||| exists|e: ErrorView| #[trigger] (b.holds)(l, Err(e)) && reports(reply, e)
                ||| exists|held: bool| #[trigger]
                    (b.holds)(l, Ok(held)) && reply == Reply::Done(OkView::Exists { held })
            },
            OpView::List => true,
            OpView::Identity => reply == Reply::Done(
                OkView::Identity { handle: Some(l.handle) },
            ),
            OpView::Delete { .. } => {
                ||| exists|e: ErrorView| #[trigger] (b.deletes)(l, Err(e)) && reports(reply, e)
                ||| (b.deletes)(l, Ok(())) && reply == Reply::Done(OkView::Delete)
            },
        },
{
}

/// A request for a key of another PRSN is refused, whatever it asks and whatever the keystore
/// would say; so is one whose label names no key.
pub proof fn a_foreign_key_is_out_of_reach<K: Keystore + ?Sized>(
    ks: &K,
    prsn_handle: Seq<char>,
    op: OpView,
    reply: Reply,
)
    requires
        answered(ks, prsn_handle, op, reply),
        named_label(op) is Some,
    ensures
        label_parsed(named_label(op)->0, None) matches Ok(l) && l.handle != prsn_handle ==> (
        reply matches Reply::Failed { code, .. } && code == "authorization_denied"@),
        label_parsed(named_label(op)->0, None) matches Err(e) ==> reports(reply, e),
{
}

/// A listing shows every key of this PRSN that the keystore lists, as it lists it and in its
/// order, and no other; a failure to list is the keystore's own.
pub proof fn a_listing_is_this_prsns_part_of_the_keystores<K: Keystore + ?Sized>(
    ks: &K,
    b: Behaviour,
    prsn_handle: Seq<char>,
    reply: Reply,
)
    requires
        b.is_of(ks),
        answered(ks, prsn_handle, OpView::List, reply),
    ensures
        ({
            ||| exists|e: ErrorView| #[trigger] (b.lists)(Err(e)) && reports(reply, e)
            ||| exists|keys: Seq<KeyMeta>| #[trigger]
                (b.lists)(Ok(keys)) && reply == Reply::Done(
                    OkView::List {
                        keys: keys.filter(
                            |k: KeyMeta|
                                label_parsed(k.label@, None) matches Ok(l) && l.handle
                                    == prsn_handle,
                        ).map_values(
                            |k: KeyMeta|
                                EntryView {
                                    label: k.label@,
                                    purpose: k.purpose@,
                                    algorithm: k.algorithm@,
                                    fingerprint: k.fingerprint@,
                                    public_key: k.public_key@,
                                },
                        ),
                    },
                )
        }),
{
    assert forall|keys: Seq<KeyMeta>| #[trigger]
        (b.lists)(Ok(keys)) implies own_entries(keys, prsn_handle, keys.len() as int)
        == keys.filter(
        |k: KeyMeta| label_parsed(k.label@, None) matches Ok(l) && l.handle == prsn_handle,
    ).map_values(
        |k: KeyMeta|
            EntryView {
                label: k.label@,
                purpose: k.purpose@,
                algorithm: k.algorithm@,
                fingerprint: k.fingerprint@,
                public_key: k.public_key@,
            },
    ) by {
        own_entries_filter(keys, prsn_handle, keys.len() as int);
        assert(keys.take(keys.len() as int) =~= keys);
    }
}

proof fn own_entries_filter(keys: Seq<KeyMeta>, prsn_handle: Seq<char>, n: int)
    requires
        0 <= n <= keys.len(),
    ensures
        own_entries(keys, prsn_handle, n) == keys.take(n).filter(
            |k: KeyMeta| label_parsed(k.label@, None) matches Ok(l) && l.handle == prsn_handle,
        ).map_values(
            |k: KeyMeta|
                EntryView {
                    label: k.label@,
                    purpose: k.purpose@,
                    algorithm: k.algorithm@,
                    fingerprint: k.fingerprint@,
                    public_key: k.public_key@,
                },
        ),
    decreases n,
{
    let own = |k: KeyMeta|
        label_parsed(k.label@, None) matches Ok(l) && l.handle == prsn_handle;
    let shown = |k: KeyMeta|
        EntryView {
            label: k.label@,
            purpose: k.purpose@,
            algorithm: k.algorithm@,
            fingerprint: k.fingerprint@,
            public_key: k.public_key@,
        };
    reveal(Seq::filter);
    if n == 0 {
        assert(keys.take(0).filter(own).map_values(shown) =~= Seq::empty());
    } else {
        own_entries_filter(keys, prsn_handle, n - 1);
        let before = keys.take(n - 1);
        assert(keys.take(n).drop_last() =~= before);
        assert(keys.take(n).last() == keys[n - 1]);
        if own(keys[n - 1]) {
            assert(before.filter(own).push(keys[n - 1]).map_values(shown) =~= before.filter(
                own,
            ).map_values(shown).push(shown(keys[n - 1])));
        }
    }
}

/// A bound channel answers for the PRSN it is bound to and no other; an unbound one answers a
/// keygen alone, for the PRSN that the new key's label names, and is bound to it if, and only if,
/// the keygen succeeds. Who a channel is bound to may always be asked.
pub proof fn a_channel_answers_for_its_own_prsn<K: Keystore + ?Sized>(
    ks: &K,
    before: Option<Seq<char>>,
    op: OpView,
    reply: Reply,
    after: Option<Seq<char>>,
)
    requires
        channel_step(ks, before, op, reply, after),
    ensures
        op is Identity ==> reply == Reply::Done(OkView::Identity { handle: before }) && after
            == before,
        before is Some ==> after == before,
        before is Some && !(op is Identity) ==> answered(ks, before->0, op, reply),
        before is None && !(op is Identity) && !(op is Keygen) ==> after is None && (
        reply matches Reply::Failed { code, .. } && code == "authorization_denied"@),
        before is None ==> (op matches OpView::Keygen { label, .. } ==> match label_parsed(
            label,
            None,
        ) {
            Err(e) => reports(reply, e) && after is None,
            Ok(l) => answered(ks, l.handle, op, reply) && (reply is Done <==> after is Some) && (
            after is Some ==> after->0 == l.handle),
        }),
{
}

/// One channel in the [`Registry`].
#[derive(Debug)]
pub struct ChannelConfig {
    /// The stable channel id.
    pub id: String,
    /// Host path to the bind-mounted channel folder.
    pub dir: String,
    /// The per-PRSN secret, in hexadecimal.
    pub secret_hex: String,
}

/// The host-signer registry: where pins are kept, and one entry per channel.
#[derive(Debug)]
pub struct Registry {
    pub state_dir: String,
    pub channels: Vec<ChannelConfig>,
}

impl Registry {
    /// The registry as loaded, or, where there is none yet, an empty one rooted at
    /// `default_state_dir`.
    pub fn load_or_init(loaded: Option<Registry>, default_state_dir: &str) -> (r: Registry)
        ensures
            match loaded {
                Some(reg) => r == reg,
                None => r.state_dir@ == default_state_dir@ && r.channels@.len() == 0,
            },
    {
        match loaded {
            Some(reg) => reg,
            None => Registry { state_dir: default_state_dir.to_owned(), channels: Vec::new() },
        }
    }
}

/// The channel secret of a registry entry: 32 bytes in hexadecimal.
pub open spec fn registered_secret(text: Seq<char>) -> Result<Seq<u8>, ErrorView> {
    match hex_bytes(trimmed(text)) {
        None => Err(ErrorView::config("channel secret_hex is not hex"@)),
        Some(b) => if b.len() == 32 {
            Ok(b)
        } else {
            Err(ErrorView::config("channel secret must be 32 bytes (64 hex chars)"@))
        },
    }
}

/// Read a registry entry's secret.
pub fn parse_secret_hex(hex_str: &str) -> (r: Result<[u8; 32], CliError>)
    ensures
        match r {
            Ok(a) => registered_secret(hex_str@) == Ok::<Seq<u8>, ErrorView>(a@),
            Err(e) => registered_secret(hex_str@) == Err::<Seq<u8>, ErrorView>(e@),
        },
{
    match hex_decode(trim(hex_str)) {
        None => Err(CliError::config("channel secret_hex is not hex")),
        Some(b) => match array_of::<32>(b) {
            Some(a) => Ok(a),
            None => Err(CliError::config("channel secret must be 32 bytes (64 hex chars)")),
        },
    }
}

/// A channel is evicted once this many polls in a row found its folder missing.
pub const EVICT_AFTER_MISSING_POLLS: u32 = 20;

/// What one poll of a channel's folder came to.
#[derive(Debug, Clone, Copy, PartialEq, Eq, Structural)]
pub enum PollEvent {
    /// So many requests were answered.
    Answered(usize),
    /// The folder is gone.
    FolderMissing,
    /// Anything else went wrong.
    Failed,
}

/// What the daemon does about a poll.
#[derive(Debug, Clone, Copy, PartialEq, Eq, Structural)]
pub struct PollOutcome {
    /// At least one request was answered.
    pub worked: bool,
    /// The channel is to be dropped.
    pub evict: bool,
}

/// The missing-folder count after a poll.
pub open spec fn missing_after(missing_polls: u32, event: PollEvent) -> u32 {
    match event {
        PollEvent::FolderMissing => if missing_polls < u32::MAX {
            (missing_polls + 1) as u32
        } else {
            u32::MAX
        },
        _ => 0,
    }
}

/// Count a poll and decide: a missing folder is counted and, at the threshold, evicted;
/// anything else starts the count over.
pub fn poll_step(missing_polls: &mut u32, event: PollEvent) -> (o: PollOutcome)
    ensures
        *final(missing_polls) == missing_after(*old(missing_polls), event),
        o == (PollOutcome {
            worked: event matches PollEvent::Answered(n) && n > 0,
            evict: event is FolderMissing && *final(missing_polls) == EVICT_AFTER_MISSING_POLLS,
        }),
        o.evict <==> event is FolderMissing && *old(missing_polls) == 19,
{
    match event {
        PollEvent::Answered(n) => {
            *missing_polls = 0;
            PollOutcome { worked: n > 0, evict: false }
        },
        PollEvent::FolderMissing => {
            if *missing_polls < u32::MAX {
                *missing_polls = *missing_polls + 1;
            }
            PollOutcome { worked: false, evict: *missing_polls == EVICT_AFTER_MISSING_POLLS }
        },
        PollEvent::Failed => {
            *missing_polls = 0;
            PollOutcome { worked: false, evict: false }
        },
    }
}

/// The missing-folder count after a run of polls.
pub open spec fn missing_after_all(events: Seq<PollEvent>) -> u32
    decreases events.len(),
{
    if events.len() == 0 {
        0
    } else {
        missing_after(missing_after_all(events.drop_last()), events.last())
    }
}

/// The count never passes the number of polls at the end of the run that all found the folder
/// missing: a brief absence evicts nothing.
pub proof fn eviction_takes_consecutive_misses(events: Seq<PollEvent>)
    ensures
        missing_after_all(events) <= events.len(),
        forall|i: int|
            events.len() - missing_after_all(events) <= i < events.len()
                ==> #[trigger] events[i] is FolderMissing,
    decreases events.len(),
{
    if events.len() > 0 {
        let before = events.drop_last();
        eviction_takes_consecutive_misses(before);
        assert forall|i: int|
            events.len() - missing_after_all(events) <= i < events.len() implies
            #[trigger] events[i] is FolderMissing by {
            if i < events.len() - 1 {
                assert(before[i] == events[i]);
            }
        }
    }
}

/// Polls that found the folder missing count up one by one from the last poll that did not: the
/// count at the end of a run is the length of its missing tail.
pub proof fn consecutive_misses_are_counted(events: Seq<PollEvent>, tail: int)
    requires
        0 <= tail <= events.len() <= u32::MAX,
        forall|i: int|
            events.len() - tail <= i < events.len() ==> #[trigger] events[i] is FolderMissing,
        tail < events.len() ==> !(events[events.len() - tail - 1] is FolderMissing),
    ensures
        missing_after_all(events) == tail,
    decreases events.len(),
{
    if events.len() > 0 {
        let before = events.drop_last();
        if tail > 0 {
            assert(events.last() is FolderMissing);
            assert forall|i: int| before.len() - (tail - 1) <= i < before.len() implies
                #[trigger] before[i] is FolderMissing by {
                assert(before[i] == events[i]);
            }
            consecutive_misses_are_counted(before, tail - 1);
        }
    }
}

/// What an operator is told when a channel is evicted.
pub fn eviction_notice(id: &str) -> (s: String)
    ensures
        s@ == "signet host-signer: channel "@ + id@
            + " folder is gone; evicting it (run `signet host-channel remove "@ + id@
            + "` to clean up the registry)"@,
{
    join5(
        "signet host-signer: channel ",
        id,
        " folder is gone; evicting it (run `signet host-channel remove ",
        id,
        "` to clean up the registry)",
    )
}

/// The idle pause in milliseconds: doubling with every idle round, 50 at most.
pub open spec fn idle_ms(idle_rounds: u32) -> nat {
    if idle_rounds == 0 {
        1
    } else if idle_rounds == 1 {
        2
    } else if idle_rounds == 2 {
        4
    } else if idle_rounds == 3 {
        8
    } else if idle_rounds == 4 {
        16
    } else if idle_rounds == 5 {
        32
    } else {
        50
    }
}

/// Idle poll backoff: ramps to a 50 ms ceiling.
pub fn idle_backoff(idle_rounds: u32) -> (s: Span)
    ensures
        s.ns() == idle_ms(idle_rounds) * 1_000_000,
{
    let exponent: u32 = if idle_rounds < 6 { idle_rounds } else { 6 };
    let power: u64 = 1u64 << exponent;
    proof {
        assert(1u64 << 0u32 == 1) by (bit_vector);
        assert(1u64 << 1u32 == 2) by (bit_vector);
        assert(1u64 << 2u32 == 4) by (bit_vector);
        assert(1u64 << 3u32 == 8) by (bit_vector);
        assert(1u64 << 4u32 == 16) by (bit_vector);
        assert(1u64 << 5u32 == 32) by (bit_vector);
        assert(1u64 << 6u32 == 64) by (bit_vector);
    }
    Span::from_millis(if power < 50 { power } else { 50 })
}

/// The idle pause starts at a millisecond and doubles with every idle round, up to 50
/// milliseconds, where it stays.
pub proof fn the_idle_pause_doubles_up_to_its_ceiling(idle_rounds: u32)
    requires
        idle_rounds < u32::MAX,
    ensures
        idle_ms(0) == 1,
        idle_ms((idle_rounds + 1) as u32) == if 2 * idle_ms(idle_rounds) < 50 {
            2 * idle_ms(idle_rounds)
        } else {
            50
        },
{
}

/// The pause after one pass over the channels, and the idle count it leaves: a millisecond
/// after work, the idle backoff otherwise.
pub fn pass_step(idle: &mut u32, worked: bool) -> (s: Span)
    ensures
        *final(idle) == if worked {
            0
        } else if *old(idle) < u32::MAX {
            (*old(idle) + 1) as u32
        } else {
            u32::MAX
        },
        s.ns() == if worked {
            1_000_000
        } else {
            idle_ms(*final(idle)) * 1_000_000
        },
{
    if worked {
        *idle = 0;
        Span::from_millis(1)
    } else {
        if *idle < u32::MAX {
            *idle = *idle + 1;
        }
        idle_backoff(*idle)
    }
}

/// Every further miss counts for one, up to the largest count, where the count stays; any poll
/// that found the folder starts it over.
pub proof fn a_miss_never_lowers_the_count(missing_polls: u32, event: PollEvent)
    ensures
        event is FolderMissing ==> missing_after(missing_polls, event) >= missing_polls,
        event is FolderMissing && missing_polls != u32::MAX ==> missing_after(missing_polls, event)
            == missing_polls + 1,
        !(event is FolderMissing) ==> missing_after(missing_polls, event) == 0,
{
}

} // verus!
