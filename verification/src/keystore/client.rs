//! The client side of a wire keystore: the operation each keystore call sends, and what its
//! answer comes to. Shared by the host-delegation channel and the broker, whose names appear
//! in the errors (`peer`).

use vstd::prelude::*;

use super::delegated::{request, ChannelError};
use super::{
    array_of, handle_checked, labels_read_back, mldsa_ctx_checked, validate_mldsa_ctx, wire_error,
    Behaviour, KeyFacts, KeyLabel, KeyMeta, Keystore, Tier, ML_DSA_87_SIG_LEN,
};
use crate::error::{outcome, seen, CliError, ErrorView};
use crate::host_signer::{a_request_is_answered_by_its_own_call, answered};
use crate::text::{copy_bytes, debug_quoted, decimal, join2, join3, join5, quote_debug, to_decimal};
use crate::wire::{entry_views, EntryView, KeyEntry, OkView, Op, OpOk, OpView, Response};

verus! {

/// Bytes as numbers, a comma and a space between them.
pub open spec fn bytes_listed(bytes: Seq<u8>) -> Seq<char>
    decreases bytes.len(),
{
    if bytes.len() == 0 {
        Seq::empty()
    } else if bytes.len() == 1 {
        decimal(bytes[0] as nat)
    } else {
        bytes_listed(bytes.drop_last()) + ", "@ + decimal(bytes.last() as nat)
    }
}

/// How bytes are shown: as numbers, in brackets.
pub open spec fn bytes_shown(bytes: Seq<u8>) -> Seq<char> {
    "["@ + bytes_listed(bytes) + "]"@
}

/// How a listed key is shown.
pub open spec fn entry_shown(k: EntryView) -> Seq<char> {
    "KeyEntry { label: "@ + debug_quoted(k.label) + ", purpose: "@ + debug_quoted(k.purpose)
        + ", algorithm: "@ + debug_quoted(k.algorithm) + ", fingerprint: "@ + debug_quoted(
        k.fingerprint,
    ) + ", public_key: "@ + bytes_shown(k.public_key) + " }"@
}

/// Listed keys as they are shown, a comma and a space between them.
pub open spec fn entries_listed(keys: Seq<EntryView>) -> Seq<char>
    decreases keys.len(),
{
    if keys.len() == 0 {
        Seq::empty()
    } else if keys.len() == 1 {
        entry_shown(keys[0])
    } else {
        entries_listed(keys.drop_last()) + ", "@ + entry_shown(keys.last())
    }
}

/// How an operation's result is shown: its kind, and its fields by name.
pub open spec fn shown(ok: OkView) -> Seq<char> {
    match ok {
        OkView::Keygen { public_key, fingerprint, algorithm } => "Keygen { public_key: "@
            + bytes_shown(public_key) + ", fingerprint: "@ + debug_quoted(fingerprint)
            + ", algorithm: "@ + debug_quoted(algorithm) + " }"@,
        OkView::Sign { signature } => "Sign { signature: "@ + bytes_shown(signature) + " }"@,
        OkView::Ecdh { shared_secret } => "Ecdh { shared_secret: "@ + bytes_shown(shared_secret)
            + " }"@,
        OkView::MlKemDecapsulate { shared_secret } => "MlKemDecapsulate { shared_secret: "@
            + bytes_shown(shared_secret) + " }"@,
        OkView::MlDsaSign { signature } => "MlDsaSign { signature: "@ + bytes_shown(signature)
            + " }"@,
        OkView::Meta { public_key, fingerprint, algorithm, purpose } => "Meta { public_key: "@
            + bytes_shown(public_key) + ", fingerprint: "@ + debug_quoted(fingerprint)
            + ", algorithm: "@ + debug_quoted(algorithm) + ", purpose: "@ + debug_quoted(purpose)
            + " }"@,
        OkView::Exists { held } => if held {
            "Exists { exists: true }"@
        } else {
            "Exists { exists: false }"@
        },
        OkView::List { keys } => "List { keys: ["@ + entries_listed(keys) + "] }"@,
        OkView::Identity { handle } => match handle {
            Some(h) => "Identity { handle: Some("@ + debug_quoted(h) + ") }"@,
            None => "Identity { handle: None }"@,
        },
        OkView::Delete => "Delete"@,
    }
}

fn show_bytes(bytes: &[u8]) -> (s: String)
    ensures
        s@ == bytes_shown(bytes@),
{
    let mut list = String::new();
    let mut i: usize = 0;
    assert(bytes@.take(0) =~= Seq::<u8>::empty());
    while i < bytes.len()
        invariant
            i <= bytes@.len(),
            list@ == bytes_listed(bytes@.take(i as int)),
        decreases bytes@.len() - i,
    {
        proof {
            assert(bytes@.take(i + 1).drop_last() =~= bytes@.take(i as int));
            assert(bytes@.take(i + 1).last() == bytes@[i as int]);
        }
        if i > 0 {
            list.append(", ");
        } else {
            assert(list@ =~= Seq::<char>::empty());
            assert(Seq::<char>::empty() + decimal(bytes@[0] as nat) =~= decimal(
                bytes@[0] as nat,
            ));
        }
        list.append(&to_decimal(bytes[i] as u64));
        i = i + 1;
    }
    assert(bytes@.take(i as int) =~= bytes@);
    join3("[", &list, "]")
}

fn show_entry(k: &KeyEntry) -> (s: String)
    ensures
        s@ == entry_shown(k@),
{
    let mut s = join2("KeyEntry { label: ", &quote_debug(&k.label));
    s.append(", purpose: ");
    s.append(&quote_debug(&k.purpose));
    s.append(", algorithm: ");
    s.append(&quote_debug(&k.algorithm));
    s.append(", fingerprint: ");
    s.append(&quote_debug(&k.fingerprint));
    s.append(", public_key: ");
    s.append(&show_bytes(k.public_key.as_slice()));
    s.append(" }");
    s
}

fn show_entries(keys: &Vec<KeyEntry>) -> (s: String)
    ensures
        s@ == entries_listed(entry_views(keys@)),
{
    let ghost all = entry_views(keys@);
    let mut list = String::new();
    let mut i: usize = 0;
    assert(all.take(0) =~= Seq::<EntryView>::empty());
    while i < keys.len()
        invariant
            all == entry_views(keys@),
            i <= keys@.len(),
            list@ == entries_listed(all.take(i as int)),
        decreases keys@.len() - i,
    {
        proof {
            assert(all.take(i + 1).drop_last() =~= all.take(i as int));
            assert(all.take(i + 1).last() == keys@[i as int]@);
        }
        if i > 0 {
            list.append(", ");
        } else {
            assert(list@ =~= Seq::<char>::empty());
            assert(Seq::<char>::empty() + entry_shown(keys@[0]@) =~= entry_shown(keys@[0]@));
        }
        list.append(&show_entry(&keys[i]));
        i = i + 1;
    }
    assert(all.take(i as int) =~= all);
    list
}

/// Show an operation's result, as an error quotes it.
pub fn show(ok: &OpOk) -> (s: String)
    ensures
        s@ == shown(ok@),
{
    match ok {
        OpOk::Keygen { public_key, fingerprint, algorithm } => {
            let mut s = join2("Keygen { public_key: ", &show_bytes(public_key.as_slice()));
            s.append(", fingerprint: ");
            s.append(&quote_debug(fingerprint));
            s.append(", algorithm: ");
            s.append(&quote_debug(algorithm));
            s.append(" }");
            s
        },
        OpOk::Sign { signature } => join3(
            "Sign { signature: ",
            &show_bytes(signature.as_slice()),
            " }",
        ),
        OpOk::Ecdh { shared_secret } => join3(
            "Ecdh { shared_secret: ",
            &show_bytes(shared_secret.as_slice()),
            " }",
        ),
        OpOk::MlKemDecapsulate { shared_secret } => join3(
            "MlKemDecapsulate { shared_secret: ",
            &show_bytes(shared_secret.as_slice()),
            " }",
        ),
        OpOk::MlDsaSign { signature } => join3(
            "MlDsaSign { signature: ",
            &show_bytes(signature.as_slice()),
            " }",
        ),
        OpOk::Meta { public_key, fingerprint, algorithm, purpose } => {
            let mut s = join2("Meta { public_key: ", &show_bytes(public_key.as_slice()));
            s.append(", fingerprint: ");
            s.append(&quote_debug(fingerprint));
            s.append(", algorithm: ");
            s.append(&quote_debug(algorithm));
            s.append(", purpose: ");
            s.append(&quote_debug(purpose));
            s.append(" }");
            s
        },
        OpOk::Exists { held } => if *held {
            "Exists { exists: true }".to_owned()
        } else {
            "Exists { exists: false }".to_owned()
        },
        OpOk::List { keys } => join3("List { keys: [", &show_entries(keys), "] }"),
        OpOk::Identity { handle } => match handle {
            Some(h) => join3("Identity { handle: Some(", &quote_debug(h), ") }"),
            None => "Identity { handle: None }".to_owned(),
        },
        OpOk::Delete => "Delete".to_owned(),
    }
}

/// The failure of an answer that does not fit the request.
pub open spec fn unexpected_answer(ok: OkView) -> ErrorView {
    ErrorView::generic(
        "the keystore backend returned an unexpected response for the request: "@ + shown(ok),
    )
}

/// An answer that does not fit the request is a protocol violation.
pub fn unexpected(ok: &OpOk) -> (e: CliError)
    ensures
        e@ == unexpected_answer(ok@),
{
    CliError::generic(
        &join2(
            "the keystore backend returned an unexpected response for the request: ",
            &show(ok),
        ),
    )
}

/// A key's metadata as a wire keystore reports it: held in the Secure Enclave.
pub open spec fn enclave_facts(
    label: Seq<char>,
    purpose: Seq<char>,
    algorithm: Seq<char>,
    fingerprint: Seq<char>,
    public_key: Seq<u8>,
) -> KeyFacts {
    KeyFacts {
        label,
        purpose,
        algorithm,
        storage: Tier::SecureEnclave.display(),
        fingerprint,
        public_key,
    }
}

fn meta_from(
    label: String,
    purpose: String,
    algorithm: String,
    fingerprint: String,
    public_key: Vec<u8>,
) -> (m: KeyMeta)
    ensures
        m@ == enclave_facts(label@, purpose@, algorithm@, fingerprint@, public_key@),
{
    KeyMeta {
        label,
        purpose,
        algorithm,
        storage: Tier::SecureEnclave.as_str().to_owned(),
        fingerprint,
        public_key,
    }
}

/// The operation of a key generation.
pub fn generate_op(label: &KeyLabel, algorithm: &str) -> (op: Op)
    ensures
        op@ == (OpView::Keygen { label: label@.full(), algorithm: algorithm@ }),
{
    Op::Keygen { label: label.full(), algorithm: algorithm.to_owned() }
}

/// What the answer to a key generation comes to.
pub fn generate_reply(label: &KeyLabel, ok: OpOk) -> (r: Result<KeyMeta, CliError>)
    ensures
        outcome(r) == match ok@ {
            OkView::Keygen { public_key, fingerprint, algorithm } => Ok::<KeyFacts, ErrorView>(
                enclave_facts(
                    label@.full(),
                    label@.purpose.name(),
                    algorithm,
                    fingerprint,
                    public_key,
                ),
            ),
            other => Err(unexpected_answer(other)),
        },
{
    match ok {
        OpOk::Keygen { public_key, fingerprint, algorithm } => Ok(
            meta_from(
                label.full(),
                label.purpose().as_str().to_owned(),
                algorithm,
                fingerprint,
                public_key,
            ),
        ),
        other => Err(unexpected(&other)),
    }
}

/// The operation of a metadata query.
pub fn meta_op(label: &KeyLabel) -> (op: Op)
    ensures
        op@ == (OpView::Meta { label: label@.full() }),
{
    Op::Meta { label: label.full() }
}

/// What the answer to a metadata query comes to.
pub fn meta_reply(label: &KeyLabel, ok: OpOk) -> (r: Result<KeyMeta, CliError>)
    ensures
        outcome(r) == match ok@ {
            OkView::Meta { public_key, fingerprint, algorithm, purpose } => Ok::<
                KeyFacts,
                ErrorView,
            >(enclave_facts(label@.full(), purpose, algorithm, fingerprint, public_key)),
            other => Err(unexpected_answer(other)),
        },
{
    match ok {
        OpOk::Meta { public_key, fingerprint, algorithm, purpose } => Ok(
            meta_from(label.full(), purpose, algorithm, fingerprint, public_key),
        ),
        other => Err(unexpected(&other)),
    }
}

/// The operation of a classical signature.
pub fn sign_op(label: &KeyLabel, msg: &[u8]) -> (op: Op)
    ensures
        op@ == (OpView::Sign { label: label@.full(), msg: msg@ }),
{
    Op::Sign { label: label.full(), msg: copy_bytes(msg) }
}

/// What the answer to a classical signature comes to: 64 bytes.
pub fn sign_reply(peer: &str, ok: OpOk) -> (r: Result<[u8; 64], CliError>)
    ensures
        match ok@ {
            OkView::Sign { signature } => if signature.len() == 64 {
                r is Ok && r->Ok_0@ == signature
            } else {
                r is Err && r->Err_0@ == ErrorView::generic(
                    peer@ + " returned a non-64-byte signature"@,
                )
            },
            other => r is Err && r->Err_0@ == unexpected_answer(other),
        },
{
    match ok {
        OpOk::Sign { signature } => match array_of::<64>(signature) {
            Some(a) => Ok(a),
            None => Err(CliError::generic(&join2(peer, " returned a non-64-byte signature"))),
        },
        other => Err(unexpected(&other)),
    }
}

/// The operation of a key agreement.
pub fn ecdh_op(label: &KeyLabel, peer_pub_x963: &[u8]) -> (op: Op)
    ensures
        op@ == (OpView::Ecdh { label: label@.full(), peer_pub_x963: peer_pub_x963@ }),
{
    Op::Ecdh { label: label.full(), peer_pub_x963: copy_bytes(peer_pub_x963) }
}

/// What the answer to a key agreement comes to: 32 bytes.
pub fn ecdh_reply(peer: &str, ok: OpOk) -> (r: Result<[u8; 32], CliError>)
    ensures
        match ok@ {
            OkView::Ecdh { shared_secret } => if shared_secret.len() == 32 {
                r is Ok && r->Ok_0@ == shared_secret
            } else {
                r is Err && r->Err_0@ == ErrorView::generic(
                    peer@ + " returned a non-32-byte shared secret"@,
                )
            },
            other => r is Err && r->Err_0@ == unexpected_answer(other),
        },
{
    match ok {
        OpOk::Ecdh { shared_secret } => match array_of::<32>(shared_secret) {
            Some(a) => Ok(a),
            None => Err(CliError::generic(&join2(peer, " returned a non-32-byte shared secret"))),
        },
        other => Err(unexpected(&other)),
    }
}

/// The operation of an ML-KEM decapsulation.
pub fn ml_kem_decapsulate_op(label: &KeyLabel, ek: &[u8]) -> (op: Op)
    ensures
        op@ == (OpView::MlKemDecapsulate { label: label@.full(), ek: ek@ }),
{
    Op::MlKemDecapsulate { label: label.full(), ek: copy_bytes(ek) }
}

/// What the answer to an ML-KEM decapsulation comes to: 32 bytes.
pub fn ml_kem_decapsulate_reply(peer: &str, ok: OpOk) -> (r: Result<[u8; 32], CliError>)
    ensures
        match ok@ {
            OkView::MlKemDecapsulate { shared_secret } => if shared_secret.len() == 32 {
                r is Ok && r->Ok_0@ == shared_secret
            } else {
                r is Err && r->Err_0@ == ErrorView::generic(
                    peer@ + " returned a non-32-byte ml-kem shared secret"@,
                )
            },
            other => r is Err && r->Err_0@ == unexpected_answer(other),
        },
{
    match ok {
        OpOk::MlKemDecapsulate { shared_secret } => match array_of::<32>(shared_secret) {
            Some(a) => Ok(a),
            None => Err(
                CliError::generic(&join2(peer, " returned a non-32-byte ml-kem shared secret")),
            ),
        },
        other => Err(unexpected(&other)),
    }
}

/// The operation of an ML-DSA signature; an oversized context is refused before it is sent.
pub fn ml_dsa_sign_op(label: &KeyLabel, msg: &[u8], ctx: &[u8]) -> (r: Result<Op, CliError>)
    ensures
        outcome(r) == match mldsa_ctx_checked(ctx@.len()) {
            Ok(()) => Ok::<OpView, ErrorView>(
                OpView::MlDsaSign { label: label@.full(), msg: msg@, ctx: ctx@ },
            ),
            Err(e) => Err(e),
        },
{
    match validate_mldsa_ctx(ctx) {
        Err(e) => Err(e),
        Ok(()) => Ok(
            Op::MlDsaSign { label: label.full(), msg: copy_bytes(msg), ctx: copy_bytes(ctx) },
        ),
    }
}

/// What the answer to an ML-DSA signature comes to: 4627 bytes.
pub fn ml_dsa_sign_reply(peer: &str, ok: OpOk) -> (r: Result<Vec<u8>, CliError>)
    ensures
        outcome(r) == match ok@ {
            OkView::MlDsaSign { signature } => if signature.len() == ML_DSA_87_SIG_LEN {
                Ok::<Seq<u8>, ErrorView>(signature)
            } else {
                Err(
                    ErrorView::generic(
                        peer@ + " returned a "@ + decimal(signature.len())
                            + "-byte ml-dsa signature (expected "@ + decimal(
                            ML_DSA_87_SIG_LEN as nat,
                        ) + ")"@,
                    ),
                )
            },
            other => Err(unexpected_answer(other)),
        },
{
    match ok {
        OpOk::MlDsaSign { signature } => {
            if signature.len() != ML_DSA_87_SIG_LEN {
                let mut m = join5(
                    peer,
                    " returned a ",
                    &to_decimal(signature.len() as u64),
                    "-byte ml-dsa signature (expected ",
                    &to_decimal(ML_DSA_87_SIG_LEN as u64),
                );
                m.append(")");
                return Err(CliError::generic(&m));
            }
            Ok(signature)
        },
        other => Err(unexpected(&other)),
    }
}

/// A listed key as a wire keystore reports it.
pub open spec fn entry_facts(k: EntryView) -> KeyFacts {
    enclave_facts(k.label, k.purpose, k.algorithm, k.fingerprint, k.public_key)
}

/// Every metadata record, viewed.
pub open spec fn meta_views(keys: Seq<KeyMeta>) -> Seq<KeyFacts> {
    keys.map_values(|k: KeyMeta| k@)
}

/// What the answer to a listing comes to: every key, in order.
pub fn list_reply(ok: OpOk) -> (r: Result<Vec<KeyMeta>, CliError>)
    ensures
        match ok@ {
            OkView::List { keys } => r is Ok && meta_views(r->Ok_0@) == keys.map_values(
                |k: EntryView| entry_facts(k),
            ),
            other => r is Err && r->Err_0@ == unexpected_answer(other),
        },
{
    match ok {
        OpOk::List { keys } => {
            let ghost wanted = entry_views(keys@).map_values(|k: EntryView| entry_facts(k));
            let mut out: Vec<KeyMeta> = Vec::new();
            let mut i: usize = 0;
            while i < keys.len()
                invariant
                    i <= keys@.len(),
                    out@.len() == i,
                    wanted == entry_views(keys@).map_values(|k: EntryView| entry_facts(k)),
                    forall|j: int| 0 <= j < i ==> (#[trigger] out@[j])@ == wanted[j],
                decreases keys@.len() - i,
            {
                let k = &keys[i];
                out.push(
                    meta_from(
                        k.label.clone(),
                        k.purpose.clone(),
                        k.algorithm.clone(),
                        k.fingerprint.clone(),
                        copy_bytes(&k.public_key),
                    ),
                );
                i = i + 1;
            }
            assert(meta_views(out@) =~= wanted);
            Ok(out)
        },
        other => Err(unexpected(&other)),
    }
}

/// The operation of a deletion.
pub fn delete_op(label: &KeyLabel) -> (op: Op)
    ensures
        op@ == (OpView::Delete { label: label@.full() }),
{
    Op::Delete { label: label.full() }
}

/// What the answer to a deletion comes to.
pub fn delete_reply(ok: OpOk) -> (r: Result<(), CliError>)
    ensures
        outcome(r) == match ok@ {
            OkView::Delete => Ok::<(), ErrorView>(()),
            other => Err(unexpected_answer(other)),
        },
{
    match ok {
        OpOk::Delete => Ok(()),
        other => Err(unexpected(&other)),
    }
}

/// The operation of an existence query.
pub fn has_key_op(label: &KeyLabel) -> (op: Op)
    ensures
        op@ == (OpView::Exists { label: label@.full() }),
{
    Op::Exists { label: label.full() }
}

/// What the answer to an existence query comes to.
pub fn has_key_reply(ok: OpOk) -> (r: Result<bool, CliError>)
    ensures
        outcome(r) == match ok@ {
            OkView::Exists { held } => Ok::<bool, ErrorView>(held),
            other => Err(unexpected_answer(other)),
        },
{
    match ok {
        OpOk::Exists { held } => Ok(held),
        other => Err(unexpected(&other)),
    }
}

/// What the answer to an identity query comes to: the channel's pinned handle, if any.
pub fn identity_reply(ok: OpOk) -> (r: Result<Option<String>, CliError>)
    ensures
        match ok@ {
            OkView::Identity { handle } => r is Ok && seen(r->Ok_0) == handle,
            other => r is Err && r->Err_0@ == unexpected_answer(other),
        },
{
    match ok {
        OpOk::Identity { handle } => Ok(handle),
        other => Err(unexpected(&other)),
    }
}

/// A signature that a client has made over the channel is the host keystore's own: by the key
/// that the client names, over the message that it passed in. A failure is the host's, as the
/// wire carries it.
pub proof fn a_delegated_signature_is_the_hosts<K: Keystore + ?Sized>(
    ks: &K,
    b: Behaviour,
    label: &KeyLabel,
    msg: &[u8],
    op: Op,
    resp: Response,
    got: Result<OpOk, CliError>,
    peer: &str,
    r: Result<[u8; 64], CliError>,
)
    requires
        b.is_of(ks),
        handle_checked(label@.handle) is Ok,
        call_ensures(sign_op, (label, msg), op),
        answered(ks, label@.handle, op@, resp@),
        call_ensures(request, (Ok::<Response, ChannelError>(resp),), got),
        got is Ok ==> call_ensures(sign_reply, (peer, got->Ok_0), r),
    ensures
        match got {
            Ok(_) => r matches Ok(s) && (b.signs)(label@, msg@, Ok(s@)),
            Err(e) => exists|raised: ErrorView| #[trigger]
                (b.signs)(label@, msg@, Err(raised)) && e@ == wire_error(
                    raised.code,
                    raised.message,
                ),
        },
{
    labels_read_back(label@, None);
    a_request_is_answered_by_its_own_call(ks, b, label@, op@, resp@);
}

/// A key agreement that a client has made over the channel is the host keystore's own: of the
/// key that the client names with the point that it passed in.
pub proof fn a_delegated_agreement_is_the_hosts<K: Keystore + ?Sized>(
    ks: &K,
    b: Behaviour,
    label: &KeyLabel,
    peer_pub_x963: &[u8],
    op: Op,
    resp: Response,
    got: Result<OpOk, CliError>,
    peer: &str,
    r: Result<[u8; 32], CliError>,
)
    requires
        b.is_of(ks),
        handle_checked(label@.handle) is Ok,
        call_ensures(ecdh_op, (label, peer_pub_x963), op),
        answered(ks, label@.handle, op@, resp@),
        call_ensures(request, (Ok::<Response, ChannelError>(resp),), got),
        got is Ok ==> call_ensures(ecdh_reply, (peer, got->Ok_0), r),
        forall|z: Seq<u8>| #[trigger] (b.agrees)(label@, peer_pub_x963@, Ok(z)) ==> z.len() == 32,
    ensures
        match got {
            Ok(_) => r matches Ok(z) && (b.agrees)(label@, peer_pub_x963@, Ok(z@)),
            Err(e) => exists|raised: ErrorView| #[trigger]
                (b.agrees)(label@, peer_pub_x963@, Err(raised)) && e@ == wire_error(
                    raised.code,
                    raised.message,
                ),
        },
{
    labels_read_back(label@, None);
    a_request_is_answered_by_its_own_call(ks, b, label@, op@, resp@);
}

/// A decapsulation that a client has made over the channel is the host keystore's own: with the
/// key that the client names, of the ciphertext that it passed in, which must have its length.
pub proof fn a_delegated_decapsulation_is_the_hosts<K: Keystore + ?Sized>(
    ks: &K,
    b: Behaviour,
    label: &KeyLabel,
    ek: &[u8],
    op: Op,
    resp: Response,
    got: Result<OpOk, CliError>,
    peer: &str,
    r: Result<[u8; 32], CliError>,
)
    requires
        b.is_of(ks),
        handle_checked(label@.handle) is Ok,
        ek@.len() == 1568,
        call_ensures(ml_kem_decapsulate_op, (label, ek), op),
        answered(ks, label@.handle, op@, resp@),
        call_ensures(request, (Ok::<Response, ChannelError>(resp),), got),
        got is Ok ==> call_ensures(ml_kem_decapsulate_reply, (peer, got->Ok_0), r),
        forall|z: Seq<u8>| #[trigger] (b.decapsulates)(label@, ek@, Ok(z)) ==> z.len() == 32,
    ensures
        match got {
            Ok(_) => r matches Ok(z) && (b.decapsulates)(label@, ek@, Ok(z@)),
            Err(e) => exists|raised: ErrorView| #[trigger]
                (b.decapsulates)(label@, ek@, Err(raised)) && e@ == wire_error(
                    raised.code,
                    raised.message,
                ),
        },
{
    labels_read_back(label@, None);
    a_request_is_answered_by_its_own_call(ks, b, label@, op@, resp@);
}

/// A post-quantum signature that a client has made over the channel is the host keystore's own:
/// by the key that the client names, over the message and under the context that it passed in.
/// It is refused where it has not the length of one. A context over the ceiling is not sent.
pub proof fn a_delegated_pq_signature_is_the_hosts<K: Keystore + ?Sized>(
    ks: &K,
    b: Behaviour,
    label: &KeyLabel,
    msg: &[u8],
    ctx: &[u8],
    op: Result<Op, CliError>,
    resp: Response,
    got: Result<OpOk, CliError>,
    peer: &str,
    r: Result<Vec<u8>, CliError>,
)
    requires
        b.is_of(ks),
        handle_checked(label@.handle) is Ok,
        call_ensures(ml_dsa_sign_op, (label, msg, ctx), op),
        op is Ok ==> answered(ks, label@.handle, op->Ok_0@, resp@),
        call_ensures(request, (Ok::<Response, ChannelError>(resp),), got),
        got is Ok ==> call_ensures(ml_dsa_sign_reply, (peer, got->Ok_0), r),
    ensures
        op is Ok <==> ctx@.len() <= 255,
        op is Ok ==> match got {
            Ok(_) => exists|s: Seq<u8>| #[trigger]
                (b.signs_pq)(label@, msg@, ctx@, Ok(s)) && (s.len() == 4627 ==> (r matches Ok(t)
                    && t@ == s)) && (s.len() != 4627 ==> r is Err),
            Err(e) => exists|raised: ErrorView| #[trigger]
                (b.signs_pq)(label@, msg@, ctx@, Err(raised)) && e@ == wire_error(
                    raised.code,
                    raised.message,
                ),
        },
{
    labels_read_back(label@, None);
    if op is Ok {
        a_request_is_answered_by_its_own_call(ks, b, label@, op->Ok_0@, resp@);
    }
}

/// A key that a client generates over the channel is the host keystore's own, under the label
/// and the algorithm that were passed in, and is reported as held in the Secure Enclave.
pub proof fn a_delegated_key_is_the_hosts<K: Keystore + ?Sized>(
    ks: &K,
    b: Behaviour,
    label: &KeyLabel,
    algorithm: &str,
    op: Op,
    resp: Response,
    got: Result<OpOk, CliError>,
    r: Result<KeyMeta, CliError>,
)
    requires
        b.is_of(ks),
        handle_checked(label@.handle) is Ok,
        call_ensures(generate_op, (label, algorithm), op),
        answered(ks, label@.handle, op@, resp@),
        call_ensures(request, (Ok::<Response, ChannelError>(resp),), got),
        got is Ok ==> call_ensures(generate_reply, (label, got->Ok_0), r),
    ensures
        match got {
            Ok(_) => exists|k: KeyFacts| #[trigger]
                (b.generates)(label@, algorithm@, Ok(k)) && (r matches Ok(m) && m@ == KeyFacts {
                    label: label@.full(),
                    purpose: label@.purpose.name(),
                    storage: "secure-enclave"@,
                    ..k
                }),
            Err(e) => exists|raised: ErrorView| #[trigger]
                (b.generates)(label@, algorithm@, Err(raised)) && e@ == wire_error(
                    raised.code,
                    raised.message,
                ),
        },
{
    labels_read_back(label@, None);
    a_request_is_answered_by_its_own_call(ks, b, label@, op@, resp@);
}

/// What a client learns of a key over the channel is what the host keystore says of the key that
/// was named.
pub proof fn delegated_metadata_is_the_hosts<K: Keystore + ?Sized>(
    ks: &K,
    b: Behaviour,
    label: &KeyLabel,
    op: Op,
    resp: Response,
    got: Result<OpOk, CliError>,
    r: Result<KeyMeta, CliError>,
)
    requires
        b.is_of(ks),
        handle_checked(label@.handle) is Ok,
        call_ensures(meta_op, (label,), op),
        answered(ks, label@.handle, op@, resp@),
        call_ensures(request, (Ok::<Response, ChannelError>(resp),), got),
        got is Ok ==> call_ensures(meta_reply, (label, got->Ok_0), r),
    ensures
        match got {
            Ok(_) => exists|k: KeyFacts| #[trigger]
                (b.describes)(label@, Ok(k)) && (r matches Ok(m) && m@ == KeyFacts {
                    label: label@.full(),
                    storage: "secure-enclave"@,
                    ..k
                }),
            Err(e) => exists|raised: ErrorView| #[trigger]
                (b.describes)(label@, Err(raised)) && e@ == wire_error(
                    raised.code,
                    raised.message,
                ),
        },
{
    labels_read_back(label@, None);
    a_request_is_answered_by_its_own_call(ks, b, label@, op@, resp@);
}

/// Whether the host holds a key is answered by the host keystore, of the key that was named.
pub proof fn a_delegated_query_is_the_hosts<K: Keystore + ?Sized>(
    ks: &K,
    b: Behaviour,
    label: &KeyLabel,
    op: Op,
    resp: Response,
    got: Result<OpOk, CliError>,
    r: Result<bool, CliError>,
)
    requires
        b.is_of(ks),
        handle_checked(label@.handle) is Ok,
        call_ensures(has_key_op, (label,), op),
        answered(ks, label@.handle, op@, resp@),
        call_ensures(request, (Ok::<Response, ChannelError>(resp),), got),
        got is Ok ==> call_ensures(has_key_reply, (got->Ok_0,), r),
    ensures
        match got {
            Ok(_) => r matches Ok(held) && (b.holds)(label@, Ok(held)),
            Err(e) => exists|raised: ErrorView| #[trigger]
                (b.holds)(label@, Err(raised)) && e@ == wire_error(raised.code, raised.message),
        },
{
    labels_read_back(label@, None);
    a_request_is_answered_by_its_own_call(ks, b, label@, op@, resp@);
}

/// A deletion that a client is told of has happened in the host keystore, of the key that was
/// named.
pub proof fn a_delegated_deletion_is_the_hosts<K: Keystore + ?Sized>(
    ks: &K,
    b: Behaviour,
    label: &KeyLabel,
    op: Op,
    resp: Response,
    got: Result<OpOk, CliError>,
    r: Result<(), CliError>,
)
    requires
        b.is_of(ks),
        handle_checked(label@.handle) is Ok,
        call_ensures(delete_op, (label,), op),
        answered(ks, label@.handle, op@, resp@),
        call_ensures(request, (Ok::<Response, ChannelError>(resp),), got),
        got is Ok ==> call_ensures(delete_reply, (got->Ok_0,), r),
    ensures
        match got {
            Ok(_) => r is Ok && (b.deletes)(label@, Ok(())),
            Err(e) => exists|raised: ErrorView| #[trigger]
                (b.deletes)(label@, Err(raised)) && e@ == wire_error(raised.code, raised.message),
        },
{
    labels_read_back(label@, None);
    a_request_is_answered_by_its_own_call(ks, b, label@, op@, resp@);
}

/// An answer of another kind than the request's is refused, whichever the two kinds are.
pub proof fn an_answer_of_another_kind_is_refused(peer: &str, label: &KeyLabel, ok: OpOk)
    ensures
        !(ok@ is Sign) ==> forall|r: Result<[u8; 64], CliError>| #[trigger]
            call_ensures(sign_reply, (peer, ok), r) ==> r is Err,
        !(ok@ is Ecdh) ==> forall|r: Result<[u8; 32], CliError>| #[trigger]
            call_ensures(ecdh_reply, (peer, ok), r) ==> r is Err,
        !(ok@ is MlKemDecapsulate) ==> forall|r: Result<[u8; 32], CliError>| #[trigger]
            call_ensures(ml_kem_decapsulate_reply, (peer, ok), r) ==> r is Err,
        !(ok@ is MlDsaSign) ==> forall|r: Result<Vec<u8>, CliError>| #[trigger]
            call_ensures(ml_dsa_sign_reply, (peer, ok), r) ==> r is Err,
        !(ok@ is Keygen) ==> forall|r: Result<KeyMeta, CliError>| #[trigger]
            call_ensures(generate_reply, (label, ok), r) ==> r is Err,
        !(ok@ is Meta) ==> forall|r: Result<KeyMeta, CliError>| #[trigger]
            call_ensures(meta_reply, (label, ok), r) ==> r is Err,
        !(ok@ is Exists) ==> forall|r: Result<bool, CliError>| #[trigger]
            call_ensures(has_key_reply, (ok,), r) ==> r is Err,
        !(ok@ is Delete) ==> forall|r: Result<(), CliError>| #[trigger]
            call_ensures(delete_reply, (ok,), r) ==> r is Err,
        !(ok@ is List) ==> forall|r: Result<Vec<KeyMeta>, CliError>| #[trigger]
            call_ensures(list_reply, (ok,), r) ==> r is Err,
{
}

/// A listing that a client reads shows the keys of the answer, one by one, in order.
pub proof fn a_delegated_listing_is_the_answers(ok: OpOk, r: Result<Vec<KeyMeta>, CliError>)
    requires
        call_ensures(list_reply, (ok,), r),
        ok@ is List,
    ensures
        r is Ok,
        r->Ok_0@.len() == ok@->List_keys.len(),
        forall|i: int|
            0 <= i < r->Ok_0@.len() ==> {
                let k = ok@->List_keys[i];
                (#[trigger] r->Ok_0@[i])@ == KeyFacts {
                    label: k.label,
                    purpose: k.purpose,
                    algorithm: k.algorithm,
                    storage: "secure-enclave"@,
                    fingerprint: k.fingerprint,
                    public_key: k.public_key,
                }
            },
{
    let shown = meta_views(r->Ok_0@);
    assert(shown.len() == ok@->List_keys.len());
    assert forall|i: int| 0 <= i < shown.len() implies (#[trigger] r->Ok_0@[i])@ == shown[i] by {}
}

/// Two runs of bytes are listed as one after the other, a comma and a space between them.
pub proof fn bytes_are_listed_one_after_the_other(a: Seq<u8>, b: Seq<u8>, byte: u8)
    ensures
        bytes_listed(Seq::<u8>::empty()) == Seq::<char>::empty(),
        bytes_listed(seq![byte]) == decimal(byte as nat),
        a.len() > 0 && b.len() > 0 ==> bytes_listed(a + b) == bytes_listed(a) + ", "@ + bytes_listed(b),
    decreases b.len(),
{
    if a.len() > 0 && b.len() > 0 {
        assert((a + b).drop_last() =~= a + b.drop_last());
        assert((a + b).last() == b.last());
        if b.len() == 1 {
            assert(a + b.drop_last() =~= a);
        } else {
            bytes_are_listed_one_after_the_other(a, b.drop_last(), byte);
            assert(bytes_listed(a + b) =~= bytes_listed(a) + ", "@ + bytes_listed(b));
        }
    }
}

/// Two runs of keys are listed as one after the other, a comma and a space between them.
pub proof fn keys_are_listed_one_after_the_other(a: Seq<EntryView>, b: Seq<EntryView>, key: EntryView)
    ensures
        entries_listed(Seq::<EntryView>::empty()) == Seq::<char>::empty(),
        entries_listed(seq![key]) == entry_shown(key),
        a.len() > 0 && b.len() > 0 ==> entries_listed(a + b) == entries_listed(a) + ", "@ + entries_listed(b),
    decreases b.len(),
{
    if a.len() > 0 && b.len() > 0 {
        assert((a + b).drop_last() =~= a + b.drop_last());
        assert((a + b).last() == b.last());
        if b.len() == 1 {
            assert(a + b.drop_last() =~= a);
        } else {
            keys_are_listed_one_after_the_other(a, b.drop_last(), key);
            assert(entries_listed(a + b) =~= entries_listed(a) + ", "@ + entries_listed(b));
        }
    }
}

} // verus!
