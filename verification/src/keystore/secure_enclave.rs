//! The `secure_enclave` keystore backend: what the enclave's and the keychain's answers come
//! to.
//!
//! Classical keys are keychain key items, found by their label. Post-quantum keys are sealed
//! blobs in items of a service of their own. A refusal because the Mac is locked is told as
//! such: the state is temporary and clears when a human unlocks it.

use vstd::prelude::*;

use super::client::meta_views;
use super::listing::{a_listing_is_ordered_and_complete, by_label, in_order, sort_by_label};
use super::{label_parsed, KeyFacts, KeyLabel, KeyMeta, Labelled, Purpose, Tier};
use crate::error::{outcome, CliError, ErrorView};
use crate::text::{contains, holds, join2, join3, join4, join5, same};

verus! {

/// The keychain's status for an item that is not there.
pub const ERR_SEC_ITEM_NOT_FOUND: i32 = -25300;

/// The keychain's status for a refusal because the session is locked.
pub const ERR_SEC_INTERACTION_NOT_ALLOWED: i32 = -25308;

/// The failure of what the lock stands in the way of.
pub open spec fn locked(what: Seq<char>) -> ErrorView {
    ErrorView::se_locked(
        "this Mac is locked. Secure Enclave keys are unavailable until a human unlocks it ("@ + what
            + " is lock-gated by design; safe to retry after unlock)"@,
    )
}

/// Raise that the lock stands in the way of something.
pub fn se_locked_err(what: &str) -> (e: CliError)
    ensures
        e@ == locked(what@),
{
    CliError::se_locked(
        &join3(
            "this Mac is locked. Secure Enclave keys are unavailable until a human unlocks it (",
            what,
            " is lock-gated by design; safe to retry after unlock)",
        ),
    )
}

/// Whether an error's description is that of a locked session.
pub open spec fn tells_of_lock(detail: Seq<char>) -> bool {
    holds(detail, "-25308"@) || holds(detail, "User interaction is not allowed"@)
}

/// Whether an error's description is that of a locked session.
pub fn detail_is_se_locked(detail: &str) -> (r: bool)
    ensures
        r == tells_of_lock(detail@),
{
    contains(detail, "-25308") || contains(detail, "User interaction is not allowed")
}

/// A query of the keychain.
pub enum Search<'a> {
    /// A key, by its label.
    Key(&'a str),
    /// A sealed post-quantum key, by its label.
    PqKey(&'a str),
    /// All keys.
    Keys,
    /// All sealed post-quantum keys.
    PqKeys,
    /// The broker's own keys.
    Sweep,
}

/// [`Search`], viewed.
pub enum Searched {
    Key(Seq<char>),
    PqKey(Seq<char>),
    Keys,
    PqKeys,
    Sweep,
}

impl<'a> View for Search<'a> {
    type V = Searched;

    open spec fn view(&self) -> Searched {
        match self {
            Search::Key(l) => Searched::Key(l@),
            Search::PqKey(l) => Searched::PqKey(l@),
            Search::Keys => Searched::Keys,
            Search::PqKeys => Searched::PqKeys,
            Search::Sweep => Searched::Sweep,
        }
    }
}

impl Searched {
    /// What a lock stands in the way of.
    pub open spec fn gated(self) -> Seq<char> {
        match self {
            Searched::Key(l) => "the key lookup '"@ + l + "'"@,
            Searched::PqKey(l) => "the PQ key lookup '"@ + l + "'"@,
            Searched::Keys => "the key list"@,
            Searched::PqKeys => "the PQ key list"@,
            Searched::Sweep => "the stale broker-key sweep"@,
        }
    }

    /// What any other failure is introduced with.
    pub open spec fn attempted(self) -> Seq<char> {
        match self {
            Searched::Key(l) => "Secure Enclave key lookup '"@ + l + "': "@,
            Searched::PqKey(l) => "Secure Enclave PQ key lookup '"@ + l + "': "@,
            Searched::Keys => "Secure Enclave key list: "@,
            Searched::PqKeys => "Secure Enclave PQ key list: "@,
            Searched::Sweep => "Secure Enclave key enumeration for the broker-key sweep: "@,
        }
    }

    /// The failure of a query: none where the status only says that nothing was found.
    pub open spec fn failure(self, code: int, shown: Seq<char>) -> Option<ErrorView> {
        if code == ERR_SEC_ITEM_NOT_FOUND {
            None
        } else if code == ERR_SEC_INTERACTION_NOT_ALLOWED {
            Some(locked(self.gated()))
        } else {
            Some(ErrorView::generic(self.attempted() + shown))
        }
    }
}

/// What the status of a query comes to: nothing found, or a failure.
pub fn search_failure(search: &Search, code: i32, shown: &str) -> (r: Option<CliError>)
    ensures
        crate::error::seen(r) == search@.failure(code as int, shown@),
{
    if code == ERR_SEC_ITEM_NOT_FOUND {
        return None;
    }
    if code == ERR_SEC_INTERACTION_NOT_ALLOWED {
        return Some(
            match search {
                Search::Key(l) => se_locked_err(&join3("the key lookup '", l, "'")),
                Search::PqKey(l) => se_locked_err(&join3("the PQ key lookup '", l, "'")),
                Search::Keys => se_locked_err("the key list"),
                Search::PqKeys => se_locked_err("the PQ key list"),
                Search::Sweep => se_locked_err("the stale broker-key sweep"),
            },
        );
    }
    Some(
        CliError::generic(
            &match search {
                Search::Key(l) => join4("Secure Enclave key lookup '", l, "': ", shown),
                Search::PqKey(l) => join4("Secure Enclave PQ key lookup '", l, "': ", shown),
                Search::Keys => join2("Secure Enclave key list: ", shown),
                Search::PqKeys => join2("Secure Enclave PQ key list: ", shown),
                Search::Sweep => join2(
                    "Secure Enclave key enumeration for the broker-key sweep: ",
                    shown,
                ),
            },
        ),
    )
}

/// The failure to delete a sealed post-quantum key.
pub fn pq_delete_failure(label: &str, code: i32, shown: &str) -> (e: CliError)
    ensures
        e@ == if code == ERR_SEC_INTERACTION_NOT_ALLOWED {
            locked("deleting the PQ key blob '"@ + label@ + "'"@)
        } else {
            ErrorView::generic(
                "deleting Secure Enclave PQ key blob '"@ + label@ + "': "@ + shown@,
            )
        },
{
    if code == ERR_SEC_INTERACTION_NOT_ALLOWED {
        se_locked_err(&join3("deleting the PQ key blob '", label, "'"))
    } else {
        CliError::generic(
            &join4("deleting Secure Enclave PQ key blob '", label, "': ", shown),
        )
    }
}

/// Something that is made in the enclave or the keychain.
pub enum Creation<'a> {
    /// A key, by its label.
    Key(&'a str),
    /// The broker's own transport key, by its label.
    BrokerKey(&'a str),
    /// The item of a sealed post-quantum key, by its label.
    PqBlob(&'a str),
}

/// [`Creation`], viewed.
pub enum Created {
    Key(Seq<char>),
    BrokerKey(Seq<char>),
    PqBlob(Seq<char>),
}

impl<'a> View for Creation<'a> {
    type V = Created;

    open spec fn view(&self) -> Created {
        match self {
            Creation::Key(l) => Created::Key(l@),
            Creation::BrokerKey(l) => Created::BrokerKey(l@),
            Creation::PqBlob(l) => Created::PqBlob(l@),
        }
    }
}

impl Created {
    /// What was attempted, up to the label's closing quote.
    pub open spec fn attempted(self) -> Seq<char> {
        match self {
            Created::Key(l) => "Secure Enclave keygen for '"@ + l + "'"@,
            Created::BrokerKey(l) => "Secure Enclave keygen for the broker's K3 key '"@ + l + "'"@,
            Created::PqBlob(l) => "storing the Secure-Enclave PQ key blob '"@ + l + "'"@,
        }
    }

    /// What a lock stands in the way of.
    pub open spec fn gated(self) -> Seq<char> {
        match self {
            Created::Key(l) => "keygen for '"@ + l + "'"@,
            Created::BrokerKey(l) => "keygen for the broker's K3 key '"@ + l + "'"@,
            Created::PqBlob(l) => "storing the PQ key blob '"@ + l + "'"@,
        }
    }

    /// What a plain failure says between what was attempted and the reason.
    pub open spec fn joint(self) -> Seq<char> {
        match self {
            Created::PqBlob(_) => ": "@,
            _ => " failed: "@,
        }
    }

    /// The failure: a missing entitlement and a lock are told by the error's description.
    pub open spec fn failure(self, detail: Seq<char>, shown: Seq<char>) -> ErrorView {
        if holds(detail, "-34018"@) {
            ErrorView::unsupported_platform(
                self.attempted()
                    + " failed: errSecMissingEntitlement (-34018). The signet binary must be codesigned with a provisioning-profile-authorized keychain-access-groups entitlement; for local/dev use SIGNET_KEY_TIER=software."@,
            )
        } else if tells_of_lock(detail) {
            locked(self.gated())
        } else {
            ErrorView::generic(self.attempted() + self.joint() + shown)
        }
    }
}

/// Map the failure to make something to its error, by the error's description `detail`;
/// `shown` is how the error is shown.
pub fn creation_failure(what: &Creation, detail: &str, shown: &str) -> (e: CliError)
    ensures
        e@ == what@.failure(detail@, shown@),
{
    let attempted = match what {
        Creation::Key(l) => join3("Secure Enclave keygen for '", l, "'"),
        Creation::BrokerKey(l) => join3("Secure Enclave keygen for the broker's K3 key '", l, "'"),
        Creation::PqBlob(l) => join3("storing the Secure-Enclave PQ key blob '", l, "'"),
    };
    if contains(detail, "-34018") {
        CliError::unsupported_platform(
            &join2(
                &attempted,
                " failed: errSecMissingEntitlement (-34018). The signet binary must be codesigned with a provisioning-profile-authorized keychain-access-groups entitlement; for local/dev use SIGNET_KEY_TIER=software.",
            ),
        )
    } else if detail_is_se_locked(detail) {
        match what {
            Creation::Key(l) => se_locked_err(&join3("keygen for '", l, "'")),
            Creation::BrokerKey(l) => se_locked_err(
                &join3("keygen for the broker's K3 key '", l, "'"),
            ),
            Creation::PqBlob(l) => se_locked_err(&join3("storing the PQ key blob '", l, "'")),
        }
    } else {
        let joint = match what {
            Creation::PqBlob(_) => ": ",
            _ => " failed: ",
        };
        CliError::generic(&join3(&attempted, joint, shown))
    }
}

/// The failure of a signature in the enclave.
pub fn sign_failure(detail: &str, shown: &str) -> (e: CliError)
    ensures
        e@ == if tells_of_lock(detail@) {
            locked("signing"@)
        } else {
            ErrorView::generic("Secure Enclave signing failed: "@ + shown@)
        },
{
    if detail_is_se_locked(detail) {
        se_locked_err("signing")
    } else {
        CliError::generic(&join2("Secure Enclave signing failed: ", shown))
    }
}

/// The failure of a key agreement in the enclave.
pub fn ecdh_failure(detail: &str, shown: &str) -> (e: CliError)
    ensures
        e@ == if tells_of_lock(detail@) {
            locked("the ECDH operation"@)
        } else {
            ErrorView::generic("Secure Enclave ECDH failed: "@ + shown@)
        },
{
    if detail_is_se_locked(detail) {
        se_locked_err("the ECDH operation")
    } else {
        CliError::generic(&join2("Secure Enclave ECDH failed: ", shown))
    }
}

/// The raw secret of a key agreement.
pub fn ecdh_secret(z: Vec<u8>) -> (r: Result<[u8; 32], CliError>)
    ensures
        match r {
            Ok(s) => z@.len() == 32 && s@ == z@,
            Err(e) => z@.len() != 32 && e@ == ErrorView::generic(
                "Secure Enclave ECDH returned a non-32-byte secret"@,
            ),
        },
{
    match super::array_of::<32>(z) {
        Some(s) => Ok(s),
        None => Err(CliError::generic("Secure Enclave ECDH returned a non-32-byte secret")),
    }
}

/// A Secure-Enclave key's metadata.
pub open spec fn enclave_key(
    label: Labelled,
    algorithm: Seq<char>,
    fingerprint: Seq<char>,
    public_key: Seq<u8>,
) -> KeyFacts {
    KeyFacts {
        label: label.full(),
        purpose: label.purpose.name(),
        algorithm,
        storage: Tier::SecureEnclave.display(),
        fingerprint,
        public_key,
    }
}

/// The metadata of a Secure-Enclave key that was generated under `algorithm`.
pub fn generated_meta(label: &KeyLabel, algorithm: &str, fingerprint: String, public_key: Vec<u8>)
    -> (m: KeyMeta)
    ensures
        m@ == enclave_key(label@, algorithm@, fingerprint@, public_key@),
{
    KeyMeta {
        label: label.full(),
        purpose: label.purpose().as_str().to_owned(),
        algorithm: algorithm.to_owned(),
        storage: Tier::SecureEnclave.as_str().to_owned(),
        fingerprint,
        public_key,
    }
}

/// The metadata of a Secure-Enclave key that was found: its algorithm is its purpose's own.
pub fn found_meta(label: &KeyLabel, fingerprint: String, public_key: Vec<u8>) -> (m: KeyMeta)
    ensures
        m@ == enclave_key(label@, label@.purpose.algorithm(), fingerprint@, public_key@),
{
    generated_meta(label, label.purpose().default_alg(), fingerprint, public_key)
}

/// The failure of a key that the enclave holds already.
pub open spec fn held_already(label: Seq<char>) -> ErrorView {
    ErrorView::key_exists(
        "a key '"@ + label + "' already exists in the Secure Enclave; delete it first"@,
    )
}

/// What stands in the way of generating a key: for a post-quantum key a system that is too old,
/// or another algorithm than its own; for any key a lookup that failed, or that the enclave
/// holds it already.
pub open spec fn generation_checked(
    label: Labelled,
    algorithm: Seq<char>,
    pq_available: bool,
    held: Result<bool, ErrorView>,
) -> Result<(), ErrorView> {
    let pq = label.purpose == Purpose::SigningPq || label.purpose == Purpose::KemPq;
    if pq && !pq_available {
        Err(
            ErrorView::unsupported_platform(
                "Secure-Enclave PQ keys require macOS 26 (the SE-PQC floor, PQR Spec §1); this Mac is running an older version"@,
            ),
        )
    } else if pq && algorithm != label.purpose.algorithm() {
        Err(
            ErrorView::unsupported_algorithm(
                "a "@ + label.purpose.name() + " key is always "@ + label.purpose.algorithm()
                    + ", got algorithm '"@ + algorithm + "'"@,
            ),
        )
    } else {
        match held {
            Err(e) => Err(e),
            Ok(true) => Err(held_already(label.full())),
            Ok(false) => Ok(()),
        }
    }
}

/// Check whether a key may be generated.
pub fn check_generation(
    label: &KeyLabel,
    algorithm: &str,
    pq_available: bool,
    held: Result<bool, CliError>,
) -> (r: Result<(), CliError>)
    ensures
        outcome(r) == generation_checked(
            label@,
            algorithm@,
            pq_available,
            crate::error::plain(held),
        ),
{
    let purpose = label.purpose();
    if purpose.is_pq() {
        if !pq_available {
            return Err(
                CliError::unsupported_platform(
                    "Secure-Enclave PQ keys require macOS 26 (the SE-PQC floor, PQR Spec §1); this Mac is running an older version",
                ),
            );
        }
        let expected = purpose.default_alg();
        if !same(algorithm, expected) {
            let mut m = join5("a ", purpose.as_str(), " key is always ", expected, ", got algorithm '");
            m.append(algorithm);
            m.append("'");
            return Err(CliError::unsupported_algorithm(&m));
        }
    }
    match held {
        Err(e) => Err(e),
        Ok(true) => Err(
            CliError::key_exists(
                &join3(
                    "a key '",
                    &label.full(),
                    "' already exists in the Secure Enclave; delete it first",
                ),
            ),
        ),
        Ok(false) => Ok(()),
    }
}

/// What a delete comes to that found nothing to delete.
pub fn check_deletable(label: &KeyLabel, held: Result<bool, CliError>) -> (r: Result<(), CliError>)
    ensures
        outcome(r) == match crate::error::plain(held) {
            Err(e) => Err::<(), ErrorView>(e),
            Ok(true) => Ok(()),
            Ok(false) => Err(ErrorView::key_not_found("no key '"@ + label@.full() + "'"@)),
        },
{
    match held {
        Err(e) => Err(e),
        Ok(true) => Ok(()),
        Ok(false) => Err(CliError::key_not_found(&join3("no key '", &label.full(), "'"))),
    }
}

/// The parts of a key that a lookup found.
pub struct FoundKey {
    pub public_key: Vec<u8>,
    pub fingerprint: String,
}

/// An item of the keychain: its label, and what looking its key up came to. Nothing found means
/// that the key was deleted meanwhile.
pub struct ListedItem {
    pub label: String,
    pub lookup: Result<Option<FoundKey>, CliError>,
}

/// What one item adds to a listing: nothing where its label is not one of ours, or not of this
/// custody, or its key is gone.
pub open spec fn item_listed(item: ListedItem, pq: bool) -> Result<Option<KeyFacts>, ErrorView> {
    match label_parsed(item.label@, None) {
        Err(_) => Ok(None),
        Ok(l) => if pq && !(l.purpose == Purpose::SigningPq || l.purpose == Purpose::KemPq) {
            Ok(None)
        } else {
            match item.lookup {
                Err(e) => if pq && e.code@ == "key_not_found"@ {
                    Ok(None)
                } else {
                    Err(e@)
                },
                Ok(None) => Ok(None),
                Ok(Some(k)) => Ok(
                    Some(enclave_key(l, l.purpose.algorithm(), k.fingerprint@, k.public_key@)),
                ),
            }
        },
    }
}

/// What items add to a listing, in the order they came in; the first failure ends it.
pub open spec fn items_listed(items: Seq<ListedItem>, pq: bool) -> Result<
    Seq<KeyFacts>,
    ErrorView,
>
    decreases items.len(),
{
    if items.len() == 0 {
        Ok(Seq::empty())
    } else {
        match items_listed(items.drop_last(), pq) {
            Err(e) => Err(e),
            Ok(facts) => match item_listed(items.last(), pq) {
                Err(e) => Err(e),
                Ok(None) => Ok(facts),
                Ok(Some(f)) => Ok(facts.push(f)),
            },
        }
    }
}

proof fn a_failure_stays(items: Seq<ListedItem>, pq: bool, n: int)
    requires
        0 <= n <= items.len(),
        items_listed(items.take(n), pq) is Err,
    ensures
        items_listed(items, pq) == items_listed(items.take(n), pq),
    decreases items.len(),
{
    if n < items.len() {
        assert(items.drop_last().take(n) =~= items.take(n));
        a_failure_stays(items.drop_last(), pq, n);
    } else {
        assert(items.take(n) =~= items);
    }
}

fn list_item(item: ListedItem, pq: bool) -> (r: Result<Option<KeyMeta>, CliError>)
    ensures
        match r {
            Ok(Some(m)) => item_listed(item, pq) == Ok::<Option<KeyFacts>, ErrorView>(Some(m@)),
            Ok(None) => item_listed(item, pq) == Ok::<Option<KeyFacts>, ErrorView>(None),
            Err(e) => item_listed(item, pq) == Err::<Option<KeyFacts>, ErrorView>(e@),
        },
{
    let label = match KeyLabel::parse(&item.label, None) {
        Ok(l) => l,
        Err(_) => return Ok(None),
    };
    if pq && !label.purpose().is_pq() {
        return Ok(None);
    }
    match item.lookup {
        Err(e) => {
            if pq && same(e.code, "key_not_found") {
                Ok(None)
            } else {
                Err(e)
            }
        },
        Ok(None) => Ok(None),
        Ok(Some(k)) => Ok(Some(found_meta(&label, k.fingerprint, k.public_key))),
    }
}

fn list_items(items: Vec<ListedItem>, pq: bool) -> (r: Result<Vec<KeyMeta>, CliError>)
    ensures
        match r {
            Ok(keys) => items_listed(items@, pq) == Ok::<Seq<KeyFacts>, ErrorView>(
                meta_views(keys@),
            ),
            Err(e) => items_listed(items@, pq) == Err::<Seq<KeyFacts>, ErrorView>(e@),
        },
{
    let mut rest = items;
    let mut out: Vec<KeyMeta> = Vec::new();
    let ghost all = items@;
    assert(all.take(0) =~= Seq::empty());
    assert(meta_views(out@) =~= Seq::empty());
    assert(rest@ =~= all.skip(0));
    while rest.len() > 0
        invariant
            all == items@,
            rest@.len() <= all.len(),
            rest@ == all.skip(all.len() - rest@.len()),
            items_listed(all.take(all.len() - rest@.len()), pq) == Ok::<Seq<KeyFacts>, ErrorView>(
                meta_views(out@),
            ),
        decreases rest@.len(),
    {
        let ghost done: int = all.len() - rest@.len();
        let item = rest.remove(0);
        proof {
            assert(item == all[done]);
            assert(rest@ =~= all.skip(done + 1));
            assert(all.take(done + 1).drop_last() =~= all.take(done));
            assert(all.take(done + 1).last() == item);
        }
        match list_item(item, pq) {
            Ok(Some(m)) => {
                assert(meta_views(out@.push(m)) =~= meta_views(out@).push(m@));
                out.push(m);
            },
            Ok(None) => {},
            Err(e) => {
                proof {
                    a_failure_stays(all, pq, done + 1);
                }
                return Err(e);
            },
        }
    }
    assert(all.take(all.len() as int) =~= all);
    Ok(out)
}

/// What a listing comes to, given the classical items and what enumerating the sealed ones came
/// to: the keys of both.
pub open spec fn keys_listed(
    classical: Seq<ListedItem>,
    pq: Result<Vec<ListedItem>, CliError>,
) -> Result<Seq<KeyFacts>, ErrorView> {
    match items_listed(classical, false) {
        Err(e) => Err(e),
        Ok(first) => match pq {
            Err(e) => Err(e@),
            Ok(blobs) => match items_listed(blobs@, true) {
                Err(e) => Err(e),
                Ok(second) => Ok(by_label(first + second)),
            },
        },
    }
}

/// The classical items: none where the keychain found no key item.
pub open spec fn items_found(items: Option<Vec<ListedItem>>) -> Seq<ListedItem> {
    match items {
        Some(v) => v@,
        None => Seq::empty(),
    }
}

/// List the keys of both custodies in the order of their labels. `classical` is absent where the
/// keychain found no key item, which leaves the sealed ones; items that are not ours are passed
/// over.
pub fn list_keys(
    classical: Option<Vec<ListedItem>>,
    pq: Result<Vec<ListedItem>, CliError>,
) -> (r: Result<Vec<KeyMeta>, CliError>)
    ensures
        match r {
            Ok(keys) => keys_listed(items_found(classical), pq) == Ok::<Seq<KeyFacts>, ErrorView>(
                meta_views(keys@),
            ),
            Err(e) => keys_listed(items_found(classical), pq) == Err::<Seq<KeyFacts>, ErrorView>(
                e@,
            ),
        },
{
    let items = match classical {
        None => Vec::new(),
        Some(v) => v,
    };
    let mut keys = match list_items(items, false) {
        Ok(k) => k,
        Err(e) => return Err(e),
    };
    let blobs = match pq {
        Ok(v) => v,
        Err(e) => return Err(e),
    };
    let mut more = match list_items(blobs, true) {
        Ok(k) => k,
        Err(e) => return Err(e),
    };
    assert(meta_views(keys@ + more@) =~= meta_views(keys@) + meta_views(more@));
    keys.append(&mut more);
    Ok(sort_by_label(keys))
}

/// Refuse to generate the broker's transport key under a label that is taken.
pub fn check_broker_label(label: &str, held: Result<bool, CliError>) -> (r: Result<(), CliError>)
    ensures
        outcome(r) == match crate::error::plain(held) {
            Err(e) => Err::<(), ErrorView>(e),
            Ok(false) => Ok(()),
            Ok(true) => Err(
                ErrorView::generic(
                    "a Secure-Enclave key already exists under the fresh broker label '"@ + label@
                        + "'. This cannot happen (labels are per-generation CSPRNG); refusing to touch it"@,
                ),
            ),
        },
{
    match held {
        Err(e) => Err(e),
        Ok(false) => Ok(()),
        Ok(true) => Err(
            CliError::generic(
                &join3(
                    "a Secure-Enclave key already exists under the fresh broker label '",
                    label,
                    "'. This cannot happen (labels are per-generation CSPRNG); refusing to touch it",
                ),
            ),
        ),
    }
}

/// Raise that the broker's transport key is not there.
pub fn no_broker_key(label: &str) -> (e: CliError)
    ensures
        e@ == ErrorView::key_not_found("no broker K3 key '"@ + label@ + "'"@),
{
    CliError::key_not_found(&join3("no broker K3 key '", label, "'"))
}

/// A key that a sweep came upon: its label, whether it is stale, the keychain's status and
/// message where deleting it failed, and whether it was still there afterwards.
pub struct SweptKey {
    pub label: String,
    pub stale: bool,
    pub delete_failure: Option<(i32, String)>,
    pub present: Result<bool, CliError>,
}

/// Why a stale key was not removed; none where it was, which takes that it was found absent
/// after the delete.
pub open spec fn sweep_failure(key: SweptKey) -> Option<Seq<char>> {
    match key.delete_failure {
        Some((code, shown)) if code != ERR_SEC_ITEM_NOT_FOUND => Some(
            "delete failed: "@ + shown@,
        ),
        _ => match key.present {
            Ok(false) => None,
            Ok(true) => Some("still present after delete"@),
            Err(e) => Some("post-delete verification failed: "@ + e@.line()),
        },
    }
}

/// What a sweep did: the stale keys it removed, and those it could not remove, with the reason.
pub struct BrokerKeySweep {
    pub removed: Vec<String>,
    pub failed: Vec<(String, String)>,
}

/// The labels of the stale keys that were removed.
pub open spec fn swept_away(keys: Seq<SweptKey>) -> Seq<Seq<char>>
    decreases keys.len(),
{
    if keys.len() == 0 {
        Seq::empty()
    } else {
        let before = swept_away(keys.drop_last());
        if keys.last().stale && sweep_failure(keys.last()) is None {
            before.push(keys.last().label@)
        } else {
            before
        }
    }
}

/// The labels of the stale keys that were not removed, with the reasons.
pub open spec fn left_behind(keys: Seq<SweptKey>) -> Seq<(Seq<char>, Seq<char>)>
    decreases keys.len(),
{
    if keys.len() == 0 {
        Seq::empty()
    } else {
        let before = left_behind(keys.drop_last());
        if keys.last().stale && sweep_failure(keys.last()) is Some {
            before.push((keys.last().label@, sweep_failure(keys.last())->0))
        } else {
            before
        }
    }
}

/// Labels with reasons, viewed.
pub open spec fn reason_views(failed: Seq<(String, String)>) -> Seq<(Seq<char>, Seq<char>)> {
    failed.map_values(|f: (String, String)| (f.0@, f.1@))
}

fn failure_of(delete_failure: Option<(i32, String)>, present: Result<bool, CliError>) -> (r: Option<
    String,
>)
    ensures
        forall|key: SweptKey|
            #![trigger sweep_failure(key)]
            key.delete_failure == delete_failure && key.present == present
                ==> crate::error::seen(r) == sweep_failure(key),
{
    match delete_failure {
        Some((code, shown)) => {
            if code != ERR_SEC_ITEM_NOT_FOUND {
                return Some(join2("delete failed: ", &shown));
            }
        },
        None => {},
    }
    match present {
        Ok(false) => None,
        Ok(true) => Some("still present after delete".to_owned()),
        Err(e) => Some(join2("post-delete verification failed: ", &e.to_line())),
    }
}

/// Report a sweep: keys that are not stale are left alone, and every failure is kept.
pub fn sweep_report(keys: Vec<SweptKey>) -> (r: BrokerKeySweep)
    ensures
        crate::text::views(r.removed@) == swept_away(keys@),
        reason_views(r.failed@) == left_behind(keys@),
{
    let mut rest = keys;
    let mut removed: Vec<String> = Vec::new();
    let mut failed: Vec<(String, String)> = Vec::new();
    let ghost all = keys@;
    assert(all.take(0) =~= Seq::empty());
    assert(crate::text::views(removed@) =~= Seq::empty());
    assert(reason_views(failed@) =~= Seq::empty());
    assert(rest@ =~= all.skip(0));
    while rest.len() > 0
        invariant
            rest@.len() <= all.len(),
            rest@ == all.skip(all.len() - rest@.len()),
            crate::text::views(removed@) == swept_away(all.take(all.len() - rest@.len())),
            reason_views(failed@) == left_behind(all.take(all.len() - rest@.len())),
        decreases rest@.len(),
    {
        let ghost done: int = all.len() - rest@.len();
        let key = rest.remove(0);
        proof {
            assert(key == all[done]);
            assert(rest@ =~= all.skip(done + 1));
            assert(all.take(done + 1).drop_last() =~= all.take(done));
            assert(all.take(done + 1).last() == key);
        }
        if key.stale {
            let SweptKey { label, stale: _, delete_failure, present } = key;
            match failure_of(delete_failure, present) {
                None => {
                    assert(crate::text::views(removed@.push(label)) =~= crate::text::views(
                        removed@,
                    ).push(label@));
                    removed.push(label);
                },
                Some(reason) => {
                    assert(reason_views(failed@.push((label, reason))) =~= reason_views(
                        failed@,
                    ).push((label@, reason@)));
                    failed.push((label, reason));
                },
            }
        }
    }
    assert(all.take(all.len() as int) =~= all);
    BrokerKeySweep { removed, failed }
}

/// Every stale key of a sweep is accounted for, as removed or as failed.
pub proof fn sweeps_account_for_every_stale_key(keys: Seq<SweptKey>)
    ensures
        swept_away(keys).len() + left_behind(keys).len() == keys.filter(
            |k: SweptKey| k.stale,
        ).len(),
    decreases keys.len(),
{
    let stale = |k: SweptKey| k.stale;
    reveal(Seq::filter);
    if keys.len() > 0 {
        sweeps_account_for_every_stale_key(keys.drop_last());
        assert(keys.filter(stale).len() == keys.drop_last().filter(stale).len() + (if keys.last(
        ).stale {
            1int
        } else {
            0
        }));
    }
}

/// A query that finds nothing has not failed; one that the lock stood in the way of is told as
/// such, to be retried; anything else is a plain failure.
pub proof fn a_lock_is_told_apart(s: Searched, c: Created, code: int, shown: Seq<char>, detail: Seq<char>)
    ensures
        s.failure(code, shown) is None <==> code == -25300,
        code == -25308 ==> (s.failure(code, shown) matches Some(e) && e.exit_code == 52),
        code != -25300 && code != -25308 ==> (s.failure(code, shown) matches Some(e)
            && e.exit_code == 1),
        holds(detail, "-34018"@) ==> c.failure(detail, shown).exit_code == 51,
        !holds(detail, "-34018"@) && (holds(detail, "-25308"@) || holds(
            detail,
            "User interaction is not allowed"@,
        )) ==> c.failure(detail, shown).exit_code == 52,
        !(holds(detail, "-34018"@) || holds(detail, "-25308"@) || holds(
            detail,
            "User interaction is not allowed"@,
        )) ==> c.failure(detail, shown).exit_code == 1,
{
}

/// A key may be generated exactly where it is known not to be held and, for a post-quantum one,
/// the system has such keys and its own algorithm was asked for. A key that is held is refused
/// as such.
pub proof fn a_key_is_generated_where_nothing_stands_in_its_way(
    label: Labelled,
    algorithm: Seq<char>,
    pq_available: bool,
    held: Result<bool, ErrorView>,
)
    ensures
        ({
            let r = generation_checked(label, algorithm, pq_available, held);
            let fits = match label.purpose {
                Purpose::SigningPq => pq_available && algorithm == "ML-DSA-87"@,
                Purpose::KemPq => pq_available && algorithm == "ML-KEM-1024"@,
                _ => true,
            };
            &&& r is Ok <==> fits && held == Ok::<bool, ErrorView>(false)
            &&& fits && held == Ok::<bool, ErrorView>(true) ==> (r matches Err(e) && e.exit_code
                == 11)
            &&& fits ==> (held matches Err(e) ==> r == Err::<(), ErrorView>(e))
        }),
{
}

/// Whether an item shows up in a listing: its label is a key's, of a post-quantum purpose where
/// the item is a sealed one, and its key was found.
pub open spec fn shows_up(item: ListedItem, pq: bool) -> bool {
    &&& label_parsed(item.label@, None) matches Ok(l)
    &&& pq ==> l.purpose == Purpose::SigningPq || l.purpose == Purpose::KemPq
    &&& item.lookup matches Ok(Some(_))
}

/// What a listing shows of an item: its own label, purpose and key, under its purpose's
/// algorithm, held in the Secure Enclave.
pub open spec fn shown_as(item: ListedItem) -> KeyFacts {
    let l = label_parsed(item.label@, None)->Ok_0;
    let k = item.lookup->Ok_0->0;
    KeyFacts {
        label: l.full(),
        purpose: l.purpose.name(),
        algorithm: l.purpose.algorithm(),
        storage: "secure-enclave"@,
        fingerprint: k.fingerprint@,
        public_key: k.public_key@,
    }
}

proof fn items_filter(items: Seq<ListedItem>, pq: bool)
    ensures
        items_listed(items, pq) matches Ok(facts) ==> facts == items.filter(
            |i: ListedItem| shows_up(i, pq),
        ).map_values(|i: ListedItem| shown_as(i)),
        items_listed(items, pq) matches Err(e) ==> exists|i: int|
            0 <= i < items.len() && ((#[trigger] items[i]).lookup matches Err(f) && f@ == e),
    decreases items.len(),
{
    let up = |i: ListedItem| shows_up(i, pq);
    let shown = |i: ListedItem| shown_as(i);
    reveal(Seq::filter);
    if items.len() == 0 {
        assert(items.filter(up).map_values(shown) =~= Seq::empty());
    } else {
        let before = items.drop_last();
        let last = items.last();
        items_filter(before, pq);
        if items_listed(before, pq) is Err {
            let e = items_listed(before, pq)->Err_0;
            let i: int = choose|i: int|
                0 <= i < before.len() && ((#[trigger] before[i]).lookup matches Err(f) && f@ == e);
            assert(items[i] == before[i]);
        } else if items_listed(items, pq) is Err {
            assert(items[items.len() - 1] == last);
        } else if up(last) {
            assert(before.filter(up).push(last).map_values(shown) =~= before.filter(
                up,
            ).map_values(shown).push(shown(last)));
        }
    }
}

/// A listing shows the keys of both custodies, each as its own item says, all of them and no
/// others, in the order of their labels. It fails only with what a lookup or the enumeration of
/// the sealed keys failed with.
pub proof fn a_listing_shows_both_custodies(
    classical: Seq<ListedItem>,
    pq: Result<Vec<ListedItem>, CliError>,
)
    ensures
        match keys_listed(classical, pq) {
            Ok(shown) => pq is Ok && in_order(shown) && shown.to_multiset() == (classical.filter(
                |i: ListedItem| shows_up(i, false),
            ).map_values(|i: ListedItem| shown_as(i)) + pq->Ok_0@.filter(
                |i: ListedItem| shows_up(i, true),
            ).map_values(|i: ListedItem| shown_as(i))).to_multiset(),
            Err(e) => {
                ||| pq matches Err(f) && f@ == e
                ||| exists|i: int|
                    0 <= i < classical.len() && ((#[trigger] classical[i]).lookup matches Err(f)
                        && f@ == e)
                ||| pq is Ok && exists|i: int|
                    0 <= i < pq->Ok_0@.len() && ((#[trigger] pq->Ok_0@[i]).lookup matches Err(f)
                        && f@ == e)
            },
        },
{
    items_filter(classical, false);
    if pq is Ok {
        items_filter(pq->Ok_0@, true);
        if items_listed(classical, false) is Ok && items_listed(pq->Ok_0@, true) is Ok {
            a_listing_is_ordered_and_complete(
                items_listed(classical, false)->Ok_0 + items_listed(pq->Ok_0@, true)->Ok_0,
            );
        }
    }
}

/// Whether a swept key is gone for certain: it was deleted, or was not there to delete, and was
/// found absent afterwards.
pub open spec fn gone(key: SweptKey) -> bool {
    &&& key.delete_failure matches Some(f) ==> f.0 == -25300
    &&& key.present matches Ok(present) && !present
}

/// A sweep reports as removed the stale keys that are gone for certain, and as failed every
/// other stale one, each under its own label and in order; keys that are not stale are in
/// neither.
pub proof fn a_sweep_reports_what_is_gone(keys: Seq<SweptKey>)
    ensures
        swept_away(keys) == keys.filter(|k: SweptKey| k.stale && gone(k)).map_values(
            |k: SweptKey| k.label@,
        ),
        left_behind(keys).map_values(|f: (Seq<char>, Seq<char>)| f.0) == keys.filter(
            |k: SweptKey| k.stale && !gone(k),
        ).map_values(|k: SweptKey| k.label@),
    decreases keys.len(),
{
    let away = |k: SweptKey| k.stale && gone(k);
    let left = |k: SweptKey| k.stale && !gone(k);
    let label = |k: SweptKey| k.label@;
    let first = |f: (Seq<char>, Seq<char>)| f.0;
    reveal(Seq::filter);
    if keys.len() == 0 {
        assert(keys.filter(away).map_values(label) =~= Seq::empty());
        assert(keys.filter(left).map_values(label) =~= left_behind(keys).map_values(first));
    } else {
        let before = keys.drop_last();
        let last = keys.last();
        a_sweep_reports_what_is_gone(before);
        if away(last) {
            assert(before.filter(away).push(last).map_values(label) =~= before.filter(
                away,
            ).map_values(label).push(label(last)));
        } else if left(last) {
            assert(before.filter(left).push(last).map_values(label) =~= before.filter(
                left,
            ).map_values(label).push(label(last)));
            let reason = sweep_failure(last)->0;
            assert(left_behind(before).push((last.label@, reason)).map_values(first)
                =~= left_behind(before).map_values(first).push(last.label@));
        }
    }
}

/// A key is deleted where it is held, and the broker's key is made where its label is free; a
/// lookup that failed fails both.
pub proof fn what_is_held_may_be_deleted(
    label: &KeyLabel,
    name: &str,
    held: Result<bool, CliError>,
    deletable: Result<(), CliError>,
    free: Result<(), CliError>,
)
    requires
        call_ensures(check_deletable, (label, held), deletable),
        call_ensures(check_broker_label, (name, held), free),
    ensures
        deletable is Ok <==> (held matches Ok(h) && h),
        free is Ok <==> (held matches Ok(h) && !h),
        held matches Err(e) ==> (deletable matches Err(f) && f@ == e@) && (free matches Err(f)
            && f@ == e@),
        (held matches Ok(h) && !h) ==> (deletable matches Err(e) && e@.exit_code == 12),
{
}

proof fn no_failure_is_passed_over(items: Seq<ListedItem>, pq: bool)
    requires
        items_listed(items, pq) is Ok,
    ensures
        forall|i: int|
            0 <= i < items.len() ==> ((#[trigger] items[i]).lookup matches Err(e) ==> {
                ||| label_parsed(items[i].label@, None) is Err
                ||| pq && !(label_parsed(items[i].label@, None)->Ok_0.purpose == Purpose::SigningPq
                    || label_parsed(items[i].label@, None)->Ok_0.purpose == Purpose::KemPq)
                ||| pq && e.code@ == "key_not_found"@
            }),
    decreases items.len(),
{
    if items.len() > 0 {
        let before = items.drop_last();
        no_failure_is_passed_over(before, pq);
        assert forall|i: int| 0 <= i < items.len() implies ((
        #[trigger] items[i]).lookup matches Err(e) ==> {
            ||| label_parsed(items[i].label@, None) is Err
            ||| pq && !(label_parsed(items[i].label@, None)->Ok_0.purpose == Purpose::SigningPq
                || label_parsed(items[i].label@, None)->Ok_0.purpose == Purpose::KemPq)
            ||| pq && e.code@ == "key_not_found"@
        }) by {
            if i < items.len() - 1 {
                assert(items[i] == before[i]);
            }
        }
    }
}

/// A lookup that failed fails the listing, whichever custody its key is in: only items that are
/// not ours are passed over, and sealed keys that are gone.
pub proof fn a_failed_lookup_fails_the_listing(
    classical: Seq<ListedItem>,
    pq: Result<Vec<ListedItem>, CliError>,
)
    requires
        keys_listed(classical, pq) is Ok,
    ensures
        forall|i: int|
            0 <= i < classical.len() ==> ((#[trigger] classical[i]).lookup is Err ==> label_parsed(
                classical[i].label@,
                None,
            ) is Err),
        forall|i: int|
            0 <= i < pq->Ok_0@.len() ==> ((#[trigger] pq->Ok_0@[i]).lookup matches Err(e) ==> (
            label_parsed(pq->Ok_0@[i].label@, None) matches Ok(l) ==> (l.purpose
                == Purpose::SigningPq || l.purpose == Purpose::KemPq ==> e.code@
                == "key_not_found"@))),
{
    no_failure_is_passed_over(classical, false);
    no_failure_is_passed_over(pq->Ok_0@, true);
}

/// Why a stale key was not removed is told as it was: the delete failed, or the key was still
/// there, or that could not be found out.
pub proof fn a_sweep_says_why_a_key_was_left(key: SweptKey)
    ensures
        sweep_failure(key) is None <==> gone(key),
        key.delete_failure matches Some(f) ==> (f.0 != -25300 ==> sweep_failure(key) == Some(
            "delete failed: "@ + f.1@,
        )),
        (key.delete_failure matches Some(f) ==> f.0 == -25300) ==> (key.present matches Ok(p) ==> (p
            ==> sweep_failure(key) == Some("still present after delete"@))),
{
}

/// Where the keychain found no key item, the sealed keys are still listed; a failure to enumerate
/// those fails the listing.
pub proof fn sealed_keys_are_listed_without_the_others(
    pq: Result<Vec<ListedItem>, CliError>,
    r: Result<Vec<KeyMeta>, CliError>,
)
    requires
        call_ensures(list_keys, (None::<Vec<ListedItem>>, pq), r),
    ensures
        pq matches Err(e) ==> (r matches Err(f) && f@ == e@),
        r matches Ok(keys) ==> pq is Ok && in_order(meta_views(keys@)) && meta_views(
            keys@,
        ).to_multiset() == pq->Ok_0@.filter(|i: ListedItem| shows_up(i, true)).map_values(
            |i: ListedItem| shown_as(i),
        ).to_multiset(),
{
    let none = Seq::<ListedItem>::empty();
    items_filter(none, false);
    a_listing_shows_both_custodies(none, pq);
    if r is Ok {
        let sealed = pq->Ok_0@.filter(|i: ListedItem| shows_up(i, true)).map_values(
            |i: ListedItem| shown_as(i),
        );
        let others = none.filter(|i: ListedItem| shows_up(i, false)).map_values(
            |i: ListedItem| shown_as(i),
        );
        assert(others =~= Seq::<KeyFacts>::empty());
        assert(others + sealed =~= sealed);
    }
}

} // verus!
