//! The rules of the command line: which commands work with keys, what their flags mean, and
//! what must be confirmed.

use vstd::prelude::*;

use crate::error::{outcome, plain, seen, CliError, ErrorView};
use crate::json::opt_str;
use crate::keystore::Purpose;
use crate::menubar::BrokerMenuState;
use crate::text::{decimal, join2, join3, join5, same, to_decimal, trim, trimmed, views};

verus! {

/// The commands.
#[derive(Debug, Clone, Copy, PartialEq, Eq, Structural)]
pub enum Verb {
    Keygen,
    Fingerprint,
    Pubkey,
    KeysList,
    KeysDelete,
    HostChannelProvision,
    HostChannelList,
    HostChannelRemove,
    HostSigner,
    Uninstall,
    BrokerProvision,
    BrokerServe,
    Connect,
    GarnetPickup,
    GarnetRenew,
    GarnetRenewCert,
    GarnetKeygen,
    GarnetSign,
    Sign,
    Encrypt,
    Decrypt,
    Rewrap,
    EncryptName,
    DecryptName,
    Rand,
    Base64UrlNoPad,
    Version,
    Status,
    AttestationVerify,
    TransparencyVerify,
    Audit,
    Update,
    Folder,
    File,
    Share,
    Whoami,
    Quota,
    Recipient,
    Enroll,
}

/// Whether a command works with the keys of the keystore that the configuration selects.
pub open spec fn works_with_keys(verb: Verb) -> bool {
    verb == Verb::Keygen || verb == Verb::Fingerprint || verb == Verb::Pubkey || verb
        == Verb::KeysList || verb == Verb::KeysDelete || verb == Verb::Sign || verb
        == Verb::Decrypt || verb == Verb::Rewrap || verb == Verb::EncryptName || verb
        == Verb::DecryptName || verb == Verb::Audit || verb == Verb::Folder || verb == Verb::File
        || verb == Verb::Share || verb == Verb::Whoami || verb == Verb::Quota || verb
        == Verb::Recipient
}

/// Whether a command opens the keystore that the configuration selects. Encrypting takes public
/// keys only; the broker, the host-signer and enrollment open keystores of their own.
pub fn opens_keystore(verb: Verb) -> (r: bool)
    ensures
        r == works_with_keys(verb),
{
    match verb {
        Verb::Keygen
        | Verb::Fingerprint
        | Verb::Pubkey
        | Verb::KeysList
        | Verb::KeysDelete
        | Verb::Sign
        | Verb::Decrypt
        | Verb::Rewrap
        | Verb::EncryptName
        | Verb::DecryptName
        | Verb::Audit
        | Verb::Folder
        | Verb::File
        | Verb::Share
        | Verb::Whoami
        | Verb::Quota
        | Verb::Recipient => true,
        _ => false,
    }
}

/// The purpose that `keys delete --purpose` names.
pub open spec fn purpose_named(value: Option<Seq<char>>) -> Result<Option<Purpose>, ErrorView> {
    match value {
        None => Ok(None),
        Some(v) => if v == "signing"@ {
            Ok(Some(Purpose::Signing))
        } else if v == "kem"@ {
            Ok(Some(Purpose::Kem))
        } else if v == "signing-pq"@ {
            Ok(Some(Purpose::SigningPq))
        } else if v == "kem-pq"@ {
            Ok(Some(Purpose::KemPq))
        } else {
            Err(
                ErrorView::invalid_args(
                    "unknown --purpose '"@ + v + "' (expected signing|kem|signing-pq|kem-pq)"@,
                ),
            )
        },
    }
}

/// Read the value of `keys delete --purpose`.
pub fn purpose_flag(value: Option<&str>) -> (r: Result<Option<Purpose>, CliError>)
    ensures
        plain(r) == purpose_named(opt_str(value)),
{
    match value {
        None => Ok(None),
        Some(v) => {
            if same(v, "signing") {
                Ok(Some(Purpose::Signing))
            } else if same(v, "kem") {
                Ok(Some(Purpose::Kem))
            } else if same(v, "signing-pq") {
                Ok(Some(Purpose::SigningPq))
            } else if same(v, "kem-pq") {
                Ok(Some(Purpose::KemPq))
            } else {
                Err(
                    CliError::invalid_args(
                        &join3(
                            "unknown --purpose '",
                            v,
                            "' (expected signing|kem|signing-pq|kem-pq)",
                        ),
                    ),
                )
            }
        },
    }
}

/// How random bytes are put out.
#[derive(Debug, Clone, Copy, PartialEq, Eq, Structural)]
pub enum RandFormat {
    Hex,
    Base64Url,
    Bytes,
}

/// What `rand` was asked for: one of its formats.
pub open spec fn rand_named(
    hex: Option<usize>,
    base64url: Option<usize>,
    bytes: Option<usize>,
) -> Result<(RandFormat, usize), ErrorView> {
    match (hex, base64url, bytes) {
        (Some(n), None, None) => Ok((RandFormat::Hex, n)),
        (None, Some(n), None) => Ok((RandFormat::Base64Url, n)),
        (None, None, Some(n)) => Ok((RandFormat::Bytes, n)),
        _ => Err(
            ErrorView::invalid_args("specify exactly one of --hex / --base64url / --bytes"@),
        ),
    }
}

/// What `rand` was asked for: exactly one of its three formats must be given.
pub fn rand_request(hex: Option<usize>, base64url: Option<usize>, bytes: Option<usize>) -> (r:
    Result<(RandFormat, usize), CliError>)
    ensures
        plain(r) == rand_named(hex, base64url, bytes),
{
    match (hex, base64url, bytes) {
        (Some(n), None, None) => Ok((RandFormat::Hex, n)),
        (None, Some(n), None) => Ok((RandFormat::Base64Url, n)),
        (None, None, Some(n)) => Ok((RandFormat::Bytes, n)),
        _ => Err(
            CliError::invalid_args("specify exactly one of --hex / --base64url / --bytes"),
        ),
    }
}

/// What a delete needs before it goes on.
pub enum Confirmation {
    /// Nothing: the flag confirmed it.
    Given,
    /// An answer to the prompt.
    Ask,
    /// It is refused: nobody is there to answer.
    Refused(CliError),
}

/// What a delete needs: the flag confirms it; without the flag a terminal is asked, and where
/// there is none the delete is refused. Deletes are permanent.
pub fn confirm_delete(assume_yes: bool, interactive: bool) -> (c: Confirmation)
    ensures
        assume_yes ==> c is Given,
        !assume_yes && interactive ==> c is Ask,
        !assume_yes && !interactive ==> (c matches Confirmation::Refused(e) && e@
            == ErrorView::invalid_args(
            "refusing to delete without confirmation in a non-interactive context. Re-run with --yes (deletes are permanent; there is no trash)."@,
        )),
{
    if assume_yes {
        Confirmation::Given
    } else if interactive {
        Confirmation::Ask
    } else {
        Confirmation::Refused(
            CliError::invalid_args(
                "refusing to delete without confirmation in a non-interactive context. Re-run with --yes (deletes are permanent; there is no trash).",
            ),
        )
    }
}

/// Whether an answer to a prompt is a yes.
pub open spec fn affirmative(line: Seq<char>) -> bool {
    let t = trimmed(line);
    t == "y"@ || t == "Y"@ || t == "yes"@ || t == "YES"@
}

/// Whether an answer to a prompt is a yes; anything but the four ways to say so is a no.
pub fn answered_yes(line: &str) -> (r: bool)
    ensures
        r == affirmative(line@),
{
    let t = trim(line);
    same(t, "y") || same(t, "Y") || same(t, "yes") || same(t, "YES")
}

/// The head of the prompt before a delete.
pub fn delete_prompt(what: &str, targets: usize) -> (r: String)
    ensures
        r@ == "About to permanently delete "@ + decimal(targets as nat) + " "@ + what@ + ":"@,
{
    join5("About to permanently delete ", &to_decimal(targets as u64), " ", what, ":")
}

/// What a delete works on: the paths, then the ids, each behind its flag.
pub open spec fn targets_named(paths: Seq<String>, flag: Seq<char>, ids: Seq<String>) -> Seq<
    Seq<char>,
> {
    views(paths) + views(ids).map_values(|id: Seq<char>| flag + " "@ + id)
}

/// What a delete works on, as the prompt lists it.
pub fn delete_targets(paths: &Vec<String>, flag: &str, ids: &Vec<String>) -> (r: Vec<String>)
    ensures
        views(r@) == targets_named(paths@, flag@, ids@),
{
    let mut out: Vec<String> = Vec::new();
    let mut i: usize = 0;
    assert(views(out@) =~= views(paths@).take(0));
    while i < paths.len()
        invariant
            i <= paths@.len(),
            views(out@) == views(paths@).take(i as int),
        decreases paths@.len() - i,
    {
        let p = paths[i].clone();
        proof {
            assert(views(out@.push(p)) =~= views(out@).push(p@));
            assert(views(paths@)[i as int] == p@);
            assert(views(paths@).take(i + 1) =~= views(paths@).take(i as int).push(p@));
        }
        out.push(p);
        i = i + 1;
    }
    let ghost named = views(ids@).map_values(|id: Seq<char>| flag@ + " "@ + id);
    assert(views(out@) =~= views(paths@) + named.take(0));
    let mut j: usize = 0;
    while j < ids.len()
        invariant
            j <= ids@.len(),
            named == views(ids@).map_values(|id: Seq<char>| flag@ + " "@ + id),
            named.len() == ids@.len(),
            views(out@) == views(paths@) + named.take(j as int),
        decreases ids@.len() - j,
    {
        let t = join3(flag, " ", &ids[j]);
        proof {
            assert(views(ids@)[j as int] == ids@[j as int]@);
            assert(named[j as int] == t@);
            assert(views(out@.push(t)) =~= views(out@).push(t@));
            assert(views(paths@) + named.take(j + 1) =~= (views(paths@) + named.take(
                j as int,
            )).push(t@));
        }
        out.push(t);
        j = j + 1;
    }
    assert(named.take(ids@.len() as int) =~= named);
    out
}

/// A command as it was given, with the flags that decide how it starts.
pub enum Request {
    /// `keys delete`, with its purpose.
    KeysDelete { purpose: Option<String> },
    /// `rand`, with its three formats.
    Rand { hex: Option<usize>, base64url: Option<usize>, bytes: Option<usize> },
    /// `folder delete`, with what to delete and whether that was confirmed by the flag.
    FolderDelete { paths: Vec<String>, ids: Vec<String>, yes: bool },
    /// `file delete`, with what to delete and whether that was confirmed by the flag.
    FileDelete { paths: Vec<String>, ids: Vec<String>, yes: bool },
    /// Any other command.
    Other(Verb),
}

/// How a command starts: its confirmation comes first, then its keystore is opened, and then it
/// runs.
pub struct Plan {
    pub verb: Verb,
    /// What a delete is about to delete, and what it calls it, where the flag did not confirm it.
    pub confirm: Option<(&'static str, Vec<String>)>,
    pub opens_keystore: bool,
    pub purpose: Option<Purpose>,
    pub rand: Option<(RandFormat, usize)>,
}

/// [`Plan`], viewed.
pub struct Planned {
    pub verb: Verb,
    pub confirm: Option<(Seq<char>, Seq<Seq<char>>)>,
    pub opens_keystore: bool,
    pub purpose: Option<Purpose>,
    pub rand: Option<(RandFormat, usize)>,
}

impl View for Plan {
    type V = Planned;

    open spec fn view(&self) -> Planned {
        Planned {
            verb: self.verb,
            confirm: match self.confirm {
                Some((what, targets)) => Some((what@, views(targets@))),
                None => None,
            },
            opens_keystore: self.opens_keystore,
            purpose: self.purpose,
            rand: self.rand,
        }
    }
}

/// The plan of a command that has nothing to decide but its keystore.
pub open spec fn plainly(verb: Verb) -> Planned {
    Planned {
        verb,
        confirm: None,
        opens_keystore: works_with_keys(verb),
        purpose: None,
        rand: None,
    }
}

/// The plan of a delete.
pub open spec fn deleting(
    verb: Verb,
    what: Seq<char>,
    paths: Seq<String>,
    flag: Seq<char>,
    ids: Seq<String>,
    yes: bool,
) -> Planned {
    Planned {
        confirm: if yes {
            None
        } else {
            Some((what, targets_named(paths, flag, ids)))
        },
        ..plainly(verb)
    }
}

/// How a command starts, or why it does not.
pub open spec fn planned(request: Request) -> Result<Planned, ErrorView> {
    match request {
        Request::KeysDelete { purpose } => match purpose_named(seen(purpose)) {
            Ok(p) => Ok(Planned { purpose: p, ..plainly(Verb::KeysDelete) }),
            Err(e) => Err(e),
        },
        Request::Rand { hex, base64url, bytes } => match rand_named(hex, base64url, bytes) {
            Ok(r) => Ok(Planned { rand: Some(r), ..plainly(Verb::Rand) }),
            Err(e) => Err(e),
        },
        Request::FolderDelete { paths, ids, yes } => Ok(
            deleting(
                Verb::Folder,
                "folder(s) (children cascade)"@,
                paths@,
                "--folder-id"@,
                ids@,
                yes,
            ),
        ),
        Request::FileDelete { paths, ids, yes } => Ok(
            deleting(Verb::File, "file(s)"@, paths@, "--file-id"@, ids@, yes),
        ),
        Request::Other(verb) => Ok(plainly(verb)),
    }
}

/// Decide how a command starts.
pub fn plan(request: &Request) -> (r: Result<Plan, CliError>)
    ensures
        outcome(r) == planned(*request),
{
    match request {
        Request::KeysDelete { purpose } => {
            let named = match purpose {
                Some(p) => purpose_flag(Some(p.as_str())),
                None => purpose_flag(None),
            };
            match named {
                Ok(p) => Ok(
                    Plan {
                        verb: Verb::KeysDelete,
                        confirm: None,
                        opens_keystore: opens_keystore(Verb::KeysDelete),
                        purpose: p,
                        rand: None,
                    },
                ),
                Err(e) => Err(e),
            }
        },
        Request::Rand { hex, base64url, bytes } => match rand_request(*hex, *base64url, *bytes) {
            Ok(r) => Ok(
                Plan {
                    verb: Verb::Rand,
                    confirm: None,
                    opens_keystore: opens_keystore(Verb::Rand),
                    purpose: None,
                    rand: Some(r),
                },
            ),
            Err(e) => Err(e),
        },
        Request::FolderDelete { paths, ids, yes } => Ok(
            Plan {
                verb: Verb::Folder,
                confirm: if *yes {
                    None
                } else {
                    Some(
                        (
                            "folder(s) (children cascade)",
                            delete_targets(paths, "--folder-id", ids),
                        ),
                    )
                },
                opens_keystore: opens_keystore(Verb::Folder),
                purpose: None,
                rand: None,
            },
        ),
        Request::FileDelete { paths, ids, yes } => Ok(
            Plan {
                verb: Verb::File,
                confirm: if *yes {
                    None
                } else {
                    Some(("file(s)", delete_targets(paths, "--file-id", ids)))
                },
                opens_keystore: opens_keystore(Verb::File),
                purpose: None,
                rand: None,
            },
        ),
        Request::Other(verb) => Ok(
            Plan {
                verb: *verb,
                confirm: None,
                opens_keystore: opens_keystore(*verb),
                purpose: None,
                rand: None,
            },
        ),
    }
}

/// A delete that the flag did not confirm always waits for a confirmation.
pub proof fn deletes_wait_for_confirmation(request: Request)
    ensures
        (request matches Request::FolderDelete { yes, .. } && !yes) || (
        request matches Request::FileDelete { yes, .. } && !yes) ==> planned(request) is Ok
            && planned(request)->Ok_0.confirm is Some,
{
}

/// What the broker finds of its credential when it starts.
pub enum BrokerCredentialCheck {
    /// There is none yet.
    Absent,
    /// It is there and cannot be read.
    Unreadable(CliError),
    /// It was read and its key is not the one it is bound to.
    Unbound(CliError),
    /// It was read and passed its check.
    Sound,
}

/// What the menu shows for what the broker found: it serves exactly with a sound credential.
pub open spec fn broker_shows(check: BrokerCredentialCheck) -> BrokerMenuState {
    match check {
        BrokerCredentialCheck::Absent => BrokerMenuState::Ready,
        BrokerCredentialCheck::Unreadable(_) => BrokerMenuState::Impaired,
        BrokerCredentialCheck::Unbound(_) => BrokerMenuState::Impaired,
        BrokerCredentialCheck::Sound => BrokerMenuState::Serving,
    }
}

/// The broker's state, and what it logs of it.
pub fn broker_start(check: BrokerCredentialCheck) -> (r: (BrokerMenuState, Option<String>))
    ensures
        r.0 == broker_shows(check),
        seen(r.1) == match check {
            BrokerCredentialCheck::Absent => Some(
                "signet broker serve: no broker credential yet. Showing the menu-bar (ready; no PRSNs). Add a PRSN with `signet broker provision <CODE>`."@,
            ),
            BrokerCredentialCheck::Unreadable(e) => Some(
                "signet broker serve: broker credential present but unreadable ("@ + e@.line()
                    + "): NOT serving; re-provision with `signet broker provision <CODE>`."@,
            ),
            BrokerCredentialCheck::Unbound(e) => Some(
                "signet broker serve: REFUSING to serve: the credential failed its K3 binding self-check: "@
                    + e@.line(),
            ),
            BrokerCredentialCheck::Sound => None,
        },
{
    match check {
        BrokerCredentialCheck::Absent => (
            BrokerMenuState::Ready,
            Some(
                "signet broker serve: no broker credential yet. Showing the menu-bar (ready; no PRSNs). Add a PRSN with `signet broker provision <CODE>`.".to_owned(),
            ),
        ),
        BrokerCredentialCheck::Unreadable(e) => (
            BrokerMenuState::Impaired,
            Some(
                join3(
                    "signet broker serve: broker credential present but unreadable (",
                    &e.to_line(),
                    "): NOT serving; re-provision with `signet broker provision <CODE>`.",
                ),
            ),
        ),
        BrokerCredentialCheck::Unbound(e) => (
            BrokerMenuState::Impaired,
            Some(
                join2(
                    "signet broker serve: REFUSING to serve: the credential failed its K3 binding self-check: ",
                    &e.to_line(),
                ),
            ),
        ),
        BrokerCredentialCheck::Sound => (BrokerMenuState::Serving, None),
    }
}

/// A broker whose credential cannot serve never shows as running.
pub proof fn impaired_is_never_shown_as_running(check: BrokerCredentialCheck)
    ensures
        broker_shows(check) == BrokerMenuState::Serving <==> check is Sound,
        broker_shows(check) == BrokerMenuState::Ready <==> check is Absent,
{
}

/// Why a broker without a menu has nothing to serve, where its credential is missing; that is no
/// failure.
pub fn headless_idle(credential_exists: bool, credential: &str) -> (r: Option<String>)
    ensures
        seen(r) == if credential_exists {
            None::<Seq<char>>
        } else {
            Some(
                "signet broker serve: no broker credential at "@ + credential@
                    + " yet. Nothing to serve (run `signet broker provision <CODE>` first)."@,
            )
        },
{
    if credential_exists {
        None
    } else {
        Some(
            join3(
                "signet broker serve: no broker credential at ",
                credential,
                " yet. Nothing to serve (run `signet broker provision <CODE>` first).",
            ),
        )
    }
}

/// The commands that open no keystore of the configuration: those that encrypt, that only look
/// at public material, and those that open one of their own or need none.
pub proof fn the_other_commands_open_no_keystore(verb: Verb)
    ensures
        !works_with_keys(verb) <==> verb == Verb::HostChannelProvision || verb
            == Verb::HostChannelList || verb == Verb::HostChannelRemove || verb == Verb::HostSigner
            || verb == Verb::Uninstall || verb == Verb::BrokerProvision || verb
            == Verb::BrokerServe || verb == Verb::Connect || verb == Verb::GarnetPickup || verb
            == Verb::GarnetRenew || verb == Verb::GarnetRenewCert || verb == Verb::GarnetKeygen
            || verb == Verb::GarnetSign || verb == Verb::Encrypt || verb == Verb::Rand || verb
            == Verb::Base64UrlNoPad || verb == Verb::Version || verb == Verb::Status || verb
            == Verb::AttestationVerify || verb == Verb::TransparencyVerify || verb == Verb::Update
            || verb == Verb::Enroll,
{
}

/// A purpose is asked for by its name, and by nothing else.
pub proof fn a_purpose_is_asked_for_by_name(value: Option<Seq<char>>, p: Purpose)
    ensures
        purpose_named(value) == Ok::<Option<Purpose>, ErrorView>(Some(p)) <==> value == Some(
            p.name(),
        ),
        purpose_named(value) == Ok::<Option<Purpose>, ErrorView>(None) <==> value is None,
        purpose_named(value) matches Err(e) ==> e.exit_code == 2,
{
    reveal_strlit("signing");
    reveal_strlit("kem");
    reveal_strlit("signing-pq");
    reveal_strlit("kem-pq");
    assert("signing"@.len() == 7);
    assert("kem"@.len() == 3);
    assert("signing-pq"@.len() == 10);
    assert("kem-pq"@.len() == 6);
}

/// Random bytes are asked for in exactly one format, and as many as that format was given.
pub proof fn one_format_is_asked_for(
    hex: Option<usize>,
    base64url: Option<usize>,
    bytes: Option<usize>,
)
    ensures
        match rand_named(hex, base64url, bytes) {
            Ok((RandFormat::Hex, n)) => hex == Some(n) && base64url is None && bytes is None,
            Ok((RandFormat::Base64Url, n)) => base64url == Some(n) && hex is None && bytes is None,
            Ok((RandFormat::Bytes, n)) => bytes == Some(n) && hex is None && base64url is None,
            Err(e) => {
                ||| hex is None && base64url is None && bytes is None
                ||| hex is Some && base64url is Some
                ||| hex is Some && bytes is Some
                ||| base64url is Some && bytes is Some
            },
        },
{
}

/// What a delete lists for its confirmation is all that it works on: every path as it is, then
/// every id behind its flag, in order.
pub proof fn a_confirmation_lists_every_target(
    paths: Seq<String>,
    flag: Seq<char>,
    ids: Seq<String>,
)
    ensures
        targets_named(paths, flag, ids).len() == paths.len() + ids.len(),
        forall|i: int|
            0 <= i < paths.len() ==> targets_named(paths, flag, ids)[i] == (#[trigger] paths[i])@,
        forall|i: int|
            0 <= i < ids.len() ==> targets_named(paths, flag, ids)[paths.len() + i] == flag + " "@
                + (#[trigger] ids[i])@,
{
    let named = views(ids).map_values(|id: Seq<char>| flag + " "@ + id);
    assert(named.len() == ids.len());
    assert forall|i: int| 0 <= i < ids.len() implies targets_named(paths, flag, ids)[paths.len()
        + i] == flag + " "@ + (#[trigger] ids[i])@ by {
        assert(views(ids)[i] == ids[i]@);
        assert(named[i] == flag + " "@ + views(ids)[i]);
    }
    assert forall|i: int| 0 <= i < paths.len() implies targets_named(paths, flag, ids)[i] == (
    #[trigger] paths[i])@ by {
        assert(views(paths)[i] == paths[i]@);
    }
}

/// A command starts as it was asked to: under its own name, with its keystore where it works with
/// keys, asking for a confirmation only where it deletes without the flag, and then of all that
/// it deletes. Only an unknown purpose and a format that is not one keep it from starting.
pub proof fn a_command_starts_as_asked(request: Request)
    ensures
        planned(request) matches Ok(p) ==> {
            &&& p.opens_keystore == works_with_keys(p.verb)
            &&& match request {
                Request::KeysDelete { purpose } => p.verb == Verb::KeysDelete && p.confirm is None
                    && p.rand is None && match purpose {
                    Some(v) => p.purpose is Some && p.purpose->0.name() == v@,
                    None => p.purpose is None,
                },
                Request::Rand { hex, base64url, bytes } => p.verb == Verb::Rand && p.confirm is None
                    && p.purpose is None && p.rand is Some && rand_named(hex, base64url, bytes)
                    == Ok::<(RandFormat, usize), ErrorView>(p.rand->0),
                Request::FolderDelete { paths, ids, yes } => p.verb == Verb::Folder && p.purpose is
                    None && p.rand is None && p.confirm == if yes {
                    None
                } else {
                    Some(
                        (
                            "folder(s) (children cascade)"@,
                            targets_named(paths@, "--folder-id"@, ids@),
                        ),
                    )
                },
                Request::FileDelete { paths, ids, yes } => p.verb == Verb::File && p.purpose is None
                    && p.rand is None && p.confirm == if yes {
                    None
                } else {
                    Some(("file(s)"@, targets_named(paths@, "--file-id"@, ids@)))
                },
                Request::Other(verb) => p.verb == verb && p.confirm is None && p.purpose is None
                    && p.rand is None,
            }
        },
        planned(request) is Err ==> request is KeysDelete || request is Rand,
{
    if planned(request) is Ok {
        let p = planned(request)->Ok_0;
        if request is KeysDelete && request->purpose is Some {
            a_purpose_is_asked_for_by_name(Some(request->purpose->0@), p.purpose->0);
            a_purpose_is_asked_for_by_name(Some(request->purpose->0@), Purpose::Kem);
        }
    }
}

/// Only the four ways to say so are a yes, white space around them or not.
pub proof fn only_a_yes_is_a_yes(line: Seq<char>)
    ensures
        affirmative(line) <==> trimmed(line) == "y"@ || trimmed(line) == "Y"@ || trimmed(line)
            == "yes"@ || trimmed(line) == "YES"@,
        affirmative(line) ==> trimmed(line).len() == 1 || trimmed(line).len() == 3,
{
    reveal_strlit("y");
    reveal_strlit("Y");
    reveal_strlit("yes");
    reveal_strlit("YES");
}

} // verus!
