//! The menu-bar status item: what its lines say, and when an update is claimed.
//!
//! A claim of currency is perishable: it is made only on the word of a version that was just
//! read from the server. That an update is available is durable: the release exists.

use vstd::prelude::*;

use crate::error::{seen, CliError};
use crate::host_channel::ProvisionReceipt;
use crate::json::opt_str;
use crate::keystore::{handle_checked, KeyLabel, Purpose};
use crate::text::{
    a_piece_is_split_off, decimal, decimal_reads_back, join2, join3, join5, parse_u64, parsed_u64, pieces, split, trim,
    trimmed, views,
};

verus! {

/// The header of the menu.
pub const MENU_TITLE: &'static str = "SignetHelper";

/// The mark in the menu bar.
pub const MENU_GLYPH: &'static str = "◉";

/// Whether a text has the shape of a version: numbers between dots, and nothing else.
pub open spec fn version_shaped(v: Seq<char>) -> bool {
    v.len() > 0 && forall|i: int|
        0 <= i < pieces(v, '.').len() ==> parsed_u64(#[trigger] pieces(v, '.')[i]) is Some
}

/// Whether a text has the shape of a version.
pub fn looks_like_version(v: &str) -> (r: bool)
    ensures
        r == version_shaped(v@),
{
    if v.unicode_len() == 0 {
        return false;
    }
    let parts = split(v, '.');
    let ghost all = pieces(v@, '.');
    assert(views(parts@).len() == parts@.len());
    let mut i: usize = 0;
    while i < parts.len()
        invariant
            i <= parts@.len(),
            all == pieces(v@, '.'),
            views(parts@) == all,
            all.len() == parts@.len(),
            forall|k: int| 0 <= k < i ==> parsed_u64(#[trigger] all[k]) is Some,
        decreases parts@.len() - i,
    {
        assert(all[i as int] == parts@[i as int]@);
        match parse_u64(&parts[i]) {
            Some(_) => {},
            None => {
                assert(parsed_u64(all[i as int]) is None);
                return false;
            },
        }
        i = i + 1;
    }
    true
}

/// Where the newest published version is read.
pub fn latest_version_url(server_base_url: &str) -> (r: String)
    ensures
        r@ == server_base_url@ + "/cli/latest-version"@,
{
    join2(server_base_url, "/cli/latest-version")
}

/// The version that a body names: its text without the white space around it, where that has
/// the shape of a version. Anything else, such as an error page, is passed over.
pub fn latest_version(body: &str) -> (r: Option<String>)
    ensures
        seen(r) == if version_shaped(trimmed(body@)) {
            Some(trimmed(body@))
        } else {
            None::<Seq<char>>
        },
{
    let v = trim(body);
    if looks_like_version(v) {
        Some(v.to_owned())
    } else {
        None
    }
}

/// The `i`th number of a version; a part that is no number, or missing, counts as zero.
pub open spec fn version_number(v: Seq<char>, i: int) -> nat {
    let parts = pieces(v, '.');
    if 0 <= i < parts.len() {
        match parsed_u64(parts[i]) {
            Some(n) => n,
            None => 0,
        }
    } else {
        0
    }
}

/// Whether `a` is ahead of `b` in the first number from `from` on in which they differ, before
/// `end`.
pub open spec fn ahead(a: Seq<char>, b: Seq<char>, from: int, end: int) -> bool
    decreases end - from,
{
    if from >= end {
        false
    } else if version_number(a, from) != version_number(b, from) {
        version_number(a, from) > version_number(b, from)
    } else {
        ahead(a, b, from + 1, end)
    }
}

/// Whether version `latest` is newer than `current`.
pub open spec fn newer(latest: Seq<char>, current: Seq<char>) -> bool {
    let n = pieces(latest, '.').len() as int;
    let m = pieces(current, '.').len() as int;
    ahead(latest, current, 0, if n > m {
        n
    } else {
        m
    })
}

fn number_at(parts: &Vec<String>, i: usize) -> (n: u64)
    ensures
        forall|v: Seq<char>|
            views(parts@) == #[trigger] pieces(v, '.') ==> n == version_number(v, i as int),
{
    assert(views(parts@).len() == parts@.len());
    if i >= parts.len() {
        return 0;
    }
    assert(views(parts@)[i as int] == parts@[i as int]@);
    match parse_u64(&parts[i]) {
        Some(n) => n,
        None => 0,
    }
}

/// Whether version `latest` is newer than `current`: they are compared number by number.
pub fn is_newer(latest: &str, current: &str) -> (r: bool)
    ensures
        r == newer(latest@, current@),
{
    let a = split(latest, '.');
    let b = split(current, '.');
    assert(views(a@).len() == a@.len());
    assert(views(b@).len() == b@.len());
    let end: usize = if a.len() > b.len() {
        a.len()
    } else {
        b.len()
    };
    let mut i: usize = 0;
    while i < end
        invariant
            i <= end,
            views(a@) == pieces(latest@, '.'),
            views(b@) == pieces(current@, '.'),
            newer(latest@, current@) == ahead(latest@, current@, i as int, end as int),
        decreases end - i,
    {
        let x: u64 = number_at(&a, i);
        let y: u64 = number_at(&b, i);
        if x != y {
            return x > y;
        }
        i = i + 1;
    }
    false
}

/// Whether the newest published version is known to be newer than the running one.
pub open spec fn behind(current: Seq<char>, latest: Option<Seq<char>>) -> bool {
    latest is Some && newer(latest->0, current)
}

/// Whether an update is available; not where the newest version is unknown.
pub fn update_is_available(current: &str, latest_version: Option<&str>) -> (r: bool)
    ensures
        r == behind(current@, opt_str(latest_version)),
{
    match latest_version {
        Some(latest) => is_newer(latest, current),
        None => false,
    }
}

/// The mark in the menu bar, with a badge where an update is available.
pub fn menu_glyph(update_available: bool) -> (r: &'static str)
    ensures
        r@ == if update_available {
            "◉ ↑"@
        } else {
            MENU_GLYPH@
        },
{
    if update_available {
        "◉ ↑"
    } else {
        MENU_GLYPH
    }
}

/// The version line of the menu.
pub open spec fn version_text(current: Seq<char>, latest: Option<Seq<char>>) -> Seq<char> {
    match latest {
        None => "Version "@ + current,
        Some(l) => if newer(l, current) {
            "Version "@ + current + " — update available"@
        } else {
            "Version "@ + current + " — up to date"@
        },
    }
}

/// The version line: it speaks of currency only where the newest version is known.
pub fn version_line(current: &str, latest_version: Option<&str>) -> (r: String)
    ensures
        r@ == version_text(current@, opt_str(latest_version)),
{
    match latest_version {
        Some(latest) => {
            if is_newer(latest, current) {
                join3("Version ", current, " — update available")
            } else {
                join3("Version ", current, " — up to date")
            }
        },
        None => join2("Version ", current),
    }
}

/// What the menu goes by after another check: the version that was just read; where none was,
/// the one known before, but only if it is newer than the running one.
pub open spec fn rechecked(
    current: Seq<char>,
    known: Option<Seq<char>>,
    fresh: Option<Seq<char>>,
) -> Option<Seq<char>> {
    match fresh {
        Some(f) => Some(f),
        None => if behind(current, known) {
            known
        } else {
            None
        },
    }
}

/// Take in another check of the newest version.
pub fn refresh_currency(current: &str, known: Option<String>, fresh: Option<String>) -> (r: Option<
    String,
>)
    ensures
        seen(r) == rechecked(current@, seen(known), seen(fresh)),
{
    match fresh {
        Some(f) => Some(f),
        None => match known {
            Some(k) => {
                if is_newer(&k, current) {
                    Some(k)
                } else {
                    None
                }
            },
            None => None,
        },
    }
}

/// A check that failed never leaves a claim of being up to date, and takes back no update that
/// was known.
pub proof fn currency_is_never_claimed_unchecked(current: Seq<char>, known: Option<Seq<char>>)
    ensures
        rechecked(current, known, None) is Some ==> behind(
            current,
            rechecked(current, known, None),
        ),
        behind(current, known) ==> rechecked(current, known, None) == known,
        !behind(current, known) ==> version_text(current, rechecked(current, known, None))
            == "Version "@ + current,
{
}

/// What the broker is doing.
#[derive(Clone, Copy, PartialEq, Eq, Debug, Structural)]
pub enum BrokerMenuState {
    /// It serves a provisioned credential.
    Serving,
    /// It has no credential yet, and is well.
    Ready,
    /// It has a credential that cannot serve.
    Impaired,
}

impl BrokerMenuState {
    /// The line that tells of it.
    pub open spec fn line(self) -> Seq<char> {
        match self {
            BrokerMenuState::Serving => "● Running"@,
            BrokerMenuState::Ready => "○ Ready — no PRSNs yet"@,
            BrokerMenuState::Impaired => "✕ Not serving — re-provision needed"@,
        }
    }
}

/// The line that tells what the broker is doing.
pub fn running_line(state: BrokerMenuState) -> (r: &'static str)
    ensures
        r@ == state.line(),
{
    match state {
        BrokerMenuState::Serving => "● Running",
        BrokerMenuState::Ready => "○ Ready — no PRSNs yet",
        BrokerMenuState::Impaired => "✕ Not serving — re-provision needed",
    }
}

/// A row of the menu.
pub enum MenuRow {
    /// A line that cannot be clicked.
    Label(String),
    /// The update action.
    Update,
    /// A line between groups.
    Separator,
    /// The quit action.
    Quit,
    /// The action that adds a containerized PRSN.
    AddContainer,
}

/// [`MenuRow`], viewed.
pub enum Row {
    Label(Seq<char>),
    Update,
    Separator,
    Quit,
    AddContainer,
}

impl View for MenuRow {
    type V = Row;

    open spec fn view(&self) -> Row {
        match self {
            MenuRow::Label(t) => Row::Label(t@),
            MenuRow::Update => Row::Update,
            MenuRow::Separator => Row::Separator,
            MenuRow::Quit => Row::Quit,
            MenuRow::AddContainer => Row::AddContainer,
        }
    }
}

/// Rows, viewed.
pub open spec fn row_views(rows: Seq<MenuRow>) -> Seq<Row> {
    rows.map_values(|r: MenuRow| r@)
}

/// The broker's menu: the update action is there only where an update is.
pub fn broker_menu(current: &str, latest_version: Option<&str>, state: BrokerMenuState) -> (r: Vec<
    MenuRow,
>)
    ensures
        row_views(r@) == seq![
            Row::Label(MENU_TITLE@),
            Row::Label(state.line()),
            Row::Label(version_text(current@, opt_str(latest_version))),
        ] + (if behind(current@, opt_str(latest_version)) {
            seq![Row::Update]
        } else {
            seq![]
        }) + seq![Row::Separator, Row::Quit],
{
    let mut rows: Vec<MenuRow> = Vec::new();
    rows.push(MenuRow::Label(MENU_TITLE.to_owned()));
    rows.push(MenuRow::Label(running_line(state).to_owned()));
    rows.push(MenuRow::Label(version_line(current, latest_version)));
    if update_is_available(current, latest_version) {
        rows.push(MenuRow::Update);
    }
    rows.push(MenuRow::Separator);
    rows.push(MenuRow::Quit);
    assert(row_views(rows@) =~= seq![
        Row::Label(MENU_TITLE@),
        Row::Label(state.line()),
        Row::Label(version_text(current@, opt_str(latest_version))),
    ] + (if behind(current@, opt_str(latest_version)) {
        seq![Row::Update]
    } else {
        seq![]
    }) + seq![Row::Separator, Row::Quit]);
    rows
}

/// The host-signer's menu.
pub fn host_signer_menu(current: &str, latest_version: Option<&str>) -> (r: Vec<MenuRow>)
    ensures
        row_views(r@) == seq![
            Row::Label(MENU_TITLE@),
            Row::Label("● Running"@),
            Row::Label(version_text(current@, opt_str(latest_version))),
            Row::Separator,
            Row::AddContainer,
        ],
{
    let mut rows: Vec<MenuRow> = Vec::new();
    rows.push(MenuRow::Label(MENU_TITLE.to_owned()));
    rows.push(MenuRow::Label("● Running".to_owned()));
    rows.push(MenuRow::Label(version_line(current, latest_version)));
    rows.push(MenuRow::Separator);
    rows.push(MenuRow::AddContainer);
    assert(row_views(rows@) =~= seq![
        Row::Label(MENU_TITLE@),
        Row::Label("● Running"@),
        Row::Label(version_text(current@, opt_str(latest_version))),
        Row::Separator,
        Row::AddContainer,
    ]);
    rows
}

/// How many seconds lie between two checks in the background: two hours, and up to half an hour
/// more by the clock's nanoseconds, so that not all machines check at once.
pub fn update_poll_interval_secs(subsec_nanos: u32) -> (r: u64)
    ensures
        r == 7200 + subsec_nanos % 1800,
{
    7200 + (subsec_nanos % 1800) as u64
}

/// Whether a text is a PRSN's handle.
pub fn valid_prsn_handle(handle: &str) -> (r: bool)
    ensures
        r == (handle_checked(handle@) is Ok),
{
    KeyLabel::from_handle(handle, Purpose::Signing).is_ok()
}

/// The handle that was entered; none where only white space was.
pub fn entered_handle(entry: &str) -> (r: Option<String>)
    ensures
        seen(r) == if trimmed(entry@).len() == 0 {
            None::<Seq<char>>
        } else {
            Some(trimmed(entry@))
        },
{
    crate::host_channel::pinned_handle(entry)
}

/// What is said of an entry that is no handle.
pub fn invalid_handle_text(handle: &str) -> (r: String)
    ensures
        r@ == "'"@ + handle@
            + "' isn't a valid PRSN handle. Use lowercase letters, digits and hyphens, ending in '-ai' (for example: ada-ai)."@,
{
    join3(
        "'",
        handle,
        "' isn't a valid PRSN handle. Use lowercase letters, digits and hyphens, ending in '-ai' (for example: ada-ai).",
    )
}

/// What is shown once a channel was provisioned for a handle.
pub fn fragment_text(receipt: &ProvisionReceipt, handle: &str) -> (r: String)
    ensures
        r@ == "Channel '"@ + receipt.channel_id@ + "' is provisioned for "@ + handle@
            + ".\n\nCreate the container with the command below; it bind-mounts the channel, the secret, and the signet binary, and sets SIGNET_HANDLE. On first boot the agent runs `signet enroll`, which pins this channel to "@
            + handle@ + ".\n\nDocker:\n"@ + receipt.docker_snippet@
            + "\n\n(Use the buttons to copy the Docker or Apple `container` command.)"@,
{
    let mut s = join5(
        "Channel '",
        &receipt.channel_id,
        "' is provisioned for ",
        handle,
        ".\n\nCreate the container with the command below; it bind-mounts the channel, the secret, and the signet binary, and sets SIGNET_HANDLE. On first boot the agent runs `signet enroll`, which pins this channel to ",
    );
    s.append(handle);
    s.append(".\n\nDocker:\n");
    s.append(&receipt.docker_snippet);
    s.append("\n\n(Use the buttons to copy the Docker or Apple `container` command.)");
    s
}

/// What an assisted update came to.
pub enum UpdateOutcome {
    Installed { from: String, to: String },
    AlreadyCurrent { version: String },
}

/// What the guardian is shown after an update, and whether to restart on the new version.
pub fn update_report(outcome: Result<UpdateOutcome, CliError>) -> (r: (&'static str, String, bool))
    ensures
        match outcome {
            Ok(UpdateOutcome::Installed { from, to }) => r.0@ == "Signet updated"@ && r.1@
                == "Updated from "@ + from@ + " to "@ + to@ + ". Signet will restart now."@ && r.2,
            Ok(UpdateOutcome::AlreadyCurrent { version }) => r.0@ == "Signet is up to date"@
                && r.1@ == "You're already on the latest version ("@ + version@ + ")."@ && !r.2,
            Err(e) => r.0@ == "Update failed"@ && r.1@
                == "Signet couldn't complete the update:\n\n"@ + e@.line()
                + "\n\nYou can try again later, or re-run the installer for the latest release."@
                && !r.2,
        },
{
    match outcome {
        Ok(UpdateOutcome::Installed { from, to }) => (
            "Signet updated",
            join5("Updated from ", &from, " to ", &to, ". Signet will restart now."),
            true,
        ),
        Ok(UpdateOutcome::AlreadyCurrent { version }) => (
            "Signet is up to date",
            join3("You're already on the latest version (", &version, ")."),
            false,
        ),
        Err(e) => (
            "Update failed",
            join3(
                "Signet couldn't complete the update:\n\n",
                &e.to_line(),
                "\n\nYou can try again later, or re-run the installer for the latest release.",
            ),
            false,
        ),
    }
}

proof fn ahead_decides(a: Seq<char>, b: Seq<char>, from: int, i: int, end: int)
    requires
        from <= i,
        forall|k: int|
            #![trigger version_number(a, k)]
            from <= k < i ==> version_number(a, k) == version_number(b, k),
        i < end ==> version_number(a, i) != version_number(b, i),
    ensures
        ahead(a, b, from, end) <==> i < end && version_number(a, i) > version_number(b, i),
    decreases i - from,
{
    if from < i && from < end {
        assert(version_number(a, from) == version_number(b, from));
        ahead_decides(a, b, from + 1, i, end);
    }
}

/// The first number in which two versions differ decides which of them is newer, a number that
/// is missing counting as zero; versions that differ in none are not newer than each other.
pub proof fn the_first_number_that_differs_decides(a: Seq<char>, b: Seq<char>, i: int)
    requires
        0 <= i,
        forall|k: int|
            #![trigger version_number(a, k)]
            0 <= k < i ==> version_number(a, k) == version_number(b, k),
    ensures
        version_number(a, i) > version_number(b, i) ==> newer(a, b) && !newer(b, a),
        i >= pieces(a, '.').len() && i >= pieces(b, '.').len() ==> !newer(a, b) && !newer(b, a),
{
    let n = pieces(a, '.').len() as int;
    let m = pieces(b, '.').len() as int;
    let end = if n > m {
        n
    } else {
        m
    };
    if version_number(a, i) > version_number(b, i) {
        assert(i < n);
        assert forall|k: int|
            #![trigger version_number(b, k)]
            0 <= k < i implies version_number(b, k) == version_number(a, k) by {
            assert(version_number(a, k) == version_number(b, k));
        }
        ahead_decides(a, b, 0, i, end);
        ahead_decides(b, a, 0, i, end);
    } else if i >= end {
        assert forall|k: int|
            #![trigger version_number(b, k)]
            0 <= k < i implies version_number(b, k) == version_number(a, k) by {
            assert(version_number(a, k) == version_number(b, k));
        }
        ahead_decides(a, b, 0, i, end);
        ahead_decides(b, a, 0, i, end);
    }
}

/// The numbers of a version are those that its parts write, in order.
pub proof fn a_version_is_its_numbers(v: Seq<char>, i: int, n: u64)
    requires
        0 <= i < pieces(v, '.').len(),
        pieces(v, '.')[i] == decimal(n as nat),
    ensures
        version_number(v, i) == n,
{
    decimal_reads_back(n as nat);
}

/// A version that was just read is what the menu goes by.
pub proof fn a_fresh_version_counts(
    current: Seq<char>,
    known: Option<Seq<char>>,
    fresh: Seq<char>,
)
    ensures
        rechecked(current, known, Some(fresh)) == Some(fresh),
        behind(current, Some(fresh)) <==> newer(fresh, current),
        !behind(current, None),
{
}

/// The menu offers an update exactly where a newer version is known; it always shows what the
/// broker is doing, and can always be quit.
pub proof fn an_update_is_offered_where_there_is_one(
    current: &str,
    latest: Option<&str>,
    state: BrokerMenuState,
    rows: Vec<MenuRow>,
)
    requires
        call_ensures(broker_menu, (current, latest, state), rows),
    ensures
        row_views(rows@).contains(Row::Update) <==> (latest matches Some(l) && newer(
            l@,
            current@,
        )),
        row_views(rows@)[1] == Row::Label(
            match state {
                BrokerMenuState::Serving => "● Running"@,
                BrokerMenuState::Ready => "○ Ready — no PRSNs yet"@,
                BrokerMenuState::Impaired => "✕ Not serving — re-provision needed"@,
            },
        ),
        row_views(rows@).last() == Row::Quit,
{
    let shown = row_views(rows@);
    if behind(current@, opt_str(latest)) {
        assert(shown[3] == Row::Update);
    } else {
        assert(shown.len() == 5);
        assert(shown[0] is Label && shown[1] is Label && shown[2] is Label);
        assert(shown[3] == Row::Separator && shown[4] == Row::Quit);
    }
}

/// The version line says whether an update is available where the newest version is known, and
/// only then.
pub proof fn the_version_line_says_what_is_known(current: Seq<char>, latest: Option<Seq<char>>)
    ensures
        version_text(current, latest) == "Version "@ + current + (if latest is None {
            Seq::empty()
        } else if newer(latest->0, current) {
            " — update available"@
        } else {
            " — up to date"@
        }),
{
    assert("Version "@ + current + Seq::<char>::empty() =~= "Version "@ + current);
}

/// A version is a number, or a number, a dot and a version.
pub proof fn a_version_is_numbers_between_dots(first: Seq<char>, rest: Seq<char>)
    requires
        !first.contains('.'),
    ensures
        version_shaped(first) <==> parsed_u64(first) is Some,
        version_shaped(first + seq!['.'] + rest) <==> parsed_u64(first) is Some && version_shaped(
            rest,
        ),
{
    a_piece_is_split_off(first, '.', rest);
    let v = first + seq!['.'] + rest;
    let all = pieces(v, '.');
    let others = pieces(rest, '.');
    assert(pieces(first, '.')[0] == first);
    assert(all[0] == first);
    assert forall|i: int| 0 <= i < others.len() implies #[trigger] all[i + 1] == others[i] by {}
    if version_shaped(v) {
        assert(parsed_u64(all[0]) is Some);
        assert forall|i: int| 0 <= i < others.len() implies parsed_u64(
            #[trigger] others[i],
        ) is Some by {
            assert(parsed_u64(all[i + 1]) is Some);
        }
        if rest.len() == 0 {
            assert(!rest.contains('.'));
            a_piece_is_split_off(rest, '.', rest);
            assert(others[0] == rest);
            assert(parsed_u64(rest) is Some);
        }
    }
    if parsed_u64(first) is Some && version_shaped(rest) {
        assert forall|i: int| 0 <= i < all.len() implies parsed_u64(#[trigger] all[i]) is Some by {
            if i > 0 {
                assert(all[i] == others[i - 1]);
                assert(parsed_u64(others[i - 1]) is Some);
            }
        }
    }
}

/// The newest version is what a body says, where that has the shape of a version; checks are two
/// hours to two and a half apart.
pub proof fn the_newest_version_is_what_was_read(
    body: &str,
    read: Option<String>,
    subsec_nanos: u32,
    interval: u64,
)
    requires
        call_ensures(latest_version, (body,), read),
        call_ensures(update_poll_interval_secs, (subsec_nanos,), interval),
    ensures
        read is Some <==> version_shaped(trimmed(body@)),
        read matches Some(v) ==> v@ == trimmed(body@),
        7200 <= interval < 9000,
{
}

} // verus!
