//! Provisioning and management of the bind-mounted channels over which a containerized PRSN
//! reaches the host's Secure Enclave.
//!
//! Provisioning happens when a container is created, before its agent enrolls: it makes a
//! channel id and a secret, which is kept outside the channel folder, registers the channel with
//! the host-signer, and gives the commands that create the container.

use vstd::prelude::*;

use crate::codec::{hex_reads_back, hex_text};
use crate::error::{outcome, seen, CliError, ErrorView};
use crate::host_signer::{registered_secret, ChannelConfig, Registry};
use crate::json::opt_str;
use crate::keystore::channel_secret;
use crate::random::{drawn, drawn_in_hex, in_hex, random_bytes};
use crate::text::{
    chars_of, from_utf8_lossy, join2, join3, join4, join5, lossy_text, same, trim, trimmed,
    trimming_takes_off_all_white_space, white_space,
};

verus! {

/// Where the channel is mounted in a container.
pub const IN_CONTAINER_CHANNEL_DIR: &'static str = "/run/signet/channel";

/// The secret's file in a container.
pub const IN_CONTAINER_SECRET_FILE: &'static str = "/run/signet/secret/secret.hex";

/// The launchd label of the host-signer.
pub const HOST_SIGNER_LAUNCHD_LABEL: &'static str = "ai.prsnex.signet.host-signer";

/// The launchd label of the broker.
pub const BROKER_LAUNCHD_LABEL: &'static str = "ai.prsnex.signet.broker";

/// A character that a channel id may hold: a lowercase letter, a digit or a hyphen.
pub open spec fn id_char(c: char) -> bool {
    'a' as u32 <= c as u32 <= 'z' as u32 || '0' as u32 <= c as u32 <= '9' as u32 || c == '-'
}

/// Whether a text is a channel id: one to 64 such characters, a hyphen neither first nor last.
pub open spec fn channel_id(s: Seq<char>) -> bool {
    &&& 1 <= s.len() <= 64
    &&& forall|i: int| 0 <= i < s.len() ==> id_char(#[trigger] s[i])
    &&& s[0] != '-'
    &&& s.last() != '-'
}

/// The refusal of a text that is no channel id.
pub open spec fn bad_channel_id(s: Seq<char>) -> ErrorView {
    ErrorView::invalid_args(
        "channel id '"@ + s
            + "' must be 1–64 chars of [a-z0-9-], not starting/ending with '-'"@,
    )
}

/// Refuse a text that is no channel id.
pub fn validate_channel_id(s: &str) -> (r: Result<(), CliError>)
    ensures
        outcome(r) == if channel_id(s@) {
            Ok::<(), ErrorView>(())
        } else {
            Err(bad_channel_id(s@))
        },
{
    let chars = chars_of(s);
    let n: usize = chars.len();
    let mut ok: bool = 1 <= n && n <= 64;
    if ok {
        ok = chars[0] != '-' && chars[n - 1] != '-';
    }
    let mut i: usize = 0;
    while i < n && ok
        invariant
            i <= n,
            n == chars@.len(),
            chars@ == s@,
            ok ==> 1 <= n <= 64 && s@[0] != '-' && s@[n - 1] != '-',
            ok ==> forall|k: int| 0 <= k < i ==> id_char(#[trigger] s@[k]),
            !ok ==> !channel_id(s@),
        decreases n - i,
    {
        let c: char = chars[i];
        let u: u32 = c as u32;
        if !((97 <= u && u <= 122) || (48 <= u && u <= 57) || c == '-') {
            assert(!id_char(s@[i as int]));
            ok = false;
        }
        i = i + 1;
    }
    if ok {
        Ok(())
    } else {
        Err(
            CliError::invalid_args(
                &join3(
                    "channel id '",
                    s,
                    "' must be 1–64 chars of [a-z0-9-], not starting/ending with '-'",
                ),
            ),
        )
    }
}

/// A fresh random channel id: eight random bytes in hexadecimal; none where the operating
/// system has no randomness to give.
pub fn random_channel_id() -> (r: Option<String>)
    ensures
        exists|b: Option<[u8; 8]>| #[trigger] drawn(b) && seen(r) == in_hex(seen(b)),
        r matches Some(s) ==> s@.len() == 16 && channel_id(s@),
{
    let bytes = random_bytes::<8>();
    proof {
        if bytes is Some {
            hex_is_a_channel_id(bytes->0@);
        }
    }
    drawn_in_hex(bytes)
}

/// Bytes in hexadecimal, up to 32 of them, are a channel id.
pub proof fn hex_is_a_channel_id(bytes: Seq<u8>)
    requires
        1 <= bytes.len() <= 32,
    ensures
        channel_id(hex_text(bytes)),
{
    let s = hex_text(bytes);
    assert forall|i: int| 0 <= i < s.len() implies id_char(#[trigger] s[i]) && s[i] != '-' by {
        let b = bytes[i / 2];
        assert(0 <= b as int / 16 < 16);
        assert(0 <= b as int % 16 < 16);
    }
    assert(s[0] != '-');
    assert(s[s.len() - 1] != '-');
}

/// A fresh channel secret in hexadecimal: 32 random bytes; none where the operating system has
/// no randomness to give.
pub fn fresh_secret_hex() -> (r: Option<String>)
    ensures
        exists|b: Option<[u8; 32]>| #[trigger] drawn(b) && seen(r) == in_hex(seen(b)),
        r matches Some(s) ==> s@.len() == 64,
{
    drawn_in_hex(random_bytes::<32>())
}

/// The host-side places of a channel.
pub struct ChannelPaths {
    pub registry: String,
    pub state_dir: String,
    pub channel_dir: String,
    pub secret_dir: String,
    pub secret_file: String,
}

/// [`ChannelPaths`], viewed.
pub struct Places {
    pub registry: Seq<char>,
    pub state_dir: Seq<char>,
    pub channel_dir: Seq<char>,
    pub secret_dir: Seq<char>,
    pub secret_file: Seq<char>,
}

impl View for ChannelPaths {
    type V = Places;

    open spec fn view(&self) -> Places {
        Places {
            registry: self.registry@,
            state_dir: self.state_dir@,
            channel_dir: self.channel_dir@,
            secret_dir: self.secret_dir@,
            secret_file: self.secret_file@,
        }
    }
}

/// Where the parts of a channel are, under the host-signer's directory. The secret is not in the
/// channel folder.
pub open spec fn places(dir: Seq<char>, id: Seq<char>) -> Places {
    Places {
        registry: dir + "/registry.toml"@,
        state_dir: dir + "/state"@,
        channel_dir: dir + "/channels/"@ + id,
        secret_dir: dir + "/secrets/"@ + id,
        secret_file: dir + "/secrets/"@ + id + "/secret.hex"@,
    }
}

/// The places of a channel.
pub fn channel_paths(host_signer_dir: &str, id: &str) -> (p: ChannelPaths)
    ensures
        p@ == places(host_signer_dir@, id@),
{
    ChannelPaths {
        registry: crate::text::join2(host_signer_dir, "/registry.toml"),
        state_dir: crate::text::join2(host_signer_dir, "/state"),
        channel_dir: join3(host_signer_dir, "/channels/", id),
        secret_dir: join3(host_signer_dir, "/secrets/", id),
        secret_file: join4(host_signer_dir, "/secrets/", id, "/secret.hex"),
    }
}

/// A registry entry, viewed.
pub struct Channel {
    pub id: Seq<char>,
    pub dir: Seq<char>,
    pub secret_hex: Seq<char>,
}

/// A registry's entries, viewed.
pub open spec fn channels(registry: Registry) -> Seq<Channel> {
    registry.channels@.map_values(
        |c: ChannelConfig| Channel { id: c.id@, dir: c.dir@, secret_hex: c.secret_hex@ },
    )
}

/// Whether a registry holds a channel.
pub open spec fn registered(entries: Seq<Channel>, id: Seq<char>) -> bool {
    exists|i: int| 0 <= i < entries.len() && (#[trigger] entries[i]).id == id
}

/// The first entry of a channel, from `from` on; the end where there is none.
pub open spec fn entry_of(entries: Seq<Channel>, id: Seq<char>, from: int) -> int
    decreases entries.len() - from,
{
    if from >= entries.len() || from < 0 {
        entries.len() as int
    } else if entries[from].id == id {
        from
    } else {
        entry_of(entries, id, from + 1)
    }
}

proof fn entry_found(entries: Seq<Channel>, id: Seq<char>, from: int)
    requires
        0 <= from <= entries.len(),
    ensures
        from <= entry_of(entries, id, from) <= entries.len(),
        entry_of(entries, id, from) < entries.len() ==> entries[entry_of(entries, id, from)].id
            == id,
        forall|i: int|
            from <= i < entry_of(entries, id, from) ==> (#[trigger] entries[i]).id != id,
    decreases entries.len() - from,
{
    if from < entries.len() && entries[from].id != id {
        entry_found(entries, id, from + 1);
    }
}

fn find_entry(registry: &Registry, id: &str) -> (r: usize)
    ensures
        r == entry_of(channels(*registry), id@, 0),
        r <= registry.channels@.len(),
{
    let mut i: usize = 0;
    let ghost entries = channels(*registry);
    while i < registry.channels.len()
        invariant
            i <= registry.channels@.len(),
            entries == channels(*registry),
            entries.len() == registry.channels@.len(),
            entry_of(entries, id@, 0) == entry_of(entries, id@, i as int),
        decreases registry.channels@.len() - i,
    {
        assert(entries[i as int].id == registry.channels@[i as int].id@);
        if same(&registry.channels[i].id, id) {
            return i;
        }
        i = i + 1;
    }
    i
}

/// What registering a channel comes to: refused where its id is registered, else a new entry
/// after the others.
pub open spec fn registration(
    entries: Seq<Channel>,
    channel: Channel,
    registry_path: Seq<char>,
) -> Result<Seq<Channel>, ErrorView> {
    if registered(entries, channel.id) {
        Err(
            ErrorView::invalid_args(
                "channel id '"@ + channel.id + "' is already registered in "@ + registry_path,
            ),
        )
    } else {
        Ok(entries.push(channel))
    }
}

/// Refuse a channel id that is registered already: a live channel's secret is never replaced.
pub fn check_unregistered(registry: &Registry, id: &str, registry_path: &str) -> (r: Result<
    (),
    CliError,
>)
    ensures
        outcome(r) == if registered(channels(*registry), id@) {
            Err::<(), ErrorView>(
                ErrorView::invalid_args(
                    "channel id '"@ + id@ + "' is already registered in "@ + registry_path@,
                ),
            )
        } else {
            Ok(())
        },
{
    let at: usize = find_entry(registry, id);
    proof {
        entry_found(channels(*registry), id@, 0);
    }
    if at < registry.channels.len() {
        assert(channels(*registry)[at as int].id == id@);
        return Err(
            CliError::invalid_args(
                &join4("channel id '", id, "' is already registered in ", registry_path),
            ),
        );
    }
    Ok(())
}

/// Register a channel.
pub fn register_channel(
    registry: &mut Registry,
    id: &str,
    dir: &str,
    secret_hex: &str,
    registry_path: &str,
) -> (r: Result<(), CliError>)
    ensures
        final(registry).state_dir == old(registry).state_dir,
        match r {
            Ok(_) => registration(
                channels(*old(registry)),
                Channel { id: id@, dir: dir@, secret_hex: secret_hex@ },
                registry_path@,
            ) == Ok::<Seq<Channel>, ErrorView>(channels(*final(registry))),
            Err(e) => registration(
                channels(*old(registry)),
                Channel { id: id@, dir: dir@, secret_hex: secret_hex@ },
                registry_path@,
            ) == Err::<Seq<Channel>, ErrorView>(e@) && *final(registry) == *old(registry),
        },
{
    match check_unregistered(registry, id, registry_path) {
        Ok(()) => {},
        Err(e) => return Err(e),
    }
    let entry = ChannelConfig {
        id: id.to_owned(),
        dir: dir.to_owned(),
        secret_hex: secret_hex.to_owned(),
    };
    registry.channels.push(entry);
    assert(channels(*registry) =~= channels(*old(registry)).push(
        Channel { id: id@, dir: dir@, secret_hex: secret_hex@ },
    ));
    Ok(())
}

/// The id of a channel to provision: the one asked for, which must be one, else a random one.
pub fn choose_channel_id(asked: Option<&str>) -> (r: Result<String, CliError>)
    ensures
        match asked {
            Some(s) => outcome(r) == if channel_id(s@) {
                Ok::<Seq<char>, ErrorView>(s@)
            } else {
                Err(bad_channel_id(s@))
            },
            None => {
                &&& exists|b: Option<[u8; 8]>| #[trigger]
                    drawn(b) && outcome(r) == match in_hex(seen(b)) {
                        Some(id) => Ok::<Seq<char>, ErrorView>(id),
                        None => Err(
                            ErrorView::generic("the operating system gave no randomness"@),
                        ),
                    }
                &&& r matches Ok(id) ==> id@.len() == 16 && channel_id(id@)
            },
        },
{
    match asked {
        Some(s) => match validate_channel_id(s) {
            Ok(()) => Ok(s.to_owned()),
            Err(e) => Err(e),
        },
        None => match random_channel_id() {
            Some(id) => Ok(id),
            None => Err(CliError::generic("the operating system gave no randomness")),
        },
    }
}

/// The registry's channels, where there is a registry yet.
pub open spec fn loaded_channels(loaded: Option<Registry>) -> Seq<Channel> {
    match loaded {
        Some(r) => channels(r),
        None => Seq::empty(),
    }
}

/// Provision a channel under `host_signer_dir`: the registry, which is made where there is none
/// yet, with the channel added at its place and with its secret; refused where its id is taken.
pub fn provision_core(host_signer_dir: &str, id: &str, loaded: Option<Registry>, secret_hex: &str)
    -> (r: Result<Registry, CliError>)
    ensures
        ({
            let p = places(host_signer_dir@, id@);
            let added = registration(
                loaded_channels(loaded),
                Channel { id: id@, dir: p.channel_dir, secret_hex: secret_hex@ },
                p.registry,
            );
            match r {
                Ok(reg) => added == Ok::<Seq<Channel>, ErrorView>(channels(reg))
                    && reg.state_dir@ == match loaded {
                    Some(l) => l.state_dir@,
                    None => p.state_dir,
                },
                Err(e) => added == Err::<Seq<Channel>, ErrorView>(e@),
            }
        }),
{
    let p = channel_paths(host_signer_dir, id);
    let mut registry = Registry::load_or_init(loaded, &p.state_dir);
    assert(channels(registry) =~= loaded_channels(loaded));
    match register_channel(&mut registry, id, &p.channel_dir, secret_hex, &p.registry) {
        Ok(()) => Ok(registry),
        Err(e) => Err(e),
    }
}

/// The failure of a command that needs a registry where there is none.
pub fn no_registry(registry_path: &str) -> (e: CliError)
    ensures
        e@ == ErrorView::invalid_args("no host-signer registry at "@ + registry_path@),
{
    CliError::invalid_args(&join2("no host-signer registry at ", registry_path))
}

/// What removing a channel comes to: refused where it is not registered, or without `force`;
/// else its entry is gone and the others stay in place.
pub open spec fn removal(entries: Seq<Channel>, id: Seq<char>, force: bool) -> Result<
    Seq<Channel>,
    ErrorView,
> {
    let at = entry_of(entries, id, 0);
    if at >= entries.len() {
        Err(ErrorView::invalid_args("no channel '"@ + id + "' in the registry"@))
    } else if !force {
        Err(
            ErrorView::invalid_args(
                "removing channel '"@ + id
                    + "' deletes its host-side folders + registry entry (NOT the PRSN's SE keys or account: those are device-bound and separate); re-run with --force"@,
            ),
        )
    } else {
        Ok(entries.remove(at))
    }
}

/// Remove a channel from the registry, and give its entry.
pub fn remove_channel(registry: &mut Registry, id: &str, force: bool) -> (r: Result<
    ChannelConfig,
    CliError,
>)
    ensures
        final(registry).state_dir == old(registry).state_dir,
        match r {
            Ok(c) => removal(channels(*old(registry)), id@, force) == Ok::<
                Seq<Channel>,
                ErrorView,
            >(channels(*final(registry))) && c == old(registry).channels@[entry_of(
                channels(*old(registry)),
                id@,
                0,
            )],
            Err(e) => removal(channels(*old(registry)), id@, force) == Err::<
                Seq<Channel>,
                ErrorView,
            >(e@) && *final(registry) == *old(registry),
        },
{
    let at: usize = find_entry(registry, id);
    if at >= registry.channels.len() {
        return Err(
            CliError::invalid_args(&join3("no channel '", id, "' in the registry")),
        );
    }
    if !force {
        return Err(
            CliError::invalid_args(
                &join3(
                    "removing channel '",
                    id,
                    "' deletes its host-side folders + registry entry (NOT the PRSN's SE keys or account: those are device-bound and separate); re-run with --force",
                ),
            ),
        );
    }
    let removed = registry.channels.remove(at);
    assert(channels(*registry) =~= channels(*old(registry)).remove(at as int));
    Ok(removed)
}

/// Removing a channel that was just registered undoes the registration.
pub proof fn removal_undoes_registration(
    entries: Seq<Channel>,
    channel: Channel,
    registry_path: Seq<char>,
)
    requires
        registration(entries, channel, registry_path) is Ok,
    ensures
        removal(registration(entries, channel, registry_path)->Ok_0, channel.id, true) == Ok::<
            Seq<Channel>,
            ErrorView,
        >(entries),
{
    let more = entries.push(channel);
    entry_found(more, channel.id, 0);
    let at = entry_of(more, channel.id, 0);
    if at < entries.len() {
        assert(entries[at].id == channel.id);
    }
    if at > entries.len() {
        assert(more[entries.len() as int].id == channel.id);
    }
    assert(at == entries.len());
    assert(more.remove(at) =~= entries);
}

/// Registering a channel keeps the ids apart: if no two entries had one id, none have after.
pub proof fn registration_keeps_ids_apart(
    entries: Seq<Channel>,
    channel: Channel,
    registry_path: Seq<char>,
)
    requires
        registration(entries, channel, registry_path) is Ok,
        forall|i: int, j: int|
            0 <= i < j < entries.len() ==> (#[trigger] entries[i]).id != (#[trigger] entries[j]).id,
    ensures
        forall|i: int, j: int|
            0 <= i < j < entries.push(channel).len() ==> (#[trigger] entries.push(channel)[i]).id
                != (#[trigger] entries.push(channel)[j]).id,
{
    let more = entries.push(channel);
    assert forall|i: int, j: int| 0 <= i < j < more.len() implies (#[trigger] more[i]).id != (
    #[trigger] more[j]).id by {
        assert(more[i] == entries[i]);
        if j == entries.len() {
            assert(more[j] == channel);
        } else {
            assert(more[j] == entries[j]);
        }
    }
}

/// The command that creates a container for a channel.
pub open spec fn snippet(
    runtime: Seq<char>,
    id: Seq<char>,
    channel_dir: Seq<char>,
    secret_dir: Seq<char>,
    bin_dir: Option<Seq<char>>,
    handle: Option<Seq<char>>,
) -> Seq<char> {
    runtime + " run -d \\\n  "@ + (match bin_dir {
        Some(b) => "-v "@ + b + ":/run/signet/bin:ro \\\n  "@,
        None => Seq::empty(),
    }) + "-v "@ + channel_dir + ":/run/signet/channel \\\n  -v "@ + secret_dir
        + ":/run/signet/secret:ro \\\n  -e SIGNET_HOST_CHANNEL_DIR=/run/signet/channel \\\n  -e SIGNET_HOST_CHANNEL_ID="@
        + id
        + " \\\n  -e SIGNET_HOST_CHANNEL_SECRET_FILE=/run/signet/secret/secret.hex \\\n  -e SIGNET_HANDLE="@
        + (match handle {
        Some(h) => h,
        None => "<your-PRSN-handle>"@,
    }) + " \\\n  <your-image>"@
}

/// The command that creates a container for a channel under a runtime: the channel is mounted
/// read-write, the secret and, where it was delivered, `signet` read-only. The handle arms the
/// launch-binding check; where it is not known, a placeholder stands for it.
pub fn run_snippet(
    runtime: &str,
    id: &str,
    channel_dir: &str,
    secret_dir: &str,
    bin_dir: Option<&str>,
    handle: Option<&str>,
) -> (r: String)
    ensures
        r@ == snippet(
            runtime@,
            id@,
            channel_dir@,
            secret_dir@,
            opt_str(bin_dir),
            opt_str(handle),
        ),
{
    let bin_mount = match bin_dir {
        Some(b) => join3("-v ", b, ":/run/signet/bin:ro \\\n  "),
        None => String::new(),
    };
    let handle = match handle {
        Some(h) => h,
        None => "<your-PRSN-handle>",
    };
    assert(bin_dir is None ==> bin_mount@ =~= Seq::empty());
    let mut s = join5(runtime, " run -d \\\n  ", &bin_mount, "-v ", channel_dir);
    s.append(":/run/signet/channel \\\n  -v ");
    s.append(secret_dir);
    s.append(
        ":/run/signet/secret:ro \\\n  -e SIGNET_HOST_CHANNEL_DIR=/run/signet/channel \\\n  -e SIGNET_HOST_CHANNEL_ID=",
    );
    s.append(id);
    s.append(
        " \\\n  -e SIGNET_HOST_CHANNEL_SECRET_FILE=/run/signet/secret/secret.hex \\\n  -e SIGNET_HANDLE=",
    );
    s.append(handle);
    s.append(" \\\n  <your-image>");
    s
}

/// What a caller presents after a channel was provisioned.
pub struct ProvisionReceipt {
    pub channel_id: String,
    pub channel_dir: String,
    pub secret_file: String,
    pub registry_path: String,
    /// How `signet` is called in the container.
    pub signet_in_container: &'static str,
    /// Whether `signet` was delivered for the container to mount.
    pub bin_delivered: bool,
    pub docker_snippet: String,
    pub apple_snippet: String,
}

/// The receipt of a channel that was provisioned; `bin_dir` is where `signet` was delivered.
pub fn provision_receipt(
    host_signer_dir: &str,
    id: &str,
    bin_dir: Option<&str>,
    handle: Option<&str>,
) -> (r: ProvisionReceipt)
    ensures
        r.channel_id@ == id@,
        r.channel_dir@ == places(host_signer_dir@, id@).channel_dir,
        r.secret_file@ == places(host_signer_dir@, id@).secret_file,
        r.registry_path@ == places(host_signer_dir@, id@).registry,
        r.signet_in_container@ == if bin_dir is Some {
            "/run/signet/bin/signet"@
        } else {
            "signet"@
        },
        r.bin_delivered == (bin_dir is Some),
        r.docker_snippet@ == snippet(
            "docker"@,
            id@,
            places(host_signer_dir@, id@).channel_dir,
            places(host_signer_dir@, id@).secret_dir,
            opt_str(bin_dir),
            opt_str(handle),
        ),
        r.apple_snippet@ == snippet(
            "container"@,
            id@,
            places(host_signer_dir@, id@).channel_dir,
            places(host_signer_dir@, id@).secret_dir,
            opt_str(bin_dir),
            opt_str(handle),
        ),
{
    let p = channel_paths(host_signer_dir, id);
    let docker_snippet = run_snippet(
        "docker",
        id,
        &p.channel_dir,
        &p.secret_dir,
        bin_dir,
        handle,
    );
    let apple_snippet = run_snippet(
        "container",
        id,
        &p.channel_dir,
        &p.secret_dir,
        bin_dir,
        handle,
    );
    ProvisionReceipt {
        channel_id: id.to_owned(),
        channel_dir: p.channel_dir,
        secret_file: p.secret_file,
        registry_path: p.registry,
        signet_in_container: if bin_dir.is_some() {
            "/run/signet/bin/signet"
        } else {
            "signet"
        },
        bin_delivered: bin_dir.is_some(),
        docker_snippet,
        apple_snippet,
    }
}

/// The handle in a pin file's text; none where it holds only white space.
pub fn pinned_handle(text: &str) -> (r: Option<String>)
    ensures
        seen(r) == if trimmed(text@).len() == 0 {
            None::<Seq<char>>
        } else {
            Some(trimmed(text@))
        },
{
    let t = trim(text);
    if t.unicode_len() == 0 {
        None
    } else {
        Some(t.to_owned())
    }
}

/// The user id that `id -u` printed; none where it failed or printed nothing.
pub fn printed_uid(success: bool, stdout: &[u8]) -> (r: Option<String>)
    ensures
        seen(r) == if success && trimmed(lossy_text(stdout@)).len() > 0 {
            Some(trimmed(lossy_text(stdout@)))
        } else {
            None::<Seq<char>>
        },
{
    if !success {
        return None;
    }
    pinned_handle(&from_utf8_lossy(stdout))
}

/// The launchd target of an agent in a user's domain.
pub fn launchd_target(uid: &str, label: &str) -> (r: String)
    ensures
        r@ == "gui/"@ + uid@ + "/"@ + label@,
{
    join4("gui/", uid, "/", label)
}

/// What the operator is told once a channel was provisioned.
pub open spec fn provisioned_text(r: ProvisionReceipt) -> Seq<char> {
    "✓ provisioned host-delegation channel '"@ + r.channel_id@
        + "'\n\nNext:\n1. Create your container with one of the snippets below (bind-mounts the channel\n   read-write + the secret read-only + the `signet` binary, and sets the\n   SIGNET_HOST_CHANNEL_* env). Replace SIGNET_HANDLE=<your-PRSN-handle> with the\n   PRSN's handle (e.g. ada-ai); it arms the launch-binding cross-check.\n2. Inside the container, run `"@
        + r.signet_in_container@
        + " enroll`; keygen delegates to the\n   host-signer, which pins this channel to the PRSN handle on its first keygen (§f.3a).\n"@
        + (if r.bin_delivered {
        "   `signet` is delivered into the container at /run/signet/bin/signet."@
    } else {
        "   (No bundled `signet` found. Run from the installed Signet app to deliver it,\n   or ensure your container image already has `signet`.)"@
    }) + "\n\nDocker:\n"@ + r.docker_snippet@ + "\n\nApple container:\n"@ + r.apple_snippet@
        + "\n"@
}

/// The next steps for the operator, with the commands that create the container.
pub fn provision_notice(r: &ProvisionReceipt) -> (s: String)
    ensures
        s@ == provisioned_text(*r),
{
    let mut s = join5(
        "✓ provisioned host-delegation channel '",
        &r.channel_id,
        "'\n\nNext:\n1. Create your container with one of the snippets below (bind-mounts the channel\n   read-write + the secret read-only + the `signet` binary, and sets the\n   SIGNET_HOST_CHANNEL_* env). Replace SIGNET_HANDLE=<your-PRSN-handle> with the\n   PRSN's handle (e.g. ada-ai); it arms the launch-binding cross-check.\n2. Inside the container, run `",
        r.signet_in_container,
        " enroll`; keygen delegates to the\n   host-signer, which pins this channel to the PRSN handle on its first keygen (§f.3a).\n",
    );
    if r.bin_delivered {
        s.append("   `signet` is delivered into the container at /run/signet/bin/signet.");
    } else {
        s.append(
            "   (No bundled `signet` found. Run from the installed Signet app to deliver it,\n   or ensure your container image already has `signet`.)",
        );
    }
    s.append("\n\nDocker:\n");
    s.append(&r.docker_snippet);
    s.append("\n\nApple container:\n");
    s.append(&r.apple_snippet);
    s.append("\n");
    s
}

/// What the operator is told of reloading the host-signer after a channel was provisioned.
pub fn reload_notice(reloaded: bool) -> (s: &'static str)
    ensures
        s@ == if reloaded {
            "✓ host-signer reloaded. Now serving this channel."@
        } else {
            "⚠ couldn't reload the host-signer automatically (is the Signet app installed and running?). It will pick up this channel on its next start, or reload it now:\n  launchctl kickstart -k gui/$(id -u)/ai.prsnex.signet.host-signer"@
        },
{
    if reloaded {
        "✓ host-signer reloaded. Now serving this channel."
    } else {
        "⚠ couldn't reload the host-signer automatically (is the Signet app installed and running?). It will pick up this channel on its next start, or reload it now:\n  launchctl kickstart -k gui/$(id -u)/ai.prsnex.signet.host-signer"
    }
}

/// A channel is registered behind the others, which stay as they are; it is refused exactly
/// where its id is taken.
pub proof fn registration_adds_one_channel(
    entries: Seq<Channel>,
    channel: Channel,
    registry_path: Seq<char>,
)
    ensures
        match registration(entries, channel, registry_path) {
            Ok(more) => {
                &&& more.len() == entries.len() + 1
                &&& more.last() == channel
                &&& forall|i: int|
                    0 <= i < entries.len() ==> #[trigger] more[i] == entries[i] && entries[i].id
                        != channel.id
            },
            Err(e) => e.exit_code == 2 && exists|i: int|
                0 <= i < entries.len() && (#[trigger] entries[i]).id == channel.id,
        },
{
    if registration(entries, channel, registry_path) is Ok {
        assert forall|i: int| 0 <= i < entries.len() implies entries[i].id != channel.id by {}
    }
}

/// A removal takes out the first channel with that id and no other, and the rest keep their
/// order; it is refused where there is none, and unless it is forced.
pub proof fn removal_takes_the_named_channel_alone(
    entries: Seq<Channel>,
    id: Seq<char>,
    force: bool,
)
    ensures
        match removal(entries, id, force) {
            Ok(rest) => force && exists|at: int|
                {
                    &&& 0 <= at < entries.len() && (#[trigger] entries[at]).id == id
                    &&& rest.len() == entries.len() - 1
                    &&& forall|i: int|
                        0 <= i < at ==> #[trigger] rest[i] == entries[i] && entries[i].id != id
                    &&& forall|i: int| at <= i < rest.len() ==> #[trigger] rest[i] == entries[i + 1]
                },
            Err(e) => e.exit_code == 2 && (!force || forall|i: int|
                0 <= i < entries.len() ==> (#[trigger] entries[i]).id != id),
        },
{
    entry_found(entries, id, 0);
    let at = entry_of(entries, id, 0);
    if at < entries.len() && force {
        assert(entries[at].id == id);
        assert forall|i: int| 0 <= i < at implies entries[i].id != id by {}
    }
}

/// A channel's secret is not in the channel's folder, which the container can write to, but in a
/// folder of its own; the places of two channels are apart.
pub proof fn the_secret_is_kept_out_of_the_channel(dir: Seq<char>, id: Seq<char>, other: Seq<char>)
    ensures
        ({
            let p = places(dir, id);
            let q = places(dir, other);
            &&& p.secret_dir.is_prefix_of(p.secret_file)
            &&& p.secret_file == p.secret_dir + "/secret.hex"@
            &&& !p.channel_dir.is_prefix_of(p.secret_dir)
            &&& !p.channel_dir.is_prefix_of(p.secret_file)
            &&& id != other ==> p.channel_dir != q.channel_dir && p.secret_dir != q.secret_dir
            &&& p.registry == q.registry && p.state_dir == q.state_dir
        }),
{
    let p = places(dir, id);
    let q = places(dir, other);
    reveal_strlit("/channels/");
    reveal_strlit("/secrets/");
    reveal_strlit("/secret.hex");
    assert(p.secret_file =~= p.secret_dir + "/secret.hex"@);
    assert(p.secret_file.take(p.secret_dir.len() as int) =~= p.secret_dir);
    let n = dir.len() as int + 1;
    assert(p.channel_dir[n] == 'c');
    assert(p.secret_dir[n] == 's');
    assert(p.secret_file[n] == 's');
    if id != other {
        assert(p.channel_dir.skip(n + 9) =~= id);
        assert(q.channel_dir.skip(n + 9) =~= other);
        assert(p.secret_dir.skip(n + 8) =~= id);
        assert(q.secret_dir.skip(n + 8) =~= other);
    }
}

/// A provisioned channel is the last of the registry, at its own place under the host-signer's
/// directory and with the secret that was passed in; the channels before it stay.
pub proof fn a_provisioned_channel_is_where_it_belongs(
    host_signer_dir: &str,
    id: &str,
    loaded: Option<Registry>,
    secret_hex: &str,
    r: Result<Registry, CliError>,
)
    requires
        call_ensures(provision_core, (host_signer_dir, id, loaded, secret_hex), r),
    ensures
        r matches Ok(reg) ==> {
            let before: nat = match loaded {
                Some(l) => l.channels@.len(),
                None => 0,
            };
            &&& reg.channels@.len() == before + 1
            &&& reg.channels@.last().id@ == id@
            &&& reg.channels@.last().dir@ == host_signer_dir@ + "/channels/"@ + id@
            &&& reg.channels@.last().secret_hex@ == secret_hex@
            &&& reg.state_dir@ == match loaded {
                Some(l) => l.state_dir@,
                None => host_signer_dir@ + "/state"@,
            }
            &&& loaded matches Some(l) ==> forall|i: int|
                0 <= i < before ==> (#[trigger] reg.channels@[i]).id@ == l.channels@[i].id@
                    && reg.channels@[i].dir@ == l.channels@[i].dir@
                    && reg.channels@[i].secret_hex@ == l.channels@[i].secret_hex@
        },
        r is Err <==> (loaded matches Some(l) && exists|i: int|
            0 <= i < l.channels@.len() && (#[trigger] l.channels@[i]).id@ == id@),
{
    let entries = loaded_channels(loaded);
    if loaded is Some {
        let l = loaded->0;
        assert(entries.len() == l.channels@.len());
        assert forall|i: int| 0 <= i < entries.len() implies (#[trigger] entries[i]).id
            == l.channels@[i].id@ && entries[i].dir == l.channels@[i].dir@
            && entries[i].secret_hex == l.channels@[i].secret_hex@ by {}
        if registered(entries, id@) {
            let i: int = choose|i: int|
                0 <= i < entries.len() && (#[trigger] entries[i]).id == id@;
            assert(l.channels@[i].id@ == id@);
        } else {
            assert forall|i: int| 0 <= i < l.channels@.len() implies (
            #[trigger] l.channels@[i]).id@ != id@ by {
                assert(entries[i].id != id@);
            }
        }
    }
    if r is Ok {
        let reg = r->Ok_0;
        let now = channels(reg);
        assert(now.len() == reg.channels@.len());
        assert(now.last().id == reg.channels@.last().id@);
        assert(now.last().dir == reg.channels@.last().dir@);
        assert(now.last().secret_hex == reg.channels@.last().secret_hex@);
        assert forall|i: int| 0 <= i < entries.len() implies (#[trigger] reg.channels@[i]).id@
            == entries[i].id && reg.channels@[i].dir@ == entries[i].dir
            && reg.channels@[i].secret_hex@ == entries[i].secret_hex by {
            assert(now[i] == entries[i]);
        }
    }
}

/// The host and the container read the same secret from the same text, and of a secret that was
/// written in hexadecimal they read its 32 bytes.
pub proof fn both_ends_read_one_secret(text: Seq<char>, bytes: Seq<u8>)
    ensures
        registered_secret(text) matches Ok(b) ==> channel_secret(text) == Ok::<
            Seq<u8>,
            ErrorView,
        >(b) && b.len() == 32,
        registered_secret(text) is Ok <==> channel_secret(text) is Ok,
        bytes.len() == 32 ==> registered_secret(hex_text(bytes)) == Ok::<Seq<u8>, ErrorView>(
            bytes,
        ),
{
    if bytes.len() == 32 {
        let t = hex_text(bytes);
        hex_reads_back(bytes);
        assert forall|i: int| 0 <= i < t.len() implies !white_space(#[trigger] t[i]) by {
            let b = bytes[i / 2];
            assert(0 <= b as int / 16 < 16);
            assert(0 <= b as int % 16 < 16);
        }
        let at: int = trimming_takes_off_all_white_space(t);
        assert(at == 0) by {
            if at > 0 {
                assert(white_space(t[0]));
            }
        }
        assert(trimmed(t).len() == t.len()) by {
            if trimmed(t).len() < t.len() {
                assert(white_space(t[t.len() - 1]));
            }
        }
        assert(trimmed(t) =~= t);
    }
}

/// A container is created for one channel: its folder is mounted to be written to, the folder of
/// its secret to be read only, and its id and the handle are set in the environment.
pub proof fn a_container_is_created_for_its_channel(
    runtime: Seq<char>,
    id: Seq<char>,
    channel_dir: Seq<char>,
    secret_dir: Seq<char>,
    handle: Seq<char>,
)
    ensures
        snippet(runtime, id, channel_dir, secret_dir, None, Some(handle)) == runtime
            + " run -d \\\n  "@ + ("-v "@ + channel_dir + ":/run/signet/channel"@) + " \\\n  "@ + (
        "-v "@ + secret_dir + ":/run/signet/secret:ro"@) + " \\\n  "@
            + "-e SIGNET_HOST_CHANNEL_DIR=/run/signet/channel"@ + " \\\n  "@ + (
        "-e SIGNET_HOST_CHANNEL_ID="@ + id) + " \\\n  "@
            + "-e SIGNET_HOST_CHANNEL_SECRET_FILE=/run/signet/secret/secret.hex"@ + " \\\n  "@ + (
        "-e SIGNET_HANDLE="@ + handle) + " \\\n  <your-image>"@,
{
    reveal_strlit(":/run/signet/channel \\\n  -v ");
    reveal_strlit(":/run/signet/channel");
    reveal_strlit(" \\\n  ");
    reveal_strlit("-v ");
    reveal_strlit(":/run/signet/secret:ro");
    reveal_strlit("-e SIGNET_HOST_CHANNEL_DIR=/run/signet/channel");
    reveal_strlit("-e SIGNET_HOST_CHANNEL_ID=");
    reveal_strlit(
        ":/run/signet/secret:ro \\\n  -e SIGNET_HOST_CHANNEL_DIR=/run/signet/channel \\\n  -e SIGNET_HOST_CHANNEL_ID=",
    );
    reveal_strlit("-e SIGNET_HOST_CHANNEL_SECRET_FILE=/run/signet/secret/secret.hex");
    reveal_strlit("-e SIGNET_HANDLE=");
    reveal_strlit(
        " \\\n  -e SIGNET_HOST_CHANNEL_SECRET_FILE=/run/signet/secret/secret.hex \\\n  -e SIGNET_HANDLE=",
    );
    assert(":/run/signet/channel \\\n  -v "@ =~= ":/run/signet/channel"@ + " \\\n  "@ + "-v "@);
    assert(":/run/signet/secret:ro \\\n  -e SIGNET_HOST_CHANNEL_DIR=/run/signet/channel \\\n  -e SIGNET_HOST_CHANNEL_ID="@
        =~= ":/run/signet/secret:ro"@ + " \\\n  "@
        + "-e SIGNET_HOST_CHANNEL_DIR=/run/signet/channel"@ + " \\\n  "@
        + "-e SIGNET_HOST_CHANNEL_ID="@);
    assert(" \\\n  -e SIGNET_HOST_CHANNEL_SECRET_FILE=/run/signet/secret/secret.hex \\\n  -e SIGNET_HANDLE="@
        =~= " \\\n  "@ + "-e SIGNET_HOST_CHANNEL_SECRET_FILE=/run/signet/secret/secret.hex"@
        + " \\\n  "@ + "-e SIGNET_HANDLE="@);
    assert(snippet(runtime, id, channel_dir, secret_dir, None, Some(handle)) =~= runtime
        + " run -d \\\n  "@ + ("-v "@ + channel_dir + ":/run/signet/channel"@) + " \\\n  "@ + (
    "-v "@ + secret_dir + ":/run/signet/secret:ro"@) + " \\\n  "@
        + "-e SIGNET_HOST_CHANNEL_DIR=/run/signet/channel"@ + " \\\n  "@ + (
    "-e SIGNET_HOST_CHANNEL_ID="@ + id) + " \\\n  "@
        + "-e SIGNET_HOST_CHANNEL_SECRET_FILE=/run/signet/secret/secret.hex"@ + " \\\n  "@ + (
    "-e SIGNET_HANDLE="@ + handle) + " \\\n  <your-image>"@);
}

/// A channel id that is asked for is taken as it is, where it is one; a fresh one is eight random
/// bytes, and a fresh secret 32, in hexadecimal.
pub proof fn a_fresh_id_is_random(
    asked: &str,
    given: Result<String, CliError>,
    fresh: Result<String, CliError>,
    secret: Option<String>,
)
    requires
        call_ensures(choose_channel_id, (Some(asked),), given),
        call_ensures(choose_channel_id, (None::<&str>,), fresh),
        call_ensures(fresh_secret_hex, (), secret),
    ensures
        given is Ok <==> channel_id(asked@),
        given matches Ok(id) ==> id@ == asked@,
        fresh matches Ok(id) ==> channel_id(id@) && exists|b: [u8; 8]| #[trigger]
            drawn(Some(b)) && id@ == hex_text(b@),
        secret matches Some(s) ==> exists|b: [u8; 32]| #[trigger]
            drawn(Some(b)) && s@ == hex_text(b@) && registered_secret(s@) == Ok::<
                Seq<u8>,
                ErrorView,
            >(b@),
        fresh is Err ==> drawn(None::<[u8; 8]>),
        secret is None ==> drawn(None::<[u8; 32]>),
{
    if fresh is Ok {
        let b: Option<[u8; 8]> = choose|b: Option<[u8; 8]>| #[trigger]
            drawn(b) && outcome(fresh) == match in_hex(seen(b)) {
                Some(id) => Ok::<Seq<char>, ErrorView>(id),
                None => Err(ErrorView::generic("the operating system gave no randomness"@)),
            };
        assert(b == Some(b->0));
        assert(drawn(Some(b->0)));
    }
    if secret is Some {
        let b: Option<[u8; 32]> = choose|b: Option<[u8; 32]>| #[trigger]
            drawn(b) && seen(secret) == in_hex(seen(b));
        assert(b == Some(b->0));
        assert(drawn(Some(b->0)));
        both_ends_read_one_secret(secret->0@, b->0@);
    }
}

/// A channel id has one to 64 characters, small ASCII letters, digits and hyphens, and no hyphen
/// at either end; nothing else is one.
pub proof fn a_channel_id_keeps_to_every_rule(s: Seq<char>)
    ensures
        channel_id(s) <==> 1 <= s.len() <= 64 && s[0] != '-' && s[s.len() - 1] != '-' && forall|
            i: int,
        |
            0 <= i < s.len() ==> {
                let c = (#[trigger] s[i]) as u32;
                97 <= c <= 122 || 48 <= c <= 57 || s[i] == '-'
            },
{
    assert('a' as u32 == 97 && 'z' as u32 == 122 && '0' as u32 == 48 && '9' as u32 == 57);
    if channel_id(s) {
        assert forall|i: int| 0 <= i < s.len() implies {
            let c = (#[trigger] s[i]) as u32;
            97 <= c <= 122 || 48 <= c <= 57 || s[i] == '-'
        } by {
            assert(id_char(s[i]));
        }
    }
}

} // verus!
