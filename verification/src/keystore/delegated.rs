//! The keystore via **host-delegation**: the in-container client of the host-signer's channel.
//! It holds no keys; what an operation or its answer is, [`super::client`] says.

use vstd::prelude::*;

use super::cli_error_from_wire;
use super::wire_error;
use crate::error::{outcome, CliError, ErrorView};
use crate::text::join2;
use crate::wire::{OkView, OpOk, Reply, Response};

verus! {

/// The name of this backend's peer in its errors.
pub const PEER: &'static str = "host-signer";

/// How the channel's transport fails.
#[derive(Debug)]
pub enum ChannelError {
    /// No answer in time.
    Timeout,
    /// The message did not authenticate.
    Auth,
    /// Anything else, in the transport's own words.
    Other(String),
}

/// How a channel failure is reported.
pub open spec fn channel_failure(e: ChannelError) -> ErrorView {
    match e {
        ChannelError::Timeout => ErrorView {
            exit_code: 30,
            code: "network_error"@,
            message:
                "the host-signer did not respond in time (is it running + the container channel mounted?)"@,
        },
        ChannelError::Auth => ErrorView::authentication_failed(
            "the host-signer rejected the channel message (per-PRSN secret mismatch or tampering)"@,
        ),
        ChannelError::Other(text) => ErrorView::generic("host-signer channel error: "@ + text@),
    }
}

/// Report a channel failure.
pub fn channel_err(e: ChannelError) -> (r: CliError)
    ensures
        r@ == channel_failure(e),
{
    match e {
        ChannelError::Timeout => CliError::new(
            30,
            "network_error",
            "the host-signer did not respond in time (is it running + the container channel mounted?)",
        ),
        ChannelError::Auth => CliError::authentication_failed(
            "the host-signer rejected the channel message (per-PRSN secret mismatch or tampering)",
        ),
        ChannelError::Other(text) => CliError::generic(
            &join2("host-signer channel error: ", &text),
        ),
    }
}

/// What one exchange over the channel comes to: the result, the host's error re-raised with
/// its exit code, or the transport's failure.
pub fn request(exchange: Result<Response, ChannelError>) -> (r: Result<OpOk, CliError>)
    ensures
        match exchange {
            Err(e) => r is Err && r->Err_0@ == channel_failure(e),
            Ok(resp) => outcome(r) == match resp@ {
                Reply::Done(ok) => Ok::<OkView, ErrorView>(ok),
                Reply::Failed { code, message } => Err(wire_error(code, message)),
            },
        },
{
    match exchange {
        Err(e) => Err(channel_err(e)),
        Ok(Response::Done(ok)) => Ok(ok),
        Ok(Response::Failed(e)) => Err(cli_error_from_wire(&e.code, &e.message)),
    }
}

/// A channel that fails is told by how it failed: no answer in time, a message that did not
/// authenticate, or anything else. What the host answered is a result, or the host's failure with
/// the exit code of its kind.
pub proof fn an_exchange_comes_to_what_was_answered(
    exchange: Result<Response, ChannelError>,
    r: Result<OpOk, CliError>,
)
    requires
        call_ensures(request, (exchange,), r),
    ensures
        match exchange {
            Ok(resp) => match resp@ {
                Reply::Done(ok) => r matches Ok(got) && got@ == ok,
                Reply::Failed { code, message } => r matches Err(e) && e@.message == message && e@
                    == wire_error(code, message),
            },
            Err(f) => r matches Err(e) && e@.exit_code == match f {
                ChannelError::Timeout => 30int,
                ChannelError::Auth => 10,
                ChannelError::Other(_) => 1,
            },
        },
{
}

} // verus!
