use vstd::prelude::*;

use crate::errors::TransportError;

verus! {

/// The client's internal command line: what to do on an open channel.
#[derive(Clone, Copy, Debug, PartialEq, Eq, Structural)]
pub enum ClientCommand {
    Send,
    Recv,
}

/// The prefix of `h` before its last colon, or nothing when `h` holds no
/// colon. A target such as a bracketed address with a port keeps everything
/// up to the final port separator.
pub open spec fn spec_before_last_colon(h: Seq<u8>) -> Option<Seq<u8>>
    decreases h.len(),
{
    if h.len() == 0 {
        Option::None
    } else if h[h.len() - 1] == 58u8 {
        Option::Some(h.drop_last())
    } else {
        spec_before_last_colon(h.drop_last())
    }
}

/// The server name used for identity verification: the configured host with
/// any trailing port stripped — everything before the last colon — or the
/// host unchanged when it holds no colon.
pub open spec fn spec_host_without_port(h: Seq<u8>) -> Seq<u8> {
    match spec_before_last_colon(h) {
        Option::Some(p) => p,
        Option::None => h,
    }
}

/// Strip a trailing port from a host string's bytes.
pub fn host_without_port(host: &Vec<u8>) -> (r: Vec<u8>)
    ensures
        r@ == spec_host_without_port(host@),
{
    proof {
        assert(host@.take(host@.len() as int) =~= host@);
    }
    let mut i: usize = host.len();
    while i > 0
        invariant
            i <= host@.len(),
            spec_before_last_colon(host@) == spec_before_last_colon(host@.take(i as int)),
        decreases i,
    {
        let ghost prefix = host@.take(i as int);
        proof {
            assert(prefix[i - 1] == host@[i - 1]);
            assert(prefix.drop_last() =~= host@.take(i as int - 1));
        }
        if host[i - 1] == 58 {
            let r = vstd::slice::slice_to_vec(
                vstd::slice::slice_subrange(host.as_slice(), 0, i - 1),
            );
            proof {
                assert(r@ =~= host@.take(i as int - 1));
            }
            return r;
        }
        i = i - 1;
    }
    vstd::slice::slice_to_vec(host.as_slice())
}

/// How the client reaches its target: the address parsed as a literal, or
/// one picked from what the resolver returned.
#[derive(Clone, Copy, Debug, PartialEq, Eq, Structural)]
pub enum TargetChoice {
    /// The address string itself parsed as a socket address.
    Literal,
    /// The resolver result at this index.
    Resolved(usize),
}

/// Pick the connection target: a literal address is used as it is; failing
/// that, the first resolver result; and a resolution that produced no
/// address at all is its own distinct failure.
pub fn choose_target(literal_parsed: bool, resolved_count: usize) -> (r: Result<
    TargetChoice,
    TransportError,
>)
    ensures
        literal_parsed ==> r == Ok::<TargetChoice, TransportError>(TargetChoice::Literal),
        !literal_parsed && resolved_count > 0 ==> r == Ok::<TargetChoice, TransportError>(
            TargetChoice::Resolved(0),
        ),
        !literal_parsed && resolved_count == 0 ==> r == Err::<TargetChoice, TransportError>(
            TransportError::NoAddressFound,
        ),
{
    if literal_parsed {
        Ok(TargetChoice::Literal)
    } else if resolved_count > 0 {
        Ok(TargetChoice::Resolved(0))
    } else {
        Err(TransportError::NoAddressFound)
    }
}

} // verus!
