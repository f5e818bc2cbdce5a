use vstd::prelude::*;

use crate::errors::ProtocolError;
use crate::frame::{spec_encode_frame, spec_prefix_value};

verus! {

/// Whether a byte sequence is well-formed UTF-8.
pub uninterp spec fn is_utf8(bytes: Seq<u8>) -> bool;

/// Relies on std::str::from_utf8, which returns Ok exactly when the bytes
/// are well-formed UTF-8; validity depends on the bytes alone. An empty
/// byte sequence is valid UTF-8.
#[verifier::external_body]
fn utf8_check(bytes: &[u8]) -> (r: bool)
    ensures
        r == is_utf8(bytes@),
        bytes@.len() == 0 ==> r,
{
    std::str::from_utf8(bytes).is_ok()
}

/// The response payload for one request: a greeting naming the remote peer,
/// `Hello, ` then the peer's address then `!`.
pub open spec fn spec_greeting(remote: Seq<u8>) -> Seq<u8> {
    seq![72u8, 101u8, 108u8, 108u8, 111u8, 44u8, 32u8] + remote + seq![33u8]
}

/// Build the greeting payload for the given remote peer.
pub fn greeting(remote: &Vec<u8>) -> (r: Vec<u8>)
    ensures
        r@ == spec_greeting(remote@),
{
    let mut r: Vec<u8> = Vec::new();
    r.push(72);
    r.push(101);
    r.push(108);
    r.push(108);
    r.push(111);
    r.push(44);
    r.push(32);
    proof {
        assert(r@ =~= seq![72u8, 101u8, 108u8, 108u8, 111u8, 44u8, 32u8] + remote@.take(0));
    }
    let mut i: usize = 0;
    while i < remote.len()
        invariant
            i <= remote@.len(),
            r@ == seq![72u8, 101u8, 108u8, 108u8, 111u8, 44u8, 32u8] + remote@.take(i as int),
        decreases remote@.len() - i,
    {
        r.push(remote[i]);
        proof {
            assert(seq![72u8, 101u8, 108u8, 108u8, 111u8, 44u8, 32u8] + remote@.take(i as int)
                + seq![remote@[i as int]] =~= seq![72u8, 101u8, 108u8, 108u8, 111u8, 44u8, 32u8]
                + remote@.take(i as int + 1));
        }
        i = i + 1;
    }
    proof {
        assert(remote@.take(remote@.len() as int) =~= remote@);
    }
    r.push(33);
    proof {
        assert(r@ =~= spec_greeting(remote@));
    }
    r
}

/// How one channel's request/response exchange ended, given everything the
/// peer sent on it.
#[derive(Clone, Copy, Debug, PartialEq, Eq, Structural)]
pub enum ChannelOutcome {
    /// The peer half-closed the channel cleanly between frames.
    CleanEnd,
    /// The peer sent the zero-length termination marker.
    TerminatorEnd,
    /// The bytes so far stop mid-frame and the channel is still open: the
    /// handler is waiting for the peer.
    AwaitingPeer,
    /// The channel closed mid-frame: a partial length prefix, or fewer
    /// payload bytes than the prefix promised.
    Truncated,
    /// A request payload was not well-formed UTF-8.
    InvalidEncoding,
}

/// The whole request/response exchange of one bidirectional channel, as a
/// function of everything the peer sent (`input`), whether the peer
/// half-closed afterwards (`fin`), and the remote address the responses
/// greet. Yields the framed responses written back, in order, and how the
/// exchange ended.
pub open spec fn spec_run_channel(input: Seq<u8>, fin: bool, remote: Seq<u8>) -> (Seq<Seq<u8>>,
    ChannelOutcome)
    decreases input.len(),
{
    if input.len() == 0 {
        (Seq::<Seq<u8>>::empty(), if fin {
            ChannelOutcome::CleanEnd
        } else {
            ChannelOutcome::AwaitingPeer
        })
    } else if input.len() < 4 {
        (Seq::<Seq<u8>>::empty(), if fin {
            ChannelOutcome::Truncated
        } else {
            ChannelOutcome::AwaitingPeer
        })
    } else {
        let n = spec_prefix_value(input[0], input[1], input[2], input[3]) as int;
        if n == 0 {
            (Seq::<Seq<u8>>::empty(), ChannelOutcome::TerminatorEnd)
        } else if input.len() < 4 + n {
            (Seq::<Seq<u8>>::empty(), if fin {
                ChannelOutcome::Truncated
            } else {
                ChannelOutcome::AwaitingPeer
            })
        } else if !is_utf8(input.subrange(4, 4 + n)) {
            (Seq::<Seq<u8>>::empty(), ChannelOutcome::InvalidEncoding)
        } else {
            let rest = spec_run_channel(input.skip(4 + n), fin, remote);
            (seq![spec_encode_frame(spec_greeting(remote))] + rest.0, rest.1)
        }
    }
}

/// Consuming one complete, well-encoded request frame prepends exactly one
/// greeting response and continues the exchange on the remaining bytes.
proof fn lemma_run_step(input: Seq<u8>, pos: int, n: int, fin: bool, remote: Seq<u8>)
    requires
        0 <= pos,
        n > 0,
        pos + 4 + n <= input.len(),
        n == spec_prefix_value(
            input[pos],
            input[pos + 1],
            input[pos + 2],
            input[pos + 3],
        ) as int,
        is_utf8(input.subrange(pos + 4, pos + 4 + n)),
    ensures
        spec_run_channel(input.skip(pos), fin, remote).0 == seq![
            spec_encode_frame(spec_greeting(remote)),
        ] + spec_run_channel(input.skip(pos + 4 + n), fin, remote).0,
        spec_run_channel(input.skip(pos), fin, remote).1 == spec_run_channel(
            input.skip(pos + 4 + n),
            fin,
            remote,
        ).1,
{
    let s = input.skip(pos);
    assert(s[0] == input[pos] && s[1] == input[pos + 1] && s[2] == input[pos + 2] && s[3]
        == input[pos + 3]);
    assert(s.subrange(4, 4 + n) =~= input.subrange(pos + 4, pos + 4 + n));
    assert(s.skip(4 + n) =~= input.skip(pos + 4 + n));
}

/// Run one bidirectional channel's request/response exchange over everything
/// the peer sent. Returns the framed responses to write back, in order, and
/// how the exchange ended; it never panics, whatever the bytes hold.
pub fn run_channel(input: &Vec<u8>, fin: bool, remote: &Vec<u8>) -> (r: (Vec<Vec<u8>>,
    ChannelOutcome))
    requires
        remote@.len() + 8 < 0x1_0000_0000,
    ensures
        ({
            let s = spec_run_channel(input@, fin, remote@);
            &&& r.0@.map_values(|v: Vec<u8>| v@) == s.0
            &&& r.1 == s.1
        }),
{
    let mut responses: Vec<Vec<u8>> = Vec::new();
    let mut pos: usize = 0;
    proof {
        assert(input@.skip(0) =~= input@);
        assert(responses@.map_values(|v: Vec<u8>| v@) + spec_run_channel(input@, fin, remote@).0
            =~= spec_run_channel(input@, fin, remote@).0);
    }
    loop
        invariant
            pos <= input@.len(),
            remote@.len() + 8 < 0x1_0000_0000,
            spec_run_channel(input@, fin, remote@).0 == responses@.map_values(|v: Vec<u8>| v@)
                + spec_run_channel(input@.skip(pos as int), fin, remote@).0,
            spec_run_channel(input@, fin, remote@).1 == spec_run_channel(
                input@.skip(pos as int),
                fin,
                remote@,
            ).1,
        decreases input@.len() - pos,
    {
        let ghost s = input@.skip(pos as int);
        let remaining = input.len() - pos;
        if remaining < 4 {
            let outcome = if remaining == 0 {
                if fin {
                    ChannelOutcome::CleanEnd
                } else {
                    ChannelOutcome::AwaitingPeer
                }
            } else {
                if fin {
                    ChannelOutcome::Truncated
                } else {
                    ChannelOutcome::AwaitingPeer
                }
            };
            proof {
                assert(spec_run_channel(s, fin, remote@).0 =~= Seq::<Seq<u8>>::empty());
                assert(spec_run_channel(input@, fin, remote@).0 =~= responses@.map_values(
                    |v: Vec<u8>| v@,
                ));
            }
            return (responses, outcome);
        }
        let prefix = vstd::slice::slice_subrange(input.as_slice(), pos, pos + 4);
        let n = crate::frame::decode_prefix(prefix);
        proof {
            assert(prefix@[0] == s[0] && prefix@[1] == s[1] && prefix@[2] == s[2] && prefix@[3]
                == s[3]);
        }
        if n == 0 {
            proof {
                assert(spec_run_channel(input@, fin, remote@).0 =~= responses@.map_values(
                    |v: Vec<u8>| v@,
                ));
            }
            return (responses, ChannelOutcome::TerminatorEnd);
        }
        if (n as usize) > remaining - 4 {
            let outcome = if fin {
                ChannelOutcome::Truncated
            } else {
                ChannelOutcome::AwaitingPeer
            };
            proof {
                assert(spec_run_channel(input@, fin, remote@).0 =~= responses@.map_values(
                    |v: Vec<u8>| v@,
                ));
            }
            return (responses, outcome);
        }
        let start = pos + 4;
        let end = start + (n as usize);
        let payload = vstd::slice::slice_subrange(input.as_slice(), start, end);
        proof {
            assert(payload@ =~= s.subrange(4, 4 + n as int));
        }
        if !utf8_check(payload) {
            proof {
                assert(spec_run_channel(input@, fin, remote@).0 =~= responses@.map_values(
                    |v: Vec<u8>| v@,
                ));
            }
            return (responses, ChannelOutcome::InvalidEncoding);
        }
        let g = greeting(remote);
        let resp = crate::frame::encode_frame(g.as_slice());
        let ghost old_views = responses@.map_values(|v: Vec<u8>| v@);
        responses.push(resp);
        proof {
            lemma_run_step(input@, pos as int, n as int, fin, remote@);
            assert(responses@.map_values(|v: Vec<u8>| v@) =~= old_views + seq![
                spec_encode_frame(spec_greeting(remote@)),
            ]);
            assert(old_views + (seq![spec_encode_frame(spec_greeting(remote@))]
                + spec_run_channel(input@.skip(end as int), fin, remote@).0) =~= (old_views + seq![
                spec_encode_frame(spec_greeting(remote@)),
            ]) + spec_run_channel(input@.skip(end as int), fin, remote@).0);
        }
        pos = end;
    }
}

/// The protocol error that an exchange outcome reports, if any; the clean
/// endings and a still-open channel report none.
pub fn outcome_error(o: ChannelOutcome) -> (r: Option<ProtocolError>)
    ensures
        o == ChannelOutcome::Truncated ==> r == Some(ProtocolError::Truncated),
        o == ChannelOutcome::InvalidEncoding ==> r == Some(ProtocolError::InvalidEncoding),
        o == ChannelOutcome::CleanEnd || o == ChannelOutcome::TerminatorEnd || o
            == ChannelOutcome::AwaitingPeer ==> r is None,
{
    match o {
        ChannelOutcome::Truncated => Some(ProtocolError::Truncated),
        ChannelOutcome::InvalidEncoding => Some(ProtocolError::InvalidEncoding),
        _ => None,
    }
}

/// A zero-length frame at the head of what remains always ends the exchange
/// cleanly: no response is emitted and no error is reported, whatever bytes
/// follow the marker and whether or not the channel is still open.
pub proof fn lemma_terminator_ends_exchange(input: Seq<u8>, fin: bool, remote: Seq<u8>)
    requires
        input.len() >= 4,
        spec_prefix_value(input[0], input[1], input[2], input[3]) == 0,
    ensures
        spec_run_channel(input, fin, remote).0 == Seq::<Seq<u8>>::empty(),
        spec_run_channel(input, fin, remote).1 == ChannelOutcome::TerminatorEnd,
{
}

/// A length prefix promising more bytes than the channel delivered before it
/// closed yields Truncated — no panic, and no response for that frame. The
/// same holds for a partial length prefix.
pub proof fn lemma_truncated_reported(input: Seq<u8>, remote: Seq<u8>)
    requires
        input.len() > 0,
        input.len() >= 4 ==> ({
            let n = spec_prefix_value(input[0], input[1], input[2], input[3]) as int;
            n > 0 && input.len() < 4 + n
        }),
    ensures
        spec_run_channel(input, true, remote).0 == Seq::<Seq<u8>>::empty(),
        spec_run_channel(input, true, remote).1 == ChannelOutcome::Truncated,
{
}

} // verus!
