use crate::error::ToggleError;
use vstd::prelude::*;
use vstd::string::*;
use vstd::utf8::*;

verus! {

/// The UTF-8 bytes of each token of a message.
pub open spec fn token_bytes(message: Seq<&str>) -> Seq<Seq<u8>> {
    Seq::new(message.len(), |i: int| encode_utf8(message[i]@))
}

/// The tokens laid end to end, each followed by one zero byte.
pub open spec fn payload(tokens: Seq<Seq<u8>>) -> Seq<u8>
    decreases tokens.len(),
{
    if tokens.len() == 0 {
        Seq::<u8>::empty()
    } else {
        payload(tokens.drop_last()) + tokens.last() + seq![0u8]
    }
}

/// The single length byte of a frame: the number of bytes behind the four
/// leading ones, reduced modulo 256. The daemon's clients have always sent
/// it so, and a longer message is framed with the reduced length.
pub open spec fn length_byte(tokens: Seq<Seq<u8>>) -> u8 {
    ((payload(tokens).len() + 1) % 256) as u8
}

/// A framed message: the length byte, three zero bytes, the payload and a
/// closing zero byte.
pub open spec fn frame(tokens: Seq<Seq<u8>>) -> Seq<u8> {
    seq![length_byte(tokens), 0u8, 0u8, 0u8] + payload(tokens) + seq![0u8]
}

/// Whether no token holds a zero byte.
pub open spec fn zero_free(tokens: Seq<Seq<u8>>) -> bool {
    forall|i: int, j: int|
        0 <= i < tokens.len() && 0 <= j < tokens[i].len() ==> #[trigger] tokens[i][j] != 0u8
}

/// The length of the longest prefix of `bytes` that is empty or ends in a
/// zero byte.
pub open spec fn last_boundary(bytes: Seq<u8>) -> int
    decreases bytes.len(),
{
    if bytes.len() == 0 {
        0
    } else if bytes.last() == 0u8 {
        bytes.len() as int
    } else {
        last_boundary(bytes.drop_last())
    }
}

/// The pieces of `bytes` that its zero bytes close, in order. Bytes behind
/// the last zero byte belong to no piece.
pub open spec fn split_on_zero(bytes: Seq<u8>) -> Seq<Seq<u8>>
    decreases bytes.len(),
    via split_on_zero_decreases
{
    if bytes.len() == 0 {
        Seq::<Seq<u8>>::empty()
    } else if bytes.last() == 0u8 {
        let body = bytes.drop_last();
        let start = last_boundary(body);
        split_on_zero(body.subrange(0, start)).push(body.subrange(start, body.len() as int))
    } else {
        split_on_zero(bytes.drop_last())
    }
}

#[via_fn]
proof fn split_on_zero_decreases(bytes: Seq<u8>) {
    if bytes.len() > 0 {
        lemma_last_boundary_bounds(bytes.drop_last());
    }
}

/// What a receiver reads out of a frame: the bytes behind the four leading
/// ones are split at the zero bytes, and the empty piece that the closing
/// zero byte leaves at the end is dropped.
pub open spec fn unframe(bytes: Seq<u8>) -> Seq<Seq<u8>> {
    split_on_zero(bytes.subrange(4, bytes.len() as int)).drop_last()
}

proof fn lemma_last_boundary_bounds(bytes: Seq<u8>)
    ensures
        0 <= last_boundary(bytes) <= bytes.len(),
    decreases bytes.len(),
{
    if bytes.len() > 0 && bytes.last() != 0u8 {
        lemma_last_boundary_bounds(bytes.drop_last());
    }
}

proof fn lemma_payload_closed(tokens: Seq<Seq<u8>>)
    ensures
        payload(tokens).len() == 0 || payload(tokens).last() == 0u8,
        last_boundary(payload(tokens)) == payload(tokens).len(),
{
}

proof fn lemma_boundary_behind_token(head: Seq<u8>, token: Seq<u8>)
    requires
        last_boundary(head) == head.len(),
        forall|j: int| 0 <= j < token.len() ==> token[j] != 0u8,
    ensures
        last_boundary(head + token) == head.len(),
    decreases token.len(),
{
    if token.len() == 0 {
        assert(head + token =~= head);
    } else {
        let whole = head + token;
        assert(whole.last() == token.last());
        assert(whole.drop_last() =~= head + token.drop_last());
        lemma_boundary_behind_token(head, token.drop_last());
    }
}

proof fn lemma_split_payload(tokens: Seq<Seq<u8>>)
    requires
        zero_free(tokens),
    ensures
        split_on_zero(payload(tokens)) == tokens,
    decreases tokens.len(),
{
    if tokens.len() == 0 {
        assert(split_on_zero(payload(tokens)) =~= tokens);
    } else {
        let front = tokens.drop_last();
        let head = payload(front);
        let token = tokens.last();
        let bytes = payload(tokens);
        let body = bytes.drop_last();
        assert(body =~= head + token);
        assert forall|j: int| 0 <= j < token.len() implies token[j] != 0u8 by {
            assert(tokens[tokens.len() - 1][j] != 0u8);
        }
        assert(zero_free(front)) by {
            assert forall|i: int, j: int|
                0 <= i < front.len() && 0 <= j < front[i].len() implies #[trigger] front[i][j]
                != 0u8 by {
                assert(tokens[i][j] != 0u8);
            }
        }
        lemma_payload_closed(front);
        lemma_boundary_behind_token(head, token);
        assert(body.subrange(0, head.len() as int) =~= head);
        assert(body.subrange(head.len() as int, body.len() as int) =~= token);
        lemma_split_payload(front);
        assert(front.push(token) =~= tokens);
    }
}

/// A receiver that splits a frame at its zero bytes reads the tokens that
/// were framed, whatever their number and length, provided that no token
/// holds a zero byte itself.
pub proof fn lemma_unframe_frame(tokens: Seq<Seq<u8>>)
    requires
        zero_free(tokens),
    ensures
        unframe(frame(tokens)) == tokens,
{
    let bytes = frame(tokens);
    let rest = bytes.subrange(4, bytes.len() as int);
    assert(rest =~= payload(tokens) + seq![0u8]);
    let body = rest.drop_last();
    assert(body =~= payload(tokens));
    lemma_payload_closed(tokens);
    assert(body.subrange(0, body.len() as int) =~= body);
    assert(body.subrange(body.len() as int, body.len() as int) =~= Seq::<u8>::empty());
    lemma_split_payload(tokens);
    assert(split_on_zero(rest) == tokens.push(Seq::<u8>::empty()));
    assert(tokens.push(Seq::<u8>::empty()).drop_last() =~= tokens);
}

/// The same of a message of texts: the receiver reads as many tokens as
/// were sent, and each decodes to the text that was sent, provided that no
/// text holds the character of code zero.
pub proof fn lemma_message_round_trip(message: Seq<&str>)
    requires
        zero_free(token_bytes(message)),
    ensures
        unframe(frame(token_bytes(message))).len() == message.len(),
        forall|i: int|
            0 <= i < message.len() ==> decode_utf8(
                #[trigger] unframe(frame(token_bytes(message)))[i],
            ) == message[i]@,
{
    lemma_unframe_frame(token_bytes(message));
    assert forall|i: int| 0 <= i < message.len() implies decode_utf8(
        #[trigger] unframe(frame(token_bytes(message)))[i],
    ) == message[i]@ by {
        encode_utf8_decode_utf8(message[i]@);
    }
}

/// The length byte of a frame is the payload's length with its closing
/// zero byte, reduced modulo 256: equal to that length below 256, and its
/// low eight bits from 256 on.
pub proof fn lemma_length_byte(tokens: Seq<Seq<u8>>)
    ensures
        frame(tokens).len() == payload(tokens).len() + 5,
        frame(tokens)[0] as int == (frame(tokens).len() - 4) % 256,
        frame(tokens).len() - 4 < 256 ==> frame(tokens)[0] as int == frame(tokens).len() - 4,
        frame(tokens).len() - 4 >= 256 ==> frame(tokens)[0] as int != frame(tokens).len() - 4,
        frame(tokens)[1] == 0u8 && frame(tokens)[2] == 0u8 && frame(tokens)[3] == 0u8,
{
}

proof fn lemma_payload_push(tokens: Seq<Seq<u8>>, token: Seq<u8>)
    ensures
        payload(tokens.push(token)) == payload(tokens) + token + seq![0u8],
{
    assert(tokens.push(token).drop_last() =~= tokens);
}

/// Frames a request for the daemon.
pub fn format_message(message: &[&str]) -> (command: Vec<u8>)
    ensures
        command@ == frame(token_bytes(message@)),
{
    let mut command: Vec<u8> = Vec::new();
    command.push(0u8);
    command.push(0u8);
    command.push(0u8);
    command.push(0u8);
    let ghost tokens = token_bytes(message@);
    let mut i: usize = 0;
    assert(command@ =~= seq![0u8, 0u8, 0u8, 0u8] + payload(tokens.take(0)));
    while i < message.len()
        invariant
            i <= message.len(),
            tokens == token_bytes(message@),
            command@ == seq![0u8, 0u8, 0u8, 0u8] + payload(tokens.take(i as int)),
        decreases message.len() - i,
    {
        let bytes = message[i].as_bytes();
        let ghost before = command@;
        let mut j: usize = 0;
        while j < bytes.len()
            invariant
                j <= bytes.len(),
                command@ == before + bytes@.take(j as int),
            decreases bytes.len() - j,
        {
            command.push(bytes[j]);
            assert(bytes@.take(j as int).push(bytes@[j as int]) =~= bytes@.take(j + 1));
            j += 1;
        }
        command.push(0u8);
        proof {
            assert(bytes@.take(bytes@.len() as int) =~= bytes@);
            assert(tokens.take(i + 1) =~= tokens.take(i as int).push(tokens[i as int]));
            lemma_payload_push(tokens.take(i as int), tokens[i as int]);
            assert(command@ =~= seq![0u8, 0u8, 0u8, 0u8] + payload(tokens.take(i + 1)));
        }
        i += 1;
    }
    command.push(0u8);
    assert(tokens.take(message@.len() as int) =~= tokens);
    let low: u8 = ((command.len() - 4) % 256) as u8;
    command.set(0, low);
    assert(command@ =~= frame(tokens));
    command
}

/// The seconds that the daemon is given to take a request, and again to
/// answer it.
pub const SOCKET_TIMEOUT_SECS: u64 = 2;

/// The path of the socket on which the daemon of a user listens.
pub open spec fn socket_path_of(user: Seq<char>) -> Seq<char> {
    "/tmp/yabai_"@ + user + ".socket"@
}

/// Writes the path of the socket on which the daemon of a user listens.
pub fn socket_path(user: &str) -> (path: String)
    ensures
        path@ == socket_path_of(user@),
{
    String::from_str("/tmp/yabai_").concat(user).concat(".socket")
}

/// How one exchange with the daemon ended.
#[derive(Debug)]
pub enum Reply {
    /// The socket is missing, or nothing accepts a connection on it.
    Unavailable,
    /// Writing the request or reading the answer ran into the time limit.
    TimedOut,
    /// The connection failed after it was made.
    Broken,
    /// The daemon closed the connection after sending these bytes.
    Closed(Vec<u8>),
}

/// What `query_socket` returns for a reply.
pub open spec fn reply_text(reply: Reply) -> Result<Seq<char>, ToggleError> {
    match reply {
        Reply::Unavailable => Err(ToggleError::DaemonUnavailable),
        Reply::TimedOut => Err(ToggleError::Timeout),
        Reply::Broken => Err(ToggleError::ProtocolError),
        Reply::Closed(bytes) => if valid_utf8(bytes@) {
            Ok(decode_utf8(bytes@))
        } else {
            Err(ToggleError::ProtocolError)
        },
    }
}

/// `String::from_utf8` of std: the text that the bytes encode, where they
/// are well-formed UTF-8, and nothing where they are not.
#[verifier::external_body]
fn text_of_bytes(bytes: Vec<u8>) -> (text: Option<String>)
    ensures
        valid_utf8(bytes@) ==> text.is_some() && text.unwrap()@ == decode_utf8(bytes@),
        !valid_utf8(bytes@) ==> text.is_none(),
{
    String::from_utf8(bytes).ok()
}

/// The text of the daemon's answer, or the error that stands for the way
/// the exchange failed. A time limit that ran out is reported as such and
/// as nothing else.
pub fn query_socket(reply: Reply) -> (response: Result<String, ToggleError>)
    ensures
        match (response, reply_text(reply)) {
            (Ok(text), Ok(expected)) => text@ == expected,
            (Err(error), Err(expected)) => error == expected,
            _ => false,
        },
{
    match reply {
        Reply::Unavailable => Err(ToggleError::DaemonUnavailable),
        Reply::TimedOut => Err(ToggleError::Timeout),
        Reply::Broken => Err(ToggleError::ProtocolError),
        Reply::Closed(bytes) => match text_of_bytes(bytes) {
            Some(text) => Ok(text),
            None => Err(ToggleError::ProtocolError),
        },
    }
}

} // verus!
