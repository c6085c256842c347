//! The frame decoder: an incremental state machine that turns an arbitrary
//! stream of inbound bytes into a sequence of decoded key events.
//!
//! The wire carries one frame per event: a one-byte length prefix followed
//! by exactly that many payload bytes. Chunks may split frames anywhere —
//! the decoder is re-entrant across calls — but any frame whose payload is
//! not the valid encoding of a key event is a protocol violation, after
//! which the whole connection must be treated as compromised.

use crate::codec::spec_decode;
use crate::errors::InvalidEncodedInputEventError;
use crate::input::InputEvent;
use vstd::prelude::*;
use vstd::string::{StrSliceExecFns, StringExecFns};

verus! {

/// The mathematical state of one connection's frame decoder: an optional
/// pending length prefix, the partially accumulated payload, and the
/// decoded events awaiting a flush.
pub ghost struct DecoderModel {
    pub prefix: Option<u8>,
    pub buf: Seq<u8>,
    pub events: Seq<InputEvent>,
}

impl DecoderModel {
    /// The state of a freshly accepted connection.
    pub open spec fn initial() -> DecoderModel {
        DecoderModel { prefix: None, buf: Seq::empty(), events: Seq::empty() }
    }

    /// The accumulated payload never outgrows the declared length, nothing
    /// accumulates before a length is declared, and only key events are
    /// ever pending.
    pub open spec fn wf(self) -> bool {
        &&& match self.prefix {
            None => self.buf.len() == 0,
            Some(n) => self.buf.len() <= n,
        }
        &&& forall|i: int|
            0 <= i < self.events.len() ==> (#[trigger] self.events[i]).spec_is_key_event()
    }
}

/// Advance the state machine by one byte. `None` is a protocol violation:
/// the completed payload was not the valid encoding of a key event.
pub open spec fn spec_step(s: DecoderModel, b: u8) -> Option<DecoderModel> {
    match s.prefix {
        None => Some(DecoderModel { prefix: Some(b), buf: s.buf, events: s.events }),
        Some(n) => {
            let filled = s.buf.push(b);
            if filled.len() < n {
                Some(DecoderModel { prefix: Some(n), buf: filled, events: s.events })
            } else if filled.len() == n {
                match spec_decode(filled) {
                    Some(ev) => if ev.spec_is_key_event() {
                        Some(
                            DecoderModel {
                                prefix: None,
                                buf: Seq::empty(),
                                events: s.events.push(ev),
                            },
                        )
                    } else {
                        None
                    },
                    None => None,
                }
            } else {
                // Only reachable for a declared length of zero: the empty
                // payload decodes to nothing, so the frame is a violation.
                None
            }
        },
    }
}

/// Feed a whole byte sequence, one byte at a time, stopping at the first
/// violation.
pub open spec fn spec_feed(s: DecoderModel, bytes: Seq<u8>) -> Option<DecoderModel>
    decreases bytes.len(),
{
    if bytes.len() == 0 {
        Some(s)
    } else {
        match spec_step(s, bytes[0]) {
            Some(m) => spec_feed(m, bytes.drop_first()),
            None => None,
        }
    }
}

/// Fragmentation independence: feeding two chunks one after the other is
/// the same as feeding their concatenation, so any split of a byte stream
/// into reads produces the identical decoded-event sequence.
pub proof fn lemma_feed_append(s: DecoderModel, a: Seq<u8>, b: Seq<u8>)
    ensures
        spec_feed(s, a + b) == match spec_feed(s, a) {
            Some(m) => spec_feed(m, b),
            None => None::<DecoderModel>,
        },
    decreases a.len(),
{
    if a.len() == 0 {
        assert(a + b =~= b);
    } else {
        assert((a + b)[0] == a[0]);
        match spec_step(s, a[0]) {
            Some(m) => {
                assert((a + b).drop_first() =~= a.drop_first() + b);
                lemma_feed_append(m, a.drop_first(), b);
            },
            None => {
                assert((a + b).len() != 0);
            },
        }
    }
}

/// Feeding a single byte is exactly one step of the machine.
pub proof fn lemma_feed_one(s: DecoderModel, b: u8)
    ensures
        spec_feed(s, seq![b]) == spec_step(s, b),
{
    reveal_with_fuel(spec_feed, 2);
    assert(seq![b].drop_first() =~= Seq::<u8>::empty());
}

/// No false event: whatever a feed appends to the pending batch is a key
/// event that some payload validly decodes to, and everything already
/// pending stays in place, in order.
pub proof fn lemma_feed_appends_only_key_events(s: DecoderModel, bytes: Seq<u8>)
    ensures
        (spec_feed(s, bytes) matches Some(m) ==> {
            &&& m.events.len() >= s.events.len()
            &&& m.events.take(s.events.len() as int) == s.events
            &&& forall|i: int|
                s.events.len() <= i < m.events.len() ==> (
                #[trigger] m.events[i]).spec_is_key_event() && spec_decode_yields(m.events[i])
        }),
    decreases bytes.len(),
{
    if bytes.len() != 0 {
        match spec_step(s, bytes[0]) {
            Some(m) => {
                lemma_feed_appends_only_key_events(m, bytes.drop_first());
                assert(m.events.take(s.events.len() as int) =~= s.events);
                match spec_feed(s, bytes) {
                    Some(f) => {
                        assert(spec_feed(m, bytes.drop_first()) == Some(f));
                        assert forall|i: int|
                            s.events.len() <= i < f.events.len() implies ((
                        #[trigger] f.events[i]).spec_is_key_event() && spec_decode_yields(
                            f.events[i],
                        )) by {
                            if i < m.events.len() {
                                assert(f.events.take(m.events.len() as int)[i] == f.events[i]);
                                assert(f.events[i] == m.events[i]);
                                let filled = s.buf.push(bytes[0]);
                                assert(m.events[i] == m.events.last());
                                assert(spec_decode(filled) == Some(m.events.last()));
                            } else {
                                assert(f.events[i].spec_is_key_event() && spec_decode_yields(
                                    f.events[i],
                                ));
                            }
                        }
                        assert(f.events.take(s.events.len() as int) =~= s.events) by {
                            assert forall|j: int| 0 <= j < s.events.len() implies f.events[j]
                                == s.events[j] by {
                                assert(f.events.take(m.events.len() as int)[j] == f.events[j]);
                                assert(f.events[j] == m.events[j]);
                                assert(m.events.take(s.events.len() as int)[j] == m.events[j]);
                            }
                        }
                    },
                    None => {},
                }
            },
            None => {},
        }
    } else {
        assert(s.events.take(s.events.len() as int) =~= s.events);
    }
}

/// Some payload decodes to this event.
pub open spec fn spec_decode_yields(ev: InputEvent) -> bool {
    exists|p: Seq<u8>| spec_decode(p) == Some(ev)
}

/// A completed payload that is not the valid encoding of a key event stops
/// the machine: no event is produced and the connection is condemned.
pub proof fn lemma_bad_frame_rejected(s: DecoderModel, b: u8)
    requires
        s.prefix matches Some(n) && s.buf.len() + 1 == n,
        !(spec_decode(s.buf.push(b)) matches Some(ev) && ev.spec_is_key_event()),
    ensures
        spec_step(s, b) is None,
{
}

/// Per-connection decoder state, fed one received chunk at a time.
pub struct StreamReadHandler {
    /// Declared length of the frame being accumulated, if its prefix byte
    /// has arrived.
    size_prefix: Option<u8>,
    /// Payload bytes accumulated so far; never longer than the prefix.
    input_event_buffer: Vec<u8>,
    /// Fully decoded events awaiting an idle-timeout flush.
    input_events: Vec<InputEvent>,
    /// Identity of the peer this connection belongs to.
    peer_addr: String,
}

impl View for StreamReadHandler {
    type V = DecoderModel;

    closed spec fn view(&self) -> DecoderModel {
        DecoderModel {
            prefix: self.size_prefix,
            buf: self.input_event_buffer@,
            events: self.input_events@,
        }
    }
}

impl StreamReadHandler {
    pub open spec fn wf(&self) -> bool {
        self@.wf()
    }

    pub closed spec fn spec_peer_addr(&self) -> Seq<char> {
        self.peer_addr@
    }

    /// Fresh state for a newly accepted connection.
    pub fn new(peer_addr: String) -> (r: StreamReadHandler)
        ensures
            r@ == DecoderModel::initial(),
            r.spec_peer_addr() == peer_addr@,
            r.wf(),
    {
        StreamReadHandler {
            size_prefix: None,
            input_event_buffer: Vec::new(),
            input_events: Vec::new(),
            peer_addr,
        }
    }

    /// The peer identity this decoder was created for.
    pub fn peer_addr(&self) -> (r: &str)
        ensures
            r@ == self.spec_peer_addr(),
    {
        self.peer_addr.as_str()
    }

    /// The decoded events awaiting a flush, in arrival order.
    pub fn pending_events(&self) -> (r: &Vec<InputEvent>)
        ensures
            r@ == self@.events,
    {
        &self.input_events
    }

    /// Whether any decoded events await a flush.
    pub fn has_pending_events(&self) -> (r: bool)
        ensures
            r == (self@.events.len() > 0),
    {
        self.input_events.len() > 0
    }

    /// Consume one received chunk, advancing the state machine byte by
    /// byte: exactly the effect of [`spec_feed`]. An error means a protocol
    /// violation somewhere in the chunk; the caller must stop reading from
    /// this connection and close it.
    #[verifier::loop_isolation(false)]
    pub fn read_buffer(&mut self, buffer: &[u8]) -> (r: Result<(), InvalidEncodedInputEventError>)
        requires
            old(self).wf(),
        ensures
            final(self).wf(),
            final(self).spec_peer_addr() == old(self).spec_peer_addr(),
            (r is Ok ==> spec_feed(old(self)@, buffer@) == Some(final(self)@)),
            (r is Err ==> spec_feed(old(self)@, buffer@) is None),
    {
        let ghost s0 = self@;
        let mut i: usize = 0;
        while i < buffer.len()
            invariant
                0 <= i <= buffer@.len(),
                spec_feed(s0, buffer@.take(i as int)) == Some(self@),
                self.wf(),
                self.spec_peer_addr() == old(self).spec_peer_addr(),
            decreases buffer@.len() - i,
        {
            let ghost cur = self@;
            let b = buffer[i];
            proof {
                assert(buffer@.take(i + 1 as int) =~= buffer@.take(i as int) + seq![b]);
                lemma_feed_append(s0, buffer@.take(i as int), seq![b]);
                lemma_feed_one(cur, b);
            }
            match self.size_prefix {
                None => {
                    self.size_prefix = Some(b);
                    proof {
                        assert(spec_step(cur, b) == Some(self@));
                    }
                },
                Some(size_prefix) => {
                    let filled_len = self.input_event_buffer.len() + 1;
                    if filled_len < size_prefix as usize {
                        self.input_event_buffer.push(b);
                        proof {
                            assert(spec_step(cur, b) == Some(self@));
                        }
                    } else if filled_len == size_prefix as usize {
                        self.input_event_buffer.push(b);
                        let ghost filled = self@;
                        match self.input_event_buffer_full() {
                            Ok(()) => {
                                proof {
                                    assert(spec_step(cur, b) == Some(self@));
                                }
                            },
                            Err(e) => {
                                proof {
                                    assert(spec_step(cur, b) is None);
                                    lemma_whole_feed_fails(s0, buffer@, i as int, cur, b);
                                }
                                return Err(e);
                            },
                        }
                    } else {
                        // The declared length was zero: the empty payload
                        // can encode nothing, so the frame is a violation.
                        let e = InvalidEncodedInputEventError::new(
                            self.decode_error_message(),
                        );
                        proof {
                            assert(spec_step(cur, b) is None);
                            lemma_whole_feed_fails(s0, buffer@, i as int, cur, b);
                        }
                        return Err(e);
                    }
                },
            }
            i = i + 1;
        }
        proof {
            assert(buffer@.take(i as int) =~= buffer@);
        }
        Ok(())
    }

    /// Decode the completed payload, admit it to the pending batch if it is
    /// a key event, and reset for the next frame's length prefix. An error
    /// reports the frame as a protocol violation and leaves the state
    /// untouched.
    fn input_event_buffer_full(&mut self) -> (r: Result<(), InvalidEncodedInputEventError>)
        ensures
            final(self).spec_peer_addr() == old(self).spec_peer_addr(),
            (r is Ok <==> (spec_decode(old(self)@.buf) matches Some(ev)
                && ev.spec_is_key_event())),
            (r is Ok ==> (spec_decode(old(self)@.buf) matches Some(ev) && final(self)@
                == DecoderModel {
                prefix: None,
                buf: Seq::empty(),
                events: old(self)@.events.push(ev),
            })),
            (r is Err ==> final(self)@ == old(self)@),
    {
        match crate::codec::decode(self.input_event_buffer.as_slice()) {
            Ok(input_event) => {
                if !input_event.is_key_event() {
                    return Err(InvalidEncodedInputEventError::new(self.non_key_error_message()));
                }
                self.input_events.push(input_event);
                self.input_event_buffer.clear();
                self.size_prefix = None;
                proof {
                    assert(self@.buf =~= Seq::<u8>::empty());
                }
                Ok(())
            },
            Err(_) => Err(InvalidEncodedInputEventError::new(self.decode_error_message())),
        }
    }

    /// Flush the pending batch on an idle timeout: reconstruct its text,
    /// clear the batch — always, and exactly once per call — and hand back
    /// the output line, prefixed with the peer identity, or nothing when
    /// the reconstruction is empty. Partial frame state is untouched, so a
    /// frame split across the timeout still completes.
    pub fn handle_input_events(&mut self) -> (r: Option<String>)
        requires
            old(self).wf(),
        ensures
            final(self).wf(),
            final(self)@.prefix == old(self)@.prefix,
            final(self)@.buf == old(self)@.buf,
            final(self)@.events == Seq::<InputEvent>::empty(),
            final(self).spec_peer_addr() == old(self).spec_peer_addr(),
            ({
                let text = crate::parser::spec_events_to_text(old(self)@.events);
                if text.len() == 0 {
                    r is None
                } else {
                    r matches Some(line) && line@ == old(self).spec_peer_addr() + ": "@ + text
                }
            }),
    {
        proof {
            assert(self.input_events@ == self@.events);
            assert(forall|i: int|
                0 <= i < self.input_events@.len() ==> (
                #[trigger] self.input_events@[i]).spec_is_key_event());
        }
        let text = crate::parser::input_events_to_text(self.input_events.as_slice());
        self.input_events.clear();
        if text.as_str().unicode_len() == 0 {
            None
        } else {
            let mut line = self.peer_addr.clone();
            line.append(": ");
            line.append(text.as_str());
            Some(line)
        }
    }

    /// Report for a payload that decoded to a non-key event.
    fn non_key_error_message(&self) -> String {
        let mut msg = "InputEvent is not a key event. (from: ".to_owned();
        msg.append(self.peer_addr.as_str());
        msg.append(")");
        msg
    }

    /// Report for a payload that did not decode at all.
    fn decode_error_message(&self) -> String {
        let mut msg = "Encoded bytes of InputEvent was invalid. (from: ".to_owned();
        msg.append(self.peer_addr.as_str());
        msg.append(")");
        msg
    }
}

/// Once one byte of the chunk is a violation, feeding the whole chunk is a
/// violation.
proof fn lemma_whole_feed_fails(
    s0: DecoderModel,
    bytes: Seq<u8>,
    i: int,
    cur: DecoderModel,
    b: u8,
)
    requires
        0 <= i < bytes.len(),
        bytes[i] == b,
        spec_feed(s0, bytes.take(i)) == Some(cur),
        spec_step(cur, b) is None,
    ensures
        spec_feed(s0, bytes) is None,
{
    assert(bytes =~= bytes.take(i) + bytes.skip(i));
    lemma_feed_append(s0, bytes.take(i), bytes.skip(i));
    assert(bytes.skip(i).len() > 0);
    assert(bytes.skip(i)[0] == b);
}

} // verus!
