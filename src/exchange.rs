//! The exchange context: the guest's side of the send and accept calls.

use vstd::prelude::*;

use crate::buffer::{BufferView, ExchangeBuffer, RegionOverflow};

verus! {

/// Guest application code that consumes inbound messages.
///
/// It is called synchronously, once for every inbound message, with a copy
/// of the message that is owned apart from the exchange region.
pub trait MessageProcessor {
    /// Every message this processor has been given, in call order.
    spec fn received(&self) -> Seq<Seq<u8>>;

    fn process(&mut self, msg: Vec<u8>)
        ensures
            final(self).received() == old(self).received().push(msg@),
    ;
}

/// A processor that keeps every message it is given.
pub struct MessageLog {
    messages: Vec<Vec<u8>>,
}

impl MessageLog {
    pub fn new() -> (l: MessageLog)
        ensures
            l.received() == Seq::<Seq<u8>>::empty(),
    {
        MessageLog { messages: Vec::new() }
    }

    /// The messages received so far, in call order.
    pub fn messages(&self) -> (m: &Vec<Vec<u8>>)
        ensures
            m@.map_values(|v: Vec<u8>| v@) == self.received(),
    {
        &self.messages
    }

    /// Hands out the messages received so far, in call order, and starts a
    /// new, empty log.
    pub fn take_messages(&mut self) -> (m: Vec<Vec<u8>>)
        ensures
            m@.map_values(|v: Vec<u8>| v@) == old(self).received(),
            final(self).received() == Seq::<Seq<u8>>::empty(),
    {
        let mut m: Vec<Vec<u8>> = Vec::new();
        std::mem::swap(&mut m, &mut self.messages);
        proof {
            assert(self.received() =~= Seq::<Seq<u8>>::empty());
        }
        m
    }
}

impl MessageProcessor for MessageLog {
    closed spec fn received(&self) -> Seq<Seq<u8>> {
        self.messages@.map_values(|v: Vec<u8>| v@)
    }

    fn process(&mut self, msg: Vec<u8>) {
        self.messages.push(msg);
        proof {
            assert(self.received() =~= old(self).received().push(msg@));
        }
    }
}

/// Abstract state of an [`Exchange`].
pub struct ExchangeView {
    pub buffer: BufferView,
    /// What the registered processor has received so far, in call order;
    /// `None` while no processor is registered.
    pub received: Option<Seq<Seq<u8>>>,
}

impl ExchangeView {
    /// After a processor that has received `log` is registered in place of
    /// any earlier one.
    pub open spec fn registered(self, log: Seq<Seq<u8>>) -> ExchangeView {
        ExchangeView { received: Some(log), ..self }
    }

    /// After the host asks for a region of at least `n` bytes.
    pub open spec fn requested(self, n: nat) -> ExchangeView {
        ExchangeView { buffer: self.buffer.ensured(n), ..self }
    }

    /// After the host writes `data` at the start of the region; defined when
    /// `data` fits in it.
    pub open spec fn host_wrote(self, data: Seq<u8>) -> ExchangeView {
        ExchangeView { buffer: self.buffer.written(data), ..self }
    }

    /// After `m` is staged for the host: the region grows to hold `m` if it
    /// must, and `m` is copied to its start.
    pub open spec fn sent(self, m: Seq<u8>) -> ExchangeView {
        ExchangeView { buffer: self.buffer.ensured(m.len()).written(m), ..self }
    }

    /// The first `len` bytes of the region, as an inbound message.
    pub open spec fn inbound(self, len: nat) -> Seq<u8> {
        self.buffer.bytes.subrange(0, len as int)
    }

    /// After the host's `accept` call for a message of `len` bytes: `None`
    /// when `len` exceeds the region, otherwise the state in which the
    /// message went to the processor, if one is registered, and was dropped
    /// if not. The region itself is left as it was.
    pub open spec fn accepted(self, len: nat) -> Option<ExchangeView> {
        if len > self.buffer.capacity() {
            None
        } else if let Some(log) = self.received {
            Some(ExchangeView { received: Some(log.push(self.inbound(len))), ..self })
        } else {
            Some(self)
        }
    }
}

/// One guest instance's exchange state: the exchange region and the
/// registered message processor.
pub struct Exchange<P> {
    buffer: ExchangeBuffer,
    processor: Option<P>,
}

impl<P: MessageProcessor> View for Exchange<P> {
    type V = ExchangeView;

    closed spec fn view(&self) -> ExchangeView {
        ExchangeView {
            buffer: self.buffer@,
            received: match self.processor {
                Some(p) => Some(p.received()),
                None => None,
            },
        }
    }
}

impl<P: MessageProcessor> Exchange<P> {
    pub closed spec fn wf(&self) -> bool {
        self.buffer.wf()
    }

    /// The registered processor, if any.
    pub closed spec fn current_processor(&self) -> Option<P> {
        self.processor
    }

    /// A fresh context: no region allocated, no processor registered.
    pub fn new() -> (e: Exchange<P>)
        ensures
            e.wf(),
            e@.buffer.bytes.len() == 0,
            e@.buffer.region == 0,
            e.current_processor() is None,
    {
        Exchange { buffer: ExchangeBuffer::new(), processor: None }
    }

    /// Registers the processor for inbound messages, replacing any earlier one.
    pub fn set_msg_processor(&mut self, processor: P)
        requires
            old(self).wf(),
        ensures
            final(self).wf(),
            final(self).current_processor() == Some(processor),
            final(self)@ == old(self)@.registered(processor.received()),
    {
        self.processor = Some(processor);
    }

    /// The registered processor, if any.
    pub fn processor(&self) -> (p: Option<&P>)
        ensures
            match p {
                Some(q) => self.current_processor() == Some(*q),
                None => self.current_processor() is None,
            },
    {
        match &self.processor {
            Some(q) => Some(q),
            None => None,
        }
    }

    /// Bytes the exchange region can hold.
    pub fn capacity(&self) -> (c: usize)
        ensures
            c == self@.buffer.capacity(),
    {
        self.buffer.capacity()
    }

    /// The exchange region's bytes, from its base address on.
    pub fn region(&self) -> (s: &[u8])
        ensures
            s@ == self@.buffer.bytes,
    {
        self.buffer.region()
    }

    /// The host's request for a region of at least `size` bytes; returns the
    /// number of the region now in place.
    pub fn get_buffer(&mut self, size: usize) -> (region: usize)
        requires
            old(self).wf(),
        ensures
            final(self).wf(),
            final(self)@ == old(self)@.requested(size as nat),
            final(self).current_processor() == old(self).current_processor(),
            region == final(self)@.buffer.region,
    {
        self.buffer.ensure_capacity(size)
    }

    /// The host writing `data` at the start of the region. Fails, changing
    /// nothing, when `data` does not fit.
    pub fn host_write(&mut self, data: &[u8]) -> (r: Result<(), RegionOverflow>)
        requires
            old(self).wf(),
        ensures
            final(self).wf(),
            r is Ok <==> data@.len() <= old(self)@.buffer.capacity(),
            r is Ok ==> final(self)@ == old(self)@.host_wrote(data@),
            r is Err ==> final(self)@ == old(self)@,
            final(self).current_processor() == old(self).current_processor(),
    {
        self.buffer.write_region(data)
    }

    /// Stages `msg` for the host: grows the region if it is too small, copies
    /// `msg` to its start, and returns the length to report along with the
    /// region's base address.
    pub fn send_msg_out(&mut self, msg: &Vec<u8>) -> (len: usize)
        requires
            old(self).wf(),
        ensures
            final(self).wf(),
            final(self)@ == old(self)@.sent(msg@),
            final(self).current_processor() == old(self).current_processor(),
            len == msg@.len(),
    {
        let len = msg.len();
        if self.buffer.capacity() < len {
            self.buffer.ensure_capacity(len);
        }
        let r = self.buffer.write_region(msg.as_slice());
        assert(r is Ok);
        len
    }

    /// The host's `accept` call for an inbound message of `len` bytes, which
    /// it has written at the start of the region.
    ///
    /// The first `len` bytes are copied out and given to the processor, once;
    /// with no processor registered the message is dropped. A length of zero
    /// gives an empty message and does not touch the region. A length beyond
    /// the region is refused and nothing is delivered.
    pub fn accept_msg(&mut self, len: usize) -> (r: Result<(), RegionOverflow>)
        requires
            old(self).wf(),
        ensures
            final(self).wf(),
            r is Ok <==> old(self)@.accepted(len as nat) is Some,
            r is Ok ==> final(self)@ == old(self)@.accepted(len as nat)->Some_0,
            r is Err ==> final(self)@ == old(self)@,
            r is Err ==> final(self).current_processor() == old(self).current_processor(),
            old(self).current_processor() is None ==> final(self).current_processor() is None,
            r is Ok && old(self).current_processor() is Some ==> {
                &&& final(self).current_processor() is Some
                &&& final(self).current_processor()->Some_0.received()
                    == old(self).current_processor()->Some_0.received().push(old(self)@.inbound(len as nat))
            },
    {
        if len > self.buffer.capacity() {
            return Err(RegionOverflow::TooLong);
        }
        let msg: Vec<u8> = if len == 0 {
            Vec::new()
        } else {
            self.buffer.read_region(len)
        };
        proof {
            assert(msg@ =~= self@.inbound(len as nat));
        }
        let taken = self.processor.take();
        match taken {
            Some(mut p) => {
                p.process(msg);
                self.processor = Some(p);
            },
            None => {},
        }
        Ok(())
    }
}

impl Exchange<MessageLog> {
    /// Takes out of the registered log the messages it has received; with no
    /// log registered, returns none.
    pub fn take_messages(&mut self) -> (m: Vec<Vec<u8>>)
        requires
            old(self).wf(),
        ensures
            final(self).wf(),
            final(self)@.buffer == old(self)@.buffer,
            old(self)@.received is Some ==> {
                &&& m@.map_values(|v: Vec<u8>| v@) == old(self)@.received->Some_0
                &&& final(self)@.received == Some(Seq::<Seq<u8>>::empty())
            },
            old(self)@.received is None ==> m@.len() == 0 && final(self)@.received is None,
    {
        let taken = self.processor.take();
        match taken {
            Some(mut log) => {
                let m = log.take_messages();
                self.processor = Some(log);
                m
            },
            None => Vec::new(),
        }
    }
}

} // verus!
