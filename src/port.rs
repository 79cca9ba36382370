use vstd::prelude::*;

use crate::error::Error;
use crate::registry::{baud_of, baud_rate, classify, classify_spec, ConnectionType};

verus! {

/// USB identity of a port.
#[derive(Debug, Clone, Copy, PartialEq, Eq, Structural)]
pub struct UsbId {
    pub vid: u16,
    pub pid: u16,
}

/// How a serial port is attached to the host.
#[derive(Debug, Clone, PartialEq, Eq)]
pub enum PortKind {
    Usb(UsbId),
    Pci,
    Bluetooth,
    Unknown,
}

/// Physical identity of a port as discovery reports it.
#[derive(Debug, Clone, PartialEq, Eq)]
pub struct PortInfo {
    pub port_name: String,
    pub port_type: PortKind,
}

/// The connection type that the registry gives a discovered port, if any.
pub open spec fn classified(info: PortInfo) -> Option<ConnectionType> {
    match info.port_type {
        PortKind::Usb(id) => classify_spec(id.vid, id.pid),
        _ => None,
    }
}

/// A port record: identity, mandated baud, device mode and the byte stream
/// `H` that it owns while open.
pub struct SerialMTKPort<H> {
    port: Option<H>,
    port_info: PortInfo,
    baudrate: u32,
    connection_type: ConnectionType,
    is_open: bool,
}

impl<H> SerialMTKPort<H> {
    /// The stream held, if any.
    pub closed spec fn handle(&self) -> Option<H> {
        self.port
    }

    pub closed spec fn opened(&self) -> bool {
        self.is_open
    }

    pub closed spec fn info(&self) -> PortInfo {
        self.port_info
    }

    pub closed spec fn baud(&self) -> u32 {
        self.baudrate
    }

    pub closed spec fn mode(&self) -> ConnectionType {
        self.connection_type
    }

    /// A record is open exactly when it holds a stream.
    pub open spec fn wf(&self) -> bool {
        self.opened() == self.handle() is Some
    }

    /// The record after a stream `h` was attached.
    pub closed spec fn with_handle(self, h: H) -> Self {
        SerialMTKPort { port: Some(h), is_open: true, ..self }
    }

    /// The record after `open` obtained `acquired` from the transport: an open
    /// record is left alone, a failed attempt changes nothing.
    pub open spec fn open_step(self, acquired: Result<H, String>) -> Self {
        if self.opened() {
            self
        } else {
            match acquired {
                Ok(h) => self.with_handle(h),
                Err(_) => self,
            }
        }
    }

    /// The record after `close`.
    pub closed spec fn closed_spec(self) -> Self {
        SerialMTKPort { port: None, is_open: false, ..self }
    }

    pub proof fn lemma_with_handle(self, h: H)
        ensures
            self.with_handle(h).handle() == Some(h),
            self.with_handle(h).opened(),
            self.with_handle(h).info() == self.info(),
            self.with_handle(h).baud() == self.baud(),
            self.with_handle(h).mode() == self.mode(),
    {
    }

    /// Opening twice in a row, the first time with success, leaves the record
    /// open and well formed, holding exactly the one stream that the first
    /// call kept; the second call changes nothing.
    pub proof fn lemma_open_twice(self, first: Result<H, String>, second: Result<H, String>)
        requires
            self.wf(),
            self.opened() || first is Ok,
        ensures
            self.open_step(first).opened(),
            self.open_step(first).wf(),
            self.open_step(first).handle() == if self.opened() {
                self.handle()
            } else {
                Some(first->Ok_0)
            },
            self.open_step(first).open_step(second) == self.open_step(first),
    {
    }

    /// After `close` the record is closed and holds no stream, so every read,
    /// write or flush through `stream_mut` or `check_open` fails with
    /// `ConnectionNotOpen`.
    pub proof fn lemma_closed(self)
        ensures
            self.closed_spec().handle() is None,
            !self.closed_spec().opened(),
            self.closed_spec().info() == self.info(),
            self.closed_spec().baud() == self.baud(),
            self.closed_spec().mode() == self.mode(),
    {
    }

    /// A closed record for a port.
    pub fn new(port_info: PortInfo, baudrate: u32, connection_type: ConnectionType) -> (r: Self)
        ensures
            r.wf(),
            !r.opened(),
            r.info() == port_info,
            r.baud() == baudrate,
            r.mode() == connection_type,
    {
        SerialMTKPort { port: None, port_info, baudrate, connection_type, is_open: false }
    }

    /// A closed record for a discovered port, at the baud of its mode; none
    /// when the port is not USB or its id pair is not in the registry.
    pub fn from_port_info(port_info: PortInfo) -> (r: Option<Self>)
        ensures
            match r {
                None => classified(port_info) is None,
                Some(p) => {
                    &&& classified(port_info) == Some(p.mode())
                    &&& p.wf()
                    &&& !p.opened()
                    &&& p.info() == port_info
                    &&& p.baud() == baud_of(p.mode())
                },
            },
    {
        let ct = match &port_info.port_type {
            PortKind::Usb(id) => classify(id.vid, id.pid),
            _ => None,
        };
        match ct {
            Some(ct) => {
                let baud = baud_rate(ct);
                Some(SerialMTKPort::new(port_info, baud, ct))
            },
            None => None,
        }
    }
    /// Opens the record: when it is closed, `connect` is asked once for a
    /// stream to the port's path at its mandated baud, and the stream is kept;
    /// when it is already open nothing happens.
    pub fn open<F>(&mut self, connect: F) -> (r: Result<(), Error>)
        where
            F: FnOnce(String, u32) -> Result<H, String>,
        requires
            old(self).wf(),
            !old(self).opened() ==> connect.requires((old(self).info().port_name, old(self).baud())),
        ensures
            final(self).wf(),
            old(self).opened() ==> *final(self) == *old(self) && r is Ok,
            !old(self).opened() ==> exists|acquired: Result<H, String>|
                {
                    &&& connect.ensures((old(self).info().port_name, old(self).baud()), acquired)
                    &&& *final(self) == old(self).open_step(acquired)
                    &&& match acquired {
                        Ok(_) => r is Ok,
                        Err(e) => r == Err::<(), Error>(Error::Io(e)),
                    }
                },
    {
        if self.is_open {
            return Ok(());
        }
        let name = self.port_info.port_name.clone();
        let acquired = connect(name, self.baudrate);
        let ghost got = acquired;
        let ghost before = *self;
        match acquired {
            Ok(h) => {
                self.port = Some(h);
                self.is_open = true;
                assert(*self == before.open_step(got));
                assert(connect.ensures((before.info().port_name, before.baud()), got));
                Ok(())
            },
            Err(e) => {
                assert(*self == before.open_step(got));
                assert(connect.ensures((before.info().port_name, before.baud()), got));
                Err(Error::Io(e))
            },
        }
    }

    /// Releases the stream, if any, and marks the record closed.
    pub fn close(&mut self)
        ensures
            *final(self) == old(self).closed_spec(),
            final(self).wf(),
    {
        self.port = None;
        self.is_open = false;
    }

    /// Whether the record is open.
    pub fn is_open(&self) -> (r: bool)
        ensures
            r == self.opened(),
    {
        self.is_open
    }

    /// Succeeds exactly when the record is open.
    pub fn check_open(&self) -> (r: Result<(), Error>)
        ensures
            self.opened() ==> r is Ok,
            !self.opened() ==> r == Err::<(), Error>(Error::ConnectionNotOpen),
    {
        if self.is_open {
            Ok(())
        } else {
            Err(Error::ConnectionNotOpen)
        }
    }

    /// The stream of an open record, through which reads, writes and flushes
    /// go; fails with `ConnectionNotOpen` on a closed one.
    pub fn stream_mut(&mut self) -> (r: Result<&mut H, Error>)
        requires
            old(self).wf(),
        ensures
            !old(self).opened() ==> r == Err::<&mut H, Error>(Error::ConnectionNotOpen) && *final(self) == *old(self),
            old(self).opened() ==> (r matches Ok(h) && Some(*h) == old(self).handle()
                && *final(self) == old(self).with_handle(*final(h))),
    {
        if !self.is_open {
            return Err(Error::ConnectionNotOpen);
        }
        match &mut self.port {
            Some(h) => Ok(h),
            None => Err(Error::ConnectionNotOpen),
        }
    }

    /// The mode of the device behind the port.
    pub fn get_connection_type(&self) -> (r: ConnectionType)
        ensures
            r == self.mode(),
    {
        self.connection_type
    }

    /// The baud rate the port is opened at.
    pub fn get_baudrate(&self) -> (r: u32)
        ensures
            r == self.baud(),
    {
        self.baudrate
    }

    /// The path of the port.
    pub fn get_port_name(&self) -> (r: String)
        ensures
            r@ == self.info().port_name@,
    {
        self.port_info.port_name.clone()
    }
}

/// Index of the first candidate that the registry classifies, if any.
pub open spec fn first_classified(s: Seq<PortInfo>) -> Option<int>
    decreases s.len(),
{
    if s.len() == 0 {
        None
    } else if classified(s[0]) is Some {
        Some(0)
    } else {
        match first_classified(s.drop_first()) {
            Some(k) => Some(k + 1),
            None => None,
        }
    }
}

/// Picks, among enumerated candidates, the first one that the registry
/// classifies, as a closed record; none when no candidate classifies.
pub fn find_device<H>(candidates: Vec<PortInfo>) -> (r: Option<SerialMTKPort<H>>)
    ensures
        match r {
            None => forall|i: int| 0 <= i < candidates@.len() ==> classified(#[trigger] candidates@[i]) is None,
            Some(p) => exists|k: int|
                {
                    &&& 0 <= k < candidates@.len()
                    &&& p.info() == candidates@[k]
                    &&& forall|j: int| 0 <= j < k ==> classified(#[trigger] candidates@[j]) is None
                    &&& classified(candidates@[k]) == Some(p.mode())
                    &&& p.baud() == baud_of(p.mode())
                    &&& p.wf()
                    &&& !p.opened()
                },
        },
{
    let ghost all = candidates@;
    let mut rest = candidates;
    let ghost mut taken: int = 0;
    while rest.len() > 0
        invariant
            all == candidates@,
            0 <= taken <= all.len(),
            rest@ == all.subrange(taken, all.len() as int),
            forall|j: int| 0 <= j < taken ==> classified(#[trigger] all[j]) is None,
        decreases rest@.len(),
    {
        let info = rest.remove(0);
        proof {
            assert(taken < all.len());
            assert(info == all[taken]);
        }
        match SerialMTKPort::from_port_info(info) {
            Some(p) => {
                proof {
                    assert(p.info() == all[taken]);
                }
                return Some(p);
            },
            None => {},
        }
        proof {
            taken = taken + 1;
        }
    }
    None
}

} // verus!
