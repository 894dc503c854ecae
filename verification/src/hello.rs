//! The module and its device, as the host drives them.

use vstd::prelude::*;
use crate::error::WriteError;
use crate::state::{result_of, DeviceState, Drained, ModuleState};
use crate::status::{busy_code, READY};
use crate::text::{decode, GREETING};

verus! {

/// What a source cursor delivered, with the bytes as a sequence.
pub open spec fn drained<E>(source: Result<Vec<u8>, E>) -> Drained<E> {
    match source {
        Ok(bytes) => Ok(bytes@),
        Err(e) => Err(e),
    }
}

/// The device backend: the message buffer behind the device node. It exists
/// exactly while the node is registered.
#[derive(Debug)]
pub struct HelloInner {
    data: String,
}

impl View for HelloInner {
    type V = DeviceState;

    closed spec fn view(&self) -> DeviceState {
        DeviceState { message: self.data@ }
    }
}

impl HelloInner {
    /// The backend of a device that has just been registered.
    pub fn new() -> (device: HelloInner)
        ensures
            device@ == DeviceState::fresh(),
    {
        HelloInner { data: GREETING.to_string() }
    }

    /// The bytes to hand to the destination cursor, in one piece: the whole
    /// message. How many of them the cursor takes is the cursor's business.
    pub fn read(&self) -> (bytes: Vec<u8>)
        ensures
            bytes@ == self@.read(),
    {
        self.data.as_str().as_bytes_vec()
    }

    /// Replaces the message by what the source cursor delivered. The buffer is
    /// emptied first and filled only if the source delivered well-formed UTF-8,
    /// so a write that fails leaves the empty buffer behind.
    pub fn write<E>(&mut self, source: Result<Vec<u8>, E>) -> (outcome: Result<usize, WriteError<E>>)
        ensures
            final(self)@ == old(self)@.write(drained(source)),
            match outcome {
                Ok(consumed) => result_of(drained(source)) == Ok::<nat, WriteError<E>>(consumed as nat),
                Err(e) => result_of(drained(source)) == Err::<nat, WriteError<E>>(e),
            },
    {
        self.data = String::new();
        match source {
            Err(e) => Err(WriteError::Source(e)),
            Ok(bytes) => {
                let consumed = bytes.len();
                match decode(bytes) {
                    Some(text) => {
                        self.data = text;
                        Ok(consumed)
                    },
                    None => Err(WriteError::InvalidUtf8),
                }
            },
        }
    }
}

/// The module controller: it owns the device backend for as long as the device
/// node is registered, and answers the host's lifecycle calls.
///
/// The handle of the registered node, and the count of open descriptors that the
/// host keeps on it, stay with the host: the module hears of them in
/// [`Hello::load`] and [`Hello::quiesce`].
#[derive(Debug)]
pub struct Hello {
    inner: Option<HelloInner>,
}

impl View for Hello {
    type V = ModuleState;

    closed spec fn view(&self) -> ModuleState {
        match self.inner {
            Some(device) => ModuleState::Loaded(device@),
            None => ModuleState::Unloaded,
        }
    }
}

impl Hello {
    /// A module that has not been loaded.
    pub fn new() -> (module: Hello)
        ensures
            module@ == ModuleState::Unloaded,
    {
        Hello { inner: None }
    }

    /// Whether the device node is registered. The host asks before it touches a
    /// source cursor: a module that is not loaded consumes nothing.
    pub fn is_loaded(&self) -> (loaded: bool)
        ensures
            loaded == (self@ is Loaded),
    {
        self.inner.is_some()
    }

    /// Takes note of the host's attempt to register the device node under
    /// [`crate::text::DEVICE_NAME`]. If the node was `registered`, the module is
    /// loaded and its buffer holds the greeting; if the host refused, nothing
    /// changes.
    pub fn load(&mut self, registered: bool)
        ensures
            final(self)@ == old(self)@.load(registered),
    {
        if registered {
            self.inner = Some(HelloInner::new());
        }
    }

    /// Releases the device state: the module is unloaded, and the host revokes
    /// the device node. Whether descriptors are still open is not asked here: the
    /// host calls [`Hello::quiesce`] first.
    pub fn unload(&mut self)
        ensures
            final(self)@ == old(self)@.unload(),
    {
        self.inner = None;
    }

    /// Answers whether the module can be unloaded while the host counts
    /// `usecount` open descriptors on the device: [`READY`] if it can, the host's
    /// own error number for a busy device if it cannot. The module is left as it
    /// was, and the answer may be asked for as often as the host likes.
    pub fn quiesce(&mut self, usecount: i32) -> (status: i32)
        ensures
            final(self)@ == old(self)@,
            status == READY <==> !old(self)@.busy(usecount as int),
    {
        self.quiesce_with(usecount, busy_code())
    }

    /// [`Hello::quiesce`] for a host that knows a busy device by `busy_code`.
    pub fn quiesce_with(&mut self, usecount: i32, busy_code: i32) -> (status: i32)
        ensures
            final(self)@ == old(self)@,
            status == if old(self)@.busy(usecount as int) {
                busy_code
            } else {
                READY
            },
    {
        if self.inner.is_some() && usecount > 0 {
            busy_code
        } else {
            READY
        }
    }

    /// A descriptor was opened on the device. The host counts it; the module has
    /// nothing to do.
    pub fn open(&mut self)
        ensures
            final(self)@ == old(self)@,
    {
    }

    /// A descriptor on the device was closed. The host counts it; the module has
    /// nothing to do.
    pub fn close(&mut self)
        ensures
            final(self)@ == old(self)@,
    {
    }

    /// The bytes to hand to the destination cursor: the whole message of a loaded
    /// module. `None` where the module is not loaded: the read then succeeds
    /// without the cursor being touched.
    pub fn read(&mut self) -> (bytes: Option<Vec<u8>>)
        ensures
            final(self)@ == old(self)@,
            match bytes {
                Some(b) => old(self)@.read() == Some(b@),
                None => old(self)@.read() is None,
            },
    {
        match &self.inner {
            Some(device) => Some(device.read()),
            None => None,
        }
    }

    /// Replaces the message by what the source cursor delivered, and returns the
    /// number of bytes consumed. A module that is not loaded consumes nothing and
    /// succeeds.
    pub fn write<E>(&mut self, source: Result<Vec<u8>, E>) -> (outcome: Result<usize, WriteError<E>>)
        ensures
            final(self)@ == old(self)@.write(drained(source)),
            match outcome {
                Ok(consumed) => old(self)@.write_outcome(drained(source)) == Ok::<nat, WriteError<E>>(consumed as nat),
                Err(e) => old(self)@.write_outcome(drained(source)) == Err::<nat, WriteError<E>>(e),
            },
    {
        match &mut self.inner {
            Some(device) => device.write(source),
            None => Ok(0),
        }
    }
}

impl Default for Hello {
    fn default() -> (module: Hello)
        ensures
            module@ == ModuleState::Unloaded,
    {
        Hello::new()
    }
}

} // verus!
