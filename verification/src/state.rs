//! The module as a state machine over mathematical values.
//!
//! Every function of the library states its effect through the transitions defined
//! here, and the laws of the library are proved about them.

use vstd::prelude::*;
use vstd::utf8::*;
use crate::error::WriteError;
use crate::text::GREETING;

verus! {

/// What the host's source cursor delivered to a write: all the bytes that were
/// there to read, or the error it failed with.
pub type Drained<E> = Result<Seq<u8>, E>;

/// Whether a write with this source succeeds: the cursor delivered, and what it
/// delivered is well-formed UTF-8.
pub open spec fn accepted<E>(source: Drained<E>) -> bool {
    source matches Ok(bytes) && valid_utf8(bytes)
}

/// The text that a write with this source leaves in the buffer. The buffer is
/// emptied before the source is read, so a write that fails leaves it empty.
pub open spec fn taken<E>(source: Drained<E>) -> Seq<char> {
    match source {
        Ok(bytes) if valid_utf8(bytes) => decode_utf8(bytes),
        _ => Seq::empty(),
    }
}

/// What a write with this source returns on a loaded module: the number of bytes
/// consumed, the cursor's own error, or [`WriteError::InvalidUtf8`].
pub open spec fn result_of<E>(source: Drained<E>) -> Result<nat, WriteError<E>> {
    match source {
        Err(e) => Err(WriteError::Source(e)),
        Ok(bytes) => if valid_utf8(bytes) {
            Ok(bytes.len())
        } else {
            Err(WriteError::InvalidUtf8)
        },
    }
}

/// The state of a registered device: the message in its buffer.
pub struct DeviceState {
    pub message: Seq<char>,
}

impl DeviceState {
    /// The device as registration leaves it: the buffer holds the greeting.
    pub open spec fn fresh() -> DeviceState {
        DeviceState { message: GREETING@ }
    }

    /// The bytes that a read hands to the destination cursor: the whole message.
    pub open spec fn read(self) -> Seq<u8> {
        encode_utf8(self.message)
    }

    /// The device after a write: the old message is gone, whatever the outcome.
    pub open spec fn write<E>(self, source: Drained<E>) -> DeviceState {
        DeviceState { message: taken(source) }
    }
}

/// The state of the module: `Loaded` exactly while its device node is registered.
pub enum ModuleState {
    Unloaded,
    Loaded(DeviceState),
}

impl ModuleState {
    /// The module after the host tried to register the device node. Where the
    /// host refused, the module stays as it was.
    pub open spec fn load(self, registered: bool) -> ModuleState {
        if registered {
            ModuleState::Loaded(DeviceState::fresh())
        } else {
            self
        }
    }

    /// The module after unloading: the device state is released.
    pub open spec fn unload(self) -> ModuleState {
        ModuleState::Unloaded
    }

    /// Whether the module objects to being unloaded while the host counts
    /// `usecount` open descriptors on its device.
    pub open spec fn busy(self, usecount: int) -> bool {
        self is Loaded && usecount > 0
    }

    /// What a read hands to the destination cursor: the message of a loaded
    /// module, and nothing at all, not even an empty transfer, otherwise.
    pub open spec fn read(self) -> Option<Seq<u8>> {
        match self {
            ModuleState::Loaded(device) => Some(device.read()),
            ModuleState::Unloaded => None,
        }
    }

    /// The module after a write. One that is not loaded ignores it.
    pub open spec fn write<E>(self, source: Drained<E>) -> ModuleState {
        match self {
            ModuleState::Loaded(device) => ModuleState::Loaded(device.write(source)),
            ModuleState::Unloaded => ModuleState::Unloaded,
        }
    }

    /// What a write returns. One on a module that is not loaded succeeds, having
    /// consumed nothing.
    pub open spec fn write_outcome<E>(self, source: Drained<E>) -> Result<nat, WriteError<E>> {
        match self {
            ModuleState::Loaded(_) => result_of(source),
            ModuleState::Unloaded => Ok(0),
        }
    }
}

} // verus!
