//! The mount service of the storage device: it collects a file name
//! character by character, checks it, and says which file operation a
//! command asks for.
//!
//! Port `0x0D` takes the characters of the name, port `0x0E` a command
//! (`0x01` mount, `0x02` unmount, `0x03` query), port `0x0F` reads the
//! status (`0x00` done or mounted, `0x01` not found or not mounted,
//! `0x02` invalid name).

use vstd::prelude::*;

verus! {

/// Port that takes the characters of the file name.
pub const MOUNT_PORT_NAME: u8 = 0x0D;

/// Port that takes commands.
pub const MOUNT_PORT_CONTROL: u8 = 0x0E;

/// Port that reads the status.
pub const MOUNT_PORT_STATUS: u8 = 0x0F;

/// Command: mount the file named.
pub const MOUNT_COMMAND_MOUNT: u8 = 0x01;

/// Command: unmount the file.
pub const MOUNT_COMMAND_UNMOUNT: u8 = 0x02;

/// Command: report whether a file is mounted.
pub const MOUNT_COMMAND_QUERY: u8 = 0x03;

/// Status: the command succeeded, or a file is mounted.
pub const MOUNT_STATUS_OK: u8 = 0x00;

/// Status: the file could not be opened, or no file is mounted.
pub const MOUNT_STATUS_NOT_FOUND: u8 = 0x01;

/// Status: the name is empty, too long, or holds a character that is
/// not allowed.
pub const MOUNT_STATUS_INVALID: u8 = 0x02;

/// Greatest length of a file name, an 8.3 name.
pub const MOUNT_NAME_LIMIT: usize = 12;

/// What a write to a port of the mount service asks for.
#[derive(Debug, Clone, Copy, PartialEq, Eq, Structural)]
pub enum MountCommand {
    /// Nothing beyond the registers.
    Nothing,
    /// The file with the name collected is to be mounted.
    Mount,
    /// The file is to be unmounted.
    Unmount,
    /// The service is to be told whether a file is mounted.
    Query,
}

/// Whether a byte may stand in a file name: an ASCII letter or digit, a
/// dot, a hyphen or an underscore.
pub open spec fn name_byte_allowed(byte: u8) -> bool {
    ||| 0x30 <= byte <= 0x39
    ||| 0x41 <= byte <= 0x5A
    ||| 0x61 <= byte <= 0x7A
    ||| byte == 0x2E
    ||| byte == 0x2D
    ||| byte == 0x5F
}

/// Whether a name can be mounted: it has one to twelve bytes, each of
/// them allowed.
pub open spec fn name_valid(name: Seq<u8>) -> bool {
    &&& 0 < name.len() <= MOUNT_NAME_LIMIT
    &&& forall|index: int| 0 <= index < name.len() ==> name_byte_allowed(#[trigger] name[index])
}

/// The registers of the mount service.
pub struct MountService {
    filename_buffer: Vec<u8>,
    status: u8,
}

/// The registers of the mount service, as a value.
pub struct MountState {
    /// The characters of the name collected so far.
    pub name: Seq<u8>,
    pub status: u8,
}

impl MountState {
    /// What a write of `value` to `port` asks for. A mount command asks
    /// for a mount only where the name collected is valid.
    pub open spec fn command(self, port: u8, value: u8) -> MountCommand {
        if port != MOUNT_PORT_CONTROL {
            MountCommand::Nothing
        } else if value == MOUNT_COMMAND_MOUNT && name_valid(self.name) {
            MountCommand::Mount
        } else if value == MOUNT_COMMAND_UNMOUNT {
            MountCommand::Unmount
        } else if value == MOUNT_COMMAND_QUERY {
            MountCommand::Query
        } else {
            MountCommand::Nothing
        }
    }

    /// The registers after a write of `value` to `port`. A character
    /// joins the name unless it is zero or the name is full. A mount
    /// command with an invalid name sets the status and forgets the
    /// name; with a valid name it keeps the name for the mount. An
    /// unmount command sets the status to done.
    pub open spec fn after_write(self, port: u8, value: u8) -> MountState {
        if port == MOUNT_PORT_NAME {
            if value != 0 && self.name.len() < MOUNT_NAME_LIMIT {
                MountState { name: self.name.push(value), ..self }
            } else {
                self
            }
        } else if port == MOUNT_PORT_CONTROL && value == MOUNT_COMMAND_MOUNT && !name_valid(self.name) {
            MountState { name: Seq::empty(), status: MOUNT_STATUS_INVALID }
        } else if port == MOUNT_PORT_CONTROL && value == MOUNT_COMMAND_UNMOUNT {
            MountState { status: MOUNT_STATUS_OK, ..self }
        } else {
            self
        }
    }

    /// The registers after a mount was tried: the status says whether
    /// the file was opened, and the name is forgotten.
    pub open spec fn after_mount(self, opened: bool) -> MountState {
        MountState {
            name: Seq::empty(),
            status: if opened {
                MOUNT_STATUS_OK
            } else {
                MOUNT_STATUS_NOT_FOUND
            },
        }
    }

    /// The registers after a query was answered.
    pub open spec fn after_query(self, mounted: bool) -> MountState {
        MountState {
            status: if mounted {
                MOUNT_STATUS_OK
            } else {
                MOUNT_STATUS_NOT_FOUND
            },
            ..self
        }
    }

    /// The byte a read of `port` returns: the status on the status port,
    /// `0xFF` elsewhere.
    pub open spec fn port_value(self, port: u8) -> u8 {
        if port == MOUNT_PORT_STATUS {
            self.status
        } else {
            0xFF
        }
    }
}

impl View for MountService {
    type V = MountState;

    /// The registers of the service.
    closed spec fn view(&self) -> MountState {
        MountState { name: self.filename_buffer@, status: self.status }
    }
}

/// Whether a byte may stand in a file name.
pub fn is_name_byte(byte: u8) -> (allowed: bool)
    ensures
        allowed == name_byte_allowed(byte),
{
    (byte >= 0x30 && byte <= 0x39) || (byte >= 0x41 && byte <= 0x5A) || (byte >= 0x61 && byte <= 0x7A)
        || byte == 0x2E || byte == 0x2D || byte == 0x5F
}

/// Whether a name can be mounted.
pub fn is_valid_name(name: &[u8]) -> (valid: bool)
    ensures
        valid == name_valid(name@),
{
    if name.len() == 0 || name.len() > MOUNT_NAME_LIMIT {
        return false;
    }
    let mut index: usize = 0;
    while index < name.len()
        invariant
            index <= name.len(),
            forall|checked: int| 0 <= checked < index ==> name_byte_allowed(#[trigger] name@[checked]),
        decreases name.len() - index,
    {
        if !is_name_byte(name[index]) {
            return false;
        }
        index = index + 1;
    }
    true
}

impl MountService {
    /// A service with no name collected and the status done.
    pub fn new() -> (service: Self)
        ensures
            service@ == (MountState { name: Seq::empty(), status: MOUNT_STATUS_OK }),
    {
        MountService { filename_buffer: Vec::new(), status: MOUNT_STATUS_OK }
    }

    /// The name collected so far.
    pub fn name(&self) -> (name: &[u8])
        ensures
            name@ == self@.name,
    {
        self.filename_buffer.as_slice()
    }

    /// Reads `port`.
    pub fn read(&self, port: u8) -> (value: u8)
        ensures
            value == self@.port_value(port),
    {
        if port == MOUNT_PORT_STATUS {
            self.status
        } else {
            0xFF
        }
    }

    /// Takes a write of `value` to `port` into the registers and says
    /// what it asks for. After [`MountCommand::Mount`] the name is kept
    /// until [`MountService::finish_mount`] reports the outcome; after
    /// [`MountCommand::Query`] the answer goes to
    /// [`MountService::finish_query`].
    pub fn write(&mut self, port: u8, value: u8) -> (command: MountCommand)
        ensures
            command == old(self)@.command(port, value),
            final(self)@ == old(self)@.after_write(port, value),
    {
        if port == MOUNT_PORT_NAME {
            if value != 0 && self.filename_buffer.len() < MOUNT_NAME_LIMIT {
                self.filename_buffer.push(value);
            }
            MountCommand::Nothing
        } else if port == MOUNT_PORT_CONTROL {
            if value == MOUNT_COMMAND_MOUNT {
                if is_valid_name(self.filename_buffer.as_slice()) {
                    MountCommand::Mount
                } else {
                    self.status = MOUNT_STATUS_INVALID;
                    self.filename_buffer.clear();
                    MountCommand::Nothing
                }
            } else if value == MOUNT_COMMAND_UNMOUNT {
                self.status = MOUNT_STATUS_OK;
                MountCommand::Unmount
            } else if value == MOUNT_COMMAND_QUERY {
                MountCommand::Query
            } else {
                MountCommand::Nothing
            }
        } else {
            MountCommand::Nothing
        }
    }

    /// Takes note of how a mount went and forgets the name.
    pub fn finish_mount(&mut self, opened: bool)
        ensures
            final(self)@ == old(self)@.after_mount(opened),
    {
        self.status = if opened { MOUNT_STATUS_OK } else { MOUNT_STATUS_NOT_FOUND };
        self.filename_buffer.clear();
    }

    /// Takes note of the answer to a query.
    pub fn finish_query(&mut self, mounted: bool)
        ensures
            final(self)@ == old(self)@.after_query(mounted),
    {
        self.status = if mounted { MOUNT_STATUS_OK } else { MOUNT_STATUS_NOT_FOUND };
    }
}

} // verus!
