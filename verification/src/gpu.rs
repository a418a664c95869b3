//! A model of the GPU objects the texture plumbing drives: a device that
//! hands out command encoders, encoders that record copy commands, and a
//! queue that receives finished command buffers.

use vstd::prelude::*;

verus! {

/// A bit set of the ways a texture may be used.
pub type TextureUsage = u32;

/// The texture may be the source of a copy.
pub const TEXTURE_USAGE_COPY_SRC: TextureUsage = 1;

/// The texture may be the destination of a copy.
pub const TEXTURE_USAGE_COPY_DST: TextureUsage = 2;

/// The texture may be sampled from a shader.
pub const TEXTURE_USAGE_SAMPLED: TextureUsage = 4;

/// The texture may be used as a storage texture.
pub const TEXTURE_USAGE_STORAGE: TextureUsage = 8;

/// The texture may be rendered to.
pub const TEXTURE_USAGE_OUTPUT_ATTACHMENT: TextureUsage = 16;

/// A copy command, as recorded by a command encoder.
#[derive(Clone, Copy, Debug, PartialEq, Eq, Structural)]
pub enum Command {
    /// Copy the given number of staged bytes into one array layer of a
    /// texture.
    CopyBufferToTexture { byte_len: usize, array_layer: u32 },
    /// Copy the full contents of a texture, the given number of bytes, into
    /// a readback buffer.
    CopyTextureToBuffer { byte_len: usize },
}

/// Describes a command encoder to be created.
pub struct CommandEncoderDescriptor {}

impl Default for CommandEncoderDescriptor {
    fn default() -> (result: CommandEncoderDescriptor)
        ensures
            result == (CommandEncoderDescriptor {  }),
    {
        CommandEncoderDescriptor {  }
    }
}

/// Records copy commands in order, to be submitted to a queue as one command
/// buffer.
pub struct CommandEncoder {
    commands: Vec<Command>,
}

/// A finished, submittable sequence of commands.
pub struct CommandBuffer {
    commands: Vec<Command>,
}

/// A handle on the GPU, from which encoders are created.
pub struct Device {}

/// Receives finished command buffers for execution, in submission order.
pub struct Queue {
    submitted: Vec<CommandBuffer>,
}

impl CommandEncoder {
    /// The commands recorded so far, in order.
    pub closed spec fn spec_commands(&self) -> Seq<Command> {
        self.commands@
    }

    /// The commands recorded so far, in order.
    pub fn commands(&self) -> (result: &Vec<Command>)
        ensures
            result@ == self.spec_commands(),
    {
        &self.commands
    }

    /// Record one more command.
    pub(crate) fn record(&mut self, command: Command)
        ensures
            final(self).spec_commands() == old(self).spec_commands().push(command),
    {
        self.commands.push(command);
    }

    /// Finish recording: the resulting command buffer carries the recorded
    /// commands unchanged.
    pub fn finish(self) -> (result: CommandBuffer)
        ensures
            result.spec_commands() == self.spec_commands(),
    {
        CommandBuffer { commands: self.commands }
    }
}

impl CommandBuffer {
    /// The commands the buffer carries, in order.
    pub closed spec fn spec_commands(&self) -> Seq<Command> {
        self.commands@
    }

    /// The commands the buffer carries, in order.
    pub fn commands(&self) -> (result: &Vec<Command>)
        ensures
            result@ == self.spec_commands(),
    {
        &self.commands
    }
}

impl Device {
    /// A fresh device handle.
    pub fn new() -> Device {
        Device {  }
    }

    /// Create an encoder with no commands recorded yet.
    pub fn create_command_encoder(&self, descriptor: &CommandEncoderDescriptor) -> (result:
        CommandEncoder)
        ensures
            result.spec_commands() == Seq::<Command>::empty(),
    {
        let encoder = CommandEncoder { commands: Vec::new() };
        encoder
    }
}

impl Queue {
    /// The commands of each command buffer submitted so far, in submission
    /// order.
    pub closed spec fn spec_submitted(&self) -> Seq<Seq<Command>> {
        self.submitted@.map_values(|buffer: CommandBuffer| buffer.spec_commands())
    }

    /// A queue with nothing submitted yet.
    pub fn new() -> (result: Queue)
        ensures
            result.spec_submitted() == Seq::<Seq<Command>>::empty(),
    {
        let queue = Queue { submitted: Vec::new() };
        proof {
            assert(queue.spec_submitted() =~= Seq::<Seq<Command>>::empty());
        }
        queue
    }

    /// The command buffers submitted so far, in submission order.
    pub fn submitted(&self) -> (result: &Vec<CommandBuffer>)
        ensures
            result@.len() == self.spec_submitted().len(),
            forall|i: int| 0 <= i < result@.len() ==> (#[trigger] result@[i]).spec_commands()
                == self.spec_submitted()[i],
    {
        &self.submitted
    }

    /// Submit command buffers for execution, after everything already
    /// submitted.
    pub fn submit(&mut self, buffers: Vec<CommandBuffer>)
        ensures
            final(self).spec_submitted() == old(self).spec_submitted() + buffers@.map_values(
                |buffer: CommandBuffer| buffer.spec_commands(),
            ),
    {
        let ghost submitted0 = self.submitted@;
        let ghost incoming = buffers@;
        let mut buffers = buffers;
        self.submitted.append(&mut buffers);
        proof {
            let to_commands = |buffer: CommandBuffer| buffer.spec_commands();
            assert(self.submitted@.map_values(to_commands) =~= submitted0.map_values(to_commands)
                + incoming.map_values(to_commands));
        }
    }
}

/// A GPU-side buffer holding the bytes of an image read back from a texture.
pub struct BufferBytes {
    bytes: Vec<u8>,
}

impl BufferBytes {
    /// The bytes the buffer holds.
    pub closed spec fn spec_bytes(&self) -> Seq<u8> {
        self.bytes@
    }

    /// Wrap read-back bytes.
    pub(crate) fn from_bytes(bytes: Vec<u8>) -> (result: BufferBytes)
        ensures
            result.spec_bytes() == bytes@,
    {
        BufferBytes { bytes }
    }

    /// The number of bytes the buffer holds.
    pub fn len(&self) -> (result: usize)
        ensures
            result == self.spec_bytes().len(),
    {
        self.bytes.len()
    }

    /// A copy of the bytes the buffer holds.
    pub(crate) fn to_vec(&self) -> (result: Vec<u8>)
        ensures
            result@ == self.spec_bytes(),
    {
        clone_bytes(&self.bytes)
    }
}

/// An exact copy of a byte vector.
pub(crate) fn clone_bytes(bytes: &Vec<u8>) -> (result: Vec<u8>)
    ensures
        result@ == bytes@,
{
    let mut out: Vec<u8> = Vec::new();
    let mut i: usize = 0;
    while i < bytes.len()
        invariant
            i <= bytes@.len(),
            out@ == bytes@.take(i as int),
        decreases bytes@.len() - i,
    {
        out.push(bytes[i]);
        proof {
            assert(out@ =~= bytes@.take(i + 1 as int));
        }
        i = i + 1;
    }
    proof {
        assert(bytes@.take(bytes@.len() as int) =~= bytes@);
    }
    out
}

/// A mapped view of a read-back buffer: its bytes, visible to the host.
pub struct BufferAsyncMapping {
    /// The mapped bytes.
    pub data: Vec<u8>,
}

} // verus!
