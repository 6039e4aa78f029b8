//! Shader hot reload: how a shader crate is built, how a finished build
//! travels from the watcher to the render thread through a channel of one
//! slot, and how the active pipeline takes it up.
//!
//! Only the newest build matters. A build that arrives while an older one
//! is still waiting replaces it; a failed build sends nothing.

use vstd::prelude::*;
use crossbeam::channel::{Receiver, Sender, TryRecvError, TrySendError};
use crate::error::StartupError;

verus! {

/// The sending half of a channel of another crate, opaque to the proofs.
#[verifier::external_type_specification]
#[verifier::external_body]
#[verifier::reject_recursive_types(T)]
pub struct ExSender<T>(Sender<T>);

/// The receiving half of a channel of another crate, opaque to the proofs.
#[verifier::external_type_specification]
#[verifier::external_body]
#[verifier::reject_recursive_types(T)]
pub struct ExReceiver<T>(Receiver<T>);

/// A capability that a shader module declares.
#[derive(Clone, Copy, Debug, PartialEq, Eq, Structural)]
pub enum Capability {
    RayTracingKHR,
    ImageQuery,
    Int8,
    Int16,
    Int64,
    RuntimeDescriptorArray,
    Linkage,
}

/// How much the shader compiler prints for the build system.
#[derive(Clone, Copy, Debug, PartialEq, Eq, Structural)]
pub enum MetadataPrintout {
    Nothing,
    DependencyOnly,
    Full,
}

/// The target every shader is compiled for.
pub const SHADER_TARGET: &'static str = "spirv-unknown-vulkan1.2";

/// The extension that ray tracing shaders need.
pub const EXTENSION_RAY_TRACING: &'static str = "SPV_KHR_ray_tracing";

/// The extension that arrays of descriptors of unknown length need.
pub const EXTENSION_DESCRIPTOR_INDEXING: &'static str = "SPV_EXT_descriptor_indexing";

/// The settings of one shader build.
#[derive(Debug)]
pub struct ShaderBuildConfig {
    pub path_to_crate: String,
    pub target: &'static str,
    pub capabilities: Vec<Capability>,
    pub extensions: Vec<&'static str>,
    pub name_variables: bool,
    pub scalar_block_layout: bool,
    pub print_metadata: MetadataPrintout,
}

/// The capabilities every shader of the renderer is built with, in the
/// order in which they are declared.
pub open spec fn shader_capabilities() -> Seq<Capability> {
    seq![
        Capability::RayTracingKHR,
        Capability::ImageQuery,
        Capability::Int8,
        Capability::Int16,
        Capability::Int64,
        Capability::RuntimeDescriptorArray,
        Capability::Linkage,
    ]
}

/// The settings with which the shader crate at `path_to_crate` is built:
/// for Vulkan 1.2, with the capabilities and the two extensions that ray
/// tracing over arrays of descriptors needs, with scalar block layout,
/// without variable names and without metadata output.
pub fn spirv_builder(path_to_crate: &str) -> (config: ShaderBuildConfig)
    ensures
        config.path_to_crate@ == path_to_crate@,
        config.target@ == SHADER_TARGET@,
        config.capabilities@ == shader_capabilities(),
        config.extensions@.len() == 2,
        config.extensions@[0]@ == EXTENSION_RAY_TRACING@,
        config.extensions@[1]@ == EXTENSION_DESCRIPTOR_INDEXING@,
        !config.name_variables,
        config.scalar_block_layout,
        config.print_metadata == MetadataPrintout::Nothing,
{
    let mut capabilities: Vec<Capability> = Vec::new();
    capabilities.push(Capability::RayTracingKHR);
    capabilities.push(Capability::ImageQuery);
    capabilities.push(Capability::Int8);
    capabilities.push(Capability::Int16);
    capabilities.push(Capability::Int64);
    capabilities.push(Capability::RuntimeDescriptorArray);
    capabilities.push(Capability::Linkage);
    let mut extensions: Vec<&'static str> = Vec::new();
    extensions.push(EXTENSION_RAY_TRACING);
    extensions.push(EXTENSION_DESCRIPTOR_INDEXING);
    proof {
        assert(capabilities@ =~= shader_capabilities());
    }
    ShaderBuildConfig {
        path_to_crate: path_to_crate.to_owned(),
        target: SHADER_TARGET,
        capabilities,
        extensions,
        name_variables: false,
        scalar_block_layout: true,
        print_metadata: MetadataPrintout::Nothing,
    }
}

/// What one run of the shader compiler came to: the bytes of the compiled
/// module, or nothing.
#[derive(Debug)]
pub enum CompileResult {
    Module(Vec<u8>),
    Failed,
}

/// The bytecode that a compile result puts into the channel, if any.
pub open spec fn published(result: CompileResult) -> Option<Seq<u8>> {
    match result {
        CompileResult::Module(bytes) => Some(bytes@),
        CompileResult::Failed => None,
    }
}

/// The first build of a shader. Rendering cannot start without it, so a
/// failure here is a failure of startup.
pub fn initial_build(first: CompileResult) -> (r: Result<Vec<u8>, StartupError>)
    ensures
        r matches Ok(bytes) ==> published(first) == Some(bytes@),
        r is Err ==> published(first) is None && r == Err::<Vec<u8>, StartupError>(
            StartupError::InitialShaderBuildFailed,
        ),
{
    match first {
        CompileResult::Module(bytes) => Ok(bytes),
        CompileResult::Failed => Err(StartupError::InitialShaderBuildFailed),
    }
}

/// What an attempt to send without waiting came to. A message that was not
/// sent comes back.
#[derive(Debug)]
pub enum SendOutcome {
    Sent,
    Full(Vec<u8>),
    Disconnected(Vec<u8>),
}

/// What an attempt to receive without waiting came to.
#[derive(Debug)]
pub enum RecvOutcome {
    Received(Vec<u8>),
    Empty,
    Disconnected,
}

/// What an attempt to send came to, without the message.
#[derive(Clone, Copy, Debug, PartialEq, Eq, Structural)]
pub enum SendStatus {
    Sent,
    Full,
    Disconnected,
}

/// What became of a build handed to the channel.
#[derive(Clone, Copy, Debug, PartialEq, Eq, Structural)]
pub enum PublishOutcome {
    /// The build failed, so there was nothing to send.
    NothingToPublish,
    /// The slot was free and holds the build now.
    Published,
    /// The slot held an older build, which made way for this one.
    Replaced,
    /// The slot was taken again before this build could get in.
    Superseded,
    /// Nobody listens any more.
    Closed,
}

/// The number of messages that the channel of a sending half was made to
/// hold at most, if it was made with such a limit.
pub uninterp spec fn sender_capacity(tx: Sender<Vec<u8>>) -> Option<usize>;

/// The number of messages that the channel of a receiving half was made
/// to hold at most, if it was made with such a limit.
pub uninterp spec fn receiver_capacity(rx: Receiver<Vec<u8>>) -> Option<usize>;

/// `crossbeam::channel::bounded`: makes a channel that holds at most `cap`
/// messages. Claimed: both halves belong to a channel with this limit.
/// Capacities beyond 65535 are left out: the channel allocates every slot
/// at once and refuses capacities near the top of the range.
#[verifier::external_body]
fn bounded_bytes(cap: usize) -> (halves: (Sender<Vec<u8>>, Receiver<Vec<u8>>))
    requires
        cap <= 0xFFFF,
    ensures
        sender_capacity(halves.0) == Some(cap),
        receiver_capacity(halves.1) == Some(cap),
{
    crossbeam::channel::bounded(cap)
}

/// `Sender::clone`: another handle on the same channel. Claimed: it has
/// the limit of the channel it was cloned from.
#[verifier::external_body]
fn clone_sender(tx: &Sender<Vec<u8>>) -> (other: Sender<Vec<u8>>)
    ensures
        sender_capacity(other) == sender_capacity(*tx),
{
    tx.clone()
}

/// `Receiver::clone`: another handle on the same channel. Claimed: it has
/// the limit of the channel it was cloned from.
#[verifier::external_body]
fn clone_receiver(rx: &Receiver<Vec<u8>>) -> (other: Receiver<Vec<u8>>)
    ensures
        receiver_capacity(other) == receiver_capacity(*rx),
{
    rx.clone()
}

/// `Sender::capacity`: the limit that the channel was made with.
#[verifier::external_body]
fn capacity_of_sender(tx: &Sender<Vec<u8>>) -> (limit: Option<usize>)
    ensures
        limit == sender_capacity(*tx),
{
    tx.capacity()
}

/// `Receiver::capacity`: the limit that the channel was made with.
#[verifier::external_body]
fn capacity_of_receiver(rx: &Receiver<Vec<u8>>) -> (limit: Option<usize>)
    ensures
        limit == receiver_capacity(*rx),
{
    rx.capacity()
}

/// `Sender::try_send`: sends at once or not at all. Claimed: a message that
/// was not sent is handed back as it was.
#[verifier::external_body]
fn try_send_bytes(tx: &Sender<Vec<u8>>, bytes: Vec<u8>) -> (outcome: SendOutcome)
    ensures
        outcome matches SendOutcome::Full(back) ==> back@ == bytes@,
        outcome matches SendOutcome::Disconnected(back) ==> back@ == bytes@,
{
    match tx.try_send(bytes) {
        Ok(()) => SendOutcome::Sent,
        Err(TrySendError::Full(back)) => SendOutcome::Full(back),
        Err(TrySendError::Disconnected(back)) => SendOutcome::Disconnected(back),
    }
}

/// `Receiver::try_recv`: receives at once or not at all. What comes back
/// depends on the other threads, so nothing is claimed of it.
#[verifier::external_body]
fn try_recv_bytes(rx: &Receiver<Vec<u8>>) -> (outcome: RecvOutcome) {
    match rx.try_recv() {
        Ok(bytes) => RecvOutcome::Received(bytes),
        Err(TryRecvError::Empty) => RecvOutcome::Empty,
        Err(TryRecvError::Disconnected) => RecvOutcome::Disconnected,
    }
}

/// What became of a build, given what the first attempt to send it came to
/// and, after a full slot was emptied, what the second one came to.
pub open spec fn publish_verdict(first: SendStatus, retry: SendStatus) -> PublishOutcome {
    match first {
        SendStatus::Sent => PublishOutcome::Published,
        SendStatus::Disconnected => PublishOutcome::Closed,
        SendStatus::Full => match retry {
            SendStatus::Sent => PublishOutcome::Replaced,
            SendStatus::Full => PublishOutcome::Superseded,
            SendStatus::Disconnected => PublishOutcome::Closed,
        },
    }
}

/// Says what became of a build from what the attempts to send it came to.
pub fn judge_publish(first: SendStatus, retry: SendStatus) -> (outcome: PublishOutcome)
    ensures
        outcome == publish_verdict(first, retry),
{
    match first {
        SendStatus::Sent => PublishOutcome::Published,
        SendStatus::Disconnected => PublishOutcome::Closed,
        SendStatus::Full => match retry {
            SendStatus::Sent => PublishOutcome::Replaced,
            SendStatus::Full => PublishOutcome::Superseded,
            SendStatus::Disconnected => PublishOutcome::Closed,
        },
    }
}

/// The bytecode that a poll hands to the pipeline: what was received, and
/// nothing if the slot was empty or the watcher is gone.
pub open spec fn polled_bytecode(outcome: RecvOutcome) -> Option<Seq<u8>> {
    match outcome {
        RecvOutcome::Received(bytes) => Some(bytes@),
        RecvOutcome::Empty => None,
        RecvOutcome::Disconnected => None,
    }
}

/// Turns what a receive came to into the bytecode to take up, if any. A
/// watcher that is gone looks like one that has nothing new.
pub fn take_polled(outcome: RecvOutcome) -> (bytes: Option<Vec<u8>>)
    ensures
        bytes is Some <==> polled_bytecode(outcome) is Some,
        bytes matches Some(b) ==> polled_bytecode(outcome) == Some(b@),
{
    match outcome {
        RecvOutcome::Received(bytes) => Some(bytes),
        RecvOutcome::Empty => None,
        RecvOutcome::Disconnected => None,
    }
}

/// The watcher's end of the shader channel.
pub struct ShaderSender {
    tx: Sender<Vec<u8>>,
    drain: Receiver<Vec<u8>>,
}

/// The render thread's end of the shader channel.
pub struct ShaderReceiver {
    rx: Receiver<Vec<u8>>,
}

/// Makes the channel of one slot that carries builds from the watcher to
/// the render thread: each end belongs to a channel that holds at most one
/// build, and the sending end can take out of the slot what waits in it.
pub fn shader_channel() -> (ends: (ShaderSender, ShaderReceiver))
    ensures
        ends.0.wf(),
        ends.0.slots() == Some(1usize),
        ends.1.slots() == Some(1usize),
{
    let (tx, rx) = bounded_bytes(1);
    let drain = clone_receiver(&rx);
    (ShaderSender { tx, drain }, ShaderReceiver { rx })
}

impl ShaderSender {
    /// The number of builds that the channel holds at most.
    pub closed spec fn slots(&self) -> Option<usize> {
        sender_capacity(self.tx)
    }

    /// Whether the handle through which this end takes a stale build out
    /// of the slot belongs to a channel of as many slots as the handle
    /// through which it sends.
    pub closed spec fn wf(&self) -> bool {
        receiver_capacity(self.drain) == sender_capacity(self.tx)
    }

    /// The number of builds that the channel holds at most.
    pub fn capacity(&self) -> (limit: Option<usize>)
        ensures
            limit == self.slots(),
    {
        capacity_of_sender(&self.tx)
    }

    /// Another handle on the same end, for the watcher's thread. It is an
    /// end of a channel of as many slots, and sound if this one is.
    pub fn duplicate(&self) -> (other: ShaderSender)
        ensures
            other.slots() == self.slots(),
            self.wf() ==> other.wf(),
    {
        ShaderSender { tx: clone_sender(&self.tx), drain: clone_receiver(&self.drain) }
    }

    /// Puts a build into the slot without waiting. If the slot is full, the
    /// build in it is stale: it is taken out and this one is sent again.
    ///
    /// What comes of it depends on the other end; it is never
    /// `NothingToPublish`.
    pub fn publish(&self, bytecode: Vec<u8>) -> (outcome: PublishOutcome)
        ensures
            outcome != PublishOutcome::NothingToPublish,
    {
        match try_send_bytes(&self.tx, bytecode) {
            SendOutcome::Sent => judge_publish(SendStatus::Sent, SendStatus::Sent),
            SendOutcome::Disconnected(_) => judge_publish(
                SendStatus::Disconnected,
                SendStatus::Disconnected,
            ),
            SendOutcome::Full(back) => {
                let _stale = try_recv_bytes(&self.drain);
                let retry = match try_send_bytes(&self.tx, back) {
                    SendOutcome::Sent => SendStatus::Sent,
                    SendOutcome::Full(_) => SendStatus::Full,
                    SendOutcome::Disconnected(_) => SendStatus::Disconnected,
                };
                judge_publish(SendStatus::Full, retry)
            },
        }
    }
}

impl ShaderReceiver {
    /// The number of builds that the channel holds at most.
    pub closed spec fn slots(&self) -> Option<usize> {
        receiver_capacity(self.rx)
    }

    /// The number of builds that the channel holds at most.
    pub fn capacity(&self) -> (limit: Option<usize>)
        ensures
            limit == self.slots(),
    {
        capacity_of_receiver(&self.rx)
    }

    /// Looks into the slot without waiting and takes the build out of it,
    /// if there is one. Whether there is one depends on the watcher.
    pub fn poll(&self) -> (bytes: Option<Vec<u8>>) {
        take_polled(try_recv_bytes(&self.rx))
    }
}

/// Hands the result of a build to the channel: the module of a build that
/// succeeded is published, a failed build sends nothing.
pub fn handle_shader_compile(compile_result: CompileResult, tx: &ShaderSender) -> (outcome:
    PublishOutcome)
    ensures
        outcome == PublishOutcome::NothingToPublish <==> published(compile_result) is None,
{
    match compile_result {
        CompileResult::Module(bytes) => tx.publish(bytes),
        CompileResult::Failed => PublishOutcome::NothingToPublish,
    }
}

/// The bytecode of the active pipeline after an update that polled
/// `polled`: the polled bytecode if there is one, else what it was.
pub open spec fn pipeline_after(active: Seq<u8>, polled: Option<Seq<u8>>) -> Seq<u8> {
    match polled {
        Some(bytes) => bytes,
        None => active,
    }
}

/// A build that failed publishes nothing, and an update that polls nothing
/// leaves the bytecode of the active pipeline as it is, byte for byte. A
/// build that succeeded publishes its module, and an update that polls it
/// makes it the bytecode of the active pipeline.
pub proof fn law_only_successful_builds_replace_the_pipeline(active: Seq<u8>, result: CompileResult)
    ensures
        result is Failed ==> pipeline_after(active, published(result)) == active,
        result matches CompileResult::Module(bytes) ==> pipeline_after(active, published(result))
            == bytes@,
{
}

} // verus!
