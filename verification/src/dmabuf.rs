//! Graphics buffers that pass from the server to the client: which one is current on either side.
use crate::file_descriptor_channel::DmabufDescriptor;
use vstd::prelude::*;

verus! {

/// The texture of the newest buffer, together with the number of that buffer.
#[derive(Clone, Copy, Debug, PartialEq, Eq, Structural)]
pub struct DmabufTextureCache {
    generation: Option<u32>,
    texture: u32,
}

impl View for DmabufTextureCache {
    type V = Option<(u32, u32)>;

    /// The number of the buffer and its texture, if there is one.
    closed spec fn view(&self) -> Option<(u32, u32)> {
        match self.generation {
            Some(generation) => Some((generation, self.texture)),
            None => None,
        }
    }
}

impl DmabufTextureCache {
    /// A cache without a texture.
    pub fn new() -> (cache: DmabufTextureCache)
        ensures
            cache@ is None,
    {
        DmabufTextureCache { generation: None, texture: 0 }
    }

    /// Keeps the texture of a newer buffer in place of what was kept.
    pub fn store(&mut self, generation: u32, texture: u32)
        ensures
            final(self)@ == Some((generation, texture)),
    {
        self.generation = Some(generation);
        self.texture = texture;
    }

    /// The texture of the buffer with the given number, if it is the one that is kept.
    pub fn texture_for_generation(&self, generation: u32) -> (texture: Option<u32>)
        ensures
            texture == found(self@, generation),
    {
        match self.generation {
            Some(kept) => if kept == generation {
                Some(self.texture)
            } else {
                None
            },
            None => None,
        }
    }

    /// The number of the buffer whose texture is kept.
    pub fn current_generation(&self) -> (generation: Option<u32>)
        ensures
            generation == match self@ {
                Some((kept, _)) => Some(kept),
                None => None,
            },
    {
        self.generation
    }
}

impl Default for DmabufTextureCache {
    fn default() -> (cache: DmabufTextureCache)
        ensures
            cache@ is None,
    {
        DmabufTextureCache::new()
    }
}

/// Which thread imports textures. All of them have to come from one.
#[derive(Clone, Copy, Debug, PartialEq, Eq, Structural)]
pub struct ImportThread {
    /// The mark of the first thread, 0 before there was one.
    pub first: u64,
}

impl ImportThread {
    /// Which thread is taken for the importing one once the given one imports, and whether it is another
    /// one than before.
    pub open spec fn importing(self, current: u64) -> (ImportThread, bool) {
        if self.first == 0 {
            (ImportThread { first: current }, false)
        } else {
            (self, self.first != current)
        }
    }

    /// Before the first import.
    pub fn new() -> (thread: ImportThread)
        ensures
            thread.first == 0,
    {
        ImportThread { first: 0 }
    }

    /// Takes note of the thread that imports now, and says whether it is another one than before.
    pub fn warn_if_calling_thread_changed(&mut self, current: u64) -> (changed: bool)
        ensures
            (*final(self), changed) == old(self).importing(current),
    {
        if self.first == 0 {
            self.first = current;
            false
        } else {
            self.first != current
        }
    }
}

/// What is to be done with a frame that was drawn into the server's output buffer.
#[derive(Clone, Copy, Debug, PartialEq, Eq, Structural)]
pub enum PublishStep {
    /// The client has this buffer: the frame can be announced.
    Announce,
    /// The buffer is new to the client: it is to be sent first.
    Send,
    /// The buffer is new to the client, and the client is not connected yet: nothing can be done.
    Wait,
}

/// Which buffer the client has.
#[derive(Clone, Copy, Debug, PartialEq, Eq, Structural)]
pub struct DmabufPublisher {
    /// The number of the buffer that was sent last, 0 before the first.
    pub sent_generation: u32,
}

/// What is to be done with a frame in the given buffer.
pub open spec fn step_for(
    publisher: DmabufPublisher,
    descriptor: DmabufDescriptor,
    connected: bool,
) -> PublishStep {
    if publisher.sent_generation == descriptor.generation {
        PublishStep::Announce
    } else if connected {
        PublishStep::Send
    } else {
        PublishStep::Wait
    }
}

/// Which buffer the client has after an attempt to send one.
pub open spec fn after_sending(
    publisher: DmabufPublisher,
    descriptor: DmabufDescriptor,
    success: bool,
) -> DmabufPublisher {
    if success {
        DmabufPublisher { sent_generation: descriptor.generation }
    } else {
        publisher
    }
}

impl DmabufPublisher {
    /// Before anything was sent.
    pub fn new() -> (publisher: DmabufPublisher)
        ensures
            publisher.sent_generation == 0,
    {
        DmabufPublisher { sent_generation: 0 }
    }

    /// Decides about a frame in the given buffer.
    pub fn next_step(&self, descriptor: &DmabufDescriptor, connected: bool) -> (step: PublishStep)
        ensures
            step == step_for(*self, *descriptor, connected),
    {
        if self.sent_generation == descriptor.generation {
            PublishStep::Announce
        } else if connected {
            PublishStep::Send
        } else {
            PublishStep::Wait
        }
    }

    /// Takes note of whether sending a buffer succeeded; only then its frame can be announced.
    pub fn sent(&mut self, descriptor: &DmabufDescriptor, success: bool) -> (announce: bool)
        ensures
            announce == success,
            *final(self) == after_sending(*old(self), *descriptor, success),
    {
        if success {
            self.sent_generation = descriptor.generation;
        }
        success
    }
}

/// Why a pool of buffers could not be set up.
pub open spec fn failure_stage(stage: i32) -> Seq<char> {
    match stage {
        1 => "レンダーノードを開けない (/dev/dri/renderD128)"@,
        2 => "gbm_create_device に失敗"@,
        3 => "eglGetPlatformDisplayEXT が取れない"@,
        4 => "eglGetPlatformDisplay(GBM) に失敗"@,
        5 => "eglInitialize に失敗"@,
        6 => "eglChooseConfig に失敗"@,
        7 => "eglCreateContext に失敗"@,
        8 => "eglMakeCurrent に失敗"@,
        9 => "EGL/GL の拡張関数が取れない"@,
        _ => "不明"@,
    }
}

/// Why a pool of buffers could not be set up, by the stage at which that failed.
pub fn failure_stage_name(stage: i32) -> (name: &'static str)
    ensures
        name@ == failure_stage(stage),
{
    match stage {
        1 => "レンダーノードを開けない (/dev/dri/renderD128)",
        2 => "gbm_create_device に失敗",
        3 => "eglGetPlatformDisplayEXT が取れない",
        4 => "eglGetPlatformDisplay(GBM) に失敗",
        5 => "eglInitialize に失敗",
        6 => "eglChooseConfig に失敗",
        7 => "eglCreateContext に失敗",
        8 => "eglMakeCurrent に失敗",
        9 => "EGL/GL の拡張関数が取れない",
        _ => "不明",
    }
}

/// The texture that is found under a number, in what a cache keeps.
pub open spec fn found(kept: Option<(u32, u32)>, asked: u32) -> Option<u32> {
    match kept {
        Some((generation, texture)) if generation == asked => Some(texture),
        _ => None,
    }
}

/// A buffer's texture is found under its number until the next buffer comes, and under no other:
/// whatever is kept after a texture was stored, only that texture is found.
pub proof fn law_only_the_newest_generation_is_found(
    earlier: u32,
    generation: u32,
    texture: u32,
    asked: u32,
)
    requires
        earlier != generation,
    ensures
        found(Some((generation, texture)), generation) == Some(texture),
        found(Some((generation, texture)), earlier) is None,
        found(None, asked) is None,
{
}

/// An attempt to send a buffer.
pub struct Attempt {
    pub descriptor: DmabufDescriptor,
    pub success: bool,
}

/// Which buffer the client has once all of some attempts were made.
pub open spec fn after_all(attempts: Seq<Attempt>) -> DmabufPublisher
    decreases attempts.len(),
{
    if attempts.len() == 0 {
        DmabufPublisher { sent_generation: 0 }
    } else {
        after_sending(
            after_all(attempts.drop_last()),
            attempts.last().descriptor,
            attempts.last().success,
        )
    }
}

/// A frame is announced only if its buffer was sent, and no other one after it: however the
/// attempts to send went, the last one that succeeded was for this buffer.
pub proof fn law_nothing_is_announced_unsent(
    attempts: Seq<Attempt>,
    descriptor: DmabufDescriptor,
    connected: bool,
)
    requires
        descriptor.generation != 0,
        step_for(after_all(attempts), descriptor, connected) == PublishStep::Announce,
    ensures
        exists|i: int|
            {
                &&& 0 <= i < attempts.len()
                &&& (#[trigger] attempts[i]).success
                &&& attempts[i].descriptor.generation == descriptor.generation
                &&& forall|j: int| i < j < attempts.len() ==> !(#[trigger] attempts[j]).success
            },
    decreases attempts.len(),
{
    if attempts.len() > 0 {
        let last = attempts.len() - 1;
        if attempts.last().success {
            assert(attempts[last].success);
        } else {
            let shorter = attempts.drop_last();
            law_nothing_is_announced_unsent(shorter, descriptor, connected);
            let i = choose|i: int|
                {
                    &&& 0 <= i < shorter.len()
                    &&& (#[trigger] shorter[i]).success
                    &&& shorter[i].descriptor.generation == descriptor.generation
                    &&& forall|j: int| i < j < shorter.len() ==> !(#[trigger] shorter[j]).success
                };
            assert(attempts[i].success);
            assert forall|j: int| i < j < attempts.len() implies !(#[trigger] attempts[j]).success by {
                if j < last {
                    assert(shorter[j] == attempts[j]);
                }
            }
        }
    }
}

/// A buffer that was sent is not sent again: its further frames are announced at once.
pub proof fn law_buffer_is_sent_once(
    publisher: DmabufPublisher,
    descriptor: DmabufDescriptor,
    connected: bool,
)
    ensures
        step_for(after_sending(publisher, descriptor, true), descriptor, connected)
            == PublishStep::Announce,
{
}

/// The thread that imports first is the one that is expected from then on: every other one is noticed each
/// time it imports, and the first one never is.
pub proof fn law_first_thread_is_expected(first: u64, second: u64, third: u64)
    requires
        first != 0,
    ensures
        ({
            let (after_first, changed_first) = ImportThread { first: 0 }.importing(first);
            let (after_second, changed_second) = after_first.importing(second);
            let (after_third, changed_third) = after_second.importing(third);
            &&& !changed_first
            &&& changed_second <==> second != first
            &&& changed_third <==> third != first
        }),
{
}

/// A buffer that is new to the client is sent if the client is connected, and waits otherwise; one that the
/// client has is announced even while it is not.
pub proof fn law_new_buffer_is_sent(
    publisher: DmabufPublisher,
    descriptor: DmabufDescriptor,
    connected: bool,
)
    ensures
        publisher.sent_generation != descriptor.generation ==> step_for(publisher, descriptor, true)
            == PublishStep::Send && step_for(publisher, descriptor, false) == PublishStep::Wait,
        publisher.sent_generation == descriptor.generation ==> step_for(
            publisher,
            descriptor,
            connected,
        ) == PublishStep::Announce,
{
}

/// A buffer that could not be sent is still new to the client: it is sent again.
pub proof fn law_failed_sending_is_repeated(
    publisher: DmabufPublisher,
    descriptor: DmabufDescriptor,
)
    requires
        publisher.sent_generation != descriptor.generation,
    ensures
        after_sending(publisher, descriptor, false) == publisher,
        step_for(after_sending(publisher, descriptor, false), descriptor, true) == PublishStep::Send,
{
}

/// Each stage of setting up a pool has words of its own, and every other number is unknown.
pub proof fn law_stages_have_their_words(stage: i32)
    ensures
        stage == 1 ==> failure_stage(stage) == "レンダーノードを開けない (/dev/dri/renderD128)"@,
        stage == 2 ==> failure_stage(stage) == "gbm_create_device に失敗"@,
        stage == 3 ==> failure_stage(stage) == "eglGetPlatformDisplayEXT が取れない"@,
        stage == 4 ==> failure_stage(stage) == "eglGetPlatformDisplay(GBM) に失敗"@,
        stage == 5 ==> failure_stage(stage) == "eglInitialize に失敗"@,
        stage == 6 ==> failure_stage(stage) == "eglChooseConfig に失敗"@,
        stage == 7 ==> failure_stage(stage) == "eglCreateContext に失敗"@,
        stage == 8 ==> failure_stage(stage) == "eglMakeCurrent に失敗"@,
        stage == 9 ==> failure_stage(stage) == "EGL/GL の拡張関数が取れない"@,
        stage < 1 || stage > 9 ==> failure_stage(stage) == "不明"@,
{
}

} // verus!
