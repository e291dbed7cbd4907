//! Textures that the server shares with the client: which one is open, and which frame of it is
//! complete.
use vstd::prelude::*;

verus! {

/// Names an interface of the game engine.
#[derive(Clone, Copy, Debug, PartialEq, Eq, Structural)]
pub struct UnityInterfaceGUID {
    pub m_guid_high: u64,
    pub m_guid_low: u64,
}

/// A texture that was opened, with the handle and the size that it was opened for.
#[derive(Debug)]
pub struct OpenedTexture<T> {
    pub handle: u64,
    pub texture: T,
    pub width: u32,
    pub height: u32,
}

/// The texture that is in use, and the one before it. The earlier one is kept because the engine
/// may still draw with it.
#[derive(Debug)]
pub struct OpenedState<T> {
    pub current: Option<OpenedTexture<T>>,
    pub previous: Option<OpenedTexture<T>>,
}

/// What is to be done for a texture that the server has named.
#[derive(Clone, Copy, Debug, PartialEq, Eq, Structural)]
pub enum OpenStep {
    /// There is no such texture, or no device to open it with.
    Nothing,
    /// It is the one that is in use.
    Cached,
    /// It is to be opened.
    Open,
}

impl<T> OpenedTexture<T> {
    /// Whether this texture was opened for the given handle and size.
    pub open spec fn matches_key(self, handle: u64, width: u32, height: u32) -> bool {
        self.handle == handle && self.width == width && self.height == height
    }
}

/// What is to be done for a texture that the server has named.
pub open spec fn open_step<T>(
    state: OpenedState<T>,
    handle: u64,
    device: bool,
    width: u32,
    height: u32,
) -> OpenStep {
    if handle == 0 || !device {
        OpenStep::Nothing
    } else {
        match state.current {
            Some(current) if current.matches_key(handle, width, height) => OpenStep::Cached,
            _ => OpenStep::Open,
        }
    }
}

/// The textures once another one is opened.
pub open spec fn opened<T>(state: OpenedState<T>, texture: OpenedTexture<T>) -> OpenedState<T> {
    OpenedState { current: Some(texture), previous: state.current }
}

impl<T> OpenedState<T> {
    /// No texture.
    pub fn new() -> (state: OpenedState<T>)
        ensures
            state.current is None,
            state.previous is None,
    {
        OpenedState { current: None, previous: None }
    }

    /// Decides what is to be done for a texture that the server has named. `device` says whether
    /// there is a device to open it with.
    pub fn next_step(&self, handle: u64, device: bool, width: u32, height: u32) -> (step: OpenStep)
        ensures
            step == open_step(*self, handle, device, width, height),
    {
        if handle == 0 || !device {
            return OpenStep::Nothing;
        }
        match &self.current {
            Some(current) => if current.handle == handle && current.width == width && current.height
                == height {
                OpenStep::Cached
            } else {
                OpenStep::Open
            },
            None => OpenStep::Open,
        }
    }

    /// Puts a texture into use. The one before it is kept, and the one before that is given up.
    pub fn store(&mut self, handle: u64, texture: T, width: u32, height: u32)
        ensures
            *final(self) == opened(*old(self), OpenedTexture { handle, texture, width, height }),
    {
        let mut current: Option<OpenedTexture<T>> = Some(
            OpenedTexture { handle, texture, width, height },
        );
        std::mem::swap(&mut self.current, &mut current);
        self.previous = current;
    }

    /// Gives up both textures.
    pub fn clear(&mut self)
        ensures
            final(self).current is None,
            final(self).previous is None,
    {
        self.current = None;
        self.previous = None;
    }
}

/// Why a fence cannot be opened.
#[derive(Clone, Copy, Debug, PartialEq, Eq, Structural)]
pub enum FenceError {
    NoHandle,
    NoDevice,
}

/// The counter that says how far the server has come with its frames.
#[derive(Clone, Copy, Debug, PartialEq, Eq, Structural)]
pub struct FenceState {
    /// The last value that was waited for, where there is a fence.
    pub last_waited: Option<u64>,
}

/// Whether a value of the fence has to be waited for: it is none that was waited for already.
pub open spec fn must_wait(state: FenceState, target: u64) -> bool {
    target != 0 && (state.last_waited matches Some(last) && target > last)
}

/// The fence once a value was waited for.
pub open spec fn waited(state: FenceState, target: u64) -> FenceState {
    if must_wait(state, target) {
        FenceState { last_waited: Some(target) }
    } else {
        state
    }
}

/// Whether a fence can be opened, or why not.
pub open spec fn fence_check(handle: u64, device: bool) -> Result<(), FenceError> {
    if handle == 0 {
        Err(FenceError::NoHandle)
    } else if !device {
        Err(FenceError::NoDevice)
    } else {
        Ok(())
    }
}

impl FenceState {
    /// No fence.
    pub fn new() -> (state: FenceState)
        ensures
            state.last_waited is None,
    {
        FenceState { last_waited: None }
    }

    /// Whether a fence can be opened at all.
    pub fn check_open(handle: u64, device: bool) -> (checked: Result<(), FenceError>)
        ensures
            checked == fence_check(handle, device),
    {
        if handle == 0 {
            return Err(FenceError::NoHandle);
        }
        if !device {
            return Err(FenceError::NoDevice);
        }
        Ok(())
    }

    /// Takes note that a fence was opened.
    pub fn open(&mut self)
        ensures
            final(self).last_waited == Some(0u64),
    {
        self.last_waited = Some(0);
    }

    /// Whether a value of the fence has to be waited for. Without a fence nothing is.
    pub fn needs_wait(&self, target: u64) -> (needed: bool)
        ensures
            needed == must_wait(*self, target),
    {
        match self.last_waited {
            Some(last) => target != 0 && target > last,
            None => false,
        }
    }

    /// Takes note that a value was waited for.
    pub fn waited(&mut self, target: u64)
        ensures
            *final(self) == waited(*old(self), target),
    {
        if self.needs_wait(target) {
            self.last_waited = Some(target);
        }
    }

    /// Gives up the fence.
    pub fn clear(&mut self)
        ensures
            final(self).last_waited is None,
    {
        self.last_waited = None;
    }
}

/// A texture that was opened is not opened again while the server names the same one.
pub proof fn law_texture_is_opened_once<T>(state: OpenedState<T>, texture: OpenedTexture<T>)
    requires
        texture.handle != 0,
    ensures
        open_step(
            opened(state, texture),
            texture.handle,
            true,
            texture.width,
            texture.height,
        ) == OpenStep::Cached,
{
}

/// A texture outlives its replacement: only opening a second one gives it up.
pub proof fn law_texture_outlives_its_replacement<T>(
    state: OpenedState<T>,
    first: OpenedTexture<T>,
    second: OpenedTexture<T>,
)
    ensures
        opened(opened(state, first), second).previous == Some(first),
{
}

/// No value of the fence is waited for twice, nor is a smaller one once a larger one was.
pub proof fn law_no_value_is_waited_for_twice(state: FenceState, target: u64, later: u64)
    requires
        state.last_waited is Some,
        later <= target,
    ensures
        !must_wait(waited(state, target), later),
{
}

/// Another texture than the one in use is opened: one with another handle, and one with the same handle and
/// another size. Without a handle or a device nothing is.
pub proof fn law_another_texture_is_opened<T>(
    state: OpenedState<T>,
    handle: u64,
    device: bool,
    width: u32,
    height: u32,
)
    ensures
        handle == 0 || !device ==> open_step(state, handle, device, width, height)
            == OpenStep::Nothing,
        handle != 0 && device && state.current is None ==> open_step(
            state,
            handle,
            device,
            width,
            height,
        ) == OpenStep::Open,
        handle != 0 && device ==> (state.current matches Some(current) ==> (current.handle != handle
            || current.width != width || current.height != height) ==> open_step(
            state,
            handle,
            device,
            width,
            height,
        ) == OpenStep::Open),
{
}

/// The texture that was opened last is the one in use.
pub proof fn law_newest_texture_is_in_use<T>(state: OpenedState<T>, texture: OpenedTexture<T>)
    ensures
        opened(state, texture).current == Some(texture),
        opened(state, texture).previous == state.current,
{
}

/// Every value of the fence beyond the last one is waited for, as long as there is a fence; and once it was
/// waited for, it is the last one.
pub proof fn law_new_values_are_waited_for(last: u64, target: u64)
    ensures
        target > last ==> must_wait(FenceState { last_waited: Some(last) }, target),
        target > last ==> waited(FenceState { last_waited: Some(last) }, target).last_waited == Some(
            target,
        ),
        target <= last ==> waited(FenceState { last_waited: Some(last) }, target).last_waited
            == Some(last),
        !must_wait(FenceState { last_waited: None }, target),
        waited(FenceState { last_waited: None }, target).last_waited is None,
{
}

/// A fence is opened where there are both a handle and a device; where both are missing the handle is what is
/// complained of.
pub proof fn law_fence_needs_handle_and_device(handle: u64, device: bool)
    ensures
        handle != 0 ==> fence_check(handle, true) == Ok::<(), FenceError>(()),
        handle != 0 ==> fence_check(handle, false) == Err::<(), FenceError>(FenceError::NoDevice),
        fence_check(0, device) == Err::<(), FenceError>(FenceError::NoHandle),
{
}

} // verus!
