//! The client's side of textures shared through Direct3D 12.
//!
//! Pointers are carried as numbers; zero is the null pointer.
use crate::d3d11;
use crate::shared_texture::{FenceError, FenceState, OpenedState, UnityInterfaceGUID};
use vstd::prelude::*;
use vstd::string::*;

verus! {

/// The name of the game engine's interface to the graphics device.
pub const UNITY_GRAPHICSD3D12_V5_GUID_HIGH: u64 = 0xF5C8_D8A3_7D37_BC42;

/// See `UNITY_GRAPHICSD3D12_V5_GUID_HIGH`.
pub const UNITY_GRAPHICSD3D12_V5_GUID_LOW: u64 = 0xB02D_FE93_B506_4A27;

/// The name of the game engine's interface to the graphics device.
pub fn graphics_guid() -> (guid: UnityInterfaceGUID)
    ensures
        guid.m_guid_high == UNITY_GRAPHICSD3D12_V5_GUID_HIGH,
        guid.m_guid_low == UNITY_GRAPHICSD3D12_V5_GUID_LOW,
{
    UnityInterfaceGUID { m_guid_high: UNITY_GRAPHICSD3D12_V5_GUID_HIGH, m_guid_low: UNITY_GRAPHICSD3D12_V5_GUID_LOW }
}

/// What is known of the engine's graphics.
#[derive(Clone, Copy, Debug, PartialEq, Eq, Structural)]
pub struct UnityPointers {
    pub interfaces: usize,
    pub graphics: usize,
    pub device: usize,
    /// The queue of commands to the device.
    pub queue: usize,
}

/// The engine's graphics, and the resources and the fence that were opened there.
#[derive(Debug)]
pub struct UnityGraphics<T> {
    pub pointers: UnityPointers,
    pub opened: OpenedState<T>,
    /// The resources whose state the engine was told of.
    pub declared: Vec<usize>,
    pub fence: FenceState,
}

/// What the engine says when it is asked for its device.
#[derive(Clone, Copy, Debug, PartialEq, Eq, Structural)]
pub struct DeviceAnswer {
    pub graphics: usize,
    pub device: usize,
    pub queue: usize,
}

/// What is known once the engine was asked, if it had to be. The queue is taken together with the
/// device.
pub open spec fn resolved(pointers: UnityPointers, answer: DeviceAnswer) -> UnityPointers {
    if pointers.device != 0 || pointers.interfaces == 0 || answer.graphics == 0 {
        pointers
    } else if answer.device == 0 {
        UnityPointers { graphics: answer.graphics, ..pointers }
    } else {
        UnityPointers {
            graphics: answer.graphics,
            device: answer.device,
            queue: if answer.queue != 0 {
                answer.queue
            } else {
                pointers.queue
            },
            ..pointers
        }
    }
}

/// No pointer at all.
pub open spec fn unknown() -> UnityPointers {
    UnityPointers { interfaces: 0, graphics: 0, device: 0, queue: 0 }
}

/// Nothing is known yet.
pub fn unconnected<T>() -> (graphics: UnityGraphics<T>)
    ensures
        graphics.pointers == unknown(),
        graphics.opened.current is None,
        graphics.opened.previous is None,
        graphics.declared@ == Seq::<usize>::empty(),
        graphics.fence.last_waited is None,
{
    UnityGraphics {
        pointers: UnityPointers { interfaces: 0, graphics: 0, device: 0, queue: 0 },
        opened: OpenedState::new(),
        declared: Vec::new(),
        fence: FenceState::new(),
    }
}

/// Whether the engine has to be asked for its device.
pub fn asks_for_device<T>(graphics: &UnityGraphics<T>) -> (asks: bool)
    ensures
        asks == (graphics.pointers.device == 0 && graphics.pointers.interfaces != 0),
{
    graphics.pointers.device == 0 && graphics.pointers.interfaces != 0
}

/// Takes note of what the engine said when it was asked for its device. The result is the device,
/// or zero.
pub fn try_resolve_d3d12_device<T>(graphics: &mut UnityGraphics<T>, answer: DeviceAnswer) -> (device:
    usize)
    ensures
        final(graphics).pointers == resolved(old(graphics).pointers, answer),
        device == final(graphics).pointers.device,
        final(graphics).opened == old(graphics).opened,
        final(graphics).declared == old(graphics).declared,
        final(graphics).fence == old(graphics).fence,
{
    let known: UnityPointers = graphics.pointers;
    if known.device == 0 && known.interfaces != 0 && answer.graphics != 0 {
        let queue: usize = if answer.device != 0 && answer.queue != 0 {
            answer.queue
        } else {
            known.queue
        };
        graphics.pointers = UnityPointers {
            interfaces: known.interfaces,
            graphics: answer.graphics,
            device: answer.device,
            queue,
        };
    }
    graphics.pointers.device
}

/// Takes the engine's interfaces, and asks for the device at once.
pub fn set_unity_interfaces<T>(
    graphics: &mut UnityGraphics<T>,
    interfaces: usize,
    answer: DeviceAnswer,
)
    ensures
        final(graphics).pointers == resolved(
            UnityPointers { interfaces, ..old(graphics).pointers },
            answer,
        ),
        final(graphics).opened == old(graphics).opened,
        final(graphics).declared == old(graphics).declared,
        final(graphics).fence == old(graphics).fence,
{
    graphics.pointers.interfaces = interfaces;
    let _device: usize = try_resolve_d3d12_device(graphics, answer);
}

/// Forgets the engine, its device, and everything that was opened there.
pub fn clear_unity_interfaces<T>(graphics: &mut UnityGraphics<T>)
    ensures
        final(graphics).pointers == unknown(),
        final(graphics).opened.current is None,
        final(graphics).opened.previous is None,
        final(graphics).declared@ == Seq::<usize>::empty(),
        final(graphics).fence.last_waited is None,
{
    graphics.pointers = UnityPointers { interfaces: 0, graphics: 0, device: 0, queue: 0 };
    graphics.opened.clear();
    graphics.declared.clear();
    graphics.fence.clear();
}

/// Whether the engine draws through Direct3D 12. `answer` is what it says when it is asked for its
/// device.
pub fn is_connected<T>(graphics: &mut UnityGraphics<T>, answer: DeviceAnswer) -> (connected: bool)
    ensures
        connected == (resolved(old(graphics).pointers, answer).device != 0),
        final(graphics).pointers == resolved(old(graphics).pointers, answer),
        final(graphics).opened == old(graphics).opened,
        final(graphics).declared == old(graphics).declared,
        final(graphics).fence == old(graphics).fence,
{
    try_resolve_d3d12_device(graphics, answer) != 0
}

/// The queue of commands to the device, or zero. Where it is not known, the engine is asked for its
/// device, and `answer` is what it says then.
pub fn unity_queue<T>(graphics: &mut UnityGraphics<T>, answer: DeviceAnswer) -> (queue: usize)
    ensures
        final(graphics).pointers == if old(graphics).pointers.queue != 0 {
            old(graphics).pointers
        } else {
            resolved(old(graphics).pointers, answer)
        },
        queue == final(graphics).pointers.queue,
        final(graphics).opened == old(graphics).opened,
        final(graphics).declared == old(graphics).declared,
        final(graphics).fence == old(graphics).fence,
{
    if graphics.pointers.queue == 0 {
        let _device: usize = try_resolve_d3d12_device(graphics, answer);
    }
    graphics.pointers.queue
}

/// Takes note that the engine was told of a resource's state.
pub fn declared<T>(graphics: &mut UnityGraphics<T>, resource: usize)
    ensures
        final(graphics).declared@ == old(graphics).declared@.push(resource),
        final(graphics).pointers == old(graphics).pointers,
        final(graphics).opened == old(graphics).opened,
        final(graphics).fence == old(graphics).fence,
{
    graphics.declared.push(resource);
}

/// Why a fence cannot be opened, in words.
pub open spec fn fence_words(error: FenceError) -> Seq<char> {
    match error {
        FenceError::NoHandle => "fence handle is 0"@,
        FenceError::NoDevice => "Unity D3D12 device not available"@,
    }
}

/// Why a fence cannot be opened, in words.
pub fn fence_error_message(error: FenceError) -> (message: &'static str)
    ensures
        message@ == fence_words(error),
{
    match error {
        FenceError::NoHandle => "fence handle is 0",
        FenceError::NoDevice => "Unity D3D12 device not available",
    }
}

/// A device that is known stays, and so does everything known with it. Without interfaces, or without the
/// engine's graphics, nothing becomes known.
pub proof fn law_known_device_stays(pointers: UnityPointers, answer: DeviceAnswer)
    ensures
        pointers.device != 0 || pointers.interfaces == 0 || answer.graphics == 0 ==> resolved(
            pointers,
            answer,
        ) == pointers,
{
}

/// A device becomes known together with the engine's graphics and, where the engine names one, its queue. A
/// queue without a device is not taken.
pub proof fn law_device_brings_its_queue(pointers: UnityPointers, answer: DeviceAnswer)
    requires
        pointers.device == 0,
        pointers.interfaces != 0,
        answer.graphics != 0,
    ensures
        ({
            let known = resolved(pointers, answer);
            &&& known.interfaces == pointers.interfaces
            &&& known.graphics == answer.graphics
            &&& known.device == answer.device
            &&& answer.device != 0 && answer.queue != 0 ==> known.queue == answer.queue
            &&& answer.device == 0 || answer.queue == 0 ==> known.queue == pointers.queue
        }),
{
}

/// A missing handle is complained of in the same words for either kind of device, and a missing device in
/// words of its own.
pub proof fn law_missing_handle_is_called_the_same()
    ensures
        fence_words(FenceError::NoHandle) == d3d11::fence_words(FenceError::NoHandle),
        fence_words(FenceError::NoDevice) != d3d11::fence_words(FenceError::NoDevice),
        fence_words(FenceError::NoHandle) != fence_words(FenceError::NoDevice),
{
    reveal_strlit("fence handle is 0");
    reveal_strlit("Unity D3D12 device not available");
    reveal_strlit("Unity D3D11 device not yet available");
    assert("fence handle is 0"@.len() == 17);
    assert("Unity D3D12 device not available"@.len() == 32);
    assert("Unity D3D11 device not yet available"@.len() == 36);
}

/// The interface to the graphics device has the name that the engine gave it.
pub proof fn law_interface_has_its_name(guid: UnityInterfaceGUID)
    requires
        guid.m_guid_high == UNITY_GRAPHICSD3D12_V5_GUID_HIGH,
        guid.m_guid_low == UNITY_GRAPHICSD3D12_V5_GUID_LOW,
    ensures
        guid.m_guid_high == 0xF5C8_D8A3_7D37_BC42,
        guid.m_guid_low == 0xB02D_FE93_B506_4A27,
{
}

/// Before the engine has said anything no pointer is known, and without interfaces its answers change
/// nothing.
pub proof fn law_nothing_is_known_at_first(answer: DeviceAnswer)
    ensures
        unknown().interfaces == 0,
        unknown().graphics == 0,
        unknown().device == 0,
        unknown().queue == 0,
        resolved(unknown(), answer) == unknown(),
{
}

} // verus!
