//! The client's side of textures shared through Direct3D 11.
//!
//! Pointers are carried as numbers; zero is the null pointer.
use crate::shared_texture::{FenceError, FenceState, OpenedState, UnityInterfaceGUID};
use vstd::prelude::*;
use vstd::string::*;

verus! {

/// The name of the game engine's interface to the graphics device.
pub const UNITY_GRAPHICSD3D11_GUID_HIGH: u64 = 0xAAB3_7EF8_7A87_D748;

/// See `UNITY_GRAPHICSD3D11_GUID_HIGH`.
pub const UNITY_GRAPHICSD3D11_GUID_LOW: u64 = 0xBF76_967F_07EF_B177;

/// The name of the game engine's interface to the graphics device.
pub fn graphics_guid() -> (guid: UnityInterfaceGUID)
    ensures
        guid.m_guid_high == UNITY_GRAPHICSD3D11_GUID_HIGH,
        guid.m_guid_low == UNITY_GRAPHICSD3D11_GUID_LOW,
{
    UnityInterfaceGUID { m_guid_high: UNITY_GRAPHICSD3D11_GUID_HIGH, m_guid_low: UNITY_GRAPHICSD3D11_GUID_LOW }
}

/// What is known of the engine's graphics, and the textures and the fence that were opened there.
#[derive(Debug)]
pub struct UnityGraphics<T> {
    pub interfaces: usize,
    pub device: usize,
    pub opened: OpenedState<T>,
    pub fence: FenceState,
}

/// What the engine says when it is asked for its device.
#[derive(Clone, Copy, Debug, PartialEq, Eq, Structural)]
pub struct DeviceAnswer {
    pub graphics: usize,
    pub device: usize,
}

/// The device that is known once the engine was asked, if it had to be.
pub open spec fn resolved(interfaces: usize, device: usize, answer: DeviceAnswer) -> usize {
    if device != 0 {
        device
    } else if interfaces == 0 || answer.graphics == 0 {
        0
    } else {
        answer.device
    }
}

/// Nothing is known yet.
pub fn unconnected<T>() -> (graphics: UnityGraphics<T>)
    ensures
        graphics.interfaces == 0,
        graphics.device == 0,
        graphics.opened.current is None,
        graphics.opened.previous is None,
        graphics.fence.last_waited is None,
{
    UnityGraphics {
        interfaces: 0,
        device: 0,
        opened: OpenedState::new(),
        fence: FenceState::new(),
    }
}

/// Whether the engine has to be asked for its device.
pub fn asks_for_device<T>(graphics: &UnityGraphics<T>) -> (asks: bool)
    ensures
        asks == (graphics.device == 0 && graphics.interfaces != 0),
{
    graphics.device == 0 && graphics.interfaces != 0
}

/// Takes note of what the engine said when it was asked for its device. The result is the device,
/// or zero.
pub fn try_resolve_d3d11_device<T>(graphics: &mut UnityGraphics<T>, answer: DeviceAnswer) -> (device:
    usize)
    ensures
        device == resolved(old(graphics).interfaces, old(graphics).device, answer),
        final(graphics).device == device,
        final(graphics).interfaces == old(graphics).interfaces,
        final(graphics).opened == old(graphics).opened,
        final(graphics).fence == old(graphics).fence,
{
    if graphics.device == 0 && graphics.interfaces != 0 && answer.graphics != 0 {
        graphics.device = answer.device;
    }
    graphics.device
}

/// Takes the engine's interfaces, and asks for the device at once.
pub fn set_unity_interfaces<T>(
    graphics: &mut UnityGraphics<T>,
    interfaces: usize,
    answer: DeviceAnswer,
)
    ensures
        final(graphics).interfaces == interfaces,
        final(graphics).device == resolved(interfaces, old(graphics).device, answer),
        final(graphics).opened == old(graphics).opened,
        final(graphics).fence == old(graphics).fence,
{
    graphics.interfaces = interfaces;
    let _device: usize = try_resolve_d3d11_device(graphics, answer);
}

/// Takes a device of the host's own in place of the engine's.
pub fn set_external_device<T>(graphics: &mut UnityGraphics<T>, device: usize)
    ensures
        final(graphics).device == device,
        final(graphics).interfaces == old(graphics).interfaces,
        final(graphics).opened == old(graphics).opened,
        final(graphics).fence == old(graphics).fence,
{
    graphics.device = device;
}

/// Forgets the engine, its device, and everything that was opened there.
pub fn clear_unity_interfaces<T>(graphics: &mut UnityGraphics<T>)
    ensures
        final(graphics).interfaces == 0,
        final(graphics).device == 0,
        final(graphics).opened.current is None,
        final(graphics).opened.previous is None,
        final(graphics).fence.last_waited is None,
{
    graphics.interfaces = 0;
    graphics.device = 0;
    graphics.opened.clear();
    graphics.fence.clear();
}

/// Whether the engine draws through Direct3D 11. `answer` is what it says when it is asked for its
/// device.
pub fn is_connected<T>(graphics: &mut UnityGraphics<T>, answer: DeviceAnswer) -> (connected: bool)
    ensures
        connected == (resolved(old(graphics).interfaces, old(graphics).device, answer) != 0),
        final(graphics).device == resolved(old(graphics).interfaces, old(graphics).device, answer),
        final(graphics).interfaces == old(graphics).interfaces,
        final(graphics).opened == old(graphics).opened,
        final(graphics).fence == old(graphics).fence,
{
    try_resolve_d3d11_device(graphics, answer) != 0
}

/// Why a fence cannot be opened, in words.
pub open spec fn fence_words(error: FenceError) -> Seq<char> {
    match error {
        FenceError::NoHandle => "fence handle is 0"@,
        FenceError::NoDevice => "Unity D3D11 device not yet available"@,
    }
}

/// Why a fence cannot be opened, in words.
pub fn fence_error_message(error: FenceError) -> (message: &'static str)
    ensures
        message@ == fence_words(error),
{
    match error {
        FenceError::NoHandle => "fence handle is 0",
        FenceError::NoDevice => "Unity D3D11 device not yet available",
    }
}

/// A device that is known stays. One that is not is the one that the engine names once there are interfaces
/// through which the engine's graphics can be reached; until then there is none.
pub proof fn law_device_is_found_once(interfaces: usize, device: usize, answer: DeviceAnswer)
    ensures
        device != 0 ==> resolved(interfaces, device, answer) == device,
        interfaces != 0 && answer.graphics != 0 ==> resolved(interfaces, 0, answer) == answer.device,
        interfaces == 0 || answer.graphics == 0 ==> resolved(interfaces, 0, answer) == 0,
        answer.device != 0 ==> forall|later: DeviceAnswer| interfaces != 0 && answer.graphics != 0
            ==> #[trigger] resolved(interfaces, resolved(interfaces, 0, answer), later)
            == answer.device,
{
}

/// The interface to the graphics device has the name that the engine gave it.
pub proof fn law_interface_has_its_name(guid: UnityInterfaceGUID)
    requires
        guid.m_guid_high == UNITY_GRAPHICSD3D11_GUID_HIGH,
        guid.m_guid_low == UNITY_GRAPHICSD3D11_GUID_LOW,
    ensures
        guid.m_guid_high == 0xAAB3_7EF8_7A87_D748,
        guid.m_guid_low == 0xBF76_967F_07EF_B177,
{
}

} // verus!
