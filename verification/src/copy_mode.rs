//! How a painted surface is copied out of the browser engine's pool, and when the engine may paint
//! the next one.
use vstd::prelude::*;
use vstd::string::*;

verus! {

/// How a surface is copied.
#[derive(Clone, Copy, Debug, PartialEq, Eq, Structural)]
pub enum CopyMode {
    /// The copy is started, and sent on once it is complete.
    Async,
    /// The copy is sent on without waiting for it. Frames can tear.
    UnsafeNoWait,
    /// The copy is waited for.
    Sync,
}

/// The mode that two switches ask for. The unsafe one wins.
pub open spec fn mode_for(unsafe_no_wait: bool, sync_copy: bool) -> CopyMode {
    if unsafe_no_wait {
        CopyMode::UnsafeNoWait
    } else if sync_copy {
        CopyMode::Sync
    } else {
        CopyMode::Async
    }
}

/// Whether an environment variable switches something on: it is "1".
pub fn switched_on(value: Option<&str>) -> (on: bool)
    ensures
        on == match value {
            Some(text) => text@ == "1"@,
            None => false,
        },
{
    match value {
        Some(text) => {
            let given: String = text.to_owned();
            let wanted: String = "1".to_owned();
            given == wanted
        },
        None => false,
    }
}

/// The mode that two environment variables ask for.
pub fn copy_mode(unsafe_no_wait: bool, sync_copy: bool) -> (mode: CopyMode)
    ensures
        mode == mode_for(unsafe_no_wait, sync_copy),
{
    if unsafe_no_wait {
        CopyMode::UnsafeNoWait
    } else if sync_copy {
        CopyMode::Sync
    } else {
        CopyMode::Async
    }
}

impl CopyMode {
    /// The mode's name in the statistics.
    pub fn name(self) -> (name: &'static str)
        ensures
            name@ == match self {
                CopyMode::Async => "async"@,
                CopyMode::UnsafeNoWait => "unsafe-no-wait"@,
                CopyMode::Sync => "sync"@,
            },
    {
        match self {
            CopyMode::Async => "async",
            CopyMode::UnsafeNoWait => "unsafe-no-wait",
            CopyMode::Sync => "sync",
        }
    }
}

/// Whether the engine may be told to paint.
pub open spec fn may_paint(mode: CopyMode, gate_disabled: bool, copies_in_flight: i32) -> bool {
    mode != CopyMode::Async || gate_disabled || copies_in_flight == 0
}

/// Whether the engine may be told to paint: not while a copy still reads what it painted last. The
/// gate can be switched off, to see what happens then.
pub fn begin_frame_gate_open(mode: CopyMode, gate_disabled: bool, copies_in_flight: i32) -> (open:
    bool)
    ensures
        open == may_paint(mode, gate_disabled, copies_in_flight),
{
    match mode {
        CopyMode::Async => gate_disabled || copies_in_flight == 0,
        _ => true,
    }
}

/// Without a wish copies are started and sent on once complete. The wish to wait for them is heeded unless
/// there is also the wish not to wait at all, which always is.
pub proof fn law_wish_not_to_wait_wins(sync_copy: bool)
    ensures
        mode_for(true, sync_copy) == CopyMode::UnsafeNoWait,
        mode_for(false, true) == CopyMode::Sync,
        mode_for(false, false) == CopyMode::Async,
{
}

/// The engine is kept from painting by copies that are under way, if copies are not waited for otherwise and
/// this safeguard is not switched off, and by nothing else.
pub proof fn law_engine_waits_for_copies_under_way(
    mode: CopyMode,
    gate_disabled: bool,
    copies_in_flight: i32,
)
    ensures
        copies_in_flight != 0 ==> !may_paint(CopyMode::Async, false, copies_in_flight),
        may_paint(mode, gate_disabled, 0),
        may_paint(mode, true, copies_in_flight),
        mode != CopyMode::Async ==> may_paint(mode, gate_disabled, copies_in_flight),
{
}

} // verus!
